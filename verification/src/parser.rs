//! The parser: recursive descent from tokens to the syntax tree.
//!
//! Precedence, lowest to highest: assignment (also property `Set`),
//! `or`, `and`, equality, comparison, term, factor, unary, call, then
//! primary.  `for` is desugared here into a block holding the
//! initializer and a `while` whose body runs the loop body and then
//! the increment; a `return` without an expression carries an explicit
//! `nil`.  The contracts here are structural: the token stream is never
//! touched, the position only moves forward, and success consumes at
//! least one token; on a syntax error parsing stops with the error.
use crate::grammar::{
    AssignmentExp, BinaryExp, BlockStm, CallExp, ClassDecl, ClassMethodDecl, EmptyStm,
    ExpressionStm, FuncBodyStm, FunctionDecl, GetExp, GroupingExp, IfElseStm, LiteralExp,
    LogicalExp, Node, NilExp, PrintStm, ReturnStm, SetExp, SuperClassDecl, SuperExp, ThisExp,
    UnaryExp, VarDecl, WhileStm,
};
use crate::scanner::{ScanError, Scanner, Token, TokenType};
use std::rc::Rc;
use vstd::prelude::*;

verus! {

/// A syntax error, with the text the command line reports.
pub struct ParseError {
    pub message: String,
}

impl Clone for ParseError {
    fn clone(&self) -> (r: ParseError)
        ensures
            r@ == self@,
    {
        ParseError { message: self.message.clone() }
    }
}

impl View for ParseError {
    type V = Seq<char>;

    open spec fn view(&self) -> Seq<char> {
        self.message@
    }
}

pub struct Parser {
    source: String,
    tokens: Vec<Result<Token, ScanError>>,
    pos: usize,
}

impl Parser {
    pub closed spec fn toks(&self) -> Seq<Result<Token, ScanError>> {
        self.tokens@
    }

    pub closed spec fn spec_pos(&self) -> int {
        self.pos as int
    }

    pub closed spec fn wf(&self) -> bool {
        self.pos <= self.tokens@.len()
    }

    /// A parser over the tokens the scanner yields, the trailing `EOF`
    /// token included.
    pub fn new(source: &str, scanner: Scanner) -> (r: Parser)
        requires
            scanner.wf(),
        ensures
            r.wf(),
    {
        let mut scanner = scanner;
        let mut tokens: Vec<Result<Token, ScanError>> = Vec::new();
        loop
            invariant
                scanner.wf(),
            decreases
                    scanner.src().len() - scanner.spec_pos() + (if scanner.spec_eof() {
                        0int
                    } else {
                        1int
                    }),
        {
            proof {
                scanner.lemma_wf_bounds();
                crate::scanner::lemma_scan_token_progress(
                    scanner.src(),
                    scanner.spec_pos(),
                    scanner.spec_line(),
                );
            }
            match scanner.next() {
                Option::Some(item) => {
                    tokens.push(item);
                },
                Option::None => {
                    break ;
                },
            }
        }
        Parser { source: String::from_str(source), tokens, pos: 0 }
    }

    /// The error report for an unexpected token.
    pub fn error_at(line: usize, lexeme: &str, message: &str) -> (r: String)
        ensures
            r@ == "[line "@ + crate::render::dec_digits_of(line as int) + "] Error at '"@
                + lexeme@ + "': "@ + message@,
    {
        let mut out = String::from_str("[line ");
        out.append(crate::render::render_usize(line).as_str());
        out.append("] Error at '");
        out.append(lexeme);
        out.append("': ");
        out.append(message);
        out
    }

    fn fail(text: &str) -> (r: Result<Node, ParseError>)
        ensures
            r is Err,
    {
        Result::Err(ParseError { message: String::from_str(text) })
    }

    /// The scan error's text, passed on as a parse error.
    fn scan_fail(e: &ScanError) -> (r: Result<Node, ParseError>)
        ensures
            r is Err,
    {
        Result::Err(ParseError { message: e.message() })
    }

    /// The kind of the next token; a scan error or the end of the
    /// stream both stop the parse.
    fn peek(&self) -> (r: Option<&Result<Token, ScanError>>)
        requires
            self.wf(),
        ensures
            r is Some <==> self.spec_pos() < self.toks().len(),
            r matches Option::Some(item) ==> *item == self.toks()[self.spec_pos()],
    {
        if self.pos < self.tokens.len() {
            Option::Some(&self.tokens[self.pos])
        } else {
            Option::None
        }
    }

    /// The next token, consumed.
    fn advance(&mut self) -> (r: Option<Result<Token, ScanError>>)
        requires
            old(self).wf(),
        ensures
            final(self).wf(),
            final(self).toks() == old(self).toks(),
            r is Some ==> final(self).spec_pos() == old(self).spec_pos() + 1,
            r is None ==> final(self).spec_pos() == old(self).spec_pos(),
            r is Some <==> old(self).spec_pos() < old(self).toks().len(),
    {
        if self.pos < self.tokens.len() {
            let item = match &self.tokens[self.pos] {
                Result::Ok(t) => Result::Ok(t.clone()),
                Result::Err(e) => Result::Err(e.clone()),
            };
            self.pos = self.pos + 1;
            Option::Some(item)
        } else {
            Option::None
        }
    }

    /// Every top-level statement of the program, or the first error:
    /// declarations and statements only, never a bare expression node.
    pub fn parse_statements(self) -> (r: Result<Vec<Node>, ParseError>)
        requires
            self.wf(),
        ensures
            r matches Result::Ok(stmts) ==> forall|i: int|
                0 <= i < stmts@.len() ==> ((#[trigger] stmts@[i]) is ClassDecl || stmts@[i]
                    is FunctionDecl || stmts@[i] is VarDecl || stmts@[i] is PrintStm || stmts@[i]
                    is BlockStm || stmts@[i] is IfElseStm || stmts@[i] is WhileStm || stmts@[i]
                    is ReturnStm || stmts@[i] is ExpressionStm),
    {
        let mut parser = self;
        let mut statements: Vec<Node> = Vec::new();
        loop
            invariant
                parser.wf(),
                forall|i: int|
                    0 <= i < statements@.len() ==> ((#[trigger] statements@[i]) is ClassDecl
                        || statements@[i] is FunctionDecl || statements@[i] is VarDecl
                        || statements@[i] is PrintStm || statements@[i] is BlockStm
                        || statements@[i] is IfElseStm || statements@[i] is WhileStm
                        || statements@[i] is ReturnStm || statements@[i] is ExpressionStm),
            decreases parser.toks().len() - parser.spec_pos(),
        {
            match parser.parse() {
                Option::None => {
                    return Result::Ok(statements);
                },
                Option::Some(Result::Ok(statement)) => {
                    statements.push(statement);
                },
                Option::Some(Result::Err(e)) => {
                    return Result::Err(e);
                },
            }
        }
    }

    /// One declaration or statement, or `None` exactly at the end of
    /// input: when the position stands past the last token or on the
    /// trailing `EOF` token.
    pub fn parse(&mut self) -> (r: Option<Result<Node, ParseError>>)
        requires
            old(self).wf(),
        ensures
            final(self).wf(),
            final(self).toks() == old(self).toks(),
            old(self).spec_pos() <= final(self).spec_pos(),
            (r is None) <==> (old(self).spec_pos() >= old(self).toks().len() || (old(
                self,
            ).toks()[old(self).spec_pos()] matches Result::Ok(t) && t@.kind
                is EOF)),
            r matches Option::Some(Result::Ok(_)) ==> final(self).spec_pos() > old(
                self,
            ).spec_pos(),
            r is None ==> final(self).spec_pos() == old(self).spec_pos(),
            r matches Option::Some(Result::Ok(n)) ==> (n is ClassDecl || n is FunctionDecl || n is VarDecl || n is PrintStm || n is BlockStm || n is IfElseStm || n is WhileStm || n is ReturnStm || n is ExpressionStm),
        decreases self.toks().len() - self.spec_pos(), 20int,
    {
        match self.peek() {
            Option::None => Option::None,
            Option::Some(Result::Err(e)) => Option::Some(Parser::scan_fail(e)),
            Option::Some(Result::Ok(token)) => {
                match &token.token_type {
                    TokenType::EOF => Option::None,
                    TokenType::CLASS => Option::Some(self.class_declaration()),
                    TokenType::FUN => Option::Some(self.fun_declaration()),
                    TokenType::VAR => Option::Some(self.var_declaration()),
                    _ => Option::Some(self.parse_statement()),
                }
            },
        }
    }

    /// One statement.
    pub fn parse_statement(&mut self) -> (r: Result<Node, ParseError>)
        requires
            old(self).wf(),
        ensures
            final(self).wf(),
            final(self).toks() == old(self).toks(),
            old(self).spec_pos() <= final(self).spec_pos(),
            r is Ok ==> final(self).spec_pos() > old(self).spec_pos(),
            r matches Result::Ok(n) ==> (n is PrintStm || n is BlockStm || n is IfElseStm || n is WhileStm || n is ReturnStm || n is ExpressionStm),
        decreases self.toks().len() - self.spec_pos(), 19int,
    {
        match self.peek() {
            Option::None => Parser::fail("Unexpected end of input"),
            Option::Some(Result::Err(e)) => Parser::scan_fail(e),
            Option::Some(Result::Ok(token)) => {
                match &token.token_type {
                    TokenType::PRINT => self.print_statement(),
                    TokenType::LEFT_BRACE => self.bloc_statement(),
                    TokenType::IF => self.if_else_statement(),
                    TokenType::WHILE => self.while_statement(),
                    TokenType::FOR => self.for_statement(),
                    TokenType::RETURN => self.return_statement(),
                    _ => self.expression_statement(),
                }
            },
        }
    }

    /// A single expression, for the expression-printing and
    /// expression-evaluating entries.
    pub fn parse_expression(&mut self) -> (r: Result<Node, ParseError>)
        requires
            old(self).wf(),
        ensures
            final(self).wf(),
            final(self).toks() == old(self).toks(),
            old(self).spec_pos() <= final(self).spec_pos(),
            r is Ok ==> final(self).spec_pos() > old(self).spec_pos(),
        decreases self.toks().len() - self.spec_pos(), 11int,
    {
        self.expression()
    }

    fn class_declaration(&mut self) -> (r: Result<Node, ParseError>)
        requires
            old(self).wf(),
            old(self).spec_pos() < old(self).toks().len(),
        ensures
            final(self).wf(),
            final(self).toks() == old(self).toks(),
            old(self).spec_pos() <= final(self).spec_pos(),
            r is Ok ==> final(self).spec_pos() > old(self).spec_pos(),
            r matches Result::Ok(n) ==> n is ClassDecl,
        decreases self.toks().len() - self.spec_pos(), 19int,
    {
        let _class = self.advance();
        let name = match self.advance() {
            Option::Some(Result::Ok(t)) => {
                if (match &t.token_type {
                    TokenType::IDENTIFIER => false,
                    _ => true,
                }) {
                    return Parser::fail("Unexpected token. Expected one of: TokenType::IDENTIFIER");
                }
                t
            },
            _ => {
                return Parser::fail("Unexpected token. Expected one of: TokenType::IDENTIFIER");
            },
        };
        let mut super_class: Option<SuperClassDecl> = Option::None;
        let less = match self.peek() {
            Option::Some(Result::Ok(t)) => match &t.token_type {
                TokenType::LESS => true,
                _ => false,
            },
            _ => false,
        };
        if less {
            let _less = self.advance();
            match self.advance() {
                Option::Some(Result::Ok(t)) => {
                    match &t.token_type {
                        TokenType::IDENTIFIER => {
                            super_class = Option::Some(SuperClassDecl { name: t });
                        },
                        _ => {
                            return Parser::fail(
                                "Unexpected token. Expected one of: TokenType::IDENTIFIER",
                            );
                        },
                    }
                },
                _ => {
                    return Parser::fail(
                        "Unexpected token. Expected one of: TokenType::IDENTIFIER",
                    );
                },
            }
        }
        match self.advance() {
            Option::Some(Result::Ok(t)) => {
                match &t.token_type {
                    TokenType::LEFT_BRACE => {},
                    _ => {
                        return Parser::fail(
                            "Unexpected token. Expected one of: TokenType::LEFT_BRACE",
                        );
                    },
                }
            },
            _ => {
                return Parser::fail("Unexpected token. Expected one of: TokenType::LEFT_BRACE");
            },
        }
        let mut methods: Vec<Node> = Vec::new();
        loop
            invariant
                self.wf(),
                self.toks() == old(self).toks(),
                old(self).spec_pos() < self.spec_pos(),
            decreases self.toks().len() - self.spec_pos(),
        {
            let stop = match self.peek() {
                Option::Some(Result::Ok(t)) => match &t.token_type {
                    TokenType::RIGHT_BRACE => true,
                    TokenType::EOF => true,
                    _ => false,
                },
                Option::Some(Result::Err(_)) => {
                    return Parser::fail("Unexpected token in a class body");
                },
                Option::None => true,
            };
            if stop {
                break ;
            }
            let method = match self.class_method_declaration() {
                Result::Ok(m) => m,
                Result::Err(e) => {
                    return Result::Err(e);
                },
            };
            methods.push(method);
        }
        match self.advance() {
            Option::Some(Result::Ok(t)) => {
                match &t.token_type {
                    TokenType::RIGHT_BRACE => {},
                    _ => {
                        return Parser::fail(
                            "Unexpected token. Expected one of: TokenType::RIGHT_BRACE",
                        );
                    },
                }
            },
            _ => {
                return Parser::fail("Unexpected token. Expected one of: TokenType::RIGHT_BRACE");
            },
        }
        Result::Ok(Node::ClassDecl(ClassDecl { name, super_class, methods }))
    }

    fn class_method_declaration(&mut self) -> (r: Result<Node, ParseError>)
        requires
            old(self).wf(),
        ensures
            final(self).wf(),
            final(self).toks() == old(self).toks(),
            old(self).spec_pos() <= final(self).spec_pos(),
            r is Ok ==> final(self).spec_pos() > old(self).spec_pos(),
            r matches Result::Ok(n) ==> n is ClassMethodDecl,
        decreases self.toks().len() - self.spec_pos(), 18int,
    {
        let name = match self.advance() {
            Option::Some(Result::Ok(t)) => {
                match &t.token_type {
                    TokenType::IDENTIFIER => t,
                    _ => {
                        return Parser::fail(
                            "Unexpected token. Expected one of: TokenType::IDENTIFIER",
                        );
                    },
                }
            },
            _ => {
                return Parser::fail("Unexpected token. Expected one of: TokenType::IDENTIFIER");
            },
        };
        let parameters = match self.parameter_list() {
            Result::Ok(ps) => ps,
            Result::Err(e) => {
                return Result::Err(e);
            },
        };
        let body = match self.func_body_statement() {
            Result::Ok(b) => b,
            Result::Err(e) => {
                return Result::Err(e);
            },
        };
        Result::Ok(
            Node::ClassMethodDecl(ClassMethodDecl { name, parameters, body: Rc::new(body) }),
        )
    }

    fn fun_declaration(&mut self) -> (r: Result<Node, ParseError>)
        requires
            old(self).wf(),
            old(self).spec_pos() < old(self).toks().len(),
        ensures
            final(self).wf(),
            final(self).toks() == old(self).toks(),
            old(self).spec_pos() <= final(self).spec_pos(),
            r is Ok ==> final(self).spec_pos() > old(self).spec_pos(),
            r matches Result::Ok(n) ==> n is FunctionDecl,
        decreases self.toks().len() - self.spec_pos(), 19int,
    {
        let _fun = self.advance();
        let name = match self.advance() {
            Option::Some(Result::Ok(t)) => {
                match &t.token_type {
                    TokenType::IDENTIFIER => t,
                    _ => {
                        return Parser::fail(
                            "Unexpected token. Expected one of: TokenType::IDENTIFIER",
                        );
                    },
                }
            },
            _ => {
                return Parser::fail("Unexpected token. Expected one of: TokenType::IDENTIFIER");
            },
        };
        let parameters = match self.parameter_list() {
            Result::Ok(ps) => ps,
            Result::Err(e) => {
                return Result::Err(e);
            },
        };
        let body = match self.func_body_statement() {
            Result::Ok(b) => b,
            Result::Err(e) => {
                return Result::Err(e);
            },
        };
        Result::Ok(Node::FunctionDecl(FunctionDecl { name, parameters, body: Rc::new(body) }))
    }

    /// `( a, b, c )`: the parenthesised parameter names.
    fn parameter_list(&mut self) -> (r: Result<Vec<Token>, ParseError>)
        requires
            old(self).wf(),
        ensures
            final(self).wf(),
            final(self).toks() == old(self).toks(),
            old(self).spec_pos() <= final(self).spec_pos(),
            r is Ok ==> final(self).spec_pos() > old(self).spec_pos(),
        decreases self.toks().len() - self.spec_pos(), 18int,
    {
        match self.advance() {
            Option::Some(Result::Ok(t)) => {
                match &t.token_type {
                    TokenType::LEFT_PAREN => {},
                    _ => {
                        return Result::Err(
                            ParseError {
                                message: String::from_str(
                                    "Unexpected token. Expected one of: TokenType::LEFT_PAREN",
                                ),
                            },
                        );
                    },
                }
            },
            _ => {
                return Result::Err(
                    ParseError {
                        message: String::from_str(
                            "Unexpected token. Expected one of: TokenType::LEFT_PAREN",
                        ),
                    },
                );
            },
        }
        let mut parameters: Vec<Token> = Vec::new();
        let empty = match self.peek() {
            Option::Some(Result::Ok(t)) => match &t.token_type {
                TokenType::RIGHT_PAREN => true,
                _ => false,
            },
            _ => false,
        };
        if !empty {
            loop
                invariant
                    self.wf(),
                    self.toks() == old(self).toks(),
                    old(self).spec_pos() < self.spec_pos(),
                decreases self.toks().len() - self.spec_pos(),
            {
                match self.advance() {
                    Option::Some(Result::Ok(t)) => {
                        match &t.token_type {
                            TokenType::IDENTIFIER => {
                                parameters.push(t);
                            },
                            _ => {
                                return Result::Err(
                                    ParseError {
                                        message: String::from_str(
                                            "Unexpected token. Expected one of: TokenType::IDENTIFIER",
                                        ),
                                    },
                                );
                            },
                        }
                    },
                    _ => {
                        return Result::Err(
                            ParseError {
                                message: String::from_str(
                                    "Unexpected token. Expected one of: TokenType::IDENTIFIER",
                                ),
                            },
                        );
                    },
                }
                let comma = match self.peek() {
                    Option::Some(Result::Ok(t)) => match &t.token_type {
                        TokenType::COMMA => true,
                        _ => false,
                    },
                    _ => false,
                };
                if comma {
                    let _c = self.advance();
                } else {
                    break ;
                }
            }
        }
        match self.advance() {
            Option::Some(Result::Ok(t)) => {
                match &t.token_type {
                    TokenType::RIGHT_PAREN => Result::Ok(parameters),
                    _ => Result::Err(
                        ParseError {
                            message: String::from_str(
                                "Unexpected token. Expected one of: TokenType::RIGHT_PAREN",
                            ),
                        },
                    ),
                }
            },
            _ => Result::Err(
                ParseError {
                    message: String::from_str(
                        "Unexpected token. Expected one of: TokenType::RIGHT_PAREN",
                    ),
                },
            ),
        }
    }

    fn var_declaration(&mut self) -> (r: Result<Node, ParseError>)
        requires
            old(self).wf(),
            old(self).spec_pos() < old(self).toks().len(),
        ensures
            final(self).wf(),
            final(self).toks() == old(self).toks(),
            old(self).spec_pos() <= final(self).spec_pos(),
            r is Ok ==> final(self).spec_pos() > old(self).spec_pos(),
            r matches Result::Ok(n) ==> n is VarDecl,
        decreases self.toks().len() - self.spec_pos(), 19int,
    {
        let _var = self.advance();
        let name = match self.advance() {
            Option::Some(Result::Ok(t)) => {
                match &t.token_type {
                    TokenType::IDENTIFIER => t,
                    _ => {
                        return Parser::fail(
                            "Unexpected token. Expected one of: TokenType::IDENTIFIER",
                        );
                    },
                }
            },
            _ => {
                return Parser::fail("Unexpected token. Expected one of: TokenType::IDENTIFIER");
            },
        };
        let eq = match self.peek() {
            Option::Some(Result::Ok(t)) => match &t.token_type {
                TokenType::EQUAL => true,
                _ => false,
            },
            _ => false,
        };
        if eq {
            let _eq = self.advance();
            let initializer = match self.expression() {
                Result::Ok(e) => e,
                Result::Err(e) => {
                    return Result::Err(e);
                },
            };
            match self.advance() {
                Option::Some(Result::Ok(t)) => {
                    match &t.token_type {
                        TokenType::SEMICOLON => Result::Ok(
                            Node::VarDecl(
                                VarDecl {
                                    name,
                                    initializer: Option::Some(Box::new(initializer)),
                                },
                            ),
                        ),
                        _ => Parser::fail(
                            "Unexpected token. Expected one of: TokenType::SEMICOLON",
                        ),
                    }
                },
                _ => Parser::fail("Unexpected token. Expected one of: TokenType::SEMICOLON"),
            }
        } else {
            match self.advance() {
                Option::Some(Result::Ok(t)) => {
                    match &t.token_type {
                        TokenType::SEMICOLON => Result::Ok(
                            Node::VarDecl(VarDecl { name, initializer: Option::None }),
                        ),
                        _ => Parser::fail(
                            "Unexpected token. Expected one of: TokenType::SEMICOLON",
                        ),
                    }
                },
                _ => Parser::fail("Unexpected token. Expected one of: TokenType::SEMICOLON"),
            }
        }
    }

    fn print_statement(&mut self) -> (r: Result<Node, ParseError>)
        requires
            old(self).wf(),
            old(self).spec_pos() < old(self).toks().len(),
        ensures
            final(self).wf(),
            final(self).toks() == old(self).toks(),
            old(self).spec_pos() <= final(self).spec_pos(),
            r is Ok ==> final(self).spec_pos() > old(self).spec_pos(),
            r matches Result::Ok(n) ==> n is PrintStm,
        decreases self.toks().len() - self.spec_pos(), 18int,
    {
        let _print = self.advance();
        let expression = match self.expression() {
            Result::Ok(e) => e,
            Result::Err(e) => {
                return Result::Err(e);
            },
        };
        match self.advance() {
            Option::Some(Result::Ok(t)) => {
                match &t.token_type {
                    TokenType::SEMICOLON => Result::Ok(
                        Node::PrintStm(PrintStm { expression: Box::new(expression) }),
                    ),
                    _ => Parser::fail("Unexpected token. Expected one of: TokenType::SEMICOLON"),
                }
            },
            _ => Parser::fail("Unexpected token. Expected one of: TokenType::SEMICOLON"),
        }
    }

    /// The statements between braces, with the closing brace consumed.
    fn brace_block(&mut self) -> (r: Result<Vec<Node>, ParseError>)
        requires
            old(self).wf(),
            old(self).spec_pos() < old(self).toks().len(),
        ensures
            final(self).wf(),
            final(self).toks() == old(self).toks(),
            old(self).spec_pos() <= final(self).spec_pos(),
            r is Ok ==> final(self).spec_pos() > old(self).spec_pos(),
        decreases self.toks().len() - self.spec_pos(), 17int,
    {
        let _brace = self.advance();
        let mut statements: Vec<Node> = Vec::new();
        loop
            invariant
                self.wf(),
                self.toks() == old(self).toks(),
                old(self).spec_pos() < self.spec_pos(),
            decreases self.toks().len() - self.spec_pos(),
        {
            let stop = match self.peek() {
                Option::Some(Result::Ok(t)) => match &t.token_type {
                    TokenType::RIGHT_BRACE => true,
                    _ => false,
                },
                Option::Some(Result::Err(_)) => false,
                Option::None => {
                    return Result::Err(
                        ParseError {
                            message: String::from_str(
                                "Unexpected end of the block with no right brace ending",
                            ),
                        },
                    );
                },
            };
            if stop {
                break ;
            }
            match self.parse() {
                Option::None => {
                    return Result::Err(
                        ParseError {
                            message: String::from_str(
                                "Unexpected end of the block with no right brace ending",
                            ),
                        },
                    );
                },
                Option::Some(Result::Ok(statement)) => {
                    statements.push(statement);
                },
                Option::Some(Result::Err(e)) => {
                    return Result::Err(e);
                },
            }
        }
        let _close = self.advance();
        Result::Ok(statements)
    }

    fn bloc_statement(&mut self) -> (r: Result<Node, ParseError>)
        requires
            old(self).wf(),
            old(self).spec_pos() < old(self).toks().len(),
        ensures
            final(self).wf(),
            final(self).toks() == old(self).toks(),
            old(self).spec_pos() <= final(self).spec_pos(),
            r is Ok ==> final(self).spec_pos() > old(self).spec_pos(),
            r matches Result::Ok(n) ==> n is BlockStm,
        decreases self.toks().len() - self.spec_pos(), 18int,
    {
        match self.brace_block() {
            Result::Ok(statements) => Result::Ok(Node::BlockStm(BlockStm { statements })),
            Result::Err(e) => Result::Err(e),
        }
    }

    fn func_body_statement(&mut self) -> (r: Result<Node, ParseError>)
        requires
            old(self).wf(),
        ensures
            final(self).wf(),
            final(self).toks() == old(self).toks(),
            old(self).spec_pos() <= final(self).spec_pos(),
            r is Ok ==> final(self).spec_pos() > old(self).spec_pos(),
            r matches Result::Ok(n) ==> n is FuncBodyStm,
        decreases self.toks().len() - self.spec_pos(), 18int,
    {
        let open = match self.peek() {
            Option::Some(Result::Ok(t)) => match &t.token_type {
                TokenType::LEFT_BRACE => true,
                _ => false,
            },
            _ => false,
        };
        if !open {
            return Parser::fail("Unexpected token. Expected one of: TokenType::LEFT_BRACE");
        }
        match self.brace_block() {
            Result::Ok(statements) => Result::Ok(Node::FuncBodyStm(FuncBodyStm { statements })),
            Result::Err(e) => Result::Err(e),
        }
    }

    fn if_else_statement(&mut self) -> (r: Result<Node, ParseError>)
        requires
            old(self).wf(),
            old(self).spec_pos() < old(self).toks().len(),
        ensures
            final(self).wf(),
            final(self).toks() == old(self).toks(),
            old(self).spec_pos() <= final(self).spec_pos(),
            r is Ok ==> final(self).spec_pos() > old(self).spec_pos(),
            r matches Result::Ok(n) ==> n is IfElseStm,
        decreases self.toks().len() - self.spec_pos(), 18int,
    {
        let _if = self.advance();
        match self.advance() {
            Option::Some(Result::Ok(t)) => {
                match &t.token_type {
                    TokenType::LEFT_PAREN => {},
                    _ => {
                        return Parser::fail(
                            "Unexpected token. Expected one of: TokenType::LEFT_PAREN",
                        );
                    },
                }
            },
            _ => {
                return Parser::fail("Unexpected token. Expected one of: TokenType::LEFT_PAREN");
            },
        }
        let condition = match self.expression() {
            Result::Ok(e) => e,
            Result::Err(e) => {
                return Result::Err(e);
            },
        };
        match self.advance() {
            Option::Some(Result::Ok(t)) => {
                match &t.token_type {
                    TokenType::RIGHT_PAREN => {},
                    _ => {
                        return Parser::fail(
                            "Unexpected token. Expected one of: TokenType::RIGHT_PAREN",
                        );
                    },
                }
            },
            _ => {
                return Parser::fail("Unexpected token. Expected one of: TokenType::RIGHT_PAREN");
            },
        }
        let then_branch = match self.parse_statement() {
            Result::Ok(s) => s,
            Result::Err(e) => {
                return Result::Err(e);
            },
        };
        let has_else = match self.peek() {
            Option::Some(Result::Ok(t)) => match &t.token_type {
                TokenType::ELSE => true,
                _ => false,
            },
            _ => false,
        };
        if has_else {
            let _else = self.advance();
            let else_branch = match self.parse_statement() {
                Result::Ok(s) => s,
                Result::Err(e) => {
                    return Result::Err(e);
                },
            };
            Result::Ok(
                Node::IfElseStm(
                    IfElseStm {
                        condition: Box::new(condition),
                        then_branch: Box::new(then_branch),
                        else_branch: Option::Some(Box::new(else_branch)),
                    },
                ),
            )
        } else {
            Result::Ok(
                Node::IfElseStm(
                    IfElseStm {
                        condition: Box::new(condition),
                        then_branch: Box::new(then_branch),
                        else_branch: Option::None,
                    },
                ),
            )
        }
    }

    fn while_statement(&mut self) -> (r: Result<Node, ParseError>)
        requires
            old(self).wf(),
            old(self).spec_pos() < old(self).toks().len(),
        ensures
            final(self).wf(),
            final(self).toks() == old(self).toks(),
            old(self).spec_pos() <= final(self).spec_pos(),
            r is Ok ==> final(self).spec_pos() > old(self).spec_pos(),
            r matches Result::Ok(n) ==> n is WhileStm,
        decreases self.toks().len() - self.spec_pos(), 18int,
    {
        let _while = self.advance();
        match self.advance() {
            Option::Some(Result::Ok(t)) => {
                match &t.token_type {
                    TokenType::LEFT_PAREN => {},
                    _ => {
                        return Parser::fail(
                            "Unexpected token. Expected one of: TokenType::LEFT_PAREN",
                        );
                    },
                }
            },
            _ => {
                return Parser::fail("Unexpected token. Expected one of: TokenType::LEFT_PAREN");
            },
        }
        let condition = match self.expression() {
            Result::Ok(e) => e,
            Result::Err(e) => {
                return Result::Err(e);
            },
        };
        match self.advance() {
            Option::Some(Result::Ok(t)) => {
                match &t.token_type {
                    TokenType::RIGHT_PAREN => {},
                    _ => {
                        return Parser::fail(
                            "Unexpected token. Expected one of: TokenType::RIGHT_PAREN",
                        );
                    },
                }
            },
            _ => {
                return Parser::fail("Unexpected token. Expected one of: TokenType::RIGHT_PAREN");
            },
        }
        let body = match self.parse_statement() {
            Result::Ok(s) => s,
            Result::Err(e) => {
                return Result::Err(e);
            },
        };
        Result::Ok(
            Node::WhileStm(WhileStm { condition: Box::new(condition), body: Box::new(body) }),
        )
    }

    /// `for (init; cond; incr) body`, desugared to
    /// `{ init; while (cond) { body; incr; } }`, the condition
    /// defaulting to `true` and the other pieces to empty statements.
    fn for_statement(&mut self) -> (r: Result<Node, ParseError>)
        requires
            old(self).wf(),
            old(self).spec_pos() < old(self).toks().len(),
        ensures
            final(self).wf(),
            final(self).toks() == old(self).toks(),
            old(self).spec_pos() <= final(self).spec_pos(),
            r is Ok ==> final(self).spec_pos() > old(self).spec_pos(),
            r matches Result::Ok(n) ==> (n matches Node::BlockStm(b) && b.statements@.len() == 2
                && b.statements@[1] is WhileStm && (*b.statements@[1]->WhileStm_0.body)
                is BlockStm),
        decreases self.toks().len() - self.spec_pos(), 18int,
    {
        let _for = self.advance();
        match self.advance() {
            Option::Some(Result::Ok(t)) => {
                match &t.token_type {
                    TokenType::LEFT_PAREN => {},
                    _ => {
                        return Parser::fail(
                            "Unexpected token. Expected one of: TokenType::LEFT_PAREN",
                        );
                    },
                }
            },
            _ => {
                return Parser::fail("Unexpected token. Expected one of: TokenType::LEFT_PAREN");
            },
        }
        let semi = match self.peek() {
            Option::Some(Result::Ok(t)) => match &t.token_type {
                TokenType::SEMICOLON => true,
                _ => false,
            },
            _ => false,
        };
        let initializer: Node = if semi {
            let _semi = self.advance();
            Node::EmptyStm(EmptyStm {})
        } else {
            let is_var = match self.peek() {
                Option::Some(Result::Ok(t)) => match &t.token_type {
                    TokenType::VAR => true,
                    _ => false,
                },
                _ => false,
            };
            let init = if is_var {
                self.var_declaration()
            } else {
                self.expression_statement()
            };
            match init {
                Result::Ok(s) => s,
                Result::Err(e) => {
                    return Result::Err(e);
                },
            }
        };
        let cond_semi = match self.peek() {
            Option::Some(Result::Ok(t)) => match &t.token_type {
                TokenType::SEMICOLON => true,
                _ => false,
            },
            _ => false,
        };
        let condition: Node = if cond_semi {
            let _semi = self.advance();
            Node::LiteralExp(
                LiteralExp { name: Token::new(TokenType::TRUE, String::new(), 42) },
            )
        } else {
            let c = match self.expression() {
                Result::Ok(e) => e,
                Result::Err(e) => {
                    return Result::Err(e);
                },
            };
            match self.advance() {
                Option::Some(Result::Ok(t)) => {
                    match &t.token_type {
                        TokenType::SEMICOLON => {},
                        _ => {
                            return Parser::fail(
                                "Unexpected token. Expected one of: TokenType::SEMICOLON",
                            );
                        },
                    }
                },
                _ => {
                    return Parser::fail(
                        "Unexpected token. Expected one of: TokenType::SEMICOLON",
                    );
                },
            }
            c
        };
        let paren = match self.peek() {
            Option::Some(Result::Ok(t)) => match &t.token_type {
                TokenType::RIGHT_PAREN => true,
                _ => false,
            },
            _ => false,
        };
        let increment: Node = if paren {
            let _p = self.advance();
            Node::EmptyStm(EmptyStm {})
        } else {
            let inc = match self.expression() {
                Result::Ok(e) => e,
                Result::Err(e) => {
                    return Result::Err(e);
                },
            };
            match self.advance() {
                Option::Some(Result::Ok(t)) => {
                    match &t.token_type {
                        TokenType::RIGHT_PAREN => {},
                        _ => {
                            return Parser::fail(
                                "Unexpected token. Expected one of: TokenType::RIGHT_PAREN",
                            );
                        },
                    }
                },
                _ => {
                    return Parser::fail(
                        "Unexpected token. Expected one of: TokenType::RIGHT_PAREN",
                    );
                },
            }
            inc
        };
        let body = match self.parse_statement() {
            Result::Ok(s) => s,
            Result::Err(e) => {
                return Result::Err(e);
            },
        };
        let mut inner: Vec<Node> = Vec::new();
        inner.push(body);
        inner.push(increment);
        let mut outer: Vec<Node> = Vec::new();
        outer.push(initializer);
        outer.push(
            Node::WhileStm(
                WhileStm {
                    condition: Box::new(condition),
                    body: Box::new(Node::BlockStm(BlockStm { statements: inner })),
                },
            ),
        );
        Result::Ok(Node::BlockStm(BlockStm { statements: outer }))
    }

    fn return_statement(&mut self) -> (r: Result<Node, ParseError>)
        requires
            old(self).wf(),
            old(self).spec_pos() < old(self).toks().len(),
        ensures
            final(self).wf(),
            final(self).toks() == old(self).toks(),
            old(self).spec_pos() <= final(self).spec_pos(),
            r is Ok ==> final(self).spec_pos() > old(self).spec_pos(),
            r matches Result::Ok(n) ==> n is ReturnStm,
        decreases self.toks().len() - self.spec_pos(), 18int,
    {
        let _return = self.advance();
        let semi = match self.peek() {
            Option::Some(Result::Ok(t)) => match &t.token_type {
                TokenType::SEMICOLON => true,
                _ => false,
            },
            _ => false,
        };
        let result: Node = if semi {
            Node::NilExp(NilExp {})
        } else {
            match self.expression() {
                Result::Ok(e) => e,
                Result::Err(e) => {
                    return Result::Err(e);
                },
            }
        };
        match self.advance() {
            Option::Some(Result::Ok(t)) => {
                match &t.token_type {
                    TokenType::SEMICOLON => Result::Ok(
                        Node::ReturnStm(ReturnStm { expression: Box::new(result) }),
                    ),
                    _ => Parser::fail("Unexpected token. Expected one of: TokenType::SEMICOLON"),
                }
            },
            _ => Parser::fail("Unexpected token. Expected one of: TokenType::SEMICOLON"),
        }
    }

    fn expression_statement(&mut self) -> (r: Result<Node, ParseError>)
        requires
            old(self).wf(),
        ensures
            final(self).wf(),
            final(self).toks() == old(self).toks(),
            old(self).spec_pos() <= final(self).spec_pos(),
            r is Ok ==> final(self).spec_pos() > old(self).spec_pos(),
            r matches Result::Ok(n) ==> n is ExpressionStm,
        decreases self.toks().len() - self.spec_pos(), 18int,
    {
        let expression = match self.expression() {
            Result::Ok(e) => e,
            Result::Err(e) => {
                return Result::Err(e);
            },
        };
        match self.advance() {
            Option::Some(Result::Ok(t)) => {
                match &t.token_type {
                    TokenType::SEMICOLON => Result::Ok(
                        Node::ExpressionStm(ExpressionStm { expression: Box::new(expression) }),
                    ),
                    _ => Parser::fail("Unexpected token. Expected one of: TokenType::SEMICOLON"),
                }
            },
            _ => Parser::fail("Unexpected token. Expected one of: TokenType::SEMICOLON"),
        }
    }

    fn expression(&mut self) -> (r: Result<Node, ParseError>)
        requires
            old(self).wf(),
        ensures
            final(self).wf(),
            final(self).toks() == old(self).toks(),
            old(self).spec_pos() <= final(self).spec_pos(),
            r is Ok ==> final(self).spec_pos() > old(self).spec_pos(),
        decreases self.toks().len() - self.spec_pos(), 10int,
    {
        self.assignment()
    }

    fn assignment(&mut self) -> (r: Result<Node, ParseError>)
        requires
            old(self).wf(),
        ensures
            final(self).wf(),
            final(self).toks() == old(self).toks(),
            old(self).spec_pos() <= final(self).spec_pos(),
            r is Ok ==> final(self).spec_pos() > old(self).spec_pos(),
        decreases self.toks().len() - self.spec_pos(), 9int,
    {
        let expression = match self.or_expression() {
            Result::Ok(e) => e,
            Result::Err(e) => {
                return Result::Err(e);
            },
        };
        let eq = match self.peek() {
            Option::Some(Result::Ok(t)) => match &t.token_type {
                TokenType::EQUAL => true,
                _ => false,
            },
            _ => false,
        };
        match expression {
            Node::GetExp(get_exp) => {
                if eq {
                    let _eq = self.advance();
                    let value = match self.assignment() {
                        Result::Ok(v) => v,
                        Result::Err(e) => {
                            return Result::Err(e);
                        },
                    };
                    Result::Ok(
                        Node::SetExp(
                            SetExp {
                                get_exp: Box::new(Node::GetExp(get_exp)),
                                value: Box::new(value),
                            },
                        ),
                    )
                } else {
                    Result::Ok(Node::GetExp(get_exp))
                }
            },
            Node::LiteralExp(literal) => {
                if eq {
                    let _eq = self.advance();
                    let name = literal.name.clone();
                    let value = match self.assignment() {
                        Result::Ok(v) => v,
                        Result::Err(e) => {
                            return Result::Err(e);
                        },
                    };
                    Result::Ok(
                        Node::AssignmentExp(AssignmentExp { name, value: Box::new(value) }),
                    )
                } else {
                    Result::Ok(Node::LiteralExp(literal))
                }
            },
            other => Result::Ok(other),
        }
    }

    fn or_expression(&mut self) -> (r: Result<Node, ParseError>)
        requires
            old(self).wf(),
        ensures
            final(self).wf(),
            final(self).toks() == old(self).toks(),
            old(self).spec_pos() <= final(self).spec_pos(),
            r is Ok ==> final(self).spec_pos() > old(self).spec_pos(),
        decreases self.toks().len() - self.spec_pos(), 8int,
    {
        let mut left = match self.and_expression() {
            Result::Ok(e) => e,
            Result::Err(e) => {
                return Result::Err(e);
            },
        };
        loop
            invariant
                self.wf(),
                self.toks() == old(self).toks(),
                old(self).spec_pos() < self.spec_pos(),
            decreases self.toks().len() - self.spec_pos(),
        {
            let operator = match self.peek() {
                Option::Some(Result::Ok(t)) => {
                    match &t.token_type {
                        TokenType::OR => t.clone(),
                        _ => {
                            break ;
                        },
                    }
                },
                _ => {
                    break ;
                },
            };
            let _op = self.advance();
            let right = match self.and_expression() {
                Result::Ok(e) => e,
                Result::Err(e) => {
                    return Result::Err(e);
                },
            };
            left = Node::LogicalExp(
                LogicalExp { left: Box::new(left), operator, right: Box::new(right) },
            );
        }
        Result::Ok(left)
    }

    fn and_expression(&mut self) -> (r: Result<Node, ParseError>)
        requires
            old(self).wf(),
        ensures
            final(self).wf(),
            final(self).toks() == old(self).toks(),
            old(self).spec_pos() <= final(self).spec_pos(),
            r is Ok ==> final(self).spec_pos() > old(self).spec_pos(),
        decreases self.toks().len() - self.spec_pos(), 7int,
    {
        let mut left = match self.equality() {
            Result::Ok(e) => e,
            Result::Err(e) => {
                return Result::Err(e);
            },
        };
        loop
            invariant
                self.wf(),
                self.toks() == old(self).toks(),
                old(self).spec_pos() < self.spec_pos(),
            decreases self.toks().len() - self.spec_pos(),
        {
            let operator = match self.peek() {
                Option::Some(Result::Ok(t)) => {
                    match &t.token_type {
                        TokenType::AND => t.clone(),
                        _ => {
                            break ;
                        },
                    }
                },
                _ => {
                    break ;
                },
            };
            let _op = self.advance();
            let right = match self.equality() {
                Result::Ok(e) => e,
                Result::Err(e) => {
                    return Result::Err(e);
                },
            };
            left = Node::LogicalExp(
                LogicalExp { left: Box::new(left), operator, right: Box::new(right) },
            );
        }
        Result::Ok(left)
    }

    fn equality(&mut self) -> (r: Result<Node, ParseError>)
        requires
            old(self).wf(),
        ensures
            final(self).wf(),
            final(self).toks() == old(self).toks(),
            old(self).spec_pos() <= final(self).spec_pos(),
            r is Ok ==> final(self).spec_pos() > old(self).spec_pos(),
        decreases self.toks().len() - self.spec_pos(), 6int,
    {
        let mut left = match self.comparison() {
            Result::Ok(e) => e,
            Result::Err(e) => {
                return Result::Err(e);
            },
        };
        loop
            invariant
                self.wf(),
                self.toks() == old(self).toks(),
                old(self).spec_pos() < self.spec_pos(),
            decreases self.toks().len() - self.spec_pos(),
        {
            let operator = match self.peek() {
                Option::Some(Result::Ok(t)) => {
                    match &t.token_type {
                        TokenType::BANG_EQUAL => t.clone(),
                        TokenType::EQUAL_EQUAL => t.clone(),
                        _ => {
                            break ;
                        },
                    }
                },
                _ => {
                    break ;
                },
            };
            let _op = self.advance();
            let right = match self.comparison() {
                Result::Ok(e) => e,
                Result::Err(e) => {
                    return Result::Err(e);
                },
            };
            left = Node::BinaryExp(
                BinaryExp { left: Box::new(left), operator, right: Box::new(right) },
            );
        }
        Result::Ok(left)
    }

    fn comparison(&mut self) -> (r: Result<Node, ParseError>)
        requires
            old(self).wf(),
        ensures
            final(self).wf(),
            final(self).toks() == old(self).toks(),
            old(self).spec_pos() <= final(self).spec_pos(),
            r is Ok ==> final(self).spec_pos() > old(self).spec_pos(),
        decreases self.toks().len() - self.spec_pos(), 5int,
    {
        let mut left = match self.term() {
            Result::Ok(e) => e,
            Result::Err(e) => {
                return Result::Err(e);
            },
        };
        loop
            invariant
                self.wf(),
                self.toks() == old(self).toks(),
                old(self).spec_pos() < self.spec_pos(),
            decreases self.toks().len() - self.spec_pos(),
        {
            let operator = match self.peek() {
                Option::Some(Result::Ok(t)) => {
                    match &t.token_type {
                        TokenType::GREATER => t.clone(),
                        TokenType::GREATER_EQUAL => t.clone(),
                        TokenType::LESS => t.clone(),
                        TokenType::LESS_EQUAL => t.clone(),
                        _ => {
                            break ;
                        },
                    }
                },
                _ => {
                    break ;
                },
            };
            let _op = self.advance();
            let right = match self.term() {
                Result::Ok(e) => e,
                Result::Err(e) => {
                    return Result::Err(e);
                },
            };
            left = Node::BinaryExp(
                BinaryExp { left: Box::new(left), operator, right: Box::new(right) },
            );
        }
        Result::Ok(left)
    }

    fn term(&mut self) -> (r: Result<Node, ParseError>)
        requires
            old(self).wf(),
        ensures
            final(self).wf(),
            final(self).toks() == old(self).toks(),
            old(self).spec_pos() <= final(self).spec_pos(),
            r is Ok ==> final(self).spec_pos() > old(self).spec_pos(),
        decreases self.toks().len() - self.spec_pos(), 4int,
    {
        let mut left = match self.factor() {
            Result::Ok(e) => e,
            Result::Err(e) => {
                return Result::Err(e);
            },
        };
        loop
            invariant
                self.wf(),
                self.toks() == old(self).toks(),
                old(self).spec_pos() < self.spec_pos(),
            decreases self.toks().len() - self.spec_pos(),
        {
            let operator = match self.peek() {
                Option::Some(Result::Ok(t)) => {
                    match &t.token_type {
                        TokenType::MINUS => t.clone(),
                        TokenType::PLUS => t.clone(),
                        _ => {
                            break ;
                        },
                    }
                },
                _ => {
                    break ;
                },
            };
            let _op = self.advance();
            let right = match self.factor() {
                Result::Ok(e) => e,
                Result::Err(e) => {
                    return Result::Err(e);
                },
            };
            left = Node::BinaryExp(
                BinaryExp { left: Box::new(left), operator, right: Box::new(right) },
            );
        }
        Result::Ok(left)
    }

    fn factor(&mut self) -> (r: Result<Node, ParseError>)
        requires
            old(self).wf(),
        ensures
            final(self).wf(),
            final(self).toks() == old(self).toks(),
            old(self).spec_pos() <= final(self).spec_pos(),
            r is Ok ==> final(self).spec_pos() > old(self).spec_pos(),
        decreases self.toks().len() - self.spec_pos(), 3int,
    {
        let mut left = match self.unary() {
            Result::Ok(e) => e,
            Result::Err(e) => {
                return Result::Err(e);
            },
        };
        loop
            invariant
                self.wf(),
                self.toks() == old(self).toks(),
                old(self).spec_pos() < self.spec_pos(),
            decreases self.toks().len() - self.spec_pos(),
        {
            let operator = match self.peek() {
                Option::Some(Result::Ok(t)) => {
                    match &t.token_type {
                        TokenType::STAR => t.clone(),
                        TokenType::SLASH => t.clone(),
                        _ => {
                            break ;
                        },
                    }
                },
                _ => {
                    break ;
                },
            };
            let _op = self.advance();
            let right = match self.unary() {
                Result::Ok(e) => e,
                Result::Err(e) => {
                    return Result::Err(e);
                },
            };
            left = Node::BinaryExp(
                BinaryExp { left: Box::new(left), operator, right: Box::new(right) },
            );
        }
        Result::Ok(left)
    }

    fn unary(&mut self) -> (r: Result<Node, ParseError>)
        requires
            old(self).wf(),
        ensures
            final(self).wf(),
            final(self).toks() == old(self).toks(),
            old(self).spec_pos() <= final(self).spec_pos(),
            r is Ok ==> final(self).spec_pos() > old(self).spec_pos(),
        decreases self.toks().len() - self.spec_pos(), 2int,
    {
        let operator = match self.peek() {
            Option::Some(Result::Ok(t)) => {
                match &t.token_type {
                    TokenType::EOF => {
                        return Parser::fail("Unexpected EOF");
                    },
                    TokenType::BANG => Option::Some(t.clone()),
                    TokenType::MINUS => Option::Some(t.clone()),
                    _ => Option::None,
                }
            },
            Option::Some(Result::Err(e)) => {
                return Parser::scan_fail(e);
            },
            Option::None => Option::None,
        };
        match operator {
            Option::Some(operator) => {
                let _op = self.advance();
                let right = match self.unary() {
                    Result::Ok(e) => e,
                    Result::Err(e) => {
                        return Result::Err(e);
                    },
                };
                Result::Ok(Node::UnaryExp(UnaryExp { operator, right: Box::new(right) }))
            },
            Option::None => self.call_expression(),
        }
    }

    fn call_expression(&mut self) -> (r: Result<Node, ParseError>)
        requires
            old(self).wf(),
        ensures
            final(self).wf(),
            final(self).toks() == old(self).toks(),
            old(self).spec_pos() <= final(self).spec_pos(),
            r is Ok ==> final(self).spec_pos() > old(self).spec_pos(),
        decreases self.toks().len() - self.spec_pos(), 1int,
    {
        let mut callee = match self.primary() {
            Result::Ok(e) => e,
            Result::Err(e) => {
                return Result::Err(e);
            },
        };
        loop
            invariant
                self.wf(),
                self.toks() == old(self).toks(),
                old(self).spec_pos() < self.spec_pos(),
            decreases self.toks().len() - self.spec_pos(),
        {
            let which: u8 = match self.peek() {
                Option::Some(Result::Ok(t)) => {
                    match &t.token_type {
                        TokenType::LEFT_PAREN => 1,
                        TokenType::DOT => 2,
                        _ => 0,
                    }
                },
                _ => 0,
            };
            if which == 1 {
                let _open = self.advance();
                callee = match self.call_func(callee) {
                    Result::Ok(c) => c,
                    Result::Err(e) => {
                        return Result::Err(e);
                    },
                };
                match self.advance() {
                    Option::Some(Result::Ok(t)) => {
                        match &t.token_type {
                            TokenType::RIGHT_PAREN => {},
                            _ => {
                                return Parser::fail(
                                    "Unexpected token. Expected one of: TokenType::RIGHT_PAREN",
                                );
                            },
                        }
                    },
                    _ => {
                        return Parser::fail(
                            "Unexpected token. Expected one of: TokenType::RIGHT_PAREN",
                        );
                    },
                }
            } else if which == 2 {
                let _dot = self.advance();
                callee = match self.get_property(callee) {
                    Result::Ok(c) => c,
                    Result::Err(e) => {
                        return Result::Err(e);
                    },
                };
            } else {
                break ;
            }
        }
        Result::Ok(callee)
    }

    /// The arguments of a call, after the opening parenthesis.
    fn call_func(&mut self, callee: Node) -> (r: Result<Node, ParseError>)
        requires
            old(self).wf(),
        ensures
            final(self).wf(),
            final(self).toks() == old(self).toks(),
            old(self).spec_pos() <= final(self).spec_pos(),
        decreases self.toks().len() - self.spec_pos(), 12int,
    {
        let mut args: Vec<Node> = Vec::new();
        let empty = match self.peek() {
            Option::Some(Result::Ok(t)) => match &t.token_type {
                TokenType::RIGHT_PAREN => true,
                _ => false,
            },
            _ => false,
        };
        if !empty {
            loop
                invariant
                    self.wf(),
                    self.toks() == old(self).toks(),
                    old(self).spec_pos() <= self.spec_pos(),
                decreases self.toks().len() - self.spec_pos(), 12int,
            {
                let arg = match self.expression() {
                    Result::Ok(e) => e,
                    Result::Err(e) => {
                        return Result::Err(e);
                    },
                };
                args.push(arg);
                let comma = match self.peek() {
                    Option::Some(Result::Ok(t)) => match &t.token_type {
                        TokenType::COMMA => true,
                        _ => false,
                    },
                    _ => false,
                };
                if comma {
                    let _c = self.advance();
                } else {
                    break ;
                }
            }
        }
        Result::Ok(Node::CallExp(CallExp { callee: Box::new(callee), args }))
    }

    fn get_property(&mut self, callee: Node) -> (r: Result<Node, ParseError>)
        requires
            old(self).wf(),
        ensures
            final(self).wf(),
            final(self).toks() == old(self).toks(),
            old(self).spec_pos() <= final(self).spec_pos(),
        decreases self.toks().len() - self.spec_pos(), 0int,
    {
        match self.advance() {
            Option::Some(Result::Ok(t)) => {
                match &t.token_type {
                    TokenType::IDENTIFIER => Result::Ok(
                        Node::GetExp(GetExp { callee: Box::new(callee), name: t }),
                    ),
                    _ => Parser::fail("Expect property name after '.'."),
                }
            },
            _ => Parser::fail("Expect property name after '.'."),
        }
    }

    fn primary(&mut self) -> (r: Result<Node, ParseError>)
        requires
            old(self).wf(),
        ensures
            final(self).wf(),
            final(self).toks() == old(self).toks(),
            old(self).spec_pos() <= final(self).spec_pos(),
            r is Ok ==> final(self).spec_pos() > old(self).spec_pos(),
        decreases self.toks().len() - self.spec_pos(), 0int,
    {
        let token = match self.peek() {
            Option::Some(Result::Ok(t)) => t.clone(),
            Option::Some(Result::Err(e)) => {
                return Parser::scan_fail(e);
            },
            Option::None => {
                return Parser::fail("Unexpected EOF");
            },
        };
        match &token.token_type {
            TokenType::EOF => Parser::fail("Unexpected EOF"),
            TokenType::FALSE | TokenType::TRUE | TokenType::NIL | TokenType::STRING(_)
                | TokenType::NUMBER(_) | TokenType::IDENTIFIER => {
                let _t = self.advance();
                Result::Ok(Node::LiteralExp(LiteralExp { name: token }))
            },
            TokenType::THIS => {
                let _t = self.advance();
                Result::Ok(Node::ThisExp(ThisExp { token }))
            },
            TokenType::SUPER => {
                let _t = self.advance();
                match self.advance() {
                    Option::Some(Result::Ok(t)) => {
                        match &t.token_type {
                            TokenType::DOT => {},
                            _ => {
                                return Parser::fail(
                                    "Unexpected token. Expected one of: TokenType::DOT",
                                );
                            },
                        }
                    },
                    _ => {
                        return Parser::fail("Unexpected token. Expected one of: TokenType::DOT");
                    },
                }
                match self.advance() {
                    Option::Some(Result::Ok(method)) => {
                        match &method.token_type {
                            TokenType::IDENTIFIER => Result::Ok(
                                Node::SuperExp(SuperExp { token, method }),
                            ),
                            _ => Parser::fail(
                                "Unexpected token. Expected one of: TokenType::IDENTIFIER",
                            ),
                        }
                    },
                    _ => Parser::fail(
                        "Unexpected token. Expected one of: TokenType::IDENTIFIER",
                    ),
                }
            },
            TokenType::LEFT_PAREN => {
                let _t = self.advance();
                let inner = match self.expression() {
                    Result::Ok(e) => e,
                    Result::Err(e) => {
                        return Result::Err(e);
                    },
                };
                match self.advance() {
                    Option::Some(Result::Ok(right)) => {
                        match &right.token_type {
                            TokenType::RIGHT_PAREN => Result::Ok(
                                Node::GroupingExp(GroupingExp { inner: Box::new(inner) }),
                            ),
                            _ => Result::Err(
                                ParseError {
                                    message: Parser::error_at(
                                        right.line,
                                        right.lexeme.as_str(),
                                        "Expect )",
                                    ),
                                },
                            ),
                        }
                    },
                    Option::Some(Result::Err(e)) => Parser::scan_fail(&e),
                    Option::None => Parser::fail("Unexpected EOF"),
                }
            },
            _ => Result::Err(
                ParseError {
                    message: Parser::error_at(
                        token.line,
                        token.lexeme.as_str(),
                        "Expect expression.",
                    ),
                },
            ),
        }
    }
}

} // verus!
