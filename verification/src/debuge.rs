//! The parenthesised debug form of the syntax tree, used by the
//! expression-printing entry: the operator at the head, the operands as
//! children, a literal by itself.
use crate::grammar::Node;
use crate::render::render_literal_of;
use crate::scanner::{kind_name_of, token_display_of, GTokenType, TokenType};
use vstd::prelude::*;

verus! {

/// A literal's own text: `nil`, `true`, `false`, a string's decoded
/// text, a number with a trailing `.0` when integral, and the kind
/// name for any other token.
pub open spec fn spec_literal_text(k: GTokenType) -> Seq<char> {
    match k {
        GTokenType::NIL => "nil"@,
        GTokenType::TRUE => "true"@,
        GTokenType::FALSE => "false"@,
        GTokenType::STRING(s) => s,
        GTokenType::NUMBER(b) => render_literal_of(b),
        other => kind_name_of(other),
    }
}

/// The parenthesised form of one node.
pub open spec fn spec_print(node: Node) -> Seq<char>
    decreases node, 0int, 0int,
{
    match node {
        Node::VarDecl(d) => {
            let head = "(var "@ + token_display_of(d.name@);
            match d.initializer {
                Option::Some(init) => head + " "@ + spec_print(*init) + ")"@,
                Option::None => head + ")"@,
            }
        },
        Node::FunctionDecl(d) => "(fun "@ + token_display_of(d.name@) + " "@ + spec_print(*d.body)
            + ")"@,
        Node::ClassMethodDecl(d) => "(method "@ + token_display_of(d.name@) + " "@ + spec_print(
            *d.body,
        ) + ")"@,
        Node::ClassDecl(d) => "(class "@ + token_display_of(d.name@) + ")"@,
        Node::SuperClassDecl(d) => "(class "@ + token_display_of(d.name@) + ")"@,
        Node::NilExp(_) => "(nil)"@,
        Node::LiteralExp(e) => spec_literal_text(e.name@.kind),
        Node::GroupingExp(e) => "(group "@ + spec_print(*e.inner) + ")"@,
        Node::UnaryExp(e) => "("@ + e.operator@.lexeme + " "@ + spec_print(*e.right) + ")"@,
        Node::BinaryExp(e) => "("@ + e.operator@.lexeme + " "@ + spec_print(*e.left) + " "@
            + spec_print(*e.right) + ")"@,
        Node::LogicalExp(e) => "("@ + e.operator@.lexeme + " "@ + spec_print(*e.left) + " "@
            + spec_print(*e.right) + ")"@,
        Node::AssignmentExp(e) => "("@ + e.name@.lexeme + " "@ + spec_print(*e.value) + ")"@,
        Node::CallExp(e) => "(fn "@ + spec_print(*e.callee) + spec_print_list(e.args, 0) + ")"@,
        Node::GetExp(e) => "(get "@ + e.name@.lexeme + " "@ + spec_print(*e.callee) + ")"@,
        Node::SetExp(e) => "(set "@ + spec_print(*e.get_exp) + " "@ + spec_print(*e.value) + ")"@,
        Node::ThisExp(_) => "(this)"@,
        Node::SuperExp(_) => "(super)"@,
        Node::EmptyStm(_) => Seq::empty(),
        Node::PrintStm(s) => "(print "@ + spec_print(*s.expression) + ")"@,
        Node::BlockStm(b) => "({}"@ + spec_print_list(b.statements, 0) + ")"@,
        Node::FuncBodyStm(b) => "({}"@ + spec_print_list(b.statements, 0) + ")"@,
        Node::IfElseStm(s) => {
            let head = "(if "@ + spec_print(*s.condition) + " "@ + spec_print(*s.then_branch);
            match s.else_branch {
                Option::Some(e) => head + " "@ + spec_print(*e) + ")"@,
                Option::None => head + ")"@,
            }
        },
        Node::WhileStm(s) => "(while "@ + spec_print(*s.condition) + " "@ + spec_print(*s.body)
            + ")"@,
        Node::ExpressionStm(s) => "(none "@ + spec_print(*s.expression) + ")"@,
        Node::ReturnStm(s) => "(return "@ + spec_print(*s.expression) + ")"@,
    }
}

/// The children of a parenthesised head, each preceded by a space.
pub open spec fn spec_print_list(nodes: Vec<Node>, i: int) -> Seq<char>
    decreases nodes, 1int, nodes@.len() - i,
    when 0 <= i <= nodes@.len()
{
    if i >= nodes@.len() {
        Seq::empty()
    } else {
        " "@ + spec_print(nodes@[i]) + spec_print_list(nodes, i + 1)
    }
}

fn literal_text(k: &TokenType) -> (r: String)
    ensures
        r@ == spec_literal_text(k@),
{
    match k {
        TokenType::NIL => String::from_str("nil"),
        TokenType::TRUE => String::from_str("true"),
        TokenType::FALSE => String::from_str("false"),
        TokenType::STRING(s) => s.clone(),
        TokenType::NUMBER(b) => crate::render::render_number_literal(*b),
        TokenType::LEFT_PAREN => String::from_str("LEFT_PAREN"),
        TokenType::RIGHT_PAREN => String::from_str("RIGHT_PAREN"),
        TokenType::LEFT_BRACE => String::from_str("LEFT_BRACE"),
        TokenType::RIGHT_BRACE => String::from_str("RIGHT_BRACE"),
        TokenType::COMMA => String::from_str("COMMA"),
        TokenType::DOT => String::from_str("DOT"),
        TokenType::MINUS => String::from_str("MINUS"),
        TokenType::PLUS => String::from_str("PLUS"),
        TokenType::SEMICOLON => String::from_str("SEMICOLON"),
        TokenType::SLASH => String::from_str("SLASH"),
        TokenType::STAR => String::from_str("STAR"),
        TokenType::BANG => String::from_str("BANG"),
        TokenType::BANG_EQUAL => String::from_str("BANG_EQUAL"),
        TokenType::EQUAL => String::from_str("EQUAL"),
        TokenType::EQUAL_EQUAL => String::from_str("EQUAL_EQUAL"),
        TokenType::GREATER => String::from_str("GREATER"),
        TokenType::GREATER_EQUAL => String::from_str("GREATER_EQUAL"),
        TokenType::LESS => String::from_str("LESS"),
        TokenType::LESS_EQUAL => String::from_str("LESS_EQUAL"),
        TokenType::IDENTIFIER => String::from_str("IDENTIFIER"),
        TokenType::AND => String::from_str("AND"),
        TokenType::CLASS => String::from_str("CLASS"),
        TokenType::ELSE => String::from_str("ELSE"),
        TokenType::FUN => String::from_str("FUN"),
        TokenType::FOR => String::from_str("FOR"),
        TokenType::IF => String::from_str("IF"),
        TokenType::OR => String::from_str("OR"),
        TokenType::PRINT => String::from_str("PRINT"),
        TokenType::RETURN => String::from_str("RETURN"),
        TokenType::SUPER => String::from_str("SUPER"),
        TokenType::THIS => String::from_str("THIS"),
        TokenType::VAR => String::from_str("VAR"),
        TokenType::WHILE => String::from_str("WHILE"),
        TokenType::EOF => String::from_str("EOF"),
    }
}

impl Node {
    /// The parenthesised form, as `spec_print` gives it.
    pub fn print(&self) -> (r: String)
        ensures
            r@ == spec_print(*self),
        decreases *self, 0int, 0int,
    {
        match self {
            Node::VarDecl(d) => {
                let mut out = String::from_str("(var ");
                out.append(d.name.display_string().as_str());
                match &d.initializer {
                    Option::Some(init) => {
                        out.append(" ");
                        out.append(init.print().as_str());
                    },
                    Option::None => {},
                }
                out.append(")");
                out
            },
            Node::FunctionDecl(d) => {
                let mut out = String::from_str("(fun ");
                out.append(d.name.display_string().as_str());
                out.append(" ");
                out.append(d.body.print().as_str());
                out.append(")");
                out
            },
            Node::ClassMethodDecl(d) => {
                let mut out = String::from_str("(method ");
                out.append(d.name.display_string().as_str());
                out.append(" ");
                out.append(d.body.print().as_str());
                out.append(")");
                out
            },
            Node::ClassDecl(d) => {
                let mut out = String::from_str("(class ");
                out.append(d.name.display_string().as_str());
                out.append(")");
                out
            },
            Node::SuperClassDecl(d) => {
                let mut out = String::from_str("(class ");
                out.append(d.name.display_string().as_str());
                out.append(")");
                out
            },
            Node::NilExp(_) => String::from_str("(nil)"),
            Node::LiteralExp(e) => literal_text(&e.name.token_type),
            Node::GroupingExp(e) => {
                let mut out = String::from_str("(group ");
                out.append(e.inner.print().as_str());
                out.append(")");
                out
            },
            Node::UnaryExp(e) => {
                let mut out = String::from_str("(");
                out.append(e.operator.lexeme.as_str());
                out.append(" ");
                out.append(e.right.print().as_str());
                out.append(")");
                out
            },
            Node::BinaryExp(e) => {
                let mut out = String::from_str("(");
                out.append(e.operator.lexeme.as_str());
                out.append(" ");
                out.append(e.left.print().as_str());
                out.append(" ");
                out.append(e.right.print().as_str());
                out.append(")");
                out
            },
            Node::LogicalExp(e) => {
                let mut out = String::from_str("(");
                out.append(e.operator.lexeme.as_str());
                out.append(" ");
                out.append(e.left.print().as_str());
                out.append(" ");
                out.append(e.right.print().as_str());
                out.append(")");
                out
            },
            Node::AssignmentExp(e) => {
                let mut out = String::from_str("(");
                out.append(e.name.lexeme.as_str());
                out.append(" ");
                out.append(e.value.print().as_str());
                out.append(")");
                out
            },
            Node::CallExp(e) => {
                let mut out = String::from_str("(fn ");
                out.append(e.callee.print().as_str());
                print_list(&mut out, &e.args, 0);
                out.append(")");
                out
            },
            Node::GetExp(e) => {
                let mut out = String::from_str("(get ");
                out.append(e.name.lexeme.as_str());
                out.append(" ");
                out.append(e.callee.print().as_str());
                out.append(")");
                out
            },
            Node::SetExp(e) => {
                let mut out = String::from_str("(set ");
                out.append(e.get_exp.print().as_str());
                out.append(" ");
                out.append(e.value.print().as_str());
                out.append(")");
                out
            },
            Node::ThisExp(_) => String::from_str("(this)"),
            Node::SuperExp(_) => String::from_str("(super)"),
            Node::EmptyStm(_) => String::new(),
            Node::PrintStm(s) => {
                let mut out = String::from_str("(print ");
                out.append(s.expression.print().as_str());
                out.append(")");
                out
            },
            Node::BlockStm(b) => {
                let mut out = String::from_str("({}");
                print_list(&mut out, &b.statements, 0);
                out.append(")");
                out
            },
            Node::FuncBodyStm(b) => {
                let mut out = String::from_str("({}");
                print_list(&mut out, &b.statements, 0);
                out.append(")");
                out
            },
            Node::IfElseStm(s) => {
                let mut out = String::from_str("(if ");
                out.append(s.condition.print().as_str());
                out.append(" ");
                out.append(s.then_branch.print().as_str());
                match &s.else_branch {
                    Option::Some(e) => {
                        out.append(" ");
                        out.append(e.print().as_str());
                    },
                    Option::None => {},
                }
                out.append(")");
                out
            },
            Node::WhileStm(s) => {
                let mut out = String::from_str("(while ");
                out.append(s.condition.print().as_str());
                out.append(" ");
                out.append(s.body.print().as_str());
                out.append(")");
                out
            },
            Node::ExpressionStm(s) => {
                let mut out = String::from_str("(none ");
                out.append(s.expression.print().as_str());
                out.append(")");
                out
            },
            Node::ReturnStm(s) => {
                let mut out = String::from_str("(return ");
                out.append(s.expression.print().as_str());
                out.append(")");
                out
            },
        }
    }
}

/// Append each child's form, preceded by a space.
fn print_list(out: &mut String, nodes: &Vec<Node>, i: usize)
    requires
        i <= nodes@.len(),
    ensures
        final(out)@ == old(out)@ + spec_print_list(*nodes, i as int),
    decreases *nodes, 1int, nodes@.len() - i,
{
    if i >= nodes.len() {
        assert(out@ =~= out@ + spec_print_list(*nodes, i as int));
    } else {
        out.append(" ");
        out.append(nodes[i].print().as_str());
        print_list(out, nodes, i + 1);
        proof {
            assert(out@ =~= old(out)@ + spec_print_list(*nodes, i as int));
        }
    }
}

} // verus!
