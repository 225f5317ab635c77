//! Lexical analysis: source text to tokens.
//!
//! `spec_scan_token` is the specification of the scanner: a function from
//! the source text, a position and a line number to the next token, error
//! or end of input.  `Scanner::scan_token` is proved to follow it step by
//! step; `Scanner::next` adds the single trailing `EOF` token.
use crate::numerics::{is_digit_char, is_plain_number_lexeme, number_parse, parse_of};
use vstd::prelude::*;

verus! {

/// What `char::is_alphanumeric` answers beyond ASCII.
pub uninterp spec fn char_is_alphanumeric_ext(c: char) -> bool;

/// Whether the character may continue an identifier: on ASCII the
/// letters and digits, beyond ASCII whatever `char::is_alphanumeric`
/// answers.
pub open spec fn char_is_alphanumeric(c: char) -> bool {
    if (c as u32) < 128 {
        ('a' <= c && c <= 'z') || ('A' <= c && c <= 'Z') || ('0' <= c && c <= '9')
    } else {
        char_is_alphanumeric_ext(c)
    }
}

/// Relies on `char::is_alphanumeric`: true exactly on Unicode letters
/// and numbers, which within ASCII are the letters and digits; a fixed
/// function of the character.
#[verifier::external_body]
pub fn alphanumeric(c: char) -> (r: bool)
    ensures
        r == char_is_alphanumeric(c),
        (c as u32) >= 128 ==> r == char_is_alphanumeric_ext(c),
{
    c.is_alphanumeric()
}

#[allow(non_camel_case_types)]
pub enum TokenType {
    LEFT_PAREN,
    RIGHT_PAREN,
    LEFT_BRACE,
    RIGHT_BRACE,
    COMMA,
    DOT,
    MINUS,
    PLUS,
    SEMICOLON,
    SLASH,
    STAR,
    BANG,
    BANG_EQUAL,
    EQUAL,
    EQUAL_EQUAL,
    GREATER,
    GREATER_EQUAL,
    LESS,
    LESS_EQUAL,
    IDENTIFIER,
    STRING(String),
    NUMBER(u64),
    AND,
    CLASS,
    ELSE,
    FALSE,
    FUN,
    FOR,
    IF,
    NIL,
    OR,
    PRINT,
    RETURN,
    SUPER,
    THIS,
    TRUE,
    VAR,
    WHILE,
    EOF,
}

/// The mathematical shape of a token kind: as `TokenType`, with the
/// string literal's decoded text as a character sequence.
#[verifier::ext_equal]
#[allow(non_camel_case_types)]
pub enum GTokenType {
    LEFT_PAREN,
    RIGHT_PAREN,
    LEFT_BRACE,
    RIGHT_BRACE,
    COMMA,
    DOT,
    MINUS,
    PLUS,
    SEMICOLON,
    SLASH,
    STAR,
    BANG,
    BANG_EQUAL,
    EQUAL,
    EQUAL_EQUAL,
    GREATER,
    GREATER_EQUAL,
    LESS,
    LESS_EQUAL,
    IDENTIFIER,
    STRING(Seq<char>),
    NUMBER(u64),
    AND,
    CLASS,
    ELSE,
    FALSE,
    FUN,
    FOR,
    IF,
    NIL,
    OR,
    PRINT,
    RETURN,
    SUPER,
    THIS,
    TRUE,
    VAR,
    WHILE,
    EOF,
}

impl View for TokenType {
    type V = GTokenType;

    open spec fn view(&self) -> GTokenType {
        match self {
            TokenType::LEFT_PAREN => GTokenType::LEFT_PAREN,
            TokenType::RIGHT_PAREN => GTokenType::RIGHT_PAREN,
            TokenType::LEFT_BRACE => GTokenType::LEFT_BRACE,
            TokenType::RIGHT_BRACE => GTokenType::RIGHT_BRACE,
            TokenType::COMMA => GTokenType::COMMA,
            TokenType::DOT => GTokenType::DOT,
            TokenType::MINUS => GTokenType::MINUS,
            TokenType::PLUS => GTokenType::PLUS,
            TokenType::SEMICOLON => GTokenType::SEMICOLON,
            TokenType::SLASH => GTokenType::SLASH,
            TokenType::STAR => GTokenType::STAR,
            TokenType::BANG => GTokenType::BANG,
            TokenType::BANG_EQUAL => GTokenType::BANG_EQUAL,
            TokenType::EQUAL => GTokenType::EQUAL,
            TokenType::EQUAL_EQUAL => GTokenType::EQUAL_EQUAL,
            TokenType::GREATER => GTokenType::GREATER,
            TokenType::GREATER_EQUAL => GTokenType::GREATER_EQUAL,
            TokenType::LESS => GTokenType::LESS,
            TokenType::LESS_EQUAL => GTokenType::LESS_EQUAL,
            TokenType::IDENTIFIER => GTokenType::IDENTIFIER,
            TokenType::STRING(s) => GTokenType::STRING(s@),
            TokenType::NUMBER(b) => GTokenType::NUMBER(*b),
            TokenType::AND => GTokenType::AND,
            TokenType::CLASS => GTokenType::CLASS,
            TokenType::ELSE => GTokenType::ELSE,
            TokenType::FALSE => GTokenType::FALSE,
            TokenType::FUN => GTokenType::FUN,
            TokenType::FOR => GTokenType::FOR,
            TokenType::IF => GTokenType::IF,
            TokenType::NIL => GTokenType::NIL,
            TokenType::OR => GTokenType::OR,
            TokenType::PRINT => GTokenType::PRINT,
            TokenType::RETURN => GTokenType::RETURN,
            TokenType::SUPER => GTokenType::SUPER,
            TokenType::THIS => GTokenType::THIS,
            TokenType::TRUE => GTokenType::TRUE,
            TokenType::VAR => GTokenType::VAR,
            TokenType::WHILE => GTokenType::WHILE,
            TokenType::EOF => GTokenType::EOF,
        }
    }
}

impl Clone for TokenType {
    fn clone(&self) -> (r: TokenType)
        ensures
            r@ == self@,
    {
        match self {
            TokenType::LEFT_PAREN => TokenType::LEFT_PAREN,
            TokenType::RIGHT_PAREN => TokenType::RIGHT_PAREN,
            TokenType::LEFT_BRACE => TokenType::LEFT_BRACE,
            TokenType::RIGHT_BRACE => TokenType::RIGHT_BRACE,
            TokenType::COMMA => TokenType::COMMA,
            TokenType::DOT => TokenType::DOT,
            TokenType::MINUS => TokenType::MINUS,
            TokenType::PLUS => TokenType::PLUS,
            TokenType::SEMICOLON => TokenType::SEMICOLON,
            TokenType::SLASH => TokenType::SLASH,
            TokenType::STAR => TokenType::STAR,
            TokenType::BANG => TokenType::BANG,
            TokenType::BANG_EQUAL => TokenType::BANG_EQUAL,
            TokenType::EQUAL => TokenType::EQUAL,
            TokenType::EQUAL_EQUAL => TokenType::EQUAL_EQUAL,
            TokenType::GREATER => TokenType::GREATER,
            TokenType::GREATER_EQUAL => TokenType::GREATER_EQUAL,
            TokenType::LESS => TokenType::LESS,
            TokenType::LESS_EQUAL => TokenType::LESS_EQUAL,
            TokenType::IDENTIFIER => TokenType::IDENTIFIER,
            TokenType::STRING(s) => TokenType::STRING(s.clone()),
            TokenType::NUMBER(b) => TokenType::NUMBER(*b),
            TokenType::AND => TokenType::AND,
            TokenType::CLASS => TokenType::CLASS,
            TokenType::ELSE => TokenType::ELSE,
            TokenType::FALSE => TokenType::FALSE,
            TokenType::FUN => TokenType::FUN,
            TokenType::FOR => TokenType::FOR,
            TokenType::IF => TokenType::IF,
            TokenType::NIL => TokenType::NIL,
            TokenType::OR => TokenType::OR,
            TokenType::PRINT => TokenType::PRINT,
            TokenType::RETURN => TokenType::RETURN,
            TokenType::SUPER => TokenType::SUPER,
            TokenType::THIS => TokenType::THIS,
            TokenType::TRUE => TokenType::TRUE,
            TokenType::VAR => TokenType::VAR,
            TokenType::WHILE => TokenType::WHILE,
            TokenType::EOF => TokenType::EOF,
        }
    }
}

pub struct Token {
    pub token_type: TokenType,
    pub lexeme: String,
    pub line: usize,
}

/// The mathematical shape of a token.
#[verifier::ext_equal]
pub struct GToken {
    pub kind: GTokenType,
    pub lexeme: Seq<char>,
    pub line: int,
}

impl View for Token {
    type V = GToken;

    open spec fn view(&self) -> GToken {
        GToken { kind: self.token_type@, lexeme: self.lexeme@, line: self.line as int }
    }
}

impl Clone for Token {
    fn clone(&self) -> (r: Token)
        ensures
            r@ == self@,
    {
        Token { token_type: self.token_type.clone(), lexeme: self.lexeme.clone(), line: self.line }
    }
}

impl Token {
    pub fn new(token_type: TokenType, lexeme: String, line: usize) -> (r: Token)
        ensures
            r@ == (GToken { kind: token_type@, lexeme: lexeme@, line: line as int }),
    {
        Token { token_type, lexeme, line }
    }
}

#[derive(Clone, Copy, PartialEq, Eq, Structural)]
pub enum ScanErrorKind {
    UnterminatedString,
    UnexpectedCharacter(char),
}

pub struct ScanError {
    pub line: usize,
    pub kind: ScanErrorKind,
}

impl Clone for ScanError {
    fn clone(&self) -> (r: ScanError)
        ensures
            r.line == self.line,
            r.kind == self.kind,
    {
        ScanError { line: self.line, kind: self.kind }
    }
}

/// What one scanning step yields.
pub enum GScanItem {
    End,
    Tok(GToken),
    Fail { line: int, kind: ScanErrorKind },
}

/// Position, line and output after one scanning step.
pub struct GScanStep {
    pub pos: int,
    pub line: int,
    pub item: GScanItem,
}

/// The keyword kind for an identifier lexeme, `IDENTIFIER` otherwise.
pub open spec fn keyword_kind_of(s: Seq<char>) -> GTokenType {
    if s == "and"@ {
        GTokenType::AND
    } else if s == "class"@ {
        GTokenType::CLASS
    } else if s == "else"@ {
        GTokenType::ELSE
    } else if s == "false"@ {
        GTokenType::FALSE
    } else if s == "fun"@ {
        GTokenType::FUN
    } else if s == "for"@ {
        GTokenType::FOR
    } else if s == "if"@ {
        GTokenType::IF
    } else if s == "nil"@ {
        GTokenType::NIL
    } else if s == "or"@ {
        GTokenType::OR
    } else if s == "print"@ {
        GTokenType::PRINT
    } else if s == "return"@ {
        GTokenType::RETURN
    } else if s == "super"@ {
        GTokenType::SUPER
    } else if s == "this"@ {
        GTokenType::THIS
    } else if s == "true"@ {
        GTokenType::TRUE
    } else if s == "var"@ {
        GTokenType::VAR
    } else if s == "while"@ {
        GTokenType::WHILE
    } else {
        GTokenType::IDENTIFIER
    }
}

/// The bit pattern a numeric lexeme denotes; zero if it does not parse.
pub open spec fn number_bits_of(s: Seq<char>) -> u64 {
    match parse_of(s) {
        Option::Some(b) => b,
        Option::None => 0,
    }
}

/// First position at or after `i` that holds a double quote, or the
/// length of the source.
pub open spec fn string_end_from(src: Seq<char>, i: int) -> int
    decreases src.len() - i,
    when 0 <= i <= src.len()
{
    if i >= src.len() {
        i
    } else if src[i] == '"' {
        i
    } else {
        string_end_from(src, i + 1)
    }
}

/// Newlines in `src[i .. j]`.
pub open spec fn newlines_in(src: Seq<char>, i: int, j: int) -> int
    decreases j - i,
    when 0 <= i <= j <= src.len()
{
    if i >= j {
        0
    } else if src[i] == '\n' {
        1 + newlines_in(src, i + 1, j)
    } else {
        newlines_in(src, i + 1, j)
    }
}

/// Where the numeric literal that starts at `i` ends: digits, with a dot
/// accepted once and only when a digit follows it.
pub open spec fn number_end_from(src: Seq<char>, i: int, seen_dot: bool) -> int
    decreases src.len() - i,
    when 0 <= i <= src.len()
{
    if i >= src.len() {
        i
    } else if is_digit_char(src[i]) {
        number_end_from(src, i + 1, seen_dot)
    } else if src[i] == '.' && !seen_dot && i + 1 < src.len() && is_digit_char(src[i + 1]) {
        number_end_from(src, i + 1, true)
    } else {
        i
    }
}

/// Where the identifier that starts at `i` ends: alphanumeric characters
/// and underscores.
pub open spec fn ident_end_from(src: Seq<char>, i: int) -> int
    decreases src.len() - i,
    when 0 <= i <= src.len()
{
    if i >= src.len() {
        i
    } else if char_is_alphanumeric(src[i]) || src[i] == '_' {
        ident_end_from(src, i + 1)
    } else {
        i
    }
}

pub open spec fn single_token(src: Seq<char>, pos: int, line: int, kind: GTokenType, n: int) -> GScanStep {
    GScanStep {
        pos: pos + n,
        line,
        item: GScanItem::Tok(
            GToken { kind, lexeme: src.subrange(pos, pos + n), line },
        ),
    }
}

pub open spec fn is_ident_start(c: char) -> bool {
    ('a' <= c && c <= 'z') || ('A' <= c && c <= 'Z') || c == '_'
}

/// One step of the scanner: from a position and line to the next token,
/// scan error, or end of input.  Whitespace and comments are consumed on
/// the way; the line count follows the newlines consumed.
pub open spec fn spec_scan_token(src: Seq<char>, pos: int, line: int) -> GScanStep
    decreases src.len() - pos, 1int,
    when 0 <= pos <= src.len()
{
    if pos >= src.len() {
        GScanStep { pos, line, item: GScanItem::End }
    } else {
        let c = src[pos];
        if c == ' ' || c == '\r' || c == '\t' {
            spec_scan_token(src, pos + 1, line)
        } else if c == '\n' {
            spec_scan_token(src, pos + 1, line + 1)
        } else if c == '(' {
            single_token(src, pos, line, GTokenType::LEFT_PAREN, 1)
        } else if c == ')' {
            single_token(src, pos, line, GTokenType::RIGHT_PAREN, 1)
        } else if c == '{' {
            single_token(src, pos, line, GTokenType::LEFT_BRACE, 1)
        } else if c == '}' {
            single_token(src, pos, line, GTokenType::RIGHT_BRACE, 1)
        } else if c == ',' {
            single_token(src, pos, line, GTokenType::COMMA, 1)
        } else if c == '.' {
            single_token(src, pos, line, GTokenType::DOT, 1)
        } else if c == '-' {
            single_token(src, pos, line, GTokenType::MINUS, 1)
        } else if c == '+' {
            single_token(src, pos, line, GTokenType::PLUS, 1)
        } else if c == ';' {
            single_token(src, pos, line, GTokenType::SEMICOLON, 1)
        } else if c == '*' {
            single_token(src, pos, line, GTokenType::STAR, 1)
        } else if c == '/' {
            if pos + 1 < src.len() && src[pos + 1] == '/' {
                spec_scan_comment(src, pos + 2, line)
            } else {
                single_token(src, pos, line, GTokenType::SLASH, 1)
            }
        } else if c == '=' {
            if pos + 1 < src.len() && src[pos + 1] == '=' {
                single_token(src, pos, line, GTokenType::EQUAL_EQUAL, 2)
            } else {
                single_token(src, pos, line, GTokenType::EQUAL, 1)
            }
        } else if c == '!' {
            if pos + 1 < src.len() && src[pos + 1] == '=' {
                single_token(src, pos, line, GTokenType::BANG_EQUAL, 2)
            } else {
                single_token(src, pos, line, GTokenType::BANG, 1)
            }
        } else if c == '<' {
            if pos + 1 < src.len() && src[pos + 1] == '=' {
                single_token(src, pos, line, GTokenType::LESS_EQUAL, 2)
            } else {
                single_token(src, pos, line, GTokenType::LESS, 1)
            }
        } else if c == '>' {
            if pos + 1 < src.len() && src[pos + 1] == '=' {
                single_token(src, pos, line, GTokenType::GREATER_EQUAL, 2)
            } else {
                single_token(src, pos, line, GTokenType::GREATER, 1)
            }
        } else if c == '"' {
            let e = string_end_from(src, pos + 1);
            if e < src.len() {
                let line2 = line + newlines_in(src, pos + 1, e);
                GScanStep {
                    pos: e + 1,
                    line: line2,
                    item: GScanItem::Tok(
                        GToken {
                            kind: GTokenType::STRING(src.subrange(pos + 1, e)),
                            lexeme: src.subrange(pos, e + 1),
                            line: line2,
                        },
                    ),
                }
            } else {
                let line2 = line + newlines_in(src, pos + 1, src.len() as int);
                GScanStep {
                    pos: src.len() as int,
                    line: line2,
                    item: GScanItem::Fail { line: line2, kind: ScanErrorKind::UnterminatedString },
                }
            }
        } else if is_digit_char(c) {
            let e = number_end_from(src, pos, false);
            GScanStep {
                pos: e,
                line,
                item: GScanItem::Tok(
                    GToken {
                        kind: GTokenType::NUMBER(number_bits_of(src.subrange(pos, e))),
                        lexeme: src.subrange(pos, e),
                        line,
                    },
                ),
            }
        } else if is_ident_start(c) {
            let e = ident_end_from(src, pos);
            GScanStep {
                pos: e,
                line,
                item: GScanItem::Tok(
                    GToken {
                        kind: keyword_kind_of(src.subrange(pos, e)),
                        lexeme: src.subrange(pos, e),
                        line,
                    },
                ),
            }
        } else {
            GScanStep {
                pos: pos + 1,
                line,
                item: GScanItem::Fail { line, kind: ScanErrorKind::UnexpectedCharacter(c) },
            }
        }
    }
}

/// Scanning inside a `//` comment: everything up to the next newline is
/// consumed, and scanning resumes at that newline.
pub open spec fn spec_scan_comment(src: Seq<char>, pos: int, line: int) -> GScanStep
    decreases src.len() - pos, 2int,
    when 0 <= pos <= src.len()
{
    if pos >= src.len() {
        GScanStep { pos, line, item: GScanItem::End }
    } else if src[pos] == '\n' {
        spec_scan_token(src, pos, line)
    } else {
        spec_scan_comment(src, pos + 1, line)
    }
}

/// The scanner's step relation including the trailing `EOF` token: after
/// the source is exhausted a single `EOF` token is produced, and after
/// that, nothing.
pub open spec fn spec_next_item(src: Seq<char>, pos: int, line: int, eof: bool) -> GScanItem {
    let g = spec_scan_token(src, pos, line);
    match g.item {
        GScanItem::End => if eof {
            GScanItem::End
        } else {
            GScanItem::Tok(GToken { kind: GTokenType::EOF, lexeme: Seq::empty(), line: g.line })
        },
        other => other,
    }
}

pub struct Scanner {
    source: String,
    pos: usize,
    line: usize,
    eof: bool,
}

/// The largest source length the scanner accepts; a `&str` is below it.
pub const MAX_SOURCE_LEN: usize = 0x7FFF_FF00;

impl Scanner {
    pub closed spec fn src(&self) -> Seq<char> {
        self.source@
    }

    pub closed spec fn spec_pos(&self) -> int {
        self.pos as int
    }

    pub closed spec fn spec_line(&self) -> int {
        self.line as int
    }

    pub closed spec fn spec_eof(&self) -> bool {
        self.eof
    }

    pub closed spec fn wf(&self) -> bool {
        &&& self.pos <= self.source@.len()
        &&& 1 <= self.line
        &&& self.line <= self.pos + 1
        &&& self.source@.len() <= MAX_SOURCE_LEN
    }

    /// The position stays within the source while the scanner is
    /// well formed.
    pub proof fn lemma_wf_bounds(&self)
        requires
            self.wf(),
        ensures
            0 <= self.spec_pos() <= self.src().len(),
    {
    }

    pub fn new(source: &str) -> (r: Scanner)
        requires
            source@.len() <= MAX_SOURCE_LEN,
        ensures
            r.wf(),
            r.src() == source@,
            r.spec_pos() == 0,
            r.spec_line() == 1,
            !r.spec_eof(),
    {
        Scanner { source: String::from_str(source), pos: 0, line: 1, eof: false }
    }

    /// The character `n` places past the next unconsumed one, if any.
    pub fn peek_rest_at(&self, n: usize) -> (r: Option<char>)
        requires
            self.wf(),
            n <= MAX_SOURCE_LEN,
        ensures
            r == (if self.spec_pos() + n < self.src().len() {
                Option::Some(self.src()[self.spec_pos() + n])
            } else {
                Option::<char>::None
            }),
    {
        let len = self.source.as_str().unicode_len();
        if self.pos < len && n < len - self.pos {
            Option::Some(self.source.as_str().get_char(self.pos + n))
        } else {
            Option::None
        }
    }

    /// Consume `n` characters and hand back their text.
    pub fn advance_n(&mut self, n: usize) -> (r: String)
        requires
            old(self).wf(),
            1 <= n,
            old(self).spec_pos() + n <= old(self).src().len(),
        ensures
            final(self).wf(),
            final(self).src() == old(self).src(),
            final(self).spec_pos() == old(self).spec_pos() + n,
            final(self).spec_line() == old(self).spec_line(),
            final(self).spec_eof() == old(self).spec_eof(),
            r@ == old(self).src().subrange(old(self).spec_pos(), old(self).spec_pos() + n),
    {
        let lexeme = String::from_str(
            self.source.as_str().substring_char(self.pos, self.pos + n),
        );
        self.pos = self.pos + n;
        lexeme
    }

    fn find_string_end(&self, i: usize) -> (r: usize)
        requires
            self.wf(),
            i <= self.src().len(),
        ensures
            r == string_end_from(self.src(), i as int),
            i <= r <= self.src().len(),
        decreases self.src().len() - i,
    {
        let len = self.source.as_str().unicode_len();
        if i >= len {
            i
        } else if self.source.as_str().get_char(i) == '"' {
            i
        } else {
            self.find_string_end(i + 1)
        }
    }

    fn count_newlines(&self, i: usize, j: usize) -> (r: usize)
        requires
            self.wf(),
            i <= j,
            j <= self.src().len(),
        ensures
            r == newlines_in(self.src(), i as int, j as int),
            r <= j - i,
        decreases j - i,
    {
        if i >= j {
            0
        } else {
            let add: usize = if self.source.as_str().get_char(i) == '\n' {
                1
            } else {
                0
            };
            let rest = self.count_newlines(i + 1, j);
            add + rest
        }
    }

    fn find_number_end(&self, i: usize, seen_dot: bool) -> (r: usize)
        requires
            self.wf(),
            i <= self.src().len(),
        ensures
            r == number_end_from(self.src(), i as int, seen_dot),
            i <= r <= self.src().len(),
            (i < self.src().len() && is_digit_char(self.src()[i as int])) ==> r >= i + 1,
        decreases self.src().len() - i,
    {
        let len = self.source.as_str().unicode_len();
        if i >= len {
            i
        } else {
            let c = self.source.as_str().get_char(i);
            if '0' <= c && c <= '9' {
                self.find_number_end(i + 1, seen_dot)
            } else if c == '.' && !seen_dot && i + 1 < len {
                let c2 = self.source.as_str().get_char(i + 1);
                if '0' <= c2 && c2 <= '9' {
                    self.find_number_end(i + 1, true)
                } else {
                    i
                }
            } else {
                i
            }
        }
    }

    fn find_ident_end(&self, i: usize) -> (r: usize)
        requires
            self.wf(),
            i <= self.src().len(),
        ensures
            r == ident_end_from(self.src(), i as int),
            i <= r <= self.src().len(),
            (i < self.src().len() && (char_is_alphanumeric(self.src()[i as int]) || self.src()[i
                as int] == '_')) ==> r >= i + 1,
        decreases self.src().len() - i,
    {
        let len = self.source.as_str().unicode_len();
        if i >= len {
            i
        } else {
            let c = self.source.as_str().get_char(i);
            if alphanumeric(c) || c == '_' {
                self.find_ident_end(i + 1)
            } else {
                i
            }
        }
    }

    fn simple_token(&mut self, token_type: TokenType, n: usize) -> (r: Option<
        Result<Token, ScanError>,
    >)
        requires
            old(self).wf(),
            1 <= n,
            old(self).spec_pos() + n <= old(self).src().len(),
        ensures
            final(self).wf(),
            final(self).src() == old(self).src(),
            final(self).spec_eof() == old(self).spec_eof(),
            final(self).spec_pos() == old(self).spec_pos() + n,
            final(self).spec_line() == old(self).spec_line(),
            scan_item_matches(
                r,
                single_token(
                    old(self).src(),
                    old(self).spec_pos(),
                    old(self).spec_line(),
                    token_type@,
                    n as int,
                ).item,
            ),
    {
        let line = self.line;
        let lexeme = self.advance_n(n);
        Option::Some(Result::Ok(Token::new(token_type, lexeme, line)))
    }

    /// One scanning step, as `spec_scan_token` describes it.
    pub fn scan_token(&mut self) -> (r: Option<Result<Token, ScanError>>)
        requires
            old(self).wf(),
        ensures
            final(self).wf(),
            final(self).src() == old(self).src(),
            final(self).spec_eof() == old(self).spec_eof(),
            ({
                let g = spec_scan_token(old(self).src(), old(self).spec_pos(), old(self).spec_line());
                &&& final(self).spec_pos() == g.pos
                &&& final(self).spec_line() == g.line
                &&& scan_item_matches(r, g.item)
            }),
        decreases self.src().len() - self.spec_pos(), 1int,
    {
        let c = match self.peek_rest_at(0) {
            Option::Some(c) => c,
            Option::None => {
                return Option::None;
            },
        };
        if c == ' ' || c == '\r' || c == '\t' {
            let _ = self.advance_n(1);
            self.scan_token()
        } else if c == '\n' {
            let _ = self.advance_n(1);
            self.line = self.line + 1;
            self.scan_token()
        } else if c == '(' {
            self.simple_token(TokenType::LEFT_PAREN, 1)
        } else if c == ')' {
            self.simple_token(TokenType::RIGHT_PAREN, 1)
        } else if c == '{' {
            self.simple_token(TokenType::LEFT_BRACE, 1)
        } else if c == '}' {
            self.simple_token(TokenType::RIGHT_BRACE, 1)
        } else if c == ',' {
            self.simple_token(TokenType::COMMA, 1)
        } else if c == '.' {
            self.simple_token(TokenType::DOT, 1)
        } else if c == '-' {
            self.simple_token(TokenType::MINUS, 1)
        } else if c == '+' {
            self.simple_token(TokenType::PLUS, 1)
        } else if c == ';' {
            self.simple_token(TokenType::SEMICOLON, 1)
        } else if c == '*' {
            self.simple_token(TokenType::STAR, 1)
        } else if c == '/' {
            if self.peek_is(1, '/') {
                let _ = self.advance_n(2);
                self.scan_comment()
            } else {
                self.simple_token(TokenType::SLASH, 1)
            }
        } else if c == '=' {
            if self.peek_is(1, '=') {
                self.simple_token(TokenType::EQUAL_EQUAL, 2)
            } else {
                self.simple_token(TokenType::EQUAL, 1)
            }
        } else if c == '!' {
            if self.peek_is(1, '=') {
                self.simple_token(TokenType::BANG_EQUAL, 2)
            } else {
                self.simple_token(TokenType::BANG, 1)
            }
        } else if c == '<' {
            if self.peek_is(1, '=') {
                self.simple_token(TokenType::LESS_EQUAL, 2)
            } else {
                self.simple_token(TokenType::LESS, 1)
            }
        } else if c == '>' {
            if self.peek_is(1, '=') {
                self.simple_token(TokenType::GREATER_EQUAL, 2)
            } else {
                self.simple_token(TokenType::GREATER, 1)
            }
        } else if c == '"' {
            let len = self.source.as_str().unicode_len();
            let e = self.find_string_end(self.pos + 1);
            if e < len {
                let nl = self.count_newlines(self.pos + 1, e);
                let literal = String::from_str(
                    self.source.as_str().substring_char(self.pos + 1, e),
                );
                let n = e + 1 - self.pos;
                let lexeme = self.advance_n(n);
                self.line = self.line + nl;
                Option::Some(
                    Result::Ok(Token::new(TokenType::STRING(literal), lexeme, self.line)),
                )
            } else {
                let nl = self.count_newlines(self.pos + 1, len);
                let n = len - self.pos;
                let _ = self.advance_n(n);
                self.line = self.line + nl;
                Option::Some(
                    Result::Err(
                        ScanError { line: self.line, kind: ScanErrorKind::UnterminatedString },
                    ),
                )
            }
        } else if '0' <= c && c <= '9' {
            let e = self.find_number_end(self.pos, false);
            let n = e - self.pos;
            let line = self.line;
            let lexeme = self.advance_n(n);
            let bits: u64 = match number_parse(lexeme.as_str()) {
                Option::Some(b) => b,
                Option::None => 0,
            };
            Option::Some(Result::Ok(Token::new(TokenType::NUMBER(bits), lexeme, line)))
        } else if ('a' <= c && c <= 'z') || ('A' <= c && c <= 'Z') || c == '_' {
            let e = self.find_ident_end(self.pos);
            let n = e - self.pos;
            let line = self.line;
            let lexeme = self.advance_n(n);
            let kind = keyword_kind(&lexeme);
            Option::Some(Result::Ok(Token::new(kind, lexeme, line)))
        } else {
            let line = self.line;
            let _ = self.advance_n(1);
            Option::Some(
                Result::Err(ScanError { line, kind: ScanErrorKind::UnexpectedCharacter(c) }),
            )
        }
    }

    fn peek_is(&self, n: usize, want: char) -> (r: bool)
        requires
            self.wf(),
            n <= 2,
        ensures
            r == (self.spec_pos() + n < self.src().len() && self.src()[self.spec_pos() + n]
                == want),
    {
        match self.peek_rest_at(n) {
            Option::Some(c) => c == want,
            Option::None => false,
        }
    }

    fn scan_comment(&mut self) -> (r: Option<Result<Token, ScanError>>)
        requires
            old(self).wf(),
        ensures
            final(self).wf(),
            final(self).src() == old(self).src(),
            final(self).spec_eof() == old(self).spec_eof(),
            ({
                let g = spec_scan_comment(
                    old(self).src(),
                    old(self).spec_pos(),
                    old(self).spec_line(),
                );
                &&& final(self).spec_pos() == g.pos
                &&& final(self).spec_line() == g.line
                &&& scan_item_matches(r, g.item)
            }),
        decreases self.src().len() - self.spec_pos(), 2int,
    {
        match self.peek_rest_at(0) {
            Option::None => Option::None,
            Option::Some(c) => {
                if c == '\n' {
                    self.scan_token()
                } else {
                    let _ = self.advance_n(1);
                    self.scan_comment()
                }
            },
        }
    }

    /// The next token of the source: the tokens `spec_scan_token` yields,
    /// then a single `EOF` token, then nothing.
    pub fn next(&mut self) -> (r: Option<Result<Token, ScanError>>)
        requires
            old(self).wf(),
        ensures
            final(self).wf(),
            final(self).src() == old(self).src(),
            ({
                let g = spec_scan_token(old(self).src(), old(self).spec_pos(), old(self).spec_line());
                &&& final(self).spec_pos() == g.pos
                &&& final(self).spec_line() == g.line
                &&& final(self).spec_eof() == (old(self).spec_eof() || g.item is End)
                &&& scan_item_matches(
                    r,
                    spec_next_item(
                        old(self).src(),
                        old(self).spec_pos(),
                        old(self).spec_line(),
                        old(self).spec_eof(),
                    ),
                )
            }),
    {
        let token = self.scan_token();
        if token.is_some() {
            token
        } else if !self.eof {
            self.eof = true;
            Option::Some(Result::Ok(Token::new(TokenType::EOF, String::new(), self.line)))
        } else {
            Option::None
        }
    }
}

/// The keyword token kind for a lexeme, `IDENTIFIER` for everything else.
pub fn keyword_kind(lexeme: &String) -> (r: TokenType)
    ensures
        r@ == keyword_kind_of(lexeme@),
{
    if *lexeme == String::from_str("and") {
        TokenType::AND
    } else if *lexeme == String::from_str("class") {
        TokenType::CLASS
    } else if *lexeme == String::from_str("else") {
        TokenType::ELSE
    } else if *lexeme == String::from_str("false") {
        TokenType::FALSE
    } else if *lexeme == String::from_str("fun") {
        TokenType::FUN
    } else if *lexeme == String::from_str("for") {
        TokenType::FOR
    } else if *lexeme == String::from_str("if") {
        TokenType::IF
    } else if *lexeme == String::from_str("nil") {
        TokenType::NIL
    } else if *lexeme == String::from_str("or") {
        TokenType::OR
    } else if *lexeme == String::from_str("print") {
        TokenType::PRINT
    } else if *lexeme == String::from_str("return") {
        TokenType::RETURN
    } else if *lexeme == String::from_str("super") {
        TokenType::SUPER
    } else if *lexeme == String::from_str("this") {
        TokenType::THIS
    } else if *lexeme == String::from_str("true") {
        TokenType::TRUE
    } else if *lexeme == String::from_str("var") {
        TokenType::VAR
    } else if *lexeme == String::from_str("while") {
        TokenType::WHILE
    } else {
        TokenType::IDENTIFIER
    }
}

/// How an executable scan result realises a specified scan item.
pub open spec fn scan_item_matches(r: Option<Result<Token, ScanError>>, it: GScanItem) -> bool {
    match it {
        GScanItem::End => r is None,
        GScanItem::Tok(t) => r matches Option::Some(Result::Ok(tok)) && tok@ == t,
        GScanItem::Fail { line, kind } => r matches Option::Some(Result::Err(e)) && e.line == line
            && e.kind == kind,
    }
}



proof fn lemma_string_end_bounds(src: Seq<char>, i: int)
    requires
        0 <= i <= src.len(),
    ensures
        i <= string_end_from(src, i) <= src.len(),
    decreases src.len() - i,
{
    if i < src.len() && src[i] != '"' {
        lemma_string_end_bounds(src, i + 1);
    }
}

proof fn lemma_number_end_bounds(src: Seq<char>, i: int, seen_dot: bool)
    requires
        0 <= i <= src.len(),
    ensures
        i <= number_end_from(src, i, seen_dot) <= src.len(),
    decreases src.len() - i,
{
    if i < src.len() {
        if is_digit_char(src[i]) {
            lemma_number_end_bounds(src, i + 1, seen_dot);
        } else if src[i] == '.' && !seen_dot && i + 1 < src.len() && is_digit_char(src[i + 1]) {
            lemma_number_end_bounds(src, i + 1, true);
        }
    }
}

proof fn lemma_ident_end_bounds(src: Seq<char>, i: int)
    requires
        0 <= i <= src.len(),
    ensures
        i <= ident_end_from(src, i) <= src.len(),
    decreases src.len() - i,
{
    if i < src.len() && (char_is_alphanumeric(src[i]) || src[i] == '_') {
        lemma_ident_end_bounds(src, i + 1);
    }
}

/// Scanning always moves forward: a token or an error consumes at
/// least one character, and the end of input is reached exactly at the
/// end of the text.
pub proof fn lemma_scan_token_progress(src: Seq<char>, pos: int, line: int)
    requires
        0 <= pos <= src.len(),
    ensures
        ({
            let g = spec_scan_token(src, pos, line);
            &&& pos <= g.pos <= src.len()
            &&& (g.item is End ==> g.pos == src.len())
            &&& (!(g.item is End) ==> g.pos > pos)
        }),
    decreases src.len() - pos, 1int,
{
    if pos < src.len() {
        let c = src[pos];
        if c == ' ' || c == '\r' || c == '\t' {
            lemma_scan_token_progress(src, pos + 1, line);
        } else if c == '\n' {
            lemma_scan_token_progress(src, pos + 1, line + 1);
        } else if c == '/' && pos + 1 < src.len() && src[pos + 1] == '/' {
            lemma_scan_comment_progress(src, pos + 2, line);
        } else if c == '"' {
            lemma_string_end_bounds(src, pos + 1);
        } else if is_digit_char(c) {
            lemma_number_end_bounds(src, pos, false);
            assert(number_end_from(src, pos, false) == number_end_from(src, pos + 1, false));
            lemma_number_end_bounds(src, pos + 1, false);
        } else if is_ident_start(c) {
            lemma_ident_end_bounds(src, pos);
            assert(ident_end_from(src, pos) == ident_end_from(src, pos + 1));
            lemma_ident_end_bounds(src, pos + 1);
        }
    }
}

pub proof fn lemma_scan_comment_progress(src: Seq<char>, pos: int, line: int)
    requires
        0 <= pos <= src.len(),
    ensures
        ({
            let g = spec_scan_comment(src, pos, line);
            &&& pos <= g.pos <= src.len()
            &&& (g.item is End ==> g.pos == src.len())
            &&& (!(g.item is End) ==> g.pos >= pos)
        }),
    decreases src.len() - pos, 2int,
{
    if pos < src.len() {
        if src[pos] == '\n' {
            lemma_scan_token_progress(src, pos, line);
        } else {
            lemma_scan_comment_progress(src, pos + 1, line);
        }
    }
}

/// The text of a scan error, as the command line reports it.
pub open spec fn scan_error_message_of(line: int, kind: ScanErrorKind) -> Seq<char> {
    match kind {
        ScanErrorKind::UnterminatedString => "[line "@ + crate::render::dec_digits_of(line)
            + "] Error: Unterminated string."@,
        ScanErrorKind::UnexpectedCharacter(c) => "[line "@ + crate::render::dec_digits_of(line)
            + "] Error: Unexpected character: "@ + seq![c],
    }
}

impl ScanError {
    /// The report line for this error.
    pub fn message(&self) -> (r: String)
        ensures
            r@ == scan_error_message_of(self.line as int, self.kind),
    {
        let mut out = String::from_str("[line ");
        out.append(crate::render::render_usize(self.line).as_str());
        match self.kind {
            ScanErrorKind::UnterminatedString => {
                out.append("] Error: Unterminated string.");
            },
            ScanErrorKind::UnexpectedCharacter(c) => {
                out.append("] Error: Unexpected character: ");
                out.append(crate::render::char_text(c).as_str());
            },
        }
        out
    }
}


/// The name of a token kind, as the token listing spells it.
pub open spec fn kind_name_of(k: GTokenType) -> Seq<char> {
    match k {
        GTokenType::LEFT_PAREN => "LEFT_PAREN"@,
        GTokenType::RIGHT_PAREN => "RIGHT_PAREN"@,
        GTokenType::LEFT_BRACE => "LEFT_BRACE"@,
        GTokenType::RIGHT_BRACE => "RIGHT_BRACE"@,
        GTokenType::COMMA => "COMMA"@,
        GTokenType::DOT => "DOT"@,
        GTokenType::MINUS => "MINUS"@,
        GTokenType::PLUS => "PLUS"@,
        GTokenType::SEMICOLON => "SEMICOLON"@,
        GTokenType::SLASH => "SLASH"@,
        GTokenType::STAR => "STAR"@,
        GTokenType::BANG => "BANG"@,
        GTokenType::BANG_EQUAL => "BANG_EQUAL"@,
        GTokenType::EQUAL => "EQUAL"@,
        GTokenType::EQUAL_EQUAL => "EQUAL_EQUAL"@,
        GTokenType::GREATER => "GREATER"@,
        GTokenType::GREATER_EQUAL => "GREATER_EQUAL"@,
        GTokenType::LESS => "LESS"@,
        GTokenType::LESS_EQUAL => "LESS_EQUAL"@,
        GTokenType::IDENTIFIER => "IDENTIFIER"@,
        GTokenType::STRING(_) => "STRING"@,
        GTokenType::NUMBER(_) => "NUMBER"@,
        GTokenType::AND => "AND"@,
        GTokenType::CLASS => "CLASS"@,
        GTokenType::ELSE => "ELSE"@,
        GTokenType::FALSE => "FALSE"@,
        GTokenType::FUN => "FUN"@,
        GTokenType::FOR => "FOR"@,
        GTokenType::IF => "IF"@,
        GTokenType::NIL => "NIL"@,
        GTokenType::OR => "OR"@,
        GTokenType::PRINT => "PRINT"@,
        GTokenType::RETURN => "RETURN"@,
        GTokenType::SUPER => "SUPER"@,
        GTokenType::THIS => "THIS"@,
        GTokenType::TRUE => "TRUE"@,
        GTokenType::VAR => "VAR"@,
        GTokenType::WHILE => "WHILE"@,
        GTokenType::EOF => "EOF"@,
    }
}

/// The literal field of the token listing: the decoded text for a
/// string, the numeric value with a trailing `.0` when integral for a
/// number, `null` for everything else.
pub open spec fn literal_field_of(k: GTokenType) -> Seq<char> {
    match k {
        GTokenType::STRING(s) => s,
        GTokenType::NUMBER(b) => crate::render::render_literal_of(b),
        _ => "null"@,
    }
}

/// One line of the token listing: kind, lexeme and literal.
pub open spec fn token_display_of(t: GToken) -> Seq<char> {
    kind_name_of(t.kind) + " "@ + t.lexeme + " "@ + literal_field_of(t.kind)
}

fn kind_name(k: &TokenType) -> (r: &'static str)
    ensures
        r@ == kind_name_of(k@),
{
    match k {
        TokenType::LEFT_PAREN => "LEFT_PAREN",
        TokenType::RIGHT_PAREN => "RIGHT_PAREN",
        TokenType::LEFT_BRACE => "LEFT_BRACE",
        TokenType::RIGHT_BRACE => "RIGHT_BRACE",
        TokenType::COMMA => "COMMA",
        TokenType::DOT => "DOT",
        TokenType::MINUS => "MINUS",
        TokenType::PLUS => "PLUS",
        TokenType::SEMICOLON => "SEMICOLON",
        TokenType::SLASH => "SLASH",
        TokenType::STAR => "STAR",
        TokenType::BANG => "BANG",
        TokenType::BANG_EQUAL => "BANG_EQUAL",
        TokenType::EQUAL => "EQUAL",
        TokenType::EQUAL_EQUAL => "EQUAL_EQUAL",
        TokenType::GREATER => "GREATER",
        TokenType::GREATER_EQUAL => "GREATER_EQUAL",
        TokenType::LESS => "LESS",
        TokenType::LESS_EQUAL => "LESS_EQUAL",
        TokenType::IDENTIFIER => "IDENTIFIER",
        TokenType::STRING(_) => "STRING",
        TokenType::NUMBER(_) => "NUMBER",
        TokenType::AND => "AND",
        TokenType::CLASS => "CLASS",
        TokenType::ELSE => "ELSE",
        TokenType::FALSE => "FALSE",
        TokenType::FUN => "FUN",
        TokenType::FOR => "FOR",
        TokenType::IF => "IF",
        TokenType::NIL => "NIL",
        TokenType::OR => "OR",
        TokenType::PRINT => "PRINT",
        TokenType::RETURN => "RETURN",
        TokenType::SUPER => "SUPER",
        TokenType::THIS => "THIS",
        TokenType::TRUE => "TRUE",
        TokenType::VAR => "VAR",
        TokenType::WHILE => "WHILE",
        TokenType::EOF => "EOF",
    }
}

impl Token {
    /// One line of the token listing, as `token_display_of` gives it.
    pub fn display_string(&self) -> (r: String)
        ensures
            r@ == token_display_of(self@),
    {
        let mut out = String::from_str(kind_name(&self.token_type));
        out.append(" ");
        out.append(self.lexeme.as_str());
        out.append(" ");
        match &self.token_type {
            TokenType::STRING(s) => {
                out.append(s.as_str());
            },
            TokenType::NUMBER(b) => {
                out.append(crate::render::render_number_literal(*b).as_str());
            },
            _ => {
                out.append("null");
            },
        }
        out
    }
}

} // verus!
