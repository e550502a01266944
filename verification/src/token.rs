//! Tokens of the Cortex language: the lexical vocabulary shared by the lexer
//! and the parser, with the classification tables the parser relies on.

use vstd::prelude::*;
use vstd::string::*;

verus! {

/// Broad classes of tokens.
#[derive(Debug, Clone, Copy, PartialEq, Eq, Structural)]
pub enum TokenCategory {
    Literal,
    Keyword,
    Operator,
    Delimiter,
    Special,
    Error,
}

/// The shape of a token without the text it carries.
#[derive(Debug, Clone, Copy, PartialEq, Eq, Structural)]
pub enum TokenKind {
    Number,
    String,
    Identifier,
    Let,
    Func,
    If,
    Else,
    While,
    For,
    Return,
    True,
    False,
    Null,
    In,
    Plus,
    Minus,
    Multiply,
    Divide,
    Modulo,
    Power,
    Assign,
    AssignConst,
    Equals,
    NotEquals,
    LessThan,
    LessEqual,
    GreaterThan,
    GreaterEqual,
    And,
    Or,
    Not,
    Range,
    DotProduct,
    Gradient,
    Partial,
    LeftBracket,
    RightBracket,
    LeftBrace,
    RightBrace,
    LeftParen,
    RightParen,
    Pipe,
    Caret,
    Comma,
    Semicolon,
    Colon,
    Dot,
    Newline,
    Comment,
    MultiLineComment,
    Whitespace,
    Error,
}

impl TokenKind {
    /// The class a kind belongs to.
    pub open spec fn category(self) -> TokenCategory {
        match self {
            TokenKind::Number | TokenKind::String | TokenKind::Identifier => TokenCategory::Literal,
            TokenKind::Let | TokenKind::Func | TokenKind::If | TokenKind::Else |
            TokenKind::While | TokenKind::For | TokenKind::Return | TokenKind::True |
            TokenKind::False | TokenKind::Null | TokenKind::In => TokenCategory::Keyword,
            TokenKind::Plus | TokenKind::Minus | TokenKind::Multiply | TokenKind::Divide |
            TokenKind::Modulo | TokenKind::Power | TokenKind::Assign | TokenKind::AssignConst |
            TokenKind::Equals | TokenKind::NotEquals | TokenKind::LessThan |
            TokenKind::LessEqual | TokenKind::GreaterThan | TokenKind::GreaterEqual |
            TokenKind::And | TokenKind::Or | TokenKind::Not | TokenKind::Range |
            TokenKind::DotProduct | TokenKind::Gradient | TokenKind::Partial => TokenCategory::Operator,
            TokenKind::LeftBracket | TokenKind::RightBracket | TokenKind::LeftBrace |
            TokenKind::RightBrace | TokenKind::LeftParen | TokenKind::RightParen |
            TokenKind::Pipe | TokenKind::Caret | TokenKind::Comma | TokenKind::Semicolon |
            TokenKind::Colon | TokenKind::Dot => TokenCategory::Delimiter,
            TokenKind::Newline | TokenKind::Comment | TokenKind::MultiLineComment |
            TokenKind::Whitespace => TokenCategory::Special,
            TokenKind::Error => TokenCategory::Error,
        }
    }

    /// Kinds whose tokens carry their own text.
    pub open spec fn carries_text(self) -> bool {
        self == TokenKind::Number || self == TokenKind::String || self == TokenKind::Identifier
    }

    /// The spelling of a kind that carries no text of its own (empty for those that do).
    pub open spec fn spelling(self) -> Seq<char> {
        match self {
            TokenKind::Number | TokenKind::String | TokenKind::Identifier => Seq::empty(),
            TokenKind::Let => "let"@,
            TokenKind::Func => "func"@,
            TokenKind::If => "if"@,
            TokenKind::Else => "else"@,
            TokenKind::While => "while"@,
            TokenKind::For => "for"@,
            TokenKind::Return => "return"@,
            TokenKind::True => "true"@,
            TokenKind::False => "false"@,
            TokenKind::Null => "null"@,
            TokenKind::In => "in"@,
            TokenKind::Plus => "+"@,
            TokenKind::Minus => "-"@,
            TokenKind::Multiply => "*"@,
            TokenKind::Divide => "/"@,
            TokenKind::Modulo => "%"@,
            TokenKind::Power => "**"@,
            TokenKind::Assign => ":="@,
            TokenKind::AssignConst => "::"@,
            TokenKind::Equals => "=="@,
            TokenKind::NotEquals => "!="@,
            TokenKind::LessThan => "<"@,
            TokenKind::LessEqual => "<="@,
            TokenKind::GreaterThan => ">"@,
            TokenKind::GreaterEqual => ">="@,
            TokenKind::And => "&&"@,
            TokenKind::Or => "||"@,
            TokenKind::Not => "!"@,
            TokenKind::Range => ".."@,
            TokenKind::DotProduct => "@"@,
            TokenKind::Gradient => "∇"@,
            TokenKind::Partial => "∂"@,
            TokenKind::LeftBracket => "["@,
            TokenKind::RightBracket => "]"@,
            TokenKind::LeftBrace => "{"@,
            TokenKind::RightBrace => "}"@,
            TokenKind::LeftParen => "("@,
            TokenKind::RightParen => ")"@,
            TokenKind::Pipe => "|"@,
            TokenKind::Caret => "^"@,
            TokenKind::Comma => ","@,
            TokenKind::Semicolon => ";"@,
            TokenKind::Colon => ":"@,
            TokenKind::Dot => "."@,
            TokenKind::Newline => "\n"@,
            TokenKind::Comment => "//"@,
            TokenKind::MultiLineComment => "/*"@,
            TokenKind::Whitespace => " "@,
            TokenKind::Error => "ERROR"@,
        }
    }

    /// Operator precedence level, 0 for anything that is not an operator.
    pub open spec fn precedence(self) -> u8 {
        match self {
            TokenKind::Or => 1,
            TokenKind::And => 2,
            TokenKind::Equals | TokenKind::NotEquals => 3,
            TokenKind::LessThan | TokenKind::LessEqual | TokenKind::GreaterThan
            | TokenKind::GreaterEqual => 4,
            TokenKind::Range => 5,
            TokenKind::Plus | TokenKind::Minus => 6,
            TokenKind::Multiply | TokenKind::Divide | TokenKind::Modulo => 7,
            TokenKind::Power => 8,
            TokenKind::DotProduct | TokenKind::Gradient | TokenKind::Partial => 9,
            _ => 0,
        }
    }

    /// Whether the kind is an operator that can stand between two operands.
    pub open spec fn is_binary_operator(self) -> bool {
        self.precedence() > 0
    }

    /// Whether the kind is an operator that groups to the left.
    pub open spec fn is_left_associative(self) -> bool {
        self.is_binary_operator() && self != TokenKind::Power
    }

    /// Whether the kind can stand in front of a single operand.
    pub open spec fn is_unary_operator(self) -> bool {
        self == TokenKind::Minus || self == TokenKind::Not
    }

    /// Whether the kind is one of the two assignment operators.
    pub open spec fn is_assignment_operator(self) -> bool {
        self == TokenKind::Assign || self == TokenKind::AssignConst
    }
    /// The name of the kind, as it is written in this library.
    pub open spec fn name(self) -> Seq<char> {
        match self {
            TokenKind::Number => "Number"@,
            TokenKind::String => "String"@,
            TokenKind::Identifier => "Identifier"@,
            TokenKind::Let => "Let"@,
            TokenKind::Func => "Func"@,
            TokenKind::If => "If"@,
            TokenKind::Else => "Else"@,
            TokenKind::While => "While"@,
            TokenKind::For => "For"@,
            TokenKind::Return => "Return"@,
            TokenKind::True => "True"@,
            TokenKind::False => "False"@,
            TokenKind::Null => "Null"@,
            TokenKind::In => "In"@,
            TokenKind::Plus => "Plus"@,
            TokenKind::Minus => "Minus"@,
            TokenKind::Multiply => "Multiply"@,
            TokenKind::Divide => "Divide"@,
            TokenKind::Modulo => "Modulo"@,
            TokenKind::Power => "Power"@,
            TokenKind::Assign => "Assign"@,
            TokenKind::AssignConst => "AssignConst"@,
            TokenKind::Equals => "Equals"@,
            TokenKind::NotEquals => "NotEquals"@,
            TokenKind::LessThan => "LessThan"@,
            TokenKind::LessEqual => "LessEqual"@,
            TokenKind::GreaterThan => "GreaterThan"@,
            TokenKind::GreaterEqual => "GreaterEqual"@,
            TokenKind::And => "And"@,
            TokenKind::Or => "Or"@,
            TokenKind::Not => "Not"@,
            TokenKind::Range => "Range"@,
            TokenKind::DotProduct => "DotProduct"@,
            TokenKind::Gradient => "Gradient"@,
            TokenKind::Partial => "Partial"@,
            TokenKind::LeftBracket => "LeftBracket"@,
            TokenKind::RightBracket => "RightBracket"@,
            TokenKind::LeftBrace => "LeftBrace"@,
            TokenKind::RightBrace => "RightBrace"@,
            TokenKind::LeftParen => "LeftParen"@,
            TokenKind::RightParen => "RightParen"@,
            TokenKind::Pipe => "Pipe"@,
            TokenKind::Caret => "Caret"@,
            TokenKind::Comma => "Comma"@,
            TokenKind::Semicolon => "Semicolon"@,
            TokenKind::Colon => "Colon"@,
            TokenKind::Dot => "Dot"@,
            TokenKind::Newline => "Newline"@,
            TokenKind::Comment => "Comment"@,
            TokenKind::MultiLineComment => "MultiLineComment"@,
            TokenKind::Whitespace => "Whitespace"@,
            TokenKind::Error => "Error"@,
        }
    }
}

/// A token: its kind, and for numbers, strings and identifiers the text as written.
#[derive(Debug, Clone)]
pub enum Token {
    Number(String),
    String(String),
    Identifier(String),
    Let,
    Func,
    If,
    Else,
    While,
    For,
    Return,
    True,
    False,
    Null,
    In,
    Plus,
    Minus,
    Multiply,
    Divide,
    Modulo,
    Power,
    Assign,
    AssignConst,
    Equals,
    NotEquals,
    LessThan,
    LessEqual,
    GreaterThan,
    GreaterEqual,
    And,
    Or,
    Not,
    Range,
    DotProduct,
    Gradient,
    Partial,
    LeftBracket,
    RightBracket,
    LeftBrace,
    RightBrace,
    LeftParen,
    RightParen,
    Pipe,
    Caret,
    Comma,
    Semicolon,
    Colon,
    Dot,
    Newline,
    Comment,
    MultiLineComment,
    Whitespace,
    Error,
}

/// The mathematical content of a token: its kind and the text it carries
/// (empty unless the kind carries text).
pub struct TokenView {
    pub kind: TokenKind,
    pub text: Seq<char>,
}

impl TokenView {
    /// The text a token stands for: its own text, or the spelling of its kind.
    pub open spec fn lexeme(self) -> Seq<char> {
        if self.kind.carries_text() {
            self.text
        } else {
            self.kind.spelling()
        }
    }

    /// What a token shows when displayed: literals are wrapped in their kind's
    /// name, the structural kinds show their name, everything else its spelling.
    pub open spec fn display_text(self) -> Seq<char> {
        match self.kind {
            TokenKind::Number => "Number("@ + self.text + ")"@,
            TokenKind::String => "String("@ + self.text + ")"@,
            TokenKind::Identifier => "Identifier("@ + self.text + ")"@,
            TokenKind::Comment => "Comment"@,
            TokenKind::MultiLineComment => "MultiLineComment"@,
            TokenKind::Newline => "Newline"@,
            TokenKind::Error => "Error"@,
            _ => self.kind.spelling(),
        }
    }
}

/// The text of `s` in double quotes, with the escapes that Rust writes when it
/// formats a string for debugging.
pub uninterp spec fn quoted_text(s: Seq<char>) -> Seq<char>;

/// `s` formatted for debugging.
///
/// Calls `<str as Debug>::fmt` through `format!`; the result is a function of
/// the characters of `s` alone, and `quoted_text` is the name for it.
#[verifier::external_body]
fn quote(s: &str) -> (r: String)
    ensures
        r@ == quoted_text(s@),
{
    format!("{:?}", s)
}

impl TokenView {
    /// The token as it is named in error messages: the name of its kind,
    /// followed for the kinds that carry text by that text, quoted, in
    /// parentheses.
    pub open spec fn debug_text(self) -> Seq<char> {
        if self.kind.carries_text() {
            self.kind.name() + "("@ + quoted_text(self.text) + ")"@
        } else {
            self.kind.name()
        }
    }
}

impl View for Token {
    type V = TokenView;

    open spec fn view(&self) -> TokenView {
        TokenView { kind: self.spec_kind(), text: self.spec_text() }
    }
}

impl Token {
    /// The kind of the token, as a specification.
    pub open spec fn spec_kind(&self) -> TokenKind {
        match self {
            Token::Number(_) => TokenKind::Number,
            Token::String(_) => TokenKind::String,
            Token::Identifier(_) => TokenKind::Identifier,
            Token::Let => TokenKind::Let,
            Token::Func => TokenKind::Func,
            Token::If => TokenKind::If,
            Token::Else => TokenKind::Else,
            Token::While => TokenKind::While,
            Token::For => TokenKind::For,
            Token::Return => TokenKind::Return,
            Token::True => TokenKind::True,
            Token::False => TokenKind::False,
            Token::Null => TokenKind::Null,
            Token::In => TokenKind::In,
            Token::Plus => TokenKind::Plus,
            Token::Minus => TokenKind::Minus,
            Token::Multiply => TokenKind::Multiply,
            Token::Divide => TokenKind::Divide,
            Token::Modulo => TokenKind::Modulo,
            Token::Power => TokenKind::Power,
            Token::Assign => TokenKind::Assign,
            Token::AssignConst => TokenKind::AssignConst,
            Token::Equals => TokenKind::Equals,
            Token::NotEquals => TokenKind::NotEquals,
            Token::LessThan => TokenKind::LessThan,
            Token::LessEqual => TokenKind::LessEqual,
            Token::GreaterThan => TokenKind::GreaterThan,
            Token::GreaterEqual => TokenKind::GreaterEqual,
            Token::And => TokenKind::And,
            Token::Or => TokenKind::Or,
            Token::Not => TokenKind::Not,
            Token::Range => TokenKind::Range,
            Token::DotProduct => TokenKind::DotProduct,
            Token::Gradient => TokenKind::Gradient,
            Token::Partial => TokenKind::Partial,
            Token::LeftBracket => TokenKind::LeftBracket,
            Token::RightBracket => TokenKind::RightBracket,
            Token::LeftBrace => TokenKind::LeftBrace,
            Token::RightBrace => TokenKind::RightBrace,
            Token::LeftParen => TokenKind::LeftParen,
            Token::RightParen => TokenKind::RightParen,
            Token::Pipe => TokenKind::Pipe,
            Token::Caret => TokenKind::Caret,
            Token::Comma => TokenKind::Comma,
            Token::Semicolon => TokenKind::Semicolon,
            Token::Colon => TokenKind::Colon,
            Token::Dot => TokenKind::Dot,
            Token::Newline => TokenKind::Newline,
            Token::Comment => TokenKind::Comment,
            Token::MultiLineComment => TokenKind::MultiLineComment,
            Token::Whitespace => TokenKind::Whitespace,
            Token::Error => TokenKind::Error,
        }
    }

    /// The text the token carries, as a specification.
    pub open spec fn spec_text(&self) -> Seq<char> {
        match self {
            Token::Number(s) => s@,
            Token::String(s) => s@,
            Token::Identifier(s) => s@,
            _ => Seq::empty(),
        }
    }

    /// The token of the given kind; `text` is kept only by kinds that carry text.
    pub fn from_parts(kind: TokenKind, text: String) -> (t: Token)
        ensures
            t@.kind == kind,
            t@.text == if kind.carries_text() {
                text@
            } else {
                Seq::empty()
            },
    {
        match kind {
            TokenKind::Number => Token::Number(text),
            TokenKind::String => Token::String(text),
            TokenKind::Identifier => Token::Identifier(text),
            TokenKind::Let => Token::Let,
            TokenKind::Func => Token::Func,
            TokenKind::If => Token::If,
            TokenKind::Else => Token::Else,
            TokenKind::While => Token::While,
            TokenKind::For => Token::For,
            TokenKind::Return => Token::Return,
            TokenKind::True => Token::True,
            TokenKind::False => Token::False,
            TokenKind::Null => Token::Null,
            TokenKind::In => Token::In,
            TokenKind::Plus => Token::Plus,
            TokenKind::Minus => Token::Minus,
            TokenKind::Multiply => Token::Multiply,
            TokenKind::Divide => Token::Divide,
            TokenKind::Modulo => Token::Modulo,
            TokenKind::Power => Token::Power,
            TokenKind::Assign => Token::Assign,
            TokenKind::AssignConst => Token::AssignConst,
            TokenKind::Equals => Token::Equals,
            TokenKind::NotEquals => Token::NotEquals,
            TokenKind::LessThan => Token::LessThan,
            TokenKind::LessEqual => Token::LessEqual,
            TokenKind::GreaterThan => Token::GreaterThan,
            TokenKind::GreaterEqual => Token::GreaterEqual,
            TokenKind::And => Token::And,
            TokenKind::Or => Token::Or,
            TokenKind::Not => Token::Not,
            TokenKind::Range => Token::Range,
            TokenKind::DotProduct => Token::DotProduct,
            TokenKind::Gradient => Token::Gradient,
            TokenKind::Partial => Token::Partial,
            TokenKind::LeftBracket => Token::LeftBracket,
            TokenKind::RightBracket => Token::RightBracket,
            TokenKind::LeftBrace => Token::LeftBrace,
            TokenKind::RightBrace => Token::RightBrace,
            TokenKind::LeftParen => Token::LeftParen,
            TokenKind::RightParen => Token::RightParen,
            TokenKind::Pipe => Token::Pipe,
            TokenKind::Caret => Token::Caret,
            TokenKind::Comma => Token::Comma,
            TokenKind::Semicolon => Token::Semicolon,
            TokenKind::Colon => Token::Colon,
            TokenKind::Dot => Token::Dot,
            TokenKind::Newline => Token::Newline,
            TokenKind::Comment => Token::Comment,
            TokenKind::MultiLineComment => Token::MultiLineComment,
            TokenKind::Whitespace => Token::Whitespace,
            TokenKind::Error => Token::Error,
        }
    }

    /// The kind of the token.
    pub fn kind(&self) -> (k: TokenKind)
        ensures
            k == self@.kind,
    {
        match self {
            Token::Number(_) => TokenKind::Number,
            Token::String(_) => TokenKind::String,
            Token::Identifier(_) => TokenKind::Identifier,
            Token::Let => TokenKind::Let,
            Token::Func => TokenKind::Func,
            Token::If => TokenKind::If,
            Token::Else => TokenKind::Else,
            Token::While => TokenKind::While,
            Token::For => TokenKind::For,
            Token::Return => TokenKind::Return,
            Token::True => TokenKind::True,
            Token::False => TokenKind::False,
            Token::Null => TokenKind::Null,
            Token::In => TokenKind::In,
            Token::Plus => TokenKind::Plus,
            Token::Minus => TokenKind::Minus,
            Token::Multiply => TokenKind::Multiply,
            Token::Divide => TokenKind::Divide,
            Token::Modulo => TokenKind::Modulo,
            Token::Power => TokenKind::Power,
            Token::Assign => TokenKind::Assign,
            Token::AssignConst => TokenKind::AssignConst,
            Token::Equals => TokenKind::Equals,
            Token::NotEquals => TokenKind::NotEquals,
            Token::LessThan => TokenKind::LessThan,
            Token::LessEqual => TokenKind::LessEqual,
            Token::GreaterThan => TokenKind::GreaterThan,
            Token::GreaterEqual => TokenKind::GreaterEqual,
            Token::And => TokenKind::And,
            Token::Or => TokenKind::Or,
            Token::Not => TokenKind::Not,
            Token::Range => TokenKind::Range,
            Token::DotProduct => TokenKind::DotProduct,
            Token::Gradient => TokenKind::Gradient,
            Token::Partial => TokenKind::Partial,
            Token::LeftBracket => TokenKind::LeftBracket,
            Token::RightBracket => TokenKind::RightBracket,
            Token::LeftBrace => TokenKind::LeftBrace,
            Token::RightBrace => TokenKind::RightBrace,
            Token::LeftParen => TokenKind::LeftParen,
            Token::RightParen => TokenKind::RightParen,
            Token::Pipe => TokenKind::Pipe,
            Token::Caret => TokenKind::Caret,
            Token::Comma => TokenKind::Comma,
            Token::Semicolon => TokenKind::Semicolon,
            Token::Colon => TokenKind::Colon,
            Token::Dot => TokenKind::Dot,
            Token::Newline => TokenKind::Newline,
            Token::Comment => TokenKind::Comment,
            Token::MultiLineComment => TokenKind::MultiLineComment,
            Token::Whitespace => TokenKind::Whitespace,
            Token::Error => TokenKind::Error,
        }
    }

    /// Returns the category of this token.
    pub fn category(&self) -> (c: TokenCategory)
        ensures
            c == self@.kind.category(),
    {
        match self {
            Token::Number(_) | Token::String(_) | Token::Identifier(_) => TokenCategory::Literal,
            Token::Let | Token::Func | Token::If | Token::Else | Token::While | Token::For
            | Token::Return | Token::True | Token::False | Token::Null | Token::In => {
                TokenCategory::Keyword
            },
            Token::Plus | Token::Minus | Token::Multiply | Token::Divide | Token::Modulo
            | Token::Power | Token::Assign | Token::AssignConst | Token::Equals
            | Token::NotEquals | Token::LessThan | Token::LessEqual | Token::GreaterThan
            | Token::GreaterEqual | Token::And | Token::Or | Token::Not | Token::Range
            | Token::DotProduct | Token::Gradient | Token::Partial => TokenCategory::Operator,
            Token::LeftBracket | Token::RightBracket | Token::LeftBrace | Token::RightBrace
            | Token::LeftParen | Token::RightParen | Token::Pipe | Token::Caret | Token::Comma
            | Token::Semicolon | Token::Colon | Token::Dot => TokenCategory::Delimiter,
            Token::Newline | Token::Comment | Token::MultiLineComment | Token::Whitespace => {
                TokenCategory::Special
            },
            Token::Error => TokenCategory::Error,
        }
    }

    /// Returns true if this token is a keyword.
    pub fn is_keyword(&self) -> (b: bool)
        ensures
            b == (self@.kind.category() == TokenCategory::Keyword),
    {
        self.category() == TokenCategory::Keyword
    }

    /// Returns true if this token is an operator.
    pub fn is_operator(&self) -> (b: bool)
        ensures
            b == (self@.kind.category() == TokenCategory::Operator),
    {
        self.category() == TokenCategory::Operator
    }

    /// Returns true if this token is a literal.
    pub fn is_literal(&self) -> (b: bool)
        ensures
            b == (self@.kind.category() == TokenCategory::Literal),
    {
        self.category() == TokenCategory::Literal
    }

    /// Returns true if this token is a delimiter.
    pub fn is_delimiter(&self) -> (b: bool)
        ensures
            b == (self@.kind.category() == TokenCategory::Delimiter),
    {
        self.category() == TokenCategory::Delimiter
    }

    /// Returns the text the token stands for.
    pub fn as_string(&self) -> (s: String)
        ensures
            s@ == self@.lexeme(),
    {
        match self {
            Token::Number(n) => n.clone(),
            Token::String(s) => s.clone(),
            Token::Identifier(i) => i.clone(),
            Token::Let => String::from_str("let"),
            Token::Func => String::from_str("func"),
            Token::If => String::from_str("if"),
            Token::Else => String::from_str("else"),
            Token::While => String::from_str("while"),
            Token::For => String::from_str("for"),
            Token::Return => String::from_str("return"),
            Token::True => String::from_str("true"),
            Token::False => String::from_str("false"),
            Token::Null => String::from_str("null"),
            Token::In => String::from_str("in"),
            Token::Plus => String::from_str("+"),
            Token::Minus => String::from_str("-"),
            Token::Multiply => String::from_str("*"),
            Token::Divide => String::from_str("/"),
            Token::Modulo => String::from_str("%"),
            Token::Power => String::from_str("**"),
            Token::Assign => String::from_str(":="),
            Token::AssignConst => String::from_str("::"),
            Token::Equals => String::from_str("=="),
            Token::NotEquals => String::from_str("!="),
            Token::LessThan => String::from_str("<"),
            Token::LessEqual => String::from_str("<="),
            Token::GreaterThan => String::from_str(">"),
            Token::GreaterEqual => String::from_str(">="),
            Token::And => String::from_str("&&"),
            Token::Or => String::from_str("||"),
            Token::Not => String::from_str("!"),
            Token::Range => String::from_str(".."),
            Token::DotProduct => String::from_str("@"),
            Token::Gradient => String::from_str("∇"),
            Token::Partial => String::from_str("∂"),
            Token::LeftBracket => String::from_str("["),
            Token::RightBracket => String::from_str("]"),
            Token::LeftBrace => String::from_str("{"),
            Token::RightBrace => String::from_str("}"),
            Token::LeftParen => String::from_str("("),
            Token::RightParen => String::from_str(")"),
            Token::Pipe => String::from_str("|"),
            Token::Caret => String::from_str("^"),
            Token::Comma => String::from_str(","),
            Token::Semicolon => String::from_str(";"),
            Token::Colon => String::from_str(":"),
            Token::Dot => String::from_str("."),
            Token::Newline => String::from_str("\n"),
            Token::Comment => String::from_str("//"),
            Token::MultiLineComment => String::from_str("/*"),
            Token::Whitespace => String::from_str(" "),
            Token::Error => String::from_str("ERROR"),
        }
    }

    /// Returns the precedence level for operators (0 = no precedence).
    pub fn precedence(&self) -> (p: u8)
        ensures
            p == self@.kind.precedence(),
    {
        match self {
            Token::Or => 1,
            Token::And => 2,
            Token::Equals | Token::NotEquals => 3,
            Token::LessThan | Token::LessEqual | Token::GreaterThan | Token::GreaterEqual => 4,
            Token::Range => 5,
            Token::Plus | Token::Minus => 6,
            Token::Multiply | Token::Divide | Token::Modulo => 7,
            Token::Power => 8,
            Token::DotProduct | Token::Gradient | Token::Partial => 9,
            _ => 0,
        }
    }

    /// Returns true if this operator is left-associative.
    pub fn is_left_associative(&self) -> (b: bool)
        ensures
            b == self@.kind.is_left_associative(),
    {
        match self {
            Token::Power | Token::Assign | Token::AssignConst => false,
            Token::Or | Token::And | Token::Equals | Token::NotEquals | Token::LessThan
            | Token::LessEqual | Token::GreaterThan | Token::GreaterEqual | Token::Range
            | Token::Plus | Token::Minus | Token::Multiply | Token::Divide | Token::Modulo
            | Token::DotProduct | Token::Gradient | Token::Partial => true,
            _ => false,
        }
    }

    /// Returns true if this token is a binary operator.
    pub fn is_binary_operator(&self) -> (b: bool)
        ensures
            b == self@.kind.is_binary_operator(),
    {
        match self {
            Token::Plus | Token::Minus | Token::Multiply | Token::Divide | Token::Modulo
            | Token::Power | Token::Equals | Token::NotEquals | Token::LessThan
            | Token::LessEqual | Token::GreaterThan | Token::GreaterEqual | Token::And
            | Token::Or | Token::Range | Token::DotProduct | Token::Gradient | Token::Partial => {
                true
            },
            _ => false,
        }
    }

    /// Returns true if this token is a unary operator.
    pub fn is_unary_operator(&self) -> (b: bool)
        ensures
            b == self@.kind.is_unary_operator(),
    {
        match self {
            Token::Minus | Token::Not => true,
            _ => false,
        }
    }

    /// Returns true if this token is an assignment operator.
    pub fn is_assignment_operator(&self) -> (b: bool)
        ensures
            b == self@.kind.is_assignment_operator(),
    {
        match self {
            Token::Assign | Token::AssignConst => true,
            _ => false,
        }
    }

    /// The name of a kind.
    pub fn name_of(kind: TokenKind) -> (name: &'static str)
        ensures
            name@ == kind.name(),
    {
        match kind {
            TokenKind::Number => "Number",
            TokenKind::String => "String",
            TokenKind::Identifier => "Identifier",
            TokenKind::Let => "Let",
            TokenKind::Func => "Func",
            TokenKind::If => "If",
            TokenKind::Else => "Else",
            TokenKind::While => "While",
            TokenKind::For => "For",
            TokenKind::Return => "Return",
            TokenKind::True => "True",
            TokenKind::False => "False",
            TokenKind::Null => "Null",
            TokenKind::In => "In",
            TokenKind::Plus => "Plus",
            TokenKind::Minus => "Minus",
            TokenKind::Multiply => "Multiply",
            TokenKind::Divide => "Divide",
            TokenKind::Modulo => "Modulo",
            TokenKind::Power => "Power",
            TokenKind::Assign => "Assign",
            TokenKind::AssignConst => "AssignConst",
            TokenKind::Equals => "Equals",
            TokenKind::NotEquals => "NotEquals",
            TokenKind::LessThan => "LessThan",
            TokenKind::LessEqual => "LessEqual",
            TokenKind::GreaterThan => "GreaterThan",
            TokenKind::GreaterEqual => "GreaterEqual",
            TokenKind::And => "And",
            TokenKind::Or => "Or",
            TokenKind::Not => "Not",
            TokenKind::Range => "Range",
            TokenKind::DotProduct => "DotProduct",
            TokenKind::Gradient => "Gradient",
            TokenKind::Partial => "Partial",
            TokenKind::LeftBracket => "LeftBracket",
            TokenKind::RightBracket => "RightBracket",
            TokenKind::LeftBrace => "LeftBrace",
            TokenKind::RightBrace => "RightBrace",
            TokenKind::LeftParen => "LeftParen",
            TokenKind::RightParen => "RightParen",
            TokenKind::Pipe => "Pipe",
            TokenKind::Caret => "Caret",
            TokenKind::Comma => "Comma",
            TokenKind::Semicolon => "Semicolon",
            TokenKind::Colon => "Colon",
            TokenKind::Dot => "Dot",
            TokenKind::Newline => "Newline",
            TokenKind::Comment => "Comment",
            TokenKind::MultiLineComment => "MultiLineComment",
            TokenKind::Whitespace => "Whitespace",
            TokenKind::Error => "Error",
        }
    }

    /// The token as it is named in error messages.
    pub fn debug_string(&self) -> (s: String)
        ensures
            s@ == self@.debug_text(),
    {
        let name = Self::name_of(self.kind());
        match self {
            Token::Number(t) | Token::String(t) | Token::Identifier(t) => {
                let mut out = String::from_str(name);
                out.append("(");
                out.append(quote(t.as_str()).as_str());
                out.append(")");
                out
            },
            _ => String::from_str(name),
        }
    }

    /// A copy of the token.
    pub fn duplicate(&self) -> (t: Token)
        ensures
            t@ == self@,
    {
        match self {
            Token::Number(t) => Token::Number(t.clone()),
            Token::String(t) => Token::String(t.clone()),
            Token::Identifier(t) => Token::Identifier(t.clone()),
            _ => Token::from_parts(self.kind(), String::new()),
        }
    }

    /// The text shown for the token in messages meant for people.
    pub fn to_display_string(&self) -> (s: String)
        ensures
            s@ == self@.display_text(),
    {
        match self {
            Token::Number(n) => wrap_in_name("Number(", n),
            Token::String(t) => wrap_in_name("String(", t),
            Token::Identifier(i) => wrap_in_name("Identifier(", i),
            Token::Comment => String::from_str("Comment"),
            Token::MultiLineComment => String::from_str("MultiLineComment"),
            Token::Newline => String::from_str("Newline"),
            Token::Error => String::from_str("Error"),
            _ => self.as_string(),
        }
    }
}

/// `open` followed by `inner` and a closing parenthesis.
fn wrap_in_name(open: &str, inner: &String) -> (s: String)
    ensures
        s@ == open@ + inner@ + ")"@,
{
    let mut out = String::from_str(open);
    out.append(inner.as_str());
    out.append(")");
    out
}

/// A token whose kind carries no text has none.
pub proof fn lemma_text_of_fixed_kind(t: Token)
    ensures
        !t@.kind.carries_text() ==> t@.text == Seq::<char>::empty(),
{
}

impl PartialEq for Token {
    fn eq(&self, other: &Token) -> (b: bool) {
        match self {
            Token::Number(a) => match other {
                Token::Number(b) => *a == *b,
                _ => false,
            },
            Token::String(a) => match other {
                Token::String(b) => *a == *b,
                _ => false,
            },
            Token::Identifier(a) => match other {
                Token::Identifier(b) => *a == *b,
                _ => false,
            },
            _ => self.kind() == other.kind(),
        }
    }
}

impl vstd::std_specs::cmp::PartialEqSpecImpl for Token {
    open spec fn obeys_eq_spec() -> bool {
        true
    }

    open spec fn eq_spec(&self, other: &Token) -> bool {
        self@ == other@
    }
}

/// A token together with where it was found in the source.
#[derive(Debug, Clone)]
pub struct TokenInfo {
    pub token: Token,
    pub line: usize,
    pub column: usize,
    pub length: usize,
    pub source_text: String,
}

/// The mathematical content of a located token.
pub struct TokenInfoView {
    pub token: TokenView,
    pub line: usize,
    pub column: usize,
    pub length: usize,
    pub source_text: Seq<char>,
}

impl View for TokenInfo {
    type V = TokenInfoView;

    open spec fn view(&self) -> TokenInfoView {
        TokenInfoView {
            token: self.token@,
            line: self.line,
            column: self.column,
            length: self.length,
            source_text: self.source_text@,
        }
    }
}

impl TokenInfo {
    /// Creates a new TokenInfo with the given parameters.
    pub fn new(token: Token, line: usize, column: usize, length: usize, source_text: String) -> (info: Self)
        ensures
            info.token == token,
            info.line == line,
            info.column == column,
            info.length == length,
            info.source_text == source_text,
    {
        Self { token, line, column, length, source_text }
    }

    /// A copy of the located token.
    pub fn duplicate(&self) -> (info: Self)
        ensures
            info@ == self@,
    {
        Self {
            token: self.token.duplicate(),
            line: self.line,
            column: self.column,
            length: self.length,
            source_text: self.source_text.clone(),
        }
    }

    /// Returns the category of this token.
    pub fn category(&self) -> (c: TokenCategory)
        ensures
            c == self@.token.kind.category(),
    {
        self.token.category()
    }

    /// Returns true if this token is a keyword.
    pub fn is_keyword(&self) -> (b: bool)
        ensures
            b == (self@.token.kind.category() == TokenCategory::Keyword),
    {
        self.token.is_keyword()
    }

    /// Returns true if this token is an operator.
    pub fn is_operator(&self) -> (b: bool)
        ensures
            b == (self@.token.kind.category() == TokenCategory::Operator),
    {
        self.token.is_operator()
    }

    /// Returns true if this token is a literal.
    pub fn is_literal(&self) -> (b: bool)
        ensures
            b == (self@.token.kind.category() == TokenCategory::Literal),
    {
        self.token.is_literal()
    }

    /// Returns true if this token is a delimiter.
    pub fn is_delimiter(&self) -> (b: bool)
        ensures
            b == (self@.token.kind.category() == TokenCategory::Delimiter),
    {
        self.token.is_delimiter()
    }

    /// Returns the text the token stands for.
    pub fn as_string(&self) -> (s: String)
        ensures
            s@ == self@.token.lexeme(),
    {
        self.token.as_string()
    }

    /// Returns the precedence level for operators (0 = no precedence).
    pub fn precedence(&self) -> (p: u8)
        ensures
            p == self@.token.kind.precedence(),
    {
        self.token.precedence()
    }

    /// Returns true if this operator is left-associative.
    pub fn is_left_associative(&self) -> (b: bool)
        ensures
            b == self@.token.kind.is_left_associative(),
    {
        self.token.is_left_associative()
    }
}

} // verus!
