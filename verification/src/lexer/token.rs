use vstd::prelude::*;
use crate::common::span::Span;

verus! {

/// The kinds of token of the language.
///
/// `Float` keeps the literal's spelling; `Identifier` and `StringLit` their
/// text (a string literal with its escapes resolved).
#[derive(Debug, Clone, PartialEq)]
pub enum TokenKind {
    Extern,
    Func,
    Struct,
    Enum,
    Local,
    If,
    Elif,
    Else,
    For,
    In,
    While,
    Return,
    True,
    False,
    Float(String),
    Int(i32),
    Identifier(String),
    StringLit(String),
    Dot,
    Bang,
    Plus,
    Minus,
    Asterisk,
    Slash,
    EqEq,
    BangEq,
    LtEq,
    GtEq,
    Lt,
    Gt,
    Eq,
    LParen,
    RParen,
    LBrace,
    RBrace,
    LBracket,
    RBracket,
    Comma,
    Colon,
    Semicolon,
    FatArrow,
    Arrow,
    VerBar,
    And,
    Or,
    Newline,
    Eof,
    Error,
}

/// The mathematical model of a [`TokenKind`]: strings become sequences of characters.
pub enum SpecTokenKind {
    Extern,
    Func,
    Struct,
    Enum,
    Local,
    If,
    Elif,
    Else,
    For,
    In,
    While,
    Return,
    True,
    False,
    Float(Seq<char>),
    Int(i32),
    Identifier(Seq<char>),
    StringLit(Seq<char>),
    Dot,
    Bang,
    Plus,
    Minus,
    Asterisk,
    Slash,
    EqEq,
    BangEq,
    LtEq,
    GtEq,
    Lt,
    Gt,
    Eq,
    LParen,
    RParen,
    LBrace,
    RBrace,
    LBracket,
    RBracket,
    Comma,
    Colon,
    Semicolon,
    FatArrow,
    Arrow,
    VerBar,
    And,
    Or,
    Newline,
    Eof,
    Error,
}

impl View for TokenKind {
    type V = SpecTokenKind;

    open spec fn view(&self) -> SpecTokenKind {
        match self {
            TokenKind::Extern => SpecTokenKind::Extern,
            TokenKind::Func => SpecTokenKind::Func,
            TokenKind::Struct => SpecTokenKind::Struct,
            TokenKind::Enum => SpecTokenKind::Enum,
            TokenKind::Local => SpecTokenKind::Local,
            TokenKind::If => SpecTokenKind::If,
            TokenKind::Elif => SpecTokenKind::Elif,
            TokenKind::Else => SpecTokenKind::Else,
            TokenKind::For => SpecTokenKind::For,
            TokenKind::In => SpecTokenKind::In,
            TokenKind::While => SpecTokenKind::While,
            TokenKind::Return => SpecTokenKind::Return,
            TokenKind::True => SpecTokenKind::True,
            TokenKind::False => SpecTokenKind::False,
            TokenKind::Float(s) => SpecTokenKind::Float(s@),
            TokenKind::Int(v) => SpecTokenKind::Int(*v),
            TokenKind::Identifier(s) => SpecTokenKind::Identifier(s@),
            TokenKind::StringLit(s) => SpecTokenKind::StringLit(s@),
            TokenKind::Dot => SpecTokenKind::Dot,
            TokenKind::Bang => SpecTokenKind::Bang,
            TokenKind::Plus => SpecTokenKind::Plus,
            TokenKind::Minus => SpecTokenKind::Minus,
            TokenKind::Asterisk => SpecTokenKind::Asterisk,
            TokenKind::Slash => SpecTokenKind::Slash,
            TokenKind::EqEq => SpecTokenKind::EqEq,
            TokenKind::BangEq => SpecTokenKind::BangEq,
            TokenKind::LtEq => SpecTokenKind::LtEq,
            TokenKind::GtEq => SpecTokenKind::GtEq,
            TokenKind::Lt => SpecTokenKind::Lt,
            TokenKind::Gt => SpecTokenKind::Gt,
            TokenKind::Eq => SpecTokenKind::Eq,
            TokenKind::LParen => SpecTokenKind::LParen,
            TokenKind::RParen => SpecTokenKind::RParen,
            TokenKind::LBrace => SpecTokenKind::LBrace,
            TokenKind::RBrace => SpecTokenKind::RBrace,
            TokenKind::LBracket => SpecTokenKind::LBracket,
            TokenKind::RBracket => SpecTokenKind::RBracket,
            TokenKind::Comma => SpecTokenKind::Comma,
            TokenKind::Colon => SpecTokenKind::Colon,
            TokenKind::Semicolon => SpecTokenKind::Semicolon,
            TokenKind::FatArrow => SpecTokenKind::FatArrow,
            TokenKind::Arrow => SpecTokenKind::Arrow,
            TokenKind::VerBar => SpecTokenKind::VerBar,
            TokenKind::And => SpecTokenKind::And,
            TokenKind::Or => SpecTokenKind::Or,
            TokenKind::Newline => SpecTokenKind::Newline,
            TokenKind::Eof => SpecTokenKind::Eof,
            TokenKind::Error => SpecTokenKind::Error,
        }
    }
}

/// A token and the characters it was read from.
#[derive(Debug, Clone, PartialEq)]
pub struct Token {
    pub kind: TokenKind,
    pub span: Span,
}

/// The mathematical model of a [`Token`].
pub struct SpecToken {
    pub kind: SpecTokenKind,
    pub span: Span,
}

impl View for Token {
    type V = SpecToken;

    open spec fn view(&self) -> SpecToken {
        SpecToken { kind: self.kind@, span: self.span }
    }
}

impl TokenKind {
    /// A copy of the kind with the same model.
    pub fn duplicate(&self) -> (res: TokenKind)
        ensures
            res@ == self@,
    {
        match self {
            TokenKind::Float(s) => TokenKind::Float(s.clone()),
            TokenKind::Identifier(s) => TokenKind::Identifier(s.clone()),
            TokenKind::StringLit(s) => TokenKind::StringLit(s.clone()),
            TokenKind::Int(v) => TokenKind::Int(*v),
            TokenKind::Extern => TokenKind::Extern,
            TokenKind::Func => TokenKind::Func,
            TokenKind::Struct => TokenKind::Struct,
            TokenKind::Enum => TokenKind::Enum,
            TokenKind::Local => TokenKind::Local,
            TokenKind::If => TokenKind::If,
            TokenKind::Elif => TokenKind::Elif,
            TokenKind::Else => TokenKind::Else,
            TokenKind::For => TokenKind::For,
            TokenKind::In => TokenKind::In,
            TokenKind::While => TokenKind::While,
            TokenKind::Return => TokenKind::Return,
            TokenKind::True => TokenKind::True,
            TokenKind::False => TokenKind::False,
            TokenKind::Dot => TokenKind::Dot,
            TokenKind::Bang => TokenKind::Bang,
            TokenKind::Plus => TokenKind::Plus,
            TokenKind::Minus => TokenKind::Minus,
            TokenKind::Asterisk => TokenKind::Asterisk,
            TokenKind::Slash => TokenKind::Slash,
            TokenKind::EqEq => TokenKind::EqEq,
            TokenKind::BangEq => TokenKind::BangEq,
            TokenKind::LtEq => TokenKind::LtEq,
            TokenKind::GtEq => TokenKind::GtEq,
            TokenKind::Lt => TokenKind::Lt,
            TokenKind::Gt => TokenKind::Gt,
            TokenKind::Eq => TokenKind::Eq,
            TokenKind::LParen => TokenKind::LParen,
            TokenKind::RParen => TokenKind::RParen,
            TokenKind::LBrace => TokenKind::LBrace,
            TokenKind::RBrace => TokenKind::RBrace,
            TokenKind::LBracket => TokenKind::LBracket,
            TokenKind::RBracket => TokenKind::RBracket,
            TokenKind::Comma => TokenKind::Comma,
            TokenKind::Colon => TokenKind::Colon,
            TokenKind::Semicolon => TokenKind::Semicolon,
            TokenKind::FatArrow => TokenKind::FatArrow,
            TokenKind::Arrow => TokenKind::Arrow,
            TokenKind::VerBar => TokenKind::VerBar,
            TokenKind::And => TokenKind::And,
            TokenKind::Or => TokenKind::Or,
            TokenKind::Newline => TokenKind::Newline,
            TokenKind::Eof => TokenKind::Eof,
            TokenKind::Error => TokenKind::Error,
        }
    }
}

/// The models of a sequence of tokens.
pub open spec fn tokens_view(s: Seq<Token>) -> Seq<SpecToken> {
    s.map_values(|t: Token| t@)
}

} // verus!
