//! The tokens that the lexer emits, and their mathematical view.
use vstd::prelude::*;

verus! {

/// One lexical unit of the source text.
#[derive(Debug, PartialEq, Eq)]
pub enum Token {
    /// Letters, digits and the extended symbols `! $ % & * + - . / : < = > ? @ ^ _ ~`,
    /// not starting with a digit; or the text between two `|`.
    Identifier(String),
    /// `; comment` up to the end of the line, trimmed.
    Comment(String),
    /// `#| comment |#`, the text between the delimiters, trimmed.
    BlockComment(String),
    /// `#!directive`, the run of characters after `#!` up to white space (possibly empty).
    Directive(String),
    /// `(`
    OpenParen,
    /// `)`
    CloseParen,
    /// `[`, reserved
    OpenSquareParen,
    /// `]`, reserved
    CloseSquareParen,
    /// `{`, reserved
    OpenCurlyParen,
    /// `}`, reserved
    CloseCurlyParen,
    /// `'`, quoted data.
    Apost,
    /// `` ` ``, partially constant data.
    Grave,
    /// A standalone `.`, the separator of a dotted pair.
    Dot,
    /// `#(`
    OpenVec,
    /// `#u8(`
    OpenByteVec,
    /// A literal, with its raw text.
    Literal(LiteralKind),
    /// Input that is no known syntax, or a construct that is never closed.
    Unknown,
    /// The end of the input; every call after the last token returns it again.
    EOF,
}

/// The kinds of literal, each with its raw text.
#[derive(Debug, PartialEq, Eq)]
pub enum LiteralKind {
    Str(String),
    Boolean(String),
    Number(String),
}

/// The view of a `Token`: its variant, with each text seen as characters.
pub enum TokenView {
    Identifier(Seq<char>),
    Comment(Seq<char>),
    BlockComment(Seq<char>),
    Directive(Seq<char>),
    OpenParen,
    CloseParen,
    OpenSquareParen,
    CloseSquareParen,
    OpenCurlyParen,
    CloseCurlyParen,
    Apost,
    Grave,
    Dot,
    OpenVec,
    OpenByteVec,
    Literal(LiteralView),
    Unknown,
    EOF,
}

/// The view of a `LiteralKind`.
pub enum LiteralView {
    Str(Seq<char>),
    Boolean(Seq<char>),
    Number(Seq<char>),
}

impl View for LiteralKind {
    type V = LiteralView;

    open spec fn view(&self) -> LiteralView {
        match self {
            LiteralKind::Str(s) => LiteralView::Str(s@),
            LiteralKind::Boolean(s) => LiteralView::Boolean(s@),
            LiteralKind::Number(s) => LiteralView::Number(s@),
        }
    }
}

impl View for Token {
    type V = TokenView;

    open spec fn view(&self) -> TokenView {
        match self {
            Token::Identifier(s) => TokenView::Identifier(s@),
            Token::Comment(s) => TokenView::Comment(s@),
            Token::BlockComment(s) => TokenView::BlockComment(s@),
            Token::Directive(s) => TokenView::Directive(s@),
            Token::OpenParen => TokenView::OpenParen,
            Token::CloseParen => TokenView::CloseParen,
            Token::OpenSquareParen => TokenView::OpenSquareParen,
            Token::CloseSquareParen => TokenView::CloseSquareParen,
            Token::OpenCurlyParen => TokenView::OpenCurlyParen,
            Token::CloseCurlyParen => TokenView::CloseCurlyParen,
            Token::Apost => TokenView::Apost,
            Token::Grave => TokenView::Grave,
            Token::Dot => TokenView::Dot,
            Token::OpenVec => TokenView::OpenVec,
            Token::OpenByteVec => TokenView::OpenByteVec,
            Token::Literal(l) => TokenView::Literal(l@),
            Token::Unknown => TokenView::Unknown,
            Token::EOF => TokenView::EOF,
        }
    }
}

} // verus!
