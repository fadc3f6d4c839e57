//! A lexer for a Scheme-family s-expression language.
pub mod chars;
pub mod laws;
pub mod lexer;
pub mod syntax;
pub mod tokens;

pub use lexer::Lexer;
pub use tokens::{LiteralKind, Token};
