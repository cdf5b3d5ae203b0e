//! Tokens: the pieces that source text is cut into, and the tokeniser.
pub mod cursor;
pub mod group;
pub mod ident;
pub mod keyword;
pub mod lex;
pub mod literal;
pub mod marks;
pub mod punct;
pub mod reader;
pub mod tree;
