//! The syntax tree, and the parser that builds it from tokens.
pub mod expr;
pub mod grammar;
pub mod group;
pub mod parse;
pub mod punctuated;
pub mod statements;
pub mod stmt;
pub mod ty;

pub use crate::hir::expr::{BinaryOp, Expression, Path, UnaryOp};
pub use crate::hir::group::{Brace, Bracket, Parenthesis};
pub use crate::hir::parse::{SyntaxError, SyntaxResult, TokenIter};
pub use crate::hir::punctuated::Punctuated;
pub use crate::hir::stmt::{
    Assignment, Block, DeclStart, Declaration, ElseBlock, ForLoop, ForLoopInner, FunctionArg,
    FunctionDecl, IfBlock, Statement, WhileLoop,
};
pub use crate::hir::ty::{Primitive, Type};
