//! The front and middle sections of a compiler for a small block-scoped
//! scripting language whose target runtime has one flat namespace.
//!
//! Source text is tokenised ([`token`]), parsed into a syntax tree ([`hir`]),
//! lowered to a simplified statement tree and then rewritten twice ([`mir`]):
//! first every written path becomes a fully qualified one, then every
//! qualified path becomes a fixed-width identifier derived from the chain of
//! scopes it was declared in.
use vstd::prelude::*;

pub mod hir;
pub mod mir;
pub mod text;
pub mod token;

pub use crate::token::ident::{Ident, InvalidXID, XID};
pub use crate::token::literal::LiteralType;

verus! {

/// A range of characters in the source text: where it starts and how many
/// characters it covers.
#[derive(Debug, Clone, Copy, PartialEq, Eq, Structural)]
pub struct Span {
    pub index: usize,
    pub width: usize,
}

impl Span {
    /// The span of `width` characters that starts at `index`.
    pub fn new(index: usize, width: usize) -> (span: Self)
        ensures
            span.index == index,
            span.width == width,
    {
        Self { index, width }
    }

    /// The first position after the span.
    pub open spec fn end(self) -> int {
        self.index + self.width
    }

    /// The span that starts where `start` starts and ends where `end` ends.
    pub fn from_start_end(start: Span, end: Span) -> (span: Self)
        requires
            start.index <= end.end() <= usize::MAX,
        ensures
            span.index == start.index,
            span.end() == end.end(),
    {
        Self::new(start.index, end.index + end.width - start.index)
    }
}

/// What has a place in the source text.
pub trait Spanned {
    /// The place of the value in the source.
    spec fn spanned(&self) -> Span;

    fn span(&self) -> (span: Span)
        ensures
            span == self.spanned(),
    ;
}

} // verus!
