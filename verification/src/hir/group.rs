//! What a pair of brackets holds, once what stands between them is parsed.
use crate::hir::parse::{SyntaxError, SyntaxResult, TokenIter};
use crate::token::group::{Delimiter, Group};
use crate::token::tree::{same_token, suffix_weight, TokenTree};
use crate::{Span, Spanned};
use vstd::prelude::*;

verus! {

/// What stands between `{` and `}`.
#[derive(Debug, PartialEq)]
pub struct Brace<T> {
    pub span: Span,
    pub contents: T,
}

/// What stands between `[` and `]`.
#[derive(Debug, PartialEq)]
pub struct Bracket<T> {
    pub span: Span,
    pub contents: T,
}

/// What stands between `(` and `)`.
#[derive(Debug, PartialEq)]
pub struct Parenthesis<T> {
    pub span: Span,
    pub contents: T,
}

impl<T> Brace<T> {
    /// The character that opens the group.
    pub fn open(&self) -> (c: char)
        ensures
            c == '{',
    {
        '{'
    }

    /// The character that closes the group.
    pub fn close(&self) -> (c: char)
        ensures
            c == '}',
    {
        '}'
    }

    /// What the group holds.
    pub fn contents(&self) -> (contents: &T)
        ensures
            *contents == self.contents,
    {
        &self.contents
    }

    /// What the group holds, without the group.
    pub fn into_contents(self) -> (contents: T)
        ensures
            contents == self.contents,
    {
        self.contents
    }
}

impl<T> Bracket<T> {
    /// The character that opens the group.
    pub fn open(&self) -> (c: char)
        ensures
            c == '[',
    {
        '['
    }

    /// The character that closes the group.
    pub fn close(&self) -> (c: char)
        ensures
            c == ']',
    {
        ']'
    }

    /// What the group holds.
    pub fn contents(&self) -> (contents: &T)
        ensures
            *contents == self.contents,
    {
        &self.contents
    }

    /// What the group holds, without the group.
    pub fn into_contents(self) -> (contents: T)
        ensures
            contents == self.contents,
    {
        self.contents
    }
}

impl<T> Parenthesis<T> {
    /// The character that opens the group.
    pub fn open(&self) -> (c: char)
        ensures
            c == '(',
    {
        '('
    }

    /// The character that closes the group.
    pub fn close(&self) -> (c: char)
        ensures
            c == ')',
    {
        ')'
    }

    /// What the group holds.
    pub fn contents(&self) -> (contents: &T)
        ensures
            *contents == self.contents,
    {
        &self.contents
    }

    /// What the group holds, without the group.
    pub fn into_contents(self) -> (contents: T)
        ensures
            contents == self.contents,
    {
        self.contents
    }
}

impl<T> Spanned for Brace<T> {
    open spec fn spanned(&self) -> Span {
        self.span
    }

    fn span(&self) -> (span: Span) {
        self.span
    }
}

impl<T> Spanned for Bracket<T> {
    open spec fn spanned(&self) -> Span {
        self.span
    }

    fn span(&self) -> (span: Span) {
        self.span
    }
}

impl<T> Spanned for Parenthesis<T> {
    open spec fn spanned(&self) -> Span {
        self.span
    }

    fn span(&self) -> (span: Span) {
        self.span
    }
}

/// The name of a kind of group, for error messages.
pub open spec fn group_name(delimiter: Delimiter) -> Seq<char> {
    match delimiter {
        Delimiter::Brace => "Brace"@,
        Delimiter::Bracket => "Bracket"@,
        Delimiter::Parenthesis => "Parenthesis"@,
    }
}

/// The name of a kind of group, for error messages.
pub fn delimiter_name(delimiter: Delimiter) -> (name: &'static str)
    ensures
        name@ == group_name(delimiter),
{
    match delimiter {
        Delimiter::Brace => "Brace",
        Delimiter::Bracket => "Bracket",
        Delimiter::Parenthesis => "Parenthesis",
    }
}

/// Reads the next token, which has to be a group of the kind `delimiter`.
/// The token is read also when it is something else.
pub fn expect_group<'a>(iter: &mut TokenIter<'a>, delimiter: Delimiter) -> (r: SyntaxResult<
    &'a Group,
>)
    requires
        old(iter).wf(),
    ensures
        final(iter).follows(old(iter)),
        final(iter).weight() <= old(iter).weight(),
        match r {
            Ok(group) => {
                &&& old(iter).next() == Some(TokenTree::Group(*group))
                &&& group.delimiter == delimiter
                &&& final(iter).offset() == old(iter).offset() + 1
                &&& final(iter).weight() + 1 + suffix_weight(group.tokens.0@, 0) == old(
                    iter,
                ).weight()
            },
            Err(e) => match old(iter).next() {
                Some(token) => {
                    &&& !(token matches TokenTree::Group(group) && group.delimiter == delimiter)
                    &&& e matches SyntaxError::UnexpectedToken(found, expected) && same_token(
                        token,
                        found,
                    ) && expected@ == if token is Group {
                        group_name(delimiter)
                    } else {
                        "Group"@
                    }
                    &&& final(iter).offset() == old(iter).offset() + 1
                },
                None => e is EarlyEof && final(iter).offset() == old(iter).offset(),
            },
        },
{
    let token = iter.expect_consume()?;
    match token {
        TokenTree::Group(group) => {
            if group.delimiter == delimiter {
                Ok(group)
            } else {
                Err(SyntaxError::UnexpectedToken(token.duplicate(), delimiter_name(delimiter)))
            }
        },
        _ => Err(SyntaxError::UnexpectedToken(token.duplicate(), "Group")),
    }
}

} // verus!
