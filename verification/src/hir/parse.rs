//! The reading position in a token stream.
use crate::token::tree::{
    same_token, span_of, suffix_weight, token_weight, Token, TokenStream, TokenTree,
};
use crate::Spanned;
use vstd::prelude::*;

verus! {

/// Why a token stream could not be parsed.
#[derive(Debug, PartialEq)]
pub enum SyntaxError {
    /// The token that was found, and what was expected in its place.
    UnexpectedToken(TokenTree, &'static str),
    /// The tokens ended where more were expected.
    EarlyEof,
}

/// What a parser returns.
pub type SyntaxResult<T> = Result<T, SyntaxError>;

/// A token stream and the place of the next token to read.
pub struct TokenIter<'a> {
    tokens: &'a Vec<TokenTree>,
    position: usize,
}

impl<'a> TokenIter<'a> {
    /// All the tokens, read or not.
    pub closed spec fn stream(&self) -> Seq<TokenTree> {
        self.tokens@
    }

    /// How many tokens have been read.
    pub closed spec fn offset(&self) -> int {
        self.position as int
    }

    /// The position is inside the tokens or at their end.
    pub open spec fn wf(&self) -> bool {
        0 <= self.offset() <= self.stream().len()
    }

    /// How much there is left to read.
    pub open spec fn weight(&self) -> nat {
        suffix_weight(self.stream(), self.offset())
    }

    /// The token `index` places after the next one, if there is one.
    pub open spec fn ahead(&self, index: int) -> Option<TokenTree> {
        if 0 <= self.offset() + index < self.stream().len() {
            Some(self.stream()[self.offset() + index])
        } else {
            None
        }
    }

    /// The next token, if there is one.
    pub open spec fn next(&self) -> Option<TokenTree> {
        self.ahead(0)
    }

    /// This iterator reads the same tokens as `before` and is no further
    /// back.
    pub open spec fn follows(&self, before: &TokenIter) -> bool {
        &&& self.wf()
        &&& self.stream() == before.stream()
        &&& before.offset() <= self.offset()
    }

    /// An iterator at the start of `stream`.
    pub fn new(stream: &'a TokenStream) -> (iter: TokenIter<'a>)
        ensures
            iter.wf(),
            iter.stream() == stream.0@,
            iter.offset() == 0,
    {
        TokenIter { tokens: &stream.0, position: 0 }
    }

    /// The token `index` places after the next one, if there is one.
    pub fn peek_ahead(&self, index: usize) -> (token: Option<&'a TokenTree>)
        requires
            self.wf(),
        ensures
            token is Some <==> self.ahead(index as int) is Some,
            token is Some ==> *token->0 == self.ahead(index as int)->0,
    {
        if index < self.tokens.len() - self.position {
            Some(&self.tokens[self.position + index])
        } else {
            None
        }
    }

    /// The next token, if there is one.
    pub fn peek(&self) -> (token: Option<&'a TokenTree>)
        requires
            self.wf(),
        ensures
            token is Some <==> self.next() is Some,
            token is Some ==> *token->0 == self.next()->0,
    {
        self.peek_ahead(0)
    }

    /// Reads the next token, if there is one.
    pub fn consume(&mut self) -> (token: Option<&'a TokenTree>)
        requires
            old(self).wf(),
        ensures
            final(self).follows(old(self)),
            token is Some <==> old(self).next() is Some,
            token is Some ==> *token->0 == old(self).next()->0,
            final(self).offset() == old(self).offset() + if token is Some { 1int } else { 0int },
            final(self).weight() <= old(self).weight(),
            token is Some ==> final(self).weight() + token_weight(*token->0) == old(self).weight(),
    {
        if self.position < self.tokens.len() {
            let token = &self.tokens[self.position];
            self.position = self.position + 1;
            Some(token)
        } else {
            None
        }
    }

    /// The token `index` places after the next one; the tokens ending
    /// before it is an error.
    pub fn expect_peek_ahead(&self, index: usize) -> (r: SyntaxResult<&'a TokenTree>)
        requires
            self.wf(),
        ensures
            match r {
                Ok(token) => self.ahead(index as int) == Some(*token),
                Err(e) => self.ahead(index as int) is None && e is EarlyEof,
            },
    {
        match self.peek_ahead(index) {
            Some(token) => Ok(token),
            None => Err(SyntaxError::EarlyEof),
        }
    }

    /// The next token; the tokens having ended is an error.
    pub fn expect_peek(&self) -> (r: SyntaxResult<&'a TokenTree>)
        requires
            self.wf(),
        ensures
            match r {
                Ok(token) => self.next() == Some(*token),
                Err(e) => self.next() is None && e is EarlyEof,
            },
    {
        self.expect_peek_ahead(0)
    }

    /// Reads the next token; the tokens having ended is an error.
    pub fn expect_consume(&mut self) -> (r: SyntaxResult<&'a TokenTree>)
        requires
            old(self).wf(),
        ensures
            final(self).follows(old(self)),
            final(self).weight() <= old(self).weight(),
            match r {
                Ok(token) => {
                    &&& old(self).next() == Some(*token)
                    &&& final(self).offset() == old(self).offset() + 1
                    &&& final(self).weight() + token_weight(*token) == old(self).weight()
                },
                Err(e) => {
                    &&& old(self).next() is None
                    &&& e is EarlyEof
                    &&& final(self).offset() == old(self).offset()
                },
            },
    {
        match self.consume() {
            Some(token) => Ok(token),
            None => Err(SyntaxError::EarlyEof),
        }
    }

    /// Reads the next token, which has to be of the kind `T`. The token is
    /// read also when it is of another kind.
    pub fn parse_token<T: Token>(&mut self) -> (r: SyntaxResult<T>)
        requires
            old(self).wf(),
        ensures
            final(self).follows(old(self)),
            final(self).weight() <= old(self).weight(),
            match r {
                Ok(value) => {
                    &&& old(self).next() is Some
                    &&& T::is_kind(old(self).next()->0)
                    &&& value.is_token(old(self).next()->0)
                    &&& value.spanned() == span_of(old(self).next()->0)
                    &&& final(self).offset() == old(self).offset() + 1
                    &&& final(self).weight() < old(self).weight()
                },
                Err(e) => match old(self).next() {
                    Some(token) => {
                        &&& !T::is_kind(token)
                        &&& e matches SyntaxError::UnexpectedToken(found, expected) && same_token(
                            token,
                            found,
                        ) && expected@ == T::kind_name()
                        &&& final(self).offset() == old(self).offset() + 1
                    },
                    None => e is EarlyEof && final(self).offset() == old(self).offset(),
                },
            },
    {
        let token = self.expect_consume()?;
        match T::parse_token(token) {
            Some(value) => Ok(value),
            None => Err(SyntaxError::UnexpectedToken(token.duplicate(), T::name())),
        }
    }

    /// Reads the next token if it is of the kind `T`, and leaves it where it
    /// is if not.
    pub fn parse_optional<T: Token>(&mut self) -> (r: Option<T>)
        requires
            old(self).wf(),
        ensures
            final(self).follows(old(self)),
            final(self).weight() <= old(self).weight(),
            match r {
                Some(value) => {
                    &&& old(self).next() is Some
                    &&& T::is_kind(old(self).next()->0)
                    &&& value.is_token(old(self).next()->0)
                    &&& value.spanned() == span_of(old(self).next()->0)
                    &&& final(self).offset() == old(self).offset() + 1
                    &&& final(self).weight() < old(self).weight()
                },
                None => {
                    &&& old(self).next() is Some ==> !T::is_kind(old(self).next()->0)
                    &&& final(self).offset() == old(self).offset()
                },
            },
    {
        match self.peek() {
            Some(token) => match T::parse_token(token) {
                Some(value) => {
                    self.consume();
                    Some(value)
                },
                None => None,
            },
            None => None,
        }
    }
}

} // verus!
