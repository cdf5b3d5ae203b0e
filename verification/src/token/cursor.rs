//! The reading position in the source text, and the rules that cut the text
//! into tokens.
use crate::text::char_string;
use crate::token::group::Group;
use crate::token::ident::Ident;
use crate::token::lex::{comment_end, fault_is, lex_one, Lexed};
use crate::token::literal::Literal;
use crate::token::punct::Punct;
use crate::token::tree::{reads_token, span_of, ParseError, ParseResult, TokenTree};
use crate::Span;
use vstd::prelude::*;

verus! {

/// The characters of the source and the place of the next one to read.
pub struct Cursor {
    chars: Vec<char>,
    position: usize,
}

impl Cursor {
    /// The whole source text.
    pub closed spec fn text(&self) -> Seq<char> {
        self.chars@
    }

    /// How many characters have been read.
    pub closed spec fn offset(&self) -> int {
        self.position as int
    }

    /// The position is inside the text or at its end.
    pub open spec fn wf(&self) -> bool {
        0 <= self.offset() <= self.text().len()
    }

    /// How many characters are left to read.
    pub open spec fn left(&self) -> nat {
        (self.text().len() - self.offset()) as nat
    }

    /// The next character, if there is one.
    pub open spec fn next(&self) -> Option<char> {
        if self.offset() < self.text().len() {
            Some(self.text()[self.offset()])
        } else {
            None
        }
    }

    /// This cursor reads the same text as `before` and is no further back.
    pub open spec fn follows(&self, before: &Cursor) -> bool {
        &&& self.wf()
        &&& self.text() == before.text()
        &&& before.offset() <= self.offset()
    }

    /// The token that starts with `start` at `start_pos` has had its first
    /// character read, and nothing more.
    pub open spec fn just_read(&self, start: char, start_pos: usize) -> bool {
        &&& self.wf()
        &&& start_pos + 1 == self.offset()
        &&& self.text()[start_pos as int] == start
    }

    /// A cursor at the start of `chars`.
    pub fn new(chars: Vec<char>) -> (cursor: Cursor)
        ensures
            cursor.wf(),
            cursor.text() == chars@,
            cursor.offset() == 0,
    {
        Cursor { chars, position: 0 }
    }

    /// The character `index` places after the next one, if the text reaches
    /// that far.
    pub fn peek_ahead(&self, index: usize) -> (c: Option<char>)
        requires
            self.wf(),
        ensures
            c == if self.offset() + index < self.text().len() {
                Some(self.text()[self.offset() + index])
            } else {
                None::<char>
            },
    {
        if index < self.chars.len() - self.position {
            Some(self.chars[self.position + index])
        } else {
            None
        }
    }

    /// The character `index` places after the next one; the text ending
    /// before it is an error.
    pub fn expect_peek_ahead(&self, index: usize) -> (r: ParseResult<char>)
        requires
            self.wf(),
        ensures
            match r {
                Ok(c) => self.offset() + index < self.text().len() && c == self.text()[
                    self.offset() + index],
                Err(e) => self.offset() + index >= self.text().len() && e is EarlyEof,
            },
    {
        match self.peek_ahead(index) {
            Some(c) => Ok(c),
            None => Err(ParseError::EarlyEof),
        }
    }

    /// The next character, if there is one.
    pub fn peek(&self) -> (c: Option<char>)
        requires
            self.wf(),
        ensures
            c == self.next(),
    {
        self.peek_ahead(0)
    }

    /// The next character; the text having ended is an error.
    pub fn expect_peek(&self) -> (r: ParseResult<char>)
        requires
            self.wf(),
        ensures
            match r {
                Ok(c) => self.next() == Some(c),
                Err(e) => self.next() is None && e is EarlyEof,
            },
    {
        self.expect_peek_ahead(0)
    }

    /// Reads the next character, if there is one.
    pub fn consume(&mut self) -> (c: Option<char>)
        requires
            old(self).wf(),
        ensures
            final(self).follows(old(self)),
            c == old(self).next(),
            final(self).offset() == old(self).offset() + if c is Some { 1int } else { 0int },
    {
        if self.position < self.chars.len() {
            let c = self.chars[self.position];
            self.position = self.position + 1;
            Some(c)
        } else {
            None
        }
    }

    /// Reads the next character; the text having ended is an error.
    pub fn expect_consume(&mut self) -> (r: ParseResult<char>)
        requires
            old(self).wf(),
        ensures
            final(self).follows(old(self)),
            match r {
                Ok(c) => old(self).next() == Some(c) && final(self).offset() == old(self).offset()
                    + 1,
                Err(e) => {
                    &&& old(self).next() is None
                    &&& e is EarlyEof
                    &&& final(self).offset() == old(self).offset()
                },
            },
    {
        match self.consume() {
            Some(c) => Ok(c),
            None => Err(ParseError::EarlyEof),
        }
    }

    /// The span from `start_pos` to the reading position.
    pub fn into_span(&self, start_pos: usize) -> (span: Span)
        requires
            start_pos <= self.offset(),
        ensures
            span.index == start_pos,
            span.end() == self.offset(),
    {
        Span { index: start_pos, width: self.position - start_pos }
    }

    /// Skips a comment. A comment starts with two slashes and runs to the end
    /// of its line; it is no token.
    #[verifier::loop_isolation(false)]
    pub fn skip_comment(start: char, cursor: &mut Cursor) -> (r: ParseResult<TokenTree>)
        requires
            old(cursor).wf(),
        ensures
            final(cursor).follows(old(cursor)),
            r is Err,
            start == '/' && old(cursor).next() == Some('/') ==> r->Err_0 is NotAToken
                && final(cursor).offset() == comment_end(old(cursor).text(), old(cursor).offset()),
            !(start == '/' && old(cursor).next() == Some('/')) ==> r->Err_0 is InvalidStart
                && final(cursor).offset() == old(cursor).offset(),
    {
        let second = cursor.peek();
        if start == '/' && second == Some('/') {
            loop
                invariant
                    cursor.follows(old(cursor)),
                    comment_end(cursor.text(), old(cursor).offset()) == comment_end(
                        cursor.text(),
                        cursor.offset(),
                    ),
                decreases cursor.left(),
            {
                match cursor.consume() {
                    Some(c) => {
                        if c == '\n' || c == '\r' {
                            break ;
                        }
                    },
                    None => {
                        break ;
                    },
                }
            }
            Err(ParseError::NotAToken)
        } else {
            Err(ParseError::InvalidStart(start, "comment"))
        }
    }

    /// Reads one token, or skips one comment. The rules are tried in this
    /// order: comment, group, literal, punctuation, identifier.
    pub fn apply_parsers(&mut self) -> (r: ParseResult<Option<TokenTree>>)
        requires
            old(self).wf(),
        ensures
            final(self).follows(old(self)),
            match lex_one(old(self).text(), old(self).offset()) {
                Lexed::Token(end) => {
                    &&& r is Ok && r->Ok_0 is Some
                    &&& reads_token(r->Ok_0->0, old(self).text())
                    &&& span_of(r->Ok_0->0).index == old(self).offset()
                    &&& span_of(r->Ok_0->0).end() == end
                    &&& final(self).offset() == end
                    &&& end > old(self).offset()
                },
                Lexed::Comment(end) => {
                    &&& r is Ok && r->Ok_0 is None
                    &&& final(self).offset() == end
                    &&& end > old(self).offset()
                },
                Lexed::EarlyEof => r is Err && r->Err_0 is EarlyEof,
                Lexed::Unexpected(read, kind, at, width) => r is Err && fault_is(
                    r->Err_0,
                    read,
                    kind,
                    at,
                    width,
                ),
            },
        decreases old(self).left(), 0nat,
    {
        let start_pos = self.position;
        let start = self.expect_consume()?;
        match Cursor::skip_comment(start, self) {
            Ok(token) => {
                return Ok(Some(token));
            },
            Err(ParseError::NotAToken) => {
                return Ok(None);
            },
            Err(ParseError::InvalidStart(_, _)) => {},
            Err(other) => {
                return Err(other);
            },
        }
        match Group::parse(start, self, start_pos) {
            Ok(group) => {
                return Ok(Some(TokenTree::Group(group)));
            },
            Err(ParseError::InvalidStart(_, _)) => {},
            Err(other) => {
                return Err(other);
            },
        }
        match Literal::parse(start, self, start_pos) {
            Ok(literal) => {
                return Ok(Some(TokenTree::Literal(literal)));
            },
            Err(ParseError::InvalidStart(_, _)) => {},
            Err(other) => {
                return Err(other);
            },
        }
        match Punct::parse(start, self, start_pos) {
            Ok(punct) => {
                return Ok(Some(TokenTree::Punct(punct)));
            },
            Err(ParseError::InvalidStart(_, _)) => {},
            Err(other) => {
                return Err(other);
            },
        }
        match Ident::parse(start, self, start_pos) {
            Ok(ident) => {
                return Ok(Some(TokenTree::Ident(ident)));
            },
            Err(ParseError::InvalidStart(_, _)) => {},
            Err(other) => {
                return Err(other);
            },
        }
        Err(
            ParseError::UnexpectedToken(
                char_string(start),
                "token tree",
                Span::new(self.position, 1),
            ),
        )
    }
}

} // verus!
