//! Groups: what stands between a pair of brackets.
use crate::token::cursor::Cursor;
use crate::token::lex::{fault_is, lex_until, token_places, Outcome};
use crate::token::tree::{
    lemma_places_push, places_of, reads, reads_token, ParseError, ParseResult, TokenStream,
    TokenTree,
};
use crate::{Span, Spanned};
use vstd::prelude::*;

verus! {

/// The kinds of bracket.
#[derive(Debug, Clone, Copy, PartialEq, Eq, Structural)]
pub enum Delimiter {
    Brace,
    Bracket,
    Parenthesis,
}

/// The kind of group that `open` opens, if it opens one.
pub open spec fn delimiter_for(open: char) -> Option<Delimiter> {
    if open == '{' {
        Some(Delimiter::Brace)
    } else if open == '[' {
        Some(Delimiter::Bracket)
    } else if open == '(' {
        Some(Delimiter::Parenthesis)
    } else {
        None
    }
}

/// The character that opens a group of the kind `delimiter`.
pub open spec fn open_char(delimiter: Delimiter) -> char {
    match delimiter {
        Delimiter::Brace => '{',
        Delimiter::Bracket => '[',
        Delimiter::Parenthesis => '(',
    }
}

/// The character that closes a group of the kind `delimiter`.
pub open spec fn close_char(delimiter: Delimiter) -> char {
    match delimiter {
        Delimiter::Brace => '}',
        Delimiter::Bracket => ']',
        Delimiter::Parenthesis => ')',
    }
}

impl Delimiter {
    /// The kind of group that `open` opens, if it opens one.
    pub fn from_open(open: char) -> (delimiter: Option<Delimiter>)
        ensures
            delimiter == delimiter_for(open),
    {
        if open == '{' {
            Some(Delimiter::Brace)
        } else if open == '[' {
            Some(Delimiter::Bracket)
        } else if open == '(' {
            Some(Delimiter::Parenthesis)
        } else {
            None
        }
    }

    /// The character that opens a group of this kind.
    pub fn open(&self) -> (c: char)
        ensures
            c == open_char(*self),
    {
        match self {
            Delimiter::Brace => '{',
            Delimiter::Bracket => '[',
            Delimiter::Parenthesis => '(',
        }
    }

    /// The character that closes a group of this kind.
    pub fn close(&self) -> (c: char)
        ensures
            c == close_char(*self),
    {
        match self {
            Delimiter::Brace => '}',
            Delimiter::Bracket => ']',
            Delimiter::Parenthesis => ')',
        }
    }
}

/// A group token: the tokens between an opening bracket and the closing
/// bracket of the same kind.
#[derive(Debug, PartialEq)]
pub struct Group {
    pub span: Span,
    pub delimiter: Delimiter,
    pub tokens: TokenStream,
}

impl Group {
    /// The kind of bracket around the group.
    pub fn delimiter(&self) -> (delimiter: Delimiter)
        ensures
            delimiter == self.delimiter,
    {
        self.delimiter
    }

    /// The tokens between the brackets.
    pub fn tokens(&self) -> (tokens: &TokenStream)
        ensures
            *tokens == self.tokens,
    {
        &self.tokens
    }

    /// The tokens between the brackets, without the group.
    pub fn into_tokens(self) -> (tokens: TokenStream)
        ensures
            tokens == self.tokens,
    {
        self.tokens
    }

    /// Reads a group whose opening bracket `start` has just been read: the
    /// tokens up to the closing bracket of the same kind, and that bracket.
    #[verifier::loop_isolation(false)]
    pub fn parse(start: char, cursor: &mut Cursor, start_pos: usize) -> (r: ParseResult<Group>)
        requires
            old(cursor).just_read(start, start_pos),
        ensures
            final(cursor).follows(old(cursor)),
            delimiter_for(start) is None ==> r is Err && r->Err_0 is InvalidStart
                && final(cursor).offset() == old(cursor).offset(),
            delimiter_for(start) is Some ==> match lex_until(
                old(cursor).text(),
                old(cursor).offset(),
                Some(close_char(delimiter_for(start)->0)),
            ) {
                Outcome::End(end) => {
                    &&& r is Ok
                    &&& r->Ok_0.delimiter == delimiter_for(start)->0
                    &&& reads(
                        r->Ok_0.tokens.0@,
                        old(cursor).text(),
                        old(cursor).offset(),
                        Some(close_char(delimiter_for(start)->0)),
                    )
                    &&& r->Ok_0.span.index == start_pos
                    &&& r->Ok_0.span.end() == end
                    &&& final(cursor).offset() == end
                },
                Outcome::EarlyEof => r is Err && r->Err_0 is EarlyEof,
                Outcome::Unexpected(read, kind, at, width) => r is Err && fault_is(
                    r->Err_0,
                    read,
                    kind,
                    at,
                    width,
                ),
            },
        decreases old(cursor).left(), 1nat,
    {
        let delimiter = match Delimiter::from_open(start) {
            Some(delimiter) => delimiter,
            None => {
                return Err(ParseError::InvalidStart(start, "group"));
            },
        };
        let closing_char = delimiter.close();
        let ghost text = cursor.text();
        let ghost from = cursor.offset();
        let mut tokens: Vec<TokenTree> = Vec::new();
        proof {
            assert(places_of(tokens@) + token_places(text, from, Some(closing_char))
                =~= token_places(text, from, Some(closing_char)));
        }
        loop
            invariant
                cursor.follows(old(cursor)),
                lex_until(text, from, Some(closing_char)) == lex_until(
                    text,
                    cursor.offset(),
                    Some(closing_char),
                ),
                places_of(tokens@) + token_places(text, cursor.offset(), Some(closing_char))
                    == token_places(text, from, Some(closing_char)),
                forall|i: int| 0 <= i < tokens@.len() ==> reads_token(#[trigger] tokens@[i], text),
            decreases cursor.left(),
        {
            let next_char = cursor.expect_peek()?;
            if next_char == closing_char {
                proof {
                    assert(token_places(text, cursor.offset(), Some(closing_char))
                        =~= Seq::<(int, int)>::empty());
                    assert(places_of(tokens@) =~= token_places(text, from, Some(closing_char)));
                }
                break ;
            }
            if next_char.is_whitespace() {
                cursor.consume();
                continue ;
            }
            let ghost before = cursor.offset();
            match cursor.apply_parsers()? {
                Some(token) => {
                    proof {
                        lemma_places_push(tokens@, token);
                        assert(places_of(tokens@.push(token)) + token_places(
                            text,
                            cursor.offset(),
                            Some(closing_char),
                        ) =~= places_of(tokens@) + (seq![(before, cursor.offset())] + token_places(
                            text,
                            cursor.offset(),
                            Some(closing_char),
                        )));
                    }
                    tokens.push(token);
                },
                None => {},
            }
        }
        cursor.consume();
        let span = cursor.into_span(start_pos);
        Ok(Group { span, delimiter, tokens: TokenStream(tokens) })
    }
}

impl Spanned for Group {
    open spec fn spanned(&self) -> Span {
        self.span
    }

    fn span(&self) -> (span: Span) {
        self.span
    }
}

} // verus!
