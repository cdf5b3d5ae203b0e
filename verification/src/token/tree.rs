//! Token trees: the tokens of a source text, with the groups nested.
use crate::text::chars_of;
use crate::token::cursor::Cursor;
use crate::token::group::{close_char, delimiter_for, Group};
use crate::token::ident::Ident;
use crate::token::lex::{char_at, cut_is, kind_at, lex_one, lex_until, token_places, Lexed};
use crate::token::literal::{reads_literal, Literal};
use crate::token::punct::{punct_for, Punct};
use crate::{Span, Spanned};
use vstd::prelude::*;

verus! {

/// Why a source text could not be cut into tokens. The last two kinds are
/// used between the rules of the tokeniser and never leave it.
#[derive(Debug, PartialEq)]
pub enum ParseError {
    /// The text ended inside a token.
    EarlyEof,
    /// The text, the kind of token that was being read, and the place.
    UnexpectedToken(String, &'static str, Span),
    /// The character cannot start the kind of token that was tried.
    InvalidStart(char, &'static str),
    /// What was read is a comment.
    NotAToken,
}

/// What a rule of the tokeniser returns.
pub type ParseResult<T> = Result<T, ParseError>;

/// A token; a group holds the tokens between its brackets.
#[derive(Debug, PartialEq)]
pub enum TokenTree {
    Punct(Punct),
    Ident(Ident),
    Literal(Literal),
    Group(Group),
}

/// Tokens in the order they stand in the source.
#[derive(Debug, PartialEq)]
pub struct TokenStream(pub Vec<TokenTree>);

/// The place of a token in the source.
pub open spec fn span_of(token: TokenTree) -> Span {
    match token {
        TokenTree::Punct(punct) => punct.span,
        TokenTree::Ident(ident) => ident.span,
        TokenTree::Literal(literal) => literal.span,
        TokenTree::Group(group) => group.span,
    }
}

/// Where each token of `tokens` starts, and the place after it.
pub open spec fn places_of(tokens: Seq<TokenTree>) -> Seq<(int, int)> {
    tokens.map_values(|token: TokenTree| (span_of(token).index as int, span_of(token).end()))
}

/// `token` is what stands in `text` at the token's span: the rules of the
/// tokeniser read a token of this kind there, it ends where the span ends,
/// and it has the value that the text spells. An identifier has the text of
/// its span. A punctuation is the one that its first character and the
/// character after it spell. A group holds the tokens that stand between
/// its brackets.
pub open spec fn reads_token(token: TokenTree, text: Seq<char>) -> bool
    decreases token,
{
    let at = span_of(token).index as int;
    &&& at < text.len()
    &&& lex_one(text, at) == Lexed::Token(span_of(token).end())
    &&& match token {
        TokenTree::Ident(ident) => kind_at(text, at) is Ident && ident.value@ == text.subrange(
            at,
            span_of(token).end(),
        ),
        TokenTree::Punct(punct) => kind_at(text, at) is Punct && punct_for(
            text[at],
            char_at(text, at + 1),
        ) == Some(punct.value),
        TokenTree::Literal(literal) => kind_at(text, at) is Literal && reads_literal(literal, text),
        TokenTree::Group(group) => {
            &&& kind_at(text, at) is Group
            &&& delimiter_for(text[at]) == Some(group.delimiter)
            &&& reads(group.tokens.0@, text, at + 1, Some(close_char(group.delimiter)))
        },
    }
}

/// `tokens` are the tokens that stand in `text` from `from` up to the
/// character `closing`, or up to the end of the text if `closing` is `None`:
/// all of them, in order, each being what stands at its span.
pub open spec fn reads(
    tokens: Seq<TokenTree>,
    text: Seq<char>,
    from: int,
    closing: Option<char>,
) -> bool
    decreases tokens,
{
    &&& places_of(tokens) == token_places(text, from, closing)
    &&& forall|i: int| 0 <= i < tokens.len() ==> reads_token(#[trigger] tokens[i], text)
}

/// The places of a list of tokens with one more token at its end.
pub proof fn lemma_places_push(tokens: Seq<TokenTree>, token: TokenTree)
    ensures
        places_of(tokens.push(token)) == places_of(tokens).push(
            (span_of(token).index as int, span_of(token).end()),
        ),
{
    assert(places_of(tokens.push(token)) =~= places_of(tokens).push(
        (span_of(token).index as int, span_of(token).end()),
    ));
}

impl TokenStream {
    /// A stream with no tokens.
    pub fn new() -> (stream: TokenStream)
        ensures
            stream.0@.len() == 0,
    {
        TokenStream(Vec::new())
    }
}

impl Spanned for TokenTree {
    open spec fn spanned(&self) -> Span {
        span_of(*self)
    }

    fn span(&self) -> (span: Span) {
        match self {
            TokenTree::Punct(punct) => punct.span,
            TokenTree::Ident(ident) => ident.span,
            TokenTree::Literal(literal) => literal.span,
            TokenTree::Group(group) => group.span,
        }
    }
}

/// Cuts `value` into tokens.
pub fn parse_str(value: &str) -> (r: ParseResult<TokenStream>)
    ensures
        cut_is(r, lex_until(value@, 0, None)),
        r is Ok ==> reads(r->Ok_0.0@, value@, 0, None),
{
    parse_iter(chars_of(value))
}

/// Cuts `chars` into tokens. White space between tokens and comments are
/// left out.
#[verifier::loop_isolation(false)]
pub fn parse_iter(chars: Vec<char>) -> (r: ParseResult<TokenStream>)
    ensures
        cut_is(r, lex_until(chars@, 0, None)),
        r is Ok ==> reads(r->Ok_0.0@, chars@, 0, None),
{
    let ghost text = chars@;
    let mut cursor = Cursor::new(chars);
    let mut tokens: Vec<TokenTree> = Vec::new();
    proof {
        assert(places_of(tokens@) + token_places(text, 0, None) =~= token_places(text, 0, None));
    }
    loop
        invariant
            cursor.wf(),
            cursor.text() == text,
            lex_until(text, 0, None) == lex_until(text, cursor.offset(), None),
            places_of(tokens@) + token_places(text, cursor.offset(), None) == token_places(
                text,
                0,
                None,
            ),
            forall|i: int| 0 <= i < tokens@.len() ==> reads_token(#[trigger] tokens@[i], text),
        decreases cursor.left(),
    {
        let next_char = match cursor.peek() {
            Some(c) => c,
            None => {
                proof {
                    assert(token_places(text, cursor.offset(), None) =~= Seq::<(int, int)>::empty());
                    assert(places_of(tokens@) =~= token_places(text, 0, None));
                }
                break ;
            },
        };
        if next_char.is_whitespace() {
            cursor.consume();
            continue ;
        }
        let ghost before = cursor.offset();
        match cursor.apply_parsers()? {
            Some(token) => {
                proof {
                    lemma_places_push(tokens@, token);
                    assert(places_of(tokens@.push(token)) + token_places(
                        text,
                        cursor.offset(),
                        None,
                    ) =~= places_of(tokens@) + (seq![(before, cursor.offset())] + token_places(
                        text,
                        cursor.offset(),
                        None,
                    )));
                }
                tokens.push(token);
            },
            None => {},
        }
    }
    Ok(TokenStream(tokens))
}

/// `copy` is the same token as `token`: the same kind at the same place, with
/// the same value; for a group, the same tokens inside.
pub open spec fn same_token(token: TokenTree, copy: TokenTree) -> bool
    decreases token,
{
    match (token, copy) {
        (TokenTree::Punct(a), TokenTree::Punct(b)) => a == b,
        (TokenTree::Ident(a), TokenTree::Ident(b)) => a == b,
        (TokenTree::Literal(a), TokenTree::Literal(b)) => a == b,
        (TokenTree::Group(a), TokenTree::Group(b)) => {
            &&& a.span == b.span
            &&& a.delimiter == b.delimiter
            &&& same_tokens(a.tokens.0@, b.tokens.0@)
        },
        _ => false,
    }
}

/// `copies` holds the same tokens as `tokens`, in the same order.
pub open spec fn same_tokens(tokens: Seq<TokenTree>, copies: Seq<TokenTree>) -> bool
    decreases tokens,
{
    &&& tokens.len() == copies.len()
    &&& forall|i: int| 0 <= i < tokens.len() ==> same_token(#[trigger] tokens[i], copies[i])
}

/// How much there is to read in a token: one for the token itself, and what
/// there is to read in the tokens inside it.
pub open spec fn token_weight(token: TokenTree) -> nat
    decreases token, 0nat,
{
    match token {
        TokenTree::Group(group) => 1 + suffix_weight(group.tokens.0@, 0),
        _ => 1,
    }
}

/// How much there is to read in `tokens` from place `from` on.
pub open spec fn suffix_weight(tokens: Seq<TokenTree>, from: int) -> nat
    decreases tokens, tokens.len() - from,
{
    if from < 0 || from >= tokens.len() {
        0
    } else {
        token_weight(tokens[from]) + suffix_weight(tokens, from + 1)
    }
}

impl TokenTree {
    /// A copy of the token.
    #[verifier::loop_isolation(false)]
    pub fn duplicate(&self) -> (copy: TokenTree)
        ensures
            same_token(*self, copy),
            span_of(copy) == span_of(*self),
        decreases *self,
    {
        match self {
            TokenTree::Punct(punct) => TokenTree::Punct(*punct),
            TokenTree::Ident(ident) => TokenTree::Ident(ident.clone()),
            TokenTree::Literal(literal) => TokenTree::Literal(literal.clone()),
            TokenTree::Group(group) => {
                let mut tokens: Vec<TokenTree> = Vec::new();
                let mut i: usize = 0;
                while i < group.tokens.0.len()
                    invariant
                        i <= group.tokens.0.len(),
                        tokens@.len() == i,
                        forall|j: int|
                            0 <= j < i ==> same_token(#[trigger] group.tokens.0@[j], tokens@[j]),
                    decreases group.tokens.0.len() - i,
                {
                    tokens.push(group.tokens.0[i].duplicate());
                    i = i + 1;
                }
                TokenTree::Group(
                    Group {
                        span: group.span,
                        delimiter: group.delimiter,
                        tokens: TokenStream(tokens),
                    },
                )
            },
        }
    }
}

/// A kind of token that the parser can ask for by type.
pub trait Token: Sized + Spanned {
    /// Whether `token` is a token of this kind.
    spec fn is_kind(token: TokenTree) -> bool;

    /// Whether this value is `token` taken as a token of this kind.
    spec fn is_token(&self, token: TokenTree) -> bool;

    /// The name of the kind, for error messages.
    spec fn kind_name() -> Seq<char>;

    /// The name of the kind, for error messages.
    fn name() -> (name: &'static str)
        ensures
            name@ == Self::kind_name(),
    ;

    /// The token as a token of this kind, if it is one.
    fn parse_token(token: &TokenTree) -> (r: Option<Self>)
        ensures
            r is Some <==> Self::is_kind(*token),
            r is Some ==> r->0.is_token(*token) && r->0.spanned() == span_of(*token),
    ;
}

impl Token for Punct {
    open spec fn is_kind(token: TokenTree) -> bool {
        token is Punct
    }

    open spec fn kind_name() -> Seq<char> {
        "Punct"@
    }

    fn name() -> (name: &'static str) {
        "Punct"
    }

    open spec fn is_token(&self, token: TokenTree) -> bool {
        TokenTree::Punct(*self) == token
    }

    fn parse_token(token: &TokenTree) -> (r: Option<Self>) {
        match token {
            TokenTree::Punct(punct) => Some(*punct),
            _ => None,
        }
    }
}

impl Token for Ident {
    open spec fn is_kind(token: TokenTree) -> bool {
        token is Ident
    }

    open spec fn kind_name() -> Seq<char> {
        "Ident"@
    }

    fn name() -> (name: &'static str) {
        "Ident"
    }

    open spec fn is_token(&self, token: TokenTree) -> bool {
        TokenTree::Ident(*self) == token
    }

    fn parse_token(token: &TokenTree) -> (r: Option<Self>) {
        match token {
            TokenTree::Ident(ident) => Some(ident.clone()),
            _ => None,
        }
    }
}

impl Token for Literal {
    open spec fn is_kind(token: TokenTree) -> bool {
        token is Literal
    }

    open spec fn kind_name() -> Seq<char> {
        "Literal"@
    }

    fn name() -> (name: &'static str) {
        "Literal"
    }

    open spec fn is_token(&self, token: TokenTree) -> bool {
        TokenTree::Literal(*self) == token
    }

    fn parse_token(token: &TokenTree) -> (r: Option<Self>) {
        match token {
            TokenTree::Literal(literal) => Some(literal.clone()),
            _ => None,
        }
    }
}


} // verus!
