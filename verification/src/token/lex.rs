//! What the tokeniser reads: the places where tokens start and end, as a
//! function of the text.
//!
//! At each place that is no white space the rules are tried in this order:
//! comment, group, literal, punctuation, identifier. The first rule whose
//! first character fits decides; if it then fails, the text has no tokens.
use crate::text::white_space;
use crate::token::group::{close_char, delimiter_for};
use crate::token::ident::{xid_continue, xid_start};
use crate::token::literal::{
    is_no_number, is_suffix, number_end, number_kind_name, starts_literal,
};
use crate::token::punct::punct_for;
use crate::token::tree::ParseError;
use vstd::prelude::*;

verus! {

/// The character of `text` at `at`, if the text reaches that far.
pub open spec fn char_at(text: Seq<char>, at: int) -> Option<char> {
    if 0 <= at < text.len() {
        Some(text[at])
    } else {
        None
    }
}

/// What starts at a place of the text.
pub enum TokenKind {
    Comment,
    Group,
    Literal,
    Punct,
    Ident,
    Nothing,
}

/// What the rules make of one place of the text.
pub enum Lexed {
    /// A token, which ends before the given place.
    Token(int),
    /// A comment, which ends before the given place.
    Comment(int),
    /// The text ends inside a token.
    EarlyEof,
    /// No rule fits, or a number is malformed: the text that was read, the
    /// kind of token that was being read, and where the fault is and how
    /// wide.
    Unexpected(Seq<char>, Seq<char>, int, int),
}

/// What the rules make of a stretch of the text.
pub enum Outcome {
    /// The stretch was read to its end, which is before the given place.
    End(int),
    /// The text ends inside a token or before the closing bracket.
    EarlyEof,
    /// Somewhere no rule fits, or a number is malformed: the text that was
    /// read, the kind of token that was being read, and where the fault is
    /// and how wide.
    Unexpected(Seq<char>, Seq<char>, int, int),
}

/// The kind of thing that starts at `pos`, going by the character there and
/// the one after it.
pub open spec fn kind_at(text: Seq<char>, pos: int) -> TokenKind {
    let start = text[pos];
    let next = char_at(text, pos + 1);
    if start == '/' && next == Some('/') {
        TokenKind::Comment
    } else if delimiter_for(start) is Some {
        TokenKind::Group
    } else if starts_literal(start) {
        TokenKind::Literal
    } else if punct_for(start, next) is Some {
        TokenKind::Punct
    } else if xid_start(start) {
        TokenKind::Ident
    } else {
        TokenKind::Nothing
    }
}

/// The place after the first line break at or after `from`, or the end of
/// the text.
pub open spec fn comment_end(text: Seq<char>, from: int) -> int
    decreases text.len() - from,
{
    if from < 0 || from >= text.len() {
        text.len() as int
    } else if text[from] == '\n' || text[from] == '\r' {
        from + 1
    } else {
        comment_end(text, from + 1)
    }
}

/// The first place at or after `from` that holds no identifier-continue
/// character, or the end of the text.
pub open spec fn ident_end(text: Seq<char>, from: int) -> int
    decreases text.len() - from,
{
    if from < 0 || from >= text.len() {
        text.len() as int
    } else if xid_continue(text[from]) {
        ident_end(text, from + 1)
    } else {
        from
    }
}

/// The place after the double quote that closes the string whose inside
/// starts at `from`; `escaped` says whether a backslash stands just before
/// `from`. `None` if the text ends first.
pub open spec fn string_end(text: Seq<char>, from: int, escaped: bool) -> Option<int>
    decreases text.len() - from,
{
    if from < 0 || from >= text.len() {
        None
    } else if escaped {
        string_end(text, from + 1, false)
    } else if text[from] == '\\' {
        string_end(text, from + 1, true)
    } else if text[from] == '"' {
        Some(from + 1)
    } else {
        string_end(text, from + 1, false)
    }
}

/// The characters of the string whose inside starts at `from`, up to its
/// closing double quote: a backslash is left out and the character after it
/// is taken as it is.
pub open spec fn string_body(text: Seq<char>, from: int, escaped: bool) -> Seq<char>
    decreases text.len() - from,
{
    if from < 0 || from >= text.len() {
        Seq::empty()
    } else if escaped {
        seq![text[from]] + string_body(text, from + 1, false)
    } else if text[from] == '\\' {
        string_body(text, from + 1, true)
    } else if text[from] == '"' {
        Seq::empty()
    } else {
        seq![text[from]] + string_body(text, from + 1, false)
    }
}

/// What the rules make of the place `pos`.
pub open spec fn lex_one(text: Seq<char>, pos: int) -> Lexed
    decreases text.len() - pos, 0nat,
{
    if pos < 0 || pos >= text.len() {
        Lexed::EarlyEof
    } else {
        match kind_at(text, pos) {
            TokenKind::Comment => Lexed::Comment(comment_end(text, pos + 1)),
            TokenKind::Group => match lex_until(
                text,
                pos + 1,
                Some(close_char(delimiter_for(text[pos])->0)),
            ) {
                Outcome::End(end) => Lexed::Token(end),
                Outcome::EarlyEof => Lexed::EarlyEof,
                Outcome::Unexpected(read, kind, at, width) => Lexed::Unexpected(
                    read,
                    kind,
                    at,
                    width,
                ),
            },
            TokenKind::Literal => if text[pos] == '"' {
                match string_end(text, pos + 1, false) {
                    Some(end) => Lexed::Token(end),
                    None => Lexed::EarlyEof,
                }
            } else {
                let end = number_end(text, pos + 1);
                if end >= text.len() {
                    Lexed::EarlyEof
                } else if is_no_number(text.subrange(pos, end), text[end]) {
                    Lexed::Unexpected(
                        text.subrange(pos, end),
                        number_kind_name(text[end]),
                        pos,
                        end - pos + if is_suffix(text[end]) {
                            1int
                        } else {
                            0int
                        },
                    )
                } else {
                    Lexed::Token(
                        end + if is_suffix(text[end]) {
                            1int
                        } else {
                            0int
                        },
                    )
                }
            },
            TokenKind::Punct => Lexed::Token(pos + 1),
            TokenKind::Ident => Lexed::Token(ident_end(text, pos + 1)),
            TokenKind::Nothing => Lexed::Unexpected(seq![text[pos]], "token tree"@, pos + 1, 1),
        }
    }
}

/// What the rules make of the text from `pos` up to the character `closing`,
/// or up to the end of the text if `closing` is `None`. White space between
/// tokens is passed over.
pub open spec fn lex_until(text: Seq<char>, pos: int, closing: Option<char>) -> Outcome
    decreases text.len() - pos, 1nat,
{
    if pos < 0 || pos >= text.len() {
        match closing {
            Some(_) => Outcome::EarlyEof,
            None => Outcome::End(text.len() as int),
        }
    } else if closing == Some(text[pos]) {
        Outcome::End(pos + 1)
    } else if white_space(text[pos]) {
        lex_until(text, pos + 1, closing)
    } else {
        match lex_one(text, pos) {
            Lexed::Token(end) => if pos < end <= text.len() {
                lex_until(text, end, closing)
            } else {
                Outcome::EarlyEof
            },
            Lexed::Comment(end) => if pos < end <= text.len() {
                lex_until(text, end, closing)
            } else {
                Outcome::EarlyEof
            },
            Lexed::EarlyEof => Outcome::EarlyEof,
            Lexed::Unexpected(read, kind, at, width) => Outcome::Unexpected(read, kind, at, width),
        }
    }
}

/// The places of the tokens that stand in the text from `pos` up to the
/// character `closing`, or up to the end of the text if `closing` is `None`:
/// for each token where it starts and the place after it.
pub open spec fn token_places(text: Seq<char>, pos: int, closing: Option<char>) -> Seq<(int, int)>
    decreases text.len() - pos,
{
    if pos < 0 || pos >= text.len() || closing == Some(text[pos]) {
        Seq::empty()
    } else if white_space(text[pos]) {
        token_places(text, pos + 1, closing)
    } else {
        match lex_one(text, pos) {
            Lexed::Token(end) => if pos < end <= text.len() {
                seq![(pos, end)] + token_places(text, end, closing)
            } else {
                Seq::empty()
            },
            Lexed::Comment(end) => if pos < end <= text.len() {
                token_places(text, end, closing)
            } else {
                Seq::empty()
            },
            _ => Seq::empty(),
        }
    }
}

/// The outcome `r` of cutting a text into tokens is what `outcome` says:
/// success, the end of the text inside a token, or a fault with what was
/// read, what was being read, and the place.
pub open spec fn cut_is<T>(r: Result<T, ParseError>, outcome: Outcome) -> bool {
    match outcome {
        Outcome::End(_) => r is Ok,
        Outcome::EarlyEof => r is Err && r->Err_0 is EarlyEof,
        Outcome::Unexpected(read, kind, at, width) => r is Err && fault_is(
            r->Err_0,
            read,
            kind,
            at,
            width,
        ),
    }
}

/// The error `e` is the fault with the text `read`, found while reading a
/// token of the kind `kind`, at `at`, `width` characters wide.
pub open spec fn fault_is(
    e: ParseError,
    read: Seq<char>,
    kind: Seq<char>,
    at: int,
    width: int,
) -> bool {
    e matches ParseError::UnexpectedToken(text, name, span) && text@ == read && name@ == kind
        && span.index == at && span.width == width
}

} // verus!
