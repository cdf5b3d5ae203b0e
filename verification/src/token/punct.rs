//! Punctuation: operators and separators of one or two characters.
use crate::token::cursor::Cursor;
use crate::token::tree::{ParseError, ParseResult};
use crate::{Span, Spanned};
use vstd::prelude::*;

verus! {

/// The punctuations of the language.
#[derive(Debug, Clone, Copy, PartialEq, Eq, Structural)]
pub enum PunctToken {
    Plus,
    Minus,
    Star,
    Slash,
    Percent,
    LessThan,
    LessThanEquals,
    GreaterThan,
    GreaterThanEquals,
    Assign,
    Not,
    NotEquals,
    Dot,
    Ternary,
    Colon,
    Equals,
    And,
    Or,
    NullishCoalescing,
    Semicolon,
    Comma,
    Lambda,
}

/// The error of [`PunctToken::from_str`]: the text is no punctuation.
#[derive(Debug, Clone, Copy, PartialEq, Eq)]
pub struct InvalidPunct;

/// The punctuation written with the one character `first`, if there is one.
pub open spec fn one_char_punct(first: char) -> Option<PunctToken> {
    if first == '+' {
        Some(PunctToken::Plus)
    } else if first == '-' {
        Some(PunctToken::Minus)
    } else if first == '*' {
        Some(PunctToken::Star)
    } else if first == '/' {
        Some(PunctToken::Slash)
    } else if first == '%' {
        Some(PunctToken::Percent)
    } else if first == '<' {
        Some(PunctToken::LessThan)
    } else if first == '>' {
        Some(PunctToken::GreaterThan)
    } else if first == '=' {
        Some(PunctToken::Assign)
    } else if first == '!' {
        Some(PunctToken::Not)
    } else if first == '.' {
        Some(PunctToken::Dot)
    } else if first == '?' {
        Some(PunctToken::Ternary)
    } else if first == ':' {
        Some(PunctToken::Colon)
    } else if first == ';' {
        Some(PunctToken::Semicolon)
    } else if first == ',' {
        Some(PunctToken::Comma)
    } else {
        None
    }
}

/// The punctuation written with the two characters `first` and `second`, if
/// there is one.
pub open spec fn two_char_punct(first: char, second: char) -> Option<PunctToken> {
    if first == '<' && second == '=' {
        Some(PunctToken::LessThanEquals)
    } else if first == '>' && second == '=' {
        Some(PunctToken::GreaterThanEquals)
    } else if first == '!' && second == '=' {
        Some(PunctToken::NotEquals)
    } else if first == '=' && second == '=' {
        Some(PunctToken::Equals)
    } else if first == '&' && second == '&' {
        Some(PunctToken::And)
    } else if first == '|' && second == '|' {
        Some(PunctToken::Or)
    } else if first == '?' && second == '?' {
        Some(PunctToken::NullishCoalescing)
    } else if first == '-' && second == '>' {
        Some(PunctToken::Lambda)
    } else {
        None
    }
}

/// The punctuation that starts with `first` when `next` is the character
/// after it, if any: a two-character form where the two characters spell one,
/// else the one-character form of `first`.
pub open spec fn punct_for(first: char, next: Option<char>) -> Option<PunctToken> {
    match next {
        Some(second) => match two_char_punct(first, second) {
            Some(token) => Some(token),
            None => one_char_punct(first),
        },
        None => one_char_punct(first),
    }
}

/// The text of a punctuation.
pub open spec fn punct_text(token: PunctToken) -> Seq<char> {
    match token {
        PunctToken::Plus => seq!['+'],
        PunctToken::Minus => seq!['-'],
        PunctToken::Star => seq!['*'],
        PunctToken::Slash => seq!['/'],
        PunctToken::Percent => seq!['%'],
        PunctToken::LessThan => seq!['<'],
        PunctToken::LessThanEquals => seq!['<', '='],
        PunctToken::GreaterThan => seq!['>'],
        PunctToken::GreaterThanEquals => seq!['>', '='],
        PunctToken::Assign => seq!['='],
        PunctToken::Not => seq!['!'],
        PunctToken::NotEquals => seq!['!', '='],
        PunctToken::Dot => seq!['.'],
        PunctToken::Ternary => seq!['?'],
        PunctToken::Colon => seq![':'],
        PunctToken::Equals => seq!['=', '='],
        PunctToken::And => seq!['&', '&'],
        PunctToken::Or => seq!['|', '|'],
        PunctToken::NullishCoalescing => seq!['?', '?'],
        PunctToken::Semicolon => seq![';'],
        PunctToken::Comma => seq![','],
        PunctToken::Lambda => seq!['-', '>'],
    }
}

fn one_char(first: char) -> (token: Option<PunctToken>)
    ensures
        token == one_char_punct(first),
{
    if first == '+' {
        Some(PunctToken::Plus)
    } else if first == '-' {
        Some(PunctToken::Minus)
    } else if first == '*' {
        Some(PunctToken::Star)
    } else if first == '/' {
        Some(PunctToken::Slash)
    } else if first == '%' {
        Some(PunctToken::Percent)
    } else if first == '<' {
        Some(PunctToken::LessThan)
    } else if first == '>' {
        Some(PunctToken::GreaterThan)
    } else if first == '=' {
        Some(PunctToken::Assign)
    } else if first == '!' {
        Some(PunctToken::Not)
    } else if first == '.' {
        Some(PunctToken::Dot)
    } else if first == '?' {
        Some(PunctToken::Ternary)
    } else if first == ':' {
        Some(PunctToken::Colon)
    } else if first == ';' {
        Some(PunctToken::Semicolon)
    } else if first == ',' {
        Some(PunctToken::Comma)
    } else {
        None
    }
}

fn two_char(first: char, second: char) -> (token: Option<PunctToken>)
    ensures
        token == two_char_punct(first, second),
{
    if first == '<' && second == '=' {
        Some(PunctToken::LessThanEquals)
    } else if first == '>' && second == '=' {
        Some(PunctToken::GreaterThanEquals)
    } else if first == '!' && second == '=' {
        Some(PunctToken::NotEquals)
    } else if first == '=' && second == '=' {
        Some(PunctToken::Equals)
    } else if first == '&' && second == '&' {
        Some(PunctToken::And)
    } else if first == '|' && second == '|' {
        Some(PunctToken::Or)
    } else if first == '?' && second == '?' {
        Some(PunctToken::NullishCoalescing)
    } else if first == '-' && second == '>' {
        Some(PunctToken::Lambda)
    } else {
        None
    }
}

impl PunctToken {
    /// The punctuation that starts with `first` when `next` follows it.
    pub fn recognise(first: char, next: Option<char>) -> (token: Option<PunctToken>)
        ensures
            token == punct_for(first, next),
    {
        match next {
            Some(second) => match two_char(first, second) {
                Some(token) => Some(token),
                None => one_char(first),
            },
            None => one_char(first),
        }
    }

    /// The punctuation written as `s`.
    pub fn from_str(s: &str) -> (r: Result<PunctToken, InvalidPunct>)
        ensures
            r is Ok ==> punct_text(r->Ok_0) == s@,
            r is Err ==> forall|token: PunctToken| punct_text(token) != s@,
    {
        let chars = crate::text::chars_of(s);
        let found = if chars.len() == 1 {
            one_char(chars[0])
        } else if chars.len() == 2 {
            two_char(chars[0], chars[1])
        } else {
            None
        };
        match found {
            Some(token) => {
                proof {
                    assert(punct_text(token) =~= s@);
                }
                Ok(token)
            },
            None => {
                proof {
                    assert forall|token: PunctToken| punct_text(token) != s@ by {
                        if punct_text(token) == s@ {
                            assert(punct_text(token).len() == s@.len());
                            if s@.len() == 1 {
                                assert(punct_text(token)[0] == s@[0]);
                            } else {
                                assert(punct_text(token)[0] == s@[0]);
                                assert(punct_text(token)[1] == s@[1]);
                            }
                        }
                    }
                }
                Err(InvalidPunct)
            },
        }
    }

    /// The text of the punctuation.
    pub fn as_str(self) -> (s: &'static str)
        ensures
            s@ == punct_text(self),
    {
        let s = match self {
            PunctToken::Plus => "+",
            PunctToken::Minus => "-",
            PunctToken::Star => "*",
            PunctToken::Slash => "/",
            PunctToken::Percent => "%",
            PunctToken::LessThan => "<",
            PunctToken::LessThanEquals => "<=",
            PunctToken::GreaterThan => ">",
            PunctToken::GreaterThanEquals => ">=",
            PunctToken::Assign => "=",
            PunctToken::Not => "!",
            PunctToken::NotEquals => "!=",
            PunctToken::Dot => ".",
            PunctToken::Ternary => "?",
            PunctToken::Colon => ":",
            PunctToken::Equals => "==",
            PunctToken::And => "&&",
            PunctToken::Or => "||",
            PunctToken::NullishCoalescing => "??",
            PunctToken::Semicolon => ";",
            PunctToken::Comma => ",",
            PunctToken::Lambda => "->",
        };
        proof {
            reveal_strlit("+");
            reveal_strlit("-");
            reveal_strlit("*");
            reveal_strlit("/");
            reveal_strlit("%");
            reveal_strlit("<");
            reveal_strlit("<=");
            reveal_strlit(">");
            reveal_strlit(">=");
            reveal_strlit("=");
            reveal_strlit("!");
            reveal_strlit("!=");
            reveal_strlit(".");
            reveal_strlit("?");
            reveal_strlit(":");
            reveal_strlit("==");
            reveal_strlit("&&");
            reveal_strlit("||");
            reveal_strlit("??");
            reveal_strlit(";");
            reveal_strlit(",");
            reveal_strlit("->");
            assert(s@ =~= punct_text(self));
        }
        s
    }
}

/// A punctuation token and the place in the source where it stands.
#[derive(Debug, Clone, Copy, PartialEq)]
pub struct Punct {
    pub span: Span,
    pub value: PunctToken,
}

impl Punct {
    /// Which punctuation the token is.
    pub fn inner(&self) -> (value: PunctToken)
        ensures
            value == self.value,
    {
        self.value
    }

    /// Reads a punctuation whose first character `start` has just been read.
    /// The character after it decides between the one-character and the
    /// two-character form; it is looked at and not read.
    pub fn parse(start: char, cursor: &Cursor, start_pos: usize) -> (r: ParseResult<Punct>)
        requires
            cursor.just_read(start, start_pos),
        ensures
            match r {
                Ok(punct) => {
                    &&& punct_for(start, cursor.next()) == Some(punct.value)
                    &&& punct.span.index == start_pos
                    &&& punct.span.width == 1
                },
                Err(e) => punct_for(start, cursor.next()) is None && e is InvalidStart,
            },
    {
        match PunctToken::recognise(start, cursor.peek()) {
            Some(value) => Ok(Punct { span: cursor.into_span(start_pos), value }),
            None => Err(ParseError::InvalidStart(start, "punct")),
        }
    }
}

impl Spanned for Punct {
    open spec fn spanned(&self) -> Span {
        self.span
    }

    fn span(&self) -> (span: Span) {
        self.span
    }
}

} // verus!
