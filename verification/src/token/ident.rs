//! Identifiers: names that follow the Unicode rules for identifier text.
use crate::text::chars_of;
use crate::token::cursor::Cursor;
use crate::token::lex::ident_end;
use crate::token::tree::{ParseError, ParseResult};
use crate::{Span, Spanned};
use std::str::FromStr;
use vstd::prelude::*;

verus! {

/// Whether `c` has the Unicode property XID_Start, as the tables of the
/// `unicode-ident` crate give it.
pub uninterp spec fn xid_start(c: char) -> bool;

/// Whether `c` has the Unicode property XID_Continue, as the tables of the
/// `unicode-ident` crate give it.
pub uninterp spec fn xid_continue(c: char) -> bool;

/// Whether `c` is one of the letters `a` to `z` and `A` to `Z`.
pub open spec fn ascii_letter(c: char) -> bool {
    ('a' <= c && c <= 'z') || ('A' <= c && c <= 'Z')
}

/// Whether `c` is an ASCII letter, one of the digits `0` to `9`, or an
/// underscore.
pub open spec fn ascii_word_char(c: char) -> bool {
    ascii_letter(c) || ('0' <= c && c <= '9') || c == '_'
}

/// Whether `c` is an ASCII character.
pub open spec fn is_ascii_char(c: char) -> bool {
    c <= '\u{7f}'
}

/// `unicode_ident::is_xid_start` looks the character up in the crate's
/// XID_Start table; the answer depends on the character alone. For an ASCII
/// character the crate answers from a bit mask that has the letters set and
/// nothing else.
pub assume_specification[ unicode_ident::is_xid_start ](ch: char) -> (yes: bool)
    ensures
        yes == xid_start(ch),
        is_ascii_char(ch) ==> yes == ascii_letter(ch),
;

/// `unicode_ident::is_xid_continue` looks the character up in the crate's
/// XID_Continue table; the answer depends on the character alone. For an
/// ASCII character the crate answers from a bit mask that has the letters,
/// the digits and the underscore set and nothing else.
pub assume_specification[ unicode_ident::is_xid_continue ](ch: char) -> (yes: bool)
    ensures
        yes == xid_continue(ch),
        is_ascii_char(ch) ==> yes == ascii_word_char(ch),
;

/// An ASCII word: a letter, and then letters, digits and underscores.
pub open spec fn is_ascii_word(text: Seq<char>) -> bool {
    &&& text.len() > 0
    &&& ascii_letter(text[0])
    &&& forall|i: int| 1 <= i < text.len() ==> ascii_word_char(#[trigger] text[i])
}

/// Identifier text: not empty, an identifier-start character first, and
/// identifier-continue characters after it.
pub open spec fn is_identifier(text: Seq<char>) -> bool {
    &&& text.len() > 0
    &&& xid_start(text[0])
    &&& forall|i: int| 1 <= i < text.len() ==> xid_continue(#[trigger] text[i])
}

/// Whether `chars` is identifier text. Every ASCII word is.
pub fn check_identifier(chars: &Vec<char>) -> (yes: bool)
    ensures
        yes == is_identifier(chars@),
        is_ascii_word(chars@) ==> yes,
{
    if chars.len() == 0 {
        return false;
    }
    if !unicode_ident::is_xid_start(chars[0]) {
        return false;
    }
    let mut i: usize = 1;
    while i < chars.len()
        invariant
            1 <= i <= chars.len(),
            forall|j: int| 1 <= j < i ==> xid_continue(#[trigger] chars@[j]),
        decreases chars.len() - i,
    {
        if !unicode_ident::is_xid_continue(chars[i]) {
            return false;
        }
        i = i + 1;
    }
    true
}

/// The error of [`XID::new`]: the text is not an identifier.
#[derive(Debug, Clone, Copy, PartialEq, Eq)]
pub struct InvalidXID;

/// A validated name. Its text is identifier text and never changes.
#[derive(Debug, PartialEq, Eq, PartialOrd, Hash)]
pub struct XID(String);

impl View for XID {
    type V = Seq<char>;

    closed spec fn view(&self) -> Seq<char> {
        self.0@
    }
}

impl XID {
    #[verifier::type_invariant]
    closed spec fn wf(self) -> bool {
        is_identifier(self.0@)
    }

    /// Validates `s`: `Ok` exactly when `s` is identifier text, which every
    /// ASCII word is.
    pub fn new(s: &str) -> (r: Result<XID, InvalidXID>)
        ensures
            r is Ok <==> is_identifier(s@),
            r is Ok ==> r->Ok_0@ == s@,
            is_ascii_word(s@) ==> r is Ok,
    {
        let chars = chars_of(s);
        if check_identifier(&chars) {
            Ok(XID(s.to_owned()))
        } else {
            Err(InvalidXID)
        }
    }

    /// The identifier made of `chars`.
    pub fn from_chars(chars: &Vec<char>) -> (xid: XID)
        requires
            is_identifier(chars@),
        ensures
            xid@ == chars@,
    {
        XID(crate::text::string_of(chars))
    }

    /// The text of the name.
    pub fn inner(&self) -> (text: &str)
        ensures
            text@ == self@,
            is_identifier(text@),
    {
        proof {
            use_type_invariant(self);
        }
        self.0.as_str()
    }

    /// Whether the two names have the same text.
    pub fn same(&self, other: &XID) -> (yes: bool)
        ensures
            yes == (self@ == other@),
    {
        self.0 == other.0
    }
}

impl Clone for XID {
    fn clone(&self) -> (copy: Self)
        ensures
            copy == *self,
    {
        proof {
            use_type_invariant(self);
        }
        XID(self.0.clone())
    }
}

impl FromStr for XID {
    type Err = InvalidXID;

    /// Validates `s`, as [`XID::new`] does: `Ok` exactly when `s` is
    /// identifier text, and then the identifier has that text.
    fn from_str(s: &str) -> (r: Result<Self, Self::Err>)
        ensures
            r is Ok <==> is_identifier(s@),
            r is Ok ==> r->Ok_0@ == s@,
            is_ascii_word(s@) ==> r is Ok,
    {
        XID::new(s)
    }
}

/// An identifier token: a name and the place in the source where it stands.
#[derive(Debug, PartialEq)]
pub struct Ident {
    pub span: Span,
    pub value: XID,
}

impl Ident {
    /// The identifier `value` at `span`.
    pub fn new(span: Span, value: XID) -> (ident: Ident)
        ensures
            ident.span == span,
            ident.value == value,
    {
        Ident { span, value }
    }

    /// The text of the identifier.
    pub fn inner(&self) -> (text: &str)
        ensures
            text@ == self.value@,
    {
        self.value.inner()
    }

    /// The name, without its place.
    pub fn into_inner(self) -> (xid: XID)
        ensures
            xid == self.value,
    {
        self.value
    }

    /// Reads an identifier whose first character `start` has just been read:
    /// that character and every identifier-continue character after it, up to
    /// the first character that is none.
    #[verifier::loop_isolation(false)]
    pub fn parse(start: char, cursor: &mut Cursor, start_pos: usize) -> (r: ParseResult<Ident>)
        requires
            old(cursor).just_read(start, start_pos),
        ensures
            final(cursor).follows(old(cursor)),
            match r {
                Ok(ident) => {
                    &&& xid_start(start)
                    &&& ident.span.index == start_pos
                    &&& ident.span.end() == final(cursor).offset()
                    &&& ident.value@ == final(cursor).text().subrange(
                        start_pos as int,
                        final(cursor).offset(),
                    )
                    &&& final(cursor).offset() == ident_end(
                        old(cursor).text(),
                        old(cursor).offset(),
                    )
                },
                Err(e) => {
                    &&& !xid_start(start)
                    &&& e is InvalidStart
                    &&& final(cursor).offset() == old(cursor).offset()
                },
            },
    {
        if !unicode_ident::is_xid_start(start) {
            return Err(ParseError::InvalidStart(start, "ident"));
        }
        let mut buffer: Vec<char> = Vec::new();
        buffer.push(start);
        proof {
            assert(buffer@ =~= cursor.text().subrange(start_pos as int, cursor.offset()));
        }
        loop
            invariant
                cursor.follows(old(cursor)),
                buffer@ == cursor.text().subrange(start_pos as int, cursor.offset()),
                forall|k: int| start_pos < k < cursor.offset() ==> xid_continue(
                    #[trigger] cursor.text()[k],
                ),
                ident_end(cursor.text(), old(cursor).offset()) == ident_end(
                    cursor.text(),
                    cursor.offset(),
                ),
            decreases cursor.left(),
        {
            match cursor.peek() {
                Some(next_char) => {
                    if unicode_ident::is_xid_continue(next_char) {
                        let ghost before = cursor.offset();
                        buffer.push(next_char);
                        cursor.consume();
                        proof {
                            assert(cursor.text().subrange(start_pos as int, before + 1)
                                =~= cursor.text().subrange(start_pos as int, before).push(
                                next_char,
                            ));
                        }
                    } else {
                        break ;
                    }
                },
                None => {
                    break ;
                },
            }
        }
        let span = cursor.into_span(start_pos);
        proof {
            assert(buffer@[0] == start);
            assert forall|i: int| 1 <= i < buffer@.len() implies xid_continue(
                #[trigger] buffer@[i],
            ) by {
                assert(buffer@[i] == cursor.text()[start_pos + i]);
            }
        }
        Ok(Ident { span, value: XID::from_chars(&buffer) })
    }
}

impl Spanned for Ident {
    open spec fn spanned(&self) -> Span {
        self.span
    }

    fn span(&self) -> (span: Span) {
        self.span
    }
}

impl Clone for Ident {
    fn clone(&self) -> (copy: Self)
        ensures
            copy == *self,
    {
        Ident { span: self.span, value: self.value.clone() }
    }
}

} // verus!
