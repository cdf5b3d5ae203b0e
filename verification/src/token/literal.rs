//! Literals: numbers and strings written out in the source.
use crate::text::string_of;
use crate::token::cursor::Cursor;
use crate::token::lex::{fault_is, lex_one, string_body, string_end, Lexed};
use crate::token::tree::{ParseError, ParseResult};
use crate::{Span, Spanned};
use vstd::prelude::*;

verus! {

/// The value of a literal. Whole numbers are held as numbers; a number with a
/// fraction is held as the decimal text that was written.
#[derive(Debug, PartialEq)]
pub enum LiteralType {
    Byte(i8),
    Short(i16),
    Int(i32),
    Long(i64),
    Float(String),
    Double(String),
    String(String),
}

impl Clone for LiteralType {
    fn clone(&self) -> (copy: Self)
        ensures
            copy == *self,
    {
        match self {
            LiteralType::Byte(v) => LiteralType::Byte(*v),
            LiteralType::Short(v) => LiteralType::Short(*v),
            LiteralType::Int(v) => LiteralType::Int(*v),
            LiteralType::Long(v) => LiteralType::Long(*v),
            LiteralType::Float(v) => LiteralType::Float(v.clone()),
            LiteralType::Double(v) => LiteralType::Double(v.clone()),
            LiteralType::String(v) => LiteralType::String(v.clone()),
        }
    }
}

/// A literal token: a value and the place in the source where it stands.
#[derive(Debug, PartialEq)]
pub struct Literal {
    pub span: Span,
    pub value: LiteralType,
}

impl Literal {
    /// The value of the literal.
    pub fn inner(&self) -> (value: &LiteralType)
        ensures
            *value == self.value,
    {
        &self.value
    }

    /// The value of the literal, without its place.
    pub fn into_inner(self) -> (value: LiteralType)
        ensures
            value == self.value,
    {
        self.value
    }
}

impl Spanned for Literal {
    open spec fn spanned(&self) -> Span {
        self.span
    }

    fn span(&self) -> (span: Span) {
        self.span
    }
}

impl Clone for Literal {
    fn clone(&self) -> (copy: Self)
        ensures
            copy == *self,
    {
        Literal { span: self.span, value: self.value.clone() }
    }
}

/// Whether `c` is one of the digits `0` to `9`.
pub open spec fn is_digit(c: char) -> bool {
    '0' <= c && c <= '9'
}

/// The number that the digit `c` stands for.
pub open spec fn digit_value(c: char) -> int {
    c as int - '0' as int
}

/// Whether every character of `s` is a digit.
pub open spec fn all_digits(s: Seq<char>) -> bool {
    forall|i: int| 0 <= i < s.len() ==> is_digit(#[trigger] s[i])
}

/// The number that `digits` spell in base ten.
pub open spec fn decimal_value(digits: Seq<char>) -> int
    decreases digits.len(),
{
    if digits.len() == 0 {
        0
    } else {
        decimal_value(digits.drop_last()) * 10 + digit_value(digits.last())
    }
}

/// Whether `text` starts with a minus sign.
pub open spec fn has_minus(text: Seq<char>) -> bool {
    text.len() > 0 && text[0] == '-'
}

/// `text` without its minus sign, if it starts with one.
pub open spec fn unsigned_part(text: Seq<char>) -> Seq<char> {
    if has_minus(text) {
        text.skip(1)
    } else {
        text
    }
}

/// The whole number that `text` spells: an optional minus sign and then one
/// digit or more, and nothing else.
pub open spec fn integer_of(text: Seq<char>) -> Option<int> {
    let negative = has_minus(text);
    let digits = unsigned_part(text);
    if digits.len() > 0 && all_digits(digits) {
        Some(
            if negative {
                -decimal_value(digits)
            } else {
                decimal_value(digits)
            },
        )
    } else {
        None
    }
}

/// The whole number that `text` spells, if it spells one from `min` to `max`.
pub open spec fn integer_in(text: Seq<char>, min: int, max: int) -> Option<int> {
    match integer_of(text) {
        Some(v) => if min <= v <= max {
            Some(v)
        } else {
            None
        },
        None => None,
    }
}

/// How many points `s` holds.
pub open spec fn count_dots(s: Seq<char>) -> nat
    decreases s.len(),
{
    if s.len() == 0 {
        0
    } else {
        count_dots(s.drop_last()) + if s.last() == '.' {
            1nat
        } else {
            0nat
        }
    }
}

/// How many digits `s` holds.
pub open spec fn count_digits(s: Seq<char>) -> nat
    decreases s.len(),
{
    if s.len() == 0 {
        0
    } else {
        count_digits(s.drop_last()) + if is_digit(s.last()) {
            1nat
        } else {
            0nat
        }
    }
}

/// Whether `text` spells a number with an optional fraction: an optional
/// minus sign, then digits with at most one point among them, and at least
/// one digit.
pub open spec fn is_decimal_text(text: Seq<char>) -> bool {
    &&& digits_and_dots(unsigned_part(text))
    &&& count_dots(unsigned_part(text)) <= 1
    &&& count_digits(unsigned_part(text)) >= 1
}

/// Whether every character of `s` is a digit or a point.
pub open spec fn digits_and_dots(s: Seq<char>) -> bool {
    forall|i: int| 0 <= i < s.len() ==> is_digit(#[trigger] s[i]) || s[i] == '.'
}

proof fn lemma_decimal_prefix(s: Seq<char>, k: int)
    requires
        all_digits(s),
        0 <= k <= s.len(),
    ensures
        0 <= decimal_value(s.take(k)) <= decimal_value(s),
    decreases s.len(),
{
    if s.len() == 0 {
        assert(s.take(k) =~= s);
    } else if k == s.len() {
        assert(s.take(k) =~= s);
        lemma_decimal_prefix(s.drop_last(), k - 1);
    } else {
        assert(s.drop_last().take(k) =~= s.take(k));
        lemma_decimal_prefix(s.drop_last(), k);
    }
}

/// Whether `c` is one of the digits `0` to `9`.
pub fn is_ascii_digit(c: char) -> (yes: bool)
    ensures
        yes == is_digit(c),
{
    '0' <= c && c <= '9'
}

fn digit_of(c: char) -> (d: u64)
    requires
        is_digit(c),
    ensures
        d == digit_value(c),
        d <= 9,
{
    (c as u32 - '0' as u32) as u64
}

/// Reads `text` as a whole number from `min` to `max`.
pub fn parse_integer(text: &Vec<char>, min: i64, max: i64) -> (r: Option<i64>)
    requires
        min <= 0 <= max,
    ensures
        match r {
            Some(v) => integer_in(text@, min as int, max as int) == Some(v as int),
            None => integer_in(text@, min as int, max as int) is None,
        },
{
    let n: usize = text.len();
    if n == 0 {
        return None;
    }
    let negative: bool = text[0] == '-';
    let start: usize = if negative {
        1
    } else {
        0
    };
    if start == n {
        return None;
    }
    let limit: u64 = if negative {
        if min == 0 {
            0
        } else {
            ((-(min + 1)) as u64) + 1
        }
    } else {
        max as u64
    };
    let ghost digits = unsigned_part(text@);
    proof {
        assert(has_minus(text@) == negative);
        assert(digits == text@.skip(start as int));
    }
    let mut acc: u64 = 0;
    let mut i: usize = start;
    proof {
        assert(digits.take(0) =~= Seq::<char>::empty());
    }
    while i < n
        invariant
            start <= i <= n,
            n == text@.len(),
            digits == text@.skip(start as int),
            digits == unsigned_part(text@),
            negative == has_minus(text@),
            forall|k: int| 0 <= k < i - start ==> is_digit(#[trigger] digits[k]),
            acc == decimal_value(digits.take(i - start)),
            acc <= limit,
            limit == if negative { -min } else { max as int },
        decreases n - i,
    {
        let c = text[i];
        if !is_ascii_digit(c) {
            proof {
                assert(digits[i - start] == c);
            }
            return None;
        }
        let d: u64 = digit_of(c);
        proof {
            assert(digits[i - start] == c);
            assert(digits.take(i - start + 1).drop_last() =~= digits.take(i - start));
            assert(digits.take(i - start + 1).last() == c);
        }
        proof {
            assert(decimal_value(digits.take(i - start + 1)) == acc * 10 + d);
        }
        if d > limit || acc > (limit - d) / 10 {
            proof {
                assert(acc * 10 + d > limit);
                if all_digits(digits) {
                    lemma_decimal_prefix(digits, i - start + 1);
                    assert(decimal_value(digits) > limit);
                }
            }
            return None;
        }
        acc = acc * 10 + d;
        i = i + 1;
    }
    proof {
        assert(digits.take(n - start) =~= digits);
        assert(all_digits(digits));
        assert(decimal_value(digits) == acc);
        assert(integer_of(text@) == Some(if negative { -(acc as int) } else { acc as int }));
    }
    if negative {
        if acc == 0 {
            Some(0)
        } else {
            Some(-((acc - 1) as i64) - 1)
        }
    } else {
        Some(acc as i64)
    }
}

/// Whether `text` spells a number with an optional fraction.
pub fn check_decimal_text(text: &Vec<char>) -> (yes: bool)
    ensures
        yes == is_decimal_text(text@),
{
    let n: usize = text.len();
    let start: usize = if n > 0 && text[0] == '-' {
        1
    } else {
        0
    };
    let ghost body = unsigned_part(text@);
    proof {
        assert(body == text@.skip(start as int));
    }
    let mut dots: usize = 0;
    let mut digits: usize = 0;
    let mut i: usize = start;
    proof {
        assert(body.take(0) =~= Seq::<char>::empty());
    }
    while i < n
        invariant
            start <= i <= n,
            n == text@.len(),
            body == text@.skip(start as int),
            body == unsigned_part(text@),
            forall|k: int| 0 <= k < i - start ==> is_digit(#[trigger] body[k]) || body[k] == '.',
            dots == count_dots(body.take(i - start)),
            digits == count_digits(body.take(i - start)),
            dots <= i - start,
            digits <= i - start,
        decreases n - i,
    {
        let c = text[i];
        proof {
            assert(body[i - start] == c);
            assert(body.take(i - start + 1).drop_last() =~= body.take(i - start));
            assert(body.take(i - start + 1).last() == c);
        }
        if c == '.' {
            dots = dots + 1;
        } else if is_ascii_digit(c) {
            digits = digits + 1;
        } else {
            return false;
        }
        i = i + 1;
    }
    proof {
        assert(body.take(n - start) =~= body);
    }
    dots <= 1 && digits >= 1
}

/// `value` is the number that `buffer` spells when the character `suffix`
/// follows it: `b` makes a byte, `s` a short, `i` an int, `l` a long, `f` a
/// float and `d` a double; with any other character after it the number is
/// an int.
pub open spec fn is_number(value: LiteralType, buffer: Seq<char>, suffix: char) -> bool {
    if suffix == 'b' {
        value matches LiteralType::Byte(v) && integer_in(buffer, -128, 127) == Some(v as int)
    } else if suffix == 's' {
        value matches LiteralType::Short(v) && integer_in(buffer, -32768, 32767) == Some(v as int)
    } else if suffix == 'l' {
        value matches LiteralType::Long(v) && integer_in(
            buffer,
            -0x8000_0000_0000_0000,
            0x7fff_ffff_ffff_ffff,
        ) == Some(v as int)
    } else if suffix == 'f' {
        value matches LiteralType::Float(s) && s@ == buffer && is_decimal_text(buffer)
    } else if suffix == 'd' {
        value matches LiteralType::Double(s) && s@ == buffer && is_decimal_text(buffer)
    } else {
        value matches LiteralType::Int(v) && integer_in(buffer, -0x8000_0000, 0x7fff_ffff) == Some(
            v as int,
        )
    }
}

/// `buffer` spells no number of the kind that `suffix` asks for.
pub open spec fn is_no_number(buffer: Seq<char>, suffix: char) -> bool {
    if suffix == 'b' {
        integer_in(buffer, -128, 127) is None
    } else if suffix == 's' {
        integer_in(buffer, -32768, 32767) is None
    } else if suffix == 'l' {
        integer_in(buffer, -0x8000_0000_0000_0000, 0x7fff_ffff_ffff_ffff) is None
    } else if suffix == 'f' || suffix == 'd' {
        !is_decimal_text(buffer)
    } else {
        integer_in(buffer, -0x8000_0000, 0x7fff_ffff) is None
    }
}

/// A buffer that spells a number of the kind asked for is not one that
/// spells none.
pub proof fn lemma_number_or_not(value: LiteralType, buffer: Seq<char>, suffix: char)
    requires
        is_number(value, buffer, suffix),
    ensures
        !is_no_number(buffer, suffix),
{
}

/// The number that `buffer` spells when `suffix` follows it.
pub fn number_value(buffer: &Vec<char>, suffix: char) -> (r: Option<LiteralType>)
    ensures
        match r {
            Some(value) => is_number(value, buffer@, suffix),
            None => is_no_number(buffer@, suffix),
        },
{
    if suffix == 'b' {
        match parse_integer(buffer, -128, 127) {
            Some(v) => Some(LiteralType::Byte(v as i8)),
            None => None,
        }
    } else if suffix == 's' {
        match parse_integer(buffer, -32768, 32767) {
            Some(v) => Some(LiteralType::Short(v as i16)),
            None => None,
        }
    } else if suffix == 'l' {
        match parse_integer(buffer, i64::MIN, i64::MAX) {
            Some(v) => Some(LiteralType::Long(v)),
            None => None,
        }
    } else if suffix == 'f' {
        if check_decimal_text(buffer) {
            Some(LiteralType::Float(string_of(buffer)))
        } else {
            None
        }
    } else if suffix == 'd' {
        if check_decimal_text(buffer) {
            Some(LiteralType::Double(string_of(buffer)))
        } else {
            None
        }
    } else {
        match parse_integer(buffer, -0x8000_0000, 0x7fff_ffff) {
            Some(v) => Some(LiteralType::Int(v as i32)),
            None => None,
        }
    }
}

/// The name of the kind of number that `suffix` asks for.
pub open spec fn number_kind_name(suffix: char) -> Seq<char> {
    if suffix == 'b' {
        "Byte"@
    } else if suffix == 's' {
        "Short"@
    } else if suffix == 'l' {
        "Long"@
    } else if suffix == 'f' {
        "Float"@
    } else if suffix == 'd' {
        "Double"@
    } else {
        "Int"@
    }
}

/// The name of the kind of number that `suffix` asks for.
pub fn number_kind(suffix: char) -> (name: &'static str)
    ensures
        name@ == number_kind_name(suffix),
{
    if suffix == 'b' {
        "Byte"
    } else if suffix == 's' {
        "Short"
    } else if suffix == 'l' {
        "Long"
    } else if suffix == 'f' {
        "Float"
    } else if suffix == 'd' {
        "Double"
    } else {
        "Int"
    }
}

/// Whether `c` can follow the first character of a number: a digit or a
/// point.
pub open spec fn in_number(c: char) -> bool {
    c == '.' || is_digit(c)
}

/// Whether `c` after a number says what kind of number it is.
pub open spec fn is_suffix(c: char) -> bool {
    c == 'b' || c == 's' || c == 'i' || c == 'l' || c == 'f' || c == 'd'
}

/// Whether `start` can start a literal: a double quote, a minus sign or a
/// digit.
pub open spec fn starts_literal(start: char) -> bool {
    start == '"' || start == '-' || is_digit(start)
}

/// The first place at or after `from` where `text` has a character that
/// cannot stand in a number, or the end of the text.
pub open spec fn number_end(text: Seq<char>, from: int) -> int
    decreases text.len() - from,
{
    if from < 0 || from >= text.len() {
        text.len() as int
    } else if in_number(text[from]) {
        number_end(text, from + 1)
    } else {
        from
    }
}

impl Literal {
    /// Reads a number whose first character has just been read: the digits
    /// and points after it, and the suffix letter if one follows. A number
    /// that the text ends with is an error, and so is one that its digits
    /// and points do not spell.
    #[verifier::loop_isolation(false)]
    pub fn parse_number(start: char, cursor: &mut Cursor, start_pos: usize) -> (r: ParseResult<
        Literal,
    >)
        requires
            old(cursor).just_read(start, start_pos),
        ensures
            final(cursor).follows(old(cursor)),
            ({
                let text = old(cursor).text();
                let end = number_end(text, old(cursor).offset());
                if end >= text.len() {
                    r is Err && r->Err_0 is EarlyEof
                } else if is_no_number(text.subrange(start_pos as int, end), text[end]) {
                    r is Err && fault_is(
                        r->Err_0,
                        text.subrange(start_pos as int, end),
                        number_kind_name(text[end]),
                        start_pos as int,
                        end - start_pos + if is_suffix(text[end]) {
                            1int
                        } else {
                            0int
                        },
                    )
                } else {
                    &&& r is Ok
                    &&& is_number(r->Ok_0.value, text.subrange(start_pos as int, end), text[end])
                    &&& final(cursor).offset() == end + if is_suffix(text[end]) {
                        1int
                    } else {
                        0int
                    }
                    &&& r->Ok_0.span.index == start_pos
                    &&& r->Ok_0.span.end() == final(cursor).offset()
                }
            }),
    {
        let mut buffer: Vec<char> = Vec::new();
        buffer.push(start);
        proof {
            assert(buffer@ =~= cursor.text().subrange(start_pos as int, cursor.offset()));
        }
        loop
            invariant
                cursor.follows(old(cursor)),
                buffer@ == cursor.text().subrange(start_pos as int, cursor.offset()),
                number_end(cursor.text(), old(cursor).offset()) == number_end(
                    cursor.text(),
                    cursor.offset(),
                ),
            decreases cursor.left(),
        {
            let next_char = cursor.expect_peek()?;
            if next_char == '.' || is_ascii_digit(next_char) {
                let ghost before = cursor.offset();
                buffer.push(next_char);
                cursor.consume();
                proof {
                    assert(cursor.text().subrange(start_pos as int, before + 1)
                        =~= cursor.text().subrange(start_pos as int, before).push(next_char));
                }
                continue ;
            }
            if next_char == 'b' || next_char == 's' || next_char == 'i' || next_char == 'l'
                || next_char == 'f' || next_char == 'd' {
                cursor.consume();
            }
            let span = cursor.into_span(start_pos);
            return match number_value(&buffer, next_char) {
                Some(value) => {
                    proof {
                        lemma_number_or_not(value, buffer@, next_char);
                    }
                    Ok(Literal { span, value })
                },
                None => Err(
                    ParseError::UnexpectedToken(string_of(&buffer), number_kind(next_char), span),
                ),
            };
        }
    }

    /// Reads a string whose opening quote has just been read, up to the
    /// closing quote. A backslash takes the character after it as it is.
    #[verifier::loop_isolation(false)]
    pub fn parse_string(cursor: &mut Cursor, start_pos: usize) -> (r: ParseResult<Literal>)
        requires
            old(cursor).wf(),
            start_pos + 1 == old(cursor).offset(),
        ensures
            final(cursor).follows(old(cursor)),
            match string_end(old(cursor).text(), old(cursor).offset(), false) {
                Some(end) => {
                    &&& r is Ok
                    &&& r->Ok_0.value matches LiteralType::String(s) && s@ == string_body(
                        old(cursor).text(),
                        old(cursor).offset(),
                        false,
                    )
                    &&& final(cursor).offset() == end
                    &&& r->Ok_0.span.index == start_pos
                    &&& r->Ok_0.span.end() == end
                },
                None => r is Err && r->Err_0 is EarlyEof,
            },
    {
        let mut buffer = String::new();
        let mut escaped = false;
        let ghost text = cursor.text();
        let ghost from = cursor.offset();
        proof {
            assert(buffer@ + string_body(text, from, false) =~= string_body(text, from, false));
        }
        loop
            invariant
                cursor.follows(old(cursor)),
                string_end(text, from, false) == string_end(text, cursor.offset(), escaped),
                buffer@ + string_body(text, cursor.offset(), escaped) == string_body(
                    text,
                    from,
                    false,
                ),
            decreases cursor.left(),
        {
            let ghost before = cursor.offset();
            let ghost so_far = buffer@;
            let next_char = cursor.expect_consume()?;
            if escaped {
                buffer.push(next_char);
                escaped = false;
                proof {
                    assert(buffer@ + string_body(text, cursor.offset(), false) =~= so_far + (
                    seq![next_char] + string_body(text, cursor.offset(), false)));
                }
            } else if next_char == '\\' {
                escaped = true;
            } else if next_char == '"' {
                proof {
                    assert(string_body(text, before, false) =~= Seq::<char>::empty());
                    assert(buffer@ =~= string_body(text, from, false));
                }
                break ;
            } else {
                buffer.push(next_char);
                proof {
                    assert(buffer@ + string_body(text, cursor.offset(), false) =~= so_far + (
                    seq![next_char] + string_body(text, cursor.offset(), false)));
                }
            }
        }
        let span = cursor.into_span(start_pos);
        Ok(Literal { span, value: LiteralType::String(buffer) })
    }

    /// Reads a literal whose first character `start` has just been read: a
    /// string after a double quote, a number after a minus sign or a digit.
    pub fn parse(start: char, cursor: &mut Cursor, start_pos: usize) -> (r: ParseResult<Literal>)
        requires
            old(cursor).just_read(start, start_pos),
        ensures
            final(cursor).follows(old(cursor)),
            !starts_literal(start) ==> r is Err && r->Err_0 is InvalidStart
                && final(cursor).offset() == old(cursor).offset(),
            starts_literal(start) ==> match lex_one(old(cursor).text(), start_pos as int) {
                Lexed::Token(end) => {
                    &&& r is Ok
                    &&& reads_literal(r->Ok_0, old(cursor).text())
                    &&& r->Ok_0.span.index == start_pos
                    &&& r->Ok_0.span.end() == end
                    &&& final(cursor).offset() == end
                },
                Lexed::Comment(_) => false,
                Lexed::EarlyEof => r is Err && r->Err_0 is EarlyEof,
                Lexed::Unexpected(read, kind, at, width) => r is Err && fault_is(
                    r->Err_0,
                    read,
                    kind,
                    at,
                    width,
                ),
            },
    {
        if start == '"' {
            Literal::parse_string(cursor, start_pos)
        } else if start == '-' || is_ascii_digit(start) {
            Literal::parse_number(start, cursor, start_pos)
        } else {
            Err(ParseError::InvalidStart(start, "literal"))
        }
    }
}

/// `literal` is the literal that stands in `text` at its span: for a string
/// the characters between the quotes, for a number what its digits and its
/// suffix spell.
pub open spec fn reads_literal(literal: Literal, text: Seq<char>) -> bool {
    let at = literal.span.index as int;
    if text[at] == '"' {
        literal.value matches LiteralType::String(s) && s@ == string_body(text, at + 1, false)
    } else {
        let end = number_end(text, at + 1);
        is_number(literal.value, text.subrange(at, end), text[end])
    }
}

} // verus!
