//! Bytes to characters: the decoder in front of the tokeniser.
//!
//! The decoder goes by the first byte of each character alone. The number of
//! leading one bits says how many bytes the character has; the low four bits
//! of the first byte and the low six bits of each later byte are put
//! together. Later bytes are not checked.
use crate::token::lex::{cut_is, lex_until};
use crate::token::tree::{parse_iter, reads, ParseResult, TokenStream};
use vstd::prelude::*;
use vstd::std_specs::bits::u8_leading_ones;

verus! {

/// Whether `value` is a Unicode scalar value: a code point that is no
/// surrogate.
pub open spec fn is_scalar_value(value: u32) -> bool {
    value <= 0xD7FF || 0xE000 <= value <= 0x10FFFF
}

/// `char::from_u32` gives the character with the code point `i`, and `None`
/// where `i` is no Unicode scalar value.
pub assume_specification[ char::from_u32 ](i: u32) -> (c: Option<char>)
    ensures
        c is Some <==> is_scalar_value(i),
        c is Some ==> c->0 as u32 == i,
;

/// The error of [`CharReader::next`]: the byte cannot start a character.
#[derive(Debug, Clone, Copy, PartialEq, Eq)]
pub struct InvalidByte(pub u8);

/// How many bytes the character that starts with `first` has, going by the
/// leading one bits of `first`; 0 where `first` cannot start a character.
pub open spec fn char_width(first: u8) -> int {
    if u8_leading_ones(first) == 0 {
        1
    } else if 2 <= u8_leading_ones(first) <= 4 {
        u8_leading_ones(first) as int
    } else {
        0
    }
}

/// The number made of the low four bits of `first` and the low six bits of
/// each byte of `rest`, most significant first.
pub open spec fn joined_bits(first: u8, rest: Seq<u8>) -> int
    decreases rest.len(),
{
    if rest.len() == 0 {
        first as int % 16
    } else {
        joined_bits(first, rest.drop_last()) * 64 + rest.last() as int % 64
    }
}

/// What one step of the decoder makes of `bytes` from `at` on.
pub enum Decoded {
    /// A character, and the place after it.
    Char(char, int),
    /// The bytes end, or what they spell is no character.
    End,
    /// The byte at this place cannot start a character.
    Invalid(u8),
}

/// One step of the decoder at `at`.
pub open spec fn decode_at(bytes: Seq<u8>, at: int) -> Decoded {
    if at < 0 || at >= bytes.len() {
        Decoded::End
    } else {
        let first = bytes[at];
        let width = char_width(first);
        if width == 0 {
            Decoded::Invalid(first)
        } else if width == 1 {
            Decoded::Char(first as char, at + 1)
        } else if at + width > bytes.len() {
            Decoded::End
        } else {
            let value = joined_bits(first, bytes.subrange(at + 1, at + width));
            if is_scalar_value(value as u32) {
                Decoded::Char(value as u32 as char, at + width)
            } else {
                Decoded::End
            }
        }
    }
}

/// The characters that the decoder reads from `at` on, up to the first step
/// that gives none.
pub open spec fn decoded_chars(bytes: Seq<u8>, at: int) -> Seq<char>
    decreases bytes.len() - at,
{
    match decode_at(bytes, at) {
        Decoded::Char(c, next) => if at < next <= bytes.len() {
            seq![c] + decoded_chars(bytes, next)
        } else {
            seq![c]
        },
        _ => Seq::empty(),
    }
}

/// Bytes and the place of the next one to decode.
pub struct CharReader {
    bytes: Vec<u8>,
    position: usize,
}

impl CharReader {
    /// All the bytes, decoded or not.
    pub closed spec fn bytes(&self) -> Seq<u8> {
        self.bytes@
    }

    /// How many bytes have been used up.
    pub closed spec fn offset(&self) -> int {
        self.position as int
    }

    /// The position is inside the bytes or at their end.
    pub open spec fn wf(&self) -> bool {
        0 <= self.offset() <= self.bytes().len()
    }

    /// A reader at the start of `bytes`.
    pub fn new(bytes: Vec<u8>) -> (reader: CharReader)
        ensures
            reader.wf(),
            reader.bytes() == bytes@,
            reader.offset() == 0,
    {
        CharReader { bytes, position: 0 }
    }

    /// The next `n` bytes as one number, six bits from each, after `value`;
    /// `None` where fewer than `n` bytes are left, and then all of them are
    /// used up.
    fn read_bytes(&mut self, first: u8, n: usize) -> (value: Option<u32>)
        requires
            old(self).wf(),
            1 <= n <= 3,
        ensures
            final(self).wf(),
            final(self).bytes() == old(self).bytes(),
            match value {
                Some(v) => {
                    &&& old(self).offset() + n <= old(self).bytes().len()
                    &&& final(self).offset() == old(self).offset() + n
                    &&& v == joined_bits(
                        first,
                        old(self).bytes().subrange(old(self).offset(), old(self).offset() + n),
                    )
                },
                None => {
                    &&& old(self).offset() + n > old(self).bytes().len()
                    &&& final(self).offset() == old(self).bytes().len()
                },
            },
    {
        if n > self.bytes.len() - self.position {
            self.position = self.bytes.len();
            return None;
        }
        let start: usize = self.position;
        let ghost rest = self.bytes@.subrange(start as int, start + n);
        let mut value: u32 = (first & 0x0f) as u32;
        proof {
            assert(first & 0x0f == first % 16) by (bit_vector);
            assert(rest.take(0) =~= Seq::<u8>::empty());
        }
        let mut i: usize = 0;
        while i < n
            invariant
                i <= n <= 3,
                start + n <= self.bytes.len(),
                self.position == start,
                self.bytes@ == old(self).bytes@,
                rest == self.bytes@.subrange(start as int, start + n),
                value == joined_bits(first, rest.take(i as int)),
                value < 16 * pow64(i as nat),
            decreases n - i,
        {
            let byte: u8 = self.bytes[start + i];
            let low: u32 = (byte & 0x3f) as u32;
            proof {
                assert(byte & 0x3f == byte % 64) by (bit_vector);
                assert(rest[i as int] == byte);
                assert(rest.take(i + 1).drop_last() =~= rest.take(i as int));
                assert(rest.take(i + 1).last() == byte);
                reveal_with_fuel(pow64, 4);
                assert(value < 0x10000);
                assert(value << 6 == value * 64) by (bit_vector)
                    requires
                        value < 0x10000,
                ;
            }
            value = (value << 6) + low;
            i = i + 1;
        }
        proof {
            assert(rest.take(n as int) =~= rest);
        }
        self.position = start + n;
        Some(value)
    }

    /// Decodes the next character.
    pub fn next(&mut self) -> (r: Result<Option<char>, InvalidByte>)
        requires
            old(self).wf(),
        ensures
            final(self).wf(),
            final(self).bytes() == old(self).bytes(),
            old(self).offset() <= final(self).offset(),
            match decode_at(old(self).bytes(), old(self).offset()) {
                Decoded::Char(c, next) => r == Ok::<Option<char>, InvalidByte>(Some(c))
                    && final(self).offset() == next && next > old(self).offset(),
                Decoded::End => r == Ok::<Option<char>, InvalidByte>(None),
                Decoded::Invalid(byte) => r == Err::<Option<char>, InvalidByte>(InvalidByte(byte))
                    && final(self).offset() == old(self).offset() + 1,
            },
    {
        if self.position >= self.bytes.len() {
            return Ok(None);
        }
        let first_byte: u8 = self.bytes[self.position];
        self.position = self.position + 1;
        let ones: u32 = first_byte.leading_ones();
        proof {
            vstd::std_specs::bits::axiom_u8_leading_ones(first_byte);
        }
        let ghost at = old(self).offset();
        let ghost bytes = old(self).bytes();
        proof {
            assert(bytes[at] == first_byte);
            assert(ones == u8_leading_ones(first_byte));
        }
        if ones == 0 {
            proof {
                assert(decode_at(bytes, at) == Decoded::Char(first_byte as char, at + 1));
            }
            Ok(Some(first_byte as char))
        } else if ones == 2 || ones == 3 || ones == 4 {
            let n: usize = if ones == 2 {
                1
            } else if ones == 3 {
                2
            } else {
                3
            };
            proof {
                assert(char_width(first_byte) == n + 1);
            }
            match self.read_bytes(first_byte, n) {
                Some(value) => {
                    let c = char::from_u32(value);
                    proof {
                        assert(value == joined_bits(first_byte, bytes.subrange(at + 1, at + 1 + n)));
                        match c {
                            Some(ch) => {
                                vstd::utf8::char_u32_cast(ch, value);
                                assert(value as char == ch);
                                assert(decode_at(bytes, at) == Decoded::Char(ch, at + 1 + n));
                            },
                            None => {
                                assert(decode_at(bytes, at) == Decoded::End);
                            },
                        }
                    }
                    Ok(c)
                },
                None => {
                    proof {
                        assert(decode_at(bytes, at) == Decoded::End);
                    }
                    Ok(None)
                },
            }
        } else {
            proof {
                assert(char_width(first_byte) == 0);
                assert(decode_at(bytes, at) == Decoded::Invalid(first_byte));
            }
            Err(InvalidByte(first_byte))
        }
    }

    /// Decodes characters up to the first step that gives none: the end of
    /// the bytes, a byte that cannot start a character, or bytes that spell
    /// no character.
    pub fn into_chars(self) -> (chars: Vec<char>)
        requires
            self.wf(),
        ensures
            chars@ == decoded_chars(self.bytes(), self.offset()),
    {
        let mut reader = self;
        let mut chars: Vec<char> = Vec::new();
        loop
            invariant
                reader.wf(),
                reader.bytes() == self.bytes(),
                chars@ + decoded_chars(reader.bytes(), reader.offset()) == decoded_chars(
                    self.bytes(),
                    self.offset(),
                ),
            decreases reader.bytes().len() - reader.offset(),
        {
            let ghost before = reader.offset();
            let ghost so_far = chars@;
            match reader.next() {
                Ok(Some(c)) => {
                    chars.push(c);
                    proof {
                        assert(chars@ + decoded_chars(reader.bytes(), reader.offset()) =~= so_far
                            + (seq![c] + decoded_chars(reader.bytes(), reader.offset())));
                    }
                },
                _ => {
                    proof {
                        assert(decoded_chars(reader.bytes(), before) =~= Seq::<char>::empty());
                        assert(chars@ =~= decoded_chars(self.bytes(), self.offset()));
                    }
                    return chars;
                },
            }
        }
    }
}

/// 64 to the power `n`.
pub open spec fn pow64(n: nat) -> int
    decreases n,
{
    if n == 0 {
        1
    } else {
        64 * pow64((n - 1) as nat)
    }
}

/// Decodes `bytes` and cuts the characters into tokens. Decoding stops
/// without an error at the first byte that cannot be decoded.
pub fn parse_from_reader(bytes: Vec<u8>) -> (r: ParseResult<TokenStream>)
    ensures
        cut_is(r, lex_until(decoded_chars(bytes@, 0), 0, None)),
        r is Ok ==> reads(r->Ok_0.0@, decoded_chars(bytes@, 0), 0, None),
{
    parse_iter(CharReader::new(bytes).into_chars())
}

} // verus!
