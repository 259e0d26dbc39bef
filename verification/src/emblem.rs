//! Guild emblems: 32 bytes, written as 64 hexadecimal digits.

use vstd::prelude::*;

use crate::text::{chars_of, string_of};

verus! {

/// The value of a hexadecimal digit (either case), if the character is one.
pub open spec fn hex_digit_value(c: char) -> Option<u8> {
    if '0' <= c && c <= '9' {
        Some(((c as u32) - 48) as u8)
    } else if 'a' <= c && c <= 'f' {
        Some(((c as u32) - 87) as u8)
    } else if 'A' <= c && c <= 'F' {
        Some(((c as u32) - 55) as u8)
    } else {
        None
    }
}

/// The lower-case hexadecimal digit for a value below sixteen.
pub open spec fn hex_char(d: int) -> char {
    if d < 10 {
        ((d + 48) as u32) as char
    } else {
        ((d + 87) as u32) as char
    }
}

/// Whether every character is a hexadecimal digit.
pub open spec fn all_hex(s: Seq<char>) -> bool {
    forall|i: int| 0 <= i < s.len() ==> (#[trigger] hex_digit_value(s[i])) is Some
}

/// The bytes that 64 hexadecimal digits spell, two digits per byte,
/// high nibble first; nothing for any other text.
pub open spec fn decode_emblem(s: Seq<char>) -> Option<Seq<u8>> {
    if s.len() == 64 && all_hex(s) {
        Some(
            Seq::new(
                32,
                |i: int|
                    (hex_digit_value(s[2 * i])->0 * 16 + hex_digit_value(s[2 * i + 1])->0) as u8,
            ),
        )
    } else {
        None
    }
}

/// The lower-case hexadecimal spelling of a byte sequence.
pub open spec fn emblem_hex(e: Seq<u8>) -> Seq<char> {
    Seq::new(
        2 * e.len(),
        |i: int|
            if i % 2 == 0 {
                hex_char((e[i / 2] / 16) as int)
            } else {
                hex_char((e[i / 2] % 16) as int)
            },
    )
}

pub fn decode_hex_digit(c: char) -> (r: Option<u8>)
    ensures
        r == hex_digit_value(c),
{
    if '0' <= c && c <= '9' {
        Some((c as u8) - 48)
    } else if 'a' <= c && c <= 'f' {
        Some((c as u8) - 87)
    } else if 'A' <= c && c <= 'F' {
        Some((c as u8) - 55)
    } else {
        None
    }
}

/// Combines two hexadecimal digits into one byte, high digit first.
pub fn decode_hex_byte(high: char, low: char) -> (r: Option<u8>)
    ensures
        r == (match (hex_digit_value(high), hex_digit_value(low)) {
            (Some(h), Some(l)) => Some((h * 16 + l) as u8),
            _ => None,
        }),
{
    let h = decode_hex_digit(high)?;
    let l = decode_hex_digit(low)?;
    Some(h * 16 + l)
}

/// Reads an emblem from exactly 64 hexadecimal digits.
pub fn decode_emblem_chars(v: &Vec<char>) -> (r: Option<[u8; 32]>)
    ensures
        r matches Some(e) ==> decode_emblem(v@) == Some(e@),
        r is None ==> decode_emblem(v@) is None,
{
    if v.len() != 64 {
        return None;
    }
    let mut emblem = [0u8; 32];
    let mut index: usize = 0;
    while index < 32
        invariant
            v@.len() == 64,
            index <= 32,
            emblem@.len() == 32,
            forall|j: int| 0 <= j < 2 * index ==> (#[trigger] hex_digit_value(v@[j])) is Some,
            forall|j: int|
                0 <= j < index ==> emblem@[j] == (hex_digit_value(v@[2 * j])->0 * 16
                    + hex_digit_value(v@[2 * j + 1])->0) as u8,
        decreases 32 - index,
    {
        let b = decode_hex_byte(v[2 * index], v[2 * index + 1]);
        match b {
            Some(x) => {
                emblem[index] = x;
            },
            None => {
                return None;
            },
        }
        index = index + 1;
    }
    assert(emblem@ =~= decode_emblem(v@)->0);
    Some(emblem)
}

pub fn hex_digit_char(d: u8) -> (c: char)
    requires
        d < 16,
    ensures
        c == hex_char(d as int),
{
    if d < 10 {
        (d + 48) as char
    } else {
        (d + 87) as char
    }
}

/// Writes an emblem as 64 lower-case hexadecimal digits.
pub fn emblem_hex_chars(e: &[u8; 32]) -> (r: Vec<char>)
    ensures
        r@ == emblem_hex(e@),
{
    let mut out: Vec<char> = Vec::new();
    let mut i: usize = 0;
    while i < 32
        invariant
            i <= 32,
            e@.len() == 32,
            out@.len() == 2 * i,
            forall|j: int| 0 <= j < 2 * i ==> out@[j] == emblem_hex(e@)[j],
        decreases 32 - i,
    {
        let b = e[i];
        out.push(hex_digit_char(b / 16));
        out.push(hex_digit_char(b % 16));
        proof {
            assert((2 * i) / 2 == i);
            assert((2 * i + 1) / 2 == i);
            assert((2 * i) % 2 == 0);
            assert((2 * i + 1) % 2 == 1);
        }
        i = i + 1;
    }
    assert(out@ =~= emblem_hex(e@));
    out
}

/// Writing an emblem as hexadecimal and reading it back gives the same
/// emblem.
pub proof fn lemma_emblem_hex_round_trip(e: Seq<u8>)
    requires
        e.len() == 32,
    ensures
        decode_emblem(emblem_hex(e)) == Some(e),
{
    let s = emblem_hex(e);
    assert forall|i: int| 0 <= i < s.len() implies (#[trigger] hex_digit_value(s[i])) is Some by {
        let b = e[i / 2];
        let d = if i % 2 == 0 {
            b / 16
        } else {
            b % 16
        };
        assert(d < 16);
        assert(s[i] == hex_char(d as int));
    }
    let decoded = decode_emblem(s)->0;
    assert forall|i: int| 0 <= i < 32 implies decoded[i] == e[i] by {
        assert((2 * i) / 2 == i);
        assert((2 * i + 1) / 2 == i);
        assert((2 * i) % 2 == 0);
        assert((2 * i + 1) % 2 == 1);
        let b = e[i];
        assert(s[2 * i] == hex_char((b / 16) as int));
        assert(s[2 * i + 1] == hex_char((b % 16) as int));
        assert(hex_digit_value(s[2 * i])->0 == b / 16);
        assert(hex_digit_value(s[2 * i + 1])->0 == b % 16);
    }
    assert(decoded =~= e);
}

/// Reads an emblem from a text of exactly 64 hexadecimal digits.
pub fn decode_guild_emblem_hex(value: &str) -> (r: Option<[u8; 32]>)
    ensures
        r matches Some(e) ==> decode_emblem(value@) == Some(e@),
        r is None ==> decode_emblem(value@) is None,
{
    decode_emblem_chars(&chars_of(value))
}

/// Writes an emblem as a text of 64 lower-case hexadecimal digits.
pub fn guild_emblem_to_hex(value: &[u8; 32]) -> (r: String)
    ensures
        r@ == emblem_hex(value@),
{
    string_of(&emblem_hex_chars(value))
}

} // verus!
