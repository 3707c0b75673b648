//! Hexadecimal codec.
//!
//! A signature header carries its digest as a hexadecimal string; this module
//! turns such a string back into raw bytes, and bytes into the canonical
//! lowercase encoding.  Decoding is all-or-nothing: an odd-length string or a
//! single non-hex character fails the whole operation, and partial results
//! are never returned.

use vstd::prelude::*;

verus! {

/// Error from decoding a hexadecimal string.
#[derive(Clone, Copy, Debug, PartialEq, Eq)]
pub enum DecodeError {
    /// The string has odd length or holds a character that is no hex digit.
    InvalidHex,
}

/// The value of one hexadecimal digit, or `None` for any other character.
/// Both lowercase and uppercase digits are accepted.
pub open spec fn hex_val_opt(c: char) -> Option<u8> {
    if c == '0' {
        Some(0u8)
    } else if c == '1' {
        Some(1u8)
    } else if c == '2' {
        Some(2u8)
    } else if c == '3' {
        Some(3u8)
    } else if c == '4' {
        Some(4u8)
    } else if c == '5' {
        Some(5u8)
    } else if c == '6' {
        Some(6u8)
    } else if c == '7' {
        Some(7u8)
    } else if c == '8' {
        Some(8u8)
    } else if c == '9' {
        Some(9u8)
    } else if c == 'a' || c == 'A' {
        Some(10u8)
    } else if c == 'b' || c == 'B' {
        Some(11u8)
    } else if c == 'c' || c == 'C' {
        Some(12u8)
    } else if c == 'd' || c == 'D' {
        Some(13u8)
    } else if c == 'e' || c == 'E' {
        Some(14u8)
    } else if c == 'f' || c == 'F' {
        Some(15u8)
    } else {
        None
    }
}

/// Whether `c` is a hexadecimal digit.
pub open spec fn is_hex_digit(c: char) -> bool {
    hex_val_opt(c) is Some
}

/// The value of a hexadecimal digit (0 for a non-digit).
pub open spec fn hex_val(c: char) -> u8 {
    match hex_val_opt(c) {
        Some(v) => v,
        None => 0u8,
    }
}

/// The byte encoded by two adjacent hexadecimal digits.
pub open spec fn hex_byte(hi: char, lo: char) -> u8
    recommends
        is_hex_digit(hi),
        is_hex_digit(lo),
{
    (hex_val(hi) * 16 + hex_val(lo)) as u8
}

/// Whether a string is a well-formed hexadecimal encoding: even length and
/// hex digits throughout.
pub open spec fn hex_ok(s: Seq<char>) -> bool {
    &&& s.len() % 2 == 0
    &&& forall|i: int| 0 <= i < s.len() ==> is_hex_digit(#[trigger] s[i])
}

/// The byte sequence encoded by a well-formed hexadecimal string.
pub open spec fn hex_decode(s: Seq<char>) -> Seq<u8>
    recommends
        hex_ok(s),
{
    Seq::new(s.len() / 2, |i: int| hex_byte(s[2 * i], s[2 * i + 1]))
}

/// The canonical lowercase digit for a value below 16 (`'0'` otherwise).
pub open spec fn hex_char(v: u8) -> char {
    if v == 0 {
        '0'
    } else if v == 1 {
        '1'
    } else if v == 2 {
        '2'
    } else if v == 3 {
        '3'
    } else if v == 4 {
        '4'
    } else if v == 5 {
        '5'
    } else if v == 6 {
        '6'
    } else if v == 7 {
        '7'
    } else if v == 8 {
        '8'
    } else if v == 9 {
        '9'
    } else if v == 10 {
        'a'
    } else if v == 11 {
        'b'
    } else if v == 12 {
        'c'
    } else if v == 13 {
        'd'
    } else if v == 14 {
        'e'
    } else if v == 15 {
        'f'
    } else {
        '0'
    }
}

/// The canonical lowercase hexadecimal encoding of a byte sequence: two
/// digits for each byte, high nibble first.
pub open spec fn hex_encode(b: Seq<u8>) -> Seq<char> {
    Seq::new(
        (2 * b.len()) as nat,
        |i: int|
            if i % 2 == 0 {
                hex_char((b[i / 2] / 16) as u8)
            } else {
                hex_char((b[i / 2] % 16) as u8)
            },
    )
}

/// A character maps to a digit value exactly when it is a hex digit, and
/// every digit value is below 16.
pub proof fn lemma_hex_val_bound(c: char)
    ensures
        match hex_val_opt(c) {
            Some(v) => v < 16,
            None => true,
        },
{
}

/// Encoding a value below 16 yields a hex digit that decodes back to it.
pub proof fn lemma_hex_char_val(v: u8)
    requires
        v < 16,
    ensures
        is_hex_digit(hex_char(v)),
        hex_val_opt(hex_char(v)) == Some(v),
{
}

/// Decoding inverts the canonical encoding: the encoding of any byte
/// sequence is well-formed hex, and decoding it gives the bytes back.
pub proof fn lemma_hex_round_trip(b: Seq<u8>)
    ensures
        hex_ok(hex_encode(b)),
        hex_decode(hex_encode(b)) == b,
{
    assert forall|i: int| 0 <= i < hex_encode(b).len() implies is_hex_digit(
        #[trigger] hex_encode(b)[i],
    ) by {
        if i % 2 == 0 {
            lemma_hex_char_val((b[i / 2] / 16) as u8);
        } else {
            lemma_hex_char_val((b[i / 2] % 16) as u8);
        }
    }
    assert forall|i: int| 0 <= i < b.len() implies hex_decode(hex_encode(b))[i] == b[i] by {
        let hi = (b[i] / 16) as u8;
        let lo = (b[i] % 16) as u8;
        lemma_hex_char_val(hi);
        lemma_hex_char_val(lo);
        assert(hex_encode(b)[2 * i] == hex_char(hi));
        assert(hex_encode(b)[2 * i + 1] == hex_char(lo));
        assert(hex_byte(hex_char(hi), hex_char(lo)) == b[i]);
    }
    assert(hex_decode(hex_encode(b)) =~= b);
}

/// The value of one hexadecimal digit, or `None` for any other character.
pub fn hex_digit_value(c: char) -> (r: Option<u8>)
    ensures
        r == hex_val_opt(c),
{
    match c {
        '0' => Some(0),
        '1' => Some(1),
        '2' => Some(2),
        '3' => Some(3),
        '4' => Some(4),
        '5' => Some(5),
        '6' => Some(6),
        '7' => Some(7),
        '8' => Some(8),
        '9' => Some(9),
        'a' | 'A' => Some(10),
        'b' | 'B' => Some(11),
        'c' | 'C' => Some(12),
        'd' | 'D' => Some(13),
        'e' | 'E' => Some(14),
        'f' | 'F' => Some(15),
        _ => None,
    }
}

/// The canonical lowercase digit for a value below 16.
fn hex_char_of(v: u8) -> (c: char)
    requires
        v < 16,
    ensures
        c == hex_char(v),
{
    match v {
        0 => '0',
        1 => '1',
        2 => '2',
        3 => '3',
        4 => '4',
        5 => '5',
        6 => '6',
        7 => '7',
        8 => '8',
        9 => '9',
        10 => 'a',
        11 => 'b',
        12 => 'c',
        13 => 'd',
        14 => 'e',
        _ => 'f',
    }
}

/// Relies on `String::push`: appends exactly the one character.
#[verifier::external_body]
fn push_char(s: &mut String, c: char)
    ensures
        final(s)@ == old(s)@.push(c),
{
    s.push(c);
}

/// Decodes a hexadecimal string into the bytes it encodes.
///
/// Succeeds exactly on well-formed input: even length, hex digits
/// throughout.  An odd-length string (a short trailing group) or any
/// non-hex character fails the whole operation; no partial result.
pub fn hex_string_to_bytes(hex_string: &str) -> (r: Result<Vec<u8>, DecodeError>)
    ensures
        match r {
            Ok(bytes) => hex_ok(hex_string@) && bytes@ == hex_decode(hex_string@),
            Err(e) => !hex_ok(hex_string@) && e == DecodeError::InvalidHex,
        },
{
    let n = hex_string.unicode_len();
    if n % 2 != 0 {
        return Err(DecodeError::InvalidHex);
    }
    let mut out: Vec<u8> = Vec::new();
    let mut i: usize = 0;
    while i < n / 2
        invariant
            n == hex_string@.len(),
            n % 2 == 0,
            i <= n / 2,
            forall|j: int| 0 <= j < 2 * i ==> is_hex_digit(#[trigger] hex_string@[j]),
            out@.len() == i,
            forall|j: int|
                0 <= j < i ==> #[trigger] out@[j] == hex_byte(
                    hex_string@[2 * j],
                    hex_string@[2 * j + 1],
                ),
        decreases n / 2 - i,
    {
        let hi = hex_string.get_char(2 * i);
        let lo = hex_string.get_char(2 * i + 1);
        let hv = match hex_digit_value(hi) {
            Some(v) => v,
            None => {
                return Err(DecodeError::InvalidHex);
            },
        };
        let lv = match hex_digit_value(lo) {
            Some(v) => v,
            None => {
                return Err(DecodeError::InvalidHex);
            },
        };
        proof {
            lemma_hex_val_bound(hi);
            lemma_hex_val_bound(lo);
        }
        out.push(hv * 16 + lv);
        i = i + 1;
    }
    proof {
        assert(out@ =~= hex_decode(hex_string@));
    }
    Ok(out)
}

/// Encodes a byte sequence as its canonical lowercase hexadecimal string.
pub fn bytes_to_hex_string(bytes: &[u8]) -> (r: String)
    ensures
        r@ == hex_encode(bytes@),
{
    let mut out = String::new();
    let mut i: usize = 0;
    while i < bytes.len()
        invariant
            i <= bytes@.len(),
            out@.len() == 2 * i,
            forall|j: int| 0 <= j < 2 * i ==> #[trigger] out@[j] == hex_encode(bytes@)[j],
        decreases bytes@.len() - i,
    {
        let hi = bytes[i] / 16;
        let lo = bytes[i] % 16;
        push_char(&mut out, hex_char_of(hi));
        push_char(&mut out, hex_char_of(lo));
        i = i + 1;
    }
    proof {
        assert(out@ =~= hex_encode(bytes@));
    }
    out
}

} // verus!
