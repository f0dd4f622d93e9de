//! Hexadecimal text: pairs of digits, upper or lower case, that spell bytes.

use crate::text::{decimal, decimal_string};
use vstd::prelude::*;

verus! {

/// Why a text is not a string of hexadecimal digit pairs.
#[derive(Debug, Clone, Copy, PartialEq, Eq)]
pub enum HexFault {
    /// The character `c` at byte `index` is no hexadecimal digit.
    InvalidCharacter { c: char, index: usize },
    /// The text has an odd number of bytes.
    OddLength,
}

/// Whether `b` is one of `0`-`9`, `a`-`f`, `A`-`F`.
pub open spec fn is_hex_digit(b: u8) -> bool {
    (0x30 <= b <= 0x39) || (0x41 <= b <= 0x46) || (0x61 <= b <= 0x66)
}

/// The number that a hexadecimal digit stands for.
pub open spec fn hex_digit_value(b: u8) -> int {
    if 0x30 <= b <= 0x39 {
        b - 0x30
    } else if 0x41 <= b <= 0x46 {
        b - 0x41 + 10
    } else {
        b - 0x61 + 10
    }
}

/// Whether `text` is an even number of hexadecimal digits.
pub open spec fn is_hex(text: Seq<u8>) -> bool {
    text.len() % 2 == 0 && forall|i: int| 0 <= i < text.len() ==> is_hex_digit(#[trigger] text[i])
}

/// The bytes that the digit pairs of `text` stand for.
pub open spec fn hex_bytes(text: Seq<u8>) -> Seq<u8> {
    Seq::new(
        text.len() / 2,
        |i: int| (hex_digit_value(text[2 * i]) * 16 + hex_digit_value(text[2 * i + 1])) as u8,
    )
}

/// Whether `index` is the place of the first byte of `text` that is no digit.
pub open spec fn is_first_bad_digit(text: Seq<u8>, index: int) -> bool {
    &&& 0 <= index < text.len()
    &&& !is_hex_digit(text[index])
    &&& forall|j: int| 0 <= j < index ==> is_hex_digit(#[trigger] text[j])
}

/// Whether `fault` is what is wrong with `text`: an odd length comes before a
/// bad digit, and of the bad digits the first one is reported.
pub open spec fn is_hex_fault(text: Seq<u8>, fault: HexFault) -> bool {
    match fault {
        HexFault::OddLength => text.len() % 2 == 1,
        HexFault::InvalidCharacter { c, index } => {
            &&& text.len() % 2 == 0
            &&& is_first_bad_digit(text, index as int)
            &&& c == text[index as int] as char
        },
    }
}

/// A text has at most one fault.
pub proof fn lemma_hex_fault_unique(text: Seq<u8>, a: HexFault, b: HexFault)
    requires
        is_hex_fault(text, a),
        is_hex_fault(text, b),
    ensures
        a == b,
{
    if let HexFault::InvalidCharacter { c: ca, index: ia } = a {
        if let HexFault::InvalidCharacter { c: cb, index: ib } = b {
            if ia < ib {
                assert(is_hex_digit(text[ia as int]));
            }
            if ib < ia {
                assert(is_hex_digit(text[ib as int]));
            }
        }
    }
}

/// What is wrong with a text that is not hexadecimal.
pub open spec fn hex_fault_of(text: Seq<u8>) -> HexFault {
    choose|fault: HexFault| is_hex_fault(text, fault)
}

/// The lower-case digit that stands for a number below 16.
pub open spec fn hex_digit_of(value: int) -> u8 {
    if value < 10 {
        (0x30 + value) as u8
    } else {
        (0x61 + value - 10) as u8
    }
}

/// The digit pairs that spell `bytes`, in lower case.
pub open spec fn hex_text(bytes: Seq<u8>) -> Seq<u8> {
    Seq::new(
        2 * bytes.len(),
        |i: int|
            hex_digit_of(
                if i % 2 == 0 {
                    bytes[i / 2] as int / 16
                } else {
                    bytes[i / 2] as int % 16
                },
            ),
    )
}

/// The digit pairs that spell `bytes`, as a string.
pub open spec fn hex_string(bytes: Seq<u8>) -> Seq<char> {
    Seq::new(2 * bytes.len(), |i: int| hex_text(bytes)[i] as char)
}

/// Reading undoes writing: the digits that spell a byte string are
/// hexadecimal, and they stand for that byte string.
pub proof fn law_hex_round_trip(bytes: Seq<u8>)
    ensures
        is_hex(hex_text(bytes)),
        hex_bytes(hex_text(bytes)) == bytes,
{
    let text = hex_text(bytes);
    assert forall|i: int| 0 <= i < text.len() implies is_hex_digit(#[trigger] text[i]) by {
        let b = bytes[i / 2];
        assert(0 <= b as int / 16 < 16 && 0 <= b as int % 16 < 16);
    }
    assert forall|k: int| 0 <= k < bytes.len() implies #[trigger] hex_bytes(text)[k]
        == bytes[k] by {
        let b = bytes[k];
        assert((2 * k) % 2 == 0 && (2 * k) / 2 == k);
        assert((2 * k + 1) % 2 == 1 && (2 * k + 1) / 2 == k);
        assert(text[2 * k] == hex_digit_of(b as int / 16));
        assert(text[2 * k + 1] == hex_digit_of(b as int % 16));
        assert(hex_digit_value(hex_digit_of(b as int / 16)) == b as int / 16);
        assert(hex_digit_value(hex_digit_of(b as int % 16)) == b as int % 16);
    }
    assert(hex_bytes(text) =~= bytes);
}

/// The UTF-8 bytes of the string of digits are the digits.
pub proof fn lemma_hex_string_bytes(bytes: Seq<u8>)
    ensures
        vstd::utf8::encode_utf8(hex_string(bytes)) == hex_text(bytes),
{
    let chars = hex_string(bytes);
    let text = hex_text(bytes);
    assert forall|i: int| 0 <= i < chars.len() implies '\0' <= #[trigger] chars[i]
        <= '\u{7f}' by {
        let b = bytes[i / 2];
        assert(0 <= b as int / 16 < 16 && 0 <= b as int % 16 < 16);
        assert(text[i] < 0x80);
    }
    assert(vstd::utf8::is_ascii_chars(chars));
    vstd::utf8::is_ascii_chars_encode_utf8(chars);
    assert forall|i: int| 0 <= i < chars.len() implies #[trigger] vstd::utf8::encode_utf8(
        chars,
    )[i] == text[i] by {
        let b = bytes[i / 2];
        assert(0 <= b as int / 16 < 16 && 0 <= b as int % 16 < 16);
        assert(text[i] < 0x80);
        assert(chars[i] as u8 == text[i]);
    }
    assert(vstd::utf8::encode_utf8(chars) =~= text);
}

/// The words that report a fault.
pub open spec fn hex_cause(fault: HexFault) -> Seq<char> {
    match fault {
        HexFault::OddLength => "odd number of digits"@,
        HexFault::InvalidCharacter { c, index } => "invalid character (code "@ + decimal(c as nat)
            + ") at position "@ + decimal(index as nat),
    }
}

/// Writes out what is wrong with a text.
pub fn hex_cause_text(fault: HexFault) -> (res: String)
    ensures
        res@ == hex_cause(fault),
{
    match fault {
        HexFault::OddLength => String::from_str("odd number of digits"),
        HexFault::InvalidCharacter { c, index } => {
            let code: String = decimal_string(c as u32 as u64);
            let place: String = decimal_string(index as u64);
            String::from_str("invalid character (code ").concat(code.as_str()).concat(
                ") at position ",
            ).concat(place.as_str())
        },
    }
}

fn digit_value(b: u8) -> (res: Option<u8>)
    ensures
        res is Some <==> is_hex_digit(b),
        res matches Some(v) ==> v == hex_digit_value(b) && v < 16,
{
    if 0x30 <= b && b <= 0x39 {
        Some(b - 0x30)
    } else if 0x41 <= b && b <= 0x46 {
        Some(b - 0x41 + 10)
    } else if 0x61 <= b && b <= 0x66 {
        Some(b - 0x61 + 10)
    } else {
        None
    }
}

/// Reads the bytes that an even number of hexadecimal digits spell. A text of
/// odd length is refused as such; otherwise the first byte that is no digit
/// is reported with its place.
pub fn hex_decode(text: &[u8]) -> (res: Result<Vec<u8>, HexFault>)
    ensures
        res is Ok <==> is_hex(text@),
        res matches Ok(bytes) ==> bytes@ == hex_bytes(text@),
        res matches Err(fault) ==> is_hex_fault(text@, fault),
{
    let len: usize = text.len();
    if len % 2 != 0 {
        return Err(HexFault::OddLength);
    }
    let mut out: Vec<u8> = Vec::new();
    let mut i: usize = 0;
    while i < len
        invariant
            i <= len,
            i % 2 == 0,
            len % 2 == 0,
            len == text@.len(),
            out.len() == i / 2,
            forall|j: int| 0 <= j < i ==> is_hex_digit(#[trigger] text@[j]),
            forall|k: int| 0 <= k < i / 2 ==> #[trigger] out@[k] == hex_bytes(text@)[k],
        decreases len - i,
    {
        let high: u8 = match digit_value(text[i]) {
            Some(v) => v,
            None => {
                return Err(HexFault::InvalidCharacter { c: text[i] as char, index: i });
            },
        };
        let low: u8 = match digit_value(text[i + 1]) {
            Some(v) => v,
            None => {
                return Err(HexFault::InvalidCharacter { c: text[i + 1] as char, index: i + 1 });
            },
        };
        out.push(high * 16 + low);
        assert(2 * (i as int / 2) == i);
        i += 2;
    }
    assert(out@ =~= hex_bytes(text@));
    Ok(out)
}

} // verus!
