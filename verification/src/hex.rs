//! Octets written as text, two hexadecimal digits each.

use vstd::prelude::*;
use vstd::string::{is_ascii_spec_bytes, StringSliceAdditionalSpecFns};

verus! {

/// Whether `c` is a hexadecimal digit, in either case.
pub open spec fn is_hex_digit(c: char) -> bool {
    ('0' <= c <= '9') || ('a' <= c <= 'f') || ('A' <= c <= 'F')
}

/// The number that the hexadecimal digit `c` stands for.
pub open spec fn hex_digit_value(c: char) -> int {
    if '0' <= c <= '9' {
        c as int - '0' as int
    } else if 'a' <= c <= 'f' {
        c as int - 'a' as int + 10
    } else {
        c as int - 'A' as int + 10
    }
}

/// Whether every character of `text` is a hexadecimal digit.
pub open spec fn all_hex_digits(text: Seq<char>) -> bool {
    forall|i: int| 0 <= i < text.len() ==> is_hex_digit(#[trigger] text[i])
}

/// The octets that `text` spells: each pair of digits gives one octet, the
/// first digit its high half.
pub open spec fn hex_octets(text: Seq<char>) -> Seq<u8> {
    Seq::new(
        text.len() / 2,
        |i: int| (hex_digit_value(text[2 * i]) * 16 + hex_digit_value(text[2 * i + 1])) as u8,
    )
}

/// The value of one hexadecimal digit given as an ASCII octet.
fn hex_digit(digit: u8) -> (value: u8)
    requires
        is_hex_digit(digit as char),
    ensures
        value == hex_digit_value(digit as char),
        value < 16,
{
    if 0x30 <= digit && digit <= 0x39 {
        digit - 0x30
    } else if 0x61 <= digit && digit <= 0x66 {
        digit - 0x61 + 10
    } else {
        digit - 0x41 + 10
    }
}

/// Whether `text` consists of hexadecimal digits only.
pub fn is_hex_str(text: &str) -> (b: bool)
    ensures
        b == all_hex_digits(text@),
{
    if !text.is_ascii() {
        return false;
    }
    proof {
        is_ascii_spec_bytes(text);
    }
    let digits = text.as_bytes();
    let mut i: usize = 0;
    while i < digits.len()
        invariant
            digits@.len() == text@.len(),
            forall|k: int| 0 <= k < digits@.len() ==> digits@[k] == #[trigger] text@[k] as u8,
            forall|k: int| 0 <= k < text@.len() ==> '\0' <= #[trigger] text@[k] <= '\u{7f}',
            i <= digits@.len(),
            forall|k: int| 0 <= k < i ==> is_hex_digit(#[trigger] text@[k]),
        decreases digits@.len() - i,
    {
        let digit = digits[i];
        let known = (0x30 <= digit && digit <= 0x39) || (0x61 <= digit && digit <= 0x66) || (0x41
            <= digit && digit <= 0x46);
        if !known {
            assert(!is_hex_digit(text@[i as int]));
            return false;
        }
        i += 1;
    }
    true
}

/// Reads a text of hexadecimal digits as octets.
///
/// A text with an odd number of octets is refused. A text with an even number
/// must consist of hexadecimal digits, which `is_hex_str` tells.
pub fn hex_str_to_bits(hex_str: &str) -> (r: Result<Vec<u8>, &'static str>)
    requires
        hex_str.spec_bytes().len() % 2 == 0 ==> all_hex_digits(hex_str@),
    ensures
        hex_str.spec_bytes().len() % 2 != 0 ==> r is Err && r.unwrap_err()@
            == "Hex String Formatter Error"@,
        hex_str.spec_bytes().len() % 2 == 0 ==> r is Ok && r.unwrap()@ == hex_octets(hex_str@),
{
    let digits = hex_str.as_bytes();
    if digits.len() % 2 != 0 {
        return Err("Hex String Formatter Error");
    }
    proof {
        assert(hex_str.is_ascii());
        is_ascii_spec_bytes(hex_str);
    }
    let count = digits.len() / 2;
    let mut result: Vec<u8> = Vec::new();
    let mut i: usize = 0;
    while i < count
        invariant
            digits@.len() == hex_str@.len(),
            digits@.len() <= usize::MAX,
            count == hex_str@.len() / 2,
            all_hex_digits(hex_str@),
            forall|k: int| 0 <= k < digits@.len() ==> digits@[k] == #[trigger] hex_str@[k] as u8,
            i <= count,
            result@.len() == i,
            forall|k: int| 0 <= k < i ==> #[trigger] result@[k] == hex_octets(hex_str@)[k],
        decreases count - i,
    {
        let pos = i * 2;
        assert(is_hex_digit(hex_str@[pos as int]) && is_hex_digit(hex_str@[pos + 1]));
        let h = hex_digit(digits[pos]);
        let l = hex_digit(digits[pos + 1]);
        assert((h << 4) | l == h * 16 + l) by (bit_vector)
            requires
                h < 16,
                l < 16,
        ;
        result.push((h << 4) | l);
        i += 1;
    }
    assert(result@ =~= hex_octets(hex_str@));
    Ok(result)
}

} // verus!
