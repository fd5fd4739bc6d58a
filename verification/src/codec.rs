//! The textual encodings that outside crates compute for the library, stated
//! as specifications: standard padded Base64 and the hyphenated form of a UUID.

use vstd::prelude::*;
use vstd::arithmetic::power::pow;

verus! {

/// The symbol of the 6-bit value `v` in the standard Base64 alphabet
/// `A-Z a-z 0-9 + /`.
pub open spec fn base64_symbol(v: int) -> char {
    if 0 <= v < 26 {
        (65 + v) as char
    } else if 26 <= v < 52 {
        (97 + (v - 26)) as char
    } else if 52 <= v < 62 {
        (48 + (v - 52)) as char
    } else if v == 62 {
        '+'
    } else {
        '/'
    }
}

/// Standard Base64 with `=` padding: every 3 bytes become 4 symbols, a final
/// group of 1 or 2 bytes becomes 2 or 3 symbols and padding.
pub open spec fn base64_encode(bytes: Seq<u8>) -> Seq<char>
    decreases bytes.len(),
{
    if bytes.len() == 0 {
        seq![]
    } else if bytes.len() == 1 {
        let b0 = bytes[0] as int;
        seq![base64_symbol(b0 / 4), base64_symbol((b0 % 4) * 16), '=', '=']
    } else if bytes.len() == 2 {
        let b0 = bytes[0] as int;
        let b1 = bytes[1] as int;
        seq![
            base64_symbol(b0 / 4),
            base64_symbol((b0 % 4) * 16 + b1 / 16),
            base64_symbol((b1 % 16) * 4),
            '=',
        ]
    } else {
        let b0 = bytes[0] as int;
        let b1 = bytes[1] as int;
        let b2 = bytes[2] as int;
        seq![
            base64_symbol(b0 / 4),
            base64_symbol((b0 % 4) * 16 + b1 / 16),
            base64_symbol((b1 % 16) * 4 + b2 / 64),
            base64_symbol(b2 % 64),
        ] + base64_encode(bytes.subrange(3, bytes.len() as int))
    }
}

/// Base64 text has four symbols for every started group of three bytes; one
/// byte left over gives two `=` at the end, two bytes left over give one.
pub proof fn lemma_base64_shape(bytes: Seq<u8>)
    ensures
        base64_encode(bytes).len() == 4 * ((bytes.len() + 2) / 3),
        bytes.len() % 3 == 1 ==> base64_encode(bytes).last() == '=' && base64_encode(bytes)[
            base64_encode(bytes).len() - 2] == '=',
        bytes.len() % 3 == 2 ==> base64_encode(bytes).last() == '=',
    decreases bytes.len(),
{
    if bytes.len() >= 3 {
        let rest = bytes.subrange(3, bytes.len() as int);
        lemma_base64_shape(rest);
    }
}

/// Whether the padded Base64 length of `n` bytes fits in a `usize`.
pub open spec fn base64_length_fits(n: int) -> bool {
    4 * (n / 3) + (if n % 3 == 0 { 0int } else { 4int }) <= usize::MAX
}

/// The lowercase hexadecimal digit of `v` (for `0 <= v < 16`).
pub open spec fn hex_digit(v: int) -> char {
    if v < 10 {
        (48 + v) as char
    } else {
        (97 + (v - 10)) as char
    }
}

/// The 32 lowercase hexadecimal digits of `value`, most significant first.
pub open spec fn hex128(value: u128) -> Seq<char> {
    Seq::new(32, |i: int| hex_digit((value as int / pow(16, (31 - i) as nat)) % 16))
}

/// The hyphenated form `xxxxxxxx-xxxx-xxxx-xxxx-xxxxxxxxxxxx` of the UUID whose
/// big-endian 128-bit value is `value`.
pub open spec fn uuid_hyphenated(value: u128) -> Seq<char> {
    let digits = hex128(value);
    digits.subrange(0, 8) + seq!['-'] + digits.subrange(8, 12) + seq!['-'] + digits.subrange(12, 16)
        + seq!['-'] + digits.subrange(16, 20) + seq!['-'] + digits.subrange(20, 32)
}

} // verus!
