//! The characters that a password is drawn from, and the digit symbols.

use vstd::prelude::*;

verus! {

/// The letters of the alphabet.
pub const VALID_CHARS: [char; 26] = [
    'A', 'B', 'C', 'D', 'E', 'F', 'G', 'H', 'I', 'J', 'K', 'L', 'M', 'N', 'O', 'P', 'Q', 'R', 'S',
    'T', 'U', 'V', 'W', 'X', 'Y', 'Z',
];

/// The special symbols of the alphabet.
pub const SPECIAL_CHARS: [char; 28] = [
    '~', '`', '!', '@', '#', '$', '%', '^', '&', '*', '(', ')', '-', '_', '=', '+', '[', ']', '{',
    '}', ';', ':', '\'', '"', '\\', '|', '/', '?',
];

/// The digit symbols, by value.
pub const HEX_DIGITS: [char; 16] = [
    '0', '1', '2', '3', '4', '5', '6', '7', '8', '9', 'a', 'b', 'c', 'd', 'e', 'f',
];

/// The allowed alphabet: the uppercase letters, followed by the special
/// symbols where those are wanted. It holds no digit.
pub open spec fn alphabet(include_special: bool) -> Seq<char> {
    if include_special {
        VALID_CHARS@ + SPECIAL_CHARS@
    } else {
        VALID_CHARS@
    }
}

/// Whether a character is one of `0` to `9`.
pub open spec fn is_decimal_digit(c: char) -> bool {
    '0' <= c <= '9'
}

/// Whether a character is one of `0` to `9` or `a` to `f`.
pub open spec fn is_hex_digit(c: char) -> bool {
    '0' <= c <= '9' || 'a' <= c <= 'f'
}

/// Builds the allowed alphabet.
pub fn allowed_chars(include_special: bool) -> (chars: Vec<char>)
    ensures
        chars@ == alphabet(include_special),
{
    let mut chars: Vec<char> = Vec::new();
    for i in 0..26usize
        invariant
            chars@ == VALID_CHARS@.subrange(0, i as int),
    {
        chars.push(VALID_CHARS[i]);
    }
    if include_special {
        for i in 0..28usize
            invariant
                chars@ == VALID_CHARS@ + SPECIAL_CHARS@.subrange(0, i as int),
        {
            chars.push(SPECIAL_CHARS[i]);
        }
    }
    chars
}

/// The symbol of a decimal digit.
pub fn digit_char(value: u8) -> (symbol: char)
    requires
        value < 10,
    ensures
        symbol as int == '0' as int + value,
        is_decimal_digit(symbol),
{
    HEX_DIGITS[value as usize]
}

/// The symbol of a hexadecimal digit, in lower case.
pub fn hex_char(value: u8) -> (symbol: char)
    requires
        value < 16,
    ensures
        symbol == HEX_DIGITS@[value as int],
        is_hex_digit(symbol),
{
    HEX_DIGITS[value as usize]
}

/// The allowed alphabet holds no digit: digits enter a password only by the
/// number chance.
pub proof fn alphabet_holds_no_digit(include_special: bool, i: int)
    requires
        0 <= i < alphabet(include_special).len(),
    ensures
        !is_decimal_digit(alphabet(include_special)[i]),
{
    if i >= 26 {
        assert(alphabet(include_special)[i] == SPECIAL_CHARS@[i - 26]);
    }
}

/// Every character of the allowed alphabet is an ASCII character.
pub proof fn alphabet_is_ascii(include_special: bool, i: int)
    requires
        0 <= i < alphabet(include_special).len(),
    ensures
        alphabet(include_special)[i] <= '\u{7f}',
{
    if i >= 26 {
        assert(alphabet(include_special)[i] == SPECIAL_CHARS@[i - 26]);
    }
}

} // verus!
