//! The look-alike substitution of characters, and the case mappings it rests on.

use crate::text::push_char;
use vstd::prelude::*;

verus! {

/// The characters that `char::to_uppercase` yields for `c`, in order.
pub uninterp spec fn unicode_uppercase(c: char) -> Seq<char>;

/// The characters that `char::to_lowercase` yields for `c`, in order.
pub uninterp spec fn unicode_lowercase(c: char) -> Seq<char>;

/// Calls `char::to_uppercase` and collects what the iterator yields. Nothing is
/// claimed of the mapping but that it depends on the character alone.
#[verifier::external_body]
fn uppercase_chars(c: char) -> (mapped: Vec<char>)
    ensures
        mapped@ == unicode_uppercase(c),
{
    c.to_uppercase().collect()
}

/// Calls `char::to_lowercase` and collects what the iterator yields. Nothing is
/// claimed of the mapping but that it depends on the character alone.
#[verifier::external_body]
fn lowercase_chars(c: char) -> (mapped: Vec<char>)
    ensures
        mapped@ == unicode_lowercase(c),
{
    c.to_lowercase().collect()
}

/// Whether a character lies in the ASCII range.
pub open spec fn is_ascii(c: char) -> bool {
    c <= '\u{7f}'
}

/// `a`..`z` go to `A`..`Z`; every other character stays.
pub open spec fn ascii_upper(c: char) -> char {
    if 'a' <= c <= 'z' {
        ((c as u32 - 32) as u8) as char
    } else {
        c
    }
}

/// `A`..`Z` go to `a`..`z`; every other character stays.
pub open spec fn ascii_lower(c: char) -> char {
    if 'A' <= c <= 'Z' {
        ((c as u32 + 32) as u8) as char
    } else {
        c
    }
}

/// The first character of `mapped`, or `fallback` where there is none.
pub open spec fn head_or(mapped: Seq<char>, fallback: char) -> char {
    if mapped.len() > 0 {
        mapped[0]
    } else {
        fallback
    }
}

/// The first character of the uppercase form of `c`.
pub open spec fn upper_head(c: char) -> char {
    if is_ascii(c) {
        ascii_upper(c)
    } else {
        head_or(unicode_uppercase(c), c)
    }
}

/// The first character of the lowercase form of `c`.
pub open spec fn lower_head(c: char) -> char {
    if is_ascii(c) {
        ascii_lower(c)
    } else {
        head_or(unicode_lowercase(c), c)
    }
}

/// The substitution table, keyed by digits and uppercase letters.
pub open spec fn table(key: char) -> Option<char> {
    match key {
        '0' => Some('O'),
        '1' => Some('L'),
        '2' => Some('Z'),
        '3' => Some('E'),
        '4' => Some('A'),
        '5' => Some('S'),
        '6' => Some('B'),
        '7' => Some('L'),
        '8' => Some('B'),
        '9' => Some('G'),
        'A' => Some('4'),
        'B' => Some('8'),
        'C' => Some('U'),
        'D' => Some('0'),
        'E' => Some('3'),
        'G' => Some('6'),
        'I' => Some('1'),
        'L' => Some('1'),
        'O' => Some('0'),
        'S' => Some('5'),
        'Z' => Some('2'),
        _ => None,
    }
}

/// What a character becomes under substitution: the table's entry for the
/// first character of its uppercase form, or the character itself where the
/// table has none.
pub open spec fn substitution(c: char) -> char {
    match table(upper_head(c)) {
        Some(look_alike) => look_alike,
        None => c,
    }
}

/// A word with every character substituted.
pub open spec fn substitute_all(word: Seq<char>) -> Seq<char> {
    word.map_values(|c: char| substitution(c))
}

/// The first character of `mapped`, or `fallback` where `mapped` is empty.
pub fn first_or(mapped: &Vec<char>, fallback: char) -> (head: char)
    ensures
        head == head_or(mapped@, fallback),
{
    if mapped.len() > 0 {
        mapped[0]
    } else {
        fallback
    }
}

/// The first character of the uppercase form of `ch`.
pub fn uppercase_head(ch: char) -> (head: char)
    ensures
        head == upper_head(ch),
{
    if ch <= '\u{7f}' {
        if 'a' <= ch && ch <= 'z' {
            let code: u32 = ch as u32;
            ((code - 32) as u8) as char
        } else {
            ch
        }
    } else {
        let mapped = uppercase_chars(ch);
        first_or(&mapped, ch)
    }
}

/// The first character of the lowercase form of `ch`.
pub fn lowercase_head(ch: char) -> (head: char)
    ensures
        head == lower_head(ch),
{
    if ch <= '\u{7f}' {
        if 'A' <= ch && ch <= 'Z' {
            let code: u32 = ch as u32;
            ((code + 32) as u8) as char
        } else {
            ch
        }
    } else {
        let mapped = lowercase_chars(ch);
        first_or(&mapped, ch)
    }
}

/// Replaces a character by its look-alike. Letters are looked up without
/// regard to case; a character without an entry is returned as it came.
pub fn substitute_char(ch: char) -> (out: char)
    ensures
        out == substitution(ch),
{
    match uppercase_head(ch) {
        '0' => 'O',
        '1' => 'L',
        '2' => 'Z',
        '3' => 'E',
        '4' => 'A',
        '5' => 'S',
        '6' => 'B',
        '7' => 'L',
        '8' => 'B',
        '9' => 'G',
        'A' => '4',
        'B' => '8',
        'C' => 'U',
        'D' => '0',
        'E' => '3',
        'G' => '6',
        'I' => '1',
        'L' => '1',
        'O' => '0',
        'S' => '5',
        'Z' => '2',
        _ => ch,
    }
}

/// Substitutes every character of a word, keeping their order and number.
pub fn modify_word(word: String) -> (out: String)
    ensures
        out@ == substitute_all(word@),
{
    let mut out = String::new();
    for ch in it: word.as_str().chars()
        invariant
            it.seq() == word@,
            out@ == substitute_all(word@.subrange(0, it.index() as int)),
    {
        push_char(&mut out, substitute_char(ch));
    }
    out
}

/// Substitution and either case mapping keep an ASCII character within ASCII.
pub proof fn ascii_stays_ascii(c: char)
    requires
        is_ascii(c),
    ensures
        is_ascii(substitution(c)),
        is_ascii(upper_head(c)),
        is_ascii(lower_head(c)),
{
}

/// Substitution is not idempotent: some character changes again when it is
/// substituted a second time.
pub proof fn substitution_is_not_idempotent()
    ensures
        exists|c: char| substitution(#[trigger] substitution(c)) != substitution(c),
{
    assert(substitution('E') == '3');
    assert(substitution(substitution('E')) == 'E');
}

} // verus!
