//! Building the string: seed words first, random characters after them.

use crate::alphabet::{
    alphabet, alphabet_is_ascii, allowed_chars, digit_char, hex_char, is_decimal_digit,
    is_hex_digit,
};
use crate::config::{Config, ConfigView};
use crate::random::{draw_below, flip_coin};
use crate::substitution::{
    ascii_stays_ascii, is_ascii, lower_head, lowercase_head, modify_word, substitute_all,
    substitute_char, substitution,
};
use crate::text::push_char;
use vstd::prelude::*;

verus! {

/// The seed of a configuration: its words, joined in order with nothing
/// between them.
pub open spec fn seed(config: ConfigView) -> Seq<char> {
    config.words.flatten()
}

/// The seed as it is written into a password: substituted where the
/// configuration asks for substitution, else as it is.
pub open spec fn written_seed(substitute: bool, seed: Seq<char>) -> Seq<char> {
    if substitute {
        substitute_all(seed)
    } else {
        seed
    }
}

/// The character written for one pick from the alphabet: substituted where
/// asked, then kept as it is on `upper`, else turned to lower case.
pub open spec fn symbol(substitute: bool, picked: char, upper: bool) -> char {
    let shown = if substitute {
        substitution(picked)
    } else {
        picked
    };
    if upper {
        shown
    } else {
        lower_head(shown)
    }
}

/// Whether a draw asks for a symbol of the alphabet rather than a digit.
pub open spec fn asks_symbol(number_chance: nat, draw: nat) -> bool {
    number_chance < draw
}

/// Whether any draw from 0 to 99 asks for a symbol.
pub open spec fn symbol_in_reach(number_chance: nat) -> bool {
    exists|draw: nat| draw < 100 && #[trigger] asks_symbol(number_chance, draw)
}

/// What a random position may hold: a decimal digit, or, where some draw
/// asks for a symbol, the written form of some character of the alphabet.
pub open spec fn may_fill(config: ConfigView, chars: Seq<char>, c: char) -> bool {
    ||| is_decimal_digit(c)
    ||| symbol_in_reach(config.number_chance) && exists|i: int, upper: bool|
        0 <= i < chars.len() && c == #[trigger] symbol(config.substitute, chars[i], upper)
}

/// What filling a seed up to the configured length gives: the written seed,
/// then random positions up to that length.
pub open spec fn filled_up(
    config: ConfigView,
    chars: Seq<char>,
    seed: Seq<char>,
    out: Seq<char>,
) -> bool {
    &&& out.len() == config.password_length
    &&& out.subrange(0, seed.len() as int) == written_seed(config.substitute, seed)
    &&& forall|k: int| seed.len() <= k < out.len() ==> may_fill(config, chars, #[trigger] out[k])
}

/// Whether every character is a hexadecimal digit in lower case.
pub open spec fn all_hex(text: Seq<char>) -> bool {
    forall|k: int| 0 <= k < text.len() ==> is_hex_digit(#[trigger] text[k])
}

/// Joins the words into the seed. There is no seed where there are no words,
/// or only empty ones.
pub fn string_from_words(words: &Vec<String>) -> (joined: Option<String>)
    ensures
        match joined {
            Some(text) => text@ == words.deep_view().flatten() && text@.len() > 0,
            None => words.deep_view().flatten().len() == 0,
        },
{
    if words.len() > 0 {
        let mut result = String::new();
        let mut i: usize = 0;
        while i < words.len()
            invariant
                i <= words.len(),
                result@ == words.deep_view().subrange(0, i as int).flatten(),
            decreases words.len() - i,
        {
            result.append(words[i].as_str());
            proof {
                let all = words.deep_view();
                assert(all.subrange(0, i + 1) == all.subrange(0, i as int).push(words[i as int]@));
                all.subrange(0, i as int).lemma_flatten_push(words[i as int]@);
            }
            i += 1;
        }
        assert(words.deep_view().subrange(0, i as int) == words.deep_view());
        if !result.as_str().is_empty() {
            Some(result)
        } else {
            None
        }
    } else {
        None
    }
}

/// Decides what a position gets from a draw out of 0 to 99: a symbol where
/// the draw is above the number chance, else a digit.
pub fn wants_symbol(number_chance: u8, draw: usize) -> (symbol: bool)
    ensures
        symbol == asks_symbol(number_chance as nat, draw as nat),
{
    (number_chance as usize) < draw
}

/// The character written for the pick `chars[index]`.
pub fn symbol_char(substitute: bool, chars: &[char], index: usize, upper: bool) -> (out: char)
    requires
        index < chars@.len(),
    ensures
        out == symbol(substitute, chars@[index as int], upper),
{
    let mut ch = chars[index];
    if substitute {
        ch = substitute_char(ch);
    }
    if upper {
        ch
    } else {
        lowercase_head(ch)
    }
}

/// Draws `length` random characters. Each is a digit with the configured
/// chance, and else a symbol of `chars`, substituted where asked and in
/// either case. `chars` may be empty only where no symbol can be asked for.
pub fn generate_password(config: &Config, chars: &[char], length: usize) -> (out: String)
    requires
        length > 0 && symbol_in_reach(config@.number_chance) ==> chars@.len() > 0,
    ensures
        out@.len() == length,
        forall|k: int| 0 <= k < out@.len() ==> may_fill(config@, chars@, #[trigger] out@[k]),
{
    let mut result = String::new();
    let chars_len = chars.len();
    let mut rng = rand::thread_rng();
    let mut filled: usize = 0;
    while filled < length
        invariant
            chars_len == chars@.len(),
            length > 0 && symbol_in_reach(config@.number_chance) ==> chars_len > 0,
            filled <= length,
            result@.len() == filled,
            forall|k: int|
                0 <= k < result@.len() ==> may_fill(config@, chars@, #[trigger] result@[k]),
        decreases length - filled,
    {
        let draw = draw_below(&mut rng, 100);
        let next = if wants_symbol(config.number_chance(), draw) {
            let index = draw_below(&mut rng, chars_len);
            let upper = flip_coin();
            symbol_char(config.substitute(), chars, index, upper)
        } else {
            let number = draw_below(&mut rng, 10);
            digit_char(number as u8)
        };
        push_char(&mut result, next);
        filled += 1;
    }
    result
}

/// Draws a hexadecimal string of the configured length, in lower case.
pub fn generate_hex_number(config: &Config) -> (out: String)
    ensures
        out@.len() == config@.password_length,
        all_hex(out@),
{
    let length = config.password_length() as usize;
    let mut result = String::new();
    let mut rng = rand::thread_rng();
    let mut filled: usize = 0;
    while filled < length
        invariant
            filled <= length,
            result@.len() == filled,
            all_hex(result@),
        decreases length - filled,
    {
        let number = draw_below(&mut rng, 16);
        push_char(&mut result, hex_char(number as u8));
        filled += 1;
    }
    result
}

/// Fills a seed up to the configured length. A seed that is already that long
/// is returned as it came: it is not cut, not substituted, and nothing is
/// drawn. A shorter one is substituted where asked and followed by random
/// characters.
pub fn password_with_words(word: String, config: &Config, allowed_chars: &Vec<char>) -> (out:
    String)
    requires
        word@.len() < config@.password_length && symbol_in_reach(config@.number_chance)
            ==> allowed_chars@.len() > 0,
    ensures
        word@.len() >= config@.password_length ==> out@ == word@,
        word@.len() < config@.password_length ==> filled_up(config@, allowed_chars@, word@, out@),
{
    let word_len = word.as_str().unicode_len();
    let wanted = config.password_length() as usize;
    if word_len < wanted {
        let random_pass = generate_password(config, allowed_chars.as_slice(), wanted - word_len);
        let new_word = if config.substitute() {
            modify_word(word)
        } else {
            word
        };
        let out = new_word.concat(random_pass.as_str());
        assert(out@.subrange(0, word_len as int) == new_word@);
        assert forall|k: int| word_len <= k < out@.len() implies may_fill(
            config@,
            allowed_chars@,
            #[trigger] out@[k],
        ) by {
            assert(out@[k] == random_pass@[k - word_len]);
        }
        out
    } else {
        word
    }
}

/// Generates the string that a configuration asks for.
///
/// In hex mode every other option but the length is ignored. Otherwise the
/// seed comes first. A seed at least as long as the configured length is the
/// whole result, unchanged, so the result may be longer than asked for.
/// A shorter seed, or none, is filled up with random characters to exactly the
/// configured length.
pub fn generate(config: &Config) -> (out: String)
    ensures
        config@.hex_value ==> out@.len() == config@.password_length && all_hex(out@),
        !config@.hex_value && config@.words.len() == 0 ==> out@.len() == config@.password_length,
        !config@.hex_value && seed(config@).len() < config@.password_length ==> out@.len()
            == config@.password_length,
        !config@.hex_value && seed(config@).len() < config@.password_length ==> filled_up(
            config@,
            alphabet(config@.include_special),
            seed(config@),
            out@,
        ),
        !config@.hex_value && seed(config@).len() >= config@.password_length ==> out@ == seed(
            config@,
        ),
{
    if config.hex_value() {
        generate_hex_number(config)
    } else {
        let allowed_chars = allowed_chars(config.include_special());
        match string_from_words(config.words()) {
            Some(words) => password_with_words(words, config, &allowed_chars),
            None => {
                let out = generate_password(
                    config,
                    allowed_chars.as_slice(),
                    config.password_length() as usize,
                );
                assert(out@.subrange(0, 0) == written_seed(config@.substitute, seed(config@)));
                out
            },
        }
    }
}

/// A draw from 0 to 99 can ask for a symbol exactly where the number chance
/// is below 99.
pub proof fn symbol_in_reach_below_99(number_chance: nat)
    ensures
        symbol_in_reach(number_chance) <==> number_chance < 99,
{
    if number_chance < 99 {
        assert(asks_symbol(number_chance, 99));
    }
}

/// With a number chance of 99 or more every random position holds a digit.
pub proof fn full_chance_fills_digits(config: ConfigView, chars: Seq<char>, c: char)
    requires
        may_fill(config, chars, c),
        config.number_chance >= 99,
    ensures
        is_decimal_digit(c),
{
    symbol_in_reach_below_99(config.number_chance);
}

/// Over the allowed alphabet every random position holds an ASCII character,
/// whatever the options.
pub proof fn filled_from_alphabet_is_ascii(config: ConfigView, c: char)
    requires
        may_fill(config, alphabet(config.include_special), c),
    ensures
        is_ascii(c),
{
    if !is_decimal_digit(c) {
        let chars = alphabet(config.include_special);
        let (i, upper) = choose|i: int, upper: bool|
            0 <= i < chars.len() && c == #[trigger] symbol(config.substitute, chars[i], upper);
        alphabet_is_ascii(config.include_special, i);
        ascii_stays_ascii(chars[i]);
        ascii_stays_ascii(substitution(chars[i]));
    }
}

} // verus!
