use easy_pass::alphabet::{allowed_chars, digit_char, hex_char, HEX_DIGITS};
use easy_pass::generator::{symbol_char, wants_symbol};
use easy_pass::{
    generate, generate_hex_number, generate_password, password_with_words, string_from_words,
    Config, SPECIAL_CHARS, VALID_CHARS,
};

fn test_config() -> Config {
    Config::new(
        false,
        false,
        false,
        20,
        30,
        vec!["one".to_string(), "two".to_string(), "three".to_string()],
    )
}

fn is_hex(c: char) -> bool {
    ('0'..='9').contains(&c) || ('a'..='f').contains(&c)
}

#[test]
fn correct_length() {
    let config = test_config();
    let password = generate_password(&config, &VALID_CHARS, config.password_length() as usize);
    println!("Generated password: {}", password);
    assert_eq!(password.len(), config.password_length() as usize);
}

#[test]
fn hex_number() {
    let config = test_config();
    let number = generate_hex_number(&config);
    assert_eq!(number.len(), config.password_length() as usize);
}

#[test]
fn total_length_of_words() {
    let config = test_config();
    let seed = string_from_words(config.words()).unwrap();
    assert_eq!(seed.len(), 11);
}

#[test]
fn config_keeps_what_it_was_given() {
    let config = Config::new(true, false, true, 7, 42, vec!["a".to_string(), "bc".to_string()]);
    assert!(config.substitute());
    assert!(!config.include_special());
    assert!(config.hex_value());
    assert_eq!(config.password_length(), 7);
    assert_eq!(config.number_chance(), 42);
    assert_eq!(config.words(), &vec!["a".to_string(), "bc".to_string()]);
}

#[test]
fn alphabet_is_letters_then_specials() {
    let plain = allowed_chars(false);
    assert_eq!(plain, VALID_CHARS.to_vec());
    assert_eq!(plain.len(), 26);
    let full = allowed_chars(true);
    assert_eq!(full.len(), 54);
    assert_eq!(&full[..26], &VALID_CHARS[..]);
    assert_eq!(&full[26..], &SPECIAL_CHARS[..]);
    assert!(full.iter().all(|c| !c.is_ascii_digit()));
}

#[test]
fn digit_symbols() {
    assert_eq!(digit_char(0), '0');
    assert_eq!(digit_char(7), '7');
    assert_eq!(digit_char(9), '9');
    assert_eq!(hex_char(0), '0');
    assert_eq!(hex_char(9), '9');
    assert_eq!(hex_char(10), 'a');
    assert_eq!(hex_char(15), 'f');
    assert_eq!(HEX_DIGITS.len(), 16);
}

#[test]
fn seed_joins_words_in_order() {
    let words = vec!["ab".to_string(), String::new(), "cd".to_string()];
    assert_eq!(string_from_words(&words), Some("abcd".to_string()));
}

#[test]
fn no_seed_without_words() {
    assert_eq!(string_from_words(&Vec::new()), None);
    assert_eq!(string_from_words(&vec![String::new(), String::new()]), None);
}

#[test]
fn draw_above_the_chance_wants_a_symbol() {
    assert!(wants_symbol(30, 31));
    assert!(!wants_symbol(30, 30));
    assert!(!wants_symbol(30, 0));
    assert!(wants_symbol(0, 1));
    assert!(!wants_symbol(0, 0));
    assert!(wants_symbol(98, 99));
    assert!(!wants_symbol(99, 99));
    assert!(!wants_symbol(100, 99));
    assert!(!wants_symbol(255, 99));
}

#[test]
fn symbol_follows_substitution_and_case() {
    assert_eq!(symbol_char(false, &VALID_CHARS, 4, true), 'E');
    assert_eq!(symbol_char(false, &VALID_CHARS, 4, false), 'e');
    assert_eq!(symbol_char(true, &VALID_CHARS, 4, true), '3');
    assert_eq!(symbol_char(true, &VALID_CHARS, 4, false), '3');
    assert_eq!(symbol_char(true, &VALID_CHARS, 2, false), 'u');
    assert_eq!(symbol_char(true, &VALID_CHARS, 5, false), 'f');
    assert_eq!(symbol_char(true, &SPECIAL_CHARS, 0, false), '~');
    assert_eq!(symbol_char(false, &['\u{c9}'], 0, false), '\u{e9}');
}

#[test]
fn random_fragment_has_the_length_asked_for() {
    let config = Config::new(true, true, false, 20, 30, Vec::new());
    for length in [0usize, 1, 2, 17, 255, 1000] {
        let fragment = generate_password(&config, &allowed_chars(true), length);
        assert_eq!(fragment.chars().count(), length);
        assert!(fragment.is_ascii());
    }
}

#[test]
fn random_fragment_stays_within_its_characters() {
    let config = Config::new(false, false, false, 20, 30, Vec::new());
    let fragment = generate_password(&config, &['Q'], 400);
    assert_eq!(fragment.len(), 400);
    assert!(fragment.chars().all(|c| c == 'Q' || c == 'q' || c.is_ascii_digit()));

    let substituted = Config::new(true, false, false, 20, 30, Vec::new());
    let fragment = generate_password(&substituted, &['E'], 400);
    assert!(fragment.chars().all(|c| c.is_ascii_digit()));
}

#[test]
fn full_number_chance_gives_digits_only() {
    for chance in [99u8, 100, 255] {
        let config = Config::new(false, true, false, 50, chance, Vec::new());
        let password = generate(&config);
        assert_eq!(password.len(), 50);
        assert!(password.chars().all(|c| c.is_ascii_digit()));
    }
}

#[test]
fn password_without_words_has_the_configured_length() {
    for length in [0u8, 1, 20, 255] {
        for special in [false, true] {
            let config = Config::new(true, special, false, length, 30, Vec::new());
            assert_eq!(generate(&config).chars().count(), length as usize);
            let blank = Config::new(false, special, false, length, 0, vec![String::new()]);
            assert_eq!(generate(&blank).chars().count(), length as usize);
        }
    }
}

#[test]
fn short_seed_is_filled_up() {
    let config = test_config();
    let password = generate(&config);
    assert_eq!(password.len(), 20);
    assert_eq!(&password[..11], "onetwothree");
    let allowed = |c: char| c.is_ascii_alphabetic() || c.is_ascii_digit();
    assert!(password[11..].chars().all(allowed));
}

#[test]
fn short_seed_is_substituted_when_asked() {
    let words = vec!["one".to_string(), "two".to_string(), "three".to_string()];
    let config = Config::new(true, false, false, 20, 30, words);
    let password = generate(&config);
    assert_eq!(password.len(), 20);
    assert_eq!(&password[..11], "0n3tw0thr33");
}

#[test]
fn long_seed_is_returned_verbatim() {
    let words = vec!["abcdefghij".to_string(), "klmno".to_string()];
    for substitute in [false, true] {
        let config = Config::new(substitute, true, false, 10, 30, words.clone());
        assert_eq!(generate(&config), "abcdefghijklmno");
    }
    let exact = Config::new(true, false, false, 15, 30, words);
    assert_eq!(generate(&exact), "abcdefghijklmno");
}

#[test]
fn seed_length_counts_characters() {
    let words = vec!["\u{e9}t\u{e9}".to_string()];
    let config = Config::new(false, false, false, 5, 30, words);
    let password = generate(&config);
    assert_eq!(password.chars().count(), 5);
    assert!(password.starts_with("\u{e9}t\u{e9}"));
}

#[test]
fn password_with_words_fills_or_keeps() {
    let config = Config::new(false, false, false, 6, 30, Vec::new());
    let chars = allowed_chars(false);
    let filled = password_with_words("abc".to_string(), &config, &chars);
    assert_eq!(filled.len(), 6);
    assert!(filled.starts_with("abc"));
    let kept = password_with_words("abcdef".to_string(), &config, &chars);
    assert_eq!(kept, "abcdef");
    let longer = password_with_words("abcdefgh".to_string(), &config, &chars);
    assert_eq!(longer, "abcdefgh");
}

#[test]
fn hex_mode_gives_hex_digits() {
    let config = Config::new(false, false, true, 8, 30, Vec::new());
    let number = generate(&config);
    assert_eq!(number.len(), 8);
    assert!(number.chars().all(is_hex));
}

#[test]
fn hex_mode_ignores_the_other_options() {
    let words = vec!["abcdefghij".to_string(), "klmno".to_string()];
    let config = Config::new(true, true, true, 12, 100, words);
    let number = generate(&config);
    assert_eq!(number.len(), 12);
    assert!(number.chars().all(is_hex));
    let empty = Config::new(false, false, true, 0, 30, Vec::new());
    assert_eq!(generate(&empty), "");
}
