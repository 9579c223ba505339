//! Password and hexadecimal string generation.
//!
//! A [`Config`] says what is wanted and [`generate`] builds the string: the
//! seed words first, then random characters up to the length asked for.
//! Every length in this crate is a number of characters.

pub mod alphabet;
pub mod config;
pub mod generator;
pub mod random;
pub mod substitution;
pub mod text;

pub use alphabet::{SPECIAL_CHARS, VALID_CHARS};
pub use config::Config;
pub use generator::{
    generate, generate_hex_number, generate_password, password_with_words, string_from_words,
};
pub use substitution::{modify_word, substitute_char};
