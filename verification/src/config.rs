//! The options of one generation.

use vstd::prelude::*;

verus! {

/// What a [`Config`] holds, as mathematical values.
pub struct ConfigView {
    pub substitute: bool,
    pub include_special: bool,
    pub hex_value: bool,
    pub password_length: nat,
    pub number_chance: nat,
    pub words: Seq<Seq<char>>,
}

/// What to generate: a password of some length, with or without seed words,
/// or a hexadecimal string. Any length and any chance are accepted; a
/// chance of 99 or more leaves digits only.
#[derive(Debug)]
pub struct Config {
    /// If enabled similar looking characters or symbols will be used
    substitute: bool,
    /// Inclusion of special characters
    include_special: bool,
    /// Random hex value
    hex_value: bool,
    /// Length of password
    password_length: u8,
    /// Chance of number in password, in percent
    number_chance: u8,
    /// Words to use in password
    words: Vec<String>,
}

impl View for Config {
    type V = ConfigView;

    closed spec fn view(&self) -> ConfigView {
        ConfigView {
            substitute: self.substitute,
            include_special: self.include_special,
            hex_value: self.hex_value,
            password_length: self.password_length as nat,
            number_chance: self.number_chance as nat,
            words: self.words.deep_view(),
        }
    }
}

impl Config {
    pub fn new(
        substitute: bool,
        include_special: bool,
        hex_value: bool,
        password_length: u8,
        number_chance: u8,
        words: Vec<String>,
    ) -> (config: Self)
        ensures
            config@ == (ConfigView {
                substitute,
                include_special,
                hex_value,
                password_length: password_length as nat,
                number_chance: number_chance as nat,
                words: words.deep_view(),
            }),
    {
        Self { substitute, include_special, hex_value, password_length, number_chance, words }
    }

    pub fn substitute(&self) -> (on: bool)
        ensures
            on == self@.substitute,
    {
        self.substitute
    }

    pub fn include_special(&self) -> (on: bool)
        ensures
            on == self@.include_special,
    {
        self.include_special
    }

    pub fn hex_value(&self) -> (on: bool)
        ensures
            on == self@.hex_value,
    {
        self.hex_value
    }

    pub fn password_length(&self) -> (length: u8)
        ensures
            length == self@.password_length,
    {
        self.password_length
    }

    pub fn number_chance(&self) -> (chance: u8)
        ensures
            chance == self@.number_chance,
    {
        self.number_chance
    }

    pub fn words(&self) -> (words: &Vec<String>)
        ensures
            words.deep_view() == self@.words,
    {
        &self.words
    }
}

} // verus!
