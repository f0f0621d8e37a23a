use vstd::prelude::*;

verus! {

/// Which palette the interface is drawn with.
#[derive(Clone, Copy, Debug, PartialEq, Eq, Structural)]
pub enum ColorScheme {
    Dark,
    Light,
}

/// The policy by which secrets are generated for new records.
#[derive(Clone, Copy, Debug, PartialEq, Eq, Structural)]
pub struct PasswordOptions {
    pub length: u8,
    pub use_symbols: bool,
    pub use_spaces: bool,
    pub use_numbers: bool,
    pub use_uppercase: bool,
    pub use_lowercase: bool,
    pub exclude_similar_characters: bool,
}

/// The settings the vault runs with.
#[derive(Clone, Copy, Debug, PartialEq, Eq, Structural)]
pub struct Config {
    pub color_scheme: ColorScheme,
    pub password_options: PasswordOptions,
}

pub open spec fn is_digit(c: char) -> bool {
    '0' <= c <= '9'
}

pub open spec fn is_lowercase(c: char) -> bool {
    'a' <= c <= 'z'
}

pub open spec fn is_uppercase(c: char) -> bool {
    'A' <= c <= 'Z'
}

/// The ASCII punctuation characters.
pub open spec fn is_symbol(c: char) -> bool {
    ('!' <= c <= '/') || (':' <= c <= '@') || ('[' <= c <= '`') || ('{' <= c <= '~')
}

/// The characters that are easily mistaken for one another.
pub open spec fn is_similar(c: char) -> bool {
    c == 'i' || c == 'I' || c == '1' || c == 'l' || c == 'o' || c == 'O' || c == '0' || c == '"'
        || c == '\'' || c == '`' || c == '|'
}

impl PasswordOptions {
    /// The policy in force when no settings file says otherwise.
    pub open spec fn spec_default() -> PasswordOptions {
        PasswordOptions {
            length: 32,
            use_symbols: true,
            use_spaces: false,
            use_numbers: true,
            use_uppercase: true,
            use_lowercase: true,
            exclude_similar_characters: true,
        }
    }

    /// How many character classes the policy switches on.
    pub open spec fn enabled_classes(self) -> nat {
        (if self.use_numbers { 1nat } else { 0nat })
            + (if self.use_lowercase { 1nat } else { 0nat })
            + (if self.use_uppercase { 1nat } else { 0nat })
            + (if self.use_symbols { 1nat } else { 0nat })
            + (if self.use_spaces { 1nat } else { 0nat })
    }

    /// Whether a secret can be generated under this policy. It must have a
    /// character, and at least one class to draw from; where every class that
    /// is switched on must occur in it, it must have room for one character
    /// of each.
    pub open spec fn can_generate_with(self, every_class: bool) -> bool {
        &&& self.length >= 1
        &&& self.enabled_classes() >= 1
        &&& every_class ==> self.length >= self.enabled_classes()
    }

    /// Whether a secret can be generated under this policy in which every
    /// class that is switched on occurs.
    pub open spec fn can_generate(self) -> bool {
        self.can_generate_with(true)
    }

    /// Whether a character may occur in a secret generated under this policy.
    pub open spec fn admits_char(self, c: char) -> bool {
        &&& (self.use_numbers && is_digit(c)) || (self.use_lowercase && is_lowercase(c)) || (
        self.use_uppercase && is_uppercase(c)) || (self.use_symbols && is_symbol(c)) || (
        self.use_spaces && c == ' ')
        &&& self.exclude_similar_characters ==> !is_similar(c)
    }

    /// Whether a text has the length that the policy asks for and is made of
    /// admitted characters only.
    pub open spec fn composes(self, text: Seq<char>) -> bool {
        &&& text.len() == self.length
        &&& forall|i: int| 0 <= i < text.len() ==> self.admits_char(#[trigger] text[i])
    }

    /// Whether every class that the policy switches on occurs in a text.
    pub open spec fn covers(self, text: Seq<char>) -> bool {
        &&& self.use_numbers ==> exists|i: int| 0 <= i < text.len() && is_digit(#[trigger] text[i])
        &&& self.use_lowercase ==> exists|i: int|
            0 <= i < text.len() && is_lowercase(#[trigger] text[i])
        &&& self.use_uppercase ==> exists|i: int|
            0 <= i < text.len() && is_uppercase(#[trigger] text[i])
        &&& self.use_symbols ==> exists|i: int| 0 <= i < text.len() && is_symbol(#[trigger] text[i])
        &&& self.use_spaces ==> exists|i: int| 0 <= i < text.len() && #[trigger] text[i] == ' '
    }

    /// Whether a text is a secret as this policy asks for it: of the given
    /// length, made of admitted characters only, with every class that is
    /// switched on occurring in it.
    pub open spec fn admits(self, text: Seq<char>) -> bool {
        self.composes(text) && self.covers(text)
    }

    /// Decides whether a secret can be generated under this policy.
    pub fn is_usable(&self) -> (r: bool)
        ensures
            r == self.can_generate(),
    {
        let mut classes: u8 = 0;
        if self.use_numbers {
            classes = classes + 1;
        }
        if self.use_lowercase {
            classes = classes + 1;
        }
        if self.use_uppercase {
            classes = classes + 1;
        }
        if self.use_symbols {
            classes = classes + 1;
        }
        if self.use_spaces {
            classes = classes + 1;
        }
        classes >= 1 && self.length >= classes
    }
}

impl Default for PasswordOptions {
    fn default() -> (r: Self)
        ensures
            r == PasswordOptions::spec_default(),
    {
        PasswordOptions {
            length: 32,
            use_symbols: true,
            use_spaces: false,
            use_numbers: true,
            use_uppercase: true,
            use_lowercase: true,
            exclude_similar_characters: true,
        }
    }
}

impl Config {
    /// The settings in force when no settings file says otherwise: the dark
    /// palette and the default generation policy.
    pub open spec fn spec_default() -> Config {
        Config {
            color_scheme: ColorScheme::Dark,
            password_options: PasswordOptions::spec_default(),
        }
    }

    /// The default settings.
    pub fn new() -> (r: Self)
        ensures
            r == Config::spec_default(),
    {
        Config { color_scheme: ColorScheme::Dark, password_options: PasswordOptions::default() }
    }
}

impl Default for Config {
    fn default() -> (r: Self)
        ensures
            r == Config::spec_default(),
    {
        Config::new()
    }
}

} // verus!
