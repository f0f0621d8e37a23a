use vstd::prelude::*;

verus! {

/// One key combination, as delivered by the terminal.
#[derive(Clone, Copy, Debug, PartialEq, Eq, Hash, Structural)]
pub enum Key {
    Enter,
    Tab,
    Backspace,
    Esc,
    Left,
    Right,
    Up,
    Down,
    Ins,
    Delete,
    Home,
    End,
    PageUp,
    PageDown,
    /// A plain character key.
    Char(char),
    /// A character pressed together with Control.
    Ctrl(char),
    /// A character pressed together with Alt.
    Alt(char),
    /// No key: what an action is bound to when nothing triggers it directly.
    Null,
}

impl Key {
    /// The character a key would write into a text field, if any.
    pub open spec fn spec_to_char(self) -> Option<char> {
        match self {
            Key::Char(c) => Some(c),
            _ => None,
        }
    }

    /// The character this key writes into a text field: `Some` for a plain
    /// character key, `None` for every other key.
    pub fn to_char(&self) -> (r: Option<char>)
        ensures
            r == self.spec_to_char(),
    {
        match self {
            Key::Char(c) => Some(*c),
            _ => None,
        }
    }

    /// How the key is written in messages: its name, or its character with
    /// what is held down with it, between angle brackets.
    pub open spec fn text(self) -> Seq<char> {
        match self {
            Key::Enter => "<Enter>"@,
            Key::Tab => "<Tab>"@,
            Key::Backspace => "<Backspace>"@,
            Key::Esc => "<Esc>"@,
            Key::Left => "<Left>"@,
            Key::Right => "<Right>"@,
            Key::Up => "<Up>"@,
            Key::Down => "<Down>"@,
            Key::Ins => "<Ins>"@,
            Key::Delete => "<Delete>"@,
            Key::Home => "<Home>"@,
            Key::End => "<End>"@,
            Key::PageUp => "<PageUp>"@,
            Key::PageDown => "<PageDown>"@,
            Key::Char(c) => "<"@.push(c).push('>'),
            Key::Ctrl(c) => "<Ctrl+"@.push(c).push('>'),
            Key::Alt(c) => "<Alt+"@.push(c).push('>'),
            Key::Null => "<Null>"@,
        }
    }

    /// Writes the key as it stands in messages.
    pub fn to_string(&self) -> (r: String)
        ensures
            r@ == self.text(),
    {
        match self {
            Key::Enter => "<Enter>".to_owned(),
            Key::Tab => "<Tab>".to_owned(),
            Key::Backspace => "<Backspace>".to_owned(),
            Key::Esc => "<Esc>".to_owned(),
            Key::Left => "<Left>".to_owned(),
            Key::Right => "<Right>".to_owned(),
            Key::Up => "<Up>".to_owned(),
            Key::Down => "<Down>".to_owned(),
            Key::Ins => "<Ins>".to_owned(),
            Key::Delete => "<Delete>".to_owned(),
            Key::Home => "<Home>".to_owned(),
            Key::End => "<End>".to_owned(),
            Key::PageUp => "<PageUp>".to_owned(),
            Key::PageDown => "<PageDown>".to_owned(),
            Key::Char(c) => {
                let mut s = "<".to_owned();
                s.push(*c);
                s.push('>');
                s
            },
            Key::Ctrl(c) => {
                let mut s = "<Ctrl+".to_owned();
                s.push(*c);
                s.push('>');
                s
            },
            Key::Alt(c) => {
                let mut s = "<Alt+".to_owned();
                s.push(*c);
                s.push('>');
                s
            },
            Key::Null => "<Null>".to_owned(),
        }
    }

    /// Whether this key stands for a request to leave: Control-C, `q` or Escape.
    pub open spec fn spec_is_exit(self) -> bool {
        self == Key::Ctrl('c') || self == Key::Char('q') || self == Key::Esc
    }

    /// Tells whether this key is one of the conventional exit keys.
    pub fn is_exit(&self) -> (r: bool)
        ensures
            r == self.spec_is_exit(),
    {
        *self == Key::Ctrl('c') || *self == Key::Char('q') || *self == Key::Esc
    }
}

} // verus!
