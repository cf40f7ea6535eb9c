//! Keys as the interface sees them, what a key can ask of the program
//! around the interface, and line editing by key.
use vstd::prelude::*;
use crate::text::char_len;
use crate::tui::editing::{insert_at, remove_at};

verus! {

broadcast use vstd::string::group_string_axioms;

/// A key press, without modifiers.
#[derive(Debug, Clone, Copy, PartialEq, Eq, Structural)]
pub enum Key {
    Char(char),
    Enter,
    Esc,
    Tab,
    BackTab,
    Backspace,
    Up,
    Down,
    Left,
    Right,
    Other,
}

/// A key press and whether Control was held.
#[derive(Debug, Clone, Copy, PartialEq, Eq, Structural)]
pub struct KeyPress {
    pub key: Key,
    pub ctrl: bool,
}

/// What the interface asks of the program after a key.
#[derive(Debug, Clone, Copy, PartialEq, Eq, Structural)]
pub enum AppEvent {
    SendRequest,
    Quit,
    Idle,
}

/// Work a key leaves for the program around the interface: writing the
/// stored lists, and copying or saving the response body.
#[derive(Debug, Clone, Copy, PartialEq, Eq, Structural)]
pub struct Effects {
    pub save_history: bool,
    pub save_collections: bool,
    pub save_environments: bool,
    pub copy_response: bool,
    pub save_response: bool,
}

pub open spec fn no_effects() -> Effects {
    Effects {
        save_history: false,
        save_collections: false,
        save_environments: false,
        copy_response: false,
        save_response: false,
    }
}

impl Effects {
    pub fn none() -> (e: Effects)
        ensures
            e == no_effects(),
    {
        Effects {
            save_history: false,
            save_collections: false,
            save_environments: false,
            copy_response: false,
            save_response: false,
        }
    }
}

/// `c - 1`, or 0 at 0.
pub open spec fn dec(c: usize) -> usize {
    if c > 0 {
        (c - 1) as usize
    } else {
        0
    }
}

/// A one-line input and its cursor after a key: a character is inserted at
/// the cursor, Backspace deletes the character before it, Left and Right
/// move it within the text. Other keys change nothing.
pub open spec fn line_key(s: Seq<char>, c: usize, key: Key) -> (Seq<char>, usize) {
    match key {
        Key::Char(ch) => (s.take(c as int).push(ch) + s.skip(c as int), (c + 1) as usize),
        Key::Backspace => if c > 0 {
            (s.remove(c - 1), (c - 1) as usize)
        } else {
            (s, c)
        },
        Key::Left => (s, dec(c)),
        Key::Right => (s, if c < s.len() { (c + 1) as usize } else { c }),
        _ => (s, c),
    }
}

/// The keys that insert or delete at the cursor, and so need it within the
/// text.
pub open spec fn edits_at_cursor(key: Key) -> bool {
    key is Char || key is Backspace
}

/// Applies a key to a one-line input.
pub fn apply_line_key(s: &mut String, c: &mut usize, key: Key)
    requires
        edits_at_cursor(key) ==> *old(c) <= old(s)@.len(),
    ensures
        (final(s)@, *final(c)) == line_key(old(s)@, *old(c), key),
        *old(c) <= old(s)@.len() ==> *final(c) <= final(s)@.len(),
{
    match key {
        Key::Char(ch) => {
            insert_at(s, *c, ch);
            *c = *c + 1;
        },
        Key::Backspace => {
            if *c > 0 {
                remove_at(s, *c - 1);
                *c = *c - 1;
            }
        },
        Key::Left => {
            if *c > 0 {
                *c = *c - 1;
            }
        },
        Key::Right => {
            let n = char_len(s.as_str());
            if *c < n {
                *c = *c + 1;
            }
        },
        _ => {},
    }
}

} // verus!
