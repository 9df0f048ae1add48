//! Keys as the state machine sees them, and a single-line text field edited
//! by character position.

use vstd::prelude::*;
use crate::text::{all_blank, is_blank, string_of};

verus! {

/// A key press, with Ctrl-C told apart from everything else.
#[derive(Debug, Clone, Copy, PartialEq, Eq, Structural)]
pub enum Key {
    Char(char),
    Enter,
    Esc,
    Backspace,
    Delete,
    Left,
    Right,
    Up,
    Down,
    Home,
    End,
    Tab,
    CtrlC,
    Other,
}

/// Keys that edit a text field.
pub open spec fn is_edit_key(key: Key) -> bool {
    ||| key is Char
    ||| key is Backspace
    ||| key is Delete
    ||| key is Left
    ||| key is Right
    ||| key is Home
    ||| key is End
}

/// Whether `key` edits a text field.
pub fn is_edit_key_exec(key: Key) -> (r: bool)
    ensures
        r == is_edit_key(key),
{
    match key {
        Key::Char(_) | Key::Backspace | Key::Delete | Key::Left | Key::Right | Key::Home
        | Key::End => true,
        _ => false,
    }
}

/// Text and cursor after `key`: a character goes in at the cursor, backspace
/// takes the one before it, delete the one at it, Left/Right move by one
/// character within `[0, length]`, Home and End jump to the ends. A character
/// that would make the text longer than `usize` counts is ignored.
pub open spec fn edit_spec(chars: Seq<char>, cursor: int, key: Key) -> (Seq<char>, int) {
    match key {
        Key::Char(c) => if chars.len() < usize::MAX {
            (chars.insert(cursor, c), cursor + 1)
        } else {
            (chars, cursor)
        },
        Key::Backspace => if cursor > 0 {
            (chars.remove(cursor - 1), cursor - 1)
        } else {
            (chars, cursor)
        },
        Key::Delete => if cursor < chars.len() {
            (chars.remove(cursor), cursor)
        } else {
            (chars, cursor)
        },
        Key::Left => (chars, if cursor > 0 {
            cursor - 1
        } else {
            0
        }),
        Key::Right => (chars, if cursor < chars.len() {
            cursor + 1
        } else {
            cursor
        }),
        Key::Home => (chars, 0),
        Key::End => (chars, chars.len() as int),
        _ => (chars, cursor),
    }
}

/// A one-line text buffer with a cursor counted in characters.
#[derive(Debug, Clone)]
pub struct TextField {
    pub chars: Vec<char>,
    pub cursor: usize,
}

impl TextField {
    /// The cursor stays within the text.
    pub open spec fn wf(&self) -> bool {
        self.cursor <= self.chars@.len()
    }

    pub fn new() -> (r: TextField)
        ensures
            r.chars@.len() == 0,
            r.cursor == 0,
            r.wf(),
    {
        TextField { chars: Vec::new(), cursor: 0 }
    }

    /// Applies an editing key; returns whether the key was one.
    pub fn apply(&mut self, key: Key) -> (handled: bool)
        requires
            old(self).wf(),
        ensures
            final(self).wf(),
            handled == is_edit_key(key),
            (final(self).chars@, final(self).cursor as int) == edit_spec(
                old(self).chars@,
                old(self).cursor as int,
                key,
            ),
    {
        match key {
            Key::Char(c) => {
                if self.chars.len() < usize::MAX {
                    self.chars.insert(self.cursor, c);
                    self.cursor = self.cursor + 1;
                }
                true
            },
            Key::Backspace => {
                if self.cursor > 0 {
                    self.chars.remove(self.cursor - 1);
                    self.cursor = self.cursor - 1;
                }
                true
            },
            Key::Delete => {
                if self.cursor < self.chars.len() {
                    self.chars.remove(self.cursor);
                }
                true
            },
            Key::Left => {
                if self.cursor > 0 {
                    self.cursor = self.cursor - 1;
                }
                true
            },
            Key::Right => {
                if self.cursor < self.chars.len() {
                    self.cursor = self.cursor + 1;
                }
                true
            },
            Key::Home => {
                self.cursor = 0;
                true
            },
            Key::End => {
                self.cursor = self.chars.len();
                true
            },
            _ => false,
        }
    }

    /// Empties the text.
    pub fn clear(&mut self)
        ensures
            final(self).chars@.len() == 0,
            final(self).cursor == 0,
    {
        self.chars.clear();
        self.cursor = 0;
    }

    /// The text as a string.
    pub fn text(&self) -> (r: String)
        ensures
            r@ == self.chars@,
    {
        string_of(self.chars.as_slice())
    }

    /// Whether the text is empty or only whitespace.
    pub fn is_blank(&self) -> (r: bool)
        ensures
            r == is_blank(self.chars@),
    {
        all_blank(self.chars.as_slice())
    }
}

} // verus!
