//! A one-line text field with a cursor, used by the search query and the
//! String editor.
use vstd::prelude::*;
use crate::pi_settings::keys::{KeyCode, KeyPress};
use crate::text::{chars_of, string_of};

verus! {

/// Characters the panel refuses to insert: C0 and C1 control characters
/// and DEL, which would corrupt the terminal display.
pub open spec fn spec_is_unsafe_display_char(c: char) -> bool {
    (c as u32) < 0x20 || ((c as u32) >= 0x7f && (c as u32) < 0xa0)
}

/// The characters of `s` that may be inserted into a field, in order.
pub open spec fn printable(s: Seq<char>) -> Seq<char>
    decreases s.len(),
{
    if s.len() == 0 {
        Seq::empty()
    } else if spec_is_unsafe_display_char(s.last()) {
        printable(s.drop_last())
    } else {
        printable(s.drop_last()).push(s.last())
    }
}

/// Whether `c` may be inserted into a field.
pub fn safe_char(c: char) -> (r: bool)
    ensures
        r == !spec_is_unsafe_display_char(c),
{
    let v: u32 = c as u32;
    !(v < 0x20 || (v >= 0x7f && v < 0xa0))
}

/// What an edit did.
#[derive(Debug, Clone, Copy, PartialEq, Eq, Structural)]
pub enum LineEditOutcome {
    TextChanged,
    CursorChanged,
    HandledNoChange,
    Unhandled,
}

/// Text and a cursor position, counted in characters.
#[derive(Debug, Clone)]
pub struct LineEditor {
    pub text: Vec<char>,
    pub cursor: usize,
}

/// What a key does to a field: its new text, its new cursor, and how the
/// key was taken. Printable characters insert at the cursor (control
/// characters are swallowed; Control or Alt chords are left to the caller);
/// Backspace and Delete remove around the cursor; the arrows, Home and End
/// move it; any other key is left to the caller.
pub open spec fn edited(e: LineEditor, key: KeyPress) -> (Seq<char>, int, LineEditOutcome) {
    let t = e.text@;
    let c = e.cursor as int;
    match key.code {
        KeyCode::Char(ch) => if key.modifiers.control || key.modifiers.alt {
            (t, c, LineEditOutcome::Unhandled)
        } else if spec_is_unsafe_display_char(ch) {
            (t, c, LineEditOutcome::HandledNoChange)
        } else {
            (t.insert(c, ch), c + 1, LineEditOutcome::TextChanged)
        },
        KeyCode::Backspace => if c > 0 {
            (t.remove(c - 1), c - 1, LineEditOutcome::TextChanged)
        } else {
            (t, c, LineEditOutcome::HandledNoChange)
        },
        KeyCode::Delete => if c < t.len() {
            (t.remove(c), c, LineEditOutcome::TextChanged)
        } else {
            (t, c, LineEditOutcome::HandledNoChange)
        },
        KeyCode::Left => if c > 0 {
            (t, c - 1, LineEditOutcome::CursorChanged)
        } else {
            (t, c, LineEditOutcome::HandledNoChange)
        },
        KeyCode::Right => if c < t.len() {
            (t, c + 1, LineEditOutcome::CursorChanged)
        } else {
            (t, c, LineEditOutcome::HandledNoChange)
        },
        KeyCode::Home => if c > 0 {
            (t, 0, LineEditOutcome::CursorChanged)
        } else {
            (t, c, LineEditOutcome::HandledNoChange)
        },
        KeyCode::End => if c < t.len() {
            (t, t.len() as int, LineEditOutcome::CursorChanged)
        } else {
            (t, c, LineEditOutcome::HandledNoChange)
        },
        _ => (t, c, LineEditOutcome::Unhandled),
    }
}

impl LineEditor {
    pub open spec fn wf(&self) -> bool {
        self.cursor <= self.text@.len()
    }

    /// An empty field.
    pub fn new() -> (r: LineEditor)
        ensures
            r.wf(),
            r.text@.len() == 0,
    {
        LineEditor { text: Vec::new(), cursor: 0 }
    }

    /// The text as a `String`.
    pub fn text_string(&self) -> (r: String)
        ensures
            r@ == self.text@,
    {
        string_of(&self.text)
    }

    /// Whether the field is empty.
    pub fn is_empty(&self) -> (r: bool)
        ensures
            r == (self.text@.len() == 0),
    {
        self.text.len() == 0
    }

    /// Replace the text; the cursor goes to its end.
    pub fn set_text(&mut self, t: &str)
        ensures
            final(self).wf(),
            final(self).text@ == t@,
            final(self).cursor == t@.len(),
    {
        self.text = chars_of(t);
        self.cursor = self.text.len();
    }

    /// Clear the field.
    pub fn reset(&mut self)
        ensures
            final(self).wf(),
            final(self).text@.len() == 0,
    {
        self.text = Vec::new();
        self.cursor = 0;
    }

    /// Insert `c` at the cursor and move past it.
    pub fn insert(&mut self, c: char)
        requires
            old(self).wf(),
        ensures
            final(self).wf(),
            final(self).text@ == old(self).text@.insert(old(self).cursor as int, c),
            final(self).cursor == old(self).cursor + 1,
    {
        self.text.insert(self.cursor, c);
        let n = self.text.len();
        assert(self.cursor < n);
        self.cursor = self.cursor + 1;
    }

    /// Delete the character before the cursor. Returns whether one was.
    pub fn delete_back(&mut self) -> (r: bool)
        requires
            old(self).wf(),
        ensures
            final(self).wf(),
            r == (old(self).cursor > 0),
            r ==> final(self).text@ == old(self).text@.remove(old(self).cursor - 1)
                && final(self).cursor == old(self).cursor - 1,
            !r ==> final(self).text@ == old(self).text@ && final(self).cursor == old(self).cursor,
    {
        if self.cursor == 0 {
            return false;
        }
        self.cursor = self.cursor - 1;
        self.text.remove(self.cursor);
        true
    }

    /// Delete the character under the cursor. Returns whether one was.
    pub fn delete_forward(&mut self) -> (r: bool)
        requires
            old(self).wf(),
        ensures
            final(self).wf(),
            r == (old(self).cursor < old(self).text@.len()),
            r ==> final(self).text@ == old(self).text@.remove(old(self).cursor as int),
            !r ==> final(self).text@ == old(self).text@,
            final(self).cursor == old(self).cursor,
    {
        if self.cursor >= self.text.len() {
            return false;
        }
        self.text.remove(self.cursor);
        true
    }

    /// Apply a key: printable characters (without Control or Alt) insert
    /// when safe, Backspace and Delete erase, the arrows, Home and End move
    /// the cursor. Anything else is left to the caller.
    pub fn handle_key(&mut self, key: &KeyPress) -> (r: LineEditOutcome)
        requires
            old(self).wf(),
        ensures
            final(self).wf(),
            (final(self).text@, final(self).cursor as int, r) == edited(*old(self), *key),
            r == LineEditOutcome::TextChanged <==> final(self).text@ != old(self).text@,
    {
        match key.code {
            KeyCode::Char(c) => {
                if key.modifiers.control || key.modifiers.alt {
                    return LineEditOutcome::Unhandled;
                }
                if !safe_char(c) {
                    return LineEditOutcome::HandledNoChange;
                }
                let ghost before = self.text@;
                self.insert(c);
                assert(self.text@.len() == before.len() + 1);
                LineEditOutcome::TextChanged
            },
            KeyCode::Backspace => {
                let ghost before = self.text@;
                if self.delete_back() {
                    assert(self.text@.len() + 1 == before.len());
                    LineEditOutcome::TextChanged
                } else {
                    LineEditOutcome::HandledNoChange
                }
            },
            KeyCode::Delete => {
                let ghost before = self.text@;
                if self.delete_forward() {
                    assert(self.text@.len() + 1 == before.len());
                    LineEditOutcome::TextChanged
                } else {
                    LineEditOutcome::HandledNoChange
                }
            },
            KeyCode::Left => {
                if self.cursor > 0 {
                    self.cursor = self.cursor - 1;
                    LineEditOutcome::CursorChanged
                } else {
                    LineEditOutcome::HandledNoChange
                }
            },
            KeyCode::Right => {
                if self.cursor < self.text.len() {
                    self.cursor = self.cursor + 1;
                    LineEditOutcome::CursorChanged
                } else {
                    LineEditOutcome::HandledNoChange
                }
            },
            KeyCode::Home => {
                if self.cursor > 0 {
                    self.cursor = 0;
                    LineEditOutcome::CursorChanged
                } else {
                    LineEditOutcome::HandledNoChange
                }
            },
            KeyCode::End => {
                if self.cursor < self.text.len() {
                    self.cursor = self.text.len();
                    LineEditOutcome::CursorChanged
                } else {
                    LineEditOutcome::HandledNoChange
                }
            },
            _ => LineEditOutcome::Unhandled,
        }
    }

    /// Insert the safe characters of `text` at the cursor, in order.
    pub fn insert_paste(&mut self, text: &str) -> (r: LineEditOutcome)
        requires
            old(self).wf(),
        ensures
            final(self).wf(),
            final(self).text@ == old(self).text@.take(old(self).cursor as int) + printable(text@)
                + old(self).text@.skip(old(self).cursor as int),
            final(self).cursor == old(self).cursor + printable(text@).len(),
            r == LineEditOutcome::TextChanged <==> final(self).text@ != old(self).text@,
            r != LineEditOutcome::Unhandled,
    {
        let chars = chars_of(text);
        let mut changed = false;
        let ghost start = self.text@;
        let ghost at = self.cursor as int;
        let mut i: usize = 0;
        while i < chars.len()
            invariant
                self.wf(),
                i <= chars@.len(),
                0 <= at <= start.len(),
                self.text@ == start.take(at) + printable(chars@.take(i as int)) + start.skip(at),
                self.cursor == at + printable(chars@.take(i as int)).len(),
                changed ==> self.text@.len() > start.len(),
                !changed ==> self.text@ == start,
            decreases chars.len() - i,
        {
            let ghost kept = printable(chars@.take(i as int));
            assert(chars@.take(i + 1).drop_last() =~= chars@.take(i as int));
            assert(chars@.take(i + 1).last() == chars@[i as int]);
            if safe_char(chars[i]) {
                self.insert(chars[i]);
                assert(self.text@ =~= start.take(at) + kept.push(chars@[i as int]) + start.skip(at));
                changed = true;
            }
            i = i + 1;
        }
        assert(chars@.take(chars@.len() as int) =~= chars@);
        if !changed {
            assert(start.take(at) + start.skip(at) =~= start);
        }
        if changed {
            LineEditOutcome::TextChanged
        } else {
            LineEditOutcome::HandledNoChange
        }
    }
}

} // verus!
