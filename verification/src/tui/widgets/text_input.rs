//! A single-line text input: its text, its cursor, and what a key does to
//! them (`tui_input`'s editing rules).
use vstd::prelude::*;
use crate::text::str_chars;
use crate::tui::keys::{KeyCode, KeyEvent};
use crossterm::event::{Event as CtEvent, KeyCode as CtCode, KeyEvent as CtKey, KeyModifiers as CtMods};
use tui_input::backend::crossterm::EventHandler;
use tui_input::Input;

verus! {

#[derive(Debug, PartialEq, Eq)]
pub enum TextInputOutcome {
    /// The key was not used.
    Ignored,
    Changed,
    Submitted(String),
    Cancelled,
}

/// Name for what `tui_input::Input::handle_event` makes of a key on a text
/// whose cursor (a character index) is `cursor`: the new text, the new
/// cursor, and whether either changed.
pub uninterp spec fn text_edit(
    value: Seq<char>,
    cursor: nat,
    code: KeyCode,
    shift: bool,
    control: bool,
    alt: bool,
) -> (Seq<char>, nat, bool);

/// `tui_input::Input::handle_event` on a text and cursor, with the key
/// turned into crossterm's (the handler acts on the editing keys kept here
/// and answers nothing to any other, which is passed as a null key).
/// Claims that the result is the name above and, as `tui_input` documents,
/// that a character typed without Ctrl or Alt is inserted at the cursor,
/// which moves past it.
#[verifier::external_body]
pub fn edit_text(value: &str, cursor: usize, key: KeyEvent) -> (r: (String, usize, bool))
    ensures
        (r.0@, r.1 as nat, r.2) == text_edit(
            value@,
            cursor as nat,
            key.code,
            key.modifiers.shift,
            key.modifiers.control,
            key.modifiers.alt,
        ),
        (key.code matches KeyCode::Char(c) && !key.modifiers.control && !key.modifiers.alt
            && cursor <= value@.len()) ==> r.0@ == value@.take(cursor as int) + seq![
            key.code->Char_0] + value@.skip(cursor as int) && r.1 == cursor + 1 && r.2,
{
    let code = match key.code {
        KeyCode::Backspace => CtCode::Backspace, KeyCode::Delete => CtCode::Delete,
        KeyCode::Left => CtCode::Left, KeyCode::Right => CtCode::Right, KeyCode::Home => CtCode::Home,
        KeyCode::End => CtCode::End, KeyCode::Char(c) => CtCode::Char(c), _ => CtCode::Null,
    };
    let m = key.modifiers;
    let mods = CtMods::from_bits_truncate(m.shift as u8 | (m.control as u8) << 1 | (m.alt as u8) << 2);
    let mut input = Input::new(value.to_string()).with_cursor(cursor);
    let changed = input.handle_event(&CtEvent::Key(CtKey::new(code, mods))).is_some();
    (input.value().to_string(), input.cursor(), changed)
}

/// A text and a cursor into it (a character index).
#[derive(Debug, Clone)]
pub struct TextInput {
    pub value: String,
    pub cursor: usize,
}

impl Default for TextInput {
    fn default() -> (r: Self)
        ensures
            r.value@ == Seq::<char>::empty(),
            r.cursor == 0,
    {
        TextInput { value: String::new(), cursor: 0 }
    }
}

/// What a key does to a text input (other than Enter and Esc).
pub open spec fn edit_of(value: Seq<char>, cursor: usize, key: KeyEvent) -> (Seq<char>, nat, bool) {
    text_edit(value, cursor as nat, key.code, key.modifiers.shift, key.modifiers.control, key.modifiers.alt)
}

impl TextInput {
    /// A text input holding `s`, the cursor at its end.
    pub fn with_value(s: &str) -> (r: Self)
        ensures
            r.value@ == s@,
            r.cursor == s@.len(),
    {
        let n = str_chars(s).len();
        TextInput { value: s.to_string(), cursor: n }
    }

    pub fn value(&self) -> (r: &str)
        ensures
            r@ == self.value@,
    {
        self.value.as_str()
    }

    /// Applies an editing key; true when the text or the cursor moved.
    pub fn edit(&mut self, key: KeyEvent) -> (r: bool)
        ensures
            ({
                let (v, c, ch) = edit_of(old(self).value@, old(self).cursor, key);
                &&& final(self).value@ == v
                &&& final(self).cursor as nat == c
                &&& r == ch
            }),
    {
        let (v, c, ch) = edit_text(self.value.as_str(), self.cursor, key);
        self.value = v;
        self.cursor = c;
        ch
    }

    /// Enter submits the text, Esc cancels, any other key edits it:
    /// `Changed` when the text or the cursor moved.
    pub fn handle(&mut self, key: KeyEvent) -> (r: TextInputOutcome)
        ensures
            key.code is Enter ==> (r matches TextInputOutcome::Submitted(s) && s@ == old(self).value@)
                && final(self).value@ == old(self).value@ && final(self).cursor == old(self).cursor,
            key.code is Esc ==> r == TextInputOutcome::Cancelled && final(self).value@ == old(
                self,
            ).value@ && final(self).cursor == old(self).cursor,
            !(key.code is Enter) && !(key.code is Esc) ==> ({
                let (v, c, ch) = edit_of(old(self).value@, old(self).cursor, key);
                &&& final(self).value@ == v
                &&& final(self).cursor as nat == c
                &&& r == if ch {
                    TextInputOutcome::Changed
                } else {
                    TextInputOutcome::Ignored
                }
            }),
    {
        match key.code {
            KeyCode::Enter => TextInputOutcome::Submitted(self.value.clone()),
            KeyCode::Esc => TextInputOutcome::Cancelled,
            _ => {
                if self.edit(key) {
                    TextInputOutcome::Changed
                } else {
                    TextInputOutcome::Ignored
                }
            },
        }
    }
}

} // verus!
