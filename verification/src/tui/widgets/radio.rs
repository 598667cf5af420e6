//! Radio group: one choice out of a list of labels.
use vstd::prelude::*;
use crate::tui::keys::{KeyCode, KeyEvent};

verus! {

/// A radio group as it is drawn.
pub struct RadioGroup<'a> {
    pub options: &'a [&'a str],
    /// One description per option, drawn beside it.
    pub descriptions: Option<&'a [&'a str]>,
    /// Column, from the left of the area, where descriptions start.
    pub description_column: Option<u16>,
    /// Index of the saved choice, drawn as `(•)`.
    pub selected: usize,
    /// Whether the keyboard focus is inside the group.
    pub focused_within: bool,
    /// Row under the cursor when it is kept apart from the saved choice.
    pub cursor_row: Option<usize>,
}

impl<'a> RadioGroup<'a> {
    pub fn new(options: &'a [&'a str], selected: usize, focused_within: bool) -> (r: Self)
        ensures
            r.options == options,
            r.descriptions is None,
            r.description_column is None,
            r.selected == selected,
            r.focused_within == focused_within,
            r.cursor_row is None,
    {
        RadioGroup {
            options,
            descriptions: None,
            description_column: None,
            selected,
            focused_within,
            cursor_row: None,
        }
    }

    /// Keeps the cursor row apart from the saved choice: the highlight
    /// follows the cursor, the `(•)` stays on the saved value.
    pub fn with_cursor(self, cursor: usize) -> (r: Self)
        ensures
            r.cursor_row == Some(cursor),
            r.options == self.options,
            r.descriptions == self.descriptions,
            r.description_column == self.description_column,
            r.selected == self.selected,
            r.focused_within == self.focused_within,
    {
        RadioGroup { cursor_row: Some(cursor), ..self }
    }

    /// Attaches one description per option; a list of another length is
    /// ignored.
    pub fn with_descriptions(self, descriptions: &'a [&'a str]) -> (r: Self)
        ensures
            r.descriptions == if descriptions@.len() == self.options@.len() {
                Some(descriptions)
            } else {
                self.descriptions
            },
            r.options == self.options,
            r.description_column == self.description_column,
            r.selected == self.selected,
            r.focused_within == self.focused_within,
            r.cursor_row == self.cursor_row,
    {
        if descriptions.len() == self.options.len() {
            RadioGroup { descriptions: Some(descriptions), ..self }
        } else {
            self
        }
    }

    /// Pins the column where descriptions start.
    pub fn description_at_column(self, col: u16) -> (r: Self)
        ensures
            r.description_column == Some(col),
            r.options == self.options,
            r.descriptions == self.descriptions,
            r.selected == self.selected,
            r.focused_within == self.focused_within,
            r.cursor_row == self.cursor_row,
    {
        RadioGroup { description_column: Some(col), ..self }
    }

    /// Whether row `i` is drawn highlighted: only with the focus inside,
    /// on the cursor row when there is one, else on the saved choice.
    pub fn is_highlighted(&self, i: usize) -> (r: bool)
        ensures
            r == (self.focused_within && match self.cursor_row {
                Some(c) => c == i,
                None => i == self.selected,
            }),
    {
        self.focused_within && match self.cursor_row {
            Some(c) => c == i,
            None => i == self.selected,
        }
    }
}

/// The choice after a key: up (or `k`) and down (or `j`) move round the
/// list; any other key keeps it. An empty list gives 0.
pub open spec fn radio_step(code: KeyCode, current: int, len: int) -> int {
    if len == 0 {
        0
    } else {
        match code {
            KeyCode::Up | KeyCode::Char('k') => if current == 0 {
                len - 1
            } else {
                current - 1
            },
            KeyCode::Down | KeyCode::Char('j') => (current + 1) % len,
            _ => current,
        }
    }
}

/// Moves the choice of a radio group of `len` options.
pub fn handle_radio_key(key: KeyEvent, current: usize, len: usize) -> (r: usize)
    ensures
        r == radio_step(key.code, current as int, len as int),
{
    if len == 0 {
        return 0;
    }
    match key.code {
        KeyCode::Up | KeyCode::Char('k') => {
            if current == 0 {
                len - 1
            } else {
                current - 1
            }
        },
        KeyCode::Down | KeyCode::Char('j') => {
            let c = current % len;
            proof {
                vstd::arithmetic::div_mod::lemma_add_mod_noop(c as int, 1, len as int);
                vstd::arithmetic::div_mod::lemma_mod_twice(current as int, len as int);
                vstd::arithmetic::div_mod::lemma_add_mod_noop(current as int, 1, len as int);
            }
            (c + 1) % len
        },
        _ => current,
    }
}

/// Down then up (or up then down) lands on the same option.
pub proof fn lemma_radio_down_up(current: int, len: int)
    requires
        0 <= current < len,
    ensures
        radio_step(KeyCode::Up, radio_step(KeyCode::Down, current, len), len) == current,
        radio_step(KeyCode::Down, radio_step(KeyCode::Up, current, len), len) == current,
{
    if current + 1 < len {
        vstd::arithmetic::div_mod::lemma_small_mod((current + 1) as nat, len as nat);
    } else {
        vstd::arithmetic::div_mod::lemma_mod_self_0(len);
    }
    if current == 0 {
        vstd::arithmetic::div_mod::lemma_mod_self_0(len);
    } else {
        vstd::arithmetic::div_mod::lemma_small_mod(current as nat, len as nat);
    }
}

} // verus!
