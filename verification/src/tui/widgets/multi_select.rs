//! Multi-select list: each row can be toggled.
use vstd::prelude::*;
use crate::tui::keys::{KeyCode, KeyEvent};

verus! {

/// A multi-select list as it is drawn.
pub struct MultiSelect<'a> {
    pub items: &'a [&'a str],
    pub selected: &'a [bool],
    pub cursor: usize,
    pub focused: bool,
}

#[derive(Debug, Clone, PartialEq, Eq)]
pub enum MultiSelectKeyOutcome {
    /// The key was not used.
    Ignored,
    CursorMoved(usize),
    Toggled(usize),
    SelectAll,
    SelectNone,
}

/// What a key asks of a list of `len` rows with the cursor on `cursor`:
/// up/down (or `k`/`j`) move round the list, space toggles the row under
/// the cursor, `a` selects all and `n` none.
pub open spec fn multi_select_step(code: KeyCode, cursor: int, len: int) -> MultiSelectKeyOutcome {
    if len == 0 {
        MultiSelectKeyOutcome::Ignored
    } else {
        match code {
            KeyCode::Up | KeyCode::Char('k') => MultiSelectKeyOutcome::CursorMoved(
                (if cursor == 0 {
                    len - 1
                } else {
                    cursor - 1
                }) as usize,
            ),
            KeyCode::Down | KeyCode::Char('j') => MultiSelectKeyOutcome::CursorMoved(
                ((cursor + 1) % len) as usize,
            ),
            KeyCode::Char(' ') => MultiSelectKeyOutcome::Toggled(cursor as usize),
            KeyCode::Char('a') => MultiSelectKeyOutcome::SelectAll,
            KeyCode::Char('n') => MultiSelectKeyOutcome::SelectNone,
            _ => MultiSelectKeyOutcome::Ignored,
        }
    }
}

/// Reads a key for a multi-select list; the caller applies the outcome.
pub fn handle_multi_select_key(key: KeyEvent, cursor: usize, len: usize) -> (r:
    MultiSelectKeyOutcome)
    ensures
        r == multi_select_step(key.code, cursor as int, len as int),
{
    if len == 0 {
        return MultiSelectKeyOutcome::Ignored;
    }
    match key.code {
        KeyCode::Up | KeyCode::Char('k') => {
            let next = if cursor == 0 {
                len - 1
            } else {
                cursor - 1
            };
            MultiSelectKeyOutcome::CursorMoved(next)
        },
        KeyCode::Down | KeyCode::Char('j') => {
            let c = cursor % len;
            proof {
                vstd::arithmetic::div_mod::lemma_add_mod_noop(c as int, 1, len as int);
                vstd::arithmetic::div_mod::lemma_mod_twice(cursor as int, len as int);
                vstd::arithmetic::div_mod::lemma_add_mod_noop(cursor as int, 1, len as int);
            }
            MultiSelectKeyOutcome::CursorMoved((c + 1) % len)
        },
        KeyCode::Char(' ') => MultiSelectKeyOutcome::Toggled(cursor),
        KeyCode::Char('a') => MultiSelectKeyOutcome::SelectAll,
        KeyCode::Char('n') => MultiSelectKeyOutcome::SelectNone,
        _ => MultiSelectKeyOutcome::Ignored,
    }
}

} // verus!
