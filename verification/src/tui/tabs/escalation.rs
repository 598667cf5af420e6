//! The escalation tab: a switch for severity escalation and the matrix of
//! the challenge asked at each severity.
use vstd::prelude::*;
use crate::text::owned;
use crate::tui::check_form::{challenge_index, challenge_of};
use crate::tui::custom_check::Challenge;
use crate::tui::keys::{KeyCode, KeyEvent};
use crate::tui::tabs::general::{challenge_from_index, challenge_index_exec};
use crate::tui::tabs::{focus_with, FieldFocus, FocusModel, TabOutcome, TabResult};

verus! {

pub const SECTION_TOGGLE: usize = 0;

pub const SECTION_MATRIX: usize = 1;

pub const NUM_SECTIONS: usize = 2;

/// Rows of the matrix, from the most severe.
pub const MATRIX_ROWS: usize = 5;

#[derive(Debug)]
pub struct EscalationTab {
    pub section: usize,
    pub edit: Option<EditState>,
    /// One past the matrix row last edited (kept for callers reading it).
    pub row: usize,
    pub col: usize,
}

impl Default for EscalationTab {
    fn default() -> (r: Self)
        ensures
            r.section == 0,
            r.edit is None,
            r.row == 0,
            r.col == 0,
    {
        EscalationTab { section: 0, edit: None, row: 0, col: 0 }
    }
}

/// Cursor in the severity-by-challenge matrix.
#[derive(Debug, Clone, Copy, PartialEq, Eq, Structural)]
pub struct EditState {
    pub matrix_row: usize,
    pub matrix_col: usize,
}

/// Whether escalation is on, and the challenge for each severity.
#[derive(Debug, Clone, Copy, PartialEq, Eq, Structural)]
pub struct SeverityEscalation {
    pub enabled: bool,
    pub critical: Challenge,
    pub high: Challenge,
    pub medium: Challenge,
    pub low: Challenge,
    pub info: Challenge,
}

/// The challenge in row `row` (0 critical, ..., 4 and beyond info).
pub open spec fn cell(e: SeverityEscalation, row: int) -> Challenge {
    if row == 0 {
        e.critical
    } else if row == 1 {
        e.high
    } else if row == 2 {
        e.medium
    } else if row == 3 {
        e.low
    } else {
        e.info
    }
}

pub open spec fn with_cell(e: SeverityEscalation, row: int, c: Challenge) -> SeverityEscalation {
    if row == 0 {
        SeverityEscalation { critical: c, ..e }
    } else if row == 1 {
        SeverityEscalation { high: c, ..e }
    } else if row == 2 {
        SeverityEscalation { medium: c, ..e }
    } else if row == 3 {
        SeverityEscalation { low: c, ..e }
    } else {
        SeverityEscalation { info: c, ..e }
    }
}

pub fn read_cell(e: &SeverityEscalation, row: usize) -> (r: Challenge)
    ensures
        r == cell(*e, row as int),
{
    match row {
        0 => e.critical,
        1 => e.high,
        2 => e.medium,
        3 => e.low,
        _ => e.info,
    }
}

pub fn write_cell(e: &mut SeverityEscalation, row: usize, c: Challenge)
    ensures
        *final(e) == with_cell(*old(e), row as int, c),
{
    match row {
        0 => e.critical = c,
        1 => e.high = c,
        2 => e.medium = c,
        3 => e.low = c,
        _ => e.info = c,
    }
}

/// Writing a cell and reading it back gives the value written; the other
/// cells and the switch are untouched.
pub proof fn lemma_cell_write_read(e: SeverityEscalation, row: int, other: int, c: Challenge)
    requires
        0 <= row < MATRIX_ROWS,
        0 <= other < MATRIX_ROWS,
        other != row,
    ensures
        cell(with_cell(e, row, c), row) == c,
        cell(with_cell(e, row, c), other) == cell(e, other),
        with_cell(e, row, c).enabled == e.enabled,
{
}

pub open spec fn escalation_focus(section: int, editing: bool) -> FocusModel {
    if editing {
        if section == 0 {
            FocusModel {
                name: "Editing: Severity escalation"@,
                badges: seq!["all"@],
                help: "Space to toggle · Enter to exit · Esc to exit"@,
            }
        } else if section == 1 {
            FocusModel {
                name: "Editing: Severity → Challenge"@,
                badges: seq!["all"@],
                help: "↑↓ severity · ←→ challenge · Space to set · Enter to exit · Esc to exit"@,
            }
        } else {
            FocusModel { name: ""@, badges: seq!["all"@], help: ""@ }
        }
    } else {
        if section == 0 {
            FocusModel {
                name: "Severity escalation"@,
                badges: seq!["all"@],
                help: "↑↓ select section · Enter to edit."@,
            }
        } else if section == 1 {
            FocusModel {
                name: "Severity → Challenge"@,
                badges: seq!["all"@],
                help: "↑↓ select section · Enter to edit."@,
            }
        } else {
            FocusModel { name: ""@, badges: seq!["all"@], help: ""@ }
        }
    }
}

/// The tab after a key, as (section, edit state, row, col), with the
/// escalation settings and the outcome.
pub open spec fn escalation_step(
    t: (int, Option<EditState>, int, int),
    e: SeverityEscalation,
    code: KeyCode,
) -> ((int, Option<EditState>, int, int), SeverityEscalation, TabResult) {
    let (section, edit, row, col) = t;
    match edit {
        None => match code {
            KeyCode::Up | KeyCode::Char('k') => if section > 0 {
                (
                    (section - 1, None, row, col),
                    e,
                    TabResult::FocusChanged(escalation_focus(section - 1, false)),
                )
            } else {
                (t, e, TabResult::Ignored)
            },
            KeyCode::Down | KeyCode::Char('j') => if section + 1 < NUM_SECTIONS {
                (
                    (section + 1, None, row, col),
                    e,
                    TabResult::FocusChanged(escalation_focus(section + 1, false)),
                )
            } else {
                (t, e, TabResult::Ignored)
            },
            KeyCode::Enter => (
                (
                    section,
                    Some(EditState { matrix_row: row as usize, matrix_col: col as usize }),
                    row,
                    col,
                ),
                e,
                TabResult::FocusChanged(escalation_focus(section, true)),
            ),
            _ => (t, e, TabResult::Ignored),
        },
        Some(st) => if code is Esc {
            ((section, None, row, col), e, TabResult::FocusChanged(escalation_focus(section, false)))
        } else if section == SECTION_TOGGLE {
            if code == KeyCode::Char(' ') {
                (t, SeverityEscalation { enabled: !e.enabled, ..e }, TabResult::Mutated)
            } else if code is Enter {
                (
                    (section, None, row, col),
                    e,
                    TabResult::FocusChanged(escalation_focus(section, false)),
                )
            } else {
                (t, e, TabResult::Ignored)
            }
        } else if section == SECTION_MATRIX {
            let r = st.matrix_row as int;
            let c = st.matrix_col as int;
            match code {
                KeyCode::Up | KeyCode::Char('k') => {
                    let (r2, c2) = if r > 0 {
                        (r - 1, challenge_index(cell(e, r - 1)))
                    } else {
                        (r, c)
                    };
                    (
                        (
                            section,
                            Some(EditState { matrix_row: r2 as usize, matrix_col: c2 as usize }),
                            r2 + 1,
                            c2,
                        ),
                        e,
                        TabResult::Ignored,
                    )
                },
                KeyCode::Down | KeyCode::Char('j') => {
                    let (r2, c2) = if r + 1 < MATRIX_ROWS {
                        (r + 1, challenge_index(cell(e, r + 1)))
                    } else {
                        (r, c)
                    };
                    (
                        (
                            section,
                            Some(EditState { matrix_row: r2 as usize, matrix_col: c2 as usize }),
                            r2 + 1,
                            c2,
                        ),
                        e,
                        TabResult::Ignored,
                    )
                },
                KeyCode::Left | KeyCode::Char('h') => {
                    let c2 = if c > 0 {
                        c - 1
                    } else {
                        c
                    };
                    (
                        (
                            section,
                            Some(EditState { matrix_row: r as usize, matrix_col: c2 as usize }),
                            r + 1,
                            c2,
                        ),
                        e,
                        TabResult::Consumed,
                    )
                },
                KeyCode::Right | KeyCode::Char('l') => {
                    let c2 = if c + 1 < 3 {
                        c + 1
                    } else {
                        c
                    };
                    (
                        (
                            section,
                            Some(EditState { matrix_row: r as usize, matrix_col: c2 as usize }),
                            r + 1,
                            c2,
                        ),
                        e,
                        TabResult::Consumed,
                    )
                },
                KeyCode::Char(' ') => {
                    let v = challenge_of(c);
                    if cell(e, r) != v {
                        ((section, Some(st), r + 1, c), with_cell(e, r, v), TabResult::Mutated)
                    } else {
                        ((section, Some(st), r + 1, c), e, TabResult::Ignored)
                    }
                },
                KeyCode::Enter => (
                    (section, None, r + 1, c),
                    e,
                    TabResult::FocusChanged(escalation_focus(section, false)),
                ),
                _ => ((section, Some(st), r + 1, c), e, TabResult::Ignored),
            }
        } else {
            (t, e, TabResult::Ignored)
        },
    }
}

impl EscalationTab {
    pub open spec fn state(&self) -> (int, Option<EditState>, int, int) {
        (self.section as int, self.edit, self.row as int, self.col as int)
    }

    /// The focused field's description.
    pub fn current_focus(&self) -> (r: FieldFocus)
        ensures
            r@ == escalation_focus(self.section as int, self.edit is Some),
    {
        if self.edit.is_some() {
            match self.section {
                0 => focus_with(
                    owned("Editing: Severity escalation"),
                    "all",
                    "Space to toggle · Enter to exit · Esc to exit",
                ),
                1 => focus_with(
                    owned("Editing: Severity → Challenge"),
                    "all",
                    "↑↓ severity · ←→ challenge · Space to set · Enter to exit · Esc to exit",
                ),
                _ => focus_with(owned(""), "all", ""),
            }
        } else {
            match self.section {
                0 => focus_with(
                    owned("Severity escalation"),
                    "all",
                    "↑↓ select section · Enter to edit.",
                ),
                1 => focus_with(
                    owned("Severity → Challenge"),
                    "all",
                    "↑↓ select section · Enter to edit.",
                ),
                _ => focus_with(owned(""), "all", ""),
            }
        }
    }

    /// A key in the escalation tab (see [`escalation_step`]).
    pub fn handle_key(&mut self, key: KeyEvent, e: &mut SeverityEscalation) -> (r: TabOutcome)
        requires
            old(self).edit matches Some(st) ==> st.matrix_row < usize::MAX,
        ensures
            ({
                let (t, e2, res) = escalation_step(old(self).state(), *old(e), key.code);
                &&& final(self).state() == t
                &&& *final(e) == e2
                &&& r@ == res
            }),
    {
        let code = key.code;
        match self.edit {
            None => match code {
                KeyCode::Up | KeyCode::Char('k') => {
                    if self.section > 0 {
                        self.section = self.section - 1;
                        return TabOutcome::FieldFocusChanged(self.current_focus());
                    }
                    TabOutcome::Ignored
                },
                KeyCode::Down | KeyCode::Char('j') => {
                    if self.section < NUM_SECTIONS - 1 {
                        self.section = self.section + 1;
                        return TabOutcome::FieldFocusChanged(self.current_focus());
                    }
                    TabOutcome::Ignored
                },
                KeyCode::Enter => {
                    self.edit = Some(EditState { matrix_row: self.row, matrix_col: self.col });
                    TabOutcome::FieldFocusChanged(self.current_focus())
                },
                _ => TabOutcome::Ignored,
            },
            Some(st) => {
                if code == KeyCode::Esc {
                    self.edit = None;
                    return TabOutcome::FieldFocusChanged(self.current_focus());
                }
                if self.section == SECTION_TOGGLE {
                    if code == KeyCode::Char(' ') {
                        e.enabled = !e.enabled;
                        return TabOutcome::Mutated;
                    } else if code == KeyCode::Enter {
                        self.edit = None;
                        return TabOutcome::FieldFocusChanged(self.current_focus());
                    } else {
                        return TabOutcome::Ignored;
                    }
                }
                if self.section != SECTION_MATRIX {
                    return TabOutcome::Ignored;
                }
                let mut state = st;
                match code {
                    KeyCode::Up | KeyCode::Char('k') => {
                        if state.matrix_row > 0 {
                            state.matrix_row = state.matrix_row - 1;
                            state.matrix_col = challenge_index_exec(read_cell(e, state.matrix_row));
                        }
                    },
                    KeyCode::Down | KeyCode::Char('j') => {
                        if state.matrix_row < MATRIX_ROWS - 1 {
                            state.matrix_row = state.matrix_row + 1;
                            state.matrix_col = challenge_index_exec(read_cell(e, state.matrix_row));
                        }
                    },
                    KeyCode::Left | KeyCode::Char('h') => {
                        if state.matrix_col > 0 {
                            state.matrix_col = state.matrix_col - 1;
                        }
                        self.row = state.matrix_row + 1;
                        self.col = state.matrix_col;
                        self.edit = Some(state);
                        return TabOutcome::Consumed;
                    },
                    KeyCode::Right | KeyCode::Char('l') => {
                        if state.matrix_col < 2 {
                            state.matrix_col = state.matrix_col + 1;
                        }
                        self.row = state.matrix_row + 1;
                        self.col = state.matrix_col;
                        self.edit = Some(state);
                        return TabOutcome::Consumed;
                    },
                    KeyCode::Char(' ') => {
                        let v = challenge_from_index(state.matrix_col);
                        let mutated = read_cell(e, state.matrix_row) != v;
                        if mutated {
                            write_cell(e, state.matrix_row, v);
                        }
                        self.row = state.matrix_row + 1;
                        self.col = state.matrix_col;
                        return if mutated {
                            TabOutcome::Mutated
                        } else {
                            TabOutcome::Ignored
                        };
                    },
                    KeyCode::Enter => {
                        self.row = state.matrix_row + 1;
                        self.col = state.matrix_col;
                        self.edit = None;
                        return TabOutcome::FieldFocusChanged(self.current_focus());
                    },
                    _ => {},
                }
                self.row = state.matrix_row + 1;
                self.col = state.matrix_col;
                self.edit = Some(state);
                TabOutcome::Ignored
            },
        }
    }
}

} // verus!
