//! The wrapper tab: the challenge and minimum severity used when commands
//! run through the wrapper, each either inherited from the global setting
//! or set for the wrapper alone.
use vstd::prelude::*;
use crate::text::{concat_str, owned};
use crate::tui::check_form::{challenge_index, challenge_of};
use crate::tui::custom_check::{Challenge, Severity};
use crate::tui::keys::{KeyCode, KeyEvent};
use crate::tui::tabs::general::{
    challenge_from_index, challenge_index_exec, min_severity_from_index, min_severity_index,
    min_severity_index_exec, min_severity_of,
};
use crate::tui::tabs::{focus_with, FieldFocus, FocusModel, TabOutcome, TabResult};

verus! {

pub const SECTION_OVR_CHALLENGE: usize = 0;

pub const SECTION_OVR_MIN_SEV: usize = 1;

pub const NUM_SECTIONS: usize = 2;

#[derive(Debug)]
pub struct WrapTab {
    pub cursor: usize,
    pub edit: Option<EditState>,
    /// The focus shown after the last edit ended.
    pub cached_focus: FieldFocus,
}

impl Default for WrapTab {
    fn default() -> (r: Self)
        ensures
            r.cursor == 0,
            r.edit is None,
    {
        WrapTab { cursor: 0, edit: None, cached_focus: FieldFocus::default() }
    }
}

/// The override being edited, with the radio cursor (0 is "inherit").
#[derive(Debug, Clone, Copy, PartialEq, Eq, Structural)]
pub enum EditState {
    OvrChallenge(usize),
    OvrMinSev(usize),
}

/// A wrapper setting: the global value, or one of its own.
#[derive(Debug, Clone, Copy, PartialEq, Eq)]
pub enum InheritOr<T> {
    Inherit,
    Value(T),
}

/// The wrapper's own challenge and minimum severity.
#[derive(Debug, Clone, Copy)]
pub struct ModeOverrides {
    pub challenge: InheritOr<Challenge>,
    pub min_severity: InheritOr<Option<Severity>>,
}

pub open spec fn challenge_choice(c: InheritOr<Challenge>) -> int {
    match c {
        InheritOr::Inherit => 0,
        InheritOr::Value(v) => challenge_index(v) + 1,
    }
}

pub open spec fn min_severity_choice(s: InheritOr<Option<Severity>>) -> int {
    match s {
        InheritOr::Inherit => 0,
        InheritOr::Value(v) => min_severity_index(v) + 1,
    }
}

pub open spec fn section_title_of(s: int) -> Seq<char> {
    if s == 0 {
        "Challenge override (Wrap)"@
    } else if s == 1 {
        "Min severity override (Wrap)"@
    } else {
        ""@
    }
}

pub open spec fn wrap_focus(cursor: int, editing: bool) -> FocusModel {
    if editing {
        FocusModel {
            name: "Editing: "@ + section_title_of(cursor),
            badges: seq!["wrap"@],
            help: "↑↓ navigate · Enter commit/exit · Esc cancel"@,
        }
    } else {
        FocusModel {
            name: section_title_of(cursor),
            badges: seq!["wrap"@],
            help: "↑↓ select section · Enter to edit."@,
        }
    }
}

pub open spec fn initial_edit(cursor: int, o: ModeOverrides) -> EditState {
    if cursor == SECTION_OVR_MIN_SEV {
        EditState::OvrMinSev(min_severity_choice(o.min_severity) as usize)
    } else if cursor == SECTION_OVR_CHALLENGE {
        EditState::OvrChallenge(challenge_choice(o.challenge) as usize)
    } else {
        EditState::OvrChallenge(0)
    }
}

/// The radio choice `i` of an override: 0 inherits, `1 + k` sets option
/// `k`.
pub open spec fn challenge_at(i: int) -> InheritOr<Challenge> {
    if i == 0 {
        InheritOr::Inherit
    } else {
        InheritOr::Value(challenge_of(i - 1))
    }
}

pub open spec fn min_severity_at(i: int) -> InheritOr<Option<Severity>> {
    if i == 0 {
        InheritOr::Inherit
    } else {
        InheritOr::Value(min_severity_of(i - 1))
    }
}

/// A key in the wrapper tab: browsing moves between the two overrides;
/// inside one, arrows move the radio cursor, space sets the choice under
/// it, Enter leaves, Esc or Left leave too.
pub open spec fn wrap_step(cursor: int, edit: Option<EditState>, o: ModeOverrides, code: KeyCode) -> (
    int,
    Option<EditState>,
    ModeOverrides,
    TabResult,
) {
    match edit {
        None => if code is Up || code == KeyCode::Char('k') {
            if cursor > 0 {
                (cursor - 1, None, o, TabResult::FocusChanged(wrap_focus(cursor - 1, false)))
            } else {
                (cursor, None, o, TabResult::Ignored)
            }
        } else if code is Down || code == KeyCode::Char('j') {
            if cursor + 1 < NUM_SECTIONS {
                (cursor + 1, None, o, TabResult::FocusChanged(wrap_focus(cursor + 1, false)))
            } else {
                (cursor, None, o, TabResult::Ignored)
            }
        } else if code is Enter {
            (
                cursor,
                Some(initial_edit(cursor, o)),
                o,
                TabResult::FocusChanged(wrap_focus(cursor, true)),
            )
        } else {
            (cursor, None, o, TabResult::Ignored)
        },
        Some(st) => if code is Esc || code is Left || code == KeyCode::Char('h') {
            (cursor, None, o, TabResult::FocusChanged(wrap_focus(cursor, false)))
        } else if code is Enter {
            (cursor, None, o, TabResult::FocusChanged(wrap_focus(cursor, false)))
        } else {
            let (i, total) = match st {
                EditState::OvrChallenge(i) => (i as int, 4int),
                EditState::OvrMinSev(i) => (i as int, 7int),
            };
            let i2 = if code is Up || code == KeyCode::Char('k') {
                if i > 0 {
                    i - 1
                } else {
                    i
                }
            } else if code is Down || code == KeyCode::Char('j') {
                if i + 1 < total {
                    i + 1
                } else {
                    i
                }
            } else {
                i
            };
            let st2 = match st {
                EditState::OvrChallenge(_) => EditState::OvrChallenge(i2 as usize),
                EditState::OvrMinSev(_) => EditState::OvrMinSev(i2 as usize),
            };
            if code == KeyCode::Char(' ') {
                match st {
                    EditState::OvrChallenge(_) => if o.challenge != challenge_at(i) {
                        (
                            cursor,
                            Some(st2),
                            ModeOverrides { challenge: challenge_at(i), ..o },
                            TabResult::Mutated,
                        )
                    } else {
                        (cursor, Some(st2), o, TabResult::Ignored)
                    },
                    EditState::OvrMinSev(_) => if o.min_severity != min_severity_at(i) {
                        (
                            cursor,
                            Some(st2),
                            ModeOverrides { min_severity: min_severity_at(i), ..o },
                            TabResult::Mutated,
                        )
                    } else {
                        (cursor, Some(st2), o, TabResult::Ignored)
                    },
                }
            } else {
                (cursor, Some(st2), o, TabResult::Ignored)
            }
        },
    }
}

fn same_challenge(a: InheritOr<Challenge>, b: InheritOr<Challenge>) -> (r: bool)
    ensures
        r == (a == b),
{
    match (a, b) {
        (InheritOr::Inherit, InheritOr::Inherit) => true,
        (InheritOr::Value(x), InheritOr::Value(y)) => x == y,
        _ => false,
    }
}

fn same_min_severity(a: InheritOr<Option<Severity>>, b: InheritOr<Option<Severity>>) -> (r: bool)
    ensures
        r == (a == b),
{
    match (a, b) {
        (InheritOr::Inherit, InheritOr::Inherit) => true,
        (InheritOr::Value(x), InheritOr::Value(y)) => x == y,
        _ => false,
    }
}

pub fn section_title(s: usize) -> (r: &'static str)
    ensures
        r@ == section_title_of(s as int),
{
    match s {
        0 => "Challenge override (Wrap)",
        1 => "Min severity override (Wrap)",
        _ => "",
    }
}

pub open spec fn section_blurb_of(s: int) -> Seq<char> {
    if s == 0 {
        "Override the global Challenge type for Wrap mode."@
    } else if s == 1 {
        "Override the global Minimum severity for Wrap mode."@
    } else {
        ""@
    }
}

/// One line explaining each section.
pub fn section_blurb(s: usize) -> (r: &'static str)
    ensures
        r@ == section_blurb_of(s as int),
{
    match s {
        0 => "Override the global Challenge type for Wrap mode.",
        1 => "Override the global Minimum severity for Wrap mode.",
        _ => "",
    }
}

impl WrapTab {
    /// The focused field's description.
    pub fn current_focus(&self) -> (r: FieldFocus)
        ensures
            r@ == wrap_focus(self.cursor as int, self.edit is Some),
    {
        let title = section_title(self.cursor);
        if self.edit.is_some() {
            focus_with(
                concat_str("Editing: ", title),
                "wrap",
                "↑↓ navigate · Enter commit/exit · Esc cancel",
            )
        } else {
            focus_with(owned(title), "wrap", "↑↓ select section · Enter to edit.")
        }
    }

    /// The focus shown when an edit ends (and cached): the section's own
    /// description with its editing help.
    pub fn compute_focus(&self) -> (r: FieldFocus)
        ensures
            r@.name == if self.edit is Some {
                "Editing: "@ + section_title_of(self.cursor as int)
            } else {
                section_title_of(self.cursor as int)
            },
            r@.badges == seq!["wrap"@],
            r@.help == if self.edit is Some {
                "↑↓ navigate · Space to select · Enter to exit · Esc to exit"@
            } else {
                "↑↓ select section · Enter to edit."@
            },
    {
        let title = section_title(self.cursor);
        if self.edit.is_some() {
            focus_with(
                concat_str("Editing: ", title),
                "wrap",
                "↑↓ navigate · Space to select · Enter to exit · Esc to exit",
            )
        } else {
            focus_with(owned(title), "wrap", "↑↓ select section · Enter to edit.")
        }
    }

    /// The radio cursor an override starts on: its current choice.
    pub fn initial_edit_state(&self, o: &ModeOverrides) -> (r: EditState)
        ensures
            r == initial_edit(self.cursor as int, *o),
    {
        match self.cursor {
            SECTION_OVR_CHALLENGE => {
                let i = match o.challenge {
                    InheritOr::Inherit => 0,
                    InheritOr::Value(c) => challenge_index_exec(c) + 1,
                };
                EditState::OvrChallenge(i)
            },
            SECTION_OVR_MIN_SEV => {
                let i = match o.min_severity {
                    InheritOr::Inherit => 0,
                    InheritOr::Value(s) => min_severity_index_exec(s) + 1,
                };
                EditState::OvrMinSev(i)
            },
            _ => EditState::OvrChallenge(0),
        }
    }

    /// A key in the wrapper tab (see [`wrap_step`]).
    pub fn handle_key(&mut self, key: KeyEvent, o: &mut ModeOverrides) -> (r: TabOutcome)
        ensures
            ({
                let (cursor, edit, o2, res) = wrap_step(
                    old(self).cursor as int,
                    old(self).edit,
                    *old(o),
                    key.code,
                );
                &&& final(self).cursor == cursor
                &&& final(self).edit == edit
                &&& *final(o) == o2
                &&& r@ == res
            }),
    {
        let code = key.code;
        let mut taken: Option<EditState> = None;
        std::mem::swap(&mut taken, &mut self.edit);
        match taken {
            None => {
                if code == KeyCode::Up || code == KeyCode::Char('k') {
                    if self.cursor > 0 {
                        self.cursor = self.cursor - 1;
                        return TabOutcome::FieldFocusChanged(self.current_focus());
                    }
                    TabOutcome::Ignored
                } else if code == KeyCode::Down || code == KeyCode::Char('j') {
                    if self.cursor < NUM_SECTIONS - 1 {
                        self.cursor = self.cursor + 1;
                        return TabOutcome::FieldFocusChanged(self.current_focus());
                    }
                    TabOutcome::Ignored
                } else if code == KeyCode::Enter {
                    self.edit = Some(self.initial_edit_state(o));
                    TabOutcome::FieldFocusChanged(self.current_focus())
                } else {
                    TabOutcome::Ignored
                }
            },
            Some(st) => {
                if code == KeyCode::Esc || code == KeyCode::Left || code == KeyCode::Char('h') {
                    return TabOutcome::FieldFocusChanged(self.current_focus());
                }
                if code == KeyCode::Enter {
                    self.cached_focus = self.compute_focus();
                    return TabOutcome::FieldFocusChanged(self.current_focus());
                }
                let (i, total) = match st {
                    EditState::OvrChallenge(i) => (i, 4usize),
                    EditState::OvrMinSev(i) => (i, 7usize),
                };
                let i2 = if code == KeyCode::Up || code == KeyCode::Char('k') {
                    if i > 0 {
                        i - 1
                    } else {
                        i
                    }
                } else if code == KeyCode::Down || code == KeyCode::Char('j') {
                    if i < total - 1 {
                        i + 1
                    } else {
                        i
                    }
                } else {
                    i
                };
                let st2 = match st {
                    EditState::OvrChallenge(_) => EditState::OvrChallenge(i2),
                    EditState::OvrMinSev(_) => EditState::OvrMinSev(i2),
                };
                self.edit = Some(st2);
                if code == KeyCode::Char(' ') {
                    match st {
                        EditState::OvrChallenge(_) => {
                            let v = if i == 0 {
                                InheritOr::Inherit
                            } else {
                                InheritOr::Value(challenge_from_index(i - 1))
                            };
                            if !same_challenge(o.challenge, v) {
                                o.challenge = v;
                                return TabOutcome::Mutated;
                            }
                            TabOutcome::Ignored
                        },
                        EditState::OvrMinSev(_) => {
                            let v = if i == 0 {
                                InheritOr::Inherit
                            } else {
                                InheritOr::Value(min_severity_from_index(i - 1))
                            };
                            if !same_min_severity(o.min_severity, v) {
                                o.min_severity = v;
                                return TabOutcome::Mutated;
                            }
                            TabOutcome::Ignored
                        },
                    }
                } else {
                    TabOutcome::Ignored
                }
            },
        }
    }
}

} // verus!
