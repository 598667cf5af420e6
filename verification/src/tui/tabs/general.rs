//! The general tab: challenge type, minimum severity and behavior
//! switches. Browsing moves between sections; Enter drills into one, where
//! arrows move, space sets the value under the cursor, Enter or Esc leave.
use vstd::prelude::*;
use crate::text::owned;
use crate::tui::check_form::{challenge_index, challenge_of, severity_index, severity_of};
use crate::tui::custom_check::{Challenge, Severity};
use crate::tui::keys::{KeyCode, KeyEvent};
use crate::tui::tabs::{focus_with, FieldFocus, FocusModel, TabOutcome, TabResult};

verus! {

pub const SECTION_CHALLENGE: usize = 0;

pub const SECTION_SEVERITY: usize = 1;

pub const SECTION_BEHAVIOR: usize = 2;

pub const NUM_SECTIONS: usize = 3;

#[derive(Debug)]
pub struct GeneralTab {
    /// The section header under the cursor.
    pub section: usize,
    /// `None` while browsing; the row inside the section being edited.
    pub edit_cursor: Option<usize>,
}

impl Default for GeneralTab {
    fn default() -> (r: Self)
        ensures
            r.section == 0,
            r.edit_cursor is None,
    {
        GeneralTab { section: 0, edit_cursor: None }
    }
}

/// The settings the general tab edits.
#[derive(Debug, Clone, Copy, PartialEq, Eq)]
pub struct GeneralSettings {
    pub challenge: Challenge,
    /// `None` checks every severity.
    pub min_severity: Option<Severity>,
    pub audit_enabled: bool,
    pub blast_radius: bool,
}

/// Row of a minimum severity in its list: "(all)" first.
pub open spec fn min_severity_index(s: Option<Severity>) -> int {
    match s {
        None => 0,
        Some(v) => severity_index(v) + 1,
    }
}

pub open spec fn min_severity_of(i: int) -> Option<Severity> {
    if 1 <= i <= 5 {
        Some(severity_of(i - 1))
    } else {
        None
    }
}

pub fn challenge_index_exec(c: Challenge) -> (r: usize)
    ensures
        r == challenge_index(c),
{
    match c {
        Challenge::Math => 0,
        Challenge::Enter => 1,
        Challenge::Yes => 2,
    }
}

pub fn challenge_from_index(i: usize) -> (r: Challenge)
    ensures
        r == challenge_of(i as int),
{
    match i {
        1 => Challenge::Enter,
        2 => Challenge::Yes,
        _ => Challenge::Math,
    }
}

pub fn min_severity_index_exec(s: Option<Severity>) -> (r: usize)
    ensures
        r == min_severity_index(s),
{
    match s {
        None => 0,
        Some(Severity::Info) => 1,
        Some(Severity::Low) => 2,
        Some(Severity::Medium) => 3,
        Some(Severity::High) => 4,
        Some(Severity::Critical) => 5,
    }
}

pub fn min_severity_from_index(i: usize) -> (r: Option<Severity>)
    ensures
        r == min_severity_of(i as int),
{
    match i {
        1 => Some(Severity::Info),
        2 => Some(Severity::Low),
        3 => Some(Severity::Medium),
        4 => Some(Severity::High),
        5 => Some(Severity::Critical),
        _ => None,
    }
}

/// Number of rows in a section while it is edited.
pub open spec fn options_count(section: int) -> int {
    if section == 0 {
        3
    } else if section == 1 {
        6
    } else if section == 2 {
        2
    } else {
        0
    }
}

pub fn section_options_count(section: usize) -> (r: usize)
    ensures
        r == options_count(section as int),
{
    match section {
        0 => 3,
        1 => 6,
        2 => 2,
        _ => 0,
    }
}

/// The row the cursor starts on when a section is opened: the current
/// value.
pub open spec fn initial_inner(section: int, s: GeneralSettings) -> int {
    if section == 0 {
        challenge_index(s.challenge)
    } else if section == 1 {
        min_severity_index(s.min_severity)
    } else {
        0
    }
}

pub fn initial_inner_cursor(section: usize, s: &GeneralSettings) -> (r: usize)
    ensures
        r == initial_inner(section as int, *s),
{
    match section {
        0 => challenge_index_exec(s.challenge),
        1 => min_severity_index_exec(s.min_severity),
        _ => 0,
    }
}

pub open spec fn browsing_focus(section: int) -> FocusModel {
    let help = "↑↓ navigate sections · Enter to edit · Tab next."@;
    if section == 0 {
        FocusModel { name: "Challenge type"@, badges: seq!["all"@], help }
    } else if section == 1 {
        FocusModel { name: "Minimum severity"@, badges: seq!["all"@], help }
    } else if section == 2 {
        FocusModel { name: "Behavior"@, badges: seq!["all"@], help }
    } else {
        FocusModel { name: ""@, badges: seq!["all"@], help: ""@ }
    }
}

pub open spec fn editing_focus(section: int) -> FocusModel {
    if section == 0 {
        FocusModel {
            name: "Editing: Challenge type"@,
            badges: seq!["all"@],
            help: "↑↓ navigate · Space to select · Enter to exit · Esc to exit."@,
        }
    } else if section == 1 {
        FocusModel {
            name: "Editing: Minimum severity"@,
            badges: seq!["all"@],
            help: "↑↓ navigate · Space to select · Enter to exit · Esc to exit."@,
        }
    } else if section == 2 {
        FocusModel {
            name: "Editing: Behavior"@,
            badges: seq!["all"@],
            help: "↑↓ navigate · Space to toggle · Enter to exit · Esc to exit."@,
        }
    } else {
        FocusModel { name: ""@, badges: seq!["all"@], help: ""@ }
    }
}

/// What space sets in a section from row `inner`: the challenge or
/// minimum severity of that row (an edit only when it differs), or a flip
/// of audit (row 0) or blast radius (other rows).
pub open spec fn space_effect(section: int, inner: int, s: GeneralSettings) -> (
    GeneralSettings,
    bool,
) {
    if section == 0 {
        let c = challenge_of(inner);
        if s.challenge != c {
            (GeneralSettings { challenge: c, ..s }, true)
        } else {
            (s, false)
        }
    } else if section == 1 {
        let m = min_severity_of(inner);
        if s.min_severity != m {
            (GeneralSettings { min_severity: m, ..s }, true)
        } else {
            (s, false)
        }
    } else if section == 2 {
        if inner == 0 {
            (GeneralSettings { audit_enabled: !s.audit_enabled, ..s }, true)
        } else {
            (GeneralSettings { blast_radius: !s.blast_radius, ..s }, true)
        }
    } else {
        (s, false)
    }
}

/// The tab's cursor, the settings and the outcome after a key.
pub open spec fn general_step(
    section: int,
    edit: Option<usize>,
    s: GeneralSettings,
    code: KeyCode,
) -> (int, Option<usize>, GeneralSettings, TabResult) {
    match edit {
        None => match code {
            KeyCode::Up | KeyCode::Char('k') => if section > 0 {
                (section - 1, None, s, TabResult::FocusChanged(browsing_focus(section - 1)))
            } else {
                (section, None, s, TabResult::Ignored)
            },
            KeyCode::Down | KeyCode::Char('j') => if section + 1 < NUM_SECTIONS {
                (section + 1, None, s, TabResult::FocusChanged(browsing_focus(section + 1)))
            } else {
                (section, None, s, TabResult::Ignored)
            },
            KeyCode::Enter | KeyCode::Char('l') => (
                section,
                Some(initial_inner(section, s) as usize),
                s,
                TabResult::FocusChanged(editing_focus(section)),
            ),
            _ => (section, None, s, TabResult::Ignored),
        },
        Some(inner) => {
            let count = options_count(section);
            match code {
                KeyCode::Esc | KeyCode::Left | KeyCode::Char('h') => (
                    section,
                    None,
                    s,
                    TabResult::FocusChanged(browsing_focus(section)),
                ),
                KeyCode::Up | KeyCode::Char('k') => (
                    section,
                    Some(
                        if inner > 0 {
                            (inner - 1) as usize
                        } else {
                            inner
                        },
                    ),
                    s,
                    TabResult::Ignored,
                ),
                KeyCode::Down | KeyCode::Char('j') => (
                    section,
                    Some(
                        if inner + 1 < count {
                            (inner + 1) as usize
                        } else {
                            inner
                        },
                    ),
                    s,
                    TabResult::Ignored,
                ),
                KeyCode::Char(' ') => {
                    let (s2, changed) = space_effect(section, inner as int, s);
                    (
                        section,
                        Some(inner),
                        s2,
                        if changed {
                            TabResult::Mutated
                        } else {
                            TabResult::Ignored
                        },
                    )
                },
                KeyCode::Enter => (
                    section,
                    None,
                    s,
                    TabResult::FocusChanged(browsing_focus(section)),
                ),
                _ => (section, Some(inner), s, TabResult::Ignored),
            }
        },
    }
}

impl GeneralTab {
    pub fn is_editing(&self) -> (r: bool)
        ensures
            r == self.edit_cursor is Some,
    {
        self.edit_cursor.is_some()
    }

    pub fn focus_for_browsing(section: usize) -> (r: FieldFocus)
        ensures
            r@ == browsing_focus(section as int),
    {
        let help = "↑↓ navigate sections · Enter to edit · Tab next.";
        match section {
            0 => focus_with(owned("Challenge type"), "all", help),
            1 => focus_with(owned("Minimum severity"), "all", help),
            2 => focus_with(owned("Behavior"), "all", help),
            _ => focus_with(owned(""), "all", ""),
        }
    }

    pub fn focus_for_editing(section: usize) -> (r: FieldFocus)
        ensures
            r@ == editing_focus(section as int),
    {
        match section {
            0 => focus_with(
                owned("Editing: Challenge type"),
                "all",
                "↑↓ navigate · Space to select · Enter to exit · Esc to exit.",
            ),
            1 => focus_with(
                owned("Editing: Minimum severity"),
                "all",
                "↑↓ navigate · Space to select · Enter to exit · Esc to exit.",
            ),
            2 => focus_with(
                owned("Editing: Behavior"),
                "all",
                "↑↓ navigate · Space to toggle · Enter to exit · Esc to exit.",
            ),
            _ => focus_with(owned(""), "all", ""),
        }
    }

    /// The focused field's description.
    pub fn current_focus(&self) -> (r: FieldFocus)
        ensures
            r@ == if self.edit_cursor is Some {
                editing_focus(self.section as int)
            } else {
                browsing_focus(self.section as int)
            },
    {
        if self.is_editing() {
            Self::focus_for_editing(self.section)
        } else {
            Self::focus_for_browsing(self.section)
        }
    }

    /// A key in the general tab (see [`general_step`]).
    pub fn handle_key(&mut self, key: KeyEvent, s: &mut GeneralSettings) -> (r: TabOutcome)
        ensures
            ({
                let (sec, edit, settings, res) = general_step(
                    old(self).section as int,
                    old(self).edit_cursor,
                    *old(s),
                    key.code,
                );
                &&& final(self).section == sec
                &&& final(self).edit_cursor == edit
                &&& *final(s) == settings
                &&& r@ == res
            }),
    {
        match self.edit_cursor {
            None => match key.code {
                KeyCode::Up | KeyCode::Char('k') => {
                    if self.section > 0 {
                        self.section = self.section - 1;
                        return TabOutcome::FieldFocusChanged(
                            Self::focus_for_browsing(self.section),
                        );
                    }
                    TabOutcome::Ignored
                },
                KeyCode::Down | KeyCode::Char('j') => {
                    if self.section < NUM_SECTIONS - 1 {
                        self.section = self.section + 1;
                        return TabOutcome::FieldFocusChanged(
                            Self::focus_for_browsing(self.section),
                        );
                    }
                    TabOutcome::Ignored
                },
                KeyCode::Enter | KeyCode::Char('l') => {
                    let inner = initial_inner_cursor(self.section, s);
                    self.edit_cursor = Some(inner);
                    TabOutcome::FieldFocusChanged(Self::focus_for_editing(self.section))
                },
                _ => TabOutcome::Ignored,
            },
            Some(inner) => {
                let count = section_options_count(self.section);
                match key.code {
                    KeyCode::Esc | KeyCode::Left | KeyCode::Char('h') => {
                        self.edit_cursor = None;
                        TabOutcome::FieldFocusChanged(Self::focus_for_browsing(self.section))
                    },
                    KeyCode::Up | KeyCode::Char('k') => {
                        let next = if inner > 0 {
                            inner - 1
                        } else {
                            inner
                        };
                        self.edit_cursor = Some(next);
                        TabOutcome::Ignored
                    },
                    KeyCode::Down | KeyCode::Char('j') => {
                        let next = if count > 0 && inner < count - 1 {
                            inner + 1
                        } else {
                            inner
                        };
                        self.edit_cursor = Some(next);
                        TabOutcome::Ignored
                    },
                    KeyCode::Char(' ') => {
                        let mutated = match self.section {
                            0 => {
                                let c = challenge_from_index(inner);
                                if s.challenge != c {
                                    s.challenge = c;
                                    true
                                } else {
                                    false
                                }
                            },
                            1 => {
                                let m = min_severity_from_index(inner);
                                if s.min_severity != m {
                                    s.min_severity = m;
                                    true
                                } else {
                                    false
                                }
                            },
                            2 => {
                                if inner == 0 {
                                    s.audit_enabled = !s.audit_enabled;
                                } else {
                                    s.blast_radius = !s.blast_radius;
                                }
                                true
                            },
                            _ => false,
                        };
                        if mutated {
                            TabOutcome::Mutated
                        } else {
                            TabOutcome::Ignored
                        }
                    },
                    KeyCode::Enter => {
                        self.edit_cursor = None;
                        TabOutcome::FieldFocusChanged(Self::focus_for_browsing(self.section))
                    },
                    _ => TabOutcome::Ignored,
                }
            },
        }
    }
}

} // verus!
