//! The custom-checks tab: the list of custom checks, and what it asks the
//! editor to do next (create, edit, delete, open, reload).
use vstd::prelude::*;
use crate::text::{concat_str, owned};
use crate::tui::check_store::{path_joined, CustomCheckStore};
use crate::tui::custom_check::{Check, Severity};
use crate::tui::keys::{KeyCode, KeyEvent};
use crate::tui::tabs::{focus_with, FieldFocus, FocusModel, TabOutcome, TabResult};

verus! {

#[derive(Debug, Clone)]
pub enum PendingAction {
    Create,
    Edit { index: usize },
    /// Ask for confirmation before deleting the check at `index`.
    ConfirmDelete { index: usize },
    /// Open the group file at `path` in an editor.
    OpenInEditor { path: String },
    /// Read the checks again from the store.
    Reload,
}

pub enum ActionModel {
    Create,
    Edit(int),
    ConfirmDelete(int),
    OpenInEditor(Seq<char>),
    Reload,
}

impl View for PendingAction {
    type V = ActionModel;

    open spec fn view(&self) -> ActionModel {
        match self {
            PendingAction::Create => ActionModel::Create,
            PendingAction::Edit { index } => ActionModel::Edit(*index as int),
            PendingAction::ConfirmDelete { index } => ActionModel::ConfirmDelete(*index as int),
            PendingAction::OpenInEditor { path } => ActionModel::OpenInEditor(path@),
            PendingAction::Reload => ActionModel::Reload,
        }
    }
}

#[derive(Debug)]
pub struct CustomChecksTab {
    pub store: CustomCheckStore,
    pub checks: Vec<Check>,
    pub cursor: usize,
    /// Set by a key; the editor takes it and acts on it.
    pub pending_action: Option<PendingAction>,
}

pub open spec fn severity_name(s: Severity) -> Seq<char> {
    match s {
        Severity::Info => "Info"@,
        Severity::Low => "Low"@,
        Severity::Medium => "Medium"@,
        Severity::High => "High"@,
        Severity::Critical => "Critical"@,
    }
}

fn severity_text(s: Severity) -> (r: String)
    ensures
        r@ == severity_name(s),
{
    match s {
        Severity::Info => owned("Info"),
        Severity::Low => owned("Low"),
        Severity::Medium => owned("Medium"),
        Severity::High => owned("High"),
        Severity::Critical => owned("Critical"),
    }
}

/// The focus shown for the check list: the check under the cursor, its
/// group, severity and file.
pub open spec fn custom_focus(root: Seq<char>, checks: Seq<Check>, cursor: int) -> FocusModel {
    if checks.len() == 0 {
        FocusModel {
            name: "Custom checks"@,
            badges: seq!["all"@],
            help: "Press [+] to create a custom check."@,
        }
    } else {
        let c = checks[cursor];
        FocusModel {
            name: "Check: "@ + c.id@,
            badges: seq!["all"@],
            help: "from: "@ + c.from@ + " · severity: "@ + severity_name(c.severity) + " · file: "@
                + path_joined(root, c.from@ + ".yaml"@),
        }
    }
}

impl CustomChecksTab {
    pub fn new(store: CustomCheckStore, checks: Vec<Check>) -> (r: Self)
        ensures
            r.store.root_path() == store.root_path(),
            r.checks@ == checks@,
            r.cursor == 0,
            r.pending_action is None,
    {
        CustomChecksTab { store, checks, cursor: 0, pending_action: None }
    }

    /// The checks read again from the store; the cursor stays on the list.
    pub fn reload(&mut self, checks: Vec<Check>)
        ensures
            final(self).checks@ == checks@,
            final(self).cursor == if old(self).cursor >= checks@.len() && checks@.len() > 0 {
                (checks@.len() - 1) as usize
            } else {
                old(self).cursor
            },
            final(self).pending_action == old(self).pending_action,
            final(self).store == old(self).store,
    {
        self.checks = checks;
        if self.cursor >= self.checks.len() && self.checks.len() > 0 {
            self.cursor = self.checks.len() - 1;
        }
    }

    pub fn take_pending_action(&mut self) -> (r: Option<PendingAction>)
        ensures
            r == old(self).pending_action,
            final(self).pending_action is None,
            final(self).checks == old(self).checks,
            final(self).cursor == old(self).cursor,
    {
        let mut taken: Option<PendingAction> = None;
        std::mem::swap(&mut taken, &mut self.pending_action);
        taken
    }

    /// The focused field's description.
    pub fn current_focus(&self) -> (r: FieldFocus)
        requires
            self.checks@.len() > 0 ==> self.cursor < self.checks@.len(),
        ensures
            r@ == custom_focus(self.store.root_path(), self.checks@, self.cursor as int),
    {
        if self.checks.len() == 0 {
            focus_with(owned("Custom checks"), "all", "Press [+] to create a custom check.")
        } else {
            let c = &self.checks[self.cursor];
            let name = concat_str("Check: ", c.id.as_str());
            let a = concat_str("from: ", c.from.as_str());
            let b = concat_str(a.as_str(), " · severity: ");
            let sev = severity_text(c.severity);
            let d = concat_str(b.as_str(), sev.as_str());
            let e = concat_str(d.as_str(), " · file: ");
            let path = self.store.path_for_group(c.from.as_str());
            let help = concat_str(e.as_str(), path.as_str());
            focus_with(name, "all", help.as_str())
        }
    }

    /// A key in the list: arrows move round it, `+` asks to create a
    /// check, `e` to edit, `d` to delete (after confirmation) and `f` to
    /// open the file of the check under the cursor, `r` to reload.
    pub fn handle_key(&mut self, key: KeyEvent) -> (r: TabOutcome)
        requires
            old(self).checks@.len() > 0 ==> old(self).cursor < old(self).checks@.len(),
        ensures
            final(self).checks == old(self).checks,
            final(self).checks@.len() > 0 ==> final(self).cursor < final(self).checks@.len(),
            ({
                let n = old(self).checks@.len() as int;
                let c = old(self).cursor as int;
                let code = key.code;
                if code is Up || code == KeyCode::Char('k') || code is Down || code
                    == KeyCode::Char('j') {
                    if n == 0 {
                        r is Ignored && final(self).cursor == old(self).cursor
                            && final(self).pending_action == old(self).pending_action
                    } else {
                        let c2 = if code is Up || code == KeyCode::Char('k') {
                            if c == 0 {
                                n - 1
                            } else {
                                c - 1
                            }
                        } else {
                            (c + 1) % n
                        };
                        &&& final(self).cursor == c2
                        &&& final(self).pending_action == old(self).pending_action
                        &&& r@ == TabResult::FocusChanged(
                            custom_focus(old(self).store.root_path(), old(self).checks@, c2),
                        )
                    }
                } else {
                    &&& r is Ignored
                    &&& final(self).cursor == old(self).cursor
                    &&& match (code, n > 0) {
                        (KeyCode::Char('+'), _) => final(self).pending_action matches Some(a)
                            && a@ is Create,
                        (KeyCode::Char('e'), true) => final(self).pending_action matches Some(a)
                            && a@ == ActionModel::Edit(c),
                        (KeyCode::Char('d'), true) => final(self).pending_action matches Some(a)
                            && a@ == ActionModel::ConfirmDelete(c),
                        (KeyCode::Char('f'), true) => final(self).pending_action matches Some(a)
                            && a@ == ActionModel::OpenInEditor(
                            path_joined(
                                old(self).store.root_path(),
                                old(self).checks@[c].from@ + ".yaml"@,
                            ),
                        ),
                        (KeyCode::Char('r'), _) => final(self).pending_action matches Some(a)
                            && a@ is Reload,
                        _ => final(self).pending_action == old(self).pending_action,
                    }
                }
            }),
    {
        let n = self.checks.len();
        match key.code {
            KeyCode::Up | KeyCode::Char('k') => {
                if n == 0 {
                    return TabOutcome::Ignored;
                }
                self.cursor = if self.cursor == 0 {
                    n - 1
                } else {
                    self.cursor - 1
                };
                TabOutcome::FieldFocusChanged(self.current_focus())
            },
            KeyCode::Down | KeyCode::Char('j') => {
                if n == 0 {
                    return TabOutcome::Ignored;
                }
                self.cursor = (self.cursor + 1) % n;
                TabOutcome::FieldFocusChanged(self.current_focus())
            },
            KeyCode::Char('+') => {
                self.pending_action = Some(PendingAction::Create);
                TabOutcome::Ignored
            },
            KeyCode::Char('e') => {
                if n > 0 {
                    self.pending_action = Some(PendingAction::Edit { index: self.cursor });
                }
                TabOutcome::Ignored
            },
            KeyCode::Char('d') => {
                if n > 0 {
                    self.pending_action = Some(PendingAction::ConfirmDelete { index: self.cursor });
                }
                TabOutcome::Ignored
            },
            KeyCode::Char('f') => {
                if n > 0 {
                    let path = self.store.path_for_group(self.checks[self.cursor].from.as_str());
                    self.pending_action = Some(PendingAction::OpenInEditor { path });
                }
                TabOutcome::Ignored
            },
            KeyCode::Char('r') => {
                self.pending_action = Some(PendingAction::Reload);
                TabOutcome::Ignored
            },
            _ => TabOutcome::Ignored,
        }
    }
}

} // verus!
