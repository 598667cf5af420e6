//! The context tab: protected branches, production cluster patterns,
//! production environment variables, sensitive paths, and the challenges
//! asked when the context raises the risk.
use vstd::prelude::*;
use crate::text::{concat_str, owned, pop_char, string_push, trim, trimmed_string};
use crate::tui::check_form::{challenge_index, challenge_of};
use crate::tui::custom_check::Challenge;
use crate::tui::env_vars::{name_order, EnvVars};
use crate::tui::keys::{KeyCode, KeyEvent};
use crate::tui::tabs::general::{challenge_from_index, challenge_index_exec};
use crate::tui::tabs::{focus_with, FieldFocus, FocusModel, TabOutcome, TabResult};

verus! {

pub const SECTION_BRANCHES: usize = 0;

pub const SECTION_K8S: usize = 1;

pub const SECTION_ENV_VARS: usize = 2;

pub const SECTION_PATHS: usize = 3;

pub const SECTION_ESCALATION: usize = 4;

pub const NUM_SECTIONS: usize = 5;

#[derive(Debug)]
pub struct ContextTab {
    pub section: usize,
    pub edit: Option<EditState>,
}

impl Default for ContextTab {
    fn default() -> (r: Self)
        ensures
            r.section == 0,
            r.edit is None,
    {
        ContextTab { section: 0, edit: None }
    }
}

#[derive(Debug)]
pub enum EditState {
    /// Editing a list section; `adding` holds a value being typed.
    ListEditor { cursor: usize, adding: Option<String> },
    /// Editing the environment variables.
    EnvVarsEditor { cursor: usize, adding: Option<EnvVarAddState> },
    /// Editing the two escalation choices: `field` 0 (elevated) or 1
    /// (critical), `col` the challenge (0 Math, 1 Enter, 2 Yes).
    EscalationEditor { field: usize, col: usize },
}

#[derive(Debug)]
pub enum EnvVarAddState {
    Key(String),
    Value { key: String, value: String },
}

/// Challenges asked when the context raises the risk.
#[derive(Debug, Clone, Copy, PartialEq, Eq, Structural)]
pub struct ContextEscalation {
    pub elevated: Challenge,
    pub critical: Challenge,
}

/// The settings the context tab edits.
#[derive(Debug)]
pub struct ContextSettings {
    pub protected_branches: Vec<String>,
    pub production_k8s_patterns: Vec<String>,
    pub production_env_vars: EnvVars,
    pub sensitive_paths: Vec<String>,
    pub escalation: ContextEscalation,
}

pub open spec fn texts(v: Seq<String>) -> Seq<Seq<char>> {
    v.map_values(|s: String| s@)
}

pub struct ContextModel {
    pub branches: Seq<Seq<char>>,
    pub k8s: Seq<Seq<char>>,
    pub env: Map<Seq<char>, Seq<char>>,
    pub paths: Seq<Seq<char>>,
    pub escalation: ContextEscalation,
}

impl View for ContextSettings {
    type V = ContextModel;

    open spec fn view(&self) -> ContextModel {
        ContextModel {
            branches: texts(self.protected_branches@),
            k8s: texts(self.production_k8s_patterns@),
            env: self.production_env_vars@,
            paths: texts(self.sensitive_paths@),
            escalation: self.escalation,
        }
    }
}

pub enum EnvAddModel {
    Key(Seq<char>),
    Value(Seq<char>, Seq<char>),
}

pub enum EditModel {
    List(int, Option<Seq<char>>),
    Env(int, Option<EnvAddModel>),
    Escalation(int, int),
}

impl View for EditState {
    type V = EditModel;

    open spec fn view(&self) -> EditModel {
        match self {
            EditState::ListEditor { cursor, adding } => EditModel::List(
                *cursor as int,
                match adding {
                    Some(b) => Some(b@),
                    None => None,
                },
            ),
            EditState::EnvVarsEditor { cursor, adding } => EditModel::Env(
                *cursor as int,
                match adding {
                    Some(EnvVarAddState::Key(k)) => Some(EnvAddModel::Key(k@)),
                    Some(EnvVarAddState::Value { key, value }) => Some(
                        EnvAddModel::Value(key@, value@),
                    ),
                    None => None,
                },
            ),
            EditState::EscalationEditor { field, col } => EditModel::Escalation(
                *field as int,
                *col as int,
            ),
        }
    }
}

pub open spec fn is_list_section(section: int) -> bool {
    section == SECTION_BRANCHES || section == SECTION_K8S || section == SECTION_PATHS
}

pub open spec fn section_title_of(section: int) -> Seq<char> {
    if section == 0 {
        "Protected branches"@
    } else if section == 1 {
        "Production k8s patterns"@
    } else if section == 2 {
        "Production env vars"@
    } else if section == 3 {
        "Sensitive paths"@
    } else if section == 4 {
        "Escalation challenges"@
    } else {
        ""@
    }
}

pub open spec fn context_focus(section: int, editing: bool) -> FocusModel {
    let title = section_title_of(section);
    if editing {
        FocusModel {
            name: "Editing: "@ + title,
            badges: seq!["all"@],
            help: if section == SECTION_ESCALATION {
                "↑↓ between Elevated/Critical · ←→ challenge · Space to set · Enter to exit · Esc to exit"@
            } else {
                "↑↓ navigate · + add · d remove · Esc back"@
            },
        }
    } else {
        FocusModel { name: title, badges: seq!["all"@], help: "↑↓ select section · Enter to edit."@ }
    }
}

/// The editor a section opens with.
pub open spec fn initial_edit(section: int) -> EditModel {
    if section == SECTION_ENV_VARS {
        EditModel::Env(0, None)
    } else if section == SECTION_ESCALATION {
        EditModel::Escalation(0, 0)
    } else {
        EditModel::List(0, None)
    }
}

/// The list a list section edits (empty for the others).
pub open spec fn list_of(c: ContextModel, section: int) -> Seq<Seq<char>> {
    if section == SECTION_BRANCHES {
        c.branches
    } else if section == SECTION_K8S {
        c.k8s
    } else if section == SECTION_PATHS {
        c.paths
    } else {
        Seq::empty()
    }
}

pub open spec fn with_list(c: ContextModel, section: int, l: Seq<Seq<char>>) -> ContextModel {
    if section == SECTION_BRANCHES {
        ContextModel { branches: l, ..c }
    } else if section == SECTION_K8S {
        ContextModel { k8s: l, ..c }
    } else if section == SECTION_PATHS {
        ContextModel { paths: l, ..c }
    } else {
        c
    }
}

/// The cursor after the entry under it was removed from a list now `n`
/// long: kept, or moved onto the new last entry.
pub open spec fn cursor_after_remove(cursor: int, n: int) -> int {
    if cursor >= n && n > 0 {
        n - 1
    } else {
        cursor
    }
}

pub open spec fn clamp_index(cursor: int, len: int) -> int {
    if cursor <= len - 1 {
        cursor
    } else {
        len - 1
    }
}

pub open spec fn is_delete_key(code: KeyCode) -> bool {
    code == KeyCode::Char('d') || code is Backspace || code is Delete
}

pub open spec fn up_from(cursor: int) -> int {
    if cursor > 0 {
        cursor - 1
    } else {
        cursor
    }
}

pub open spec fn down_from(cursor: int, len: int) -> int {
    if cursor + 1 < len {
        cursor + 1
    } else {
        cursor
    }
}

pub type ContextState = (int, Option<EditModel>, ContextModel, TabResult);

/// A key while a list section is edited.
pub open spec fn list_step(
    section: int,
    cursor: int,
    adding: Option<Seq<char>>,
    c: ContextModel,
    code: KeyCode,
) -> ContextState {
    match adding {
        Some(buf) => match code {
            KeyCode::Esc => (section, Some(EditModel::List(cursor, None)), c, TabResult::Ignored),
            KeyCode::Enter => if trim(buf).len() > 0 {
                (
                    section,
                    Some(EditModel::List(cursor, None)),
                    with_list(c, section, list_of(c, section).push(trim(buf))),
                    TabResult::Mutated,
                )
            } else {
                (section, Some(EditModel::List(cursor, None)), c, TabResult::Ignored)
            },
            KeyCode::Backspace => (
                section,
                Some(
                    EditModel::List(
                        cursor,
                        Some(
                            if buf.len() > 0 {
                                buf.drop_last()
                            } else {
                                buf
                            },
                        ),
                    ),
                ),
                c,
                TabResult::Ignored,
            ),
            KeyCode::Char(ch) => (
                section,
                Some(EditModel::List(cursor, Some(buf.push(ch)))),
                c,
                TabResult::Ignored,
            ),
            _ => (section, Some(EditModel::List(cursor, Some(buf))), c, TabResult::Ignored),
        },
        None => {
            let list = list_of(c, section);
            let len = list.len() as int;
            if code is Esc {
                (section, None, c, TabResult::FocusChanged(context_focus(section, false)))
            } else if code is Up || code == KeyCode::Char('k') {
                (section, Some(EditModel::List(up_from(cursor), None)), c, TabResult::Ignored)
            } else if code is Down || code == KeyCode::Char('j') {
                (section, Some(EditModel::List(down_from(cursor, len), None)), c, TabResult::Ignored)
            } else if code == KeyCode::Char('+') || code is Enter {
                (
                    section,
                    Some(EditModel::List(cursor, Some(Seq::empty()))),
                    c,
                    TabResult::Ignored,
                )
            } else if is_delete_key(code) && len > 0 {
                let idx = clamp_index(cursor, len);
                (
                    section,
                    Some(EditModel::List(cursor_after_remove(cursor, len - 1), None)),
                    with_list(c, section, list.remove(idx)),
                    TabResult::Mutated,
                )
            } else {
                (section, Some(EditModel::List(cursor, None)), c, TabResult::Ignored)
            }
        },
    }
}

/// A key while the environment variables are edited: `+` or Enter starts
/// a new variable (its name, then its value, each ended by Enter), `d`
/// removes the variable under the cursor (in name order).
pub open spec fn env_step(
    section: int,
    cursor: int,
    adding: Option<EnvAddModel>,
    c: ContextModel,
    code: KeyCode,
) -> ContextState {
    match adding {
        Some(st) => if code is Esc {
            (section, Some(EditModel::Env(cursor, None)), c, TabResult::Ignored)
        } else {
            match (st, code) {
                (EnvAddModel::Key(k), KeyCode::Enter) => if trim(k).len() == 0 {
                    (section, Some(EditModel::Env(cursor, None)), c, TabResult::Ignored)
                } else {
                    (
                        section,
                        Some(
                            EditModel::Env(cursor, Some(EnvAddModel::Value(trim(k), Seq::empty()))),
                        ),
                        c,
                        TabResult::Ignored,
                    )
                },
                (EnvAddModel::Value(k, v), KeyCode::Enter) => (
                    section,
                    Some(EditModel::Env(cursor, None)),
                    ContextModel { env: c.env.insert(k, v), ..c },
                    TabResult::Mutated,
                ),
                (EnvAddModel::Key(k), KeyCode::Backspace) => (
                    section,
                    Some(
                        EditModel::Env(
                            cursor,
                            Some(
                                EnvAddModel::Key(
                                    if k.len() > 0 {
                                        k.drop_last()
                                    } else {
                                        k
                                    },
                                ),
                            ),
                        ),
                    ),
                    c,
                    TabResult::Ignored,
                ),
                (EnvAddModel::Value(k, v), KeyCode::Backspace) => (
                    section,
                    Some(
                        EditModel::Env(
                            cursor,
                            Some(
                                EnvAddModel::Value(
                                    k,
                                    if v.len() > 0 {
                                        v.drop_last()
                                    } else {
                                        v
                                    },
                                ),
                            ),
                        ),
                    ),
                    c,
                    TabResult::Ignored,
                ),
                (EnvAddModel::Key(k), KeyCode::Char(ch)) => (
                    section,
                    Some(EditModel::Env(cursor, Some(EnvAddModel::Key(k.push(ch))))),
                    c,
                    TabResult::Ignored,
                ),
                (EnvAddModel::Value(k, v), KeyCode::Char(ch)) => (
                    section,
                    Some(EditModel::Env(cursor, Some(EnvAddModel::Value(k, v.push(ch))))),
                    c,
                    TabResult::Ignored,
                ),
                (other, _) => (section, Some(EditModel::Env(cursor, Some(other))), c, TabResult::Ignored),
            }
        },
        None => {
            let names = name_order(c.env);
            let len = names.len() as int;
            if code is Esc {
                (section, None, c, TabResult::FocusChanged(context_focus(section, false)))
            } else if code is Up || code == KeyCode::Char('k') {
                (section, Some(EditModel::Env(up_from(cursor), None)), c, TabResult::Ignored)
            } else if code is Down || code == KeyCode::Char('j') {
                (section, Some(EditModel::Env(down_from(cursor, len), None)), c, TabResult::Ignored)
            } else if code == KeyCode::Char('+') || code is Enter {
                (
                    section,
                    Some(EditModel::Env(cursor, Some(EnvAddModel::Key(Seq::empty())))),
                    c,
                    TabResult::Ignored,
                )
            } else if is_delete_key(code) && len > 0 {
                let idx = clamp_index(cursor, len);
                (
                    section,
                    Some(EditModel::Env(cursor_after_remove(cursor, len - 1), None)),
                    ContextModel { env: c.env.remove(names[idx]), ..c },
                    TabResult::Mutated,
                )
            } else {
                (section, Some(EditModel::Env(cursor, None)), c, TabResult::Ignored)
            }
        },
    }
}

pub open spec fn escalation_value(e: ContextEscalation, field: int) -> Challenge {
    if field == 0 {
        e.elevated
    } else {
        e.critical
    }
}

/// A key while the escalation choices are edited: up/down pick the field
/// (the cursor goes to its saved value), left/right move the cursor, space
/// saves the cursor's challenge, Enter or Esc leave.
pub open spec fn escalation_editor_step(
    section: int,
    field: int,
    col: int,
    c: ContextModel,
    code: KeyCode,
) -> ContextState {
    if code is Esc || code is Enter {
        (section, None, c, TabResult::FocusChanged(context_focus(section, false)))
    } else if code is Up || code == KeyCode::Char('k') {
        let f = up_from(field);
        (
            section,
            Some(EditModel::Escalation(f, challenge_index(escalation_value(c.escalation, f)))),
            c,
            TabResult::Ignored,
        )
    } else if code is Down || code == KeyCode::Char('j') {
        let f = if field < 1 {
            field + 1
        } else {
            field
        };
        (
            section,
            Some(EditModel::Escalation(f, challenge_index(escalation_value(c.escalation, f)))),
            c,
            TabResult::Ignored,
        )
    } else if code is Left || code == KeyCode::Char('h') {
        (section, Some(EditModel::Escalation(field, up_from(col))), c, TabResult::Consumed)
    } else if code is Right || code == KeyCode::Char('l') {
        (
            section,
            Some(
                EditModel::Escalation(
                    field,
                    if col < 2 {
                        col + 1
                    } else {
                        col
                    },
                ),
            ),
            c,
            TabResult::Consumed,
        )
    } else if code == KeyCode::Char(' ') {
        let v = challenge_of(col);
        if escalation_value(c.escalation, field) != v {
            let e = if field == 0 {
                ContextEscalation { elevated: v, ..c.escalation }
            } else {
                ContextEscalation { critical: v, ..c.escalation }
            };
            (
                section,
                Some(EditModel::Escalation(field, col)),
                ContextModel { escalation: e, ..c },
                TabResult::Mutated,
            )
        } else {
            (section, Some(EditModel::Escalation(field, col)), c, TabResult::Ignored)
        }
    } else {
        (section, Some(EditModel::Escalation(field, col)), c, TabResult::Ignored)
    }
}

/// A key in the context tab.
pub open spec fn context_step(
    section: int,
    edit: Option<EditModel>,
    c: ContextModel,
    code: KeyCode,
) -> ContextState {
    match edit {
        None => if code is Up || code == KeyCode::Char('k') {
            if section > 0 {
                (section - 1, None, c, TabResult::FocusChanged(context_focus(section - 1, false)))
            } else {
                (section, None, c, TabResult::Ignored)
            }
        } else if code is Down || code == KeyCode::Char('j') {
            if section + 1 < NUM_SECTIONS {
                (section + 1, None, c, TabResult::FocusChanged(context_focus(section + 1, false)))
            } else {
                (section, None, c, TabResult::Ignored)
            }
        } else if code is Enter {
            (
                section,
                Some(initial_edit(section)),
                c,
                TabResult::FocusChanged(context_focus(section, true)),
            )
        } else {
            (section, None, c, TabResult::Ignored)
        },
        Some(EditModel::List(cursor, adding)) => list_step(section, cursor, adding, c, code),
        Some(EditModel::Env(cursor, adding)) => env_step(section, cursor, adding, c, code),
        Some(EditModel::Escalation(field, col)) => escalation_editor_step(
            section,
            field,
            col,
            c,
            code,
        ),
    }
}

pub fn section_title(section: usize) -> (r: &'static str)
    ensures
        r@ == section_title_of(section as int),
{
    match section {
        0 => "Protected branches",
        1 => "Production k8s patterns",
        2 => "Production env vars",
        3 => "Sensitive paths",
        4 => "Escalation challenges",
        _ => "",
    }
}

pub open spec fn section_blurb_of(s: int) -> Seq<char> {
    if s == 0 {
        "Branches that elevate risk when active. Supports glob (e.g. release/*)."@
    } else if s == 1 {
        "Substring patterns flagging the current k8s context as production."@
    } else if s == 2 {
        "Env vars whose values mark the environment as production."@
    } else if s == 3 {
        "Filesystem paths that mark commands as elevated risk."@
    } else if s == 4 {
        "Stricter challenge type when context bumps the risk level."@
    } else {
        ""@
    }
}

/// One line explaining each section.
pub fn section_blurb(section: usize) -> (r: &'static str)
    ensures
        r@ == section_blurb_of(section as int),
{
    match section {
        0 => "Branches that elevate risk when active. Supports glob (e.g. release/*).",
        1 => "Substring patterns flagging the current k8s context as production.",
        2 => "Env vars whose values mark the environment as production.",
        3 => "Filesystem paths that mark commands as elevated risk.",
        4 => "Stricter challenge type when context bumps the risk level.",
        _ => "",
    }
}

pub open spec fn opt_edit_view(e: Option<EditState>) -> Option<EditModel> {
    match e {
        Some(s) => Some(s@),
        None => None,
    }
}

fn list_len(c: &ContextSettings, section: usize) -> (r: usize)
    ensures
        r == list_of(c@, section as int).len(),
{
    match section {
        0 => c.protected_branches.len(),
        1 => c.production_k8s_patterns.len(),
        3 => c.sensitive_paths.len(),
        _ => 0,
    }
}

fn push_text(v: &mut Vec<String>, t: String)
    ensures
        texts(final(v)@) == texts(old(v)@).push(t@),
{
    let ghost before = v@;
    v.push(t);
    proof {
        assert(texts(v@) =~= texts(before).push(t@));
    }
}

fn remove_text(v: &mut Vec<String>, i: usize)
    requires
        i < old(v)@.len(),
    ensures
        texts(final(v)@) == texts(old(v)@).remove(i as int),
{
    let ghost before = v@;
    let _ = v.remove(i);
    proof {
        assert(texts(v@) =~= texts(before).remove(i as int));
    }
}

impl ContextTab {
    /// The focused field's description.
    pub fn current_focus(&self) -> (r: FieldFocus)
        ensures
            r@ == context_focus(self.section as int, self.edit is Some),
    {
        let title = section_title(self.section);
        if self.edit.is_some() {
            let name = concat_str("Editing: ", title);
            if self.section == SECTION_ESCALATION {
                focus_with(
                    name,
                    "all",
                    "↑↓ between Elevated/Critical · ←→ challenge · Space to set · Enter to exit · Esc to exit",
                )
            } else {
                focus_with(name, "all", "↑↓ navigate · + add · d remove · Esc back")
            }
        } else {
            focus_with(owned(title), "all", "↑↓ select section · Enter to edit.")
        }
    }

    /// The editor a section opens with.
    pub fn initial_edit_state(&self) -> (r: EditState)
        ensures
            r@ == initial_edit(self.section as int),
    {
        match self.section {
            SECTION_ENV_VARS => EditState::EnvVarsEditor { cursor: 0, adding: None },
            SECTION_ESCALATION => EditState::EscalationEditor { field: 0, col: 0 },
            _ => EditState::ListEditor { cursor: 0, adding: None },
        }
    }

    fn handle_browsing(&mut self, code: KeyCode) -> (r: TabOutcome)
        requires
            old(self).edit is None,
        ensures
            ({
                let (sec, edit, _, res) = context_step(
                    old(self).section as int,
                    None,
                    ContextModel {
                        branches: Seq::empty(),
                        k8s: Seq::empty(),
                        env: Map::empty(),
                        paths: Seq::empty(),
                        escalation: ContextEscalation {
                            elevated: Challenge::Math,
                            critical: Challenge::Math,
                        },
                    },
                    code,
                );
                final(self).section == sec && opt_edit_view(final(self).edit) == edit && r@ == res
            }),
    {
        if code == KeyCode::Up || code == KeyCode::Char('k') {
            if self.section > 0 {
                self.section = self.section - 1;
                return TabOutcome::FieldFocusChanged(self.current_focus());
            }
            TabOutcome::Ignored
        } else if code == KeyCode::Down || code == KeyCode::Char('j') {
            if self.section < NUM_SECTIONS - 1 {
                self.section = self.section + 1;
                return TabOutcome::FieldFocusChanged(self.current_focus());
            }
            TabOutcome::Ignored
        } else if code == KeyCode::Enter {
            self.edit = Some(self.initial_edit_state());
            TabOutcome::FieldFocusChanged(self.current_focus())
        } else {
            TabOutcome::Ignored
        }
    }

    fn handle_list_editor(
        &mut self,
        code: KeyCode,
        c: &mut ContextSettings,
        cursor: usize,
        adding: Option<String>,
    ) -> (r: TabOutcome)
        requires
            old(self).edit is None,
            (adding matches Some(b) && code is Enter && trim(b@).len() > 0) ==> is_list_section(
                old(self).section as int,
            ),
        ensures
            ({
                let (sec, edit, cm, res) = list_step(
                    old(self).section as int,
                    cursor as int,
                    match adding {
                        Some(b) => Some(b@),
                        None => None,
                    },
                    old(c)@,
                    code,
                );
                &&& final(self).section == sec
                &&& opt_edit_view(final(self).edit) == edit
                &&& final(c)@ == cm
                &&& r@ == res
            }),
    {
        let section = self.section;
        match adding {
            Some(buf) => {
                let mut buf = buf;
                if code == KeyCode::Esc {
                    self.edit = Some(EditState::ListEditor { cursor, adding: None });
                    TabOutcome::Ignored
                } else if code == KeyCode::Enter {
                    let t = trimmed_string(buf.as_str());
                    if !t.as_str().is_empty() {
                        if section == SECTION_BRANCHES {
                            push_text(&mut c.protected_branches, t);
                        } else if section == SECTION_K8S {
                            push_text(&mut c.production_k8s_patterns, t);
                        } else {
                            push_text(&mut c.sensitive_paths, t);
                        }
                        self.edit = Some(EditState::ListEditor { cursor, adding: None });
                        return TabOutcome::Mutated;
                    }
                    self.edit = Some(EditState::ListEditor { cursor, adding: None });
                    TabOutcome::Ignored
                } else if code == KeyCode::Backspace {
                    pop_char(&mut buf);
                    self.edit = Some(EditState::ListEditor { cursor, adding: Some(buf) });
                    TabOutcome::Ignored
                } else {
                    match code {
                        KeyCode::Char(ch) => {
                            string_push(&mut buf, ch);
                            self.edit = Some(EditState::ListEditor { cursor, adding: Some(buf) });
                            TabOutcome::Ignored
                        },
                        _ => {
                            self.edit = Some(EditState::ListEditor { cursor, adding: Some(buf) });
                            TabOutcome::Ignored
                        },
                    }
                }
            },
            None => {
                let len = list_len(c, section);
                if code == KeyCode::Esc {
                    self.edit = None;
                    TabOutcome::FieldFocusChanged(self.current_focus())
                } else if code == KeyCode::Up || code == KeyCode::Char('k') {
                    let next = if cursor > 0 {
                        cursor - 1
                    } else {
                        cursor
                    };
                    self.edit = Some(EditState::ListEditor { cursor: next, adding: None });
                    TabOutcome::Ignored
                } else if code == KeyCode::Down || code == KeyCode::Char('j') {
                    let next = if len > 0 && cursor < len - 1 {
                        cursor + 1
                    } else {
                        cursor
                    };
                    self.edit = Some(EditState::ListEditor { cursor: next, adding: None });
                    TabOutcome::Ignored
                } else if code == KeyCode::Char('+') || code == KeyCode::Enter {
                    self.edit = Some(
                        EditState::ListEditor { cursor, adding: Some(String::new()) },
                    );
                    TabOutcome::Ignored
                } else if (code == KeyCode::Char('d') || code == KeyCode::Backspace || code
                    == KeyCode::Delete) && len > 0 {
                    let idx = if cursor <= len - 1 {
                        cursor
                    } else {
                        len - 1
                    };
                    if section == SECTION_BRANCHES {
                        remove_text(&mut c.protected_branches, idx);
                    } else if section == SECTION_K8S {
                        remove_text(&mut c.production_k8s_patterns, idx);
                    } else {
                        remove_text(&mut c.sensitive_paths, idx);
                    }
                    let new_len = len - 1;
                    let next = if cursor >= new_len && new_len > 0 {
                        new_len - 1
                    } else {
                        cursor
                    };
                    self.edit = Some(EditState::ListEditor { cursor: next, adding: None });
                    TabOutcome::Mutated
                } else {
                    self.edit = Some(EditState::ListEditor { cursor, adding: None });
                    TabOutcome::Ignored
                }
            },
        }
    }

    fn handle_env_vars_editor(
        &mut self,
        code: KeyCode,
        c: &mut ContextSettings,
        cursor: usize,
        adding: Option<EnvVarAddState>,
    ) -> (r: TabOutcome)
        requires
            old(self).edit is None,
        ensures
            ({
                let (sec, edit, cm, res) = env_step(
                    old(self).section as int,
                    cursor as int,
                    match adding {
                        Some(EnvVarAddState::Key(k)) => Some(EnvAddModel::Key(k@)),
                        Some(EnvVarAddState::Value { key, value }) => Some(
                            EnvAddModel::Value(key@, value@),
                        ),
                        None => None,
                    },
                    old(c)@,
                    code,
                );
                &&& final(self).section == sec
                &&& opt_edit_view(final(self).edit) == edit
                &&& final(c)@ == cm
                &&& r@ == res
            }),
    {
        match adding {
            Some(state) => {
                if code == KeyCode::Esc {
                    self.edit = Some(EditState::EnvVarsEditor { cursor, adding: None });
                    return TabOutcome::Ignored;
                }
                match state {
                    EnvVarAddState::Key(k) => {
                        let mut k = k;
                        match code {
                            KeyCode::Enter => {
                                let t = trimmed_string(k.as_str());
                                if t.as_str().is_empty() {
                                    self.edit = Some(
                                        EditState::EnvVarsEditor { cursor, adding: None },
                                    );
                                } else {
                                    self.edit = Some(
                                        EditState::EnvVarsEditor {
                                            cursor,
                                            adding: Some(
                                                EnvVarAddState::Value {
                                                    key: t,
                                                    value: String::new(),
                                                },
                                            ),
                                        },
                                    );
                                }
                                TabOutcome::Ignored
                            },
                            KeyCode::Backspace => {
                                pop_char(&mut k);
                                self.edit = Some(
                                    EditState::EnvVarsEditor {
                                        cursor,
                                        adding: Some(EnvVarAddState::Key(k)),
                                    },
                                );
                                TabOutcome::Ignored
                            },
                            KeyCode::Char(ch) => {
                                string_push(&mut k, ch);
                                self.edit = Some(
                                    EditState::EnvVarsEditor {
                                        cursor,
                                        adding: Some(EnvVarAddState::Key(k)),
                                    },
                                );
                                TabOutcome::Ignored
                            },
                            _ => {
                                self.edit = Some(
                                    EditState::EnvVarsEditor {
                                        cursor,
                                        adding: Some(EnvVarAddState::Key(k)),
                                    },
                                );
                                TabOutcome::Ignored
                            },
                        }
                    },
                    EnvVarAddState::Value { key, value } => {
                        let mut value = value;
                        match code {
                            KeyCode::Enter => {
                                c.production_env_vars.insert(key, value);
                                self.edit = Some(EditState::EnvVarsEditor { cursor, adding: None });
                                TabOutcome::Mutated
                            },
                            KeyCode::Backspace => {
                                pop_char(&mut value);
                                self.edit = Some(
                                    EditState::EnvVarsEditor {
                                        cursor,
                                        adding: Some(EnvVarAddState::Value { key, value }),
                                    },
                                );
                                TabOutcome::Ignored
                            },
                            KeyCode::Char(ch) => {
                                string_push(&mut value, ch);
                                self.edit = Some(
                                    EditState::EnvVarsEditor {
                                        cursor,
                                        adding: Some(EnvVarAddState::Value { key, value }),
                                    },
                                );
                                TabOutcome::Ignored
                            },
                            _ => {
                                self.edit = Some(
                                    EditState::EnvVarsEditor {
                                        cursor,
                                        adding: Some(EnvVarAddState::Value { key, value }),
                                    },
                                );
                                TabOutcome::Ignored
                            },
                        }
                    },
                }
            },
            None => {
                let len = c.production_env_vars.len();
                if code == KeyCode::Esc {
                    self.edit = None;
                    TabOutcome::FieldFocusChanged(self.current_focus())
                } else if code == KeyCode::Up || code == KeyCode::Char('k') {
                    let next = if cursor > 0 {
                        cursor - 1
                    } else {
                        cursor
                    };
                    self.edit = Some(EditState::EnvVarsEditor { cursor: next, adding: None });
                    TabOutcome::Ignored
                } else if code == KeyCode::Down || code == KeyCode::Char('j') {
                    let next = if len > 0 && cursor < len - 1 {
                        cursor + 1
                    } else {
                        cursor
                    };
                    self.edit = Some(EditState::EnvVarsEditor { cursor: next, adding: None });
                    TabOutcome::Ignored
                } else if code == KeyCode::Char('+') || code == KeyCode::Enter {
                    self.edit = Some(
                        EditState::EnvVarsEditor {
                            cursor,
                            adding: Some(EnvVarAddState::Key(String::new())),
                        },
                    );
                    TabOutcome::Ignored
                } else if (code == KeyCode::Char('d') || code == KeyCode::Backspace || code
                    == KeyCode::Delete) && len > 0 {
                    let idx = if cursor <= len - 1 {
                        cursor
                    } else {
                        len - 1
                    };
                    c.production_env_vars.remove_at(idx);
                    let new_len = len - 1;
                    let next = if cursor >= new_len && new_len > 0 {
                        new_len - 1
                    } else {
                        cursor
                    };
                    self.edit = Some(EditState::EnvVarsEditor { cursor: next, adding: None });
                    TabOutcome::Mutated
                } else {
                    self.edit = Some(EditState::EnvVarsEditor { cursor, adding: None });
                    TabOutcome::Ignored
                }
            },
        }
    }

    fn handle_escalation_editor(
        &mut self,
        code: KeyCode,
        c: &mut ContextSettings,
        field: usize,
        col: usize,
    ) -> (r: TabOutcome)
        requires
            old(self).edit is None,
        ensures
            ({
                let (sec, edit, cm, res) = escalation_editor_step(
                    old(self).section as int,
                    field as int,
                    col as int,
                    old(c)@,
                    code,
                );
                &&& final(self).section == sec
                &&& opt_edit_view(final(self).edit) == edit
                &&& final(c)@ == cm
                &&& r@ == res
            }),
    {
        if code == KeyCode::Esc || code == KeyCode::Enter {
            self.edit = None;
            TabOutcome::FieldFocusChanged(self.current_focus())
        } else if code == KeyCode::Up || code == KeyCode::Char('k') {
            let f = if field > 0 {
                field - 1
            } else {
                field
            };
            let v = if f == 0 {
                c.escalation.elevated
            } else {
                c.escalation.critical
            };
            self.edit = Some(EditState::EscalationEditor { field: f, col: challenge_index_exec(v) });
            TabOutcome::Ignored
        } else if code == KeyCode::Down || code == KeyCode::Char('j') {
            let f = if field < 1 {
                field + 1
            } else {
                field
            };
            let v = if f == 0 {
                c.escalation.elevated
            } else {
                c.escalation.critical
            };
            self.edit = Some(EditState::EscalationEditor { field: f, col: challenge_index_exec(v) });
            TabOutcome::Ignored
        } else if code == KeyCode::Left || code == KeyCode::Char('h') {
            let next = if col > 0 {
                col - 1
            } else {
                col
            };
            self.edit = Some(EditState::EscalationEditor { field, col: next });
            TabOutcome::Consumed
        } else if code == KeyCode::Right || code == KeyCode::Char('l') {
            let next = if col < 2 {
                col + 1
            } else {
                col
            };
            self.edit = Some(EditState::EscalationEditor { field, col: next });
            TabOutcome::Consumed
        } else if code == KeyCode::Char(' ') {
            let v = challenge_from_index(col);
            let mutated = if field == 0 {
                if c.escalation.elevated != v {
                    c.escalation.elevated = v;
                    true
                } else {
                    false
                }
            } else {
                if c.escalation.critical != v {
                    c.escalation.critical = v;
                    true
                } else {
                    false
                }
            };
            self.edit = Some(EditState::EscalationEditor { field, col });
            if mutated {
                TabOutcome::Mutated
            } else {
                TabOutcome::Ignored
            }
        } else {
            self.edit = Some(EditState::EscalationEditor { field, col });
            TabOutcome::Ignored
        }
    }

    /// A key in the context tab (see [`context_step`]).
    pub fn handle_key(&mut self, key: KeyEvent, c: &mut ContextSettings) -> (r: TabOutcome)
        requires
            (old(self).edit matches Some(EditState::ListEditor { adding: Some(b), .. })
                && key.code is Enter && trim(b@).len() > 0) ==> is_list_section(
                old(self).section as int,
            ),
        ensures
            ({
                let (sec, edit, cm, res) = context_step(
                    old(self).section as int,
                    opt_edit_view(old(self).edit),
                    old(c)@,
                    key.code,
                );
                &&& final(self).section == sec
                &&& opt_edit_view(final(self).edit) == edit
                &&& final(c)@ == cm
                &&& r@ == res
            }),
    {
        let mut taken: Option<EditState> = None;
        std::mem::swap(&mut taken, &mut self.edit);
        match taken {
            None => self.handle_browsing(key.code),
            Some(EditState::ListEditor { cursor, adding }) => self.handle_list_editor(
                key.code,
                c,
                cursor,
                adding,
            ),
            Some(EditState::EnvVarsEditor { cursor, adding }) => self.handle_env_vars_editor(
                key.code,
                c,
                cursor,
                adding,
            ),
            Some(EditState::EscalationEditor { field, col }) => self.handle_escalation_editor(
                key.code,
                c,
                field,
                col,
            ),
        }
    }
}

/// Up to three entries joined by " · ", then "+N more"; "(none)" for an
/// empty list.
pub open spec fn list_summary(list: Seq<Seq<char>>) -> Seq<char> {
    let sep = "  ·  "@;
    if list.len() == 0 {
        "(none)"@
    } else if list.len() == 1 {
        list[0]
    } else if list.len() == 2 {
        list[0] + sep + list[1]
    } else {
        let shown = list[0] + sep + list[1] + sep + list[2];
        if list.len() == 3 {
            shown
        } else {
            shown + sep + "+"@ + crate::text::decimal_text((list.len() - 3) as nat) + " more"@
        }
    }
}

/// The one-line summary of a list section.
pub fn format_list_summary(list: &[String]) -> (r: String)
    ensures
        r@ == list_summary(texts(list@)),
{
    let n = list.len();
    if n == 0 {
        return owned("(none)");
    }
    let mut out = list[0].clone();
    if n >= 2 {
        let a = concat_str(out.as_str(), "  ·  ");
        out = concat_str(a.as_str(), list[1].as_str());
    }
    if n >= 3 {
        let a = concat_str(out.as_str(), "  ·  ");
        out = concat_str(a.as_str(), list[2].as_str());
    }
    if n > 3 {
        let a = concat_str(out.as_str(), "  ·  +");
        let more = crate::text::decimal(n - 3);
        let b = concat_str(a.as_str(), more.as_str());
        out = concat_str(b.as_str(), " more");
        proof {
            assert("  ·  "@ + "+"@ =~= "  ·  +"@) by {
                reveal_strlit("  ·  ");
                reveal_strlit("+");
                reveal_strlit("  ·  +");
            }
        }
    }
    proof {
        assert(texts(list@)[0] == list@[0]@);
        if n >= 2 {
            assert(texts(list@)[1] == list@[1]@);
        }
        if n >= 3 {
            assert(texts(list@)[2] == list@[2]@);
        }
    }
    out
}

} // verus!
