//! State of the ignore/deny tab.
use vstd::prelude::*;
use crate::text::{concat_str, owned, str_eq, trim, trimmed_string};
use crate::tui::keys::{KeyCode, KeyEvent};
use crate::tui::tabs::groups::views_of;
use crate::tui::tabs::{focus_with, FieldFocus, FocusModel, TabOutcome, TabResult};
use crate::tui::widgets::picker::{
    handle_picker_key, picker_cursor_after, picker_filter_after, picker_result, PickerItem,
    PickerOutcome, PickerResult, PickerState,
};

verus! {

#[derive(Debug, Clone, Copy, PartialEq, Eq, Structural)]
pub enum Side {
    Ignore,
    Deny,
}

impl Default for Side {
    fn default() -> (r: Self)
        ensures
            r == Side::Ignore,
    {
        Side::Ignore
    }
}

#[derive(Debug, Clone, Copy, PartialEq, Eq, Structural)]
pub enum EditZone {
    /// The picker: typing filters, Enter adds the value.
    AddPicker,
    /// The existing entries: arrows move, `d` removes.
    EntriesList,
}

impl Default for EditZone {
    fn default() -> (r: Self)
        ensures
            r == EditZone::AddPicker,
    {
        EditZone::AddPicker
    }
}

#[derive(Debug)]
pub struct IgnoreDenyTab {
    pub all_ids: Vec<PickerItem>,
    /// The section under the cursor while browsing.
    pub section: Side,
    /// `None` while browsing.
    pub edit: Option<EditState>,
}

#[derive(Debug)]
pub struct EditState {
    pub zone: EditZone,
    pub picker: PickerState,
    /// Cursor into the existing entries.
    pub list_cursor: usize,
}

impl IgnoreDenyTab {
    pub fn new(all_ids: Vec<PickerItem>) -> (r: Self)
        ensures
            r.all_ids@ == all_ids@,
            r.section == Side::Ignore,
            r.edit is None,
    {
        IgnoreDenyTab { all_ids, section: Side::Ignore, edit: None }
    }
}

impl Default for IgnoreDenyTab {
    fn default() -> (r: Self)
        ensures
            r.all_ids@.len() == 0,
            r.section == Side::Ignore,
            r.edit is None,
    {
        IgnoreDenyTab::new(Vec::new())
    }
}

/// The check ids to skip and to block.
#[derive(Debug, Clone)]
pub struct IdLists {
    pub ignores_patterns_ids: Vec<String>,
    pub deny_patterns_ids: Vec<String>,
}

pub struct ListsModel {
    pub ignores: Seq<Seq<char>>,
    pub denies: Seq<Seq<char>>,
}

impl View for IdLists {
    type V = ListsModel;

    open spec fn view(&self) -> ListsModel {
        ListsModel {
            ignores: views_of(self.ignores_patterns_ids@),
            denies: views_of(self.deny_patterns_ids@),
        }
    }
}

/// The edit state as (zone, picker filter, picker cursor, list cursor).
pub type EditView = (EditZone, Seq<char>, int, int);

pub open spec fn edit_view(e: Option<EditState>) -> Option<EditView> {
    match e {
        Some(st) => Some((st.zone, st.picker.filter@, st.picker.cursor as int, st.list_cursor as int)),
        None => None,
    }
}

pub open spec fn side_list(m: ListsModel, side: Side) -> Seq<Seq<char>> {
    match side {
        Side::Ignore => m.ignores,
        Side::Deny => m.denies,
    }
}

pub open spec fn with_side_list(m: ListsModel, side: Side, l: Seq<Seq<char>>) -> ListsModel {
    match side {
        Side::Ignore => ListsModel { ignores: l, ..m },
        Side::Deny => ListsModel { denies: l, ..m },
    }
}

pub open spec fn side_title(side: Side) -> Seq<char> {
    match side {
        Side::Ignore => "Ignore list"@,
        Side::Deny => "Deny list"@,
    }
}

pub open spec fn ignore_deny_focus(side: Side, editing: bool) -> FocusModel {
    if editing {
        FocusModel {
            name: "Editing: "@ + side_title(side),
            badges: seq!["all"@],
            help: "↑↓ navigate · Enter add · d remove · Tab switch zone · Esc back"@,
        }
    } else {
        FocusModel {
            name: side_title(side),
            badges: seq!["all"@],
            help: "↑↓ select section · Enter to edit."@,
        }
    }
}

/// A key in the ignore/deny tab. While editing, Tab switches between the
/// picker (which adds the chosen id to the list once, reporting a change only
/// when it added one) and the entries
/// (where `d` removes the entry under the cursor); Esc leaves.
pub open spec fn ignore_deny_step(
    side: Side,
    edit: Option<EditView>,
    m: ListsModel,
    ids: Seq<PickerItem>,
    code: KeyCode,
) -> (Side, Option<EditView>, ListsModel, TabResult) {
    match edit {
        None => if code is Up || code == KeyCode::Char('k') {
            if side == Side::Deny {
                (Side::Ignore, None, m, TabResult::FocusChanged(ignore_deny_focus(Side::Ignore, false)))
            } else {
                (side, None, m, TabResult::Ignored)
            }
        } else if code is Down || code == KeyCode::Char('j') {
            if side == Side::Ignore {
                (Side::Deny, None, m, TabResult::FocusChanged(ignore_deny_focus(Side::Deny, false)))
            } else {
                (side, None, m, TabResult::Ignored)
            }
        } else if code is Enter {
            (
                side,
                Some((EditZone::AddPicker, Seq::empty(), 0, 0)),
                m,
                TabResult::FocusChanged(ignore_deny_focus(side, true)),
            )
        } else {
            (side, None, m, TabResult::Ignored)
        },
        Some((zone, filter, pcursor, lcursor)) => {
            let list = side_list(m, side);
            let len = list.len() as int;
            if code is Esc {
                (side, None, m, TabResult::FocusChanged(ignore_deny_focus(side, false)))
            } else if code is Tab {
                let z = if zone == EditZone::AddPicker && len > 0 {
                    EditZone::EntriesList
                } else if zone == EditZone::EntriesList {
                    EditZone::AddPicker
                } else {
                    zone
                };
                let lc = if z == EditZone::EntriesList {
                    let top = if len >= 1 {
                        len - 1
                    } else {
                        0
                    };
                    if lcursor <= top {
                        lcursor
                    } else {
                        top
                    }
                } else {
                    lcursor
                };
                (side, Some((z, filter, pcursor, lc)), m, TabResult::Ignored)
            } else if zone == EditZone::AddPicker {
                match picker_result(ids, filter, pcursor, code) {
                    PickerResult::Selected(v) => {
                        let t = trim(v);
                        let added = t.len() > 0 && !list.contains(t);
                        let l2 = if added {
                            list.push(t)
                        } else {
                            list
                        };
                        (
                            side,
                            Some((zone, Seq::empty(), 0, lcursor)),
                            with_side_list(m, side, l2),
                            if added {
                                TabResult::Mutated
                            } else {
                                TabResult::Ignored
                            },
                        )
                    },
                    PickerResult::Cancelled => (
                        side,
                        None,
                        m,
                        TabResult::FocusChanged(ignore_deny_focus(side, false)),
                    ),
                    _ => (
                        side,
                        Some(
                            (
                                zone,
                                picker_filter_after(filter, code),
                                picker_cursor_after(ids, filter, pcursor, code),
                                lcursor,
                            ),
                        ),
                        m,
                        TabResult::Ignored,
                    ),
                }
            } else if len == 0 {
                (side, Some((EditZone::AddPicker, filter, pcursor, lcursor)), m, TabResult::Ignored)
            } else if code is Up || code == KeyCode::Char('k') {
                (
                    side,
                    Some(
                        (
                            zone,
                            filter,
                            pcursor,
                            if lcursor > 0 {
                                lcursor - 1
                            } else {
                                lcursor
                            },
                        ),
                    ),
                    m,
                    TabResult::Ignored,
                )
            } else if code is Down || code == KeyCode::Char('j') {
                (
                    side,
                    Some(
                        (
                            zone,
                            filter,
                            pcursor,
                            if lcursor + 1 < len {
                                lcursor + 1
                            } else {
                                lcursor
                            },
                        ),
                    ),
                    m,
                    TabResult::Ignored,
                )
            } else if code == KeyCode::Char('d') || code is Backspace || code is Delete {
                let idx = if lcursor <= len - 1 {
                    lcursor
                } else {
                    len - 1
                };
                let n = len - 1;
                let lc = if lcursor >= n && n > 0 {
                    n - 1
                } else {
                    lcursor
                };
                let z = if n == 0 {
                    EditZone::AddPicker
                } else {
                    zone
                };
                (side, Some((z, filter, pcursor, lc)), with_side_list(m, side, list.remove(idx)), TabResult::Mutated)
            } else {
                (side, Some((zone, filter, pcursor, lcursor)), m, TabResult::Ignored)
            }
        },
    }
}

/// Law: choosing an id in the picker appends it, trimmed, to the end of
/// the list being edited, unless it is blank or already listed (then the
/// list stays as it was); the tab reports `Mutated` exactly when it was
/// appended, and the other list is untouched.
pub proof fn lemma_picked_id_is_appended_once(
    side: Side,
    filter: Seq<char>,
    pcursor: int,
    lcursor: int,
    m: ListsModel,
    ids: Seq<PickerItem>,
    code: KeyCode,
    v: Seq<char>,
)
    requires
        !(code is Esc) && !(code is Tab),
        picker_result(ids, filter, pcursor, code) == PickerResult::Selected(v),
    ensures
        ({
            let list = side_list(m, side);
            let t = trim(v);
            let fresh = t.len() > 0 && !list.contains(t);
            let (_, _, m2, res) = ignore_deny_step(
                side,
                Some((EditZone::AddPicker, filter, pcursor, lcursor)),
                m,
                ids,
                code,
            );
            let l2 = side_list(m2, side);
            &&& fresh ==> l2.len() == list.len() + 1 && l2.last() == t && l2.drop_last() == list
            &&& !fresh ==> l2 == list
            &&& (res is Mutated <==> fresh)
            &&& m2.ignores == (if side == Side::Ignore { l2 } else { m.ignores })
            &&& m2.denies == (if side == Side::Deny { l2 } else { m.denies })
        }),
{
    let list = side_list(m, side);
    let t = trim(v);
    if t.len() > 0 && !list.contains(t) {
        assert(list.push(t).drop_last() =~= list);
    }
}

/// Law: in the entries of a non-empty list, `d` (or Backspace, Delete)
/// removes exactly the entry under the cursor (the last one when the
/// cursor is past the end): the entries before it stay where they are,
/// the ones after it move up by one, and the other list is untouched.
pub proof fn lemma_d_removes_entry_under_cursor(
    side: Side,
    filter: Seq<char>,
    pcursor: int,
    lcursor: int,
    m: ListsModel,
    ids: Seq<PickerItem>,
    code: KeyCode,
)
    requires
        lcursor >= 0,
        side_list(m, side).len() > 0,
        code == KeyCode::Char('d') || code is Backspace || code is Delete,
    ensures
        ({
            let list = side_list(m, side);
            let idx = if lcursor < list.len() {
                lcursor
            } else {
                list.len() - 1
            };
            let m2 = ignore_deny_step(
                side,
                Some((EditZone::EntriesList, filter, pcursor, lcursor)),
                m,
                ids,
                code,
            ).2;
            let l2 = side_list(m2, side);
            &&& l2.len() == list.len() - 1
            &&& forall|k: int| 0 <= k < idx ==> l2[k] == list[k]
            &&& forall|k: int| idx <= k < l2.len() ==> l2[k] == list[k + 1]
            &&& m2.ignores == (if side == Side::Ignore { l2 } else { m.ignores })
            &&& m2.denies == (if side == Side::Deny { l2 } else { m.denies })
        }),
{
}

/// Law: a key never gives a list an id twice (lists without duplicates
/// keep none), never touches the other side's list, and changes the lists
/// exactly when the tab reports `Mutated`.
pub proof fn lemma_lists_stay_distinct(
    side: Side,
    edit: Option<EditView>,
    m: ListsModel,
    ids: Seq<PickerItem>,
    code: KeyCode,
)
    requires
        edit matches Some(e) ==> e.3 >= 0,
    ensures
        ({
            let (_, _, m2, res) = ignore_deny_step(side, edit, m, ids, code);
            let other = if side == Side::Ignore {
                Side::Deny
            } else {
                Side::Ignore
            };
            &&& m.ignores.no_duplicates() && m.denies.no_duplicates() ==> m2.ignores.no_duplicates()
                && m2.denies.no_duplicates()
            &&& side_list(m2, other) == side_list(m, other)
            &&& (res is Mutated <==> m2 != m)
        }),
{
    let (_, _, m2, res) = ignore_deny_step(side, edit, m, ids, code);
    let list = side_list(m, side);
    let l2 = side_list(m2, side);
    assert(m == with_side_list(m, side, list));
    if let Some((zone, filter, pcursor, lcursor)) = edit {
        let len = list.len() as int;
        if !(code is Esc) && !(code is Tab) && zone == EditZone::AddPicker {
            if let PickerResult::Selected(v) = picker_result(ids, filter, pcursor, code) {
                let t = trim(v);
                if t.len() > 0 && !list.contains(t) {
                    assert(l2 == list.push(t));
                    assert(l2.len() != list.len());
                    if list.no_duplicates() {
                        assert forall|a: int, b: int| 0 <= a < l2.len() && 0 <= b < l2.len() && a != b
                            implies l2[a] != l2[b] by {
                            if a == list.len() {
                                assert(list.contains(l2[b]));
                            } else if b == list.len() {
                                assert(list.contains(l2[a]));
                            }
                        }
                    }
                }
            }
        } else if !(code is Esc) && !(code is Tab) && zone != EditZone::AddPicker && len > 0
            && !(code is Up || code == KeyCode::Char('k')) && !(code is Down || code
            == KeyCode::Char('j')) && (code == KeyCode::Char('d') || code is Backspace
            || code is Delete) {
            let idx = if lcursor <= len - 1 {
                lcursor
            } else {
                len - 1
            };
            assert(l2 == list.remove(idx));
            assert(l2.len() == list.len() - 1);
            if list.no_duplicates() {
                assert forall|a: int, b: int| 0 <= a < l2.len() && 0 <= b < l2.len() && a != b
                    implies l2[a] != l2[b] by {
                    let ia = if a < idx { a } else { a + 1 };
                    let ib = if b < idx { b } else { b + 1 };
                    assert(l2[a] == list[ia]);
                    assert(l2[b] == list[ib]);
                }
            }
        }
    }
}

pub open spec fn side_blurb(side: Side) -> Seq<char> {
    match side {
        Side::Ignore => "Patterns matching these IDs are silently skipped."@,
        Side::Deny => "Patterns matching these IDs are blocked outright."@,
    }
}

fn list_mut(lists: &mut IdLists, side: Side) -> (r: &mut Vec<String>)
    ensures
        side == Side::Ignore ==> (*r == old(lists).ignores_patterns_ids
            && final(lists).ignores_patterns_ids == *final(r) && final(lists).deny_patterns_ids
            == old(lists).deny_patterns_ids),
        side == Side::Deny ==> (*r == old(lists).deny_patterns_ids && final(lists).deny_patterns_ids
            == *final(r) && final(lists).ignores_patterns_ids == old(lists).ignores_patterns_ids),
{
    match side {
        Side::Ignore => &mut lists.ignores_patterns_ids,
        Side::Deny => &mut lists.deny_patterns_ids,
    }
}

fn side_len(lists: &IdLists, side: Side) -> (r: usize)
    ensures
        r == side_list(lists@, side).len(),
{
    match side {
        Side::Ignore => lists.ignores_patterns_ids.len(),
        Side::Deny => lists.deny_patterns_ids.len(),
    }
}

fn list_contains(v: &Vec<String>, t: &str) -> (r: bool)
    ensures
        r == views_of(v@).contains(t@),
{
    let mut i: usize = 0;
    while i < v.len()
        invariant
            i <= v@.len(),
            forall|k: int| 0 <= k < i ==> v@[k]@ != t@,
        decreases v@.len() - i,
    {
        if str_eq(v[i].as_str(), t) {
            proof {
                assert(views_of(v@)[i as int] == t@);
            }
            return true;
        }
        i = i + 1;
    }
    proof {
        if views_of(v@).contains(t@) {
            let k = choose|k: int| 0 <= k < views_of(v@).len() && views_of(v@)[k] == t@;
            assert(v@[k]@ == t@);
        }
    }
    false
}

impl IgnoreDenyTab {
    pub fn section_title(&self, side: Side) -> (r: &'static str)
        ensures
            r@ == side_title(side),
    {
        match side {
            Side::Ignore => "Ignore list",
            Side::Deny => "Deny list",
        }
    }

    /// One line explaining each section.
    pub fn section_blurb(&self, side: Side) -> (r: &'static str)
        ensures
            r@ == side_blurb(side),
    {
        match side {
            Side::Ignore => "Patterns matching these IDs are silently skipped.",
            Side::Deny => "Patterns matching these IDs are blocked outright.",
        }
    }

    /// The focused field's description.
    pub fn current_focus(&self) -> (r: FieldFocus)
        ensures
            r@ == ignore_deny_focus(self.section, self.edit is Some),
    {
        let label = self.section_title(self.section);
        if self.edit.is_some() {
            focus_with(
                concat_str("Editing: ", label),
                "all",
                "↑↓ navigate · Enter add · d remove · Tab switch zone · Esc back",
            )
        } else {
            focus_with(owned(label), "all", "↑↓ select section · Enter to edit.")
        }
    }

    /// The ids of the list of the current section.
    pub fn current_list<'a>(&self, lists: &'a IdLists) -> (r: &'a Vec<String>)
        ensures
            views_of(r@) == side_list(lists@, self.section),
    {
        match self.section {
            Side::Ignore => &lists.ignores_patterns_ids,
            Side::Deny => &lists.deny_patterns_ids,
        }
    }

    /// A key in the ignore/deny tab (see [`ignore_deny_step`]).
    pub fn handle_key(&mut self, key: KeyEvent, lists: &mut IdLists) -> (r: TabOutcome)
        requires
            old(self).all_ids@.len() < usize::MAX,
        ensures
            final(self).all_ids@ == old(self).all_ids@,
            ({
                let (side, edit, m, res) = ignore_deny_step(
                    old(self).section,
                    edit_view(old(self).edit),
                    old(lists)@,
                    old(self).all_ids@,
                    key.code,
                );
                &&& final(self).section == side
                &&& edit_view(final(self).edit) == edit
                &&& final(lists)@ == m
                &&& r@ == res
            }),
    {
        let code = key.code;
        let mut taken: Option<EditState> = None;
        std::mem::swap(&mut taken, &mut self.edit);
        match taken {
            None => {
                if code == KeyCode::Up || code == KeyCode::Char('k') {
                    if self.section == Side::Deny {
                        self.section = Side::Ignore;
                        return TabOutcome::FieldFocusChanged(self.current_focus());
                    }
                    TabOutcome::Ignored
                } else if code == KeyCode::Down || code == KeyCode::Char('j') {
                    if self.section == Side::Ignore {
                        self.section = Side::Deny;
                        return TabOutcome::FieldFocusChanged(self.current_focus());
                    }
                    TabOutcome::Ignored
                } else if code == KeyCode::Enter {
                    self.edit = Some(
                        EditState {
                            zone: EditZone::AddPicker,
                            picker: PickerState::default(),
                            list_cursor: 0,
                        },
                    );
                    TabOutcome::FieldFocusChanged(self.current_focus())
                } else {
                    TabOutcome::Ignored
                }
            },
            Some(state) => {
                let mut state = state;
                if code == KeyCode::Esc {
                    return TabOutcome::FieldFocusChanged(self.current_focus());
                }
                let len = side_len(lists, self.section);
                if code == KeyCode::Tab {
                    state.zone = if state.zone == EditZone::AddPicker && len > 0 {
                        EditZone::EntriesList
                    } else if state.zone == EditZone::EntriesList {
                        EditZone::AddPicker
                    } else {
                        state.zone
                    };
                    if state.zone == EditZone::EntriesList {
                        let top = len.saturating_sub(1);
                        if state.list_cursor > top {
                            state.list_cursor = top;
                        }
                    }
                    self.edit = Some(state);
                    return TabOutcome::Ignored;
                }
                if state.zone == EditZone::AddPicker {
                    let outcome = handle_picker_key(key, &mut state.picker, self.all_ids.as_slice());
                    match outcome {
                        PickerOutcome::Selected(value) => {
                            let t = trimmed_string(value.as_str());
                            let mut added = false;
                            if !t.as_str().is_empty() {
                                let list = list_mut(lists, self.section);
                                if !list_contains(list, t.as_str()) {
                                    let ghost before = list@;
                                    list.push(t);
                                    added = true;
                                    proof {
                                        assert(views_of(list@) =~= views_of(before).push(trim(value@)));
                                    }
                                }
                            }
                            state.picker = PickerState::default();
                            self.edit = Some(state);
                            if added {
                                TabOutcome::Mutated
                            } else {
                                TabOutcome::Ignored
                            }
                        },
                        PickerOutcome::Cancelled => TabOutcome::FieldFocusChanged(
                            self.current_focus(),
                        ),
                        _ => {
                            self.edit = Some(state);
                            TabOutcome::Ignored
                        },
                    }
                } else {
                    if len == 0 {
                        state.zone = EditZone::AddPicker;
                        self.edit = Some(state);
                        return TabOutcome::Ignored;
                    }
                    if code == KeyCode::Up || code == KeyCode::Char('k') {
                        if state.list_cursor > 0 {
                            state.list_cursor = state.list_cursor - 1;
                        }
                        self.edit = Some(state);
                        TabOutcome::Ignored
                    } else if code == KeyCode::Down || code == KeyCode::Char('j') {
                        if state.list_cursor < len - 1 {
                            state.list_cursor = state.list_cursor + 1;
                        }
                        self.edit = Some(state);
                        TabOutcome::Ignored
                    } else if code == KeyCode::Char('d') || code == KeyCode::Backspace || code
                        == KeyCode::Delete {
                        let idx = if state.list_cursor <= len - 1 {
                            state.list_cursor
                        } else {
                            len - 1
                        };
                        let list = list_mut(lists, self.section);
                        let ghost before = list@;
                        let _ = list.remove(idx);
                        proof {
                            assert(views_of(list@) =~= views_of(before).remove(idx as int));
                        }
                        let n = len - 1;
                        if state.list_cursor >= n && n > 0 {
                            state.list_cursor = n - 1;
                        }
                        if n == 0 {
                            state.zone = EditZone::AddPicker;
                        }
                        self.edit = Some(state);
                        TabOutcome::Mutated
                    } else {
                        self.edit = Some(state);
                        TabOutcome::Ignored
                    }
                }
            },
        }
    }
}

} // verus!
