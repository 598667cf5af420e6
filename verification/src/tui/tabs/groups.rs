//! State of the groups tab, and the list of groups it offers.
use vstd::prelude::*;
use crate::text::{concat_str, owned, str_eq};
use crate::tui::keys::{KeyCode, KeyEvent};
use crate::tui::tabs::{focus_with, FieldFocus, FocusModel, TabOutcome, TabResult};
use crate::tui::widgets::multi_select::{
    handle_multi_select_key, multi_select_step, MultiSelectKeyOutcome,
};

verus! {

#[derive(Debug)]
pub struct GroupsTab {
    pub cursor: usize,
    pub custom_groups: Vec<String>,
    pub edit_active: bool,
}

impl Default for GroupsTab {
    fn default() -> (r: Self)
        ensures
            r.cursor == 0,
            r.custom_groups@.len() == 0,
            !r.edit_active,
    {
        GroupsTab { cursor: 0, custom_groups: Vec::new(), edit_active: false }
    }
}

pub open spec fn views_of(v: Seq<String>) -> Seq<Seq<char>> {
    v.map_values(|s: String| s@)
}

/// The names of `names` in order, each kept at its first occurrence only,
/// after those of `seen`.
pub open spec fn append_distinct(seen: Seq<Seq<char>>, names: Seq<Seq<char>>) -> Seq<Seq<char>>
    decreases names.len(),
{
    if names.len() == 0 {
        seen
    } else {
        let first = names[0];
        let next = if seen.contains(first) {
            seen
        } else {
            seen.push(first)
        };
        append_distinct(next, names.drop_first())
    }
}

/// What a sequence with one more element contains.
pub proof fn lemma_push_contains(s: Seq<Seq<char>>, x: Seq<char>, y: Seq<char>)
    ensures
        s.push(x).contains(y) <==> (s.contains(y) || x == y),
{
    if s.contains(y) {
        let i = choose|i: int| 0 <= i < s.len() && s[i] == y;
        assert(s.push(x)[i] == y);
    }
    if x == y {
        assert(s.push(x)[s.len() as int] == y);
    }
    if s.push(x).contains(y) {
        let i = choose|i: int| 0 <= i < s.push(x).len() && s.push(x)[i] == y;
        if i < s.len() {
            assert(s[i] == y);
        }
    }
}

/// `base` followed by the names of `extra` that are not yet in the list,
/// each once, in their order.
pub fn merge_distinct(base: &Vec<String>, extra: &Vec<String>) -> (r: Vec<String>)
    ensures
        views_of(r@) == append_distinct(views_of(base@), views_of(extra@)),
{
    let mut out: Vec<String> = Vec::new();
    let mut i: usize = 0;
    while i < base.len()
        invariant
            i <= base@.len(),
            views_of(out@) == views_of(base@.take(i as int)),
        decreases base@.len() - i,
    {
        let ghost before = out@;
        out.push(base[i].clone());
        proof {
            assert(views_of(out@) =~= views_of(before).push(base@[i as int]@));
            assert(views_of(base@.take(i + 1)) =~= views_of(base@.take(i as int)).push(
                base@[i as int]@,
            ));
        }
        i = i + 1;
    }
    proof {
        assert(base@.take(base@.len() as int) =~= base@);
        assert(extra@.skip(0) =~= extra@);
    }
    let mut j: usize = 0;
    while j < extra.len()
        invariant
            j <= extra@.len(),
            append_distinct(views_of(out@), views_of(extra@.skip(j as int))) == append_distinct(
                views_of(base@),
                views_of(extra@),
            ),
        decreases extra@.len() - j,
    {
        let mut present = false;
        let mut k: usize = 0;
        while k < out.len()
            invariant
                j < extra@.len(),
                k <= out@.len(),
                present == views_of(out@.take(k as int)).contains(extra@[j as int]@),
            decreases out@.len() - k,
        {
            proof {
                assert(views_of(out@.take(k + 1)) =~= views_of(out@.take(k as int)).push(
                    out@[k as int]@,
                ));
                lemma_push_contains(views_of(out@.take(k as int)), out@[k as int]@, extra@[j as int]@);
            }
            if str_eq(out[k].as_str(), extra[j].as_str()) {
                present = true;
            }
            k = k + 1;
        }
        proof {
            assert(out@.take(out@.len() as int) =~= out@);
            let rest = views_of(extra@.skip(j as int));
            assert(rest[0] == extra@[j as int]@);
            assert(rest.drop_first() =~= views_of(extra@.skip(j + 1)));
        }
        if !present {
            let ghost before = out@;
            out.push(extra[j].clone());
            proof {
                assert(views_of(out@) =~= views_of(before).push(extra@[j as int]@));
            }
        }
        j = j + 1;
    }
    proof {
        assert(views_of(extra@.skip(extra@.len() as int)) =~= Seq::<Seq<char>>::empty());
    }
    out
}

impl GroupsTab {
    pub fn new(custom_groups: Vec<String>) -> (r: Self)
        ensures
            r.cursor == 0,
            r.custom_groups@ == custom_groups@,
            !r.edit_active,
    {
        GroupsTab { cursor: 0, custom_groups, edit_active: false }
    }

    /// The built-in groups followed by the custom ones not among them.
    pub fn all_groups(&self, builtin: &Vec<String>) -> (r: Vec<String>)
        ensures
            views_of(r@) == append_distinct(views_of(builtin@), views_of(self.custom_groups@)),
    {
        merge_distinct(builtin, &self.custom_groups)
    }
}

/// Which check groups are switched on and off.
#[derive(Debug, Clone)]
pub struct GroupSelection {
    pub enabled_groups: Vec<String>,
    pub disabled_groups: Vec<String>,
}

pub struct SelectionModel {
    pub enabled: Seq<Seq<char>>,
    pub disabled: Seq<Seq<char>>,
}

impl View for GroupSelection {
    type V = SelectionModel;

    open spec fn view(&self) -> SelectionModel {
        SelectionModel {
            enabled: views_of(self.enabled_groups@),
            disabled: views_of(self.disabled_groups@),
        }
    }
}

/// Index of the first `x` in `s`.
pub open spec fn first_index(s: Seq<Seq<char>>, x: Seq<char>) -> int
    decreases s.len(),
{
    if s.len() == 0 {
        0
    } else if s[0] == x {
        0
    } else {
        1 + first_index(s.drop_first(), x)
    }
}

/// `s` without any `x`.
pub open spec fn without_all(s: Seq<Seq<char>>, x: Seq<char>) -> Seq<Seq<char>>
    decreases s.len(),
{
    if s.len() == 0 {
        s
    } else {
        let rest = without_all(s.drop_last(), x);
        if s.last() == x {
            rest
        } else {
            rest.push(s.last())
        }
    }
}

/// Space on group `g`: a group switched on is switched off (dropped from
/// the enabled list, added to the disabled list once); otherwise it is
/// switched on (appended to the enabled list, dropped from the disabled
/// list).
pub open spec fn toggle_group(m: SelectionModel, g: Seq<char>) -> SelectionModel {
    if m.enabled.contains(g) {
        SelectionModel {
            enabled: m.enabled.remove(first_index(m.enabled, g)),
            disabled: if m.disabled.contains(g) {
                m.disabled
            } else {
                m.disabled.push(g)
            },
        }
    } else {
        SelectionModel { enabled: m.enabled.push(g), disabled: without_all(m.disabled, g) }
    }
}

pub open spec fn groups_focus(editing: bool, groups: Seq<Seq<char>>, cursor: int) -> FocusModel {
    if editing {
        FocusModel {
            name: "Editing: "@ + if 0 <= cursor < groups.len() {
                groups[cursor]
            } else {
                ""@
            },
            badges: seq!["all"@],
            help: "↑↓ navigate · Space toggle · 'a' all · 'n' none · Esc back"@,
        }
    } else {
        FocusModel {
            name: "Check groups"@,
            badges: seq!["all"@],
            help: "Enter to edit which check groups are enabled."@,
        }
    }
}

/// A key in the groups tab over the list `groups` of all groups.
pub open spec fn groups_step(
    editing: bool,
    cursor: int,
    m: SelectionModel,
    groups: Seq<Seq<char>>,
    code: KeyCode,
) -> (bool, int, SelectionModel, TabResult) {
    if !editing {
        if code is Enter || code == KeyCode::Char('l') {
            (true, cursor, m, TabResult::FocusChanged(groups_focus(true, groups, cursor)))
        } else {
            (false, cursor, m, TabResult::Ignored)
        }
    } else if code is Esc || code is Left || code == KeyCode::Char('h') {
        (false, cursor, m, TabResult::FocusChanged(groups_focus(false, groups, cursor)))
    } else if groups.len() == 0 {
        (true, cursor, m, TabResult::Ignored)
    } else {
        match multi_select_step(code, cursor, groups.len() as int) {
            MultiSelectKeyOutcome::CursorMoved(c) => (true, c as int, m, TabResult::Ignored),
            MultiSelectKeyOutcome::Toggled(i) => (
                true,
                cursor,
                toggle_group(m, groups[i as int]),
                TabResult::Mutated,
            ),
            MultiSelectKeyOutcome::SelectAll => (
                true,
                cursor,
                SelectionModel { enabled: groups, disabled: Seq::empty() },
                TabResult::Mutated,
            ),
            MultiSelectKeyOutcome::SelectNone => (
                true,
                cursor,
                SelectionModel { enabled: Seq::empty(), disabled: groups },
                TabResult::Mutated,
            ),
            MultiSelectKeyOutcome::Ignored => (true, cursor, m, TabResult::Ignored),
        }
    }
}

fn contains_text(v: &Vec<String>, g: &str) -> (r: bool)
    ensures
        r == views_of(v@).contains(g@),
{
    let mut i: usize = 0;
    while i < v.len()
        invariant
            i <= v@.len(),
            forall|k: int| 0 <= k < i ==> v@[k]@ != g@,
        decreases v@.len() - i,
    {
        if str_eq(v[i].as_str(), g) {
            proof {
                assert(views_of(v@)[i as int] == g@);
            }
            return true;
        }
        i = i + 1;
    }
    proof {
        if views_of(v@).contains(g@) {
            let k = choose|k: int| 0 <= k < views_of(v@).len() && views_of(v@)[k] == g@;
            assert(v@[k]@ == g@);
        }
    }
    false
}

proof fn lemma_first_index(s: Seq<Seq<char>>, x: Seq<char>, i: int)
    requires
        0 <= i < s.len(),
        s[i] == x,
        forall|k: int| 0 <= k < i ==> s[k] != x,
    ensures
        first_index(s, x) == i,
    decreases i,
{
    if i > 0 {
        assert(s[0] != x);
        assert forall|k: int| 0 <= k < i - 1 implies s.drop_first()[k] != x by {
            assert(s.drop_first()[k] == s[k + 1]);
        }
        lemma_first_index(s.drop_first(), x, i - 1);
    }
}

fn remove_all(v: &Vec<String>, g: &str) -> (r: Vec<String>)
    ensures
        views_of(r@) == without_all(views_of(v@), g@),
{
    let mut out: Vec<String> = Vec::new();
    let mut i: usize = 0;
    while i < v.len()
        invariant
            i <= v@.len(),
            views_of(out@) == without_all(views_of(v@.take(i as int)), g@),
        decreases v@.len() - i,
    {
        let ghost before = out@;
        proof {
            assert(views_of(v@.take(i + 1)).drop_last() =~= views_of(v@.take(i as int)));
            assert(views_of(v@.take(i + 1)).last() == v@[i as int]@);
        }
        if !str_eq(v[i].as_str(), g) {
            out.push(v[i].clone());
            proof {
                assert(views_of(out@) =~= views_of(before).push(v@[i as int]@));
            }
        }
        i = i + 1;
    }
    proof {
        assert(v@.take(v@.len() as int) =~= v@);
    }
    out
}

impl GroupsTab {
    /// The focused field's description, over the list of all groups.
    pub fn current_focus(&self, builtin: &Vec<String>) -> (r: FieldFocus)
        ensures
            r@ == groups_focus(
                self.edit_active,
                append_distinct(views_of(builtin@), views_of(self.custom_groups@)),
                self.cursor as int,
            ),
    {
        if self.edit_active {
            let groups = self.all_groups(builtin);
            let name = if self.cursor < groups.len() {
                concat_str("Editing: ", groups[self.cursor].as_str())
            } else {
                let n = owned("Editing: ");
                proof {
                    assert("Editing: "@ + ""@ =~= "Editing: "@) by {
                        reveal_strlit("");
                    }
                }
                n
            };
            proof {
                if self.cursor < groups@.len() {
                    assert(views_of(groups@)[self.cursor as int] == groups@[self.cursor as int]@);
                }
            }
            focus_with(name, "all", "↑↓ navigate · Space toggle · 'a' all · 'n' none · Esc back")
        } else {
            focus_with(
                owned("Check groups"),
                "all",
                "Enter to edit which check groups are enabled.",
            )
        }
    }

    /// Whether `name` is a custom group (listed as custom, not built-in).
    pub fn is_custom(&self, name: &str, builtin: &Vec<String>) -> (r: bool)
        ensures
            r == (views_of(self.custom_groups@).contains(name@) && !views_of(builtin@).contains(
                name@,
            )),
    {
        contains_text(&self.custom_groups, name) && !contains_text(builtin, name)
    }

    /// A key in the groups tab (see [`groups_step`]); `builtin` are the
    /// groups shipped with the tool.
    pub fn handle_key(&mut self, key: KeyEvent, sel: &mut GroupSelection, builtin: &Vec<String>) -> (r:
        TabOutcome)
        requires
            ({
                let n = append_distinct(views_of(builtin@), views_of(old(self).custom_groups@)).len();
                (old(self).edit_active && key.code == KeyCode::Char(' ') && n > 0) ==> old(
                    self,
                ).cursor < n
            }),
        ensures
            final(self).custom_groups@ == old(self).custom_groups@,
            ({
                let groups = append_distinct(
                    views_of(builtin@),
                    views_of(old(self).custom_groups@),
                );
                let (editing, cursor, m, res) = groups_step(
                    old(self).edit_active,
                    old(self).cursor as int,
                    old(sel)@,
                    groups,
                    key.code,
                );
                &&& final(self).edit_active == editing
                &&& final(self).cursor == cursor
                &&& final(sel)@ == m
                &&& r@ == res
            }),
    {
        let code = key.code;
        if !self.edit_active {
            if code == KeyCode::Enter || code == KeyCode::Char('l') {
                self.edit_active = true;
                return TabOutcome::FieldFocusChanged(self.current_focus(builtin));
            }
            return TabOutcome::Ignored;
        }
        if code == KeyCode::Esc || code == KeyCode::Left || code == KeyCode::Char('h') {
            self.edit_active = false;
            return TabOutcome::FieldFocusChanged(self.current_focus(builtin));
        }
        let groups = self.all_groups(builtin);
        if groups.len() == 0 {
            return TabOutcome::Ignored;
        }
        let outcome = handle_multi_select_key(key, self.cursor, groups.len());
        match outcome {
            MultiSelectKeyOutcome::CursorMoved(c) => {
                self.cursor = c;
                TabOutcome::Ignored
            },
            MultiSelectKeyOutcome::Toggled(i) => {
                let g = groups[i].as_str();
                proof {
                    assert(views_of(groups@)[i as int] == g@);
                }
                if contains_text(&sel.enabled_groups, g) {
                    let mut pos: usize = 0;
                    while pos < sel.enabled_groups.len() && !str_eq(
                        sel.enabled_groups[pos].as_str(),
                        g,
                    )
                        invariant
                            pos <= sel.enabled_groups@.len(),
                            views_of(sel.enabled_groups@).contains(g@),
                            forall|k: int| 0 <= k < pos ==> sel.enabled_groups@[k]@ != g@,
                        decreases sel.enabled_groups@.len() - pos,
                    {
                        pos = pos + 1;
                    }
                    proof {
                        if pos == sel.enabled_groups@.len() {
                            let k = choose|k: int|
                                0 <= k < views_of(sel.enabled_groups@).len() && views_of(
                                    sel.enabled_groups@,
                                )[k] == g@;
                            assert(sel.enabled_groups@[k]@ == g@);
                        }
                        lemma_first_index(views_of(sel.enabled_groups@), g@, pos as int);
                    }
                    let ghost before = sel.enabled_groups@;
                    let _ = sel.enabled_groups.remove(pos);
                    proof {
                        assert(views_of(sel.enabled_groups@) =~= views_of(before).remove(pos as int));
                    }
                    if !contains_text(&sel.disabled_groups, g) {
                        let ghost before_d = sel.disabled_groups@;
                        sel.disabled_groups.push(groups[i].clone());
                        proof {
                            assert(views_of(sel.disabled_groups@) =~= views_of(before_d).push(g@));
                        }
                    }
                } else {
                    let ghost before = sel.enabled_groups@;
                    sel.enabled_groups.push(groups[i].clone());
                    proof {
                        assert(views_of(sel.enabled_groups@) =~= views_of(before).push(g@));
                    }
                    let kept = remove_all(&sel.disabled_groups, g);
                    sel.disabled_groups = kept;
                }
                TabOutcome::Mutated
            },
            MultiSelectKeyOutcome::SelectAll => {
                sel.enabled_groups = groups;
                sel.disabled_groups = Vec::new();
                proof {
                    assert(views_of(sel.disabled_groups@) =~= Seq::<Seq<char>>::empty());
                }
                TabOutcome::Mutated
            },
            MultiSelectKeyOutcome::SelectNone => {
                sel.disabled_groups = groups;
                sel.enabled_groups = Vec::new();
                proof {
                    assert(views_of(sel.enabled_groups@) =~= Seq::<Seq<char>>::empty());
                }
                TabOutcome::Mutated
            },
            MultiSelectKeyOutcome::Ignored => TabOutcome::Ignored,
        }
    }
}

} // verus!
