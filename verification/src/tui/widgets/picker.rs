//! Searchable picker: the typed text filters the items, and when it is not
//! an existing item it can be taken as a new value.
use vstd::prelude::*;
use crate::text::{
    contains_seq, lowercase_of, pop_char, str_contains, str_eq, string_push, to_lowercase, trim,
    trimmed_string,
};
use crate::tui::keys::{KeyCode, KeyEvent};

verus! {

#[derive(Debug, Clone)]
pub struct PickerItem {
    pub value: String,
    /// Optional short badge, such as "built-in" or "custom".
    pub badge: Option<&'static str>,
}

/// The typed filter and a cursor into the visible rows.
#[derive(Debug, Clone, PartialEq, Eq)]
pub struct PickerState {
    pub filter: String,
    pub cursor: usize,
}

impl Default for PickerState {
    fn default() -> (r: Self)
        ensures
            r.filter@ == Seq::<char>::empty(),
            r.cursor == 0,
    {
        PickerState { filter: String::new(), cursor: 0 }
    }
}

#[derive(Debug, Clone, PartialEq, Eq)]
pub enum PickerOutcome {
    /// The key was not used.
    Ignored,
    Selected(String),
    Cancelled,
    /// The state changed; nothing to commit yet.
    StateChanged,
}

/// What a picker shows: its items, its state and whether it has focus.
pub struct Picker<'a> {
    pub items: &'a [PickerItem],
    pub state: &'a PickerState,
    pub focused: bool,
}

/// The rows a filter leaves visible.
pub struct VisibleRows {
    /// Indices into the items of the matching rows, in their order.
    pub matches: Vec<usize>,
    /// Whether the "use the typed text as a new value" row is shown.
    pub show_create: bool,
}

pub open spec fn item_values(items: Seq<PickerItem>) -> Seq<Seq<char>> {
    items.map_values(|it: PickerItem| it.value@)
}

/// An item matches when the lowercased filter is empty or occurs in the
/// lowercased item.
pub open spec fn item_matches(value: Seq<char>, filter: Seq<char>) -> bool {
    lowercase_of(filter).len() == 0 || contains_seq(lowercase_of(value), lowercase_of(filter))
}

/// Indices among the first `n` values that match the filter, in order.
pub open spec fn matching_indices(values: Seq<Seq<char>>, filter: Seq<char>, n: int) -> Seq<usize>
    decreases n,
{
    if n <= 0 {
        Seq::empty()
    } else {
        let rest = matching_indices(values, filter, n - 1);
        if item_matches(values[n - 1], filter) {
            rest.push((n - 1) as usize)
        } else {
            rest
        }
    }
}

pub open spec fn visible_matches(items: Seq<PickerItem>, filter: Seq<char>) -> Seq<usize> {
    matching_indices(item_values(items), filter, items.len() as int)
}

/// The new-value row shows when the trimmed filter is not empty and no
/// item is exactly the filter.
pub open spec fn shows_create(items: Seq<PickerItem>, filter: Seq<char>) -> bool {
    trim(filter).len() > 0 && !(exists|i: int| 0 <= i < items.len() && #[trigger] items[i].value@
        == filter)
}

/// Number of selectable rows.
pub open spec fn picker_total(items: Seq<PickerItem>, filter: Seq<char>) -> int {
    visible_matches(items, filter).len() + if shows_create(items, filter) {
        1int
    } else {
        0int
    }
}

/// The matching indices among the first `n` values are fewer than `n`
/// and each below `n`.
pub proof fn lemma_matching_indices(values: Seq<Seq<char>>, filter: Seq<char>, n: int)
    requires
        0 <= n <= values.len(),
    ensures
        matching_indices(values, filter, n).len() <= n,
        forall|k: int|
            0 <= k < matching_indices(values, filter, n).len() ==> #[trigger] matching_indices(
                values,
                filter,
                n,
            )[k] < n,
    decreases n,
{
    if n > 0 {
        lemma_matching_indices(values, filter, n - 1);
    }
}

/// Which rows the filter leaves visible.
pub fn compute_visible(items: &[PickerItem], filter: &str) -> (r: VisibleRows)
    ensures
        r.matches@ == visible_matches(items@, filter@),
        r.show_create == shows_create(items@, filter@),
{
    let f = to_lowercase(filter);
    let f_empty = f.as_str().is_empty();
    let mut matches: Vec<usize> = Vec::new();
    let mut exact = false;
    let mut i: usize = 0;
    while i < items.len()
        invariant
            i <= items@.len(),
            f@ == lowercase_of(filter@),
            f_empty == (f@.len() == 0),
            matches@ == matching_indices(item_values(items@), filter@, i as int),
            exact == (exists|k: int| 0 <= k < i && #[trigger] items@[k].value@ == filter@),
        decreases items@.len() - i,
    {
        let item = &items[i];
        let hit = if f_empty {
            true
        } else {
            let lv = to_lowercase(item.value.as_str());
            str_contains(lv.as_str(), f.as_str())
        };
        proof {
            assert(item_values(items@)[i as int] == items@[i as int].value@);
        }
        if hit {
            matches.push(i);
        }
        if str_eq(item.value.as_str(), filter) {
            exact = true;
        }
        i = i + 1;
    }
    let t = trimmed_string(filter);
    let show_create = !t.as_str().is_empty() && !exact;
    VisibleRows { matches, show_create }
}

/// What Enter picks: the row under the cursor (clamped to the last row),
/// either a matching item or the trimmed filter as a new value.
pub open spec fn enter_choice(items: Seq<PickerItem>, filter: Seq<char>, cursor: int) -> Option<
    Seq<char>,
> {
    let m = visible_matches(items, filter);
    let total = picker_total(items, filter);
    let c = if cursor <= total - 1 {
        cursor
    } else {
        total - 1
    };
    if total == 0 {
        None
    } else if c < m.len() {
        Some(items[m[c] as int].value@)
    } else if shows_create(items, filter) {
        Some(trim(filter))
    } else {
        None
    }
}

/// A picker outcome as a mathematical value.
pub enum PickerResult {
    Ignored,
    Selected(Seq<char>),
    Cancelled,
    StateChanged,
}

impl View for PickerOutcome {
    type V = PickerResult;

    open spec fn view(&self) -> PickerResult {
        match self {
            PickerOutcome::Ignored => PickerResult::Ignored,
            PickerOutcome::Selected(s) => PickerResult::Selected(s@),
            PickerOutcome::Cancelled => PickerResult::Cancelled,
            PickerOutcome::StateChanged => PickerResult::StateChanged,
        }
    }
}

/// What a key answers: arrows (and `k`/`j`) move the cursor when there
/// are rows, Enter picks, Esc cancels, Backspace and typed characters edit
/// the filter.
pub open spec fn picker_result(
    items: Seq<PickerItem>,
    filter: Seq<char>,
    cursor: int,
    code: KeyCode,
) -> PickerResult {
    let total = picker_total(items, filter);
    match code {
        KeyCode::Esc => PickerResult::Cancelled,
        KeyCode::Up | KeyCode::Char('k') | KeyCode::Down | KeyCode::Char('j') => if total == 0 {
            PickerResult::Ignored
        } else {
            PickerResult::StateChanged
        },
        KeyCode::Enter => match enter_choice(items, filter, cursor) {
            Some(v) => PickerResult::Selected(v),
            None => PickerResult::Ignored,
        },
        KeyCode::Backspace | KeyCode::Char(_) => PickerResult::StateChanged,
        _ => PickerResult::Ignored,
    }
}

/// The filter after a key: Backspace drops its last character, a typed
/// character is appended.
pub open spec fn picker_filter_after(filter: Seq<char>, code: KeyCode) -> Seq<char> {
    match code {
        KeyCode::Up | KeyCode::Char('k') | KeyCode::Down | KeyCode::Char('j') => filter,
        KeyCode::Backspace => if filter.len() > 0 {
            filter.drop_last()
        } else {
            filter
        },
        KeyCode::Char(c) => filter.push(c),
        _ => filter,
    }
}

/// The cursor after a key: arrows move round the visible rows, edits of
/// the filter put it back on the first row.
pub open spec fn picker_cursor_after(
    items: Seq<PickerItem>,
    filter: Seq<char>,
    cursor: int,
    code: KeyCode,
) -> int {
    let total = picker_total(items, filter);
    match code {
        KeyCode::Up | KeyCode::Char('k') => if total == 0 {
            cursor
        } else if cursor == 0 {
            total - 1
        } else {
            cursor - 1
        },
        KeyCode::Down | KeyCode::Char('j') => if total == 0 {
            cursor
        } else {
            (cursor + 1) % total
        },
        KeyCode::Backspace | KeyCode::Char(_) => 0,
        _ => cursor,
    }
}

/// A key press in a picker: arrows (and `k`/`j`) move the cursor round the
/// visible rows, Enter selects, Esc cancels, Backspace and typed
/// characters edit the filter and put the cursor back on the first row.
pub fn handle_picker_key(key: KeyEvent, state: &mut PickerState, items: &[PickerItem]) -> (r:
    PickerOutcome)
    requires
        items@.len() < usize::MAX,
    ensures
        r@ == picker_result(items@, old(state).filter@, old(state).cursor as int, key.code),
        final(state).filter@ == picker_filter_after(old(state).filter@, key.code),
        final(state).cursor == picker_cursor_after(
            items@,
            old(state).filter@,
            old(state).cursor as int,
            key.code,
        ),
{
    let v = compute_visible(items, state.filter.as_str());
    proof {
        lemma_matching_indices(item_values(items@), state.filter@, items@.len() as int);
    }
    let total: usize = v.matches.len() + if v.show_create {
        1
    } else {
        0
    };
    match key.code {
        KeyCode::Esc => PickerOutcome::Cancelled,
        KeyCode::Up | KeyCode::Char('k') => {
            if total == 0 {
                return PickerOutcome::Ignored;
            }
            state.cursor = if state.cursor == 0 {
                total - 1
            } else {
                state.cursor - 1
            };
            PickerOutcome::StateChanged
        },
        KeyCode::Down | KeyCode::Char('j') => {
            if total == 0 {
                return PickerOutcome::Ignored;
            }
            let c = state.cursor % total;
            proof {
                vstd::arithmetic::div_mod::lemma_add_mod_noop(c as int, 1, total as int);
                vstd::arithmetic::div_mod::lemma_mod_twice(state.cursor as int, total as int);
                vstd::arithmetic::div_mod::lemma_add_mod_noop(state.cursor as int, 1, total as int);
            }
            state.cursor = (c + 1) % total;
            PickerOutcome::StateChanged
        },
        KeyCode::Enter => {
            if total == 0 {
                return PickerOutcome::Ignored;
            }
            let cursor = if state.cursor <= total - 1 {
                state.cursor
            } else {
                total - 1
            };
            if cursor < v.matches.len() {
                let value = items[v.matches[cursor]].value.clone();
                PickerOutcome::Selected(value)
            } else if v.show_create {
                PickerOutcome::Selected(trimmed_string(state.filter.as_str()))
            } else {
                PickerOutcome::Ignored
            }
        },
        KeyCode::Backspace => {
            pop_char(&mut state.filter);
            state.cursor = 0;
            PickerOutcome::StateChanged
        },
        KeyCode::Char(c) => {
            string_push(&mut state.filter, c);
            state.cursor = 0;
            PickerOutcome::StateChanged
        },
        _ => PickerOutcome::Ignored,
    }
}

/// What the picker answers depends on the items' values alone.
pub proof fn lemma_picker_values_only(
    a: Seq<PickerItem>,
    b: Seq<PickerItem>,
    filter: Seq<char>,
    cursor: int,
    code: KeyCode,
)
    requires
        item_values(a) == item_values(b),
        0 <= cursor,
    ensures
        picker_result(a, filter, cursor, code) == picker_result(b, filter, cursor, code),
        picker_cursor_after(a, filter, cursor, code) == picker_cursor_after(
            b,
            filter,
            cursor,
            code,
        ),
{
    assert(a.len() == item_values(a).len());
    assert(b.len() == item_values(b).len());
    assert forall|i: int| 0 <= i < a.len() implies #[trigger] a[i].value@ == b[i].value@ by {
        assert(item_values(a)[i] == a[i].value@);
        assert(item_values(b)[i] == b[i].value@);
    }
    assert(visible_matches(a, filter) == visible_matches(b, filter));
    assert(shows_create(a, filter) == shows_create(b, filter)) by {
        if shows_create(a, filter) != shows_create(b, filter) {
            if exists|i: int| 0 <= i < a.len() && #[trigger] a[i].value@ == filter {
                let i = choose|i: int| 0 <= i < a.len() && #[trigger] a[i].value@ == filter;
                assert(b[i].value@ == filter);
            } else {
                let i = choose|i: int| 0 <= i < b.len() && #[trigger] b[i].value@ == filter;
                assert(a[i].value@ == filter);
            }
        }
    }
    let m = visible_matches(a, filter);
    lemma_matching_indices(item_values(a), filter, a.len() as int);
    assert(enter_choice(a, filter, cursor) == enter_choice(b, filter, cursor)) by {
        let total = picker_total(a, filter);
        let c = if cursor <= total - 1 {
            cursor
        } else {
            total - 1
        };
        if total != 0 && c < m.len() {
            assert(0 <= c);
            assert(m[c] < a.len());
            assert(a[m[c] as int].value@ == b[m[c] as int].value@);
        }
    }
}

/// Typing a character and then Backspace gives the filter back (`k` and
/// `j` move the cursor instead of being typed).
pub proof fn lemma_type_then_backspace(filter: Seq<char>, c: char)
    requires
        c != 'k' && c != 'j',
    ensures
        picker_filter_after(picker_filter_after(filter, KeyCode::Char(c)), KeyCode::Backspace)
            == filter,
{
    assert(filter.push(c).drop_last() =~= filter);
}

} // verus!
