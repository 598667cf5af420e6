//! Custom-check authoring form: identifier uniqueness, the order of the
//! form's fields and the form's sub-states.
use vstd::prelude::*;
use crate::engine::pattern::{regex_compiles, regex_error_text, Pattern};
use crate::text::{
    concat_str, debug_quoted, debug_text, decimal, decimal_text, owned, pop_char, str_chars, str_eq,
    string_from_range, string_push, trim, trimmed_string,
};
use crate::tui::custom_check::{
    clone_filters, filters_view, opt_view, Challenge, Check, CheckModel, Filter, FilterModel,
    Severity,
};
use crate::tui::keys::{KeyCode, KeyEvent};
use crate::tui::widgets::picker::{
    handle_picker_key, item_values, picker_cursor_after, picker_filter_after, picker_result,
    PickerItem, PickerOutcome, PickerResult, PickerState,
};
use crate::tui::widgets::radio::{handle_radio_key, radio_step};
use crate::tui::widgets::text_input::{edit_of, edit_text, TextInput};

verus! {

/// The identifiers already in use (built-in and custom checks).
#[derive(Debug, Clone)]
pub struct IdUniquenessValidator {
    pool: Vec<String>,
}

pub open spec fn strings_set(v: Seq<String>) -> Set<Seq<char>> {
    Set::new(|s: Seq<char>| exists|i: int| 0 <= i < v.len() && #[trigger] v[i]@ == s)
}

impl View for IdUniquenessValidator {
    type V = Set<Seq<char>>;

    closed spec fn view(&self) -> Set<Seq<char>> {
        strings_set(self.pool@)
    }
}

impl IdUniquenessValidator {
    /// A validator whose pool holds every built-in and every custom id.
    pub fn new(builtin: Vec<String>, custom: Vec<String>) -> (r: Self)
        ensures
            r@ == strings_set(builtin@).union(strings_set(custom@)),
    {
        let mut pool = builtin;
        let ghost b = pool@;
        let mut i: usize = 0;
        while i < custom.len()
            invariant
                i <= custom@.len(),
                pool@ == b + custom@.take(i as int),
            decreases custom@.len() - i,
        {
            pool.push(custom[i].clone());
            proof {
                assert(custom@.take(i + 1) =~= custom@.take(i as int).push(custom@[i as int]));
            }
            i = i + 1;
        }
        proof {
            assert(custom@.take(custom@.len() as int) =~= custom@);
            let all = b + custom@;
            assert forall|s: Seq<char>|
                strings_set(all).contains(s) <==> strings_set(b).union(
                    strings_set(custom@),
                ).contains(s) by {
                if strings_set(all).contains(s) {
                    let k = choose|k: int| 0 <= k < all.len() && #[trigger] all[k]@ == s;
                    if k >= b.len() {
                        assert(custom@[k - b.len()]@ == s);
                    }
                }
                if strings_set(b).contains(s) {
                    let k = choose|k: int| 0 <= k < b.len() && #[trigger] b[k]@ == s;
                    assert(all[k]@ == s);
                }
                if strings_set(custom@).contains(s) {
                    let k = choose|k: int| 0 <= k < custom@.len() && #[trigger] custom@[k]@ == s;
                    assert(all[b.len() + k]@ == s);
                }
            }
            assert(strings_set(all) =~= strings_set(b).union(strings_set(custom@)));
        }
        IdUniquenessValidator { pool }
    }

    /// True iff `id` is not empty and not in use.
    pub fn is_unique(&self, id: &str) -> (r: bool)
        ensures
            r == (id@.len() > 0 && !self@.contains(id@)),
    {
        if id.is_empty() {
            return false;
        }
        let mut i: usize = 0;
        while i < self.pool.len()
            invariant
                i <= self.pool@.len(),
                forall|k: int| 0 <= k < i ==> (#[trigger] self.pool@[k])@ != id@,
            decreases self.pool@.len() - i,
        {
            if str_eq(self.pool[i].as_str(), id) {
                proof {
                    assert(strings_set(self.pool@).contains(id@));
                }
                return false;
            }
            i = i + 1;
        }
        true
    }

    /// Frees `id`, so that a check being edited may keep its own id.
    pub fn allow_existing(&mut self, id: &str)
        ensures
            final(self)@ == old(self)@.remove(id@),
    {
        let mut kept: Vec<String> = Vec::new();
        let mut i: usize = 0;
        while i < self.pool.len()
            invariant
                i <= self.pool@.len(),
                forall|s: Seq<char>|
                    strings_set(kept@).contains(s) <==> (s != id@ && exists|k: int|
                        0 <= k < i && #[trigger] self.pool@[k]@ == s),
            decreases self.pool@.len() - i,
        {
            let ghost before = kept@;
            if !str_eq(self.pool[i].as_str(), id) {
                kept.push(self.pool[i].clone());
            }
            proof {
                assert forall|s: Seq<char>|
                    strings_set(kept@).contains(s) <==> (s != id@ && exists|k: int|
                        0 <= k < i + 1 && #[trigger] self.pool@[k]@ == s) by {
                    if strings_set(kept@).contains(s) {
                        let q = choose|q: int| 0 <= q < kept@.len() && #[trigger] kept@[q]@ == s;
                        if q < before.len() {
                            assert(before[q]@ == s);
                            assert(strings_set(before).contains(s));
                        } else {
                            assert(self.pool@[i as int]@ == s);
                        }
                    }
                    if s != id@ && exists|k: int| 0 <= k < i + 1 && #[trigger] self.pool@[k]@
                        == s {
                        let k = choose|k: int| 0 <= k < i + 1 && #[trigger] self.pool@[k]@ == s;
                        if k < i {
                            assert(strings_set(before).contains(s));
                            let q = choose|q: int|
                                0 <= q < before.len() && #[trigger] before[q]@ == s;
                            assert(kept@[q]@ == s);
                        } else {
                            assert(kept@[kept@.len() - 1]@ == s);
                        }
                    }
                }
            }
            i = i + 1;
        }
        proof {
            assert(strings_set(kept@) =~= strings_set(self.pool@).remove(id@));
        }
        self.pool = kept;
    }
}

/// Once freed, an id other than the empty one counts as unique.
pub proof fn lemma_freed_id_is_available(v: Set<Seq<char>>, id: Seq<char>)
    requires
        id.len() > 0,
    ensures
        !v.remove(id).contains(id),
{
}

/// Whether the form creates a check or edits an existing one.
#[derive(Debug, Clone)]
pub enum FormMode {
    Create,
    Edit { original_id: String, original_from: String },
}

/// The form's fields, in the order in which the form walks them.
#[derive(Debug, Clone, Copy, PartialEq, Eq, Structural)]
pub enum FormFocus {
    Id,
    From,
    Test,
    Description,
    Severity,
    Challenge,
    Alternative,
    AlternativeInfo,
    Filters,
    Submit,
    Cancel,
}

/// The title of a field of the form.
pub open spec fn focus_label_of(f: FormFocus) -> Seq<char> {
    match f {
        FormFocus::Id => "ID"@,
        FormFocus::From => "Group"@,
        FormFocus::Test => "Test (regex)"@,
        FormFocus::Description => "Description"@,
        FormFocus::Severity => "Severity"@,
        FormFocus::Challenge => "Challenge"@,
        FormFocus::Alternative => "Alternative"@,
        FormFocus::AlternativeInfo => "Alternative info"@,
        FormFocus::Filters => "Filters"@,
        FormFocus::Submit => "Save"@,
        FormFocus::Cancel => "Cancel"@,
    }
}

pub fn focus_label(f: FormFocus) -> (r: &'static str)
    ensures
        r@ == focus_label_of(f),
{
    match f {
        FormFocus::Id => "ID",
        FormFocus::From => "Group",
        FormFocus::Test => "Test (regex)",
        FormFocus::Description => "Description",
        FormFocus::Severity => "Severity",
        FormFocus::Challenge => "Challenge",
        FormFocus::Alternative => "Alternative",
        FormFocus::AlternativeInfo => "Alternative info",
        FormFocus::Filters => "Filters",
        FormFocus::Submit => "Save",
        FormFocus::Cancel => "Cancel",
    }
}

/// The help shown under a field's title.
pub open spec fn focus_help_of(f: FormFocus) -> Seq<char> {
    match f {
        FormFocus::Id => "Unique name for this check across all groups. Format: <group>:<name>. Example: my_team:no_force_push."@,
        FormFocus::From => "Pick the category this check belongs to, or type a new name and press Enter to create a new group."@,
        FormFocus::Test => "Regular expression that matches the risky command. Validated live as you type. Example: \\bgit\\s+push\\s+--force\\b"@,
        FormFocus::Description => "Short message shown to the user when the check fires. Explain the risk in one sentence."@,
        FormFocus::Severity => "How serious a match is (Info → Critical). Higher severity surfaces a harder challenge and can block the command in AI mode."@,
        FormFocus::Challenge => "How the user must confirm: Math (solve a problem), Enter (press Enter), or Yes (type \"yes\"). Math is the default."@,
        FormFocus::Alternative => "Optional safer command shown alongside the warning. Purely informational — never auto-run. Example: trash <path> instead of rm -rf <path>."@,
        FormFocus::AlternativeInfo => "Optional one-line reason the alternative is safer. Helps the user decide. Example: \"Files go to Trash and can be restored.\""@,
        FormFocus::Filters => "Optional conditions that must hold for the check to fire (e.g. file path exists, command contains a word). Press '+' to add, 'd' to remove the last."@,
        FormFocus::Submit => "Validate all fields and save the check."@,
        FormFocus::Cancel => "Discard the form and return to the Custom tab."@,
    }
}

pub fn focus_help(f: FormFocus) -> (r: &'static str)
    ensures
        r@ == focus_help_of(f),
{
    match f {
        FormFocus::Id => "Unique name for this check across all groups. Format: <group>:<name>. Example: my_team:no_force_push.",
        FormFocus::From => "Pick the category this check belongs to, or type a new name and press Enter to create a new group.",
        FormFocus::Test => "Regular expression that matches the risky command. Validated live as you type. Example: \\bgit\\s+push\\s+--force\\b",
        FormFocus::Description => "Short message shown to the user when the check fires. Explain the risk in one sentence.",
        FormFocus::Severity => "How serious a match is (Info → Critical). Higher severity surfaces a harder challenge and can block the command in AI mode.",
        FormFocus::Challenge => "How the user must confirm: Math (solve a problem), Enter (press Enter), or Yes (type \"yes\"). Math is the default.",
        FormFocus::Alternative => "Optional safer command shown alongside the warning. Purely informational — never auto-run. Example: trash <path> instead of rm -rf <path>.",
        FormFocus::AlternativeInfo => "Optional one-line reason the alternative is safer. Helps the user decide. Example: \"Files go to Trash and can be restored.\"",
        FormFocus::Filters => "Optional conditions that must hold for the check to fire (e.g. file path exists, command contains a word). Press '+' to add, 'd' to remove the last.",
        FormFocus::Submit => "Validate all fields and save the check.",
        FormFocus::Cancel => "Discard the form and return to the Custom tab.",
    }
}

/// Number of steps of the form.
pub const FOCUS_STEPS: usize = 11;

/// The field at a step of the form.
pub open spec fn focus_of(idx: int) -> FormFocus {
    if idx == 0 {
        FormFocus::Id
    } else if idx == 1 {
        FormFocus::From
    } else if idx == 2 {
        FormFocus::Test
    } else if idx == 3 {
        FormFocus::Description
    } else if idx == 4 {
        FormFocus::Severity
    } else if idx == 5 {
        FormFocus::Challenge
    } else if idx == 6 {
        FormFocus::Alternative
    } else if idx == 7 {
        FormFocus::AlternativeInfo
    } else if idx == 8 {
        FormFocus::Filters
    } else if idx == 9 {
        FormFocus::Submit
    } else {
        FormFocus::Cancel
    }
}

/// The field at step `idx`.
pub fn focus_at(idx: usize) -> (r: FormFocus)
    requires
        idx < FOCUS_STEPS,
    ensures
        r == focus_of(idx as int),
{
    match idx {
        0 => FormFocus::Id,
        1 => FormFocus::From,
        2 => FormFocus::Test,
        3 => FormFocus::Description,
        4 => FormFocus::Severity,
        5 => FormFocus::Challenge,
        6 => FormFocus::Alternative,
        7 => FormFocus::AlternativeInfo,
        8 => FormFocus::Filters,
        9 => FormFocus::Submit,
        _ => FormFocus::Cancel,
    }
}

/// The step of a field.
pub fn focus_index(f: FormFocus) -> (r: usize)
    ensures
        r < FOCUS_STEPS,
        focus_of(r as int) == f,
{
    match f {
        FormFocus::Id => 0,
        FormFocus::From => 1,
        FormFocus::Test => 2,
        FormFocus::Description => 3,
        FormFocus::Severity => 4,
        FormFocus::Challenge => 5,
        FormFocus::Alternative => 6,
        FormFocus::AlternativeInfo => 7,
        FormFocus::Filters => 8,
        FormFocus::Submit => 9,
        FormFocus::Cancel => 10,
    }
}

/// The step after `idx`, round to the first after the last.
pub fn next_focus_index(idx: usize) -> (r: usize)
    requires
        idx < FOCUS_STEPS,
    ensures
        r == (idx + 1) % (FOCUS_STEPS as int),
{
    (idx + 1) % FOCUS_STEPS
}

/// The step before `idx`, round to the last before the first.
pub fn prev_focus_index(idx: usize) -> (r: usize)
    requires
        idx < FOCUS_STEPS,
    ensures
        r == if idx == 0 {
            FOCUS_STEPS - 1
        } else {
            idx - 1
        },
{
    if idx == 0 {
        FOCUS_STEPS - 1
    } else {
        idx - 1
    }
}

/// Going forward one step and back one lands where it started, and the
/// other way round.
pub proof fn lemma_focus_steps_undo(idx: int)
    requires
        0 <= idx < FOCUS_STEPS,
    ensures
        ({
            let n = (idx + 1) % (FOCUS_STEPS as int);
            (if n == 0 {
                FOCUS_STEPS - 1
            } else {
                n - 1
            }) == idx
        }),
        ({
            let p = if idx == 0 {
                FOCUS_STEPS - 1
            } else {
                idx - 1
            };
            (p + 1) % (FOCUS_STEPS as int) == idx
        }),
{
}

/// The inline filter being added.
#[derive(Debug, Clone)]
pub enum FilterAdd {
    /// Waiting for `c` (contains) or `n` (does not contain).
    PickType,
    EnterValue { kind: FilterKind, buffer: String },
}

#[derive(Debug, Clone, Copy, PartialEq, Eq, Structural)]
pub enum FilterKind {
    Contains,
    NotContains,
}

/// Live validation result for one field.
#[derive(Debug, Clone, PartialEq, Eq)]
pub enum FieldValidity {
    /// Filled correctly; the message says so.
    Valid(String),
    /// Empty or malformed; the message says why.
    Invalid(String),
    /// An optional field with nothing in it.
    Empty,
}


// ---------------------------------------------------------------- the form

/// Number of severities offered.
pub const SEVERITY_COUNT: usize = 5;

/// Number of challenges offered.
pub const CHALLENGE_COUNT: usize = 3;

pub open spec fn severity_label(i: int) -> Seq<char> {
    if i == 0 {
        "Info"@
    } else if i == 1 {
        "Low"@
    } else if i == 2 {
        "Medium"@
    } else if i == 3 {
        "High"@
    } else {
        "Critical"@
    }
}

pub open spec fn challenge_label(i: int) -> Seq<char> {
    if i == 1 {
        "Enter"@
    } else if i == 2 {
        "Yes"@
    } else {
        "Math"@
    }
}

pub open spec fn severity_of(i: int) -> Severity {
    if i == 0 {
        Severity::Info
    } else if i == 1 {
        Severity::Low
    } else if i == 2 {
        Severity::Medium
    } else if i == 3 {
        Severity::High
    } else {
        Severity::Critical
    }
}

pub open spec fn challenge_of(i: int) -> Challenge {
    if i == 1 {
        Challenge::Enter
    } else if i == 2 {
        Challenge::Yes
    } else {
        Challenge::Math
    }
}

pub open spec fn severity_index(s: Severity) -> int {
    match s {
        Severity::Info => 0,
        Severity::Low => 1,
        Severity::Medium => 2,
        Severity::High => 3,
        Severity::Critical => 4,
    }
}

pub open spec fn challenge_index(c: Challenge) -> int {
    match c {
        Challenge::Math => 0,
        Challenge::Enter => 1,
        Challenge::Yes => 2,
    }
}

fn sev_idx(s: Severity) -> (r: usize)
    ensures
        r == severity_index(s),
{
    match s {
        Severity::Info => 0,
        Severity::Low => 1,
        Severity::Medium => 2,
        Severity::High => 3,
        Severity::Critical => 4,
    }
}

fn sev_from_idx(i: usize) -> (r: Severity)
    ensures
        r == severity_of(i as int),
{
    match i {
        0 => Severity::Info,
        1 => Severity::Low,
        2 => Severity::Medium,
        3 => Severity::High,
        _ => Severity::Critical,
    }
}

fn ch_idx(c: Challenge) -> (r: usize)
    ensures
        r == challenge_index(c),
{
    match c {
        Challenge::Math => 0,
        Challenge::Enter => 1,
        Challenge::Yes => 2,
    }
}

fn ch_from_idx(i: usize) -> (r: Challenge)
    ensures
        r == challenge_of(i as int),
{
    match i {
        1 => Challenge::Enter,
        2 => Challenge::Yes,
        _ => Challenge::Math,
    }
}

fn severity_name(i: usize) -> (r: String)
    ensures
        r@ == severity_label(i as int),
{
    match i {
        0 => owned("Info"),
        1 => owned("Low"),
        2 => owned("Medium"),
        3 => owned("High"),
        _ => owned("Critical"),
    }
}

fn challenge_name(i: usize) -> (r: String)
    ensures
        r@ == challenge_label(i as int),
{
    match i {
        1 => owned("Enter"),
        2 => owned("Yes"),
        _ => owned("Math"),
    }
}

/// The inline filter being added, as a mathematical value.
pub enum FilterAddModel {
    PickType,
    EnterValue(FilterKind, Seq<char>),
}

impl View for FilterAdd {
    type V = FilterAddModel;

    open spec fn view(&self) -> FilterAddModel {
        match self {
            FilterAdd::PickType => FilterAddModel::PickType,
            FilterAdd::EnterValue { kind, buffer } => FilterAddModel::EnterValue(*kind, buffer@),
        }
    }
}

pub enum ValidityModel {
    Valid(Seq<char>),
    Invalid(Seq<char>),
    Empty,
}

impl View for FieldValidity {
    type V = ValidityModel;

    open spec fn view(&self) -> ValidityModel {
        match self {
            FieldValidity::Valid(s) => ValidityModel::Valid(s@),
            FieldValidity::Invalid(s) => ValidityModel::Invalid(s@),
            FieldValidity::Empty => ValidityModel::Empty,
        }
    }
}

/// What a key did in the form.
#[derive(Debug)]
pub enum FormOutcome {
    /// Nothing to commit.
    Ignored,
    /// Submitted with every field valid: the check built from them.
    Saved(Check),
    Cancelled,
}

pub enum FormResult {
    Ignored,
    Saved(CheckModel),
    Cancelled,
}

impl View for FormOutcome {
    type V = FormResult;

    open spec fn view(&self) -> FormResult {
        match self {
            FormOutcome::Ignored => FormResult::Ignored,
            FormOutcome::Saved(c) => FormResult::Saved(c@),
            FormOutcome::Cancelled => FormResult::Cancelled,
        }
    }
}

/// The custom-check authoring form.
#[derive(Debug)]
pub struct CheckForm {
    pub mode: FormMode,
    pub id_input: TextInput,
    pub from_picker: PickerState,
    pub from_value: String,
    pub from_options: Vec<PickerItem>,
    pub test_input: TextInput,
    pub description_input: TextInput,
    pub severity_idx: usize,
    pub challenge_idx: usize,
    pub alternative_input: TextInput,
    pub alternative_info_input: TextInput,
    pub filters: Vec<Filter>,
    /// The filter being added, if any.
    pub adding_filter: Option<FilterAdd>,
    pub focus_idx: usize,
    pub validator: IdUniquenessValidator,
    /// The last error, shown at the bottom of the form.
    pub error_message: Option<String>,
}

/// The form as a mathematical value.
pub struct FormModel {
    pub mode: FormMode,
    pub id: Seq<char>,
    /// The cursors of the five text fields, in form order.
    pub id_cursor: usize,
    pub test_cursor: usize,
    pub description_cursor: usize,
    pub alternative_cursor: usize,
    pub alternative_info_cursor: usize,
    pub picker_filter: Seq<char>,
    pub picker_cursor: int,
    pub from_value: Seq<char>,
    pub from_options: Seq<PickerItem>,
    pub test: Seq<char>,
    pub description: Seq<char>,
    pub severity_idx: int,
    pub challenge_idx: int,
    pub alternative: Seq<char>,
    pub alternative_info: Seq<char>,
    pub filters: Seq<FilterModel>,
    pub adding: Option<FilterAddModel>,
    pub focus_idx: int,
    pub validator: Set<Seq<char>>,
    pub error: Option<Seq<char>>,
}

pub open spec fn is_text_focus(f: FormFocus) -> bool {
    f is Id || f is Test || f is Description || f is Alternative || f is AlternativeInfo
}

/// Live validation of one field of the form.
pub open spec fn validity_of(m: FormModel, f: FormFocus) -> ValidityModel {
    match f {
        FormFocus::Id => {
            let v = trim(m.id);
            if v.len() == 0 {
                ValidityModel::Invalid("ID is required"@)
            } else if m.validator.contains(v) {
                ValidityModel::Invalid("ID is already in use"@)
            } else {
                ValidityModel::Valid("Looks good"@)
            }
        },
        FormFocus::From => if trim(m.from_value).len() == 0 {
            ValidityModel::Invalid("Group is required"@)
        } else {
            ValidityModel::Valid("Selected: "@ + m.from_value)
        },
        FormFocus::Test => {
            let v = trim(m.test);
            if v.len() == 0 {
                ValidityModel::Invalid("Pattern is required"@)
            } else if regex_compiles(v) {
                ValidityModel::Valid("Regex compiles"@)
            } else {
                ValidityModel::Invalid("Invalid regex: "@ + regex_error_text(v))
            }
        },
        FormFocus::Description => if trim(m.description).len() == 0 {
            ValidityModel::Invalid("Description is required"@)
        } else {
            ValidityModel::Valid("Looks good"@)
        },
        FormFocus::Severity => ValidityModel::Valid(severity_label(m.severity_idx)),
        FormFocus::Challenge => ValidityModel::Valid(challenge_label(m.challenge_idx)),
        FormFocus::Alternative => if trim(m.alternative).len() == 0 {
            ValidityModel::Empty
        } else {
            ValidityModel::Valid("Set"@)
        },
        FormFocus::AlternativeInfo => if trim(m.alternative_info).len() == 0 {
            ValidityModel::Empty
        } else {
            ValidityModel::Valid("Set"@)
        },
        FormFocus::Filters => if m.filters.len() == 0 {
            ValidityModel::Empty
        } else {
            ValidityModel::Valid(decimal_text(m.filters.len()) + " filter(s)"@)
        },
        FormFocus::Submit | FormFocus::Cancel => ValidityModel::Empty,
    }
}

/// Why the form cannot be saved, checked field by field in this order;
/// `None` when it can.
pub open spec fn submit_error(m: FormModel) -> Option<Seq<char>> {
    let id = trim(m.id);
    if id.len() == 0 {
        Some("ID is required."@)
    } else if m.validator.contains(id) {
        Some("ID "@ + debug_text(id) + " is already in use."@)
    } else if trim(m.from_value).len() == 0 {
        Some("Group (from) is required."@)
    } else if !regex_compiles(trim(m.test)) {
        Some("Test regex does not compile: "@ + regex_error_text(trim(m.test)))
    } else if trim(m.description).len() == 0 {
        Some("Description is required."@)
    } else {
        None
    }
}

pub open spec fn optional_text(t: Seq<char>) -> Option<Seq<char>> {
    if t.len() == 0 {
        None
    } else {
        Some(t)
    }
}

/// The check a valid form saves: every text trimmed, empty optional texts
/// left out.
pub open spec fn submitted_check(m: FormModel) -> CheckModel {
    CheckModel {
        id: trim(m.id),
        test: trim(m.test),
        description: trim(m.description),
        from: trim(m.from_value),
        challenge: challenge_of(m.challenge_idx),
        filters: m.filters,
        alternative: optional_text(trim(m.alternative)),
        alternative_info: optional_text(trim(m.alternative_info)),
        severity: severity_of(m.severity_idx),
    }
}

pub open spec fn submit_step(m: FormModel) -> (FormModel, FormResult) {
    match submit_error(m) {
        Some(e) => (FormModel { error: Some(e), ..m }, FormResult::Ignored),
        None => (m, FormResult::Saved(submitted_check(m))),
    }
}

pub open spec fn filter_of(kind: FilterKind, t: Seq<char>) -> FilterModel {
    match kind {
        FilterKind::Contains => FilterModel::Contains(t),
        FilterKind::NotContains => FilterModel::NotContains(t),
    }
}

/// A key while a filter is being added: in the first step `c` or `n`
/// picks the kind; then typed characters and Backspace edit the value and
/// Enter adds the trimmed value (when not empty). Esc gives up.
pub open spec fn adding_step(a: FilterAddModel, code: KeyCode, filters: Seq<FilterModel>) -> (
    Option<FilterAddModel>,
    Seq<FilterModel>,
) {
    match a {
        FilterAddModel::PickType => if code is Esc {
            (None, filters)
        } else if code == KeyCode::Char('c') {
            (Some(FilterAddModel::EnterValue(FilterKind::Contains, Seq::empty())), filters)
        } else if code == KeyCode::Char('n') {
            (Some(FilterAddModel::EnterValue(FilterKind::NotContains, Seq::empty())), filters)
        } else {
            (Some(FilterAddModel::PickType), filters)
        },
        FilterAddModel::EnterValue(kind, buffer) => match code {
            KeyCode::Esc => (None, filters),
            KeyCode::Enter => (
                None,
                if trim(buffer).len() > 0 {
                    filters.push(filter_of(kind, trim(buffer)))
                } else {
                    filters
                },
            ),
            KeyCode::Backspace => (
                Some(
                    FilterAddModel::EnterValue(
                        kind,
                        if buffer.len() > 0 {
                            buffer.drop_last()
                        } else {
                            buffer
                        },
                    ),
                ),
                filters,
            ),
            KeyCode::Char(c) => (Some(FilterAddModel::EnterValue(kind, buffer.push(c))), filters),
            _ => (Some(a), filters),
        },
    }
}

pub open spec fn next_step(i: int) -> int {
    (i + 1) % (FOCUS_STEPS as int)
}

/// What a key does to the form. A filter being added takes every key;
/// otherwise Ctrl+S submits, Esc cancels, Tab and BackTab move between
/// fields, Enter on a text field moves on only when the field is valid (or
/// empty and optional), else shows why; text fields hand other keys to the
/// text input; the group field is a picker whose choice moves on; severity
/// and challenge are radio groups (Enter moves on); on the filters `+`
/// starts adding one, `d` drops the last, Enter moves on; Enter or space
/// on Save submits and on Cancel cancels.
pub open spec fn form_step(m: FormModel, key: KeyEvent) -> (FormModel, FormResult) {
    let code = key.code;
    match m.adding {
        Some(a) => {
            let (adding, filters) = adding_step(a, code, m.filters);
            (FormModel { adding: adding, filters: filters, ..m }, FormResult::Ignored)
        },
        None => if code == KeyCode::Char('s') && key.modifiers.control {
            submit_step(m)
        } else if code is Esc {
            (m, FormResult::Cancelled)
        } else if code is Tab {
            (FormModel { focus_idx: next_step(m.focus_idx), ..m }, FormResult::Ignored)
        } else if code is BackTab {
            (
                FormModel {
                    focus_idx: if m.focus_idx == 0 {
                        FOCUS_STEPS - 1
                    } else {
                        m.focus_idx - 1
                    },
                    ..m
                },
                FormResult::Ignored,
            )
        } else {
            let cur = focus_of(m.focus_idx);
            if is_text_focus(cur) && code is Enter {
                match validity_of(m, cur) {
                    ValidityModel::Invalid(msg) => (
                        FormModel { error: Some(msg), ..m },
                        FormResult::Ignored,
                    ),
                    _ => (
                        FormModel { error: None, focus_idx: next_step(m.focus_idx), ..m },
                        FormResult::Ignored,
                    ),
                }
            } else if is_text_focus(cur) {
                (text_key(m, cur, key), FormResult::Ignored)
            } else {
                match cur {
                    FormFocus::From => {
                        let res = picker_result(
                            m.from_options,
                            m.picker_filter,
                            m.picker_cursor,
                            code,
                        );
                        match res {
                            PickerResult::Selected(v) => (
                                FormModel {
                                    from_value: v,
                                    picker_filter: Seq::empty(),
                                    picker_cursor: 0,
                                    focus_idx: next_step(m.focus_idx),
                                    ..m
                                },
                                FormResult::Ignored,
                            ),
                            _ => (
                                FormModel {
                                    picker_filter: picker_filter_after(m.picker_filter, code),
                                    picker_cursor: picker_cursor_after(
                                        m.from_options,
                                        m.picker_filter,
                                        m.picker_cursor,
                                        code,
                                    ),
                                    ..m
                                },
                                FormResult::Ignored,
                            ),
                        }
                    },
                    FormFocus::Severity => if code is Enter {
                        (FormModel { focus_idx: next_step(m.focus_idx), ..m }, FormResult::Ignored)
                    } else {
                        (
                            FormModel {
                                severity_idx: radio_step(
                                    code,
                                    m.severity_idx,
                                    SEVERITY_COUNT as int,
                                ),
                                ..m
                            },
                            FormResult::Ignored,
                        )
                    },
                    FormFocus::Challenge => if code is Enter {
                        (FormModel { focus_idx: next_step(m.focus_idx), ..m }, FormResult::Ignored)
                    } else {
                        (
                            FormModel {
                                challenge_idx: radio_step(
                                    code,
                                    m.challenge_idx,
                                    CHALLENGE_COUNT as int,
                                ),
                                ..m
                            },
                            FormResult::Ignored,
                        )
                    },
                    FormFocus::Filters => if code == KeyCode::Char('+') {
                        (
                            FormModel { adding: Some(FilterAddModel::PickType), ..m },
                            FormResult::Ignored,
                        )
                    } else if code is Enter {
                        (FormModel { focus_idx: next_step(m.focus_idx), ..m }, FormResult::Ignored)
                    } else if code == KeyCode::Char('d') {
                        (
                            FormModel {
                                filters: if m.filters.len() > 0 {
                                    m.filters.drop_last()
                                } else {
                                    m.filters
                                },
                                ..m
                            },
                            FormResult::Ignored,
                        )
                    } else {
                        (m, FormResult::Ignored)
                    },
                    FormFocus::Submit => if code is Enter || code == KeyCode::Char(' ') {
                        submit_step(m)
                    } else {
                        (m, FormResult::Ignored)
                    },
                    _ => if code is Enter || code == KeyCode::Char(' ') {
                        (m, FormResult::Cancelled)
                    } else {
                        (m, FormResult::Ignored)
                    },
                }
            }
        },
    }
}

/// The group an id names before its first `:`, trimmed, when there is a
/// `:` and that part is not blank.
pub open spec fn group_prefix(id: Seq<char>) -> Option<Seq<char>> {
    if exists|k: int| 0 <= k < id.len() && id[k] == ':' {
        let k = choose|k: int|
            0 <= k < id.len() && id[k] == ':' && forall|q: int| 0 <= q < k ==> id[q] != ':';
        let p = trim(id.take(k));
        if p.len() > 0 {
            Some(p)
        } else {
            None
        }
    } else {
        None
    }
}

/// New text for a text field. For the id, while no group is chosen, the
/// part before the first `:` becomes the group.
pub open spec fn text_set(m: FormModel, f: FormFocus, t: Seq<char>) -> FormModel {
    match f {
        FormFocus::Id => FormModel {
            id: t,
            from_value: if m.from_value.len() == 0 && group_prefix(t) is Some {
                group_prefix(t)->0
            } else {
                m.from_value
            },
            ..m
        },
        FormFocus::Test => FormModel { test: t, ..m },
        FormFocus::Description => FormModel { description: t, ..m },
        FormFocus::Alternative => FormModel { alternative: t, ..m },
        FormFocus::AlternativeInfo => FormModel { alternative_info: t, ..m },
        _ => m,
    }
}

/// The text and cursor of a text field.
pub open spec fn field_text(m: FormModel, f: FormFocus) -> (Seq<char>, usize) {
    match f {
        FormFocus::Id => (m.id, m.id_cursor),
        FormFocus::Test => (m.test, m.test_cursor),
        FormFocus::Description => (m.description, m.description_cursor),
        FormFocus::Alternative => (m.alternative, m.alternative_cursor),
        _ => (m.alternative_info, m.alternative_info_cursor),
    }
}

/// The form with the cursor of a text field moved.
pub open spec fn cursor_set(m: FormModel, f: FormFocus, c: usize) -> FormModel {
    match f {
        FormFocus::Id => FormModel { id_cursor: c, ..m },
        FormFocus::Test => FormModel { test_cursor: c, ..m },
        FormFocus::Description => FormModel { description_cursor: c, ..m },
        FormFocus::Alternative => FormModel { alternative_cursor: c, ..m },
        FormFocus::AlternativeInfo => FormModel { alternative_info_cursor: c, ..m },
        _ => m,
    }
}

/// A key typed into a text field: the text input's edit (see
/// [`edit_of`]) gives the field its new text and cursor.
pub open spec fn text_key(m: FormModel, f: FormFocus, key: KeyEvent) -> FormModel {
    let (t, c) = field_text(m, f);
    let (t2, c2, _) = edit_of(t, c, key);
    text_set(cursor_set(m, f, c2 as usize), f, t2)
}

/// The group choices: the built-in groups, then the custom groups that are
/// not built-in, each with its badge.
pub open spec fn from_options_of(builtin: Seq<String>, custom: Seq<String>) -> Seq<Seq<char>>
    decreases custom.len(),
{
    if custom.len() == 0 {
        builtin.map_values(|g: String| g@)
    } else {
        let rest = from_options_of(builtin, custom.drop_last());
        if (exists|i: int| 0 <= i < builtin.len() && #[trigger] builtin[i]@ == custom.last()@) {
            rest
        } else {
            rest.push(custom.last()@)
        }
    }
}

fn build_from_options(builtin: &Vec<String>, custom: &Vec<String>) -> (r: Vec<PickerItem>)
    ensures
        item_values(r@) == from_options_of(builtin@, custom@),
        r@.len() <= builtin@.len() + custom@.len(),
        forall|i: int|
            0 <= i < r@.len() ==> ((#[trigger] r@[i]).badge matches Some(b) && b@ == if i
                < builtin@.len() {
                "built-in"@
            } else {
                "custom"@
            }),
{
    let mut out: Vec<PickerItem> = Vec::new();
    let mut i: usize = 0;
    while i < builtin.len()
        invariant
            i <= builtin@.len(),
            item_values(out@) == builtin@.take(i as int).map_values(|g: String| g@),
            out@.len() == i,
            forall|k: int|
                0 <= k < out@.len() ==> ((#[trigger] out@[k]).badge matches Some(b) && b@
                    == "built-in"@),
        decreases builtin@.len() - i,
    {
        let ghost before = out@;
        out.push(PickerItem { value: builtin[i].clone(), badge: Some("built-in") });
        proof {
            assert(item_values(out@) =~= item_values(before).push(builtin@[i as int]@));
            assert(builtin@.take(i + 1).map_values(|g: String| g@) =~= builtin@.take(
                i as int,
            ).map_values(|g: String| g@).push(builtin@[i as int]@));
        }
        i = i + 1;
    }
    proof {
        assert(builtin@.take(builtin@.len() as int) =~= builtin@);
        assert(custom@.take(0) =~= Seq::<String>::empty());
    }
    let mut j: usize = 0;
    while j < custom.len()
        invariant
            j <= custom@.len(),
            item_values(out@) == from_options_of(builtin@, custom@.take(j as int)),
            builtin@.len() <= out@.len() <= builtin@.len() + j,
            forall|k: int|
                0 <= k < out@.len() ==> ((#[trigger] out@[k]).badge matches Some(b) && b@
                    == if k < builtin@.len() {
                    "built-in"@
                } else {
                    "custom"@
                }),
        decreases custom@.len() - j,
    {
        let mut known = false;
        let mut k: usize = 0;
        while k < builtin.len()
            invariant
                j < custom@.len(),
                k <= builtin@.len(),
                known == exists|q: int| 0 <= q < k && #[trigger] builtin@[q]@ == custom@[j as int]@,
            decreases builtin@.len() - k,
        {
            if str_eq(builtin[k].as_str(), custom[j].as_str()) {
                known = true;
            }
            k = k + 1;
        }
        proof {
            let t = custom@.take(j + 1);
            assert(t.drop_last() =~= custom@.take(j as int));
            assert(t.last() == custom@[j as int]);
        }
        if !known {
            let ghost before = out@;
            out.push(PickerItem { value: custom[j].clone(), badge: Some("custom") });
            proof {
                assert(item_values(out@) =~= item_values(before).push(custom@[j as int]@));
            }
        }
        j = j + 1;
    }
    proof {
        assert(custom@.take(custom@.len() as int) =~= custom@);
    }
    out
}

/// Index of the first `:` in `t`, if any.
fn first_colon(t: &Vec<char>) -> (r: Option<usize>)
    ensures
        match r {
            Some(k) => k < t@.len() && t@[k as int] == ':' && forall|q: int|
                0 <= q < k ==> t@[q] != ':',
            None => forall|q: int| 0 <= q < t@.len() ==> t@[q] != ':',
        },
{
    let mut i: usize = 0;
    while i < t.len()
        invariant
            i <= t@.len(),
            forall|q: int| 0 <= q < i ==> t@[q] != ':',
        decreases t@.len() - i,
    {
        if t[i] == ':' {
            return Some(i);
        }
        i = i + 1;
    }
    None
}

impl CheckForm {
    pub open spec fn wf(&self) -> bool {
        &&& self.focus_idx < FOCUS_STEPS
        &&& self.severity_idx < SEVERITY_COUNT
        &&& self.challenge_idx < CHALLENGE_COUNT
        &&& self.from_options@.len() < usize::MAX
    }

    pub open spec fn model(&self) -> FormModel {
        FormModel {
            mode: self.mode,
            id: self.id_input.value@,
            id_cursor: self.id_input.cursor,
            test_cursor: self.test_input.cursor,
            description_cursor: self.description_input.cursor,
            alternative_cursor: self.alternative_input.cursor,
            alternative_info_cursor: self.alternative_info_input.cursor,
            picker_filter: self.from_picker.filter@,
            picker_cursor: self.from_picker.cursor as int,
            from_value: self.from_value@,
            from_options: self.from_options@,
            test: self.test_input.value@,
            description: self.description_input.value@,
            severity_idx: self.severity_idx as int,
            challenge_idx: self.challenge_idx as int,
            alternative: self.alternative_input.value@,
            alternative_info: self.alternative_info_input.value@,
            filters: filters_view(self.filters@),
            adding: match self.adding_filter {
                Some(a) => Some(a@),
                None => None,
            },
            focus_idx: self.focus_idx as int,
            validator: self.validator@,
            error: opt_view(self.error_message),
        }
    }

    /// A blank form for a new check: severity Medium, challenge Math, the
    /// first field focused. `builtin_groups` are the groups shipped with
    /// the tool; the custom groups not among them follow.
    pub fn new_create(
        validator: IdUniquenessValidator,
        custom_groups: Vec<String>,
        builtin_groups: &Vec<String>,
    ) -> (r: Self)
        requires
            builtin_groups@.len() + custom_groups@.len() < usize::MAX,
        ensures
            r.wf(),
            r.mode is Create,
            r.id_input.value@.len() == 0 && r.from_value@.len() == 0 && r.test_input.value@.len() == 0,
            r.description_input.value@.len() == 0 && r.alternative_input.value@.len() == 0
                && r.alternative_info_input.value@.len() == 0,
            r.id_input.cursor == 0 && r.test_input.cursor == 0 && r.description_input.cursor == 0
                && r.alternative_input.cursor == 0 && r.alternative_info_input.cursor == 0,
            r.from_picker.filter@.len() == 0 && r.from_picker.cursor == 0,
            item_values(r.from_options@) == from_options_of(builtin_groups@, custom_groups@),
            r.severity_idx == 2,
            r.challenge_idx == 0,
            r.filters@.len() == 0,
            r.adding_filter is None,
            r.focus_idx == 0,
            r.validator@ == validator@,
            r.error_message is None,
    {
        let from_options = build_from_options(builtin_groups, &custom_groups);
        CheckForm {
            mode: FormMode::Create,
            id_input: TextInput::default(),
            from_picker: PickerState::default(),
            from_value: String::new(),
            from_options,
            test_input: TextInput::default(),
            description_input: TextInput::default(),
            severity_idx: 2,
            challenge_idx: 0,
            alternative_input: TextInput::default(),
            alternative_info_input: TextInput::default(),
            filters: Vec::new(),
            adding_filter: None,
            focus_idx: 0,
            validator,
            error_message: None,
        }
    }

    /// A form holding an existing check. Its own id stays allowed.
    pub fn new_edit(
        existing: &Check,
        validator: IdUniquenessValidator,
        custom_groups: Vec<String>,
        builtin_groups: &Vec<String>,
    ) -> (r: Self)
        requires
            builtin_groups@.len() + custom_groups@.len() < usize::MAX,
        ensures
            r.wf(),
            r.mode matches FormMode::Edit { original_id, original_from } && original_id@
                == existing.id@ && original_from@ == existing.from@,
            r.id_input.value@ == existing.id@,
            r.from_value@ == existing.from@,
            r.test_input.value@ == existing.test@,
            r.description_input.value@ == existing.description@,
            r.alternative_input.value@ == match opt_view(existing.alternative) {
                Some(a) => a,
                None => Seq::<char>::empty(),
            },
            r.alternative_info_input.value@ == match opt_view(existing.alternative_info) {
                Some(a) => a,
                None => Seq::<char>::empty(),
            },
            r.id_input.cursor == r.id_input.value@.len(),
            r.test_input.cursor == r.test_input.value@.len(),
            r.description_input.cursor == r.description_input.value@.len(),
            r.alternative_input.cursor == r.alternative_input.value@.len(),
            r.alternative_info_input.cursor == r.alternative_info_input.value@.len(),
            r.from_picker.filter@.len() == 0 && r.from_picker.cursor == 0,
            item_values(r.from_options@) == from_options_of(builtin_groups@, custom_groups@),
            r.severity_idx == severity_index(existing.severity),
            r.challenge_idx == challenge_index(existing.challenge),
            filters_view(r.filters@) == filters_view(existing.filters@),
            r.adding_filter is None,
            r.focus_idx == 0,
            r.validator@ == validator@.remove(existing.id@),
            r.error_message is None,
    {
        let mut validator = validator;
        validator.allow_existing(existing.id.as_str());
        let from_options = build_from_options(builtin_groups, &custom_groups);
        let alternative = match &existing.alternative {
            Some(a) => a.clone(),
            None => String::new(),
        };
        let alternative_info = match &existing.alternative_info {
            Some(a) => a.clone(),
            None => String::new(),
        };
        CheckForm {
            mode: FormMode::Edit {
                original_id: existing.id.clone(),
                original_from: existing.from.clone(),
            },
            id_input: TextInput::with_value(existing.id.as_str()),
            from_picker: PickerState::default(),
            from_value: existing.from.clone(),
            from_options,
            test_input: TextInput::with_value(existing.test.as_str()),
            description_input: TextInput::with_value(existing.description.as_str()),
            severity_idx: sev_idx(existing.severity),
            challenge_idx: ch_idx(existing.challenge),
            alternative_input: TextInput::with_value(alternative.as_str()),
            alternative_info_input: TextInput::with_value(alternative_info.as_str()),
            filters: clone_filters(&existing.filters),
            adding_filter: None,
            focus_idx: 0,
            validator,
            error_message: None,
        }
    }

    /// The focused field.
    pub fn current_focus(&self) -> (r: FormFocus)
        requires
            self.wf(),
        ensures
            r == focus_of(self.focus_idx as int),
    {
        focus_at(self.focus_idx)
    }

    /// Validates the value of field `focus`, changing nothing.
    pub fn validate_field(&self, focus: FormFocus) -> (r: FieldValidity)
        requires
            self.wf(),
        ensures
            r@ == validity_of(self.model(), focus),
    {
        match focus {
            FormFocus::Id => {
                let v = trimmed_string(self.id_input.value.as_str());
                if v.as_str().is_empty() {
                    FieldValidity::Invalid(owned("ID is required"))
                } else if !self.validator.is_unique(v.as_str()) {
                    FieldValidity::Invalid(owned("ID is already in use"))
                } else {
                    FieldValidity::Valid(owned("Looks good"))
                }
            },
            FormFocus::From => {
                let v = trimmed_string(self.from_value.as_str());
                if v.as_str().is_empty() {
                    FieldValidity::Invalid(owned("Group is required"))
                } else {
                    FieldValidity::Valid(concat_str("Selected: ", self.from_value.as_str()))
                }
            },
            FormFocus::Test => {
                let v = trimmed_string(self.test_input.value.as_str());
                if v.as_str().is_empty() {
                    FieldValidity::Invalid(owned("Pattern is required"))
                } else {
                    match Pattern::new(v.as_str()) {
                        Ok(_) => FieldValidity::Valid(owned("Regex compiles")),
                        Err(e) => FieldValidity::Invalid(concat_str("Invalid regex: ", e.as_str())),
                    }
                }
            },
            FormFocus::Description => {
                let v = trimmed_string(self.description_input.value.as_str());
                if v.as_str().is_empty() {
                    FieldValidity::Invalid(owned("Description is required"))
                } else {
                    FieldValidity::Valid(owned("Looks good"))
                }
            },
            FormFocus::Severity => FieldValidity::Valid(severity_name(self.severity_idx)),
            FormFocus::Challenge => FieldValidity::Valid(challenge_name(self.challenge_idx)),
            FormFocus::Alternative => {
                let v = trimmed_string(self.alternative_input.value.as_str());
                if v.as_str().is_empty() {
                    FieldValidity::Empty
                } else {
                    FieldValidity::Valid(owned("Set"))
                }
            },
            FormFocus::AlternativeInfo => {
                let v = trimmed_string(self.alternative_info_input.value.as_str());
                if v.as_str().is_empty() {
                    FieldValidity::Empty
                } else {
                    FieldValidity::Valid(owned("Set"))
                }
            },
            FormFocus::Filters => {
                if self.filters.len() == 0 {
                    FieldValidity::Empty
                } else {
                    let n = decimal(self.filters.len());
                    FieldValidity::Valid(concat_str(n.as_str(), " filter(s)"))
                }
            },
            FormFocus::Submit | FormFocus::Cancel => FieldValidity::Empty,
        }
    }

    /// Checks every field in order and builds the check, or records why it
    /// cannot be saved.
    pub fn try_submit(&mut self) -> (r: FormOutcome)
        requires
            old(self).wf(),
        ensures
            final(self).wf(),
            (final(self).model(), r@) == submit_step(old(self).model()),
    {
        let id = trimmed_string(self.id_input.value.as_str());
        if id.as_str().is_empty() {
            self.error_message = Some(owned("ID is required."));
            return FormOutcome::Ignored;
        }
        if !self.validator.is_unique(id.as_str()) {
            let quoted = debug_quoted(id.as_str());
            let head = concat_str("ID ", quoted.as_str());
            self.error_message = Some(concat_str(head.as_str(), " is already in use."));
            return FormOutcome::Ignored;
        }
        let from = trimmed_string(self.from_value.as_str());
        if from.as_str().is_empty() {
            self.error_message = Some(owned("Group (from) is required."));
            return FormOutcome::Ignored;
        }
        let test_str = trimmed_string(self.test_input.value.as_str());
        let pattern = match Pattern::new(test_str.as_str()) {
            Ok(p) => p,
            Err(e) => {
                self.error_message = Some(
                    concat_str("Test regex does not compile: ", e.as_str()),
                );
                return FormOutcome::Ignored;
            },
        };
        let description = trimmed_string(self.description_input.value.as_str());
        if description.as_str().is_empty() {
            self.error_message = Some(owned("Description is required."));
            return FormOutcome::Ignored;
        }
        let alternative = trimmed_string(self.alternative_input.value.as_str());
        let alternative_info = trimmed_string(self.alternative_info_input.value.as_str());
        let alternative = if alternative.as_str().is_empty() {
            None
        } else {
            Some(alternative)
        };
        let alternative_info = if alternative_info.as_str().is_empty() {
            None
        } else {
            Some(alternative_info)
        };
        let check = Check {
            id,
            test: pattern,
            description,
            from,
            challenge: ch_from_idx(self.challenge_idx),
            filters: clone_filters(&self.filters),
            alternative,
            alternative_info,
            severity: sev_from_idx(self.severity_idx),
        };
        FormOutcome::Saved(check)
    }

    /// New text for a text field. For the id, while no group is chosen,
    /// the part before the first `:` (trimmed, when not blank) becomes the
    /// group.
    fn set_field_text(&mut self, field: FormFocus, text: String)
        requires
            old(self).wf(),
        ensures
            final(self).wf(),
            final(self).model() == text_set(old(self).model(), field, text@),
    {
        match field {
            FormFocus::Id => {
                if self.from_value.as_str().is_empty() {
                    let cs = str_chars(text.as_str());
                    match first_colon(&cs) {
                        Some(k) => {
                            let prefix = string_from_range(cs.as_slice(), 0, k);
                            let p = trimmed_string(prefix.as_str());
                            proof {
                                assert(cs@.subrange(0, k as int) =~= text@.take(k as int));
                                assert(exists|q: int| 0 <= q < text@.len() && text@[q] == ':');
                                let kk = choose|q: int|
                                    0 <= q < text@.len() && text@[q] == ':' && forall|z: int|
                                        0 <= z < q ==> text@[z] != ':';
                                assert(kk == k as int) by {
                                    if kk < k as int {
                                        assert(text@[kk] != ':');
                                    }
                                    if kk > k as int {
                                        assert(text@[k as int] != ':');
                                    }
                                }
                            }
                            if !p.as_str().is_empty() {
                                self.from_value = p;
                            }
                        },
                        None => {},
                    }
                }
                self.id_input.value = text;
            },
            FormFocus::Test => {
                self.test_input.value = text;
            },
            FormFocus::Description => {
                self.description_input.value = text;
            },
            FormFocus::Alternative => {
                self.alternative_input.value = text;
            },
            FormFocus::AlternativeInfo => {
                self.alternative_info_input.value = text;
            },
            _ => {},
        }
    }

    /// A key typed into a text field (see [`text_key`]).
    fn edit_field(&mut self, field: FormFocus, key: KeyEvent)
        requires
            old(self).wf(),
            is_text_focus(field),
        ensures
            final(self).wf(),
            final(self).model() == text_key(old(self).model(), field, key),
    {
        let (v, c, _) = match field {
            FormFocus::Id => edit_text(self.id_input.value.as_str(), self.id_input.cursor, key),
            FormFocus::Test => edit_text(self.test_input.value.as_str(), self.test_input.cursor, key),
            FormFocus::Description => edit_text(self.description_input.value.as_str(), self.description_input.cursor, key),
            FormFocus::Alternative => edit_text(self.alternative_input.value.as_str(), self.alternative_input.cursor, key),
            _ => edit_text(self.alternative_info_input.value.as_str(), self.alternative_info_input.cursor, key),
        };
        match field {
            FormFocus::Id => { self.id_input.cursor = c; },
            FormFocus::Test => { self.test_input.cursor = c; },
            FormFocus::Description => { self.description_input.cursor = c; },
            FormFocus::Alternative => { self.alternative_input.cursor = c; },
            _ => { self.alternative_info_input.cursor = c; },
        }
        proof {
            let m0 = old(self).model();
            assert(self.model() == cursor_set(m0, field, c));
        }
        self.set_field_text(field, v);
    }

    /// A key in the form (see [`form_step`]).
    pub fn handle_key(&mut self, key: KeyEvent) -> (r: FormOutcome)
        requires
            old(self).wf(),
        ensures
            final(self).wf(),
            (final(self).model(), r@) == form_step(old(self).model(), key),
    {
        let code = key.code;
        if self.adding_filter.is_some() {
            let mut taken: Option<FilterAdd> = None;
            std::mem::swap(&mut taken, &mut self.adding_filter);
            let state = taken.unwrap();
            match state {
                FilterAdd::PickType => {
                    if code == KeyCode::Esc {
                    } else if code == KeyCode::Char('c') {
                        self.adding_filter = Some(
                            FilterAdd::EnterValue { kind: FilterKind::Contains, buffer: String::new() },
                        );
                    } else if code == KeyCode::Char('n') {
                        self.adding_filter = Some(
                            FilterAdd::EnterValue {
                                kind: FilterKind::NotContains,
                                buffer: String::new(),
                            },
                        );
                    } else {
                        self.adding_filter = Some(FilterAdd::PickType);
                    }
                },
                FilterAdd::EnterValue { kind, buffer } => {
                    let mut buffer = buffer;
                    match code {
                        KeyCode::Esc => {},
                        KeyCode::Enter => {
                            let t = trimmed_string(buffer.as_str());
                            if !t.as_str().is_empty() {
                                let ghost before = self.filters@;
                                let f = match kind {
                                    FilterKind::Contains => Filter::Contains(t),
                                    FilterKind::NotContains => Filter::NotContains(t),
                                };
                                self.filters.push(f);
                                proof {
                                    assert(filters_view(self.filters@) =~= filters_view(
                                        before,
                                    ).push(f@));
                                }
                            }
                        },
                        KeyCode::Backspace => {
                            pop_char(&mut buffer);
                            self.adding_filter = Some(FilterAdd::EnterValue { kind, buffer });
                        },
                        KeyCode::Char(c) => {
                            string_push(&mut buffer, c);
                            self.adding_filter = Some(FilterAdd::EnterValue { kind, buffer });
                        },
                        _ => {
                            self.adding_filter = Some(FilterAdd::EnterValue { kind, buffer });
                        },
                    }
                },
            }
            return FormOutcome::Ignored;
        }
        if code == KeyCode::Char('s') && key.modifiers.control {
            return self.try_submit();
        }
        if code == KeyCode::Esc {
            return FormOutcome::Cancelled;
        }
        if code == KeyCode::Tab {
            self.focus_idx = next_focus_index(self.focus_idx);
            return FormOutcome::Ignored;
        }
        if code == KeyCode::BackTab {
            self.focus_idx = prev_focus_index(self.focus_idx);
            return FormOutcome::Ignored;
        }
        let cur = focus_at(self.focus_idx);
        let on_text = match cur {
            FormFocus::Id | FormFocus::Test | FormFocus::Description | FormFocus::Alternative
            | FormFocus::AlternativeInfo => true,
            _ => false,
        };
        if on_text && code == KeyCode::Enter {
            let v = self.validate_field(cur);
            match v {
                FieldValidity::Invalid(msg) => {
                    self.error_message = Some(msg);
                },
                _ => {
                    self.error_message = None;
                    self.focus_idx = next_focus_index(self.focus_idx);
                },
            }
            return FormOutcome::Ignored;
        }
        if on_text {
            self.edit_field(cur, key);
            return FormOutcome::Ignored;
        }
        match cur {
            FormFocus::From => {
                let mut picker = PickerState::default();
                std::mem::swap(&mut picker, &mut self.from_picker);
                let outcome = handle_picker_key(key, &mut picker, self.from_options.as_slice());
                match outcome {
                    PickerOutcome::Selected(value) => {
                        self.from_value = value;
                        self.focus_idx = next_focus_index(self.focus_idx);
                    },
                    _ => {
                        self.from_picker = picker;
                    },
                }
                FormOutcome::Ignored
            },
            FormFocus::Severity => {
                if code == KeyCode::Enter {
                    self.focus_idx = next_focus_index(self.focus_idx);
                } else {
                    self.severity_idx = handle_radio_key(key, self.severity_idx, SEVERITY_COUNT);
                }
                FormOutcome::Ignored
            },
            FormFocus::Challenge => {
                if code == KeyCode::Enter {
                    self.focus_idx = next_focus_index(self.focus_idx);
                } else {
                    self.challenge_idx = handle_radio_key(key, self.challenge_idx, CHALLENGE_COUNT);
                }
                FormOutcome::Ignored
            },
            FormFocus::Filters => {
                if code == KeyCode::Char('+') {
                    self.adding_filter = Some(FilterAdd::PickType);
                } else if code == KeyCode::Enter {
                    self.focus_idx = next_focus_index(self.focus_idx);
                } else if code == KeyCode::Char('d') {
                    let ghost before = self.filters@;
                    let _ = self.filters.pop();
                    proof {
                        if before.len() > 0 {
                            assert(filters_view(self.filters@) =~= filters_view(before).drop_last());
                        }
                    }
                }
                FormOutcome::Ignored
            },
            FormFocus::Submit => {
                if code == KeyCode::Enter || code == KeyCode::Char(' ') {
                    self.try_submit()
                } else {
                    FormOutcome::Ignored
                }
            },
            _ => {
                if code == KeyCode::Enter || code == KeyCode::Char(' ') {
                    FormOutcome::Cancelled
                } else {
                    FormOutcome::Ignored
                }
            },
        }
    }
}

/// A form saves only a check whose id is not blank and not already in
/// use, whose group and description are not blank and whose pattern
/// compiles.
pub proof fn lemma_saved_check_is_valid(m: FormModel)
    ensures
        submit_step(m).1 matches FormResult::Saved(c) ==> {
            &&& c.id.len() > 0
            &&& !m.validator.contains(c.id)
            &&& c.from.len() > 0
            &&& regex_compiles(c.test)
            &&& c.description.len() > 0
        },
        submit_step(m).1 is Saved || submit_step(m).0.error is Some,
{
}

/// Law: the saved check takes the challenge and the severity of the
/// selected radio buttons: Math, Enter, Yes for the challenge buttons in
/// order, and Info, Low, Medium, High, Critical for the severity ones. So
/// saving a form whose radios still point at an existing check's challenge
/// and severity (as an edit form starts) keeps them.
pub proof fn lemma_saved_check_follows_radios(m: FormModel)
    ensures
        submit_step(m).1 matches FormResult::Saved(c) ==> {
            &&& m.challenge_idx == 0 ==> c.challenge == Challenge::Math
            &&& m.challenge_idx == 1 ==> c.challenge == Challenge::Enter
            &&& m.challenge_idx == 2 ==> c.challenge == Challenge::Yes
            &&& m.severity_idx == 0 ==> c.severity == Severity::Info
            &&& m.severity_idx == 1 ==> c.severity == Severity::Low
            &&& m.severity_idx == 2 ==> c.severity == Severity::Medium
            &&& m.severity_idx == 3 ==> c.severity == Severity::High
            &&& m.severity_idx == 4 ==> c.severity == Severity::Critical
            &&& forall|ch: Challenge| m.challenge_idx == challenge_index(ch) ==> c.challenge == ch
            &&& forall|sv: Severity| m.severity_idx == severity_index(sv) ==> c.severity == sv
        },
{
}

/// Law: the saved check holds what the form shows, trimmed: its id, group,
/// pattern and description are the trimmed texts of those fields, its
/// filters are the form's, and an alternative (or its explanation) is
/// saved exactly when its trimmed field is not blank. A form that cannot
/// be saved keeps every field and reports why.
pub proof fn lemma_saved_check_is_the_form(m: FormModel)
    ensures
        submit_step(m).1 matches FormResult::Saved(c) ==> {
            &&& c.id == trim(m.id)
            &&& c.from == trim(m.from_value)
            &&& c.test == trim(m.test)
            &&& c.description == trim(m.description)
            &&& c.filters == m.filters
            &&& (c.alternative is Some <==> trim(m.alternative).len() > 0)
            &&& (c.alternative matches Some(a) ==> a == trim(m.alternative))
            &&& (c.alternative_info is Some <==> trim(m.alternative_info).len() > 0)
            &&& (c.alternative_info matches Some(a) ==> a == trim(m.alternative_info))
            &&& submit_step(m).0 == m
        },
        submit_step(m).1 is Ignored ==> (submit_step(m).0 == (FormModel {
            error: submit_step(m).0.error,
            ..m
        }) && (submit_step(m).0.error is Some)),
{
}

/// Esc cancels the form from any field, unless a filter is being added
/// (then it only drops that filter).
pub proof fn lemma_esc_cancels_form(m: FormModel, key: KeyEvent)
    requires
        key.code is Esc,
    ensures
        m.adding is None ==> form_step(m, key) == (m, FormResult::Cancelled),
        m.adding is Some ==> form_step(m, key).0.adding is None && form_step(m, key).0.filters
            == m.filters,
{
}

} // verus!
