//! The language-model tab: turning model analysis on or off, and the
//! provider, model, base URL, timeout and token limit it uses.
use vstd::prelude::*;
use crate::text::{concat_str, owned};
use crate::tui::keys::{KeyCode, KeyEvent};
use crate::tui::tabs::{FieldFocus, FocusModel, TabOutcome, TabResult};
use crate::tui::widgets::picker::{
    handle_picker_key, item_values, lemma_picker_values_only, picker_cursor_after,
    picker_filter_after, picker_result,
    PickerItem, PickerOutcome, PickerResult, PickerState,
};
use crate::tui::widgets::stepper::{handle_stepper_key, stepper_step, StepperOutcome};
use crate::tui::widgets::text_input::{edit_of, TextInput, TextInputOutcome};

verus! {

pub const SECTION_ENABLE: usize = 0;

pub const SECTION_PROVIDER: usize = 1;

pub const SECTION_MODEL: usize = 2;

pub const SECTION_BASE_URL: usize = 3;

pub const SECTION_TIMEOUT: usize = 4;

pub const SECTION_MAX_TOKENS: usize = 5;

pub const NUM_SECTIONS_FULL: usize = 6;

/// The field being edited.
#[derive(Debug, Clone, Copy, PartialEq, Eq, Structural)]
pub enum EditState {
    Enable,
    Provider,
    Model,
    BaseUrl,
    Timeout,
    MaxTokens,
}

/// Bounds of the timeout stepper, in milliseconds.
pub const TIMEOUT_MIN: i64 = 100;

pub const TIMEOUT_MAX: i64 = 60000;

/// Bounds of the token-limit stepper.
pub const MAX_TOKENS_MIN: i64 = 1;

pub const MAX_TOKENS_MAX: i64 = 8192;

/// The model settings; the tab edits an `Option` of them, `None` while
/// model analysis is off.
#[derive(Debug, Clone, PartialEq, Eq)]
pub struct LlmSettings {
    pub provider: String,
    pub model: String,
    pub base_url: Option<String>,
    pub timeout_ms: u64,
    pub max_tokens: u32,
}

pub struct LlmModel {
    pub provider: Seq<char>,
    pub model: Seq<char>,
    pub base_url: Option<Seq<char>>,
    pub timeout_ms: u64,
    pub max_tokens: u32,
}

impl View for LlmSettings {
    type V = LlmModel;

    open spec fn view(&self) -> LlmModel {
        LlmModel {
            provider: self.provider@,
            model: self.model@,
            base_url: match self.base_url {
                Some(u) => Some(u@),
                None => None,
            },
            timeout_ms: self.timeout_ms,
            max_tokens: self.max_tokens,
        }
    }
}

pub open spec fn opt_llm(o: Option<LlmSettings>) -> Option<LlmModel> {
    match o {
        Some(l) => Some(l@),
        None => None,
    }
}

/// The providers the picker offers.
pub fn provider_items() -> (r: Vec<PickerItem>)
    ensures
        item_values(r@) == seq!["anthropic"@, "openai-compatible"@],
        forall|i: int| 0 <= i < r@.len() ==> ((#[trigger] r@[i]).badge matches Some(b) && b@ == "known"@),
{
    let mut v: Vec<PickerItem> = Vec::new();
    v.push(PickerItem { value: owned("anthropic"), badge: Some("known") });
    v.push(PickerItem { value: owned("openai-compatible"), badge: Some("known") });
    proof {
        assert(item_values(v@) =~= seq!["anthropic"@, "openai-compatible"@]);
    }
    v
}

/// Number of sections shown: all of them once the model is enabled.
pub fn num_sections(enabled: bool) -> (r: usize)
    ensures
        r == if enabled {
            NUM_SECTIONS_FULL
        } else {
            1
        },
{
    if enabled {
        NUM_SECTIONS_FULL
    } else {
        1
    }
}

pub open spec fn section_title_of(s: int) -> Seq<char> {
    if s == 0 {
        "LLM analysis"@
    } else if s == 1 {
        "Provider"@
    } else if s == 2 {
        "Model"@
    } else if s == 3 {
        "Base URL"@
    } else if s == 4 {
        "Timeout"@
    } else if s == 5 {
        "Max tokens"@
    } else {
        ""@
    }
}

pub fn section_title(s: usize) -> (r: &'static str)
    ensures
        r@ == section_title_of(s as int),
{
    match s {
        0 => "LLM analysis",
        1 => "Provider",
        2 => "Model",
        3 => "Base URL",
        4 => "Timeout",
        5 => "Max tokens",
        _ => "",
    }
}

pub open spec fn section_blurb_of(s: int) -> Seq<char> {
    if s == 0 {
        "Optional. When enabled, shellfirm asks an LLM to analyse risky commands."@
    } else if s == 1 {
        "Which LLM service to call."@
    } else if s == 2 {
        "Specific model identifier, as the provider names it."@
    } else if s == 3 {
        "Custom base URL (only for openai-compatible providers)."@
    } else if s == 4 {
        "Request timeout in milliseconds."@
    } else if s == 5 {
        "Maximum tokens in the LLM response."@
    } else {
        ""@
    }
}

pub fn section_blurb(s: usize) -> (r: &'static str)
    ensures
        r@ == section_blurb_of(s as int),
{
    match s {
        0 => "Optional. When enabled, shellfirm asks an LLM to analyse risky commands.",
        1 => "Which LLM service to call.",
        2 => "Specific model identifier, as the provider names it.",
        3 => "Custom base URL (only for openai-compatible providers).",
        4 => "Request timeout in milliseconds.",
        5 => "Maximum tokens in the LLM response.",
        _ => "",
    }
}

/// The language-model tab. `model_input` and `base_url_input` are the two
/// text fields;
/// `defaults` are the settings that turning analysis on starts from.
#[derive(Debug)]
pub struct LLMTab {
    pub cursor: usize,
    pub edit: Option<EditState>,
    pub provider_picker: PickerState,
    pub model_input: TextInput,
    pub base_url_input: TextInput,
    initialized: bool,
    defaults: LlmSettings,
}

/// The tab as a mathematical value.
pub struct LlmTabModel {
    pub cursor: int,
    pub edit: Option<EditState>,
    pub picker_filter: Seq<char>,
    pub picker_cursor: int,
    pub model_text: Seq<char>,
    pub model_cursor: usize,
    pub base_url_text: Seq<char>,
    pub base_url_cursor: usize,
    pub initialized: bool,
    pub defaults: LlmModel,
}

pub open spec fn llm_focus(cursor: int, editing: bool) -> FocusModel {
    if editing {
        FocusModel {
            name: "Editing: "@ + section_title_of(cursor),
            badges: seq!["shell"@, "ai"@],
            help: "Esc to go back"@,
        }
    } else {
        FocusModel {
            name: section_title_of(cursor),
            badges: seq!["shell"@, "ai"@],
            help: "↑↓ select section · Enter to edit."@,
        }
    }
}

/// The text fields take their text from the settings the first time the
/// tab sees a key (or after analysis was switched on or off).
pub open spec fn ensure_init(t: LlmTabModel, llm: Option<LlmModel>) -> LlmTabModel {
    if t.initialized {
        t
    } else {
        match llm {
            Some(l) => {
                let u = match l.base_url {
                    Some(u) => u,
                    None => Seq::empty(),
                };
                LlmTabModel {
                    model_text: l.model,
                    model_cursor: l.model.len() as usize,
                    base_url_text: u,
                    base_url_cursor: u.len() as usize,
                    initialized: true,
                    ..t
                }
            },
            None => LlmTabModel { initialized: true, ..t },
        }
    }
}

/// The settings with the two text fields written into them; an empty base
/// URL means the default one.
pub open spec fn flushed(t: LlmTabModel, llm: Option<LlmModel>) -> Option<LlmModel> {
    match llm {
        Some(l) => Some(
            LlmModel {
                model: t.model_text,
                base_url: if t.base_url_text.len() == 0 {
                    None
                } else {
                    Some(t.base_url_text)
                },
                ..l
            },
        ),
        None => None,
    }
}

pub open spec fn edit_for_section(cursor: int) -> EditState {
    if cursor == SECTION_PROVIDER {
        EditState::Provider
    } else if cursor == SECTION_MODEL {
        EditState::Model
    } else if cursor == SECTION_BASE_URL {
        EditState::BaseUrl
    } else if cursor == SECTION_TIMEOUT {
        EditState::Timeout
    } else if cursor == SECTION_MAX_TOKENS {
        EditState::MaxTokens
    } else {
        EditState::Enable
    }
}

pub open spec fn provider_seq() -> Seq<Seq<char>> {
    seq!["anthropic"@, "openai-compatible"@]
}

/// Picker items whose values are the known providers (what the picker
/// answers depends on the values alone).
pub open spec fn provider_picker_items() -> Seq<PickerItem> {
    choose|items: Seq<PickerItem>| item_values(items) == provider_seq()
}

/// A key typed into the model field (`model`) or the base-URL field: the
/// text input's edit gives the field its new text and cursor.
pub open spec fn text_typed(t: LlmTabModel, model: bool, key: KeyEvent) -> LlmTabModel {
    if model {
        let (v, c, _) = edit_of(t.model_text, t.model_cursor, key);
        LlmTabModel { model_text: v, model_cursor: c as usize, ..t }
    } else {
        let (v, c, _) = edit_of(t.base_url_text, t.base_url_cursor, key);
        LlmTabModel { base_url_text: v, base_url_cursor: c as usize, ..t }
    }
}

/// Leaving the field being edited.
pub open spec fn leave(t: LlmTabModel, llm: Option<LlmModel>) -> (
    LlmTabModel,
    Option<LlmModel>,
    TabResult,
) {
    (LlmTabModel { edit: None, ..t }, llm, TabResult::FocusChanged(llm_focus(t.cursor, false)))
}

/// A key while a field is being edited (`t.edit` is that field).
pub open spec fn llm_editing_step(
    t: LlmTabModel,
    st: EditState,
    llm: Option<LlmModel>,
    key: KeyEvent,
) -> (LlmTabModel, Option<LlmModel>, TabResult) {
    let code = key.code;
    let items = provider_picker_items();
    if code is Esc {
        leave(t, llm)
    } else if (code is Left || code == KeyCode::Char('h')) && !(st is Model || st is BaseUrl) {
        leave(t, llm)
    } else {
        match st {
            EditState::Enable => if code == KeyCode::Char(' ') {
                match llm {
                    Some(_) => (
                        LlmTabModel { cursor: SECTION_ENABLE as int, initialized: false, ..t },
                        None,
                        TabResult::Mutated,
                    ),
                    None => (
                        ensure_init(LlmTabModel { initialized: false, ..t }, Some(t.defaults)),
                        Some(t.defaults),
                        TabResult::Mutated,
                    ),
                }
            } else if code is Enter {
                leave(t, llm)
            } else {
                (t, llm, TabResult::Ignored)
            },
            EditState::Provider => match picker_result(
                items,
                t.picker_filter,
                t.picker_cursor,
                code,
            ) {
                PickerResult::Selected(v) => {
                    let t2 = LlmTabModel {
                        edit: None,
                        picker_filter: Seq::empty(),
                        picker_cursor: 0,
                        ..t
                    };
                    match llm {
                        Some(l) => if l.provider != v {
                            (t2, Some(LlmModel { provider: v, ..l }), TabResult::Mutated)
                        } else {
                            (t2, llm, TabResult::FocusChanged(llm_focus(t.cursor, false)))
                        },
                        None => (t2, llm, TabResult::FocusChanged(llm_focus(t.cursor, false))),
                    }
                },
                _ => (
                    LlmTabModel {
                        picker_filter: picker_filter_after(t.picker_filter, code),
                        picker_cursor: picker_cursor_after(
                            items,
                            t.picker_filter,
                            t.picker_cursor,
                            code,
                        ),
                        ..t
                    },
                    llm,
                    TabResult::Ignored,
                ),
            },
            EditState::Model | EditState::BaseUrl => if code is Enter {
                (LlmTabModel { edit: None, ..t }, flushed(t, llm), TabResult::Mutated)
            } else {
                let t2 = text_typed(t, st is Model, key);
                let changed = if st is Model {
                    edit_of(t.model_text, t.model_cursor, key).2
                } else {
                    edit_of(t.base_url_text, t.base_url_cursor, key).2
                };
                if changed {
                    (t2, flushed(t2, llm), TabResult::Mutated)
                } else {
                    (t2, llm, TabResult::Ignored)
                }
            },
            EditState::Timeout => if code is Enter {
                leave(t, llm)
            } else {
                match llm {
                    Some(l) => match stepper_step(code, (l.timeout_ms as i64) as int, 100, 60000) {
                        StepperOutcome::Changed(v) => (
                            t,
                            Some(LlmModel { timeout_ms: v as u64, ..l }),
                            TabResult::Mutated,
                        ),
                        _ => (t, llm, TabResult::Ignored),
                    },
                    None => (t, llm, TabResult::Ignored),
                }
            },
            EditState::MaxTokens => if code is Enter {
                leave(t, llm)
            } else {
                match llm {
                    Some(l) => match stepper_step(code, l.max_tokens as int, 1, 8192) {
                        StepperOutcome::Changed(v) => (
                            t,
                            Some(LlmModel { max_tokens: v as u32, ..l }),
                            TabResult::Mutated,
                        ),
                        _ => (t, llm, TabResult::Ignored),
                    },
                    None => (t, llm, TabResult::Ignored),
                }
            },
        }
    }
}

/// A key in the tab. Browsing, the arrows move between the sections shown
/// (only the first while analysis is off) and Enter edits the one under
/// the cursor. Editing, Esc leaves (Left and `h` too, except in the text
/// fields); space turns analysis on (from the defaults) or off; the
/// provider is picked from the known ones; Enter in a text field writes
/// both text fields into the settings; the timeout and the token limit
/// are steppers; Enter leaves the other fields. Any other key in a text
/// field edits it, and an edit that changes the text or its cursor writes
/// both fields into the settings.
pub open spec fn llm_step(t0: LlmTabModel, llm0: Option<LlmModel>, key: KeyEvent) -> (
    LlmTabModel,
    Option<LlmModel>,
    TabResult,
) {
    let code = key.code;
    let t = ensure_init(t0, llm0);
    let n = if llm0 is Some {
        NUM_SECTIONS_FULL as int
    } else {
        1
    };
    match t.edit {
        None => if code is Up || code == KeyCode::Char('k') {
            if t.cursor > 0 {
                (
                    LlmTabModel { cursor: t.cursor - 1, ..t },
                    llm0,
                    TabResult::FocusChanged(llm_focus(t.cursor - 1, false)),
                )
            } else {
                (t, llm0, TabResult::Ignored)
            }
        } else if code is Down || code == KeyCode::Char('j') {
            if t.cursor + 1 < n {
                (
                    LlmTabModel { cursor: t.cursor + 1, ..t },
                    llm0,
                    TabResult::FocusChanged(llm_focus(t.cursor + 1, false)),
                )
            } else {
                (t, llm0, TabResult::Ignored)
            }
        } else if code is Enter {
            (
                LlmTabModel { edit: Some(edit_for_section(t.cursor)), ..t },
                llm0,
                TabResult::FocusChanged(llm_focus(t.cursor, true)),
            )
        } else {
            (t, llm0, TabResult::Ignored)
        },
        Some(st) => llm_editing_step(t, st, llm0, key),
    }
}

fn llm_focus_exec(cursor: usize, editing: bool) -> (r: FieldFocus)
    ensures
        r@ == llm_focus(cursor as int, editing),
{
    let title = section_title(cursor);
    let (name, help) = if editing {
        (concat_str("Editing: ", title), "Esc to go back")
    } else {
        (owned(title), "↑↓ select section · Enter to edit.")
    };
    let mut badges: Vec<&'static str> = Vec::new();
    badges.push("shell");
    badges.push("ai");
    let r = FieldFocus { name, badges, help: owned(help) };
    proof {
        assert(r.badges@.map_values(|b: &'static str| b@) =~= seq!["shell"@, "ai"@]);
    }
    r
}

fn copy_llm(l: &LlmSettings) -> (r: LlmSettings)
    ensures
        r@ == l@,
{
    LlmSettings {
        provider: l.provider.clone(),
        model: l.model.clone(),
        base_url: match &l.base_url {
            Some(u) => Some(u.clone()),
            None => None,
        },
        timeout_ms: l.timeout_ms,
        max_tokens: l.max_tokens,
    }
}

impl LLMTab {
    pub closed spec fn model(&self) -> LlmTabModel {
        LlmTabModel {
            cursor: self.cursor as int,
            edit: self.edit,
            picker_filter: self.provider_picker.filter@,
            picker_cursor: self.provider_picker.cursor as int,
            model_text: self.model_input.value@,
            model_cursor: self.model_input.cursor,
            base_url_text: self.base_url_input.value@,
            base_url_cursor: self.base_url_input.cursor,
            initialized: self.initialized,
            defaults: self.defaults@,
        }
    }

    /// A tab browsing its first section; turning analysis on starts from
    /// `defaults`.
    pub fn new(defaults: LlmSettings) -> (r: Self)
        ensures
            r.model() == (LlmTabModel {
                cursor: 0,
                edit: None,
                picker_filter: Seq::empty(),
                picker_cursor: 0,
                model_text: Seq::empty(),
                model_cursor: 0,
                base_url_text: Seq::empty(),
                base_url_cursor: 0,
                initialized: false,
                defaults: defaults@,
            }),
    {
        LLMTab {
            cursor: 0,
            edit: None,
            provider_picker: PickerState::default(),
            model_input: TextInput::default(),
            base_url_input: TextInput::default(),
            initialized: false,
            defaults,
        }
    }

    /// The focused field's description.
    pub fn current_focus(&self) -> (r: FieldFocus)
        ensures
            r@ == llm_focus(self.model().cursor, self.model().edit is Some),
    {
        llm_focus_exec(self.cursor, self.edit.is_some())
    }

    fn ensure_initialized(&mut self, llm: &Option<LlmSettings>)
        ensures
            final(self).model() == ensure_init(old(self).model(), opt_llm(*llm)),
    {
        if self.initialized {
            return;
        }
        match llm {
            Some(l) => {
                self.model_input = TextInput::with_value(l.model.as_str());
                self.base_url_input = match &l.base_url {
                    Some(u) => TextInput::with_value(u.as_str()),
                    None => TextInput::default(),
                };
            },
            None => {},
        }
        self.initialized = true;
    }

    fn flush(&self, llm: &mut Option<LlmSettings>)
        ensures
            opt_llm(*final(llm)) == flushed(self.model(), opt_llm(*old(llm))),
    {
        match llm {
            Some(l) => {
                l.model = self.model_input.value.clone();
                l.base_url = if self.base_url_input.value.as_str().is_empty() {
                    None
                } else {
                    Some(self.base_url_input.value.clone())
                };
            },
            None => {},
        }
    }

    /// A key in the tab (see [`llm_step`]).
    pub fn handle_key(&mut self, key: KeyEvent, llm: &mut Option<LlmSettings>) -> (r: TabOutcome)
        ensures
            ({
                let (t2, l2, res) = llm_step(
                    old(self).model(),
                    opt_llm(*old(llm)),
                    key,
                );
                &&& final(self).model() == t2
                &&& opt_llm(*final(llm)) == l2
                &&& r@ == res
            }),
    {
        self.ensure_initialized(llm);
        let n = num_sections(llm.is_some());
        let code = key.code;
        let state = match self.edit {
            None => {
                match code {
                    KeyCode::Up | KeyCode::Char('k') => {
                        if self.cursor > 0 {
                            self.cursor = self.cursor - 1;
                            return TabOutcome::FieldFocusChanged(self.current_focus());
                        }
                        return TabOutcome::Ignored;
                    },
                    KeyCode::Down | KeyCode::Char('j') => {
                        if self.cursor < n - 1 {
                            self.cursor = self.cursor + 1;
                            return TabOutcome::FieldFocusChanged(self.current_focus());
                        }
                        return TabOutcome::Ignored;
                    },
                    KeyCode::Enter => {
                        self.edit = Some(
                            match self.cursor {
                                1 => EditState::Provider,
                                2 => EditState::Model,
                                3 => EditState::BaseUrl,
                                4 => EditState::Timeout,
                                5 => EditState::MaxTokens,
                                _ => EditState::Enable,
                            },
                        );
                        return TabOutcome::FieldFocusChanged(self.current_focus());
                    },
                    _ => {
                        return TabOutcome::Ignored;
                    },
                }
            },
            Some(st) => st,
        };
        self.handle_editing(key, llm, state)
    }

    fn handle_editing(&mut self, key: KeyEvent, llm: &mut Option<LlmSettings>, state: EditState) -> (r:
        TabOutcome)
        requires
            old(self).edit == Some(state),
        ensures
            ({
                let (t2, l2, res) = llm_editing_step(
                    old(self).model(),
                    state,
                    opt_llm(*old(llm)),
                    key,
                );
                &&& final(self).model() == t2
                &&& opt_llm(*final(llm)) == l2
                &&& r@ == res
            }),
    {
        let code = key.code;
        let text_field = match state {
            EditState::Model | EditState::BaseUrl => true,
            _ => false,
        };
        if code == KeyCode::Esc || ((code == KeyCode::Left || code == KeyCode::Char('h'))
            && !text_field) {
            self.edit = None;
            return TabOutcome::FieldFocusChanged(self.current_focus());
        }
        match state {
            EditState::Enable => {
                if code == KeyCode::Char(' ') {
                    if llm.is_some() {
                        *llm = None;
                        self.cursor = SECTION_ENABLE;
                        self.initialized = false;
                    } else {
                        *llm = Some(copy_llm(&self.defaults));
                        self.initialized = false;
                        self.ensure_initialized(llm);
                    }
                    TabOutcome::Mutated
                } else if code == KeyCode::Enter {
                    self.edit = None;
                    TabOutcome::FieldFocusChanged(self.current_focus())
                } else {
                    TabOutcome::Ignored
                }
            },
            EditState::Provider => {
                let items = provider_items();
                proof {
                    let chosen = provider_picker_items();
                    assert(item_values(chosen) == provider_seq());
                    lemma_picker_values_only(
                        items@,
                        chosen,
                        self.provider_picker.filter@,
                        self.provider_picker.cursor as int,
                        code,
                    );
                }
                let outcome = handle_picker_key(key, &mut self.provider_picker, items.as_slice());
                match outcome {
                    PickerOutcome::Selected(value) => {
                        let mutated = match llm {
                            Some(l) => {
                                let changed = !crate::text::str_eq(l.provider.as_str(), value.as_str());
                                l.provider = value;
                                changed
                            },
                            None => false,
                        };
                        self.provider_picker = PickerState::default();
                        self.edit = None;
                        if mutated {
                            TabOutcome::Mutated
                        } else {
                            TabOutcome::FieldFocusChanged(self.current_focus())
                        }
                    },
                    _ => TabOutcome::Ignored,
                }
            },
            EditState::Model | EditState::BaseUrl => {
                let outcome = match state {
                    EditState::Model => self.model_input.handle(key),
                    _ => self.base_url_input.handle(key),
                };
                match outcome {
                    TextInputOutcome::Submitted(_) => {
                        self.flush(llm);
                        self.edit = None;
                        TabOutcome::Mutated
                    },
                    TextInputOutcome::Changed => {
                        self.flush(llm);
                        TabOutcome::Mutated
                    },
                    _ => TabOutcome::Ignored,
                }
            },
            EditState::Timeout => {
                if code == KeyCode::Enter {
                    self.edit = None;
                    return TabOutcome::FieldFocusChanged(self.current_focus());
                }
                match llm {
                    Some(l) => {
                        let outcome = handle_stepper_key(
                            key,
                            l.timeout_ms as i64,
                            TIMEOUT_MIN,
                            TIMEOUT_MAX,
                        );
                        match outcome {
                            StepperOutcome::Changed(v) => {
                                l.timeout_ms = v as u64;
                                TabOutcome::Mutated
                            },
                            _ => TabOutcome::Ignored,
                        }
                    },
                    None => TabOutcome::Ignored,
                }
            },
            EditState::MaxTokens => {
                if code == KeyCode::Enter {
                    self.edit = None;
                    return TabOutcome::FieldFocusChanged(self.current_focus());
                }
                match llm {
                    Some(l) => {
                        let outcome = handle_stepper_key(
                            key,
                            l.max_tokens as i64,
                            MAX_TOKENS_MIN,
                            MAX_TOKENS_MAX,
                        );
                        match outcome {
                            StepperOutcome::Changed(v) => {
                                l.max_tokens = v as u32;
                                TabOutcome::Mutated
                            },
                            _ => TabOutcome::Ignored,
                        }
                    },
                    None => TabOutcome::Ignored,
                }
            },
        }
    }
}

} // verus!
