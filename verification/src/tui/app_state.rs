//! The editor's dialogs and top-level key handling, as a state machine:
//! from the editor's state and a key to the next state and the effect the
//! front end must carry out (saving, resetting, deleting a check).
use vstd::prelude::*;
use crate::text::str_eq;
use crate::tui::check_form::FormMode;
use crate::tui::custom_check::Check;
use crate::tui::tabs::groups::{append_distinct, views_of};
use crate::tui::widgets::picker::{item_values, PickerItem};
use crate::tui::keys::{KeyCode, KeyEvent};
use crate::tui::tabs::TabOutcome;
use crate::tui::validate::{ValidationError, ValidationReport};

verus! {

/// Number of tabs of the editor.
pub const NUM_TABS: usize = 9;

/// Index of the custom-checks tab.
pub const CUSTOM_TAB: usize = 8;

/// Rows scrolled by page up/down in the preview.
pub const PAGE_STEP: u16 = 12;

#[derive(Debug)]
pub enum Modal {
    /// Confirm saving, or show why the settings cannot be saved.
    Save(SaveDialogState),
    /// Quitting with unsaved edits: save, discard or cancel.
    Quit(QuitDialogState),
    /// Confirm dropping every edit.
    Reset(ResetDialogState),
    Help,
    /// Confirm deleting a custom check; the default button is Cancel.
    DeleteCustom(DeleteCustomDialogState),
}

/// Button 0 deletes, 1 cancels.
#[derive(Debug)]
pub struct DeleteCustomDialogState {
    pub index: usize,
    pub id: String,
    pub from: String,
    pub button: usize,
}

/// Button 0 saves, 1 cancels.
#[derive(Debug)]
pub struct SaveDialogState {
    pub stage: SaveStage,
    pub button: usize,
}

impl Default for SaveDialogState {
    fn default() -> (r: Self)
        ensures
            r.stage is Confirm,
            r.button == 0,
    {
        SaveDialogState { stage: SaveStage::Confirm, button: 0 }
    }
}

#[derive(Debug)]
pub enum SaveStage {
    Confirm,
    Errors(Vec<ValidationError>),
}

impl Default for SaveStage {
    fn default() -> (r: Self)
        ensures
            r is Confirm,
    {
        SaveStage::Confirm
    }
}

/// Button 0 saves and quits, 1 discards and quits, 2 cancels.
#[derive(Debug)]
pub struct QuitDialogState {
    pub button: usize,
}

impl Default for QuitDialogState {
    fn default() -> (r: Self)
        ensures
            r.button == 0,
    {
        QuitDialogState { button: 0 }
    }
}

/// Button 0 resets, 1 cancels.
#[derive(Debug)]
pub struct ResetDialogState {
    pub button: usize,
}

impl Default for ResetDialogState {
    fn default() -> (r: Self)
        ensures
            r.button == 0,
    {
        ResetDialogState { button: 0 }
    }
}

#[derive(Debug, Clone, Copy, PartialEq, Eq, Structural)]
pub enum PreviewMode {
    Closed,
    /// The preview takes the right part of the body.
    Open,
}

impl Default for PreviewMode {
    fn default() -> (r: Self)
        ensures
            r == PreviewMode::Closed,
    {
        PreviewMode::Closed
    }
}

/// Visibility and scroll position of the preview pane. While
/// `auto_scroll` holds, the offset follows the first change.
#[derive(Debug)]
pub struct PreviewState {
    pub mode: PreviewMode,
    pub scroll: u16,
    pub auto_scroll: bool,
}

impl Default for PreviewState {
    fn default() -> (r: Self)
        ensures
            r.mode == PreviewMode::Closed,
            r.scroll == 0,
            !r.auto_scroll,
    {
        PreviewState { mode: PreviewMode::Closed, scroll: 0, auto_scroll: false }
    }
}

impl PreviewState {
    pub fn is_open(&self) -> (r: bool)
        ensures
            r == (self.mode == PreviewMode::Open),
    {
        match self.mode {
            PreviewMode::Open => true,
            PreviewMode::Closed => false,
        }
    }
}

/// The other preview mode.
pub open spec fn toggled(m: PreviewMode) -> PreviewMode {
    match m {
        PreviewMode::Closed => PreviewMode::Open,
        PreviewMode::Open => PreviewMode::Closed,
    }
}

/// What the front end must carry out after a key.
#[derive(Debug)]
pub enum ModalEffect {
    Nothing,
    /// Write the settings.
    Save,
    /// Write the settings; the editor has stopped.
    SaveAndQuit,
    /// The editor has stopped without saving.
    DiscardAndQuit,
    /// Drop every edit.
    Reset,
    /// Delete the custom check `id` of group `from`.
    DeleteCheck { index: usize, id: String, from: String },
}

pub open spec fn is_next_key(code: KeyCode) -> bool {
    code is Tab || code is Right || code == KeyCode::Char('l')
}

pub open spec fn is_prev_key(code: KeyCode) -> bool {
    code is BackTab || code is Left || code == KeyCode::Char('h')
}

pub open spec fn is_confirm_key(code: KeyCode) -> bool {
    code is Enter || code == KeyCode::Char(' ')
}

/// The dialog that stays open (if any) and the effect of a key in it.
pub open spec fn modal_step(m: Modal, code: KeyCode, report: ValidationReport) -> (
    Option<Modal>,
    ModalEffect,
) {
    match m {
        Modal::Save(st) => match st.stage {
            SaveStage::Confirm => if code is Esc {
                (None, ModalEffect::Nothing)
            } else if is_next_key(code) {
                (
                    Some(
                        Modal::Save(
                            SaveDialogState {
                                stage: SaveStage::Confirm,
                                button: ((st.button + 1) % 2) as usize,
                            },
                        ),
                    ),
                    ModalEffect::Nothing,
                )
            } else if is_prev_key(code) {
                (
                    Some(
                        Modal::Save(
                            SaveDialogState {
                                stage: SaveStage::Confirm,
                                button: if st.button == 0 {
                                    1
                                } else {
                                    0
                                },
                            },
                        ),
                    ),
                    ModalEffect::Nothing,
                )
            } else if is_confirm_key(code) {
                if st.button == 1 {
                    (None, ModalEffect::Nothing)
                } else {
                    (None, ModalEffect::Save)
                }
            } else {
                (Some(Modal::Save(st)), ModalEffect::Nothing)
            },
            SaveStage::Errors(_) => if code is Esc || is_confirm_key(code) {
                (None, ModalEffect::Nothing)
            } else {
                (Some(Modal::Save(st)), ModalEffect::Nothing)
            },
        },
        Modal::Quit(st) => if code is Esc {
            (None, ModalEffect::Nothing)
        } else if is_next_key(code) {
            (
                Some(Modal::Quit(QuitDialogState { button: ((st.button + 1) % 3) as usize })),
                ModalEffect::Nothing,
            )
        } else if is_prev_key(code) {
            (
                Some(
                    Modal::Quit(
                        QuitDialogState {
                            button: if st.button == 0 {
                                2
                            } else {
                                (st.button - 1) as usize
                            },
                        },
                    ),
                ),
                ModalEffect::Nothing,
            )
        } else if is_confirm_key(code) {
            if st.button == 0 {
                if report.errors@.len() > 0 {
                    (
                        Some(
                            Modal::Save(
                                SaveDialogState {
                                    stage: SaveStage::Errors(report.errors),
                                    button: 0,
                                },
                            ),
                        ),
                        ModalEffect::Nothing,
                    )
                } else {
                    (None, ModalEffect::SaveAndQuit)
                }
            } else if st.button == 1 {
                (None, ModalEffect::DiscardAndQuit)
            } else {
                (None, ModalEffect::Nothing)
            }
        } else {
            (Some(Modal::Quit(st)), ModalEffect::Nothing)
        },
        Modal::Reset(st) => if code is Esc {
            (None, ModalEffect::Nothing)
        } else if is_next_key(code) {
            (
                Some(Modal::Reset(ResetDialogState { button: ((st.button + 1) % 2) as usize })),
                ModalEffect::Nothing,
            )
        } else if is_prev_key(code) {
            (
                Some(
                    Modal::Reset(
                        ResetDialogState {
                            button: if st.button == 0 {
                                1
                            } else {
                                0
                            },
                        },
                    ),
                ),
                ModalEffect::Nothing,
            )
        } else if is_confirm_key(code) {
            if st.button == 0 {
                (None, ModalEffect::Reset)
            } else {
                (None, ModalEffect::Nothing)
            }
        } else {
            (Some(Modal::Reset(st)), ModalEffect::Nothing)
        },
        Modal::Help => if code is Esc || code == KeyCode::Char('?') || code == KeyCode::Char('q') {
            (None, ModalEffect::Nothing)
        } else {
            (Some(Modal::Help), ModalEffect::Nothing)
        },
        Modal::DeleteCustom(st) => if code is Esc {
            (None, ModalEffect::Nothing)
        } else if is_next_key(code) || is_prev_key(code) {
            (
                Some(
                    Modal::DeleteCustom(
                        DeleteCustomDialogState {
                            button: ((st.button + 1) % 2) as usize,
                            ..st
                        },
                    ),
                ),
                ModalEffect::Nothing,
            )
        } else if code is Enter {
            if st.button == 0 {
                (None, ModalEffect::DeleteCheck { index: st.index, id: st.id, from: st.from })
            } else {
                (None, ModalEffect::Nothing)
            }
        } else {
            (Some(Modal::DeleteCustom(st)), ModalEffect::Nothing)
        },
    }
}

/// `(b + 1) % n` for a button index.
fn next_button(b: usize, n: usize) -> (r: usize)
    requires
        n > 0,
    ensures
        r == (b + 1) % (n as int),
{
    let c = b % n;
    proof {
        vstd::arithmetic::div_mod::lemma_add_mod_noop(c as int, 1, n as int);
        vstd::arithmetic::div_mod::lemma_mod_twice(b as int, n as int);
        vstd::arithmetic::div_mod::lemma_add_mod_noop(b as int, 1, n as int);
    }
    (c + 1) % n
}

/// A key in an open dialog: Tab/Right/`l` and BackTab/Left/`h` move
/// between buttons, Enter (or space) presses the current one, Esc closes.
pub fn handle_modal_key(modal: Modal, key: KeyEvent, report: ValidationReport) -> (r: (
    Option<Modal>,
    ModalEffect,
))
    ensures
        r == modal_step(modal, key.code, report),
{
    let code = key.code;
    match modal {
        Modal::Save(st) => match st.stage {
            SaveStage::Confirm => {
                if code == KeyCode::Esc {
                    (None, ModalEffect::Nothing)
                } else if code == KeyCode::Tab || code == KeyCode::Right || code == KeyCode::Char(
                    'l',
                ) {
                    let button = next_button(st.button, 2);
                    (
                        Some(Modal::Save(SaveDialogState { stage: SaveStage::Confirm, button })),
                        ModalEffect::Nothing,
                    )
                } else if code == KeyCode::BackTab || code == KeyCode::Left || code
                    == KeyCode::Char('h') {
                    let button = if st.button == 0 {
                        1
                    } else {
                        0
                    };
                    (
                        Some(Modal::Save(SaveDialogState { stage: SaveStage::Confirm, button })),
                        ModalEffect::Nothing,
                    )
                } else if code == KeyCode::Enter || code == KeyCode::Char(' ') {
                    if st.button == 1 {
                        (None, ModalEffect::Nothing)
                    } else {
                        (None, ModalEffect::Save)
                    }
                } else {
                    (
                        Some(Modal::Save(SaveDialogState { stage: SaveStage::Confirm, ..st })),
                        ModalEffect::Nothing,
                    )
                }
            },
            SaveStage::Errors(errs) => {
                if code == KeyCode::Esc || code == KeyCode::Enter || code == KeyCode::Char(' ') {
                    (None, ModalEffect::Nothing)
                } else {
                    (
                        Some(
                            Modal::Save(
                                SaveDialogState { stage: SaveStage::Errors(errs), button: st.button },
                            ),
                        ),
                        ModalEffect::Nothing,
                    )
                }
            },
        },
        Modal::Quit(st) => {
            if code == KeyCode::Esc {
                (None, ModalEffect::Nothing)
            } else if code == KeyCode::Tab || code == KeyCode::Right || code == KeyCode::Char('l') {
                (
                    Some(Modal::Quit(QuitDialogState { button: next_button(st.button, 3) })),
                    ModalEffect::Nothing,
                )
            } else if code == KeyCode::BackTab || code == KeyCode::Left || code == KeyCode::Char(
                'h',
            ) {
                let button = if st.button == 0 {
                    2
                } else {
                    st.button - 1
                };
                (Some(Modal::Quit(QuitDialogState { button })), ModalEffect::Nothing)
            } else if code == KeyCode::Enter || code == KeyCode::Char(' ') {
                if st.button == 0 {
                    if !report.is_ok() {
                        (
                            Some(
                                Modal::Save(
                                    SaveDialogState {
                                        stage: SaveStage::Errors(report.errors),
                                        button: 0,
                                    },
                                ),
                            ),
                            ModalEffect::Nothing,
                        )
                    } else {
                        (None, ModalEffect::SaveAndQuit)
                    }
                } else if st.button == 1 {
                    (None, ModalEffect::DiscardAndQuit)
                } else {
                    (None, ModalEffect::Nothing)
                }
            } else {
                (Some(Modal::Quit(st)), ModalEffect::Nothing)
            }
        },
        Modal::Reset(st) => {
            if code == KeyCode::Esc {
                (None, ModalEffect::Nothing)
            } else if code == KeyCode::Tab || code == KeyCode::Right || code == KeyCode::Char('l') {
                (
                    Some(Modal::Reset(ResetDialogState { button: next_button(st.button, 2) })),
                    ModalEffect::Nothing,
                )
            } else if code == KeyCode::BackTab || code == KeyCode::Left || code == KeyCode::Char(
                'h',
            ) {
                let button = if st.button == 0 {
                    1
                } else {
                    0
                };
                (Some(Modal::Reset(ResetDialogState { button })), ModalEffect::Nothing)
            } else if code == KeyCode::Enter || code == KeyCode::Char(' ') {
                if st.button == 0 {
                    (None, ModalEffect::Reset)
                } else {
                    (None, ModalEffect::Nothing)
                }
            } else {
                (Some(Modal::Reset(st)), ModalEffect::Nothing)
            }
        },
        Modal::Help => {
            if code == KeyCode::Esc || code == KeyCode::Char('?') || code == KeyCode::Char('q') {
                (None, ModalEffect::Nothing)
            } else {
                (Some(Modal::Help), ModalEffect::Nothing)
            }
        },
        Modal::DeleteCustom(st) => {
            if code == KeyCode::Esc {
                (None, ModalEffect::Nothing)
            } else if code == KeyCode::Tab || code == KeyCode::Right || code == KeyCode::Char('l')
                || code == KeyCode::BackTab || code == KeyCode::Left || code == KeyCode::Char('h') {
                let button = next_button(st.button, 2);
                (
                    Some(Modal::DeleteCustom(DeleteCustomDialogState { button, ..st })),
                    ModalEffect::Nothing,
                )
            } else if code == KeyCode::Enter {
                if st.button == 0 {
                    (None, ModalEffect::DeleteCheck { index: st.index, id: st.id, from: st.from })
                } else {
                    (None, ModalEffect::Nothing)
                }
            } else {
                (Some(Modal::DeleteCustom(st)), ModalEffect::Nothing)
            }
        },
    }
}

/// The editor's own state: active tab, preview pane, open dialog and
/// whether it still runs.
#[derive(Debug)]
pub struct AppState {
    pub current_tab: usize,
    pub preview: PreviewState,
    pub modal: Option<Modal>,
    pub running: bool,
}

impl AppState {
    /// The editor as it opens: first tab, preview closed, no dialog.
    pub fn new() -> (r: Self)
        ensures
            r.current_tab == 0,
            r.preview.mode == PreviewMode::Closed,
            r.preview.scroll == 0,
            !r.preview.auto_scroll,
            r.modal is None,
            r.running,
    {
        AppState { current_tab: 0, preview: PreviewState::default(), modal: None, running: true }
    }
}

/// Where a key goes once the editor has looked at it.
#[derive(Debug)]
pub enum KeyRoute {
    /// Used by the editor; the front end carries out the effect.
    Handled(ModalEffect),
    /// Another tab became active; its focused field must be shown.
    TabChanged,
    /// The active tab must handle the key.
    ToTab,
}

/// The dialog that a save request opens: the confirmation, or the errors.
pub open spec fn save_dialog_for(report: ValidationReport) -> Modal {
    if report.errors@.len() == 0 {
        Modal::Save(SaveDialogState { stage: SaveStage::Confirm, button: 0 })
    } else {
        Modal::Save(SaveDialogState { stage: SaveStage::Errors(report.errors), button: 0 })
    }
}

pub open spec fn stops(e: ModalEffect) -> bool {
    e is SaveAndQuit || e is DiscardAndQuit
}

/// A key before the active tab sees it (no authoring form open). An open
/// dialog takes every key. Otherwise `q` quits (through a dialog when
/// there are unsaved edits), `s` opens the save dialog, `r` the reset
/// dialog, `?` the help, `p` opens or closes the preview (back to
/// following the first change), Tab and BackTab switch tabs, and
/// Shift+Up/Down scroll an open preview by one row. Other keys go to the
/// tab.
pub fn route_key(app: &mut AppState, key: KeyEvent, dirty: bool, report: ValidationReport) -> (r:
    KeyRoute)
    requires
        old(app).current_tab < NUM_TABS,
    ensures
        final(app).current_tab < NUM_TABS,
        ({
            let code = key.code;
            let a = *old(app);
            let z = *final(app);
            match a.modal {
                Some(m) => {
                    let (next, eff) = modal_step(m, code, report);
                    &&& z.modal == next
                    &&& r matches KeyRoute::Handled(e) && e == eff
                    &&& z.running == (a.running && !stops(eff))
                    &&& z.current_tab == a.current_tab
                    &&& z.preview == a.preview
                },
                None => if code == KeyCode::Char('q') {
                    &&& r matches KeyRoute::Handled(e) && e is Nothing
                    &&& z.modal == if dirty {
                        Some(Modal::Quit(QuitDialogState { button: 0 }))
                    } else {
                        None::<Modal>
                    }
                    &&& z.running == (a.running && dirty)
                    &&& z.current_tab == a.current_tab
                    &&& z.preview == a.preview
                } else if code == KeyCode::Char('s') || code == KeyCode::Char('r') || code
                    == KeyCode::Char('?') {
                    &&& r matches KeyRoute::Handled(e) && e is Nothing
                    &&& z.modal == Some(
                        if code == KeyCode::Char('s') {
                            save_dialog_for(report)
                        } else if code == KeyCode::Char('r') {
                            Modal::Reset(ResetDialogState { button: 0 })
                        } else {
                            Modal::Help
                        },
                    )
                    &&& z.running == a.running
                    &&& z.current_tab == a.current_tab
                    &&& z.preview == a.preview
                } else if code == KeyCode::Char('p') {
                    &&& r matches KeyRoute::Handled(e) && e is Nothing
                    &&& z.preview.mode == toggled(a.preview.mode)
                    &&& z.preview.auto_scroll
                    &&& z.preview.scroll == 0
                    &&& z.modal == a.modal
                    &&& z.running == a.running
                    &&& z.current_tab == a.current_tab
                } else if code is Tab || code is BackTab {
                    &&& r is TabChanged
                    &&& z.current_tab == if code is Tab {
                        (a.current_tab + 1) % (NUM_TABS as int)
                    } else {
                        (a.current_tab + NUM_TABS - 1) % (NUM_TABS as int)
                    }
                    &&& z.modal == a.modal
                    &&& z.running == a.running
                    &&& z.preview == a.preview
                } else if a.preview.mode == PreviewMode::Open && key.modifiers.shift && (code is Up
                    || code is Down) {
                    &&& r matches KeyRoute::Handled(e) && e is Nothing
                    &&& z.preview.scroll == if code is Up {
                        if a.preview.scroll >= 1 {
                            a.preview.scroll - 1
                        } else {
                            0
                        }
                    } else {
                        if a.preview.scroll + 1 <= u16::MAX {
                            a.preview.scroll + 1
                        } else {
                            u16::MAX as int
                        }
                    }
                    &&& !z.preview.auto_scroll
                    &&& z.preview.mode == a.preview.mode
                    &&& z.modal == a.modal
                    &&& z.running == a.running
                    &&& z.current_tab == a.current_tab
                } else {
                    &&& r is ToTab
                    &&& z == a
                },
            }
        }),
{
    let code = key.code;
    if app.modal.is_some() {
        let mut taken: Option<Modal> = None;
        std::mem::swap(&mut taken, &mut app.modal);
        let m = taken.unwrap();
        let (next, eff) = handle_modal_key(m, key, report);
        app.modal = next;
        match eff {
            ModalEffect::SaveAndQuit | ModalEffect::DiscardAndQuit => {
                app.running = false;
            },
            _ => {},
        }
        return KeyRoute::Handled(eff);
    }
    if code == KeyCode::Char('q') {
        if dirty {
            app.modal = Some(Modal::Quit(QuitDialogState::default()));
        } else {
            app.running = false;
        }
        return KeyRoute::Handled(ModalEffect::Nothing);
    }
    if code == KeyCode::Char('s') {
        if report.is_ok() {
            app.modal = Some(Modal::Save(SaveDialogState::default()));
        } else {
            app.modal = Some(
                Modal::Save(SaveDialogState { stage: SaveStage::Errors(report.errors), button: 0 }),
            );
        }
        return KeyRoute::Handled(ModalEffect::Nothing);
    }
    if code == KeyCode::Char('r') {
        app.modal = Some(Modal::Reset(ResetDialogState::default()));
        return KeyRoute::Handled(ModalEffect::Nothing);
    }
    if code == KeyCode::Char('p') {
        app.preview.mode = match app.preview.mode {
            PreviewMode::Closed => PreviewMode::Open,
            PreviewMode::Open => PreviewMode::Closed,
        };
        app.preview.auto_scroll = true;
        app.preview.scroll = 0;
        return KeyRoute::Handled(ModalEffect::Nothing);
    }
    if code == KeyCode::Char('?') {
        app.modal = Some(Modal::Help);
        return KeyRoute::Handled(ModalEffect::Nothing);
    }
    if code == KeyCode::Tab {
        app.current_tab = (app.current_tab + 1) % NUM_TABS;
        return KeyRoute::TabChanged;
    }
    if code == KeyCode::BackTab {
        app.current_tab = (app.current_tab + NUM_TABS - 1) % NUM_TABS;
        return KeyRoute::TabChanged;
    }
    if app.preview.is_open() && key.modifiers.shift && (code == KeyCode::Up || code
        == KeyCode::Down) {
        if code == KeyCode::Up {
            app.preview.scroll = app.preview.scroll.saturating_sub(1);
        } else {
            app.preview.scroll = app.preview.scroll.saturating_add(1);
        }
        app.preview.auto_scroll = false;
        return KeyRoute::Handled(ModalEffect::Nothing);
    }
    KeyRoute::ToTab
}

/// What the editor does after the active tab handled a key.
#[derive(Debug)]
pub enum AfterTab {
    Nothing,
    /// Another tab became active; its focused field must be shown.
    TabChanged,
}

/// After the tab: when the tab did not use the key and the preview is
/// open, page up/down scroll it by a page; an edit makes the preview
/// follow the first change again; an unused Left/Right switches tabs.
pub fn after_tab(app: &mut AppState, key: KeyEvent, outcome: &TabOutcome) -> (r: AfterTab)
    requires
        old(app).current_tab < NUM_TABS,
    ensures
        final(app).current_tab < NUM_TABS,
        final(app).modal == old(app).modal,
        final(app).running == old(app).running,
        final(app).preview.mode == old(app).preview.mode,
        ({
            let code = key.code;
            let a = *old(app);
            let z = *final(app);
            if *outcome is Ignored && a.preview.mode == PreviewMode::Open && (code is PageUp
                || code is PageDown) {
                &&& r is Nothing
                &&& z.current_tab == a.current_tab
                &&& !z.preview.auto_scroll
                &&& z.preview.scroll == if code is PageUp {
                    if a.preview.scroll >= PAGE_STEP {
                        a.preview.scroll - PAGE_STEP
                    } else {
                        0
                    }
                } else {
                    if a.preview.scroll + PAGE_STEP <= u16::MAX {
                        a.preview.scroll + PAGE_STEP
                    } else {
                        u16::MAX as int
                    }
                }
            } else {
                &&& z.preview.scroll == a.preview.scroll
                &&& z.preview.auto_scroll == (a.preview.auto_scroll || *outcome is Mutated)
                &&& if *outcome is Ignored && (code is Left || code is Right) {
                    &&& r is TabChanged
                    &&& z.current_tab == if code is Left {
                        (a.current_tab + NUM_TABS - 1) % (NUM_TABS as int)
                    } else {
                        (a.current_tab + 1) % (NUM_TABS as int)
                    }
                } else {
                    r is Nothing && z.current_tab == a.current_tab
                }
            }
        }),
{
    let code = key.code;
    let ignored = match outcome {
        TabOutcome::Ignored => true,
        _ => false,
    };
    if ignored && app.preview.is_open() {
        if code == KeyCode::PageUp {
            app.preview.scroll = app.preview.scroll.saturating_sub(PAGE_STEP);
            app.preview.auto_scroll = false;
            return AfterTab::Nothing;
        }
        if code == KeyCode::PageDown {
            app.preview.scroll = app.preview.scroll.saturating_add(PAGE_STEP);
            app.preview.auto_scroll = false;
            return AfterTab::Nothing;
        }
    }
    match outcome {
        TabOutcome::Mutated => {
            app.preview.auto_scroll = true;
        },
        _ => {},
    }
    if ignored {
        if code == KeyCode::Left {
            app.current_tab = (app.current_tab + NUM_TABS - 1) % NUM_TABS;
            return AfterTab::TabChanged;
        }
        if code == KeyCode::Right {
            app.current_tab = (app.current_tab + 1) % NUM_TABS;
            return AfterTab::TabChanged;
        }
    }
    AfterTab::Nothing
}

/// Opens the delete confirmation for the custom check at `index` (Cancel
/// selected); nothing happens when there is no such check.
pub fn confirm_delete(app: &mut AppState, index: usize, checks: &Vec<Check>)
    ensures
        final(app).current_tab == old(app).current_tab,
        final(app).running == old(app).running,
        final(app).preview == old(app).preview,
        index < checks@.len() ==> (final(app).modal matches Some(
            Modal::DeleteCustom(st),
        ) && st.index == index && st.id@ == checks@[index as int].id@ && st.from@
            == checks@[index as int].from@ && st.button == 1),
        index >= checks@.len() ==> final(app).modal == old(app).modal,
{
    if index < checks.len() {
        let c = &checks[index];
        app.modal = Some(
            Modal::DeleteCustom(
                DeleteCustomDialogState {
                    index,
                    id: c.id.clone(),
                    from: c.from.clone(),
                    button: 1,
                },
            ),
        );
    }
}

/// How a check saved from the authoring form reaches the store.
#[derive(Debug)]
pub enum SavePlan {
    /// A new check: add it to its group.
    Add,
    /// An edit that kept the id: update it, moving it from
    /// `previous_group` when its group changed.
    Update { previous_group: String },
    /// An edit that changed the id: delete the old one, then add.
    Replace { old_id: String, old_group: String },
}

/// The store operations for a check saved from a form in `mode`.
pub fn save_plan(mode: &FormMode, check: &Check) -> (r: SavePlan)
    ensures
        match *mode {
            FormMode::Create => r is Add,
            FormMode::Edit { original_id, original_from } => if original_id@ != check.id@ {
                r matches SavePlan::Replace { old_id, old_group } && old_id@ == original_id@
                    && old_group@ == original_from@
            } else {
                r matches SavePlan::Update { previous_group } && previous_group@
                    == original_from@
            },
        },
{
    match mode {
        FormMode::Create => SavePlan::Add,
        FormMode::Edit { original_id, original_from } => {
            if !str_eq(original_id.as_str(), check.id.as_str()) {
                SavePlan::Replace { old_id: original_id.clone(), old_group: original_from.clone() }
            } else {
                SavePlan::Update { previous_group: original_from.clone() }
            }
        },
    }
}

pub open spec fn check_groups(checks: Seq<Check>) -> Seq<Seq<char>> {
    checks.map_values(|c: Check| c.from@)
}

pub open spec fn check_ids(checks: Seq<Check>) -> Seq<Seq<char>> {
    checks.map_values(|c: Check| c.id@)
}

/// The groups of the custom checks, each once, in order of first use.
pub fn distinct_groups(checks: &Vec<Check>) -> (r: Vec<String>)
    ensures
        views_of(r@) == append_distinct(Seq::empty(), check_groups(checks@)),
{
    let mut names: Vec<String> = Vec::new();
    let mut i: usize = 0;
    while i < checks.len()
        invariant
            i <= checks@.len(),
            views_of(names@) == check_groups(checks@.take(i as int)),
        decreases checks@.len() - i,
    {
        let ghost before = names@;
        names.push(checks[i].from.clone());
        proof {
            assert(views_of(names@) =~= views_of(before).push(checks@[i as int].from@));
            assert(check_groups(checks@.take(i + 1)) =~= check_groups(checks@.take(i as int)).push(
                checks@[i as int].from@,
            ));
        }
        i = i + 1;
    }
    proof {
        assert(checks@.take(checks@.len() as int) =~= checks@);
    }
    let none: Vec<String> = Vec::new();
    proof {
        assert(views_of(none@) =~= Seq::<Seq<char>>::empty());
    }
    crate::tui::tabs::groups::merge_distinct(&none, &names)
}

/// The ids offered by the ignore/deny pickers: every built-in id (badge
/// "built-in"), then each custom id not yet listed (badge "custom").
pub fn check_id_pool(builtin_ids: &Vec<String>, custom: &Vec<Check>) -> (r: Vec<PickerItem>)
    ensures
        item_values(r@) == append_distinct(views_of(builtin_ids@), check_ids(custom@)),
        forall|i: int|
            0 <= i < r@.len() ==> ((#[trigger] r@[i]).badge matches Some(b) && b@ == if i
                < builtin_ids@.len() {
                "built-in"@
            } else {
                "custom"@
            }),
{
    let mut out: Vec<PickerItem> = Vec::new();
    let mut i: usize = 0;
    while i < builtin_ids.len()
        invariant
            i <= builtin_ids@.len(),
            item_values(out@) == views_of(builtin_ids@.take(i as int)),
            out@.len() == i,
            forall|k: int|
                0 <= k < out@.len() ==> ((#[trigger] out@[k]).badge matches Some(b) && b@
                    == "built-in"@),
        decreases builtin_ids@.len() - i,
    {
        let ghost before = out@;
        out.push(PickerItem { value: builtin_ids[i].clone(), badge: Some("built-in") });
        proof {
            assert(item_values(out@) =~= item_values(before).push(builtin_ids@[i as int]@));
            assert(views_of(builtin_ids@.take(i + 1)) =~= views_of(builtin_ids@.take(i as int)).push(
                builtin_ids@[i as int]@,
            ));
        }
        i = i + 1;
    }
    proof {
        assert(builtin_ids@.take(builtin_ids@.len() as int) =~= builtin_ids@);
        assert(custom@.skip(0) =~= custom@);
    }
    let mut j: usize = 0;
    while j < custom.len()
        invariant
            j <= custom@.len(),
            builtin_ids@.len() <= out@.len(),
            append_distinct(item_values(out@), check_ids(custom@.skip(j as int))) == append_distinct(
                views_of(builtin_ids@),
                check_ids(custom@),
            ),
            forall|k: int|
                0 <= k < out@.len() ==> ((#[trigger] out@[k]).badge matches Some(b) && b@
                    == if k < builtin_ids@.len() {
                    "built-in"@
                } else {
                    "custom"@
                }),
        decreases custom@.len() - j,
    {
        let mut present = false;
        let mut k: usize = 0;
        while k < out.len()
            invariant
                j < custom@.len(),
                k <= out@.len(),
                present == item_values(out@.take(k as int)).contains(custom@[j as int].id@),
            decreases out@.len() - k,
        {
            proof {
                assert(item_values(out@.take(k + 1)) =~= item_values(out@.take(k as int)).push(
                    out@[k as int].value@,
                ));
                crate::tui::tabs::groups::lemma_push_contains(
                    item_values(out@.take(k as int)),
                    out@[k as int].value@,
                    custom@[j as int].id@,
                );
            }
            if str_eq(out[k].value.as_str(), custom[j].id.as_str()) {
                present = true;
            }
            k = k + 1;
        }
        proof {
            assert(out@.take(out@.len() as int) =~= out@);
            let rest = check_ids(custom@.skip(j as int));
            assert(rest[0] == custom@[j as int].id@);
            assert(rest.drop_first() =~= check_ids(custom@.skip(j + 1)));
        }
        if !present {
            let ghost before = out@;
            out.push(PickerItem { value: custom[j].id.clone(), badge: Some("custom") });
            proof {
                assert(item_values(out@) =~= item_values(before).push(custom@[j as int].id@));
            }
        }
        j = j + 1;
    }
    proof {
        assert(check_ids(custom@.skip(custom@.len() as int)) =~= Seq::<Seq<char>>::empty());
    }
    out
}

/// Esc closes every dialog, and asks for nothing.
pub proof fn lemma_esc_closes_any_dialog(m: Modal, report: ValidationReport)
    ensures
        modal_step(m, KeyCode::Esc, report).0 is None,
        modal_step(m, KeyCode::Esc, report).1 is Nothing,
{
}

/// The delete dialog opens on Cancel: Enter pressed at once deletes
/// nothing.
pub proof fn lemma_delete_dialog_defaults_to_cancel(
    index: usize,
    id: String,
    from: String,
    report: ValidationReport,
)
    ensures
        ({
            let st = DeleteCustomDialogState { index, id, from, button: 1 };
            let (next, eff) = modal_step(Modal::DeleteCustom(st), KeyCode::Enter, report);
            next is None && eff is Nothing
        }),
{
}

/// Pressing `p` twice gives the preview back its mode.
pub proof fn lemma_preview_toggle_twice(m: PreviewMode)
    ensures
        toggled(toggled(m)) == m,
{
}

/// Moving to the next tab and back (or back and forward) returns to the
/// same tab.
pub proof fn lemma_tab_switch_round_trip(t: int)
    requires
        0 <= t < NUM_TABS,
    ensures
        (((t + 1) % (NUM_TABS as int)) + NUM_TABS - 1) % (NUM_TABS as int) == t,
        (((t + NUM_TABS - 1) % (NUM_TABS as int)) + 1) % (NUM_TABS as int) == t,
{
}

/// A dialog that is confirmed with its first button asks for its action:
/// save, save and quit (when the settings are valid), reset.
pub proof fn lemma_first_button_confirms(report: ValidationReport)
    ensures
        modal_step(
            Modal::Save(SaveDialogState { stage: SaveStage::Confirm, button: 0 }),
            KeyCode::Enter,
            report,
        ).1 is Save,
        report.errors@.len() == 0 ==> modal_step(
            Modal::Quit(QuitDialogState { button: 0 }),
            KeyCode::Enter,
            report,
        ).1 is SaveAndQuit,
        modal_step(Modal::Reset(ResetDialogState { button: 0 }), KeyCode::Enter, report).1 is Reset,
{
}

} // verus!
