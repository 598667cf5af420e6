use shellfirm::tui::tabs::llm::{LLMTab, LlmSettings, SECTION_MODEL, SECTION_PROVIDER, SECTION_TIMEOUT};
use shellfirm::engine::pattern::Pattern;
use shellfirm::tui::check_store::CustomCheckStore;
use shellfirm::tui::custom_check::{Challenge, Check, Severity};
use shellfirm::tui::tabs::custom_checks::{CustomChecksTab, PendingAction};
use shellfirm::tui::env_vars::EnvVars;
use shellfirm::tui::keys::{KeyCode, KeyEvent, KeyModifiers};
use shellfirm::tui::tabs::context::{
    format_list_summary, ContextEscalation, ContextSettings, ContextTab, EditState as CtxEdit,
    EnvVarAddState, SECTION_ENV_VARS, SECTION_ESCALATION, SECTION_K8S,
};
use shellfirm::tui::tabs::escalation::{EscalationTab, SeverityEscalation, SECTION_MATRIX, SECTION_TOGGLE};
use shellfirm::tui::tabs::general::{
    GeneralSettings, GeneralTab, SECTION_BEHAVIOR, SECTION_SEVERITY,
};
use shellfirm::tui::tabs::groups::{GroupSelection, GroupsTab};
use shellfirm::tui::tabs::ignore_deny::{EditZone, IdLists, IgnoreDenyTab, Side};
use shellfirm::tui::tabs::wrap::{InheritOr, ModeOverrides, WrapTab, SECTION_OVR_CHALLENGE};
use shellfirm::tui::tabs::TabOutcome;
use shellfirm::tui::widgets::picker::PickerItem;

fn key(code: KeyCode) -> KeyEvent {
    KeyEvent::new(code, KeyModifiers::empty())
}

// ------------------------------------------------------------ general

fn general() -> (GeneralTab, GeneralSettings) {
    (
        GeneralTab::default(),
        GeneralSettings {
            challenge: Challenge::Math,
            min_severity: None,
            audit_enabled: false,
            blast_radius: true,
        },
    )
}

#[test]
fn general_down_in_browsing_moves_section() {
    let (mut tab, mut s) = general();
    let _ = tab.handle_key(key(KeyCode::Down), &mut s);
    assert_eq!(tab.section, SECTION_SEVERITY);
    assert!(tab.edit_cursor.is_none());
}

#[test]
fn general_enter_in_browsing_drills_in() {
    let (mut tab, mut s) = general();
    tab.section = SECTION_SEVERITY;
    let _ = tab.handle_key(key(KeyCode::Enter), &mut s);
    assert_eq!(tab.edit_cursor, Some(0));
}

#[test]
fn general_esc_in_editing_returns_to_browsing() {
    let (mut tab, mut s) = general();
    tab.section = SECTION_SEVERITY;
    tab.handle_key(key(KeyCode::Enter), &mut s);
    assert!(tab.edit_cursor.is_some());
    tab.handle_key(key(KeyCode::Esc), &mut s);
    assert!(tab.edit_cursor.is_none());
}

#[test]
fn space_on_radio_writes_value_and_stays_in_edit() {
    let (mut tab, mut s) = general();
    tab.section = SECTION_SEVERITY;
    tab.handle_key(key(KeyCode::Enter), &mut s);
    for _ in 0..5 {
        tab.handle_key(key(KeyCode::Down), &mut s);
    }
    assert_eq!(s.min_severity, None);
    let out = tab.handle_key(key(KeyCode::Char(' ')), &mut s);
    assert!(matches!(out, TabOutcome::Mutated));
    assert_eq!(s.min_severity, Some(Severity::Critical));
    assert!(tab.edit_cursor.is_some());
    let again = tab.handle_key(key(KeyCode::Char(' ')), &mut s);
    assert!(matches!(again, TabOutcome::Ignored));
}

#[test]
fn enter_in_editing_just_exits_without_extra_write() {
    let (mut tab, mut s) = general();
    tab.section = SECTION_SEVERITY;
    tab.handle_key(key(KeyCode::Enter), &mut s);
    for _ in 0..5 {
        tab.handle_key(key(KeyCode::Down), &mut s);
    }
    tab.handle_key(key(KeyCode::Enter), &mut s);
    assert_eq!(s.min_severity, None);
    assert!(tab.edit_cursor.is_none());
}

#[test]
fn esc_in_editing_just_exits() {
    let (mut tab, mut s) = general();
    tab.section = SECTION_SEVERITY;
    tab.handle_key(key(KeyCode::Enter), &mut s);
    for _ in 0..5 {
        tab.handle_key(key(KeyCode::Down), &mut s);
    }
    tab.handle_key(key(KeyCode::Esc), &mut s);
    assert!(tab.edit_cursor.is_none());
    assert_eq!(s.min_severity, None);
}

#[test]
fn space_in_behavior_toggles_focused_toggle() {
    let (mut tab, mut s) = general();
    tab.section = SECTION_BEHAVIOR;
    tab.handle_key(key(KeyCode::Enter), &mut s);
    let initial = s.audit_enabled;
    tab.handle_key(key(KeyCode::Char(' ')), &mut s);
    assert_eq!(s.audit_enabled, !initial);
    tab.handle_key(key(KeyCode::Down), &mut s);
    let initial_blast = s.blast_radius;
    tab.handle_key(key(KeyCode::Char(' ')), &mut s);
    assert_eq!(s.blast_radius, !initial_blast);
}

#[test]
fn general_focus_describes_section() {
    let (mut tab, mut s) = general();
    match tab.handle_key(key(KeyCode::Down), &mut s) {
        TabOutcome::FieldFocusChanged(f) => {
            assert_eq!(f.name, "Minimum severity");
            assert_eq!(f.badges, vec!["all"]);
        }
        other => panic!("expected a focus change, got {other:?}"),
    }
    match tab.handle_key(key(KeyCode::Char('l')), &mut s) {
        TabOutcome::FieldFocusChanged(f) => assert_eq!(f.name, "Editing: Minimum severity"),
        other => panic!("expected a focus change, got {other:?}"),
    }
}

// ------------------------------------------------------------ escalation

fn escalation() -> SeverityEscalation {
    SeverityEscalation {
        enabled: true,
        critical: Challenge::Yes,
        high: Challenge::Enter,
        medium: Challenge::Math,
        low: Challenge::Math,
        info: Challenge::Math,
    }
}

#[test]
fn enter_drills_into_section() {
    let mut tab = EscalationTab::default();
    let mut e = escalation();
    tab.handle_key(key(KeyCode::Enter), &mut e);
    assert!(tab.edit.is_some());
}

#[test]
fn space_in_toggle_section_flips_enabled() {
    let mut tab = EscalationTab::default();
    let mut e = escalation();
    tab.section = SECTION_TOGGLE;
    tab.handle_key(key(KeyCode::Enter), &mut e);
    let initial = e.enabled;
    tab.handle_key(key(KeyCode::Char(' ')), &mut e);
    assert_eq!(e.enabled, !initial);
}

#[test]
fn matrix_space_writes_cell_and_stays_in_edit_mode() {
    let mut tab = EscalationTab::default();
    let mut e = escalation();
    tab.section = SECTION_MATRIX;
    tab.handle_key(key(KeyCode::Enter), &mut e);
    tab.handle_key(key(KeyCode::Down), &mut e);
    tab.handle_key(key(KeyCode::Right), &mut e);
    tab.handle_key(key(KeyCode::Right), &mut e);
    assert_eq!(e.high, Challenge::Enter);
    tab.handle_key(key(KeyCode::Char(' ')), &mut e);
    assert_eq!(e.high, Challenge::Yes);
    assert!(tab.edit.is_some());
}

#[test]
fn matrix_space_then_navigate_then_space_writes_multiple_cells() {
    let mut tab = EscalationTab::default();
    let mut e = escalation();
    tab.section = SECTION_MATRIX;
    tab.handle_key(key(KeyCode::Enter), &mut e);
    tab.handle_key(key(KeyCode::Down), &mut e);
    tab.handle_key(key(KeyCode::Right), &mut e);
    tab.handle_key(key(KeyCode::Right), &mut e);
    tab.handle_key(key(KeyCode::Char(' ')), &mut e);
    assert_eq!(e.high, Challenge::Yes);
    tab.handle_key(key(KeyCode::Down), &mut e);
    tab.handle_key(key(KeyCode::Right), &mut e);
    tab.handle_key(key(KeyCode::Right), &mut e);
    tab.handle_key(key(KeyCode::Char(' ')), &mut e);
    assert_eq!(e.medium, Challenge::Yes);
}

#[test]
fn matrix_enter_exits_edit_mode_without_extra_commit() {
    let mut tab = EscalationTab::default();
    let mut e = escalation();
    tab.section = SECTION_MATRIX;
    tab.handle_key(key(KeyCode::Enter), &mut e);
    tab.handle_key(key(KeyCode::Down), &mut e);
    let out = tab.handle_key(key(KeyCode::Left), &mut e);
    assert!(matches!(out, TabOutcome::Consumed));
    assert_eq!(e.high, Challenge::Enter);
    tab.handle_key(key(KeyCode::Enter), &mut e);
    assert_eq!(e.high, Challenge::Enter);
    assert!(tab.edit.is_none());
    assert_eq!((tab.row, tab.col), (2, 0));
}

#[test]
fn escalation_esc_exits_editing() {
    let mut tab = EscalationTab::default();
    let mut e = escalation();
    tab.handle_key(key(KeyCode::Enter), &mut e);
    assert!(tab.edit.is_some());
    tab.handle_key(key(KeyCode::Esc), &mut e);
    assert!(tab.edit.is_none());
}

// ------------------------------------------------------------ context

fn context() -> ContextSettings {
    ContextSettings {
        protected_branches: vec!["main".into(), "master".into(), "release/*".into(), "prod".into()],
        production_k8s_patterns: vec!["prod".into()],
        production_env_vars: EnvVars::new(),
        sensitive_paths: vec![],
        escalation: ContextEscalation { elevated: Challenge::Enter, critical: Challenge::Yes },
    }
}

#[test]
fn context_down_in_browsing_moves_section() {
    let mut tab = ContextTab::default();
    let mut c = context();
    tab.handle_key(key(KeyCode::Down), &mut c);
    assert_eq!(tab.section, SECTION_K8S);
}

#[test]
fn enter_drills_in_and_esc_returns() {
    let mut tab = ContextTab::default();
    let mut c = context();
    tab.handle_key(key(KeyCode::Enter), &mut c);
    assert!(tab.edit.is_some());
    tab.handle_key(key(KeyCode::Esc), &mut c);
    assert!(tab.edit.is_none());
}

#[test]
fn add_branch_in_editing() {
    let mut tab = ContextTab::default();
    let mut c = context();
    tab.handle_key(key(KeyCode::Enter), &mut c);
    tab.handle_key(key(KeyCode::Char('+')), &mut c);
    for ch in "feat".chars() {
        tab.handle_key(key(KeyCode::Char(ch)), &mut c);
    }
    let initial_len = c.protected_branches.len();
    let out = tab.handle_key(key(KeyCode::Enter), &mut c);
    assert!(matches!(out, TabOutcome::Mutated));
    assert_eq!(c.protected_branches.len(), initial_len + 1);
    assert!(c.protected_branches.iter().any(|b| b == "feat"));
}

#[test]
fn d_removes_focused_branch() {
    let mut tab = ContextTab::default();
    let mut c = context();
    let initial_len = c.protected_branches.len();
    tab.handle_key(key(KeyCode::Enter), &mut c);
    tab.handle_key(key(KeyCode::Char('d')), &mut c);
    assert_eq!(c.protected_branches.len(), initial_len - 1);
    assert_eq!(c.protected_branches[0], "master");
}

#[test]
fn env_vars_are_added_by_name_then_value_and_listed_in_name_order() {
    let mut tab = ContextTab { section: SECTION_ENV_VARS, edit: None };
    let mut c = context();
    for (name, value) in [("STAGE", "prod"), ("APP_ENV", "production")] {
        tab.handle_key(key(KeyCode::Enter), &mut c);
        if !matches!(tab.edit, Some(CtxEdit::EnvVarsEditor { adding: Some(_), .. })) {
            tab.handle_key(key(KeyCode::Char('+')), &mut c);
        }
        for ch in name.chars() {
            tab.handle_key(key(KeyCode::Char(ch)), &mut c);
        }
        tab.handle_key(key(KeyCode::Enter), &mut c);
        assert!(matches!(
            &tab.edit,
            Some(CtxEdit::EnvVarsEditor { adding: Some(EnvVarAddState::Value { key, .. }), .. })
                if key == name
        ));
        for ch in value.chars() {
            tab.handle_key(key(KeyCode::Char(ch)), &mut c);
        }
        let out = tab.handle_key(key(KeyCode::Enter), &mut c);
        assert!(matches!(out, TabOutcome::Mutated));
        tab.handle_key(key(KeyCode::Esc), &mut c);
    }
    assert_eq!(c.production_env_vars.len(), 2);
    assert_eq!(c.production_env_vars.entry(0), ("APP_ENV", "production"));
    assert_eq!(c.production_env_vars.entry(1), ("STAGE", "prod"));
    // Removing the first in name order.
    tab.handle_key(key(KeyCode::Enter), &mut c);
    let out = tab.handle_key(key(KeyCode::Char('d')), &mut c);
    assert!(matches!(out, TabOutcome::Mutated));
    assert_eq!(c.production_env_vars.len(), 1);
    assert_eq!(c.production_env_vars.entry(0), ("STAGE", "prod"));
}

#[test]
fn env_var_blank_name_is_dropped_and_same_name_replaces() {
    let mut vars = EnvVars::new();
    vars.insert("A".into(), "1".into());
    vars.insert("A".into(), "2".into());
    assert_eq!(vars.len(), 1);
    assert_eq!(vars.entry(0), ("A", "2"));
    let mut tab = ContextTab { section: SECTION_ENV_VARS, edit: None };
    let mut c = context();
    tab.handle_key(key(KeyCode::Enter), &mut c);
    tab.handle_key(key(KeyCode::Enter), &mut c);
    tab.handle_key(key(KeyCode::Char(' ')), &mut c);
    tab.handle_key(key(KeyCode::Enter), &mut c);
    assert!(matches!(tab.edit, Some(CtxEdit::EnvVarsEditor { adding: None, .. })));
    assert_eq!(c.production_env_vars.len(), 0);
}

#[test]
fn context_escalation_editor_sets_challenges() {
    let mut tab = ContextTab { section: SECTION_ESCALATION, edit: None };
    let mut c = context();
    tab.handle_key(key(KeyCode::Enter), &mut c);
    // Cursor starts at column 0; Space sets Elevated to Math.
    let out = tab.handle_key(key(KeyCode::Char(' ')), &mut c);
    assert!(matches!(out, TabOutcome::Mutated));
    assert_eq!(c.escalation.elevated, Challenge::Math);
    // Down moves to Critical with the cursor on its saved value (Yes).
    tab.handle_key(key(KeyCode::Down), &mut c);
    assert!(matches!(tab.edit, Some(CtxEdit::EscalationEditor { field: 1, col: 2 })));
    let out = tab.handle_key(key(KeyCode::Char(' ')), &mut c);
    assert!(matches!(out, TabOutcome::Ignored));
    assert!(matches!(tab.handle_key(key(KeyCode::Left), &mut c), TabOutcome::Consumed));
    tab.handle_key(key(KeyCode::Char(' ')), &mut c);
    assert_eq!(c.escalation.critical, Challenge::Enter);
    tab.handle_key(key(KeyCode::Enter), &mut c);
    assert!(tab.edit.is_none());
}

#[test]
fn list_summary_shows_three_then_count() {
    assert_eq!(format_list_summary(&[]), "(none)");
    let v: Vec<String> = vec!["a".into(), "b".into()];
    assert_eq!(format_list_summary(&v), "a  ·  b");
    let v: Vec<String> = vec!["a".into(), "b".into(), "c".into(), "d".into(), "e".into()];
    assert_eq!(format_list_summary(&v), "a  ·  b  ·  c  ·  +2 more");
}

// ------------------------------------------------------------ groups

fn builtin_groups() -> Vec<String> {
    vec!["base".to_string(), "git".to_string(), "fs".to_string()]
}

#[test]
fn groups_enter_drills_in() {
    let mut tab = GroupsTab::new(vec![]);
    let mut sel = GroupSelection { enabled_groups: builtin_groups(), disabled_groups: vec![] };
    assert!(!tab.edit_active);
    tab.handle_key(key(KeyCode::Enter), &mut sel, &builtin_groups());
    assert!(tab.edit_active);
}

#[test]
fn groups_esc_exits_editing() {
    let mut tab = GroupsTab::new(vec![]);
    let mut sel = GroupSelection { enabled_groups: builtin_groups(), disabled_groups: vec![] };
    tab.handle_key(key(KeyCode::Enter), &mut sel, &builtin_groups());
    tab.handle_key(key(KeyCode::Esc), &mut sel, &builtin_groups());
    assert!(!tab.edit_active);
}

#[test]
fn space_in_editing_toggles_group() {
    let mut tab = GroupsTab::new(vec![]);
    let mut sel = GroupSelection { enabled_groups: builtin_groups(), disabled_groups: vec![] };
    tab.handle_key(key(KeyCode::Enter), &mut sel, &builtin_groups());
    let initial_count = sel.enabled_groups.len();
    let out = tab.handle_key(key(KeyCode::Char(' ')), &mut sel, &builtin_groups());
    assert!(matches!(out, TabOutcome::Mutated));
    assert_ne!(sel.enabled_groups.len(), initial_count);
    assert_eq!(sel.disabled_groups, vec!["base"]);
    tab.handle_key(key(KeyCode::Char(' ')), &mut sel, &builtin_groups());
    assert_eq!(sel.enabled_groups, vec!["git", "fs", "base"]);
    assert!(sel.disabled_groups.is_empty());
}

#[test]
fn select_all_in_editing_includes_custom() {
    let mut tab = GroupsTab::new(vec!["my_team".into()]);
    let mut sel = GroupSelection { enabled_groups: vec![], disabled_groups: vec!["git".into()] };
    tab.handle_key(key(KeyCode::Enter), &mut sel, &builtin_groups());
    tab.handle_key(key(KeyCode::Char('a')), &mut sel, &builtin_groups());
    assert!(sel.enabled_groups.iter().any(|g| g == "my_team"));
    assert!(sel.disabled_groups.is_empty());
    tab.handle_key(key(KeyCode::Char('n')), &mut sel, &builtin_groups());
    assert!(sel.enabled_groups.is_empty());
    assert_eq!(sel.disabled_groups.len(), 4);
    assert!(tab.is_custom("my_team", &builtin_groups()));
    assert!(!tab.is_custom("git", &builtin_groups()));
}

// ------------------------------------------------------------ ignore / deny

fn ids() -> Vec<PickerItem> {
    vec![
        PickerItem { value: "git:force_push".into(), badge: Some("built-in") },
        PickerItem { value: "fs:rm_rf".into(), badge: Some("built-in") },
    ]
}

fn lists() -> IdLists {
    IdLists { ignores_patterns_ids: vec![], deny_patterns_ids: vec![] }
}

#[test]
fn down_in_browsing_moves_to_deny() {
    let mut tab = IgnoreDenyTab::new(ids());
    let mut l = lists();
    assert_eq!(tab.section, Side::Ignore);
    tab.handle_key(key(KeyCode::Down), &mut l);
    assert_eq!(tab.section, Side::Deny);
}

#[test]
fn ignore_deny_enter_in_browsing_drills_in() {
    let mut tab = IgnoreDenyTab::new(ids());
    let mut l = lists();
    tab.handle_key(key(KeyCode::Enter), &mut l);
    assert!(tab.edit.is_some());
}

#[test]
fn ignore_deny_esc_in_editing_returns_to_browsing() {
    let mut tab = IgnoreDenyTab::new(ids());
    let mut l = lists();
    tab.handle_key(key(KeyCode::Enter), &mut l);
    tab.handle_key(key(KeyCode::Esc), &mut l);
    assert!(tab.edit.is_none());
}

#[test]
fn picker_select_adds_to_ignore() {
    let mut tab = IgnoreDenyTab::new(ids());
    let mut l = lists();
    tab.handle_key(key(KeyCode::Enter), &mut l);
    let out = tab.handle_key(key(KeyCode::Enter), &mut l);
    assert!(matches!(out, TabOutcome::Mutated));
    assert!(l.ignores_patterns_ids.iter().any(|x| x == "git:force_push"));
    // Selecting the same id again adds nothing, and reports no change.
    let again = tab.handle_key(key(KeyCode::Enter), &mut l);
    assert!(matches!(again, TabOutcome::Ignored));
    assert_eq!(l.ignores_patterns_ids.len(), 1);
}

#[test]
fn d_removes_focused_list_entry() {
    let mut tab = IgnoreDenyTab::new(ids());
    let mut l = lists();
    l.ignores_patterns_ids = vec!["a".into(), "b".into(), "c".into()];
    tab.handle_key(key(KeyCode::Enter), &mut l);
    tab.handle_key(key(KeyCode::Tab), &mut l);
    assert!(matches!(&tab.edit, Some(st) if st.zone == EditZone::EntriesList));
    tab.handle_key(key(KeyCode::Char('d')), &mut l);
    assert_eq!(l.ignores_patterns_ids, vec!["b", "c"]);
}

// ------------------------------------------------------------ wrap

fn overrides() -> ModeOverrides {
    ModeOverrides { challenge: InheritOr::Inherit, min_severity: InheritOr::Inherit }
}

#[test]
fn wrap_enter_drills_in() {
    let mut tab = WrapTab::default();
    let mut o = overrides();
    tab.handle_key(key(KeyCode::Enter), &mut o);
    assert!(tab.edit.is_some());
}

#[test]
fn challenge_radio_inherit_is_first_choice() {
    let mut tab = WrapTab::default();
    let mut o = overrides();
    tab.cursor = SECTION_OVR_CHALLENGE;
    tab.handle_key(key(KeyCode::Enter), &mut o);
    tab.handle_key(key(KeyCode::Down), &mut o);
    tab.handle_key(key(KeyCode::Char(' ')), &mut o);
    assert!(matches!(o.challenge, InheritOr::Value(Challenge::Math)));
}

#[test]
fn challenge_radio_inherit_choice_writes_inherit() {
    let mut tab = WrapTab::default();
    let mut o = overrides();
    o.challenge = InheritOr::Value(Challenge::Yes);
    tab.cursor = SECTION_OVR_CHALLENGE;
    tab.handle_key(key(KeyCode::Enter), &mut o);
    for _ in 0..5 {
        tab.handle_key(key(KeyCode::Up), &mut o);
    }
    tab.handle_key(key(KeyCode::Char(' ')), &mut o);
    assert!(matches!(o.challenge, InheritOr::Inherit));
}

#[test]
fn wrap_min_severity_override_and_exit() {
    let mut tab = WrapTab::default();
    let mut o = overrides();
    tab.handle_key(key(KeyCode::Down), &mut o);
    tab.handle_key(key(KeyCode::Enter), &mut o);
    for _ in 0..10 {
        tab.handle_key(key(KeyCode::Down), &mut o);
    }
    tab.handle_key(key(KeyCode::Char(' ')), &mut o);
    assert_eq!(o.min_severity, InheritOr::Value(Some(Severity::Critical)));
    match tab.handle_key(key(KeyCode::Left), &mut o) {
        TabOutcome::FieldFocusChanged(f) => assert_eq!(f.name, "Min severity override (Wrap)"),
        other => panic!("expected a focus change, got {other:?}"),
    }
    assert!(tab.edit.is_none());
}

// ------------------------------------------------------------ custom checks tab

fn make_check(id: &str, from: &str) -> Check {
    Check {
        id: id.into(),
        test: Pattern::new("foo").unwrap(),
        description: "x".into(),
        from: from.into(),
        challenge: Challenge::Math,
        filters: vec![],
        alternative: None,
        alternative_info: None,
        severity: Severity::Medium,
    }
}

fn custom_tab(checks: Vec<Check>) -> CustomChecksTab {
    CustomChecksTab::new(CustomCheckStore::new("/tmp/custom".to_string()), checks)
}

#[test]
fn plus_sets_pending_create() {
    let mut tab = custom_tab(vec![]);
    tab.handle_key(key(KeyCode::Char('+')));
    assert!(matches!(tab.pending_action, Some(PendingAction::Create)));
}

#[test]
fn delete_keystroke_requests_confirmation() {
    let mut tab = custom_tab(vec![make_check("my:foo", "my")]);
    assert_eq!(tab.checks.len(), 1);
    let _ = tab.handle_key(key(KeyCode::Char('d')));
    assert_eq!(tab.checks.len(), 1, "delete must not happen without confirmation");
    assert!(matches!(tab.pending_action, Some(PendingAction::ConfirmDelete { index: 0 })));
}

#[test]
fn down_moves_cursor() {
    let mut tab = custom_tab(vec![make_check("my:a", "my"), make_check("my:b", "my")]);
    let out = tab.handle_key(key(KeyCode::Down));
    assert!(matches!(out, TabOutcome::FieldFocusChanged(_)));
    assert_eq!(tab.cursor, 1);
}

#[test]
fn e_sets_pending_edit() {
    let mut tab = custom_tab(vec![make_check("my:foo", "my")]);
    tab.handle_key(key(KeyCode::Char('e')));
    assert!(matches!(tab.pending_action, Some(PendingAction::Edit { .. })));
}

#[test]
fn f_sets_pending_open_in_editor() {
    let mut tab = custom_tab(vec![make_check("my:foo", "my")]);
    tab.handle_key(key(KeyCode::Char('f')));
    match tab.pending_action {
        Some(PendingAction::OpenInEditor { ref path }) => assert_eq!(path, "/tmp/custom/my.yaml"),
        ref other => panic!("unexpected {other:?}"),
    }
}

#[test]
fn custom_tab_focus_describes_check_under_cursor() {
    let mut tab = custom_tab(vec![make_check("my:a", "my"), make_check("team:b", "team")]);
    let out = tab.handle_key(key(KeyCode::Up));
    assert_eq!(tab.cursor, 1);
    match out {
        TabOutcome::FieldFocusChanged(f) => {
            assert_eq!(f.name, "Check: team:b");
            assert_eq!(f.help, "from: team · severity: Medium · file: /tmp/custom/team.yaml");
        }
        other => panic!("unexpected {other:?}"),
    }
    assert!(tab.take_pending_action().is_none());
    tab.handle_key(key(KeyCode::Char('r')));
    assert!(matches!(tab.take_pending_action(), Some(PendingAction::Reload)));
    assert!(tab.pending_action.is_none());
    tab.reload(vec![make_check("my:a", "my")]);
    assert_eq!(tab.cursor, 0);
}

// ------------------------------------------------------------ language-model tab


fn llm_defaults() -> LlmSettings {
    LlmSettings {
        provider: "anthropic".into(),
        model: "base-model".into(),
        base_url: None,
        timeout_ms: 5000,
        max_tokens: 1024,
    }
}

fn fresh_llm() -> (LLMTab, Option<LlmSettings>) {
    (LLMTab::new(llm_defaults()), None)
}

/// Types one character into the text field being edited.
fn type_into(tab: &mut LLMTab, llm: &mut Option<LlmSettings>, c: char) {
    let out = tab.handle_key(key(KeyCode::Char(c)), llm);
    assert!(matches!(out, TabOutcome::Mutated));
}

#[test]
fn drill_into_enable_and_toggle() {
    let (mut tab, mut llm) = fresh_llm();
    tab.handle_key(key(KeyCode::Enter), &mut llm);
    assert!(tab.edit.is_some());
    tab.handle_key(key(KeyCode::Char(' ')), &mut llm);
    assert!(llm.is_some());
}

#[test]
fn down_navigates_when_enabled() {
    let (mut tab, mut llm) = fresh_llm();
    tab.handle_key(key(KeyCode::Enter), &mut llm);
    tab.handle_key(key(KeyCode::Char(' ')), &mut llm);
    tab.handle_key(key(KeyCode::Esc), &mut llm);
    tab.handle_key(key(KeyCode::Down), &mut llm);
    assert_eq!(tab.cursor, SECTION_PROVIDER);
}

#[test]
fn timeout_stepper_changes_value() {
    let (mut tab, mut llm) = fresh_llm();
    tab.handle_key(key(KeyCode::Enter), &mut llm);
    tab.handle_key(key(KeyCode::Char(' ')), &mut llm);
    tab.handle_key(key(KeyCode::Esc), &mut llm);
    tab.cursor = SECTION_TIMEOUT;
    tab.handle_key(key(KeyCode::Enter), &mut llm);
    let initial = llm.as_ref().unwrap().timeout_ms;
    tab.handle_key(key(KeyCode::Up), &mut llm);
    let after = llm.as_ref().unwrap().timeout_ms;
    assert_eq!(after, initial + 1);
}

#[test]
fn typing_changes_model_value() {
    let (mut tab, mut llm) = fresh_llm();
    tab.handle_key(key(KeyCode::Enter), &mut llm);
    tab.handle_key(key(KeyCode::Char(' ')), &mut llm);
    tab.handle_key(key(KeyCode::Esc), &mut llm);
    tab.cursor = SECTION_MODEL;
    tab.handle_key(key(KeyCode::Enter), &mut llm);
    let initial_model = llm.as_ref().unwrap().model.clone();
    type_into(&mut tab, &mut llm, 'x');
    assert_eq!(llm.as_ref().unwrap().model, format!("{initial_model}x"));
}

#[test]
fn llm_provider_pick_and_disable() {
    let (mut tab, mut llm) = fresh_llm();
    assert!(matches!(tab.handle_key(key(KeyCode::Down), &mut llm), TabOutcome::Ignored));
    tab.handle_key(key(KeyCode::Enter), &mut llm);
    tab.handle_key(key(KeyCode::Char(' ')), &mut llm);
    assert_eq!(llm.as_ref().unwrap().model, "base-model");
    assert_eq!(tab.model_input.value(), "base-model");
    tab.handle_key(key(KeyCode::Esc), &mut llm);
    tab.handle_key(key(KeyCode::Down), &mut llm);
    tab.handle_key(key(KeyCode::Enter), &mut llm);
    tab.handle_key(key(KeyCode::Down), &mut llm);
    let out = tab.handle_key(key(KeyCode::Enter), &mut llm);
    assert!(matches!(out, TabOutcome::Mutated));
    assert_eq!(llm.as_ref().unwrap().provider, "openai-compatible");
    assert!(tab.edit.is_none());
    // Base URL: typing writes it, an empty one stays the default.
    tab.cursor = 3;
    tab.handle_key(key(KeyCode::Enter), &mut llm);
    type_into(&mut tab, &mut llm, 'h');
    assert_eq!(llm.as_ref().unwrap().base_url.as_deref(), Some("h"));
    assert!(matches!(tab.handle_key(key(KeyCode::Enter), &mut llm), TabOutcome::Mutated));
    // Max tokens stops at its upper bound.
    tab.cursor = 5;
    tab.handle_key(key(KeyCode::Enter), &mut llm);
    tab.handle_key(key(KeyCode::PageUp), &mut llm);
    assert_eq!(llm.as_ref().unwrap().max_tokens, 1124);
    // Turning analysis off goes back to the first section.
    tab.handle_key(key(KeyCode::Esc), &mut llm);
    tab.cursor = 0;
    tab.handle_key(key(KeyCode::Enter), &mut llm);
    tab.handle_key(key(KeyCode::Char(' ')), &mut llm);
    assert!(llm.is_none());
    assert_eq!(tab.cursor, 0);
    let f = tab.current_focus();
    assert_eq!(f.name, "Editing: LLM analysis");
    assert_eq!(f.badges, vec!["shell", "ai"]);
}

#[test]
fn space_with_no_groups_changes_nothing() {
    let mut tab = GroupsTab::new(vec![]);
    let mut sel = GroupSelection { enabled_groups: vec![], disabled_groups: vec![] };
    tab.handle_key(key(KeyCode::Enter), &mut sel, &vec![]);
    let out = tab.handle_key(key(KeyCode::Char(' ')), &mut sel, &vec![]);
    assert!(matches!(out, TabOutcome::Ignored));
    assert!(sel.enabled_groups.is_empty() && sel.disabled_groups.is_empty());
}
