use shellfirm::tui::check_form::{
    focus_help, focus_index, focus_label, CheckForm, FieldValidity, FilterAdd, FormFocus, FormMode, FormOutcome,
    IdUniquenessValidator,
};
use shellfirm::tui::custom_check::{Challenge, Check, Filter, Severity};
use shellfirm::tui::keys::{KeyCode, KeyEvent, KeyModifiers};
use shellfirm::engine::pattern::Pattern;
use shellfirm::tui::widgets::text_input::TextInput;

fn key(code: KeyCode) -> KeyEvent {
    KeyEvent::new(code, KeyModifiers::empty())
}

/// Feeds a key to the form.
fn press(form: &mut CheckForm, k: KeyEvent) -> FormOutcome {
    form.handle_key(k)
}

fn type_text(form: &mut CheckForm, s: &str) {
    for c in s.chars() {
        press(form, key(KeyCode::Char(c)));
    }
}

fn builtin() -> Vec<String> {
    vec!["base".to_string(), "git".to_string(), "fs".to_string()]
}

fn fresh_form() -> CheckForm {
    let validator = IdUniquenessValidator::new(vec![], vec![]);
    CheckForm::new_create(validator, vec!["my_team".into()], &builtin())
}

#[test]
fn empty_form_submit_fails_with_id_error() {
    let mut form = fresh_form();
    form.focus_idx = focus_index(FormFocus::Submit);
    let outcome = press(&mut form, key(KeyCode::Enter));
    assert!(matches!(outcome, FormOutcome::Ignored));
    assert!(form.error_message.as_deref().unwrap_or("").to_lowercase().contains("id"));
}

#[test]
fn full_form_submit_returns_saved() {
    let mut form = fresh_form();
    type_text(&mut form, "my_team:foo");
    press(&mut form, key(KeyCode::Enter));
    type_text(&mut form, "my_t");
    press(&mut form, key(KeyCode::Enter));
    type_text(&mut form, "^foo$");
    press(&mut form, key(KeyCode::Enter));
    type_text(&mut form, "Test desc");
    press(&mut form, key(KeyCode::Enter));
    for _ in 0..5 {
        press(&mut form, key(KeyCode::Tab));
    }
    assert_eq!(form.current_focus(), FormFocus::Submit);
    let outcome = press(&mut form, key(KeyCode::Enter));
    if let FormOutcome::Saved(check) = outcome {
        assert_eq!(check.id, "my_team:foo");
        assert_eq!(check.from, "my_team");
        assert_eq!(check.description, "Test desc");
        assert_eq!(check.severity, Severity::Medium);
        assert_eq!(check.challenge, Challenge::Math);
        assert_eq!(check.test.as_str(), "^foo$");
        assert!(check.alternative.is_none());
    } else {
        panic!("expected Saved, got {outcome:?}");
    }
}

#[test]
fn invalid_regex_blocks_submit() {
    let mut form = fresh_form();
    type_text(&mut form, "my:bar");
    press(&mut form, key(KeyCode::Enter));
    type_text(&mut form, "my");
    press(&mut form, key(KeyCode::Enter));
    type_text(&mut form, "[unclosed");
    press(&mut form, key(KeyCode::Enter));
    assert_eq!(form.current_focus(), FormFocus::Test);
    press(&mut form, key(KeyCode::Tab));
    type_text(&mut form, "Desc");
    for _ in 0..6 {
        press(&mut form, key(KeyCode::Tab));
    }
    let outcome = press(&mut form, key(KeyCode::Enter));
    assert!(matches!(outcome, FormOutcome::Ignored));
    assert!(form.error_message.as_deref().unwrap_or("").to_lowercase().contains("regex"));
}

#[test]
fn esc_cancels_form() {
    let mut form = fresh_form();
    let outcome = press(&mut form, key(KeyCode::Esc));
    assert!(matches!(outcome, FormOutcome::Cancelled));
}

#[test]
fn add_contains_filter() {
    let mut form = fresh_form();
    form.focus_idx = focus_index(FormFocus::Filters);
    press(&mut form, key(KeyCode::Char('+')));
    assert!(matches!(form.adding_filter, Some(FilterAdd::PickType)));
    press(&mut form, key(KeyCode::Char('c')));
    type_text(&mut form, "--no-verify");
    press(&mut form, key(KeyCode::Enter));
    assert_eq!(form.filters.len(), 1);
    assert!(matches!(&form.filters[0], Filter::Contains(s) if s == "--no-verify"));
}

#[test]
fn filter_adding_trims_skips_blank_and_d_drops_last() {
    let mut form = fresh_form();
    form.focus_idx = focus_index(FormFocus::Filters);
    press(&mut form, key(KeyCode::Char('+')));
    press(&mut form, key(KeyCode::Char('n')));
    type_text(&mut form, "  x ");
    press(&mut form, key(KeyCode::Backspace));
    press(&mut form, key(KeyCode::Enter));
    assert!(matches!(&form.filters[..], [Filter::NotContains(s)] if s == "x"));
    press(&mut form, key(KeyCode::Char('+')));
    press(&mut form, key(KeyCode::Char('c')));
    type_text(&mut form, "   ");
    press(&mut form, key(KeyCode::Enter));
    assert_eq!(form.filters.len(), 1);
    assert!(matches!(form.validate_field(FormFocus::Filters), FieldValidity::Valid(m) if m == "1 filter(s)"));
    press(&mut form, key(KeyCode::Char('d')));
    assert!(form.filters.is_empty());
    press(&mut form, key(KeyCode::Char('+')));
    press(&mut form, key(KeyCode::Esc));
    assert!(form.adding_filter.is_none());
}

#[test]
fn validate_field_id_empty_is_invalid() {
    let form = fresh_form();
    let v = form.validate_field(FormFocus::Id);
    assert!(matches!(v, FieldValidity::Invalid(msg) if msg.contains("required")));
}

#[test]
fn validate_field_id_unique_is_valid() {
    let mut form = fresh_form();
    type_text(&mut form, "my:thing");
    let v = form.validate_field(FormFocus::Id);
    assert!(matches!(v, FieldValidity::Valid(_)));
}

#[test]
fn validate_field_id_collision_is_invalid() {
    let validator = IdUniquenessValidator::new(vec!["git:force_push".into()], vec![]);
    let mut form = CheckForm::new_create(validator, vec![], &builtin());
    type_text(&mut form, "git:force_push");
    let v = form.validate_field(FormFocus::Id);
    assert!(matches!(v, FieldValidity::Invalid(msg) if msg.contains("in use")));
}

#[test]
fn validate_field_test_invalid_regex_is_invalid() {
    let mut form = fresh_form();
    form.focus_idx = focus_index(FormFocus::Test);
    type_text(&mut form, "[unclosed");
    let v = form.validate_field(FormFocus::Test);
    assert!(matches!(v, FieldValidity::Invalid(msg) if msg.contains("Invalid regex")));
}

#[test]
fn validate_field_alternative_empty_is_empty() {
    let form = fresh_form();
    let v = form.validate_field(FormFocus::Alternative);
    assert_eq!(v, FieldValidity::Empty);
}

#[test]
fn validate_field_messages_for_each_field() {
    let mut form = fresh_form();
    assert_eq!(form.validate_field(FormFocus::Severity), FieldValidity::Valid("Medium".into()));
    assert_eq!(form.validate_field(FormFocus::Challenge), FieldValidity::Valid("Math".into()));
    assert_eq!(
        form.validate_field(FormFocus::From),
        FieldValidity::Invalid("Group is required".into())
    );
    form.from_value = "git".into();
    assert_eq!(
        form.validate_field(FormFocus::From),
        FieldValidity::Valid("Selected: git".into())
    );
    form.test_input = TextInput::with_value("  ");
    assert_eq!(
        form.validate_field(FormFocus::Test),
        FieldValidity::Invalid("Pattern is required".into())
    );
    form.test_input = TextInput::with_value("^rm");
    assert_eq!(form.validate_field(FormFocus::Test), FieldValidity::Valid("Regex compiles".into()));
    form.alternative_input = TextInput::with_value("trash");
    assert_eq!(form.validate_field(FormFocus::Alternative), FieldValidity::Valid("Set".into()));
    assert_eq!(form.validate_field(FormFocus::Submit), FieldValidity::Empty);
}

#[test]
fn enter_on_empty_id_does_not_advance() {
    let mut form = fresh_form();
    assert_eq!(form.current_focus(), FormFocus::Id);
    press(&mut form, key(KeyCode::Enter));
    assert_eq!(form.current_focus(), FormFocus::Id);
    assert!(form.error_message.is_some());
}

#[test]
fn enter_on_valid_id_advances() {
    let mut form = fresh_form();
    type_text(&mut form, "my:thing");
    press(&mut form, key(KeyCode::Enter));
    assert_eq!(form.current_focus(), FormFocus::From);
    assert!(form.error_message.is_none());
}

#[test]
fn picker_select_auto_advances_past_group() {
    let mut form = fresh_form();
    type_text(&mut form, "my:foo");
    press(&mut form, key(KeyCode::Enter));
    assert_eq!(form.current_focus(), FormFocus::From);
    // The id's prefix already filled in the group.
    assert_eq!(form.from_value, "my");
    type_text(&mut form, "my_t");
    press(&mut form, key(KeyCode::Enter));
    assert_eq!(form.current_focus(), FormFocus::Test);
    assert_eq!(form.from_value, "my_team");
}

#[test]
fn id_prefix_fills_group_only_when_empty_and_named() {
    let mut form = fresh_form();
    type_text(&mut form, "abc");
    assert_eq!(form.from_value, "");
    type_text(&mut form, " :x");
    assert_eq!(form.from_value, "abc");
    let mut form = fresh_form();
    type_text(&mut form, "  :y");
    assert_eq!(form.from_value, "");
    let mut form = fresh_form();
    form.from_value = "keep".into();
    type_text(&mut form, "team:z");
    assert_eq!(form.from_value, "keep");
}

#[test]
fn ctrl_s_saves_when_valid() {
    let mut form = fresh_form();
    type_text(&mut form, "my_team:foo");
    press(&mut form, key(KeyCode::Tab));
    type_text(&mut form, "my_t");
    press(&mut form, key(KeyCode::Enter));
    press(&mut form, key(KeyCode::Tab));
    type_text(&mut form, "^foo$");
    press(&mut form, key(KeyCode::Tab));
    type_text(&mut form, "Test desc");
    let ctrl_s = KeyEvent::new(
        KeyCode::Char('s'),
        KeyModifiers { shift: false, control: true, alt: false },
    );
    let outcome = press(&mut form, ctrl_s);
    match outcome {
        FormOutcome::Saved(check) => assert_eq!(check.id, "my_team:foo"),
        other => panic!("expected Saved, got {other:?}"),
    }
}

#[test]
fn submit_reports_duplicate_id_in_debug_quotes() {
    let validator = IdUniquenessValidator::new(vec!["git:x".into()], vec![]);
    let mut form = CheckForm::new_create(validator, vec![], &builtin());
    form.id_input = TextInput::with_value(" git:x ");
    form.focus_idx = focus_index(FormFocus::Submit);
    press(&mut form, key(KeyCode::Char(' ')));
    assert_eq!(form.error_message.as_deref(), Some("ID \"git:x\" is already in use."));
}

#[test]
fn edit_form_keeps_own_id_and_values() {
    let existing = Check {
        id: "my:edit".into(),
        test: Pattern::new("^x").unwrap(),
        description: "d".into(),
        from: "my".into(),
        challenge: Challenge::Yes,
        filters: vec![Filter::Contains("a".into())],
        alternative: Some("alt".into()),
        alternative_info: None,
        severity: Severity::High,
    };
    let validator = IdUniquenessValidator::new(vec![], vec!["my:edit".into()]);
    let mut form = CheckForm::new_edit(&existing, validator, vec!["my".into()], &builtin());
    assert!(matches!(&form.mode, FormMode::Edit { original_id, .. } if original_id == "my:edit"));
    assert_eq!(form.severity_idx, 3);
    assert_eq!(form.challenge_idx, 2);
    assert_eq!(form.alternative_input.value(), "alt");
    assert_eq!(form.from_options.len(), 4);
    form.focus_idx = focus_index(FormFocus::Submit);
    match press(&mut form, key(KeyCode::Enter)) {
        FormOutcome::Saved(c) => {
            assert_eq!(c.id, "my:edit");
            assert_eq!(c.severity, Severity::High);
            assert_eq!(c.alternative.as_deref(), Some("alt"));
            assert_eq!(c.filters.len(), 1);
        }
        other => panic!("expected Saved, got {other:?}"),
    }
}

#[test]
fn group_choices_list_built_in_then_new_custom_groups() {
    let validator = IdUniquenessValidator::new(vec![], vec![]);
    let form = CheckForm::new_create(validator, vec!["git".into(), "mine".into()], &builtin());
    let values: Vec<&str> = form.from_options.iter().map(|o| o.value.as_str()).collect();
    assert_eq!(values, vec!["base", "git", "fs", "mine"]);
    assert_eq!(form.from_options[0].badge, Some("built-in"));
    assert_eq!(form.from_options[3].badge, Some("custom"));
}

#[test]
fn severity_and_challenge_are_radio_groups() {
    let mut form = fresh_form();
    form.focus_idx = focus_index(FormFocus::Severity);
    press(&mut form, key(KeyCode::Down));
    assert_eq!(form.severity_idx, 3);
    press(&mut form, key(KeyCode::Enter));
    assert_eq!(form.current_focus(), FormFocus::Challenge);
    press(&mut form, key(KeyCode::Up));
    assert_eq!(form.challenge_idx, 2);
    press(&mut form, key(KeyCode::BackTab));
    assert_eq!(form.current_focus(), FormFocus::Severity);
    form.focus_idx = focus_index(FormFocus::Cancel);
    assert!(matches!(press(&mut form, key(KeyCode::Char(' '))), FormOutcome::Cancelled));
}

#[test]
fn form_field_titles_and_help() {
    assert_eq!(focus_label(FormFocus::Test), "Test (regex)");
    assert_eq!(focus_label(FormFocus::Submit), "Save");
    assert!(focus_help(FormFocus::Test).ends_with(r"Example: \bgit\s+push\s+--force\b"));
    assert!(focus_help(FormFocus::Challenge).contains("Yes (type \"yes\")"));
}
