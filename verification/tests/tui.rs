use shellfirm::tui::app_state::{
    after_tab, confirm_delete, handle_modal_key, route_key, AfterTab, AppState, KeyRoute, Modal,
    ModalEffect, PreviewMode, QuitDialogState, SaveStage, NUM_TABS,
};
use shellfirm::tui::badges::{badge_widget, BadgeColor};
use shellfirm::tui::check_form::{
    focus_at, focus_index, next_focus_index, prev_focus_index, FormFocus, IdUniquenessValidator,
    FOCUS_STEPS,
};
use shellfirm::tui::check_store::CustomCheckStore;
use shellfirm::tui::custom_check::{Challenge, Check, Severity};
use shellfirm::tui::draft::DraftSettings;
use shellfirm::tui::keys::{KeyCode, KeyEvent, KeyModifiers};
use shellfirm::tui::preview::{first_change_offset, line_diff, preview_window, split_lines, DiffLine};
use shellfirm::tui::style::description_column;
use shellfirm::tui::tabs::groups::{merge_distinct, GroupsTab};
use shellfirm::tui::tabs::TabOutcome;
use shellfirm::tui::validate::{ValidationError, ValidationReport};
use shellfirm::tui::widgets::multi_select::{handle_multi_select_key, MultiSelectKeyOutcome};
use shellfirm::tui::widgets::override_field::{handle_override_key, toggle_override, OverrideState};
use shellfirm::tui::widgets::picker::{
    compute_visible, handle_picker_key, PickerItem, PickerOutcome, PickerState,
};
use shellfirm::tui::widgets::radio::{handle_radio_key, RadioGroup};
use shellfirm::tui::widgets::regex_input::RegexValidity;
use shellfirm::tui::widgets::stepper::{handle_stepper_key, StepperOutcome};
use shellfirm::tui::widgets::text_input::{TextInput, TextInputOutcome};
use shellfirm::engine::pattern::Pattern;

fn key(code: KeyCode) -> KeyEvent {
    KeyEvent::new(code, KeyModifiers::empty())
}

fn shift(code: KeyCode) -> KeyEvent {
    KeyEvent::new(code, KeyModifiers { shift: true, control: false, alt: false })
}

// ------------------------------------------------------------ preview

#[test]
fn diff_identical_is_all_same() {
    let d = line_diff("a\nb\nc", "a\nb\nc");
    assert!(d.iter().all(|l| matches!(l, DiffLine::Same(_))));
}

#[test]
fn diff_addition_only() {
    let d = line_diff("a\nb", "a\nb\nc");
    assert_eq!(d.last(), Some(&DiffLine::Added("c".into())));
}

#[test]
fn diff_replacement() {
    let d = line_diff("challenge: Math", "challenge: Yes");
    let added: Vec<_> = d
        .iter()
        .filter_map(|l| if let DiffLine::Added(s) = l { Some(s.clone()) } else { None })
        .collect();
    let removed: Vec<_> = d
        .iter()
        .filter_map(|l| if let DiffLine::Removed(s) = l { Some(s.clone()) } else { None })
        .collect();
    assert_eq!(added, vec!["challenge: Yes".to_string()]);
    assert_eq!(removed, vec!["challenge: Math".to_string()]);
}

#[test]
fn first_change_offset_no_changes_starts_at_top() {
    let diff = vec![
        DiffLine::Same("challenge: Math".into()),
        DiffLine::Same("min_severity: High".into()),
    ];
    assert_eq!(first_change_offset(&diff, 30, 3), 0);
}

#[test]
fn first_change_offset_change_in_visible_window_is_zero() {
    let mut diff: Vec<DiffLine> = (0..20).map(|i| DiffLine::Same(format!("l{i}"))).collect();
    diff[5] = DiffLine::Added("changed".into());
    assert_eq!(first_change_offset(&diff, 30, 3), 0);
}

#[test]
fn first_change_offset_positions_change_near_bottom_of_window() {
    let mut diff: Vec<DiffLine> = (0..70).map(|i| DiffLine::Same(format!("l{i}"))).collect();
    diff[50] = DiffLine::Added("changed".into());
    let offset = first_change_offset(&diff, 28, 3);
    assert_eq!(offset, 26);
    assert!((offset..offset + 28).contains(&50));
    assert!(offset >= 20);
}

#[test]
fn first_change_offset_clamps_to_max_when_change_is_near_end() {
    let mut diff: Vec<DiffLine> = (0..70).map(|i| DiffLine::Same(format!("l{i}"))).collect();
    diff[69] = DiffLine::Added("last".into());
    let offset = first_change_offset(&diff, 28, 3);
    let max_offset = 70 - 28;
    assert_eq!(offset, max_offset);
}

#[test]
fn split_lines_follows_str_lines() {
    let cases = ["", "\n", "a", "a\n", "a\nb", "a\r\nb\r\n", "x\n\ny", "baz\r", "\r\n\r\n", "a\rb"];
    for c in cases {
        let expected: Vec<String> = c.lines().map(|s| s.to_string()).collect();
        assert_eq!(split_lines(c), expected, "lines of {c:?}");
    }
}

#[test]
fn diff_keeps_old_and_new_text() {
    let old = "a\nb\nc\nd";
    let new = "a\nx\nc\ny\nd";
    let d = line_diff(old, new);
    let old_side: Vec<String> = d
        .iter()
        .filter_map(|l| match l {
            DiffLine::Same(s) | DiffLine::Removed(s) => Some(s.clone()),
            DiffLine::Added(_) => None,
        })
        .collect();
    let new_side: Vec<String> = d
        .iter()
        .filter_map(|l| match l {
            DiffLine::Same(s) | DiffLine::Added(s) => Some(s.clone()),
            DiffLine::Removed(_) => None,
        })
        .collect();
    assert_eq!(old_side, vec!["a", "b", "c", "d"]);
    assert_eq!(new_side, vec!["a", "x", "c", "y", "d"]);
    let same = d.iter().filter(|l| matches!(l, DiffLine::Same(_))).count();
    assert_eq!(same, 3);
}

#[test]
fn diff_replacement_puts_removed_before_added() {
    let d = line_diff("k: 1\nz", "k: 2\nz");
    assert_eq!(
        d,
        vec![
            DiffLine::Removed("k: 1".into()),
            DiffLine::Added("k: 2".into()),
            DiffLine::Same("z".into()),
        ]
    );
}

#[test]
fn diff_of_empty_texts() {
    assert!(line_diff("", "").is_empty());
    assert_eq!(line_diff("", "a"), vec![DiffLine::Added("a".into())]);
    assert_eq!(line_diff("a", ""), vec![DiffLine::Removed("a".into())]);
}

#[test]
fn first_change_offset_zero_when_everything_fits() {
    let mut diff: Vec<DiffLine> = (0..10).map(|i| DiffLine::Same(format!("l{i}"))).collect();
    diff[9] = DiffLine::Removed("gone".into());
    assert_eq!(first_change_offset(&diff, 10, 3), 0);
}

// ------------------------------------------------------------ picker

fn items() -> Vec<PickerItem> {
    vec![
        PickerItem { value: "git:force_push".into(), badge: Some("built-in") },
        PickerItem { value: "git:reset_hard".into(), badge: Some("built-in") },
        PickerItem { value: "my_team:no_force".into(), badge: Some("custom") },
    ]
}

#[test]
fn empty_filter_no_create_sentinel() {
    let v = compute_visible(&items(), "");
    assert_eq!(v.matches.len(), 3);
    assert!(!v.show_create);
}

#[test]
fn nonexact_filter_shows_create_sentinel() {
    let v = compute_visible(&items(), "my_team");
    assert!(v.show_create);
}

#[test]
fn exact_match_hides_create_sentinel() {
    let v = compute_visible(&items(), "git:force_push");
    assert!(!v.show_create);
}

#[test]
fn enter_on_match_returns_selected() {
    let mut state = PickerState { filter: String::new(), cursor: 1 };
    let it = items();
    let out = handle_picker_key(key(KeyCode::Enter), &mut state, &it);
    assert_eq!(out, PickerOutcome::Selected("git:reset_hard".to_string()));
}

#[test]
fn enter_on_create_sentinel_uses_filter_as_value() {
    let mut state = PickerState { filter: "totally_new".into(), cursor: 0 };
    let it = items();
    let out = handle_picker_key(key(KeyCode::Enter), &mut state, &it);
    assert_eq!(out, PickerOutcome::Selected("totally_new".to_string()));
}

#[test]
fn typing_filters_and_resets_cursor() {
    let mut state = PickerState { filter: String::new(), cursor: 2 };
    let it = items();
    let out = handle_picker_key(key(KeyCode::Char('m')), &mut state, &it);
    assert_eq!(out, PickerOutcome::StateChanged);
    assert_eq!(state.filter, "m");
    assert_eq!(state.cursor, 0);
}

#[test]
fn down_wraps_around_total_rows() {
    let mut state = PickerState { filter: String::new(), cursor: 2 };
    let it = items();
    let _ = handle_picker_key(key(KeyCode::Down), &mut state, &it);
    assert_eq!(state.cursor, 0);
}

#[test]
fn enter_on_no_matches_with_filter_creates_new() {
    let mut state = PickerState { filter: "brand_new_value".into(), cursor: 0 };
    let it = items();
    let out = handle_picker_key(key(KeyCode::Enter), &mut state, &it);
    assert_eq!(out, PickerOutcome::Selected("brand_new_value".to_string()));
}

#[test]
fn esc_returns_cancelled() {
    let mut state = PickerState { filter: "anything".into(), cursor: 0 };
    let it = items();
    let out = handle_picker_key(key(KeyCode::Esc), &mut state, &it);
    assert_eq!(out, PickerOutcome::Cancelled);
}

#[test]
fn picker_filter_is_case_insensitive_and_keeps_order() {
    let v = compute_visible(&items(), "FORCE");
    assert_eq!(v.matches, vec![0, 2]);
    assert!(v.show_create);
}

#[test]
fn picker_blank_filter_offers_no_new_value() {
    let v = compute_visible(&items(), "   ");
    assert!(v.matches.is_empty());
    assert!(!v.show_create);
}

#[test]
fn picker_up_wraps_to_last_row_and_backspace_edits_filter() {
    let it = items();
    let mut state = PickerState { filter: String::new(), cursor: 0 };
    assert_eq!(handle_picker_key(key(KeyCode::Up), &mut state, &it), PickerOutcome::StateChanged);
    assert_eq!(state.cursor, 2);
    let mut state = PickerState { filter: "ab".into(), cursor: 3 };
    handle_picker_key(key(KeyCode::Backspace), &mut state, &it);
    assert_eq!(state.filter, "a");
    assert_eq!(state.cursor, 0);
    let mut empty = PickerState { filter: String::new(), cursor: 0 };
    assert_eq!(
        handle_picker_key(key(KeyCode::Down), &mut empty, &[]),
        PickerOutcome::Ignored
    );
}

#[test]
fn picker_enter_clamps_cursor_and_trims_new_value() {
    let it = items();
    let mut state = PickerState { filter: "  fresh  ".into(), cursor: 9 };
    assert_eq!(
        handle_picker_key(key(KeyCode::Enter), &mut state, &it),
        PickerOutcome::Selected("fresh".to_string())
    );
}

// ------------------------------------------------------------ radio, stepper, lists

#[test]
fn down_increments_with_wrap() {
    assert_eq!(handle_radio_key(key(KeyCode::Down), 0, 3), 1);
    assert_eq!(handle_radio_key(key(KeyCode::Down), 2, 3), 0);
}

#[test]
fn up_decrements_with_wrap() {
    assert_eq!(handle_radio_key(key(KeyCode::Up), 1, 3), 0);
    assert_eq!(handle_radio_key(key(KeyCode::Up), 0, 3), 2);
}

#[test]
fn vim_keys_work() {
    assert_eq!(handle_radio_key(key(KeyCode::Char('j')), 0, 3), 1);
    assert_eq!(handle_radio_key(key(KeyCode::Char('k')), 0, 3), 2);
}

#[test]
fn unrelated_key_is_noop() {
    assert_eq!(handle_radio_key(key(KeyCode::Char('x')), 1, 3), 1);
}

#[test]
fn radio_empty_list_gives_zero_and_builders_set_fields() {
    assert_eq!(handle_radio_key(key(KeyCode::Down), 4, 0), 0);
    let opts = ["Math", "Enter", "Yes"];
    let descs = ["a", "b", "c"];
    let short = ["a"];
    let g = RadioGroup::new(&opts, 1, true).with_cursor(2).with_descriptions(&descs);
    assert_eq!(g.cursor_row, Some(2));
    assert!(g.descriptions.is_some());
    assert!(g.is_highlighted(2));
    assert!(!g.is_highlighted(1));
    let g = RadioGroup::new(&opts, 1, true).with_descriptions(&short).description_at_column(7);
    assert!(g.descriptions.is_none());
    assert_eq!(g.description_column, Some(7));
    assert!(g.is_highlighted(1));
    assert!(!RadioGroup::new(&opts, 1, false).is_highlighted(1));
}

#[test]
fn up_increments_within_bounds() {
    assert_eq!(handle_stepper_key(key(KeyCode::Up), 5, 0, 10), StepperOutcome::Changed(6));
}

#[test]
fn up_at_max_returns_out_of_range() {
    assert_eq!(handle_stepper_key(key(KeyCode::Up), 10, 0, 10), StepperOutcome::OutOfRange);
}

#[test]
fn down_at_min_returns_out_of_range() {
    assert_eq!(handle_stepper_key(key(KeyCode::Down), 0, 0, 10), StepperOutcome::OutOfRange);
}

#[test]
fn pageup_clamps_to_max() {
    assert_eq!(handle_stepper_key(key(KeyCode::PageUp), 50, 0, 100), StepperOutcome::Changed(100));
}

#[test]
fn pagedown_clamps_to_min() {
    assert_eq!(handle_stepper_key(key(KeyCode::PageDown), 50, 0, 100), StepperOutcome::Changed(0));
}

#[test]
fn stepper_saturates_at_integer_limits() {
    assert_eq!(
        handle_stepper_key(key(KeyCode::Up), i64::MAX, 0, i64::MAX),
        StepperOutcome::Changed(i64::MAX)
    );
    assert_eq!(
        handle_stepper_key(key(KeyCode::PageDown), i64::MIN + 5, i64::MIN, 0),
        StepperOutcome::Changed(i64::MIN)
    );
    assert_eq!(handle_stepper_key(key(KeyCode::Enter), 3, 0, 9), StepperOutcome::Ignored);
}

#[test]
fn space_toggles_at_cursor() {
    let r = handle_multi_select_key(key(KeyCode::Char(' ')), 1, 3);
    assert_eq!(r, MultiSelectKeyOutcome::Toggled(1));
}

#[test]
fn arrow_moves_cursor() {
    assert_eq!(
        handle_multi_select_key(key(KeyCode::Down), 0, 3),
        MultiSelectKeyOutcome::CursorMoved(1)
    );
    assert_eq!(
        handle_multi_select_key(key(KeyCode::Up), 0, 3),
        MultiSelectKeyOutcome::CursorMoved(2)
    );
}

#[test]
fn a_selects_all_n_selects_none() {
    assert_eq!(
        handle_multi_select_key(key(KeyCode::Char('a')), 0, 3),
        MultiSelectKeyOutcome::SelectAll
    );
    assert_eq!(
        handle_multi_select_key(key(KeyCode::Char('n')), 0, 3),
        MultiSelectKeyOutcome::SelectNone
    );
}

#[test]
fn unknown_key_is_none() {
    assert_eq!(
        handle_multi_select_key(key(KeyCode::Char('x')), 0, 3),
        MultiSelectKeyOutcome::Ignored
    );
}

#[test]
fn tab_toggles_state() {
    assert_eq!(handle_override_key(key(KeyCode::Tab), &OverrideState::Inherit), Some(OverrideState::Custom));
    assert_eq!(handle_override_key(key(KeyCode::Tab), &OverrideState::Custom), Some(OverrideState::Inherit));
}

#[test]
fn unrelated_key_returns_none() {
    assert_eq!(handle_override_key(key(KeyCode::Char('x')), &OverrideState::Inherit), None);
}

#[test]
fn override_toggled_twice_is_unchanged() {
    let s = OverrideState::Custom;
    assert_eq!(toggle_override(&toggle_override(&s)), s);
    assert_eq!(handle_override_key(key(KeyCode::Char(' ')), &s), Some(OverrideState::Inherit));
}

#[test]
fn empty_value_is_empty_validity() {
    assert!(matches!(RegexValidity::for_value(""), RegexValidity::Empty));
}

#[test]
fn valid_regex_compiles() {
    assert!(matches!(RegexValidity::for_value("^foo.*"), RegexValidity::Valid));
}

#[test]
fn invalid_regex_carries_error() {
    match RegexValidity::for_value("[unclosed") {
        RegexValidity::Invalid(s) => assert!(!s.is_empty()),
        other => panic!("expected Invalid, got {other:?}"),
    }
}

// ------------------------------------------------------------ form pieces

#[test]
fn id_uniqueness_validator_works() {
    let v = IdUniquenessValidator::new(vec!["git:force".into()], vec!["my:foo".into()]);
    assert!(v.is_unique("new:check"));
    assert!(!v.is_unique("git:force"));
    assert!(!v.is_unique("my:foo"));
    assert!(!v.is_unique(""));
}

#[test]
fn id_uniqueness_validator_allows_existing_for_edit() {
    let mut v = IdUniquenessValidator::new(vec!["git:force".into()], vec!["my:foo".into()]);
    assert!(!v.is_unique("my:foo"));
    v.allow_existing("my:foo");
    assert!(v.is_unique("my:foo"));
}

#[test]
fn allow_existing_frees_only_that_id() {
    let mut v = IdUniquenessValidator::new(
        vec!["a".into(), "b".into(), "a".into()],
        vec!["c".into()],
    );
    v.allow_existing("a");
    assert!(v.is_unique("a"));
    assert!(!v.is_unique("b"));
    assert!(!v.is_unique("c"));
}

#[test]
fn focus_order_walks_every_field_and_wraps() {
    assert_eq!(FOCUS_STEPS, 11);
    assert_eq!(focus_at(0), FormFocus::Id);
    assert_eq!(focus_at(9), FormFocus::Submit);
    assert_eq!(focus_at(10), FormFocus::Cancel);
    assert_eq!(next_focus_index(10), 0);
    assert_eq!(prev_focus_index(0), 10);
    for i in 0..FOCUS_STEPS {
        assert_eq!(focus_index(focus_at(i)), i);
        assert_eq!(prev_focus_index(next_focus_index(i)), i);
    }
}

// ------------------------------------------------------------ store, draft, misc

fn stored(id: &str, from: &str) -> Check {
    Check {
        id: id.into(),
        test: Pattern::new("foo").unwrap(),
        description: "x".into(),
        from: from.into(),
        challenge: Challenge::Math,
        filters: vec![],
        alternative: None,
        alternative_info: None,
        severity: Severity::Medium,
    }
}

#[test]
fn store_path_for_group_joins_root_and_yaml_name() {
    let store = CustomCheckStore::new("/tmp/checks".to_string());
    assert_eq!(store.root(), "/tmp/checks");
    assert_eq!(store.path_for_group("my"), "/tmp/checks/my.yaml");
}

#[test]
fn store_delete_keeps_other_checks_or_reports_missing() {
    let store = CustomCheckStore::new("/tmp/checks".to_string());
    let existing = vec![stored("my:a", "my"), stored("my:b", "my")];
    let kept = store.delete("my:a", "my", &existing).unwrap();
    assert_eq!(kept.len(), 1);
    assert_eq!(kept[0].id, "my:b");
    let none = store.delete("my:b", "my", &kept).unwrap();
    assert!(none.is_empty());
    let err = store.delete("my:nope", "my", &existing).unwrap_err();
    assert!(format!("{err:?}").contains("NotFound"));
}

#[test]
fn store_add_rejects_duplicate_and_update_replaces() {
    let store = CustomCheckStore::new("/tmp/checks".to_string());
    let existing = store.add(&stored("my:a", "my"), &vec![]).unwrap();
    let both = store.add(&stored("my:b", "my"), &existing).unwrap();
    assert_eq!(both.len(), 2);
    let err = store.add(&stored("my:a", "my"), &both).unwrap_err();
    assert!(format!("{err:?}").contains("AlreadyExists"));
    let mut changed = stored("my:b", "my");
    changed.description = "updated".into();
    let updated = store.update(&changed, &both).unwrap();
    assert_eq!(updated[1].description, "updated");
    assert_eq!(updated[0].description, "x");
    let err = store.update(&stored("my:nope", "my"), &both).unwrap_err();
    assert!(format!("{err:?}").contains("UpdateTargetMissing"));
}

#[test]
fn add_creates_group_file() {
    let store = CustomCheckStore::new("/tmp/checks".to_string());
    let listed = store.add(&stored("my:foo", "my"), &vec![]).unwrap();
    assert!(listed.iter().any(|x| x.id == "my:foo"));
}

#[test]
fn add_appends_to_existing_group_file() {
    let store = CustomCheckStore::new("/tmp/checks".to_string());
    let one = store.add(&stored("my:a", "my"), &vec![]).unwrap();
    let listed = store.add(&stored("my:b", "my"), &one).unwrap();
    assert_eq!(listed.len(), 2);
}

#[test]
fn add_rejects_duplicate_id() {
    let store = CustomCheckStore::new("/tmp/checks".to_string());
    let one = store.add(&stored("my:dup", "my"), &vec![]).unwrap();
    let err = store.add(&stored("my:dup", "my"), &one).unwrap_err();
    assert!(err.message().contains("already exists"));
    assert_eq!(err.message(), "check id \"my:dup\" already exists in group \"my\"");
}

#[test]
fn update_in_place() {
    let store = CustomCheckStore::new("/tmp/checks".to_string());
    let mut c = stored("my:foo", "my");
    let listed = store.add(&c, &vec![]).unwrap();
    c.description = "updated".into();
    let listed = store.update(&c, &listed).unwrap();
    assert_eq!(listed[0].description, "updated");
}

#[test]
fn update_moves_between_groups() {
    let store = CustomCheckStore::new("/tmp/checks".to_string());
    let c = stored("my:foo", "my");
    let my = store.add(&c, &vec![]).unwrap();
    let mut moved = c.clone();
    moved.from = "team".into();
    let (left, team) = store.move_check(&moved, &my, &vec![]);
    assert!(left.is_empty());
    let team = team.unwrap();
    assert_eq!(team.len(), 1);
    assert_eq!(team[0].from, "team");
}

#[test]
fn update_returns_error_when_id_missing() {
    let store = CustomCheckStore::new("/tmp/checks".to_string());
    let err = store.update(&stored("my:nope", "my"), &vec![]).unwrap_err();
    assert!(err.message().contains("not found"));
    assert_eq!(err.message(), "check id \"my:nope\" not found");
}

#[test]
fn delete_removes_check_and_empties_file() {
    let store = CustomCheckStore::new("/tmp/checks".to_string());
    let one = store.add(&stored("my:foo", "my"), &vec![]).unwrap();
    let left = store.delete("my:foo", "my", &one).unwrap();
    assert!(left.is_empty());
}

#[test]
fn delete_one_of_many_keeps_file() {
    let store = CustomCheckStore::new("/tmp/checks".to_string());
    let one = store.add(&stored("my:a", "my"), &vec![]).unwrap();
    let two = store.add(&stored("my:b", "my"), &one).unwrap();
    let listed = store.delete("my:a", "my", &two).unwrap();
    assert_eq!(listed.len(), 1);
    assert_eq!(listed[0].id, "my:b");
}

#[test]
fn delete_returns_error_when_id_missing() {
    let store = CustomCheckStore::new("/tmp/checks".to_string());
    let err = store.delete("my:nope", "my", &vec![]).unwrap_err();
    assert!(err.message().contains("not found"));
    assert_eq!(err.message(), "check id \"my:nope\" not found in group \"my\"");
}

#[test]
fn draft_reset_and_pin() {
    let mut d = DraftSettings::from_settings("challenge: Math".to_string());
    d.current = "challenge: Yes".to_string();
    assert_ne!(&d.current, d.original());
    d.reset();
    assert_eq!(&d.current, d.original());
    d.current = "challenge: Enter".to_string();
    let saved = d.current.clone();
    d.pin_original(saved);
    assert_eq!(d.original(), "challenge: Enter");
    assert_eq!(d.current, "challenge: Enter");
}

#[test]
fn groups_merge_built_in_and_custom_without_duplicates() {
    let builtin = vec!["base".to_string(), "git".to_string()];
    let tab = GroupsTab::new(vec!["git".into(), "my_team".into(), "my_team".into()]);
    assert_eq!(tab.all_groups(&builtin), vec!["base", "git", "my_team"]);
    assert_eq!(merge_distinct(&vec![], &vec!["a".into(), "a".into()]), vec!["a"]);
}

#[test]
fn badge_colors_and_description_column() {
    assert_eq!(badge_widget("shell").color(), BadgeColor::Cyan);
    assert_eq!(badge_widget("ai").color(), BadgeColor::Magenta);
    assert_eq!(badge_widget("wrap").color(), BadgeColor::Yellow);
    assert_eq!(badge_widget("all").color(), BadgeColor::Gray);
    assert_eq!(description_column(2, 10), 20);
}

// ------------------------------------------------------------ editor state machine

fn press(app: &mut AppState, k: KeyEvent, dirty: bool) -> Option<ModalEffect> {
    match route_key(app, k, dirty, ValidationReport::default()) {
        KeyRoute::Handled(e) => Some(e),
        KeyRoute::TabChanged => None,
        KeyRoute::ToTab => {
            let _ = after_tab(app, k, &TabOutcome::Ignored);
            None
        }
    }
}

#[test]
fn fresh_app_starts_on_general_tab() {
    let app = AppState::new();
    assert_eq!(app.current_tab, 0);
    assert!(app.running);
}

#[test]
fn tab_key_moves_to_next_tab() {
    let mut app = AppState::new();
    press(&mut app, key(KeyCode::Tab), false);
    assert_eq!(app.current_tab, 1);
    press(&mut app, key(KeyCode::BackTab), false);
    press(&mut app, key(KeyCode::BackTab), false);
    assert_eq!(app.current_tab, NUM_TABS - 1);
}

#[test]
fn quit_when_clean_exits_immediately() {
    let mut app = AppState::new();
    press(&mut app, key(KeyCode::Char('q')), false);
    assert!(!app.running);
}

#[test]
fn quit_when_dirty_opens_modal() {
    let mut app = AppState::new();
    press(&mut app, key(KeyCode::Char('q')), true);
    assert!(matches!(app.modal, Some(Modal::Quit(_))));
    assert!(app.running);
}

#[test]
fn preview_p_toggles_open_and_closed() {
    let mut app = AppState::new();
    assert_eq!(app.preview.mode, PreviewMode::Closed);
    press(&mut app, key(KeyCode::Char('p')), false);
    assert_eq!(app.preview.mode, PreviewMode::Open);
    assert!(app.preview.auto_scroll);
    press(&mut app, key(KeyCode::Char('p')), false);
    assert_eq!(app.preview.mode, PreviewMode::Closed);
}

#[test]
fn preview_pagedown_scrolls_and_disables_auto_scroll() {
    let mut app = AppState::new();
    app.preview.mode = PreviewMode::Open;
    app.preview.auto_scroll = true;
    let initial = app.preview.scroll;
    press(&mut app, key(KeyCode::PageDown), false);
    assert!(app.preview.scroll > initial);
    assert!(!app.preview.auto_scroll);
}

#[test]
fn preview_shift_down_scrolls_one_line() {
    let mut app = AppState::new();
    app.preview.mode = PreviewMode::Open;
    app.preview.auto_scroll = true;
    let initial = app.preview.scroll;
    press(&mut app, shift(KeyCode::Down), false);
    assert_eq!(app.preview.scroll, initial + 1);
    assert!(!app.preview.auto_scroll);
}

#[test]
fn preview_shift_up_after_scroll_decrements() {
    let mut app = AppState::new();
    app.preview.mode = PreviewMode::Open;
    app.preview.scroll = 5;
    app.preview.auto_scroll = false;
    press(&mut app, shift(KeyCode::Up), false);
    assert_eq!(app.preview.scroll, 4);
}

#[test]
fn preview_pageup_does_nothing_when_closed() {
    let mut app = AppState::new();
    let scroll_before = app.preview.scroll;
    let auto_before = app.preview.auto_scroll;
    press(&mut app, key(KeyCode::PageUp), false);
    assert_eq!(app.preview.scroll, scroll_before);
    assert_eq!(app.preview.auto_scroll, auto_before);
}

#[test]
fn save_dialog_cancel_keeps_dirty() {
    let mut app = AppState::new();
    press(&mut app, key(KeyCode::Char('s')), true);
    assert!(matches!(app.modal, Some(Modal::Save(_))));
    press(&mut app, key(KeyCode::Tab), true);
    let e = press(&mut app, key(KeyCode::Enter), true);
    assert!(app.modal.is_none());
    assert!(matches!(e, Some(ModalEffect::Nothing)));
}

#[test]
fn save_writes_file_and_clears_dirty() {
    let mut app = AppState::new();
    press(&mut app, key(KeyCode::Char('s')), true);
    let e = press(&mut app, key(KeyCode::Enter), true);
    assert!(matches!(e, Some(ModalEffect::Save)));
    assert!(app.modal.is_none());
    assert!(app.running);
}

#[test]
fn save_with_errors_shows_them_and_any_confirm_closes() {
    let mut app = AppState::new();
    let report = ValidationReport {
        errors: vec![ValidationError { path: "(root)".into(), message: "bad".into() }],
    };
    route_key(&mut app, key(KeyCode::Char('s')), true, report);
    match &app.modal {
        Some(Modal::Save(st)) => assert!(matches!(&st.stage, SaveStage::Errors(e) if e.len() == 1)),
        other => panic!("expected errors dialog, got {other:?}"),
    }
    press(&mut app, key(KeyCode::Tab), true);
    assert!(matches!(app.modal, Some(Modal::Save(_))));
    let e = press(&mut app, key(KeyCode::Char(' ')), true);
    assert!(app.modal.is_none());
    assert!(matches!(e, Some(ModalEffect::Nothing)));
}

#[test]
fn quit_modal_discard_exits() {
    let mut app = AppState::new();
    press(&mut app, key(KeyCode::Char('q')), true);
    press(&mut app, key(KeyCode::Tab), true);
    let e = press(&mut app, key(KeyCode::Enter), true);
    assert!(!app.running);
    assert!(matches!(e, Some(ModalEffect::DiscardAndQuit)));
}

#[test]
fn quit_modal_cancel_keeps_running() {
    let mut app = AppState::new();
    press(&mut app, key(KeyCode::Char('q')), true);
    press(&mut app, key(KeyCode::Tab), true);
    press(&mut app, key(KeyCode::Tab), true);
    press(&mut app, key(KeyCode::Enter), true);
    assert!(app.running);
    assert!(app.modal.is_none());
}

#[test]
fn quit_modal_save_with_errors_opens_error_dialog() {
    let (next, eff) = handle_modal_key(
        Modal::Quit(QuitDialogState { button: 0 }),
        key(KeyCode::Enter),
        ValidationReport {
            errors: vec![ValidationError { path: "a".into(), message: "b".into() }],
        },
    );
    assert!(matches!(next, Some(Modal::Save(_))));
    assert!(matches!(eff, ModalEffect::Nothing));
    let (next, eff) = handle_modal_key(
        Modal::Quit(QuitDialogState { button: 0 }),
        key(KeyCode::Char(' ')),
        ValidationReport::default(),
    );
    assert!(next.is_none());
    assert!(matches!(eff, ModalEffect::SaveAndQuit));
    let (next, _) = handle_modal_key(
        Modal::Quit(QuitDialogState { button: 0 }),
        key(KeyCode::Left),
        ValidationReport::default(),
    );
    assert!(matches!(next, Some(Modal::Quit(QuitDialogState { button: 2 }))));
}

#[test]
fn reset_dialog_resets_draft() {
    let mut app = AppState::new();
    press(&mut app, key(KeyCode::Char('r')), true);
    let e = press(&mut app, key(KeyCode::Enter), true);
    assert!(app.modal.is_none());
    assert!(matches!(e, Some(ModalEffect::Reset)));
}

#[test]
fn help_modal_esc_closes() {
    let mut app = AppState::new();
    press(&mut app, key(KeyCode::Char('?')), false);
    assert!(matches!(app.modal, Some(Modal::Help)));
    press(&mut app, key(KeyCode::Char('x')), false);
    assert!(matches!(app.modal, Some(Modal::Help)));
    press(&mut app, key(KeyCode::Esc), false);
    assert!(app.modal.is_none());
}

#[test]
fn left_right_arrows_switch_top_level_tabs() {
    let mut app = AppState::new();
    let initial_tab = app.current_tab;
    press(&mut app, key(KeyCode::Right), false);
    assert_eq!(app.current_tab, initial_tab + 1);
    press(&mut app, key(KeyCode::Left), false);
    assert_eq!(app.current_tab, initial_tab);
    assert!(matches!(
        after_tab(&mut app, key(KeyCode::Right), &TabOutcome::Consumed),
        AfterTab::Nothing
    ));
    assert_eq!(app.current_tab, initial_tab);
}

#[test]
fn delete_custom_check_requires_confirmation_modal() {
    let mut app = AppState::new();
    let checks = vec![stored("my:a", "my")];
    confirm_delete(&mut app, 0, &checks);
    match &app.modal {
        Some(Modal::DeleteCustom(st)) => {
            assert_eq!(st.button, 1);
            assert_eq!(st.id, "my:a");
        }
        other => panic!("expected delete dialog, got {other:?}"),
    }
    let e = press(&mut app, key(KeyCode::Enter), false);
    assert!(matches!(e, Some(ModalEffect::Nothing)));
    confirm_delete(&mut app, 0, &checks);
    press(&mut app, key(KeyCode::Left), false);
    let e = press(&mut app, key(KeyCode::Enter), false);
    assert!(matches!(e, Some(ModalEffect::DeleteCheck { ref id, .. }) if id == "my:a"));
    confirm_delete(&mut app, 5, &checks);
    assert!(app.modal.is_none());
}

#[test]
fn edit_marks_preview_to_follow_changes() {
    let mut app = AppState::new();
    app.preview.auto_scroll = false;
    after_tab(&mut app, key(KeyCode::Char(' ')), &TabOutcome::Mutated);
    assert!(app.preview.auto_scroll);
}

#[test]
fn validation_report_is_ok_only_without_errors() {
    assert!(ValidationReport::default().is_ok());
    let r = ValidationReport { errors: vec![ValidationError { path: "p".into(), message: "m".into() }] };
    assert!(!r.is_ok());
}

#[test]
fn preview_window_follows_change_or_clamps_scroll() {
    let original: String = (0..30).map(|i| format!("line{i}\n")).collect();
    let current = original.replace("line25", "changed");
    let diff = line_diff(&original, &current);
    let (o, e) = preview_window(&diff, 10, 3, true, 0);
    assert_eq!((o, e), (first_change_offset(&diff, 10, 3), first_change_offset(&diff, 10, 3) + 10));
    // A manual scroll past the end is clamped to the last full window.
    assert_eq!(preview_window(&diff, 10, 3, false, 500), (diff.len() - 10, diff.len()));
    assert_eq!(preview_window(&diff, 10, 3, false, 2), (2, 12));
    // A short diff is shown whole.
    let short = line_diff("a\n", "b\n");
    assert_eq!(preview_window(&short, 10, 3, false, 7), (0, short.len()));
}

#[test]
fn typing_changes_value() {
    let mut t = TextInput::default();
    let outcome = t.handle(key(KeyCode::Char('h')));
    assert_eq!(outcome, TextInputOutcome::Changed);
    assert_eq!(t.value(), "h");
}

#[test]
fn enter_submits_value() {
    let mut t = TextInput::with_value("hello");
    let outcome = t.handle(key(KeyCode::Enter));
    assert_eq!(outcome, TextInputOutcome::Submitted("hello".to_string()));
}

#[test]
fn esc_cancels() {
    let mut t = TextInput::with_value("anything");
    let outcome = t.handle(key(KeyCode::Esc));
    assert_eq!(outcome, TextInputOutcome::Cancelled);
}

#[test]
fn text_input_edits_at_the_cursor() {
    let mut t = TextInput::with_value("héllo");
    assert_eq!(t.cursor, 5);
    assert_eq!(t.handle(key(KeyCode::Backspace)), TextInputOutcome::Changed);
    assert_eq!((t.value(), t.cursor), ("héll", 4));
    assert_eq!(t.handle(key(KeyCode::Home)), TextInputOutcome::Changed);
    assert_eq!(t.handle(key(KeyCode::Home)), TextInputOutcome::Ignored);
    assert_eq!(t.handle(key(KeyCode::Right)), TextInputOutcome::Changed);
    assert_eq!(t.handle(key(KeyCode::Char('X'))), TextInputOutcome::Changed);
    assert_eq!((t.value(), t.cursor), ("hXéll", 2));
    assert_eq!(t.handle(key(KeyCode::Delete)), TextInputOutcome::Changed);
    assert_eq!((t.value(), t.cursor), ("hXll", 2));
    assert_eq!(t.handle(key(KeyCode::End)), TextInputOutcome::Changed);
    assert_eq!(t.cursor, 4);
}

#[test]
fn draft_reset_and_pin_restore_the_snapshot() {
    let mut d = DraftSettings::from_settings(3u32);
    assert_eq!((d.current, *d.original()), (3, 3));
    d.current = 5;
    d.reset();
    assert_eq!((d.current, *d.original()), (3, 3));
    d.current = 7;
    d.pin_original(9);
    assert_eq!((d.current, *d.original()), (9, 9));
}
