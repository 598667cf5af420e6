use shellfirm::engine::checks::{Challenge, Check, FilterType, Severity, ValidationMode, ValidationResult};
use shellfirm::engine::command::parse_and_split_command;
use shellfirm::engine::filters::{
    check_custom_filter, filter_is_command_contains_string, filter_is_file_or_directory_exists,
    parse_usize, FilterContext, NoFileProbe,
};
use shellfirm::engine::pattern::Pattern;
use shellfirm::engine::catalog::{pattern_groups, patterns_for_group};
use shellfirm::engine::validate::{
    run_check_on_command, run_check_on_command_simple, validate_command_with_split,
    validate_with_options, verdict, ValidationOptions,
};

fn check(id: &str, test: &str, from: &str, severity: Severity, challenge: Challenge) -> Check {
    Check {
        id: id.to_string(),
        test: Pattern::new(test).expect("pattern compiles"),
        description: format!("{id} check"),
        from: from.to_string(),
        severity,
        challenge,
        filters: vec![],
        validation_mode: ValidationMode::Split,
    }
}

/// Three test checks: one for `test-1`, one for `test-1` or `test-2`, and one
/// in a group that is not enabled.
fn test_checks() -> Vec<Check> {
    let mut a = check("test:command_1", "test-(1)", "test-1", Severity::Medium, Challenge::Math);
    a.description = "Test command 1".to_string();
    let mut b = check("test:command_1_or_2", "test-(1|2)", "test-2", Severity::Medium, Challenge::Math);
    b.description = "Test command 1 or 2".to_string();
    let mut c = check("test:disabled", "test-disabled", "test-disabled", Severity::Medium, Challenge::Math);
    c.description = "Disabled test command".to_string();
    vec![a, b, c]
}

fn split(input: &str) -> Vec<String> {
    parse_and_split_command(input)
}

// ---------------------------------------------------------------------------
// Display and defaults
// ---------------------------------------------------------------------------

#[test]
fn test_severity_display() {
    assert_eq!(Severity::Low.to_string(), "low");
    assert_eq!(Severity::Medium.to_string(), "medium");
    assert_eq!(Severity::High.to_string(), "high");
    assert_eq!(Severity::Critical.to_string(), "critical");
}

#[test]
fn test_challenge_default() {
    assert_eq!(Challenge::default(), Challenge::Math);
}

#[test]
fn test_severity_default() {
    assert_eq!(Severity::default(), Severity::Medium);
}

#[test]
fn test_validation_mode_display() {
    assert_eq!(ValidationMode::Split.to_string(), "split");
    assert_eq!(ValidationMode::Whole.to_string(), "whole");
}

#[test]
fn test_validation_options_with_severities() {
    let options = ValidationOptions::default();
    assert!(options.allowed_severities.is_empty());
    assert!(options.deny_pattern_ids.is_empty());
    assert!(options.filter_context.is_none());

    let mut options = ValidationOptions::default();
    options.allowed_severities = vec!["low".to_string(), "medium".to_string()];
    assert_eq!(options.allowed_severities.len(), 2);
    assert!(options.allowed_severities.contains(&"low".to_string()));
    assert!(options.allowed_severities.contains(&"medium".to_string()));

    let cloned_options = options.clone();
    assert_eq!(cloned_options.allowed_severities.len(), 2);
    assert!(cloned_options.allowed_severities.contains(&"low".to_string()));
    assert!(cloned_options.allowed_severities.contains(&"medium".to_string()));

    let debug_str = format!("{:?}", options);
    assert!(debug_str.contains("allowed_severities"));
    assert!(debug_str.contains("low"));
    assert!(debug_str.contains("medium"));
}

#[test]
fn challenge_names_round_trip() {
    for (name, c) in [
        ("Math", Challenge::Math),
        ("Word", Challenge::Word),
        ("Confirm", Challenge::Confirm),
        ("Enter", Challenge::Enter),
        ("Yes", Challenge::Yes),
        ("Block", Challenge::Block),
    ] {
        assert_eq!(c.to_string(), name);
        assert_eq!(Challenge::from_string(name).unwrap(), c);
        assert_eq!(Challenge::from_string(&name.to_uppercase()).unwrap(), c);
    }
}

#[test]
fn challenge_from_unknown_name_is_error() {
    match Challenge::from_string("maths") {
        Err(shellfirm::engine::checks::Error::InvalidChallengeName { name }) => {
            assert_eq!(name, "maths")
        }
        other => panic!("expected InvalidChallengeName, got {other:?}"),
    }
}

// ---------------------------------------------------------------------------
// Validation results
// ---------------------------------------------------------------------------

#[test]
fn validation_result_creation() {
    let safe_result = ValidationResult::safe();
    assert!(!safe_result.should_challenge);
    assert!(!safe_result.should_deny);
    assert!(safe_result.matches.is_empty());

    let c = check("test:1", "test", "test", Severity::Medium, Challenge::Math);
    let matches_result = ValidationResult::with_matches(vec![c.clone()]);
    assert!(matches_result.should_challenge);
    assert!(!matches_result.should_deny);
    assert_eq!(matches_result.matches.len(), 1);

    let denied_result = ValidationResult::denied(vec![c]);
    assert!(denied_result.should_challenge);
    assert!(denied_result.should_deny);
    assert_eq!(denied_result.matches.len(), 1);
}

#[test]
fn test_validation_result_methods() {
    let default_result = ValidationResult::default();
    assert!(!default_result.should_challenge);
    assert!(!default_result.should_deny);
    assert!(default_result.matches.is_empty());

    let c = check("test:1", "test", "test", Severity::Medium, Challenge::Math);
    let c2 = check("test:2", "test2", "test", Severity::High, Challenge::Confirm);
    let multiple_matches = ValidationResult::with_matches(vec![c, c2]);
    assert!(multiple_matches.should_challenge);
    assert!(!multiple_matches.should_deny);
    assert_eq!(multiple_matches.matches.len(), 2);
    assert!(!ValidationResult::with_matches(vec![]).should_challenge);
}

#[test]
fn test_check_struct_creation() {
    let c = check("test:1", "test", "test", Severity::Low, Challenge::Word);
    assert_eq!(c.id, "test:1");
    assert_eq!(c.from, "test");
    assert_eq!(c.severity, Severity::Low);
    assert_eq!(c.challenge, Challenge::Word);
    assert!(c.filters.is_empty());
    assert_eq!(c.validation_mode, ValidationMode::Split);
    assert_eq!(c.test.as_str(), "test");
}

#[test]
fn check_clone_keeps_every_field() {
    let mut c = check("a:b", "x(y)", "a", Severity::High, Challenge::Yes);
    c.filters = vec![(FilterType::NotContains, "--dry-run".to_string())];
    c.validation_mode = ValidationMode::Whole;
    let d = c.clone();
    assert_eq!(d.id, c.id);
    assert_eq!(d.test.as_str(), "x(y)");
    assert_eq!(d.filters, c.filters);
    assert_eq!(d.validation_mode, ValidationMode::Whole);
}

// ---------------------------------------------------------------------------
// Matching
// ---------------------------------------------------------------------------

#[test]
fn can_run_check_on_command() {
    let checks = test_checks();
    let matches = run_check_on_command_simple(&checks, "test-1");
    assert_eq!(matches.len(), 2);
    let matches = run_check_on_command_simple(&checks, "unknown command");
    assert_eq!(matches.len(), 0);
}

#[test]
fn test_run_check_on_command() {
    let checks = test_checks();
    let options = ValidationOptions::default();
    assert_eq!(run_check_on_command(&checks, "test-1", &options).len(), 2);
    assert_eq!(run_check_on_command(&checks, "echo hello", &options).len(), 0);
    assert_eq!(run_check_on_command(&checks, "", &options).len(), 0);
    assert_eq!(run_check_on_command(&checks, "   \t\n  ", &options).len(), 0);
}

#[test]
fn test_run_check_on_command_simple() {
    let checks = test_checks();
    assert_eq!(run_check_on_command_simple(&checks, "test-1").len(), 2);
    assert_eq!(run_check_on_command_simple(&checks, "echo hello").len(), 0);
    assert_eq!(run_check_on_command_simple(&checks, "").len(), 0);
}

#[test]
fn run_check_keeps_input_order() {
    let checks = test_checks();
    let m = run_check_on_command_simple(&checks, "test-1");
    assert_eq!(m[0].id, "test:command_1");
    assert_eq!(m[1].id, "test:command_1_or_2");
}

#[test]
fn test_validate_command_with_split() {
    let checks = test_checks();
    let options = ValidationOptions::default();
    assert_eq!(validate_command_with_split(&checks, "test-1", &options).len(), 2);
    assert_eq!(validate_command_with_split(&checks, "test-1 && test-2", &options).len(), 3);
    assert_eq!(
        validate_command_with_split(&checks, "test-1 'quoted string' && test-2", &options).len(),
        3
    );
    assert_eq!(validate_command_with_split(&checks, "echo hello", &options).len(), 0);
}

#[test]
fn test_validate_command_with_split_default() {
    let checks = test_checks();
    let options = ValidationOptions::default();
    assert_eq!(validate_command_with_split(&checks, "test-1", &options).len(), 2);
    assert_eq!(validate_command_with_split(&checks, "test-1 && test-2", &options).len(), 3);
    assert_eq!(validate_command_with_split(&checks, "echo hello", &options).len(), 0);
}

#[test]
fn test_validate_command_with_split_edge_cases() {
    let checks = test_checks();
    let options = ValidationOptions::default();
    assert_eq!(validate_command_with_split(&checks, "", &options).len(), 0);
    assert_eq!(validate_command_with_split(&checks, "&& || & |", &options).len(), 0);
    assert_eq!(validate_command_with_split(&checks, "   \t\n  ", &options).len(), 0);
    assert_eq!(validate_command_with_split(&checks, "test-1 && echo hello", &options).len(), 2);
    assert_eq!(
        validate_command_with_split(&checks, "echo hello && echo world", &options).len(),
        0
    );
    assert_eq!(
        validate_command_with_split(&checks, "test-1 && test-2 || test-1", &options).len(),
        5
    );
}

#[test]
fn whole_mode_check_sees_the_unsplit_command() {
    let mut c = check("base:history", r"history\s*\|\s*(ba)?sh", "base", Severity::High, Challenge::Yes);
    c.validation_mode = ValidationMode::Whole;
    let checks = vec![c];
    let options = ValidationOptions::default();
    assert_eq!(validate_command_with_split(&checks, "history | bash", &options).len(), 1);
    assert_eq!(
        validate_command_with_split(&checks, "echo hello && history | bash", &options).len(),
        1
    );
    // Split mode would never see the pipe.
    let mut s = checks[0].clone();
    s.validation_mode = ValidationMode::Split;
    assert_eq!(validate_command_with_split(&[s], "history | bash", &options).len(), 0);
}

fn severity_checks() -> Vec<Check> {
    vec![
        check("low:1", "low", "test", Severity::Low, Challenge::Math),
        check("medium:1", "medium", "test", Severity::Medium, Challenge::Math),
        check("high:1", "high", "test", Severity::High, Challenge::Math),
        check("critical:1", "critical", "test", Severity::Critical, Challenge::Math),
    ]
}

#[test]
fn test_severity_filtering_with_allowed_severities() {
    let checks = severity_checks();
    let mut options = ValidationOptions::default();
    options.allowed_severities = Vec::new();
    for (cmd, sev) in [
        ("low", Severity::Low),
        ("medium", Severity::Medium),
        ("high", Severity::High),
        ("critical", Severity::Critical),
    ] {
        let m = run_check_on_command(&checks, cmd, &options);
        assert_eq!(m.len(), 1);
        assert_eq!(m[0].severity, sev);
    }

    options.allowed_severities = vec!["low".to_string(), "medium".to_string()];
    assert_eq!(run_check_on_command(&checks, "low", &options).len(), 1);
    assert_eq!(run_check_on_command(&checks, "medium", &options).len(), 1);
    assert_eq!(run_check_on_command(&checks, "high", &options).len(), 0);
    assert_eq!(run_check_on_command(&checks, "critical", &options).len(), 0);

    options.allowed_severities = vec!["critical".to_string()];
    assert_eq!(run_check_on_command(&checks, "low", &options).len(), 0);
    assert_eq!(run_check_on_command(&checks, "medium", &options).len(), 0);
    assert_eq!(run_check_on_command(&checks, "high", &options).len(), 0);
    let m = run_check_on_command(&checks, "critical", &options);
    assert_eq!(m.len(), 1);
    assert_eq!(m[0].severity, Severity::Critical);

    options.allowed_severities = vec!["HIGH".to_string(), "CRITICAL".to_string()];
    assert_eq!(run_check_on_command(&checks, "high", &options).len(), 0);
    assert_eq!(run_check_on_command(&checks, "critical", &options).len(), 0);
}

#[test]
fn test_severity_filtering_edge_cases() {
    let checks = vec![check("test:1", "test", "test", Severity::Medium, Challenge::Math)];
    let mut options = ValidationOptions::default();
    assert_eq!(run_check_on_command(&checks, "test", &options).len(), 1);
    options.allowed_severities = vec!["nonexistent".to_string()];
    assert_eq!(run_check_on_command(&checks, "test", &options).len(), 0);
    options.allowed_severities = vec!["medium".to_string(), "nonexistent".to_string()];
    assert_eq!(run_check_on_command(&checks, "test", &options).len(), 1);
    options.allowed_severities = vec!["".to_string()];
    assert_eq!(run_check_on_command(&checks, "test", &options).len(), 0);
}

// ---------------------------------------------------------------------------
// Command splitting
// ---------------------------------------------------------------------------

#[test]
fn parse_and_split_all_cases() {
    let long_string = "a".repeat(1000);
    let long_input = format!("echo '{}' && echo world", long_string);
    let long_expected = vec![format!("echo '{}'", long_string), "echo world".to_string()];
    let cases: Vec<(String, Vec<String>)> = vec![
        ("echo hello", vec!["echo hello"]),
        ("echo hello & echo world", vec!["echo hello", "echo world"]),
        ("echo hello | grep world", vec!["echo hello", "grep world"]),
        ("echo hello && echo world", vec!["echo hello", "echo world"]),
        ("echo hello || echo world", vec!["echo hello", "echo world"]),
        ("echo hello && echo world | grep test & echo done", vec!["echo hello", "echo world", "grep test", "echo done"]),
        ("rm -rf '/tmp/test' && echo 'hello world'", vec!["rm -rf '/tmp/test'", "echo 'hello world'"]),
        ("rm -rf \"/tmp/test\" && echo \"hello world\"", vec!["rm -rf \"/tmp/test\"", "echo \"hello world\""]),
        ("rm -rf '/tmp/test' && echo \"hello world\"", vec!["rm -rf '/tmp/test'", "echo \"hello world\""]),
        ("", vec![]),
        ("&& || & |", vec![]),
        ("&& echo hello &&", vec!["echo hello"]),
        ("& echo hello &", vec!["echo hello"]),
        ("echo hello &&&& echo world", vec!["echo hello", "echo world"]),
        ("echo hello |||| echo world", vec!["echo hello", "echo world"]),
        ("echo hello && echo world || echo test", vec!["echo hello", "echo world", "echo test"]),
        ("echo 'hello world' && echo \"test string\"", vec!["echo 'hello world'", "echo \"test string\""]),
        ("echo 'hello\\'world' && echo \"test\\\"string\"", vec!["echo 'hello\\'world'", "echo \"test\\\"string\""]),
        ("echo 'hello \"world\"' && echo \"test 'string'\"", vec!["echo 'hello \"world\"'", "echo \"test 'string'\""]),
        ("echo hello  &&  echo world", vec!["echo hello", "echo world"]),
        ("echo hello\t&&\techo world", vec!["echo hello", "echo world"]),
        ("   \t\n  ", vec![]),
        ("echo hello && echo world || echo test && echo done", vec!["echo hello", "echo world", "echo test", "echo done"]),
        ("echo hello & echo world && echo test | echo done", vec!["echo hello", "echo world", "echo test", "echo done"]),
        ("echo 'hello && world' && echo \"test || done\"", vec!["echo 'hello && world'", "echo \"test || done\""]),
        ("echo 'hello 🌍 world' && echo 'test 🚀 done'", vec!["echo 'hello 🌍 world'", "echo 'test 🚀 done'"]),
        ("echo 'hello\x00world' && echo 'test\x01done'", vec!["echo 'hello\x00world'", "echo 'test\x01done'"]),
        ("echo 'hello world'", vec!["echo 'hello world'"]),
        ("echo 'test string'", vec!["echo 'test string'"]),
        ("echo \"quoted text\"", vec!["echo \"quoted text\""]),
        ("echo hello && :(){ :|:& };:", vec!["echo hello", ":(){ :|:& };:"]),
    ]
    .into_iter()
    .map(|(i, e)| (i.to_string(), e.into_iter().map(String::from).collect()))
    .chain(std::iter::once((long_input, long_expected)))
    .collect();
    for (input, expected) in cases {
        assert_eq!(split(&input), expected, "input: {input:?}");
    }
}

#[test]
fn split_parts_are_trimmed_and_non_empty() {
    for input in ["  a  &&  b  ", "x |  | y", "\u{a0}z\u{a0}& w"] {
        for part in split(input) {
            assert!(!part.is_empty());
            assert_eq!(part.trim(), part);
        }
    }
}

#[test]
fn split_without_operators_is_the_trimmed_command() {
    assert_eq!(split("  git push -f origin main  "), vec!["git push -f origin main"]);
    assert!(split(" \t ").is_empty());
}

#[test]
fn split_does_not_break_subshells_or_escapes() {
    assert_eq!(split("(a && b) && c"), vec!["(a && b)", "c"]);
    assert_eq!(split("{ a | b; } | c"), vec!["{ a | b; }", "c"]);
    assert_eq!(split(r"echo a \&& b"), vec![r"echo a \&", "b"]);
}

// ---------------------------------------------------------------------------
// Filters
// ---------------------------------------------------------------------------

fn mock_file_exists(path: &str) -> bool {
    path == "/existing/file"
}

fn mock_existing(path: &str) -> bool {
    path == "/existing"
}

#[test]
fn test_filter_context_file_exists() {
    let context = FilterContext::with_file_exists_fn(mock_file_exists);
    assert!(context.file_exists("/existing/file"));
    assert!(!context.file_exists("/nonexistent/file"));

    let context = FilterContext::default();
    assert!(context.file_exists("/any/path"));
}

#[test]
fn test_command_contains_filter() {
    assert!(filter_is_command_contains_string("rm file", "--dry-run"));
    assert!(!filter_is_command_contains_string("rm --dry-run file", "--dry-run"));
}

#[test]
fn test_filter_context_methods() {
    let default_context = FilterContext::default();
    assert!(default_context.file_exists_fn.is_none());
    assert!(default_context.file_exists("/any/path"));

    let context = FilterContext::with_file_exists_fn(mock_file_exists);
    assert!(context.file_exists_fn.is_some());
    assert!(context.file_exists("/existing/file"));
    assert!(!context.file_exists("/nonexistent/file"));
}

#[test]
fn test_filter_context_file_exists_edge_cases() {
    let context = FilterContext::default();
    assert!(context.file_exists(""));
    let context = FilterContext::default();
    assert!(context.file_exists("   \t\n  "));
    let context = FilterContext::default();
    assert!(context.file_exists("./relative/path"));
    let context = FilterContext::default();
    assert!(context.file_exists("/absolute/path"));
}

#[test]
fn test_filter_is_command_contains_string_edge_cases() {
    assert!(filter_is_command_contains_string("", "test"));
    assert!(!filter_is_command_contains_string("command", ""));
    assert!(!filter_is_command_contains_string("command   with   spaces", "   "));
    assert!(filter_is_command_contains_string("command", "nonexistent"));
    assert!(filter_is_command_contains_string("command", "nonexistent"));
    assert!(filter_is_command_contains_string("COMMAND", "command"));
    assert!(filter_is_command_contains_string("command", "COMMAND"));
    assert!(!filter_is_command_contains_string("rm -rf /tmp", "-rf"));
    assert!(filter_is_command_contains_string("rm -rf /tmp", "--force"));
    assert!(!filter_is_command_contains_string("command\nwith\nnewlines", "with"));
    assert!(!filter_is_command_contains_string("command\twith\ttabs", "with"));
}

#[test]
fn test_filter_is_file_or_directory_exists_edge_cases() {
    let none: Option<&FilterContext<NoFileProbe>> = None;
    assert!(filter_is_file_or_directory_exists("", none));
    assert!(filter_is_file_or_directory_exists("   \t\n  ", none));
    assert!(filter_is_file_or_directory_exists("/path/*/file", none));
    assert!(filter_is_file_or_directory_exists("/path/*/file/*.txt", none));
    assert!(filter_is_file_or_directory_exists("///", none));
}

#[test]
fn wildcard_path_is_kept_without_asking() {
    let ctx = FilterContext::with_file_exists_fn(|_: &str| false);
    assert!(filter_is_file_or_directory_exists("  /tmp/*.log ", Some(&ctx)));
    assert!(!filter_is_file_or_directory_exists("/tmp/x.log", Some(&ctx)));
}

#[test]
fn tilde_is_expanded_with_the_context_home() {
    let mut ctx = FilterContext::with_file_exists_fn(|p: &str| p == "/home/me/notes");
    assert!(!filter_is_file_or_directory_exists("~/notes", Some(&ctx)));
    ctx.home_dir = Some("/home/me".to_string());
    assert!(filter_is_file_or_directory_exists("~/notes", Some(&ctx)));
}

fn filtered(pattern: &str, filters: Vec<(FilterType, String)>) -> Check {
    let mut c = check("test", pattern, "test", Severity::Medium, Challenge::Math);
    c.filters = filters;
    c
}

#[test]
fn test_custom_filter_with_no_filters() {
    let c = filtered("test", vec![]);
    assert!(check_custom_filter::<NoFileProbe>(&c, "test command", None));
}

#[test]
fn test_custom_filter_with_not_contains() {
    let c = filtered("(delete)", vec![(FilterType::NotContains, "--dry-run".to_string())]);
    assert!(check_custom_filter::<NoFileProbe>(&c, "delete file", None));
    assert!(!check_custom_filter::<NoFileProbe>(&c, "delete --dry-run file", None));
}

#[test]
fn test_custom_filter_with_file_exists() {
    let c = filtered(r".*>(.*)", vec![(FilterType::IsExists, "1".to_string())]);
    assert!(check_custom_filter::<NoFileProbe>(&c, "echo test > /anyfile", None));
    let context = FilterContext::with_file_exists_fn(mock_existing);
    assert!(check_custom_filter(&c, "echo test > /existing", Some(&context)));
    assert!(!check_custom_filter(&c, "echo test > /nonexistent", Some(&context)));
}

#[test]
fn test_custom_filter_edge_cases() {
    let c = filtered("nonexistent", vec![]);
    assert!(check_custom_filter::<NoFileProbe>(&c, "command", None));
    let c = filtered("nonexistent", vec![(FilterType::IsExists, "1".to_string())]);
    assert!(check_custom_filter::<NoFileProbe>(&c, "command", None));
}

#[test]
fn test_custom_filter_with_multiple_filters() {
    let c = filtered(
        r".*>(.*)",
        vec![
            (FilterType::IsExists, "1".to_string()),
            (FilterType::NotContains, "--dry-run".to_string()),
        ],
    );
    let context = FilterContext::with_file_exists_fn(mock_existing);
    assert!(check_custom_filter(&c, "echo test > /existing", Some(&context)));
    assert!(!check_custom_filter(&c, "echo test > /nonexistent", Some(&context)));
    assert!(!check_custom_filter(&c, "echo test --dry-run > /existing", Some(&context)));
}

#[test]
fn test_custom_filter_with_empty_capture_group() {
    let c = filtered(r".*>(.*)", vec![(FilterType::IsExists, "1".to_string())]);
    let context = FilterContext::default();
    assert!(check_custom_filter(&c, "echo test", Some(&context)));
    let context = FilterContext::default();
    assert!(check_custom_filter(&c, "echo test >", Some(&context)));
}

#[test]
fn capture_group_index_parsing() {
    assert_eq!(parse_usize("1"), Some(1));
    assert_eq!(parse_usize("+7"), Some(7));
    assert_eq!(parse_usize("007"), Some(7));
    assert_eq!(parse_usize(""), None);
    assert_eq!(parse_usize("+"), None);
    assert_eq!(parse_usize("-1"), None);
    assert_eq!(parse_usize("invalid"), None);
    assert_eq!(parse_usize("99999999999999999999999"), None);
    assert_eq!(parse_usize(&usize::MAX.to_string()), Some(usize::MAX));
}

#[test]
fn pattern_reports_compile_errors() {
    assert!(Pattern::new("[unclosed").is_err());
    let p = Pattern::new(r"git\s+push").unwrap();
    assert!(p.is_match("git   push -f"));
    assert!(!p.is_match("git pull"));
    let caps = Pattern::new(r"a(b)?(c)").unwrap().captures("xac").unwrap();
    assert_eq!(caps, vec![Some("ac".to_string()), None, Some("c".to_string())]);
}

#[test]
fn test_custom_filter_with_invalid_capture_group() {
    let c = filtered(r".*>(.*)", vec![(FilterType::IsExists, "invalid".to_string())]);
    assert!(check_custom_filter::<NoFileProbe>(&c, "echo test > /path", None));
    assert!(check_custom_filter::<NoFileProbe>(&c, "echo test > /valid/path", None));
    assert!(check_custom_filter::<NoFileProbe>(&c, "echo test > /definitely/valid/path", None));
    assert!(check_custom_filter::<NoFileProbe>(&c, "echo test", None));
}

#[test]
fn existence_filter_reads_the_named_group() {
    // Group 1 is the target after `>`, group 0 the whole command.
    let c = filtered(r"cp (\S+) > (.*)", vec![(FilterType::IsExists, "2".to_string())]);
    let context = FilterContext::with_file_exists_fn(mock_existing);
    assert!(check_custom_filter(&c, "cp a > /existing", Some(&context)));
    assert!(!check_custom_filter(&c, "cp /existing > b", Some(&context)));
}

#[test]
fn validate_with_checks_reports_matches() {
    let checks = test_checks();
    let r = shellfirm::engine::validate::validate_with_checks(&checks, "test-1");
    assert_eq!(r.matches.len(), 2);
    assert!(r.should_challenge);
    assert!(!r.should_deny);
    let r = shellfirm::engine::validate::validate_with_checks(&checks, "unknown command");
    assert!(r.matches.is_empty());
    assert!(!r.should_challenge);
}

#[test]
fn challenge_names_parse_back_in_any_case() {
    for c in [Challenge::Math, Challenge::Word, Challenge::Confirm, Challenge::Enter, Challenge::Yes, Challenge::Block] {
        assert_eq!(Challenge::from_string(&c.to_string()).unwrap(), c);
        assert_eq!(Challenge::from_string(&c.to_string().to_uppercase()).unwrap(), c);
    }
}

#[test]
fn deny_list_blocks_a_matched_check() {
    let checks = test_checks();
    let mut options = ValidationOptions::default();
    options.deny_pattern_ids = vec!["test:command_1_or_2".to_string()];
    let r = validate_with_options(&checks, "test-2", &options);
    assert_eq!(r.matches.len(), 1);
    assert!(r.should_challenge);
    assert!(r.should_deny);
    // A match that is not on the deny list is challenged only.
    options.deny_pattern_ids = vec!["test:disabled".to_string()];
    let r = validate_with_options(&checks, "test-1", &options);
    assert_eq!(r.matches.len(), 2);
    assert!(r.should_challenge);
    assert!(!r.should_deny);
    // Nothing matched: safe, whatever the deny list holds.
    let r = validate_with_options(&checks, "ls", &options);
    assert!(r.matches.is_empty());
    assert!(!r.should_challenge && !r.should_deny);
}

#[test]
fn verdict_on_matches() {
    let checks = test_checks();
    let r = verdict(vec![], &["test:command_1".to_string()]);
    assert!(r.matches.is_empty() && !r.should_challenge && !r.should_deny);
    let r = verdict(checks.clone(), &["nope".to_string(), "test:disabled".to_string()]);
    assert_eq!(r.matches.len(), 3);
    assert!(r.should_challenge && r.should_deny);
    let r = verdict(checks, &[]);
    assert!(r.should_challenge && !r.should_deny);
}

#[test]
fn pattern_groups_are_sorted_and_distinct() {
    let mut checks = test_checks();
    checks.push(check("z:a", "a", "test-1", Severity::Low, Challenge::Yes));
    checks.push(check("b:a", "b", "base", Severity::Low, Challenge::Yes));
    assert_eq!(pattern_groups(&checks), vec!["base", "test-1", "test-2", "test-disabled"]);
    assert!(pattern_groups(&[]).is_empty());
    let ids: Vec<String> = patterns_for_group(&checks, "test-1").into_iter().map(|c| c.id).collect();
    assert_eq!(ids, vec!["test:command_1", "z:a"]);
    assert!(patterns_for_group(&checks, "nope").is_empty());
}
