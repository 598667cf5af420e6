use shellfirm::wrap::{
    after_analysis, after_challenge, is_control_passthrough, on_input_byte, start_statement,
    statement_reply, BufferResult, ByteAction, ChallengeResult, Delimiter, InputBuffer,
    StatementAction, StatementStep, ToolTable, WrapperConfig, WrapperToolConfig, WrappersConfig,
};

fn feed_all(buf: &mut InputBuffer, bytes: &[u8]) {
    for &b in bytes {
        buf.feed(b);
    }
}

fn check_delimiter_from_semicolon() {
    let d = Delimiter::from_str_config(";");
    assert_eq!(d, Delimiter::Char(';'));
    assert_eq!(d.trigger_byte(), b';');
}

fn check_delimiter_from_newline_escape() {
    let d = Delimiter::from_str_config("\\n");
    assert_eq!(d, Delimiter::Newline);
    assert_eq!(d.trigger_byte(), b'\n');
}

fn check_delimiter_from_literal_newline() {
    let d = Delimiter::from_str_config("\n");
    assert_eq!(d, Delimiter::Newline);
}

fn check_basic_semicolon_delimiter() {
    let mut buf = InputBuffer::new(Delimiter::Char(';'));
    assert_eq!(buf.feed(b'S'), BufferResult::Buffered);
    assert_eq!(buf.feed(b'E'), BufferResult::Buffered);
    assert_eq!(buf.feed(b'L'), BufferResult::Buffered);
    assert_eq!(buf.feed(b';'), BufferResult::Statement("SEL".to_string()));
}

fn check_delimiter_inside_single_quotes_not_split() {
    let mut buf = InputBuffer::new(Delimiter::Char(';'));
    feed_all(&mut buf, b"INSERT INTO t VALUES('");
    assert_eq!(buf.feed(b';'), BufferResult::Buffered);
    buf.feed(b'\'');
    buf.feed(b')');
    assert_eq!(
        buf.feed(b';'),
        BufferResult::Statement("INSERT INTO t VALUES(';')".to_string())
    );
}

fn check_delimiter_inside_double_quotes_not_split() {
    let mut buf = InputBuffer::new(Delimiter::Char(';'));
    feed_all(&mut buf, b"SELECT \"col;name\" FROM t");
    assert_eq!(
        buf.feed(b';'),
        BufferResult::Statement("SELECT \"col;name\" FROM t".to_string())
    );
}

fn check_escaped_quote_handling() {
    let mut buf = InputBuffer::new(Delimiter::Char(';'));
    feed_all(&mut buf, b"SELECT \"col\\");
    buf.feed(b'"');
    feed_all(&mut buf, b"name\" FROM t");
    assert_eq!(
        buf.feed(b';'),
        BufferResult::Statement("SELECT \"col\\\"name\" FROM t".to_string())
    );
}

fn check_multiple_statements() {
    let mut buf = InputBuffer::new(Delimiter::Char(';'));
    feed_all(&mut buf, b"SELECT 1");
    assert_eq!(buf.feed(b';'), BufferResult::Statement("SELECT 1".to_string()));
    feed_all(&mut buf, b" DROP TABLE x");
    assert_eq!(buf.feed(b';'), BufferResult::Statement(" DROP TABLE x".to_string()));
}

fn check_newline_delimiter() {
    let mut buf = InputBuffer::new(Delimiter::Newline);
    feed_all(&mut buf, b"FLUSHALL");
    assert_eq!(buf.feed(b'\n'), BufferResult::Statement("FLUSHALL".to_string()));
}

fn check_empty_statement() {
    let mut buf = InputBuffer::new(Delimiter::Char(';'));
    assert_eq!(buf.feed(b';'), BufferResult::Statement(String::new()));
}

fn check_whitespace_only_statement() {
    let mut buf = InputBuffer::new(Delimiter::Char(';'));
    buf.feed(b' ');
    buf.feed(b' ');
    assert_eq!(buf.feed(b';'), BufferResult::Statement("  ".to_string()));
}

fn check_multi_line_sql() {
    let mut buf = InputBuffer::new(Delimiter::Char(';'));
    feed_all(&mut buf, b"SELECT *\nFROM users\nWHERE id = 1");
    assert_eq!(
        buf.feed(b';'),
        BufferResult::Statement("SELECT *\nFROM users\nWHERE id = 1".to_string())
    );
}

fn check_reset_clears_buffer() {
    let mut buf = InputBuffer::new(Delimiter::Char(';'));
    buf.feed(b'A');
    buf.feed(b'B');
    buf.reset();
    buf.feed(b'C');
    assert_eq!(buf.feed(b';'), BufferResult::Statement("C".to_string()));
}

fn check_known_tool_gets_builtin_defaults() {
    let cfg = WrapperConfig::resolve("psql", None, &WrappersConfig::default());
    assert_eq!(cfg.delimiter, Delimiter::Char(';'));
    assert_eq!(cfg.check_groups, vec!["database"]);
    assert_eq!(cfg.display_name, "psql");
}

fn check_redis_cli_gets_newline_delimiter() {
    let cfg = WrapperConfig::resolve("redis-cli", None, &WrappersConfig::default());
    assert_eq!(cfg.delimiter, Delimiter::Newline);
    assert_eq!(cfg.check_groups, vec!["database"]);
}

fn check_user_override_takes_precedence() {
    let mut tools = ToolTable::new();
    tools.insert(
        "psql".to_string(),
        WrapperToolConfig {
            delimiter: "\\n".to_string(),
            check_groups: vec!["custom".to_string()],
        },
    );
    let user_cfg = WrappersConfig { tools };
    let cfg = WrapperConfig::resolve("psql", None, &user_cfg);
    assert_eq!(cfg.delimiter, Delimiter::Newline);
    assert_eq!(cfg.check_groups, vec!["custom"]);
}

fn check_cli_delimiter_overrides_all() {
    let cfg = WrapperConfig::resolve("psql", Some("\\n"), &WrappersConfig::default());
    assert_eq!(cfg.delimiter, Delimiter::Newline);
}

fn check_unknown_tool_gets_generic_fallback() {
    let cfg = WrapperConfig::resolve("some-tool", None, &WrappersConfig::default());
    assert_eq!(cfg.delimiter, Delimiter::Newline);
    assert!(cfg.check_groups.is_empty());
}

fn check_path_in_program_name_uses_basename() {
    let cfg = WrapperConfig::resolve("/usr/bin/psql", None, &WrappersConfig::default());
    assert_eq!(cfg.display_name, "psql");
    assert_eq!(cfg.delimiter, Delimiter::Char(';'));
}

fn check_cr_is_control_passthrough() {
    assert!(is_control_passthrough(0x0D));
}

#[test]
fn wrap_delimiter_from_semicolon() {
    check_delimiter_from_semicolon();
}

#[test]
fn common_delimiter_from_semicolon() {
    check_delimiter_from_semicolon();
}

#[test]
fn wrap_delimiter_from_newline_escape() {
    check_delimiter_from_newline_escape();
}

#[test]
fn common_delimiter_from_newline_escape() {
    check_delimiter_from_newline_escape();
}

#[test]
fn wrap_delimiter_from_literal_newline() {
    check_delimiter_from_literal_newline();
}

#[test]
fn common_delimiter_from_literal_newline() {
    check_delimiter_from_literal_newline();
}

#[test]
fn wrap_basic_semicolon_delimiter() {
    check_basic_semicolon_delimiter();
}

#[test]
fn common_basic_semicolon_delimiter() {
    check_basic_semicolon_delimiter();
}

#[test]
fn wrap_delimiter_inside_single_quotes_not_split() {
    check_delimiter_inside_single_quotes_not_split();
}

#[test]
fn common_delimiter_inside_single_quotes_not_split() {
    check_delimiter_inside_single_quotes_not_split();
}

#[test]
fn wrap_delimiter_inside_double_quotes_not_split() {
    check_delimiter_inside_double_quotes_not_split();
}

#[test]
fn common_delimiter_inside_double_quotes_not_split() {
    check_delimiter_inside_double_quotes_not_split();
}

#[test]
fn wrap_escaped_quote_handling() {
    check_escaped_quote_handling();
}

#[test]
fn common_escaped_quote_handling() {
    check_escaped_quote_handling();
}

#[test]
fn wrap_multiple_statements() {
    check_multiple_statements();
}

#[test]
fn common_multiple_statements() {
    check_multiple_statements();
}

#[test]
fn wrap_newline_delimiter() {
    check_newline_delimiter();
}

#[test]
fn common_newline_delimiter() {
    check_newline_delimiter();
}

#[test]
fn wrap_empty_statement() {
    check_empty_statement();
}

#[test]
fn common_empty_statement() {
    check_empty_statement();
}

#[test]
fn wrap_whitespace_only_statement() {
    check_whitespace_only_statement();
}

#[test]
fn common_whitespace_only_statement() {
    check_whitespace_only_statement();
}

#[test]
fn wrap_multi_line_sql() {
    check_multi_line_sql();
}

#[test]
fn common_multi_line_sql() {
    check_multi_line_sql();
}

#[test]
fn wrap_reset_clears_buffer() {
    check_reset_clears_buffer();
}

#[test]
fn common_reset_clears_buffer() {
    check_reset_clears_buffer();
}

#[test]
fn wrap_known_tool_gets_builtin_defaults() {
    check_known_tool_gets_builtin_defaults();
}

#[test]
fn common_known_tool_gets_builtin_defaults() {
    check_known_tool_gets_builtin_defaults();
}

#[test]
fn wrap_redis_cli_gets_newline_delimiter() {
    check_redis_cli_gets_newline_delimiter();
}

#[test]
fn common_redis_cli_gets_newline_delimiter() {
    check_redis_cli_gets_newline_delimiter();
}

#[test]
fn wrap_user_override_takes_precedence() {
    check_user_override_takes_precedence();
}

#[test]
fn common_user_override_takes_precedence() {
    check_user_override_takes_precedence();
}

#[test]
fn wrap_cli_delimiter_overrides_all() {
    check_cli_delimiter_overrides_all();
}

#[test]
fn common_cli_delimiter_overrides_all() {
    check_cli_delimiter_overrides_all();
}

#[test]
fn wrap_unknown_tool_gets_generic_fallback() {
    check_unknown_tool_gets_generic_fallback();
}

#[test]
fn common_unknown_tool_gets_generic_fallback() {
    check_unknown_tool_gets_generic_fallback();
}

#[test]
fn wrap_path_in_program_name_uses_basename() {
    check_path_in_program_name_uses_basename();
}

#[test]
fn common_path_in_program_name_uses_basename() {
    check_path_in_program_name_uses_basename();
}

#[test]
fn wrap_cr_is_control_passthrough() {
    check_cr_is_control_passthrough();
}

#[test]
fn common_cr_is_control_passthrough() {
    check_cr_is_control_passthrough();
}

#[test]
fn control_passthrough_table() {
    let expected: Vec<u8> = vec![
        0x01, 0x02, 0x03, 0x04, 0x05, 0x06, 0x09, 0x0D, 0x0E, 0x0F, 0x10, 0x12, 0x13, 0x14, 0x15,
        0x16, 0x17, 0x1A, 0x1B, 0x7F,
    ];
    for b in 0u8..=255 {
        assert_eq!(is_control_passthrough(b), expected.contains(&b), "byte {b:#x}");
    }
}

#[test]
fn delimiter_fallbacks() {
    assert_eq!(Delimiter::from_str_config("|"), Delimiter::Char('|'));
    assert_eq!(Delimiter::from_str_config(";;"), Delimiter::Char(';'));
    assert_eq!(Delimiter::from_str_config(""), Delimiter::Char(';'));
    assert_eq!(Delimiter::from_str_config("é"), Delimiter::Char(';'));
}

#[test]
fn tool_table_insert_replaces() {
    let mut t = ToolTable::new();
    t.insert("mysql".to_string(), WrapperToolConfig { delimiter: ";".into(), check_groups: vec![] });
    t.insert("mysql".to_string(), WrapperToolConfig { delimiter: "|".into(), check_groups: vec!["x".into()] });
    assert_eq!(t.get("mysql").unwrap().delimiter, "|");
    assert!(t.get("psql").is_none());
}

#[test]
fn empty_user_groups_fall_back_to_builtin() {
    let mut tools = ToolTable::new();
    tools.insert("psql".to_string(), WrapperToolConfig { delimiter: "|".into(), check_groups: vec![] });
    let cfg = WrapperConfig::resolve("psql", None, &WrappersConfig { tools });
    assert_eq!(cfg.delimiter, Delimiter::Char('|'));
    assert_eq!(cfg.check_groups, vec!["database"]);
}

#[test]
fn invalid_utf8_statement_is_decoded_lossily() {
    let mut buf = InputBuffer::new(Delimiter::Char(';'));
    buf.feed(0xff);
    assert_eq!(buf.feed(b';'), BufferResult::Statement("\u{fffd}".to_string()));
}

#[test]
fn input_bytes_route_to_child_or_analysis() {
    let mut buf = InputBuffer::new(Delimiter::Char(';'));
    for &b in b"DROP TABLE t" {
        assert_eq!(on_input_byte(&mut buf, b), ByteAction::Forward(b));
    }
    // Ctrl-A goes straight through and keeps the statement.
    assert_eq!(on_input_byte(&mut buf, 0x01), ByteAction::Forward(0x01));
    assert_eq!(on_input_byte(&mut buf, b';'), ByteAction::Analyse("DROP TABLE t".to_string()));
    // Ctrl-C drops what was typed.
    on_input_byte(&mut buf, b'x');
    assert_eq!(on_input_byte(&mut buf, 0x03), ByteAction::Forward(0x03));
    assert_eq!(on_input_byte(&mut buf, b';'), ByteAction::Analyse(String::new()));
    assert_eq!(statement_reply(Delimiter::Char(';'), StatementAction::Forward), b';');
    assert_eq!(statement_reply(Delimiter::Newline, StatementAction::Forward), b'\n');
    assert_eq!(statement_reply(Delimiter::Char(';'), StatementAction::Block), 0x03);
}

#[test]
fn statement_handling_fails_open() {
    assert_eq!(start_statement("  \t "), StatementStep::Done(StatementAction::Forward));
    assert_eq!(start_statement("  DROP TABLE t "), StatementStep::Analyze("DROP TABLE t".to_string()));
    assert_eq!(after_analysis(None), StatementStep::Done(StatementAction::Forward));
    assert_eq!(after_analysis(Some(0)), StatementStep::Done(StatementAction::Forward));
    assert_eq!(after_analysis(Some(2)), StatementStep::Challenge);
    assert_eq!(after_challenge(None), StatementAction::Forward);
    assert_eq!(after_challenge(Some(ChallengeResult::Passed)), StatementAction::Forward);
    assert_eq!(after_challenge(Some(ChallengeResult::Denied)), StatementAction::Block);
}

#[test]
fn statements_keep_every_byte_fed_since_the_last() {
    let mut buf = InputBuffer::new(Delimiter::Char(';'));
    let mut out = Vec::new();
    for &b in b"a\\;b 'c;d' \"e\\\";f\";g;" {
        if let BufferResult::Statement(s) = buf.feed(b) {
            out.push(s);
        }
    }
    assert_eq!(out, vec!["a\\;b 'c;d' \"e\\\";f\"".to_string(), "g".to_string()]);
}
