use crabmux::session::{parse_count, parse_tmux_sessions, TmuxSession};

#[test]
fn test_parse_tmux_sessions() {
    let output = "main:3:1:1234567890:1234567890\ndev:1:0:1234567891:1234567891\ntest:2:0:1234567892:1234567892";
    let sessions = parse_tmux_sessions(output);

    assert_eq!(sessions.len(), 3);

    assert_eq!(sessions[0].name, "main");
    assert_eq!(sessions[0].windows, 3);
    assert_eq!(sessions[0].attached, true);

    assert_eq!(sessions[1].name, "dev");
    assert_eq!(sessions[1].windows, 1);
    assert_eq!(sessions[1].attached, false);

    assert_eq!(sessions[2].name, "test");
    assert_eq!(sessions[2].windows, 2);
    assert_eq!(sessions[2].attached, false);
}

#[test]
fn test_parse_tmux_sessions_empty() {
    let output = "";
    let sessions = parse_tmux_sessions(output);
    assert_eq!(sessions.len(), 0);
}

#[test]
fn test_parse_tmux_sessions_invalid_format() {
    let output = "invalid:format\nmain:3:1:1234567890:1234567890\nincomplete:data";
    let sessions = parse_tmux_sessions(output);
    assert_eq!(sessions.len(), 1);
    assert_eq!(sessions[0].name, "main");
}

#[test]
fn test_tmux_session_struct() {
    let session = TmuxSession {
        name: "test".to_string(),
        windows: 2,
        attached_clients: 1,
        attached: true,
        created: "1234567890".to_string(),
        activity: "1234567890".to_string(),
        process_info: None,
        resource_info: None,
    };

    assert_eq!(session.name, "test");
    assert_eq!(session.windows, 2);
    assert_eq!(session.attached, true);
}

#[test]
fn test_parse_single_session() {
    let output = "main:3:1:1640995200:1640995200";
    let sessions = parse_tmux_sessions(output);

    assert_eq!(sessions.len(), 1);
    assert_eq!(sessions[0].name, "main");
    assert_eq!(sessions[0].windows, 3);
    assert_eq!(sessions[0].attached, true);
    assert_eq!(sessions[0].created, "1640995200");
    assert_eq!(sessions[0].activity, "1640995200");
}

#[test]
fn test_parse_multiple_sessions() {
    let output = "main:3:1:1640995200:1640995200\ndev:1:0:1640995210:1640995210\ntest:2:0:1640995220:1640995220";
    let sessions = parse_tmux_sessions(output);

    assert_eq!(sessions.len(), 3);

    assert_eq!(sessions[0].name, "main");
    assert_eq!(sessions[0].attached, true);

    assert_eq!(sessions[1].name, "dev");
    assert_eq!(sessions[1].attached, false);

    assert_eq!(sessions[2].name, "test");
    assert_eq!(sessions[2].attached, false);
}

#[test]
fn test_parse_session_with_special_characters() {
    let output = "session-with-dashes:1:0:123:456\nsession_with_underscores:2:1:789:012";
    let sessions = parse_tmux_sessions(output);

    assert_eq!(sessions.len(), 2);
    assert_eq!(sessions[0].name, "session-with-dashes");
    assert_eq!(sessions[1].name, "session_with_underscores");
}

#[test]
fn test_parse_session_with_numeric_names() {
    let output = "123:1:0:456:789\n0:2:1:111:222";
    let sessions = parse_tmux_sessions(output);

    assert_eq!(sessions.len(), 2);
    assert_eq!(sessions[0].name, "123");
    assert_eq!(sessions[1].name, "0");
}

#[test]
fn test_parse_invalid_window_count() {
    let output = "main:invalid:1:123:456";
    let sessions = parse_tmux_sessions(output);

    assert_eq!(sessions.len(), 1);
    assert_eq!(sessions[0].windows, 0);
}

#[test]
fn test_parse_attached_status_variations() {
    let output = "attached:1:1:123:456\ndetached:1:0:123:456\ninvalid:1:2:123:456";
    let sessions = parse_tmux_sessions(output);

    assert_eq!(sessions.len(), 3);
    assert_eq!(sessions[0].attached, true);
    assert_eq!(sessions[1].attached, false);
    // The third field counts attached clients: two clients mean attached.
    assert_eq!(sessions[2].attached, true);
    assert_eq!(sessions[2].attached_clients, 2);
}

#[test]
fn test_parse_empty_lines() {
    let output = "main:1:0:123:456\n\ndev:2:1:789:012\n";
    let sessions = parse_tmux_sessions(output);

    assert_eq!(sessions.len(), 2);
    assert_eq!(sessions[0].name, "main");
    assert_eq!(sessions[1].name, "dev");
}

#[test]
fn test_parse_incomplete_lines() {
    let output = "complete:1:0:123:456\nincomplete:data\nanother:complete:line:1:0:789:012";
    let sessions = parse_tmux_sessions(output);

    assert_eq!(sessions.len(), 2);
    assert_eq!(sessions[0].name, "complete");
    assert_eq!(sessions[1].name, "another");
}

#[test]
fn test_parse_sessions_with_colons_in_names() {
    let output = "name:with:colons:1:0:123:456";
    let sessions = parse_tmux_sessions(output);

    assert_eq!(sessions.len(), 1);
    assert_eq!(sessions[0].name, "name");
}

#[test]
fn test_parse_sessions_with_extra_fields() {
    let output = "main:1:0:123:456:extra:field";
    let sessions = parse_tmux_sessions(output);

    assert_eq!(sessions.len(), 1);
    assert_eq!(sessions[0].name, "main");
    assert_eq!(sessions[0].windows, 1);
    assert_eq!(sessions[0].attached, false);
    assert_eq!(sessions[0].created, "123");
    assert_eq!(sessions[0].activity, "456");
}

#[test]
fn test_parse_very_large_window_count() {
    let output = "main:999999:1:123:456";
    let sessions = parse_tmux_sessions(output);

    assert_eq!(sessions.len(), 1);
    assert_eq!(sessions[0].windows, 999999);
}

#[test]
fn test_parse_negative_window_count() {
    let output = "main:-1:1:123:456";
    let sessions = parse_tmux_sessions(output);

    assert_eq!(sessions.len(), 1);
    assert_eq!(sessions[0].windows, 0);
}

#[test]
fn test_parse_unicode_session_names() {
    let output = "ðŸš€session:1:0:123:456\næµ‹è¯•:2:1:789:012";
    let sessions = parse_tmux_sessions(output);

    assert_eq!(sessions.len(), 2);
    assert_eq!(sessions[0].name, "ðŸš€session");
    assert_eq!(sessions[1].name, "æµ‹è¯•");
}

#[test]
fn test_parse_whitespace_handling() {
    let output = " main:1:0:123:456 \n\t dev:2:1:789:012\t";
    let sessions = parse_tmux_sessions(output);

    assert_eq!(sessions.len(), 2);
    assert_eq!(sessions[0].name, " main");
    assert_eq!(sessions[1].name, "\t dev");
}

#[test]
fn test_parse_windows_with_decimal() {
    let output = "main:1.5:1:123:456";
    let sessions = parse_tmux_sessions(output);

    assert_eq!(sessions.len(), 1);
    assert_eq!(sessions[0].windows, 0);
}

#[test]
fn test_parse_extremely_long_session_name() {
    let long_name = "a".repeat(1000);
    let output = format!("{}:1:0:123:456", long_name);
    let sessions = parse_tmux_sessions(&output);

    assert_eq!(sessions.len(), 1);
    assert_eq!(sessions[0].name, long_name);
}

#[test]
fn test_parse_mixed_line_endings() {
    let output = "unix:1:0:123:456\nwindows:2:1:789:012\r\nmixed:3:0:345:678\r\n";
    let sessions = parse_tmux_sessions(output);

    assert_eq!(sessions.len(), 3);
    assert_eq!(sessions[0].name, "unix");
    assert_eq!(sessions[1].name, "windows");
    assert_eq!(sessions[2].name, "mixed");
}

#[test]
fn parse_main_record_fields() {
    let sessions = parse_tmux_sessions("main:3:1:10:10");
    assert_eq!(sessions.len(), 1);
    assert_eq!(sessions[0].name, "main");
    assert_eq!(sessions[0].windows, 3);
    assert_eq!(sessions[0].attached_clients, 1);
    assert_eq!(sessions[0].attached, true);
    assert_eq!(sessions[0].created, "10");
    assert_eq!(sessions[0].activity, "10");
}

#[test]
fn parse_empty_and_short_inputs() {
    assert_eq!(parse_tmux_sessions("").len(), 0);
    assert_eq!(parse_tmux_sessions("a:b:c").len(), 0);
}

#[test]
fn parse_negative_count_defaults_to_zero() {
    let sessions = parse_tmux_sessions("main:-1:1:10:10");
    assert_eq!(sessions.len(), 1);
    assert_eq!(sessions[0].windows, 0);
    assert_eq!(sessions[0].attached_clients, 1);
}

#[test]
fn parse_result_never_longer_than_line_count() {
    let text = "a:1:0:1:1\nb\n\nc:2:3:4:5\nd:e";
    let sessions = parse_tmux_sessions(text);
    assert!(sessions.len() <= text.lines().count());
    assert_eq!(sessions.len(), 2);
    for s in &sessions {
        assert_eq!(s.attached, s.attached_clients > 0);
    }
}

#[test]
fn parse_keeps_trailing_carriage_return_without_newline() {
    let sessions = parse_tmux_sessions("main:1:0:1:act\r");
    assert_eq!(sessions.len(), 1);
    assert_eq!(sessions[0].activity, "act\r");
}

#[test]
fn parse_count_edge_cases() {
    let chars = |s: &str| s.chars().collect::<Vec<char>>();
    assert_eq!(parse_count(&chars("42")), 42);
    assert_eq!(parse_count(&chars("+7")), 7);
    assert_eq!(parse_count(&chars("+")), 0);
    assert_eq!(parse_count(&chars("")), 0);
    assert_eq!(parse_count(&chars("-0")), 0);
    assert_eq!(parse_count(&chars("1.5")), 0);
    assert_eq!(parse_count(&chars("18446744073709551615")), usize::MAX);
    assert_eq!(parse_count(&chars("18446744073709551616")), 0);
}
