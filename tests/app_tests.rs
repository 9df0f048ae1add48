use crabmux::app::{handle_input, top_key, App, HostField, InputResult, Mode, TopAction, STATUS_TTL_MS};
use crabmux::editor::Key;
use crabmux::entries::{build_entries, ListEntry, Origin, RemoteHostResult};
use crabmux::hosts::{HostConfig, HostRegistry};
use crabmux::session::TmuxSession;

fn session(name: &str, windows: usize, clients: usize, stamp: &str) -> TmuxSession {
    TmuxSession::new(name.to_string(), windows, clients, stamp.to_string(), stamp.to_string())
}

fn host(name: &str, target: &str) -> HostConfig {
    HostConfig { name: name.to_string(), host: target.to_string(), key: None }
}

fn local_app(sessions: Vec<TmuxSession>) -> App {
    App::new(sessions, Vec::new(), HostRegistry::new())
}

fn type_text(app: &mut App, text: &str) {
    for c in text.chars() {
        assert!(matches!(handle_input(app, Key::Char(c)), InputResult::Continue));
    }
}

#[test]
fn test_app_navigation() {
    let mut app = local_app(vec![
        session("session1", 1, 0, "123"),
        session("session2", 2, 0, "124"),
        session("session3", 3, 0, "125"),
    ]);

    assert_eq!(app.selected, 0);
    app.next();
    assert_eq!(app.selected, 1);
    app.next();
    assert_eq!(app.selected, 2);
    app.next();
    assert_eq!(app.selected, 0);

    app.previous();
    assert_eq!(app.selected, 2);
    app.previous();
    assert_eq!(app.selected, 1);
    app.previous();
    assert_eq!(app.selected, 0);
}

#[test]
fn test_app_navigation_empty() {
    let mut app = local_app(vec![]);

    app.next();
    assert_eq!(app.selected, 0);
    app.previous();
    assert_eq!(app.selected, 0);
}

#[test]
fn test_toggle_help() {
    let mut app = local_app(vec![]);

    assert_eq!(app.show_help, false);
    app.toggle_help();
    assert_eq!(app.show_help, true);
    app.toggle_help();
    assert_eq!(app.show_help, false);
}

#[test]
fn test_input_result_variants() {
    let result1 = InputResult::Continue;
    let result2 = InputResult::Quit;
    let result3 = InputResult::AttachSession("test".to_string());

    match result1 {
        InputResult::Continue => {}
        _ => panic!("Expected Continue"),
    }

    match result2 {
        InputResult::Quit => {}
        _ => panic!("Expected Quit"),
    }

    match result3 {
        InputResult::AttachSession(name) => assert_eq!(name, "test"),
        _ => panic!("Expected AttachSession"),
    }
}

#[test]
fn entries_with_offline_host() {
    let local = vec![session("main", 1, 0, "1")];
    let remote = vec![
        RemoteHostResult::reached(host("alpha", "u@alpha"), vec![session("a1", 1, 0, "1"), session("a2", 1, 1, "1")]),
        RemoteHostResult::unreachable(host("beta", "u@beta"), "ssh: connect to host beta: Connection timed out".to_string()),
    ];
    let entries = build_entries(&local, &remote);
    // local header + 1 local row + 2 headers + 2 rows for alpha + 0 for beta
    assert_eq!(entries.len(), 1 + 1 + 2 + 2);
    match &entries[0] {
        ListEntry::Header { title, host } => {
            assert_eq!(title, "Local");
            assert!(host.is_none());
        }
        _ => panic!("expected the local header"),
    }
    assert!(matches!(&entries[1], ListEntry::SessionRow { origin: Origin::Local, session } if session.name == "main"));
    match &entries[2] {
        ListEntry::Header { title, host } => {
            assert_eq!(title, "alpha");
            assert_eq!(host.as_ref().unwrap().host, "u@alpha");
        }
        _ => panic!("expected alpha's header"),
    }
    assert!(matches!(&entries[3], ListEntry::SessionRow { origin: Origin::Remote(h), session } if h.name == "alpha" && session.name == "a1"));
    assert!(matches!(&entries[4], ListEntry::SessionRow { origin: Origin::Remote(_), session } if session.name == "a2"));
    match &entries[5] {
        ListEntry::Header { title, .. } => assert_eq!(title, "beta - offline"),
        _ => panic!("expected beta's header"),
    }
}

#[test]
fn entries_without_remote_hosts_have_no_header() {
    let local = vec![session("one", 1, 0, "1"), session("two", 1, 0, "1")];
    let entries = build_entries(&local, &Vec::new());
    assert_eq!(entries.len(), 2);
    assert!(entries.iter().all(|e| matches!(e, ListEntry::SessionRow { .. })));
}

#[test]
fn navigation_wraps_for_one_entry() {
    let mut app = local_app(vec![session("only", 1, 0, "1")]);
    app.next();
    assert_eq!(app.selected, 0);
    app.previous();
    assert_eq!(app.selected, 0);
}

#[test]
fn navigation_keys_move_selection() {
    let mut app = local_app(vec![session("a", 1, 0, "1"), session("b", 1, 0, "1")]);
    handle_input(&mut app, Key::Down);
    assert_eq!(app.selected, 1);
    handle_input(&mut app, Key::Char('j'));
    assert_eq!(app.selected, 0);
    handle_input(&mut app, Key::Up);
    assert_eq!(app.selected, 1);
    handle_input(&mut app, Key::Char('k'));
    assert_eq!(app.selected, 0);
}

#[test]
fn refresh_clamps_selection() {
    let mut app = local_app(vec![session("a", 1, 0, "1"), session("b", 1, 0, "1"), session("c", 1, 0, "1")]);
    app.next();
    app.next();
    assert_eq!(app.selected, 2);
    app.refresh(vec![session("a", 1, 0, "1")], Vec::new());
    assert_eq!(app.selected, 0);
    app.refresh(vec![session("a", 1, 0, "1"), session("b", 1, 0, "1")], Vec::new());
    app.next();
    assert_eq!(app.selected, 1);
    app.refresh(Vec::new(), Vec::new());
    assert_eq!(app.selected, 0);
    app.refresh(vec![session("x", 1, 0, "1")], vec![RemoteHostResult::reached(host("h", "h"), Vec::new())]);
    assert_eq!(app.selected, 0);
    app.next();
    app.next();
    assert_eq!(app.selected, 2);
    app.refresh(vec![session("x", 1, 0, "1"), session("y", 1, 0, "1")], vec![RemoteHostResult::reached(host("h", "h"), Vec::new())]);
    assert_eq!(app.selected, 2);
}

#[test]
fn kill_without_clients_is_immediate() {
    let mut app = local_app(vec![session("idle", 1, 0, "1")]);
    match handle_input(&mut app, Key::Char('K')) {
        InputResult::KillSession { origin: Origin::Local, name } => assert_eq!(name, "idle"),
        _ => panic!("expected an immediate kill"),
    }
    assert!(matches!(app.mode, Mode::Normal));
}

#[test]
fn kill_with_clients_asks_first() {
    let mut app = local_app(vec![session("busy", 1, 2, "1")]);
    assert!(matches!(handle_input(&mut app, Key::Char('K')), InputResult::Continue));
    match &app.mode {
        Mode::KillConfirm { name, clients, .. } => {
            assert_eq!(name, "busy");
            assert_eq!(*clients, 2);
        }
        _ => panic!("expected the confirmation"),
    }
    assert!(matches!(handle_input(&mut app, Key::Char('x')), InputResult::Continue));
    assert!(matches!(app.mode, Mode::KillConfirm { .. }));
    match handle_input(&mut app, Key::Char('y')) {
        InputResult::KillSession { name, .. } => assert_eq!(name, "busy"),
        _ => panic!("expected the kill after confirmation"),
    }
    assert!(matches!(app.mode, Mode::Normal));
}

#[test]
fn kill_confirmation_declined() {
    let mut app = local_app(vec![session("busy", 1, 1, "1")]);
    handle_input(&mut app, Key::Char('K'));
    assert!(matches!(handle_input(&mut app, Key::Char('n')), InputResult::Continue));
    assert!(matches!(app.mode, Mode::Normal));
}

#[test]
fn kill_on_header_does_nothing() {
    let mut app = App::new(Vec::new(), vec![RemoteHostResult::reached(host("h", "h"), Vec::new())], HostRegistry::new());
    assert!(matches!(handle_input(&mut app, Key::Char('K')), InputResult::Continue));
    assert!(matches!(app.mode, Mode::Normal));
}

#[test]
fn host_add_with_empty_host_stays_open() {
    let mut app = local_app(Vec::new());
    handle_input(&mut app, Key::Char('a'));
    assert!(matches!(app.mode, Mode::NewHost { active: HostField::Host, .. }));
    assert!(matches!(handle_input(&mut app, Key::Enter), InputResult::Continue));
    match &app.mode {
        Mode::NewHost { error: Some(e), .. } => assert!(!e.is_empty()),
        _ => panic!("the form should stay open with an error"),
    }
    assert_eq!(app.hosts.hosts.len(), 0);
}

#[test]
fn host_add_defaults_name_after_last_at() {
    let mut app = local_app(Vec::new());
    handle_input(&mut app, Key::Char('a'));
    type_text(&mut app, "deploy@build@box.example");
    assert!(matches!(handle_input(&mut app, Key::Enter), InputResult::HostAdded));
    assert!(matches!(app.mode, Mode::Normal));
    assert_eq!(app.hosts.hosts.len(), 1);
    assert_eq!(app.hosts.hosts[0].name, "box.example");
    assert_eq!(app.hosts.hosts[0].host, "deploy@build@box.example");
}

#[test]
fn host_add_uses_typed_name_and_refuses_duplicates() {
    let mut app = local_app(Vec::new());
    handle_input(&mut app, Key::Char('a'));
    type_text(&mut app, "me@h1");
    handle_input(&mut app, Key::Tab);
    type_text(&mut app, "web");
    assert!(matches!(handle_input(&mut app, Key::Enter), InputResult::HostAdded));
    assert_eq!(app.hosts.hosts[0].name, "web");
    assert_eq!(app.hosts.hosts[0].host, "me@h1");

    handle_input(&mut app, Key::Char('a'));
    type_text(&mut app, "other@h2");
    handle_input(&mut app, Key::Tab);
    type_text(&mut app, "web");
    assert!(matches!(handle_input(&mut app, Key::Enter), InputResult::Continue));
    assert!(matches!(app.mode, Mode::NewHost { error: Some(_), .. }));
    assert_eq!(app.hosts.hosts.len(), 1);
    handle_input(&mut app, Key::Esc);
    assert!(matches!(app.mode, Mode::Normal));
}

#[test]
fn new_session_popup_flow() {
    let mut app = local_app(vec![session("main", 1, 0, "1")]);
    handle_input(&mut app, Key::Char('n'));
    assert!(matches!(app.mode, Mode::NewSession { target: Origin::Local, .. }));
    type_text(&mut app, "wrk");
    handle_input(&mut app, Key::Left);
    handle_input(&mut app, Key::Left);
    handle_input(&mut app, Key::Char('o'));
    handle_input(&mut app, Key::End);
    type_text(&mut app, "s");
    match handle_input(&mut app, Key::Enter) {
        InputResult::CreateSession { target: Origin::Local, name: Some(name) } => assert_eq!(name, "works"),
        _ => panic!("expected a create request"),
    }
    assert!(matches!(app.mode, Mode::Normal));
}

#[test]
fn new_session_blank_name_asks_for_generated_one() {
    let mut app = local_app(Vec::new());
    handle_input(&mut app, Key::Char('n'));
    type_text(&mut app, "  ");
    assert!(matches!(handle_input(&mut app, Key::Enter), InputResult::CreateSession { name: None, .. }));
}

#[test]
fn new_session_targets_remote_host_under_cursor() {
    let remote = vec![RemoteHostResult::reached(host("alpha", "u@alpha"), vec![session("r", 1, 0, "1")])];
    let mut app = App::new(Vec::new(), remote, HostRegistry::new());
    handle_input(&mut app, Key::Down);
    handle_input(&mut app, Key::Char('n'));
    match &app.mode {
        Mode::NewSession { target: Origin::Remote(h), .. } => assert_eq!(h.name, "alpha"),
        _ => panic!("expected a remote target"),
    }
    assert!(matches!(handle_input(&mut app, Key::Esc), InputResult::Continue));
    assert!(matches!(app.mode, Mode::Normal));
}

#[test]
fn popup_text_editing() {
    let mut app = local_app(Vec::new());
    app.show_new_session_popup();
    app.handle_new_session_input('a');
    app.handle_new_session_input('b');
    app.handle_new_session_input('c');
    handle_input(&mut app, Key::Home);
    handle_input(&mut app, Key::Delete);
    handle_input(&mut app, Key::Right);
    app.backspace_new_session_input();
    app.handle_new_session_input('é');
    match &app.mode {
        Mode::NewSession { input, .. } => {
            assert_eq!(input.text(), "éc");
            assert_eq!(input.cursor, 1);
        }
        _ => panic!("popup should be open"),
    }
    app.hide_new_session_popup();
    assert!(matches!(app.mode, Mode::Normal));
}

#[test]
fn enter_attaches_local_and_remote() {
    let remote = vec![RemoteHostResult::reached(host("alpha", "u@alpha"), vec![session("r", 1, 0, "1")])];
    let mut app = App::new(vec![session("l", 1, 0, "1")], remote, HostRegistry::new());
    assert!(matches!(handle_input(&mut app, Key::Enter), InputResult::Continue));
    handle_input(&mut app, Key::Down);
    match handle_input(&mut app, Key::Enter) {
        InputResult::AttachSession(name) => assert_eq!(name, "l"),
        _ => panic!("expected a local attach"),
    }
    handle_input(&mut app, Key::Down);
    handle_input(&mut app, Key::Down);
    match handle_input(&mut app, Key::Enter) {
        InputResult::AttachRemote(h, name) => {
            assert_eq!(h.host, "u@alpha");
            assert_eq!(name, "r");
        }
        _ => panic!("expected a remote attach"),
    }
}

#[test]
fn ctrl_c_quits_from_any_mode() {
    let mut app = local_app(vec![session("busy", 1, 1, "1")]);
    assert!(matches!(handle_input(&mut app, Key::CtrlC), InputResult::Quit));
    handle_input(&mut app, Key::Char('n'));
    assert!(matches!(handle_input(&mut app, Key::CtrlC), InputResult::Quit));
    handle_input(&mut app, Key::Esc);
    handle_input(&mut app, Key::Char('K'));
    assert!(matches!(app.mode, Mode::KillConfirm { .. }));
    assert!(matches!(handle_input(&mut app, Key::CtrlC), InputResult::Quit));
}

#[test]
fn normal_mode_commands() {
    let mut app = local_app(Vec::new());
    assert!(matches!(handle_input(&mut app, Key::Char('r')), InputResult::Refresh));
    assert!(matches!(handle_input(&mut app, Key::Char('s')), InputResult::SaveSnapshot));
    assert!(matches!(handle_input(&mut app, Key::Char('d')), InputResult::ShowTerminalInfo));
    assert!(matches!(handle_input(&mut app, Key::Char('?')), InputResult::Continue));
    assert!(app.show_help);
    assert!(matches!(handle_input(&mut app, Key::Char('q')), InputResult::Quit));
    assert!(matches!(handle_input(&mut app, Key::Esc), InputResult::Quit));
}

#[test]
fn status_message_expires() {
    let mut app = local_app(Vec::new());
    app.set_status("kill failed".to_string(), 1000);
    app.expire_status(1000 + STATUS_TTL_MS - 1);
    assert_eq!(app.status.as_ref().unwrap().text, "kill failed");
    app.expire_status(1000 + STATUS_TTL_MS);
    assert!(app.status.is_none());
    app.set_status("late".to_string(), u64::MAX - 1);
    assert_eq!(app.status.as_ref().unwrap().expires_at, u64::MAX);
}

#[test]
fn host_add_with_whitespace_host_is_accepted() {
    let mut app = local_app(Vec::new());
    handle_input(&mut app, Key::Char('a'));
    type_text(&mut app, " ");
    assert!(matches!(handle_input(&mut app, Key::Enter), InputResult::HostAdded));
    assert!(matches!(app.mode, Mode::Normal));
    assert_eq!(app.hosts.hosts[0].host, " ");
    assert_eq!(app.hosts.hosts[0].name, " ");
}

#[test]
fn new_session_unicode_blank_name_asks_for_generated_one() {
    let mut app = local_app(Vec::new());
    handle_input(&mut app, Key::Char('n'));
    type_text(&mut app, "\u{b}\u{2003}");
    assert!(matches!(handle_input(&mut app, Key::Enter), InputResult::CreateSession { name: None, .. }));
}

#[test]
fn failed_action_becomes_status() {
    let mut app = local_app(vec![session("busy", 1, 1, "1")]);
    handle_input(&mut app, Key::Char('K'));
    assert!(matches!(handle_input(&mut app, Key::Char('y')), InputResult::KillSession { .. }));
    app.record_outcome(Ok(()), 10);
    assert!(app.status.is_none());
    app.record_outcome(Err("Failed to kill session 'busy'.".to_string()), 10);
    let status = app.status.as_ref().unwrap();
    assert_eq!(status.text, "Failed to kill session 'busy'.");
    assert_eq!(status.expires_at, 10 + STATUS_TTL_MS);
    assert!(matches!(app.mode, Mode::Normal));
}

#[test]
fn overview_keys() {
    assert_eq!(top_key(Key::Char('q')), TopAction::Quit);
    assert_eq!(top_key(Key::Esc), TopAction::Quit);
    assert_eq!(top_key(Key::CtrlC), TopAction::Quit);
    assert_eq!(top_key(Key::Char('r')), TopAction::Refresh);
    assert_eq!(top_key(Key::Char('x')), TopAction::Ignore);
}
