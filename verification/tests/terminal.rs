//! The session registry and the forwarding contract, exercised end to end.

use claudio::errors::TerminalError;
use claudio::forward::{forward_stream, ForwardEvent, Forwarder};
use claudio::registry::SessionManager;
use claudio::session::Session;
use claudio::spawn::{plan_spawn, reader_step, ReadEvent, ReaderStep};

fn created_id(m: &mut SessionManager) -> String {
    m.create_session().expect("session creation failed").id
}

#[test]
fn test_create_makes_active_and_lists() {
    let mut m = SessionManager::new();
    let info = m.create_session().expect("session creation failed");
    assert!(info.is_active);
    assert_eq!(info.id.len(), 36);
    let expected_title = format!("Session {}", &info.id[..8]);
    assert_eq!(info.title, expected_title);
    let listed = m.list_sessions();
    assert_eq!(listed.len(), 1);
    assert_eq!(listed[0].id, info.id);
    assert!(listed[0].is_active);
    assert_eq!(listed[0].created_at, info.created_at);
    assert_eq!(m.get_active_session_id(), Some(info.id.clone()));
    assert_eq!(m.session_count(), 1);
}

#[test]
fn test_list_matches_creates_minus_kills() {
    let mut m = SessionManager::new();
    let a = created_id(&mut m);
    let b = created_id(&mut m);
    let c = created_id(&mut m);
    assert!(m.kill_session(&b).is_ok());
    let mut listed: Vec<String> = m.list_sessions().into_iter().map(|i| i.id).collect();
    let mut expected = vec![a.clone(), c.clone()];
    listed.sort();
    expected.sort();
    assert_eq!(listed, expected);
    let d = created_id(&mut m);
    assert!(m.kill_session(&b).is_err());
    let mut listed: Vec<String> = m.list_sessions().into_iter().map(|i| i.id).collect();
    let mut expected = vec![a, c, d];
    listed.sort();
    expected.sort();
    assert_eq!(listed, expected);
}

#[test]
fn test_kill_active_reassigns() {
    let mut m = SessionManager::new();
    let a = created_id(&mut m);
    let b = created_id(&mut m);
    assert_eq!(m.get_active_session_id(), Some(b.clone()));
    assert!(m.kill_session(&b).is_ok());
    let active = m.get_active_session().expect("a live session should be active");
    assert_eq!(active.id, a);
    assert!(m.kill_session(&a).is_ok());
    assert!(m.get_active_session().is_none());
    assert_eq!(m.get_active_session_id(), None);
    assert_eq!(m.session_count(), 0);
}

#[test]
fn test_set_active_unknown_not_found() {
    let mut m = SessionManager::new();
    let a = created_id(&mut m);
    let unknown = String::from("no-such-session");
    let err = m.set_active_session(&unknown).expect_err("unknown id must fail");
    assert!(err.is_not_found());
    assert_eq!(m.get_active_session_id(), Some(a.clone()));
    assert!(m.set_active_session(&a).is_ok());
    assert_eq!(m.get_active_session_id(), Some(a));
}

#[test]
fn test_two_sessions_independent() {
    let mut m = SessionManager::new();
    let a = created_id(&mut m);
    let b = created_id(&mut m);
    assert_ne!(a, b);
    assert!(m.kill_session(&a).is_ok());
    let still = m.get_session(&b).expect("second session must survive");
    assert_eq!(still.id, b);
    assert!(m.get_session(&a).is_none());
}

#[test]
fn test_resize_keeps_identity() {
    let mut m = SessionManager::new();
    let a = created_id(&mut m);
    let before: Vec<String> = m.list_sessions().into_iter().map(|i| i.id).collect();
    // A resize reaches the registry only through this shared lookup; the
    // registry itself is untouched by it.
    let handle = m.get_session(&a).expect("session must be live");
    assert_eq!(handle.id, a);
    let handle_again = m.get_session(&a).expect("session must remain live");
    assert_eq!(handle_again.id, a);
    let after: Vec<String> = m.list_sessions().into_iter().map(|i| i.id).collect();
    assert_eq!(before, after);
    assert_eq!(m.get_active_session_id(), Some(a));
}

#[test]
fn test_create_with_known_id() {
    let mut m = SessionManager::new();
    let info = m
        .create_session_with_id(String::from("alpha-12345"), 42)
        .expect("fresh identifier must be accepted");
    assert_eq!(info.id, "alpha-12345");
    assert_eq!(info.title, "Session alpha-12");
    assert_eq!(info.created_at, 42);
    assert!(info.is_active);
}

#[test]
fn test_identifiers_never_reused() {
    let mut m = SessionManager::new();
    let id = String::from("reused-id");
    assert!(m.create_session_with_id(id.clone(), 1).is_ok());
    assert!(m.kill_session(&id).is_ok());
    assert_eq!(m.session_count(), 0);
    match m.create_session_with_id(id.clone(), 2) {
        Ok(_) => panic!("a killed identifier must never come back"),
        Err(err) => assert!(!err.is_not_found()),
    }
    assert!(m.get_session(&id).is_none());
}

#[test]
fn test_kill_unknown_message() {
    let mut m = SessionManager::new();
    let unknown = String::from("ghost");
    let err = m.kill_session(&unknown).expect_err("unknown id must fail");
    assert!(err.is_not_found());
    assert_eq!(err.message(), "Session ghost not found");
}

#[test]
fn test_session_title_prefix() {
    let s = Session::new(String::from("0123456789abcdef"), 7);
    assert_eq!(s.title, "Session 01234567");
    assert_eq!(s.created_at, 7);
    let short = Session::new(String::from("abc"), 1);
    assert_eq!(short.title, "Session abc");
    let info = short.info(true);
    assert_eq!(info.id, "abc");
    assert!(info.is_active);
}

#[test]
fn test_forward_stream_order() {
    let chunks = vec![b"he".to_vec(), b"llo".to_vec(), b"!".to_vec()];
    let events = forward_stream(String::from("sid-1"), chunks);
    assert_eq!(events.len(), 4);
    let mut collected: Vec<u8> = Vec::new();
    for ev in &events[..3] {
        match ev {
            ForwardEvent::Output(o) => {
                assert_eq!(o.session_id, "sid-1");
                collected.extend_from_slice(&o.data);
            }
            ForwardEvent::Exit(_) => panic!("exit before the stream ended"),
        }
    }
    assert_eq!(collected, b"hello!".to_vec());
}

#[test]
fn test_forward_stream_single_exit() {
    let events = forward_stream(String::from("sid-2"), vec![b"data".to_vec()]);
    let exits = events
        .iter()
        .filter(|e| matches!(e, ForwardEvent::Exit(_)))
        .count();
    assert_eq!(exits, 1);
    match events.last().expect("events cannot be empty") {
        ForwardEvent::Exit(x) => {
            assert_eq!(x.session_id, "sid-2");
            assert_eq!(x.code, 0);
        }
        ForwardEvent::Output(_) => panic!("the last event must be the exit"),
    }
}

#[test]
fn test_forwarder_step() {
    let mut f = Forwarder::new(String::from("s"));
    assert!(!f.is_ended());
    match f.step(Some(b"x".to_vec())) {
        ForwardEvent::Output(o) => {
            assert_eq!(o.data, b"x".to_vec());
            assert_eq!(o.session_id, "s");
        }
        ForwardEvent::Exit(_) => panic!("a chunk must become an output event"),
    }
    assert!(!f.is_ended());
    match f.step(None) {
        ForwardEvent::Exit(x) => assert_eq!(x.code, 0),
        ForwardEvent::Output(_) => panic!("stream end must become the exit event"),
    }
    assert!(f.is_ended());
}

#[test]
fn test_echo_scenario() {
    let mut m = SessionManager::new();
    let info = m.create_session().expect("session creation failed");
    assert!(info.is_active);
    let listed = m.list_sessions();
    assert_eq!(listed.len(), 1);
    assert!(listed[0].is_active);
    let events = forward_stream(info.id.clone(), vec![b"hello\r\n".to_vec()]);
    let mut bytes: Vec<u8> = Vec::new();
    let mut exits = 0;
    for ev in &events {
        match ev {
            ForwardEvent::Output(o) => bytes.extend_from_slice(&o.data),
            ForwardEvent::Exit(x) => {
                exits += 1;
                assert_eq!(x.session_id, info.id);
            }
        }
    }
    assert!(String::from_utf8(bytes).expect("valid text").contains("hello"));
    assert_eq!(exits, 1);
    assert!(m.kill_session(&info.id).is_ok());
    assert_eq!(m.list_sessions().len(), 0);
    assert_eq!(m.get_active_session_id(), None);
}

#[test]
fn test_plan_spawn_command() {
    let p = plan_spawn(Some("echo hello"), Some("/bin/bash"), Some("/home/me"));
    assert_eq!(p.program, "sh");
    assert_eq!(p.args.len(), 2);
    assert_eq!(p.args[0], "-c");
    assert_eq!(p.args[1], "echo hello");
    assert_eq!(p.env.len(), 2);
    assert_eq!(p.env[0].name, "TERM");
    assert_eq!(p.env[0].value, "xterm-256color");
    assert_eq!(p.env[1].name, "COLORTERM");
    assert_eq!(p.env[1].value, "truecolor");
    assert_eq!(p.cwd.as_deref(), Some("/home/me"));
}

#[test]
fn test_plan_spawn_login_shell() {
    let p = plan_spawn(None, Some("/bin/bash"), None);
    assert_eq!(p.program, "/bin/bash");
    assert_eq!(p.args, vec![String::from("-l")]);
    assert_eq!(p.cwd, None);
    let fallback = plan_spawn(None, None, None);
    assert_eq!(fallback.program, "/bin/zsh");
}

#[test]
fn test_reader_step_decisions() {
    match reader_step(ReadEvent::Chunk(b"out".to_vec())) {
        ReaderStep::Forward(d) => assert_eq!(d, b"out".to_vec()),
        ReaderStep::Stop => panic!("a non-empty chunk must be forwarded"),
    }
    assert!(matches!(reader_step(ReadEvent::Chunk(Vec::new())), ReaderStep::Stop));
    assert!(matches!(reader_step(ReadEvent::Failure), ReaderStep::Stop));
}

#[test]
fn test_error_kinds() {
    let e = TerminalError::Io(String::from("write failed"));
    assert!(!e.is_not_found());
    assert_eq!(e.message(), "write failed");
    let e = TerminalError::ResourceAllocation(String::from("no pty"));
    assert!(!e.is_not_found());
    assert_eq!(e.message(), "no pty");
}
