use orbutils::capture::{ReadOutcome, Stream};
use orbutils::event_loop::EventAction;
use orbutils::input::InputEvent;
use orbutils::session::{ProcessSupervisor, Session, SpawnOutcome, DEFAULT_SHELL};

fn launched() -> Session {
    match ProcessSupervisor::new(None).on_spawn(SpawnOutcome::Spawned) {
        Ok(session) => session,
        Err(_) => panic!("a child that runs gets a session"),
    }
}

#[test]
fn default_shell_is_sh() {
    assert_eq!(DEFAULT_SHELL, "sh");
    assert_eq!(ProcessSupervisor::new(None).shell(), "sh");
}

#[test]
fn argument_selects_the_shell() {
    let supervisor = ProcessSupervisor::new(Some("/bin/ion".to_string()));
    assert_eq!(supervisor.shell(), "/bin/ion");
}

#[test]
fn failed_spawn_gives_spawn_error_and_no_session() {
    let supervisor = ProcessSupervisor::new(Some("/no/such/shell".to_string()));
    match supervisor.on_spawn(SpawnOutcome::Failed("No such file or directory".to_string())) {
        Ok(_) => panic!("no session without a child"),
        Err(error) => {
            assert_eq!(error.shell(), "/no/such/shell");
            assert_eq!(error.reason(), "No such file or directory");
            assert_eq!(
                error.message(),
                "failed to execute '/no/such/shell': No such file or directory\n"
            );
        }
    }
}

#[test]
fn launched_session_is_fresh() {
    let mut session = launched();
    assert!(session.is_running());
    assert!(session.is_capturing(Stream::Stdout));
    assert!(session.is_capturing(Stream::Stderr));
    assert!(!session.is_closed(Stream::Stdout));
    assert_eq!(session.begin_iteration(), None);
}

#[test]
fn child_that_says_hello_and_exits() {
    let mut session = launched();
    session.on_read(Stream::Stdout, ReadOutcome::Data(b"hello\n".to_vec()));
    session.on_read(Stream::Stdout, ReadOutcome::Data(Vec::new()));
    assert!(session.is_closed(Stream::Stdout));
    assert_eq!(session.begin_iteration(), Some(b"hello\n".to_vec()));
    assert_eq!(session.begin_iteration(), None);
}

#[test]
fn end_of_one_stream_leaves_the_other_alone() {
    let mut session = launched();
    session.on_read(Stream::Stderr, ReadOutcome::Data(b"e1".to_vec()));
    session.on_read(Stream::Stdout, ReadOutcome::Data(Vec::new()));
    assert!(session.is_closed(Stream::Stdout));
    assert!(session.is_capturing(Stream::Stderr));
    assert!(session.is_running());
    session.on_read(Stream::Stderr, ReadOutcome::Data(b"e2".to_vec()));
    session.on_read(Stream::Stdout, ReadOutcome::Data(b"dropped".to_vec()));
    assert_eq!(session.begin_iteration(), Some(b"e1e2".to_vec()));
}

#[test]
fn read_error_on_one_stream_keeps_what_was_captured() {
    let mut session = launched();
    session.on_read(Stream::Stdout, ReadOutcome::Data(b"partial".to_vec()));
    session.on_read(Stream::Stdout, ReadOutcome::Failed("bad descriptor".to_string()));
    assert!(!session.is_capturing(Stream::Stdout));
    assert!(!session.is_closed(Stream::Stdout));
    assert!(session.is_capturing(Stream::Stderr));
    assert!(session.is_running());
    assert_eq!(session.begin_iteration(), Some(b"partial".to_vec()));
}

#[test]
fn session_relays_a_typed_line() {
    let mut session = launched();
    assert!(matches!(session.on_event(InputEvent::Char('l')), EventAction::Continue));
    assert!(matches!(session.on_event(InputEvent::Char('s')), EventAction::Continue));
    match session.on_event(InputEvent::LineComplete) {
        EventAction::Write(line) => assert_eq!(line.to_bytes(), b"ls\n".to_vec()),
        _ => panic!("a completed line is written"),
    }
}

#[test]
fn session_quits_after_rendering() {
    let mut session = launched();
    session.on_read(Stream::Stdout, ReadOutcome::Data(b"bye".to_vec()));
    assert_eq!(session.begin_iteration(), Some(b"bye".to_vec()));
    assert!(matches!(session.on_event(InputEvent::Quit), EventAction::Stop));
    assert!(!session.is_running());
    assert!(session.is_capturing(Stream::Stdout));
}

#[test]
fn session_ends_on_write_failure() {
    let mut session = launched();
    session.on_event(InputEvent::LineComplete);
    session.on_write_failure("broken pipe".to_string());
    assert!(!session.is_running());
}

#[test]
fn session_comes_apart() {
    let mut session = launched();
    session.on_read(Stream::Stderr, ReadOutcome::Data(b"err".to_vec()));
    session.on_read(Stream::Stderr, ReadOutcome::Data(Vec::new()));
    let (mut buffer, stdout, stderr, event_loop) = session.into_parts();
    assert_eq!(buffer.drain(), b"err".to_vec());
    assert_eq!(stdout.stream(), Stream::Stdout);
    assert!(stdout.is_running());
    assert_eq!(stderr.stream(), Stream::Stderr);
    assert!(stderr.is_closed());
    assert!(event_loop.is_running());
}
