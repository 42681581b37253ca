use orbutils::event_loop::{
    DrainOutcome, EventAction, EventLoop, LoopError, LoopStatus, POLL_INTERVAL_MS,
};
use orbutils::input::InputEvent;

fn written(action: EventAction) -> Option<String> {
    match action {
        EventAction::Write(line) => Some(line.into_string()),
        _ => None,
    }
}

#[test]
fn poll_interval_is_30_ms() {
    assert_eq!(POLL_INTERVAL_MS, 30);
}

#[test]
fn new_loop_runs() {
    let event_loop = EventLoop::new();
    assert!(event_loop.is_running());
    assert!(!event_loop.has_quit());
    assert!(!event_loop.has_failed());
    assert!(matches!(event_loop.status(), LoopStatus::Running));
    assert!(event_loop.diagnostic().is_none());
}

#[test]
fn drained_bytes_are_rendered() {
    let mut event_loop = EventLoop::new();
    let render = event_loop.begin_iteration(DrainOutcome::Bytes(b"hello\n".to_vec()));
    assert_eq!(render, Some(b"hello\n".to_vec()));
    assert!(event_loop.is_running());
}

#[test]
fn nothing_drained_renders_nothing() {
    let mut event_loop = EventLoop::new();
    assert_eq!(event_loop.begin_iteration(DrainOutcome::Bytes(Vec::new())), None);
    assert!(event_loop.is_running());
}

#[test]
fn lock_failure_ends_the_loop() {
    let mut event_loop = EventLoop::new();
    assert_eq!(event_loop.begin_iteration(DrainOutcome::LockFailed), None);
    assert!(event_loop.has_failed());
    assert!(matches!(event_loop.status(), LoopStatus::Failed(LoopError::Lock)));
    assert_eq!(event_loop.diagnostic(), Some("failed to lock print output mutex".to_string()));
}

#[test]
fn typed_line_is_written_to_the_child() {
    let mut event_loop = EventLoop::new();
    assert!(matches!(event_loop.on_event(InputEvent::Char('l')), EventAction::Continue));
    assert!(matches!(event_loop.on_event(InputEvent::Char('s')), EventAction::Continue));
    match event_loop.on_event(InputEvent::LineComplete) {
        EventAction::Write(line) => assert_eq!(line.to_bytes(), b"ls\n".to_vec()),
        _ => panic!("a completed line is written"),
    }
    assert!(event_loop.is_running());
}

#[test]
fn quit_ends_the_loop_after_rendering() {
    let mut event_loop = EventLoop::new();
    let render = event_loop.begin_iteration(DrainOutcome::Bytes(b"late output".to_vec()));
    assert_eq!(render, Some(b"late output".to_vec()));
    let batch = vec![InputEvent::Char('x'), InputEvent::Quit, InputEvent::LineComplete];
    let mut lines: Vec<String> = Vec::new();
    for event in batch {
        match event_loop.on_event(event) {
            EventAction::Continue => {}
            EventAction::Write(line) => lines.push(line.into_string()),
            EventAction::Stop => break,
        }
    }
    assert!(event_loop.has_quit());
    assert!(!event_loop.is_running());
    assert!(lines.is_empty());
    assert!(event_loop.diagnostic().is_none());
}

#[test]
fn events_before_quit_are_handled() {
    let mut event_loop = EventLoop::new();
    event_loop.on_event(InputEvent::Char('q'));
    assert_eq!(written(event_loop.on_event(InputEvent::LineComplete)), Some("q\n".to_string()));
    assert!(matches!(event_loop.on_event(InputEvent::Quit), EventAction::Stop));
    assert!(event_loop.has_quit());
}

#[test]
fn ended_loop_takes_nothing_in() {
    let mut event_loop = EventLoop::new();
    event_loop.on_event(InputEvent::Char('a'));
    event_loop.on_event(InputEvent::Quit);
    assert!(matches!(event_loop.on_event(InputEvent::LineComplete), EventAction::Stop));
    assert!(matches!(event_loop.on_event(InputEvent::Char('b')), EventAction::Stop));
    assert_eq!(event_loop.begin_iteration(DrainOutcome::Bytes(b"more".to_vec())), None);
    assert_eq!(event_loop.begin_iteration(DrainOutcome::LockFailed), None);
    event_loop.on_write_failure("too late".to_string());
    assert!(event_loop.has_quit());
}

#[test]
fn write_failure_ends_the_loop() {
    let mut event_loop = EventLoop::new();
    event_loop.on_event(InputEvent::Char('l'));
    assert!(written(event_loop.on_event(InputEvent::LineComplete)).is_some());
    event_loop.on_write_failure("broken pipe".to_string());
    assert!(event_loop.has_failed());
    match event_loop.status() {
        LoopStatus::Failed(LoopError::StdinWrite(reason)) => assert_eq!(reason, "broken pipe"),
        _ => panic!("the loop holds the write error"),
    }
    assert_eq!(event_loop.diagnostic(), Some("failed to write stdin: broken pipe".to_string()));
    assert!(matches!(event_loop.on_event(InputEvent::Quit), EventAction::Stop));
    assert!(event_loop.has_failed());
}

#[test]
fn other_events_go_on() {
    let mut event_loop = EventLoop::new();
    assert!(matches!(event_loop.on_event(InputEvent::Other), EventAction::Continue));
    assert!(event_loop.is_running());
}
