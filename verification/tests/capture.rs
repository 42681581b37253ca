use orbutils::capture::{
    CaptureAction, CaptureError, CaptureState, CaptureWorker, ReadOutcome, Stream,
};

#[test]
fn new_worker_runs() {
    let worker = CaptureWorker::new(Stream::Stdout);
    assert!(worker.is_running());
    assert!(!worker.is_closed());
    assert!(!worker.is_failed());
    assert_eq!(worker.stream(), Stream::Stdout);
    assert!(matches!(worker.state(), CaptureState::Running));
    assert!(worker.diagnostic().is_none());
}

#[test]
fn stream_names() {
    assert_eq!(Stream::Stdout.name(), "stdout");
    assert_eq!(Stream::Stderr.name(), "stderr");
}

#[test]
fn data_is_passed_on_whole() {
    let mut worker = CaptureWorker::new(Stream::Stderr);
    match worker.on_read(ReadOutcome::Data(b"warning\n".to_vec())) {
        CaptureAction::Append(bytes) => assert_eq!(bytes, b"warning\n".to_vec()),
        CaptureAction::Stop => panic!("a running worker passes its bytes on"),
    }
    assert!(worker.is_running());
}

#[test]
fn zero_length_read_closes_the_worker() {
    let mut worker = CaptureWorker::new(Stream::Stdout);
    assert!(matches!(worker.on_read(ReadOutcome::Data(Vec::new())), CaptureAction::Stop));
    assert!(worker.is_closed());
    assert!(!worker.is_running());
    assert!(worker.diagnostic().is_none());
}

#[test]
fn read_error_fails_the_worker() {
    let mut worker = CaptureWorker::new(Stream::Stdout);
    let action = worker.on_read(ReadOutcome::Failed("broken pipe".to_string()));
    assert!(matches!(action, CaptureAction::Stop));
    assert!(worker.is_failed());
    match worker.state() {
        CaptureState::Failed(CaptureError::Read(reason)) => assert_eq!(reason, "broken pipe"),
        _ => panic!("the worker holds the read error"),
    }
    assert_eq!(worker.diagnostic(), Some("failed to read stdout: broken pipe".to_string()));
}

#[test]
fn read_error_on_stderr_names_stderr() {
    let mut worker = CaptureWorker::new(Stream::Stderr);
    worker.on_read(ReadOutcome::Failed("interrupted".to_string()));
    assert_eq!(worker.diagnostic(), Some("failed to read stderr: interrupted".to_string()));
}

#[test]
fn lock_failure_fails_the_worker() {
    let mut worker = CaptureWorker::new(Stream::Stdout);
    worker.on_lock_failure();
    assert!(worker.is_failed());
    assert!(matches!(worker.state(), CaptureState::Failed(CaptureError::Lock)));
    assert_eq!(worker.diagnostic(), Some("failed to lock stdout output mutex".to_string()));
    let mut other = CaptureWorker::new(Stream::Stderr);
    other.on_lock_failure();
    assert_eq!(other.diagnostic(), Some("failed to lock stderr output mutex".to_string()));
}

#[test]
fn closed_worker_never_runs_again() {
    let mut worker = CaptureWorker::new(Stream::Stdout);
    worker.on_read(ReadOutcome::Data(Vec::new()));
    assert!(matches!(worker.on_read(ReadOutcome::Data(b"late".to_vec())), CaptureAction::Stop));
    assert!(worker.is_closed());
    assert!(matches!(
        worker.on_read(ReadOutcome::Failed("late error".to_string())),
        CaptureAction::Stop
    ));
    assert!(worker.is_closed());
    worker.on_lock_failure();
    assert!(worker.is_closed());
}

#[test]
fn failed_worker_keeps_its_error() {
    let mut worker = CaptureWorker::new(Stream::Stdout);
    worker.on_read(ReadOutcome::Failed("first".to_string()));
    worker.on_read(ReadOutcome::Failed("second".to_string()));
    worker.on_read(ReadOutcome::Data(Vec::new()));
    worker.on_lock_failure();
    assert_eq!(worker.diagnostic(), Some("failed to read stdout: first".to_string()));
}

#[test]
fn worker_resumes_from_a_state() {
    let worker = CaptureWorker::with_state(Stream::Stderr, CaptureState::Closed);
    assert_eq!(worker.stream(), Stream::Stderr);
    assert!(worker.is_closed());
}

#[test]
fn state_moves_on_its_own() {
    let mut state = CaptureState::Running;
    assert!(matches!(state.on_read(ReadOutcome::Data(b"x".to_vec())), CaptureAction::Append(_)));
    assert!(matches!(state, CaptureState::Running));
    state.on_lock_failure();
    assert!(matches!(state, CaptureState::Failed(CaptureError::Lock)));
}
