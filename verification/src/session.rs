//! One session of the relay, from the choice of the child's executable to
//! the parts that run it.
//!
//! Creating the child process is the caller's part. The supervisor decides
//! what to run and what a spawn result means; a session exists only after a
//! spawn that succeeded. The session can be taken apart, one part for each
//! thread, or driven step by step as one value, which shows how the parts
//! act on each other.

use vstd::prelude::*;
use vstd::string::*;
use crate::buffer::OutputBuffer;
use crate::capture::{
    bytes_after_read, bytes_after_reads, state_after_read, state_after_reads, CaptureAction,
    CaptureErrorView, CaptureState, CaptureStateView, CaptureWorker, ReadOutcome, ReadOutcomeView,
    Stream,
};
use crate::event_loop::{
    action_for_event, bytes_to_render, loop_after_drain, loop_after_event,
    loop_after_write_failure, DrainOutcome, DrainOutcomeView, EventAction, EventLoop,
    EventLoopView, LoopStatusView,
};
use crate::history::{
    appended_by, appended_tagged, buffer_after, bytes_from, drained, law_streams_keep_their_order,
    untagged, BufferOp,
};
use crate::input::InputEvent;

verus! {

/// The executable that is run where none is asked for.
pub const DEFAULT_SHELL: &'static str = "sh";

/// What the attempt to create the child process gave.
pub enum SpawnOutcome {
    /// The child runs and its three streams are at hand.
    Spawned,
    /// The child could not be created; the text says why.
    Failed(String),
}

/// The child process could not be created.
pub struct SpawnError {
    shell: String,
    reason: String,
}

/// The line that reports a failed spawn of `shell`.
pub open spec fn spawn_diagnostic(shell: Seq<char>, reason: Seq<char>) -> Seq<char> {
    "failed to execute '"@ + shell + "': "@ + reason + "\n"@
}

impl SpawnError {
    /// The executable that was asked for.
    pub closed spec fn spec_shell(&self) -> Seq<char> {
        self.shell@
    }

    /// Why the spawn failed.
    pub closed spec fn spec_reason(&self) -> Seq<char> {
        self.reason@
    }

    /// The executable that was asked for.
    pub fn shell(&self) -> (shell: &str)
        ensures
            shell@ == self.spec_shell(),
    {
        self.shell.as_str()
    }

    /// Why the spawn failed.
    pub fn reason(&self) -> (reason: &str)
        ensures
            reason@ == self.spec_reason(),
    {
        self.reason.as_str()
    }

    /// The line that reports the error to the operator.
    pub fn message(&self) -> (text: String)
        ensures
            text@ == spawn_diagnostic(self.spec_shell(), self.spec_reason()),
    {
        let mut text = String::from_str("failed to execute '");
        text.append(self.shell.as_str());
        text.append("': ");
        text.append(self.reason.as_str());
        text.append("\n");
        text
    }
}

/// The session as a plain value.
pub struct SessionView {
    pub buffer: Seq<u8>,
    pub stdout: CaptureStateView,
    pub stderr: CaptureStateView,
    pub event_loop: EventLoopView,
}

impl SessionView {
    /// The state of the worker that reads `stream`.
    pub open spec fn worker(self, stream: Stream) -> CaptureStateView {
        match stream {
            Stream::Stdout => self.stdout,
            Stream::Stderr => self.stderr,
        }
    }
}

/// The session right after a spawn: nothing captured, both workers running,
/// the loop running with nothing typed.
pub open spec fn session_at_launch() -> SessionView {
    SessionView {
        buffer: Seq::empty(),
        stdout: CaptureStateView::Running,
        stderr: CaptureStateView::Running,
        event_loop: EventLoopView { pending: Seq::empty(), status: LoopStatusView::Running },
    }
}

/// The session after the worker of `stream` took in one read: that worker
/// moves on, what it passes on is at the end of the buffer, all else is as
/// before.
pub open spec fn session_after_read(
    session: SessionView,
    stream: Stream,
    outcome: ReadOutcomeView,
) -> SessionView {
    let state = state_after_read(session.worker(stream), outcome);
    let buffer = session.buffer + bytes_after_read(session.worker(stream), outcome);
    match stream {
        Stream::Stdout => SessionView { buffer, stdout: state, ..session },
        Stream::Stderr => SessionView { buffer, stderr: state, ..session },
    }
}

/// The session after the loop began an iteration: the buffer is empty and
/// the loop has taken in what it held.
pub open spec fn session_after_drain(session: SessionView) -> SessionView {
    SessionView {
        buffer: Seq::empty(),
        event_loop: loop_after_drain(session.event_loop, DrainOutcomeView::Bytes(session.buffer)),
        ..session
    }
}

/// A zero-length read closes the worker that made it and touches nothing
/// else: the other worker, the buffer and the loop are as before.
pub proof fn law_end_of_stream_closes_one_worker(session: SessionView, stream: Stream)
    requires
        session.worker(stream) is Running,
    ensures
        ({
            let after = session_after_read(session, stream, ReadOutcomeView::Data(Seq::empty()));
            &&& after.stdout == if stream == Stream::Stdout {
                CaptureStateView::Closed
            } else {
                session.stdout
            }
            &&& after.stderr == if stream == Stream::Stderr {
                CaptureStateView::Closed
            } else {
                session.stderr
            }
            &&& after.buffer == session.buffer
            &&& after.event_loop == session.event_loop
        }),
{
}

/// A read that fails stops the worker that made it and touches nothing
/// else: the other worker and the loop are as before, and the buffer keeps
/// what was captured so far.
pub proof fn law_read_failure_stops_one_worker(
    session: SessionView,
    stream: Stream,
    reason: Seq<char>,
)
    requires
        session.worker(stream) is Running,
    ensures
        ({
            let after = session_after_read(session, stream, ReadOutcomeView::Failed(reason));
            let failed = CaptureStateView::Failed(CaptureErrorView::Read(reason));
            &&& after.stdout == if stream == Stream::Stdout {
                failed
            } else {
                session.stdout
            }
            &&& after.stderr == if stream == Stream::Stderr {
                failed
            } else {
                session.stderr
            }
            &&& after.buffer == session.buffer
            &&& after.event_loop == session.event_loop
        }),
{
}

/// One step that touches the shared buffer.
pub enum SessionStep {
    /// The worker of `stream` takes in a read that returned `outcome`.
    Read { stream: Stream, outcome: ReadOutcomeView },
    /// The loop begins an iteration.
    BeginIteration,
}

/// The session after `steps`, taken in order.
pub open spec fn session_after_steps(session: SessionView, steps: Seq<SessionStep>) -> SessionView
    decreases steps.len(),
{
    if steps.len() == 0 {
        session
    } else {
        let before = session_after_steps(session, steps.drop_last());
        match steps.last() {
            SessionStep::Read { stream, outcome } => session_after_read(before, stream, outcome),
            SessionStep::BeginIteration => session_after_drain(before),
        }
    }
}

/// The reads that `steps` report to the worker of `stream`, in order.
pub open spec fn reads_of(steps: Seq<SessionStep>, stream: Stream) -> Seq<ReadOutcomeView>
    decreases steps.len(),
{
    if steps.len() == 0 {
        Seq::empty()
    } else {
        match steps.last() {
            SessionStep::Read { stream: source, outcome } => if source == stream {
                reads_of(steps.drop_last(), stream).push(outcome)
            } else {
                reads_of(steps.drop_last(), stream)
            },
            SessionStep::BeginIteration => reads_of(steps.drop_last(), stream),
        }
    }
}

/// What `steps` do to the shared buffer of a session that starts at
/// `session`: each read appends what its worker passes on, each iteration
/// drains.
pub open spec fn buffer_ops_of(session: SessionView, steps: Seq<SessionStep>) -> Seq<BufferOp>
    decreases steps.len(),
{
    if steps.len() == 0 {
        Seq::empty()
    } else {
        let before = session_after_steps(session, steps.drop_last());
        buffer_ops_of(session, steps.drop_last()).push(
            match steps.last() {
                SessionStep::Read { stream, outcome } => BufferOp::Append {
                    source: stream,
                    chunk: bytes_after_read(before.worker(stream), outcome),
                },
                SessionStep::BeginIteration => BufferOp::Drain,
            },
        )
    }
}

proof fn lemma_session_follows_its_history(steps: Seq<SessionStep>, stream: Stream)
    ensures
        session_after_steps(session_at_launch(), steps).buffer == buffer_after(
            buffer_ops_of(session_at_launch(), steps),
        ),
        session_after_steps(session_at_launch(), steps).worker(stream) == state_after_reads(
            CaptureStateView::Running,
            reads_of(steps, stream),
        ),
        appended_by(buffer_ops_of(session_at_launch(), steps), stream) == bytes_after_reads(
            CaptureStateView::Running,
            reads_of(steps, stream),
        ),
    decreases steps.len(),
{
    let start = session_at_launch();
    if steps.len() > 0 {
        let before = steps.drop_last();
        lemma_session_follows_its_history(before, stream);
        let ops = buffer_ops_of(start, steps);
        assert(ops.drop_last() =~= buffer_ops_of(start, before));
        match steps.last() {
            SessionStep::Read { stream: source, outcome } => {
                if source == stream {
                    assert(reads_of(steps, stream).drop_last() =~= reads_of(before, stream));
                }
            },
            SessionStep::BeginIteration => {},
        }
    }
}

/// From launch on, whatever reads are reported in whatever order and
/// whenever the loop drains, the session relays each stream whole and in
/// order. What the loop has been handed so far, followed by what is still
/// in the buffer, holds for each stream exactly the bytes that its worker
/// passed on: the chunks that were read before the stream ended or failed,
/// joined in the order of the reads. Each worker stands where its own reads
/// alone have taken it.
pub proof fn law_session_relays_each_stream(steps: Seq<SessionStep>)
    ensures
        ({
            let ops = buffer_ops_of(session_at_launch(), steps);
            let end = session_after_steps(session_at_launch(), steps);
            &&& drained(ops) + end.buffer == untagged(appended_tagged(ops))
            &&& bytes_from(appended_tagged(ops), Stream::Stdout) == bytes_after_reads(
                CaptureStateView::Running,
                reads_of(steps, Stream::Stdout),
            )
            &&& bytes_from(appended_tagged(ops), Stream::Stderr) == bytes_after_reads(
                CaptureStateView::Running,
                reads_of(steps, Stream::Stderr),
            )
            &&& end.stdout == state_after_reads(
                CaptureStateView::Running,
                reads_of(steps, Stream::Stdout),
            )
            &&& end.stderr == state_after_reads(
                CaptureStateView::Running,
                reads_of(steps, Stream::Stderr),
            )
        }),
{
    lemma_session_follows_its_history(steps, Stream::Stdout);
    lemma_session_follows_its_history(steps, Stream::Stderr);
    law_streams_keep_their_order(buffer_ops_of(session_at_launch(), steps));
}

/// One session: the shared buffer, the two capture workers and the loop.
pub struct Session {
    buffer: OutputBuffer,
    stdout: CaptureState,
    stderr: CaptureState,
    event_loop: EventLoop,
}

impl View for Session {
    type V = SessionView;

    closed spec fn view(&self) -> SessionView {
        SessionView {
            buffer: self.buffer@,
            stdout: self.stdout@,
            stderr: self.stderr@,
            event_loop: self.event_loop@,
        }
    }
}

impl Session {
    /// Takes the session apart: the buffer to share, the worker for the
    /// child's output, the worker for its error output, and the loop.
    pub fn into_parts(self) -> (parts: (OutputBuffer, CaptureWorker, CaptureWorker, EventLoop))
        ensures
            parts.0@ == self@.buffer,
            parts.1.spec_state() == self@.stdout,
            parts.1.spec_stream() == Stream::Stdout,
            parts.2.spec_state() == self@.stderr,
            parts.2.spec_stream() == Stream::Stderr,
            parts.3@ == self@.event_loop,
    {
        (
            self.buffer,
            CaptureWorker::with_state(Stream::Stdout, self.stdout),
            CaptureWorker::with_state(Stream::Stderr, self.stderr),
            self.event_loop,
        )
    }

    /// Whether the worker of `stream` still reads.
    pub fn is_capturing(&self, stream: Stream) -> (running: bool)
        ensures
            running == (self@.worker(stream) is Running),
    {
        match stream {
            Stream::Stdout => matches!(self.stdout, CaptureState::Running),
            Stream::Stderr => matches!(self.stderr, CaptureState::Running),
        }
    }

    /// Whether the worker of `stream` saw the end of its stream.
    pub fn is_closed(&self, stream: Stream) -> (closed: bool)
        ensures
            closed == (self@.worker(stream) is Closed),
    {
        match stream {
            Stream::Stdout => matches!(self.stdout, CaptureState::Closed),
            Stream::Stderr => matches!(self.stderr, CaptureState::Closed),
        }
    }

    /// Whether the loop goes on.
    pub fn is_running(&self) -> (running: bool)
        ensures
            running == (self@.event_loop.status is Running),
    {
        self.event_loop.is_running()
    }

    /// Hands the result of one read to the worker of `stream` and appends
    /// what the worker passes on.
    pub fn on_read(&mut self, stream: Stream, outcome: ReadOutcome)
        ensures
            final(self)@ == session_after_read(old(self)@, stream, outcome@),
    {
        let action = match stream {
            Stream::Stdout => self.stdout.on_read(outcome),
            Stream::Stderr => self.stderr.on_read(outcome),
        };
        match action {
            CaptureAction::Append(bytes) => {
                self.buffer.append(bytes.as_slice());
            },
            CaptureAction::Stop => {},
        }
    }

    /// Begins an iteration of the loop: empties the buffer and hands back
    /// the bytes to draw, if the loop runs and there are any.
    pub fn begin_iteration(&mut self) -> (render: Option<Vec<u8>>)
        ensures
            final(self)@ == session_after_drain(old(self)@),
            match bytes_to_render(old(self)@.event_loop, DrainOutcomeView::Bytes(old(self)@.buffer)) {
                Some(bytes) => render matches Some(out) && out@ == bytes,
                None => render is None,
            },
    {
        let drained = self.buffer.drain();
        self.event_loop.begin_iteration(DrainOutcome::Bytes(drained))
    }

    /// Hands one input event to the loop.
    pub fn on_event(&mut self, event: InputEvent) -> (action: EventAction)
        ensures
            final(self)@ == (SessionView {
                event_loop: loop_after_event(old(self)@.event_loop, event),
                ..old(self)@
            }),
            action@ == action_for_event(old(self)@.event_loop, event),
    {
        self.event_loop.on_event(event)
    }

    /// Tells the loop that a write to the child failed.
    pub fn on_write_failure(&mut self, reason: String)
        ensures
            final(self)@ == (SessionView {
                event_loop: loop_after_write_failure(old(self)@.event_loop, reason@),
                ..old(self)@
            }),
    {
        self.event_loop.on_write_failure(reason)
    }
}

/// Decides what to run and what becomes of the attempt to run it.
pub struct ProcessSupervisor {
    shell: String,
}

impl View for ProcessSupervisor {
    type V = Seq<char>;

    /// The executable that the supervisor runs.
    closed spec fn view(&self) -> Seq<char> {
        self.shell@
    }
}

impl ProcessSupervisor {
    /// A supervisor for the executable named by `argument`, or for the
    /// default shell where there is none.
    pub fn new(argument: Option<String>) -> (supervisor: Self)
        ensures
            supervisor@ == match argument {
                Some(path) => path@,
                None => DEFAULT_SHELL@,
            },
    {
        match argument {
            Some(path) => ProcessSupervisor { shell: path },
            None => ProcessSupervisor { shell: String::from_str(DEFAULT_SHELL) },
        }
    }

    /// The executable to run.
    pub fn shell(&self) -> (shell: &str)
        ensures
            shell@ == self@,
    {
        self.shell.as_str()
    }

    /// Takes in the result of the spawn. A child that runs gets a fresh
    /// session. A spawn that failed gives the error and nothing else: no
    /// buffer, no worker, no loop.
    pub fn on_spawn(self, outcome: SpawnOutcome) -> (result: Result<Session, SpawnError>)
        ensures
            match outcome {
                SpawnOutcome::Spawned => result matches Ok(session) && session@
                    == session_at_launch(),
                SpawnOutcome::Failed(reason) => result matches Err(error) && error.spec_shell()
                    == self@ && error.spec_reason() == reason@,
            },
    {
        match outcome {
            SpawnOutcome::Spawned => Ok(
                Session {
                    buffer: OutputBuffer::new(),
                    stdout: CaptureState::Running,
                    stderr: CaptureState::Running,
                    event_loop: EventLoop::new(),
                },
            ),
            SpawnOutcome::Failed(reason) => Err(SpawnError { shell: self.shell, reason }),
        }
    }
}

} // verus!
