//! The life of one capture worker: it reads one stream of the child until
//! the stream ends or fails, and passes on every chunk it gets.
//!
//! The blocking read and the lock around the shared buffer belong to the
//! caller. After each read the caller reports what came back and carries out
//! the action it is told.
//!
//! A worker is never stopped from outside. It ends when its stream ends or
//! fails, which may be after the display loop has ended: the caller lets it
//! run until then.

use vstd::prelude::*;
use vstd::string::*;

verus! {

/// Number of bytes a capture worker asks its stream for in one read.
pub const CHUNK_SIZE: usize = 4096;

/// The two output streams of the child process.
#[derive(Clone, Copy, PartialEq, Eq, Structural, Debug)]
pub enum Stream {
    Stdout,
    Stderr,
}

impl Stream {
    /// The name of the stream as it appears in diagnostics.
    pub open spec fn spec_name(self) -> Seq<char> {
        match self {
            Stream::Stdout => "stdout"@,
            Stream::Stderr => "stderr"@,
        }
    }

    /// The name of the stream as it appears in diagnostics.
    pub fn name(self) -> (name: &'static str)
        ensures
            name@ == self.spec_name(),
    {
        match self {
            Stream::Stdout => "stdout",
            Stream::Stderr => "stderr",
        }
    }
}

/// What one read on a stream returned.
pub enum ReadOutcome {
    /// The read succeeded with these bytes. No bytes at all means that the
    /// stream has ended.
    Data(Vec<u8>),
    /// The read failed; the text says why.
    Failed(String),
}

/// A `ReadOutcome` as a plain value.
pub enum ReadOutcomeView {
    Data(Seq<u8>),
    Failed(Seq<char>),
}

impl View for ReadOutcome {
    type V = ReadOutcomeView;

    open spec fn view(&self) -> ReadOutcomeView {
        match self {
            ReadOutcome::Data(bytes) => ReadOutcomeView::Data(bytes@),
            ReadOutcome::Failed(reason) => ReadOutcomeView::Failed(reason@),
        }
    }
}

/// Why a worker stopped before its stream ended.
pub enum CaptureError {
    /// A read on the stream failed; the text says why.
    Read(String),
    /// The lock around the shared buffer could not be taken.
    Lock,
}

/// A `CaptureError` as a plain value.
pub enum CaptureErrorView {
    Read(Seq<char>),
    Lock,
}

impl View for CaptureError {
    type V = CaptureErrorView;

    open spec fn view(&self) -> CaptureErrorView {
        match self {
            CaptureError::Read(reason) => CaptureErrorView::Read(reason@),
            CaptureError::Lock => CaptureErrorView::Lock,
        }
    }
}

/// Where a worker stands. `Closed` and `Failed` are final.
pub enum CaptureState {
    Running,
    Closed,
    Failed(CaptureError),
}

/// A `CaptureState` as a plain value.
pub enum CaptureStateView {
    Running,
    Closed,
    Failed(CaptureErrorView),
}

impl View for CaptureState {
    type V = CaptureStateView;

    open spec fn view(&self) -> CaptureStateView {
        match self {
            CaptureState::Running => CaptureStateView::Running,
            CaptureState::Closed => CaptureStateView::Closed,
            CaptureState::Failed(error) => CaptureStateView::Failed(error@),
        }
    }
}

/// What the caller does after reporting a read.
pub enum CaptureAction {
    /// Append these bytes to the shared buffer under its lock, then read
    /// again.
    Append(Vec<u8>),
    /// Leave the read loop.
    Stop,
}

/// A `CaptureAction` as a plain value.
pub enum CaptureActionView {
    Append(Seq<u8>),
    Stop,
}

impl View for CaptureAction {
    type V = CaptureActionView;

    open spec fn view(&self) -> CaptureActionView {
        match self {
            CaptureAction::Append(bytes) => CaptureActionView::Append(bytes@),
            CaptureAction::Stop => CaptureActionView::Stop,
        }
    }
}

/// The state a worker is in after a read that returned `outcome`.
pub open spec fn state_after_read(
    state: CaptureStateView,
    outcome: ReadOutcomeView,
) -> CaptureStateView {
    match state {
        CaptureStateView::Running => match outcome {
            ReadOutcomeView::Data(bytes) => if bytes.len() == 0 {
                CaptureStateView::Closed
            } else {
                CaptureStateView::Running
            },
            ReadOutcomeView::Failed(reason) => CaptureStateView::Failed(
                CaptureErrorView::Read(reason),
            ),
        },
        _ => state,
    }
}

/// The bytes that a read hands to the shared buffer: all of a non-empty
/// chunk that a running worker got, and nothing otherwise.
pub open spec fn bytes_after_read(state: CaptureStateView, outcome: ReadOutcomeView) -> Seq<u8> {
    match (state, outcome) {
        (CaptureStateView::Running, ReadOutcomeView::Data(bytes)) => bytes,
        _ => Seq::empty(),
    }
}

/// What the caller is told after a read that returned `outcome`.
pub open spec fn action_after_read(
    state: CaptureStateView,
    outcome: ReadOutcomeView,
) -> CaptureActionView {
    if state_after_read(state, outcome) is Running {
        CaptureActionView::Append(bytes_after_read(state, outcome))
    } else {
        CaptureActionView::Stop
    }
}

/// The state a worker is in after it failed to take the buffer's lock.
pub open spec fn state_after_lock_failure(state: CaptureStateView) -> CaptureStateView {
    match state {
        CaptureStateView::Running => CaptureStateView::Failed(CaptureErrorView::Lock),
        _ => state,
    }
}

/// The line a worker logs when it stops on `error`.
pub open spec fn capture_diagnostic(stream: Stream, error: CaptureErrorView) -> Seq<char> {
    match error {
        CaptureErrorView::Read(reason) => "failed to read "@ + stream.spec_name() + ": "@ + reason,
        CaptureErrorView::Lock => "failed to lock "@ + stream.spec_name() + " output mutex"@,
    }
}

/// The state a worker is in after the reads `outcomes`, taken in order.
pub open spec fn state_after_reads(
    state: CaptureStateView,
    outcomes: Seq<ReadOutcomeView>,
) -> CaptureStateView
    decreases outcomes.len(),
{
    if outcomes.len() == 0 {
        state
    } else {
        state_after_read(state_after_reads(state, outcomes.drop_last()), outcomes.last())
    }
}

/// All bytes that a worker hands to the shared buffer over the reads
/// `outcomes`, in the order of the reads.
pub open spec fn bytes_after_reads(
    state: CaptureStateView,
    outcomes: Seq<ReadOutcomeView>,
) -> Seq<u8>
    decreases outcomes.len(),
{
    if outcomes.len() == 0 {
        Seq::empty()
    } else {
        bytes_after_reads(state, outcomes.drop_last()) + bytes_after_read(
            state_after_reads(state, outcomes.drop_last()),
            outcomes.last(),
        )
    }
}

/// A worker that has stopped never runs again: whatever reads are reported
/// to it, it stays in the state in which it stopped and hands on nothing.
pub proof fn law_stopped_worker_stays_stopped(
    state: CaptureStateView,
    outcomes: Seq<ReadOutcomeView>,
)
    requires
        !(state is Running),
    ensures
        state_after_reads(state, outcomes) == state,
        bytes_after_reads(state, outcomes) == Seq::<u8>::empty(),
    decreases outcomes.len(),
{
    if outcomes.len() > 0 {
        law_stopped_worker_stays_stopped(state, outcomes.drop_last());
    }
}

impl CaptureState {
    /// Moves on by one read; see `CaptureWorker::on_read`.
    pub fn on_read(&mut self, outcome: ReadOutcome) -> (action: CaptureAction)
        ensures
            final(self)@ == state_after_read(old(self)@, outcome@),
            action@ == action_after_read(old(self)@, outcome@),
    {
        match self {
            CaptureState::Running => match outcome {
                ReadOutcome::Data(bytes) => {
                    if bytes.len() == 0 {
                        *self = CaptureState::Closed;
                        CaptureAction::Stop
                    } else {
                        CaptureAction::Append(bytes)
                    }
                },
                ReadOutcome::Failed(reason) => {
                    *self = CaptureState::Failed(CaptureError::Read(reason));
                    CaptureAction::Stop
                },
            },
            _ => CaptureAction::Stop,
        }
    }

    /// Moves on by a failure to take the buffer's lock; see
    /// `CaptureWorker::on_lock_failure`.
    pub fn on_lock_failure(&mut self)
        ensures
            final(self)@ == state_after_lock_failure(old(self)@),
    {
        match self {
            CaptureState::Running => {
                *self = CaptureState::Failed(CaptureError::Lock);
            },
            _ => {},
        }
    }
}

/// One capture worker, bound to one stream for its whole life.
pub struct CaptureWorker {
    stream: Stream,
    state: CaptureState,
}

impl CaptureWorker {
    /// The stream this worker reads.
    pub closed spec fn spec_stream(&self) -> Stream {
        self.stream
    }

    /// The worker's state as a plain value.
    pub closed spec fn spec_state(&self) -> CaptureStateView {
        self.state@
    }

    /// A running worker for `stream`.
    pub fn new(stream: Stream) -> (worker: Self)
        ensures
            worker.spec_stream() == stream,
            worker.spec_state() is Running,
    {
        CaptureWorker { stream, state: CaptureState::Running }
    }

    /// A worker for `stream` that stands at `state`.
    pub fn with_state(stream: Stream, state: CaptureState) -> (worker: Self)
        ensures
            worker.spec_stream() == stream,
            worker.spec_state() == state@,
    {
        CaptureWorker { stream, state }
    }

    /// The stream this worker reads.
    pub fn stream(&self) -> (stream: Stream)
        ensures
            stream == self.spec_stream(),
    {
        self.stream
    }

    /// The worker's current state.
    pub fn state(&self) -> (state: &CaptureState)
        ensures
            state@ == self.spec_state(),
    {
        &self.state
    }

    /// Whether the worker still reads.
    pub fn is_running(&self) -> (running: bool)
        ensures
            running == (self.spec_state() is Running),
    {
        match self.state {
            CaptureState::Running => true,
            _ => false,
        }
    }

    /// Whether the worker saw the end of its stream.
    pub fn is_closed(&self) -> (closed: bool)
        ensures
            closed == (self.spec_state() is Closed),
    {
        match self.state {
            CaptureState::Closed => true,
            _ => false,
        }
    }

    /// Whether the worker stopped on an error.
    pub fn is_failed(&self) -> (failed: bool)
        ensures
            failed == (self.spec_state() is Failed),
    {
        match self.state {
            CaptureState::Failed(_) => true,
            _ => false,
        }
    }

    /// Takes in the result of one read.
    ///
    /// A running worker that got bytes stays running and passes all of them
    /// on. One that got no bytes closes; one whose read failed fails. A
    /// worker that has stopped stays as it is and passes nothing on.
    pub fn on_read(&mut self, outcome: ReadOutcome) -> (action: CaptureAction)
        ensures
            final(self).spec_stream() == old(self).spec_stream(),
            final(self).spec_state() == state_after_read(old(self).spec_state(), outcome@),
            action@ == action_after_read(old(self).spec_state(), outcome@),
    {
        self.state.on_read(outcome)
    }

    /// Takes in that the lock around the shared buffer could not be taken:
    /// a running worker fails, a stopped one stays as it is.
    pub fn on_lock_failure(&mut self)
        ensures
            final(self).spec_stream() == old(self).spec_stream(),
            final(self).spec_state() == state_after_lock_failure(old(self).spec_state()),
    {
        self.state.on_lock_failure()
    }

    /// The line to log for a worker that failed; none for one that runs or
    /// closed.
    pub fn diagnostic(&self) -> (line: Option<String>)
        ensures
            match self.spec_state() {
                CaptureStateView::Failed(error) => line matches Some(text) && text@
                    == capture_diagnostic(self.spec_stream(), error),
                _ => line is None,
            },
    {
        match &self.state {
            CaptureState::Failed(CaptureError::Read(reason)) => {
                let mut text = String::from_str("failed to read ");
                text.append(self.stream.name());
                text.append(": ");
                text.append(reason.as_str());
                Some(text)
            },
            CaptureState::Failed(CaptureError::Lock) => {
                let mut text = String::from_str("failed to lock ");
                text.append(self.stream.name());
                text.append(" output mutex");
                Some(text)
            },
            _ => None,
        }
    }
}

} // verus!
