//! The decisions of the display loop.
//!
//! One iteration takes what the shared buffer held, then a batch of input
//! events, one by one. Drawing, polling, writing to the child and sleeping
//! are the caller's part: it reports what happened and does what it is told.
//! What the buffer held is handed out for drawing before any event of the
//! iteration is looked at, so a quit in the batch cannot hold it back.

use vstd::prelude::*;
use vstd::string::*;
use crate::input::{InputEvent, InputLine, InputTranslator, line_after, pending_after};

verus! {

/// Milliseconds the caller sleeps between two iterations.
pub const POLL_INTERVAL_MS: u32 = 30;

/// What taking the shared buffer's content gave.
pub enum DrainOutcome {
    /// The lock was taken; these bytes had accumulated.
    Bytes(Vec<u8>),
    /// The lock could not be taken.
    LockFailed,
}

/// A `DrainOutcome` as a plain value.
pub enum DrainOutcomeView {
    Bytes(Seq<u8>),
    LockFailed,
}

impl View for DrainOutcome {
    type V = DrainOutcomeView;

    open spec fn view(&self) -> DrainOutcomeView {
        match self {
            DrainOutcome::Bytes(bytes) => DrainOutcomeView::Bytes(bytes@),
            DrainOutcome::LockFailed => DrainOutcomeView::LockFailed,
        }
    }
}

/// A condition that ends the loop at once.
pub enum LoopError {
    /// The lock around the shared buffer could not be taken.
    Lock,
    /// A completed line could not be written to the child; the text says
    /// why.
    StdinWrite(String),
}

/// A `LoopError` as a plain value.
pub enum LoopErrorView {
    Lock,
    StdinWrite(Seq<char>),
}

impl View for LoopError {
    type V = LoopErrorView;

    open spec fn view(&self) -> LoopErrorView {
        match self {
            LoopError::Lock => LoopErrorView::Lock,
            LoopError::StdinWrite(reason) => LoopErrorView::StdinWrite(reason@),
        }
    }
}

/// Where the loop stands. `Quit` and `Failed` are final.
pub enum LoopStatus {
    Running,
    Quit,
    Failed(LoopError),
}

/// A `LoopStatus` as a plain value.
pub enum LoopStatusView {
    Running,
    Quit,
    Failed(LoopErrorView),
}

impl View for LoopStatus {
    type V = LoopStatusView;

    open spec fn view(&self) -> LoopStatusView {
        match self {
            LoopStatus::Running => LoopStatusView::Running,
            LoopStatus::Quit => LoopStatusView::Quit,
            LoopStatus::Failed(error) => LoopStatusView::Failed(error@),
        }
    }
}

/// What the caller does after handing in one event.
pub enum EventAction {
    /// Go on with the next event.
    Continue,
    /// Write this line to the child's input, byte for byte, and report a
    /// failure.
    Write(InputLine),
    /// Leave the loop; the rest of the batch is dropped.
    Stop,
}

/// An `EventAction` as a plain value.
pub enum EventActionView {
    Continue,
    Write(Seq<char>),
    Stop,
}

impl View for EventAction {
    type V = EventActionView;

    open spec fn view(&self) -> EventActionView {
        match self {
            EventAction::Continue => EventActionView::Continue,
            EventAction::Write(line) => EventActionView::Write(line@),
            EventAction::Stop => EventActionView::Stop,
        }
    }
}

/// The loop as a plain value: the characters typed since the last completed
/// line, and the status.
pub struct EventLoopView {
    pub pending: Seq<char>,
    pub status: LoopStatusView,
}

/// The loop after it took in what the buffer held.
pub open spec fn loop_after_drain(state: EventLoopView, drained: DrainOutcomeView) -> EventLoopView {
    match (state.status, drained) {
        (LoopStatusView::Running, DrainOutcomeView::LockFailed) => EventLoopView {
            pending: state.pending,
            status: LoopStatusView::Failed(LoopErrorView::Lock),
        },
        _ => state,
    }
}

/// The bytes to draw at the start of an iteration: all that the buffer
/// held, if it held any and the loop runs.
pub open spec fn bytes_to_render(state: EventLoopView, drained: DrainOutcomeView) -> Option<
    Seq<u8>,
> {
    match (state.status, drained) {
        (LoopStatusView::Running, DrainOutcomeView::Bytes(bytes)) => if bytes.len() > 0 {
            Some(bytes)
        } else {
            None
        },
        _ => None,
    }
}

/// The loop after one event.
pub open spec fn loop_after_event(state: EventLoopView, event: InputEvent) -> EventLoopView {
    match state.status {
        LoopStatusView::Running => match event {
            InputEvent::Quit => EventLoopView {
                pending: state.pending,
                status: LoopStatusView::Quit,
            },
            _ => EventLoopView {
                pending: pending_after(state.pending, event),
                status: LoopStatusView::Running,
            },
        },
        _ => state,
    }
}

/// What the caller is told after one event.
pub open spec fn action_for_event(state: EventLoopView, event: InputEvent) -> EventActionView {
    match state.status {
        LoopStatusView::Running => match event {
            InputEvent::Quit => EventActionView::Stop,
            _ => match line_after(state.pending, event) {
                Some(line) => EventActionView::Write(line),
                None => EventActionView::Continue,
            },
        },
        _ => EventActionView::Stop,
    }
}

/// The loop after a write to the child failed.
pub open spec fn loop_after_write_failure(state: EventLoopView, reason: Seq<char>) -> EventLoopView {
    match state.status {
        LoopStatusView::Running => EventLoopView {
            pending: state.pending,
            status: LoopStatusView::Failed(LoopErrorView::StdinWrite(reason)),
        },
        _ => state,
    }
}

/// The line the loop logs when it ends on `error`.
pub open spec fn loop_diagnostic(error: LoopErrorView) -> Seq<char> {
    match error {
        LoopErrorView::Lock => "failed to lock print output mutex"@,
        LoopErrorView::StdinWrite(reason) => "failed to write stdin: "@ + reason,
    }
}

/// The loop after one event and after the write that the event asked for.
/// `write_failure` is the reason where that write failed, `None` where it
/// went through or none was asked for.
pub open spec fn loop_after_handled_event(
    state: EventLoopView,
    event: InputEvent,
    write_failure: Option<Seq<char>>,
) -> EventLoopView {
    let next = loop_after_event(state, event);
    match (action_for_event(state, event), write_failure) {
        (EventActionView::Write(_), Some(reason)) => loop_after_write_failure(next, reason),
        _ => next,
    }
}

/// The loop after a whole batch, taken in order. `write_failures[i]` says
/// what became of the write that event `i` asked for.
pub open spec fn loop_after_batch(
    state: EventLoopView,
    events: Seq<InputEvent>,
    write_failures: Seq<Option<Seq<char>>>,
) -> EventLoopView
    decreases events.len(),
{
    if events.len() == 0 {
        state
    } else {
        loop_after_handled_event(
            loop_after_batch(state, events.drop_last(), write_failures),
            events.last(),
            write_failures[events.len() - 1],
        )
    }
}

proof fn lemma_batch_with_quit_stops(
    state: EventLoopView,
    events: Seq<InputEvent>,
    write_failures: Seq<Option<Seq<char>>>,
)
    requires
        events.contains(InputEvent::Quit),
    ensures
        !(loop_after_batch(state, events, write_failures).status is Running),
    decreases events.len(),
{
    if events.last() != InputEvent::Quit {
        let index = choose|i: int| 0 <= i < events.len() && events[i] == InputEvent::Quit;
        assert(events.drop_last()[index] == InputEvent::Quit);
        lemma_batch_with_quit_stops(state, events.drop_last(), write_failures);
    }
}

proof fn lemma_batch_without_failure_runs_or_quits(
    state: EventLoopView,
    events: Seq<InputEvent>,
    write_failures: Seq<Option<Seq<char>>>,
)
    requires
        state.status is Running,
        forall|i: int| 0 <= i < events.len() ==> write_failures[i] is None,
    ensures
        loop_after_batch(state, events, write_failures).status is Running || loop_after_batch(
            state,
            events,
            write_failures,
        ).status is Quit,
    decreases events.len(),
{
    if events.len() > 0 {
        lemma_batch_without_failure_runs_or_quits(state, events.drop_last(), write_failures);
    }
}

/// A quit event is never missed. Whatever the buffer held and whatever
/// else is in the batch, a batch with a quit in it leaves the loop ended:
/// it has quit, or it failed on an earlier write or on the buffer's lock.
/// Where nothing failed, a running loop ends as `Quit`. The bytes to draw
/// are fixed before the batch is looked at: a running loop that got bytes
/// from the buffer draws all of them.
pub proof fn law_quit_is_never_missed(
    state: EventLoopView,
    drained: DrainOutcomeView,
    events: Seq<InputEvent>,
    write_failures: Seq<Option<Seq<char>>>,
)
    requires
        events.contains(InputEvent::Quit),
        write_failures.len() == events.len(),
    ensures
        !(loop_after_batch(loop_after_drain(state, drained), events, write_failures).status
            is Running),
        state.status is Running && drained is Bytes && (forall|i: int|
            0 <= i < events.len() ==> write_failures[i] is None) ==> loop_after_batch(
            loop_after_drain(state, drained),
            events,
            write_failures,
        ).status is Quit,
        drained matches DrainOutcomeView::Bytes(bytes) ==> (state.status is Running && bytes.len()
            > 0 ==> bytes_to_render(state, drained) == Some(bytes)),
{
    let started = loop_after_drain(state, drained);
    lemma_batch_with_quit_stops(started, events, write_failures);
    if state.status is Running && drained is Bytes && (forall|i: int|
        0 <= i < events.len() ==> write_failures[i] is None) {
        lemma_batch_without_failure_runs_or_quits(started, events, write_failures);
    }
}

/// The state of the display loop.
pub struct EventLoop {
    translator: InputTranslator,
    status: LoopStatus,
}

impl View for EventLoop {
    type V = EventLoopView;

    closed spec fn view(&self) -> EventLoopView {
        EventLoopView { pending: self.translator@, status: self.status@ }
    }
}

impl EventLoop {
    /// A running loop with nothing typed yet.
    pub fn new() -> (event_loop: Self)
        ensures
            event_loop@.pending == Seq::<char>::empty(),
            event_loop@.status is Running,
    {
        EventLoop { translator: InputTranslator::new(), status: LoopStatus::Running }
    }

    /// The loop's current status.
    pub fn status(&self) -> (status: &LoopStatus)
        ensures
            status@ == self@.status,
    {
        &self.status
    }

    /// Whether the loop goes on.
    pub fn is_running(&self) -> (running: bool)
        ensures
            running == (self@.status is Running),
    {
        match self.status {
            LoopStatus::Running => true,
            _ => false,
        }
    }

    /// Whether the loop ended on a quit event.
    pub fn has_quit(&self) -> (quit: bool)
        ensures
            quit == (self@.status is Quit),
    {
        match self.status {
            LoopStatus::Quit => true,
            _ => false,
        }
    }

    /// Whether the loop ended on a fatal condition.
    pub fn has_failed(&self) -> (failed: bool)
        ensures
            failed == (self@.status is Failed),
    {
        match self.status {
            LoopStatus::Failed(_) => true,
            _ => false,
        }
    }

    /// Starts an iteration with what the shared buffer held.
    ///
    /// A running loop hands back the bytes to draw, if there are any. If
    /// the lock could not be taken, the loop fails. A loop that has ended
    /// stays as it is and draws nothing.
    pub fn begin_iteration(&mut self, drained: DrainOutcome) -> (render: Option<Vec<u8>>)
        ensures
            final(self)@ == loop_after_drain(old(self)@, drained@),
            match bytes_to_render(old(self)@, drained@) {
                Some(bytes) => render matches Some(out) && out@ == bytes,
                None => render is None,
            },
    {
        match self.status {
            LoopStatus::Running => match drained {
                DrainOutcome::Bytes(bytes) => {
                    if bytes.len() > 0 {
                        Some(bytes)
                    } else {
                        None
                    }
                },
                DrainOutcome::LockFailed => {
                    self.status = LoopStatus::Failed(LoopError::Lock);
                    None
                },
            },
            _ => None,
        }
    }

    /// Takes in one event of the batch.
    ///
    /// A quit ends a running loop without touching the typed characters.
    /// Every other event goes to the translator; a line that it completes
    /// is handed back for writing. A loop that has ended stays as it is.
    pub fn on_event(&mut self, event: InputEvent) -> (action: EventAction)
        ensures
            final(self)@ == loop_after_event(old(self)@, event),
            action@ == action_for_event(old(self)@, event),
    {
        match self.status {
            LoopStatus::Running => match event {
                InputEvent::Quit => {
                    self.status = LoopStatus::Quit;
                    EventAction::Stop
                },
                _ => match self.translator.feed(event) {
                    Some(line) => EventAction::Write(line),
                    None => EventAction::Continue,
                },
            },
            _ => EventAction::Stop,
        }
    }

    /// Takes in that a write to the child failed: a running loop fails, one
    /// that has ended stays as it is.
    pub fn on_write_failure(&mut self, reason: String)
        ensures
            final(self)@ == loop_after_write_failure(old(self)@, reason@),
    {
        match self.status {
            LoopStatus::Running => {
                self.status = LoopStatus::Failed(LoopError::StdinWrite(reason));
            },
            _ => {},
        }
    }

    /// The line to log for a loop that failed; none for one that runs or
    /// quit.
    pub fn diagnostic(&self) -> (line: Option<String>)
        ensures
            match self@.status {
                LoopStatusView::Failed(error) => line matches Some(text) && text@
                    == loop_diagnostic(error),
                _ => line is None,
            },
    {
        match &self.status {
            LoopStatus::Failed(LoopError::Lock) => Some(
                String::from_str("failed to lock print output mutex"),
            ),
            LoopStatus::Failed(LoopError::StdinWrite(reason)) => {
                let mut text = String::from_str("failed to write stdin: ");
                text.append(reason.as_str());
                Some(text)
            },
            _ => None,
        }
    }
}

} // verus!
