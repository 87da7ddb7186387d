use vstd::prelude::*;

verus! {

/// Where the watch task stands.
#[derive(PartialEq, Eq, Structural, Clone, Copy, Debug)]
pub enum WatchPhase {
    /// A watch on the registry's key space is to be opened.
    Opening,
    /// The watch is open and its stream is read.
    Listening,
    /// The task has ended.
    Done,
}

/// What the driver of the watch task reports.
#[derive(PartialEq, Eq, Structural, Clone, Copy, Debug)]
pub enum WatchSignal {
    /// The stop signal arrived.
    StopRequested,
    /// The watch was opened.
    Opened,
    /// Opening the watch failed.
    OpenFailed,
    /// The stream delivered events, and they were applied to the cache.
    EventsApplied,
    /// The stream ended or failed without a stop request.
    StreamEnded,
}

/// What the driver must do next.
#[derive(PartialEq, Eq, Structural, Clone, Copy, Debug)]
pub enum WatchAction {
    /// Open the watch now.
    Open,
    /// Wait this many milliseconds for the stop signal, then open the watch.
    RetryAfter(u64),
    /// Read the next response of the stream.
    Listen,
    /// End the task.
    Exit,
    /// Nothing: the signal does not apply in the current phase.
    Ignore,
}

/// The pause before a failed open is tried again, in milliseconds.
pub const WATCH_RETRY_MILLIS: u64 = 1000;

/// The watch task after `signal`, and the action it asks for.
pub open spec fn watch_step(p: WatchPhase, signal: WatchSignal) -> (WatchPhase, WatchAction) {
    match (p, signal) {
        (WatchPhase::Done, _) => (p, WatchAction::Exit),
        (_, WatchSignal::StopRequested) => (WatchPhase::Done, WatchAction::Exit),
        (WatchPhase::Opening, WatchSignal::Opened) => (WatchPhase::Listening, WatchAction::Listen),
        (WatchPhase::Opening, WatchSignal::OpenFailed) => (
            WatchPhase::Opening,
            WatchAction::RetryAfter(WATCH_RETRY_MILLIS),
        ),
        (WatchPhase::Listening, WatchSignal::EventsApplied) => (
            WatchPhase::Listening,
            WatchAction::Listen,
        ),
        (WatchPhase::Listening, WatchSignal::StreamEnded) => (WatchPhase::Opening, WatchAction::Open),
        _ => (p, WatchAction::Ignore),
    }
}

/// The decisions of the task that keeps the registry cache current: it
/// reopens the watch whenever the stream ends, and ends only when stopped.
pub struct WatchLoop {
    phase: WatchPhase,
}

impl WatchLoop {
    pub closed spec fn spec_phase(&self) -> WatchPhase {
        self.phase
    }

    /// A task that has yet to open its watch; its first action is `Open`.
    pub fn new() -> (r: WatchLoop)
        ensures
            r.spec_phase() == WatchPhase::Opening,
    {
        WatchLoop { phase: WatchPhase::Opening }
    }

    pub fn phase(&self) -> (r: WatchPhase)
        ensures
            r == self.spec_phase(),
    {
        self.phase
    }

    /// Takes one signal and says what to do next.
    pub fn step(&mut self, signal: WatchSignal) -> (r: WatchAction)
        ensures
            (final(self).spec_phase(), r) == watch_step(old(self).spec_phase(), signal),
    {
        match (self.phase, signal) {
            (WatchPhase::Done, _) => WatchAction::Exit,
            (_, WatchSignal::StopRequested) => {
                self.phase = WatchPhase::Done;
                WatchAction::Exit
            },
            (WatchPhase::Opening, WatchSignal::Opened) => {
                self.phase = WatchPhase::Listening;
                WatchAction::Listen
            },
            (WatchPhase::Opening, WatchSignal::OpenFailed) => WatchAction::RetryAfter(
                WATCH_RETRY_MILLIS,
            ),
            (WatchPhase::Listening, WatchSignal::EventsApplied) => WatchAction::Listen,
            (WatchPhase::Listening, WatchSignal::StreamEnded) => {
                self.phase = WatchPhase::Opening;
                WatchAction::Open
            },
            _ => WatchAction::Ignore,
        }
    }
}

/// No silent staleness: a running watch task ends only on a stop request,
/// and a stream that ends is always reopened.
pub proof fn lemma_watch_never_gives_up(p: WatchPhase, signal: WatchSignal)
    requires
        p != WatchPhase::Done,
    ensures
        watch_step(p, signal).1 == WatchAction::Exit <==> signal == WatchSignal::StopRequested,
        p == WatchPhase::Listening && signal == WatchSignal::StreamEnded ==> watch_step(p, signal)
            == (WatchPhase::Opening, WatchAction::Open),
        p == WatchPhase::Opening && signal == WatchSignal::OpenFailed ==> watch_step(p, signal).1
            == WatchAction::RetryAfter(WATCH_RETRY_MILLIS),
{
}

} // verus!
