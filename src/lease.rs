use vstd::prelude::*;

verus! {

/// Where the keep-alive task stands.
#[derive(PartialEq, Eq, Structural, Clone, Copy, Debug)]
pub enum LeasePhase {
    /// Waiting for the next renewal to fall due.
    Waiting,
    /// A keep-alive request has been sent; its outcome is awaited.
    Renewing,
    /// The task has ended.
    Done,
}

/// What the driver of the keep-alive task reports.
#[derive(PartialEq, Eq, Structural, Clone, Copy, Debug)]
pub enum LeaseEvent {
    /// The stop signal arrived.
    StopRequested,
    /// The wait for the next renewal ran out.
    WaitElapsed,
    /// The keep-alive request could not be sent, or its response could not
    /// be read: the connection to the coordination service is lost.
    KeepAliveFailed,
    /// The coordination service answered with the lease's ttl in seconds.
    Renewed(i64),
}

/// What the driver must do next.
#[derive(PartialEq, Eq, Structural, Clone, Copy, Debug)]
pub enum LeaseAction {
    /// Wait this many milliseconds for the stop signal, then report
    /// `WaitElapsed`.
    Wait(u64),
    /// Send one keep-alive request and report its outcome.
    SendKeepAlive,
    /// Fire the fatal signal, then end the task.
    SignalFatal,
    /// End the task without firing the fatal signal.
    Exit,
    /// Nothing: the event does not apply in the current phase.
    Ignore,
}

/// The largest ttl, in seconds, that the coordination service grants.
pub const MAX_LEASE_TTL_SECS: u64 = 9_000_000_000;

/// A ttl the coordination service can report for a live lease.
pub open spec fn valid_ttl(ttl: int) -> bool {
    0 < ttl <= MAX_LEASE_TTL_SECS
}

/// Milliseconds between renewals for a lease of `ttl` seconds: two thirds
/// of the ttl, rounded down, so that a renewal lands well before expiry.
pub open spec fn renewal_wait(ttl: u64) -> u64 {
    (2000 * ttl / 3) as u64
}

/// What the keeper knows: the lease, its current ttl, where the task stands
/// and whether the fatal signal has fired.
pub struct LeaseState {
    pub lease_id: i64,
    pub ttl_secs: u64,
    pub phase: LeasePhase,
    pub fatal_signalled: bool,
}

/// The renewal cadence of one granted lease.
pub struct LeaseKeeper {
    lease_id: i64,
    ttl_secs: u64,
    phase: LeasePhase,
    fatal_signalled: bool,
}

impl View for LeaseKeeper {
    type V = LeaseState;

    closed spec fn view(&self) -> LeaseState {
        LeaseState {
            lease_id: self.lease_id,
            ttl_secs: self.ttl_secs,
            phase: self.phase,
            fatal_signalled: self.fatal_signalled,
        }
    }
}

/// The ttl is one the service grants, and the fatal signal has fired only
/// if the task has ended.
pub open spec fn lease_wf(k: LeaseState) -> bool {
    &&& valid_ttl(k.ttl_secs as int)
    &&& k.fatal_signalled ==> k.phase == LeasePhase::Done
}

/// The keeper after `event`, and the action it asks for.
pub open spec fn lease_step(k: LeaseState, event: LeaseEvent) -> (LeaseState, LeaseAction) {
    let done = LeaseState { phase: LeasePhase::Done, ..k };
    let fatal = LeaseState { phase: LeasePhase::Done, fatal_signalled: true, ..k };
    match (k.phase, event) {
        (LeasePhase::Done, _) => (k, LeaseAction::Exit),
        (_, LeaseEvent::StopRequested) => (done, LeaseAction::Exit),
        (LeasePhase::Waiting, LeaseEvent::WaitElapsed) => (
            LeaseState { phase: LeasePhase::Renewing, ..k },
            LeaseAction::SendKeepAlive,
        ),
        (LeasePhase::Renewing, LeaseEvent::KeepAliveFailed) => (fatal, LeaseAction::SignalFatal),
        (LeasePhase::Renewing, LeaseEvent::Renewed(t)) => if valid_ttl(t as int) {
            (
                LeaseState { phase: LeasePhase::Waiting, ttl_secs: t as u64, ..k },
                LeaseAction::Wait(renewal_wait(t as u64)),
            )
        } else {
            (fatal, LeaseAction::SignalFatal)
        },
        _ => (k, LeaseAction::Ignore),
    }
}

/// The wait in milliseconds for a lease of `ttl` seconds: between a third
/// and two thirds of the ttl.
pub fn renewal_wait_millis(ttl: u64) -> (r: u64)
    requires
        valid_ttl(ttl as int),
    ensures
        r == renewal_wait(ttl),
        1000 * ttl <= 3 * r <= 2000 * ttl,
{
    2000 * ttl / 3
}

impl LeaseKeeper {
    pub open spec fn wf(&self) -> bool {
        lease_wf(self@)
    }

    /// The keeper of a freshly granted lease, waiting for its first renewal.
    pub fn new(lease_id: i64, ttl_secs: u64) -> (r: LeaseKeeper)
        requires
            valid_ttl(ttl_secs as int),
        ensures
            r.wf(),
            r@ == (LeaseState {
                lease_id,
                ttl_secs,
                phase: LeasePhase::Waiting,
                fatal_signalled: false,
            }),
    {
        LeaseKeeper { lease_id, ttl_secs, phase: LeasePhase::Waiting, fatal_signalled: false }
    }

    /// The keeper for a lease as the coordination service granted it:
    /// `None` where the granted ttl is not one the service grants.
    pub fn from_grant(lease_id: i64, granted_ttl: i64) -> (r: Option<LeaseKeeper>)
        ensures
            r is None <==> !valid_ttl(granted_ttl as int),
            r is Some ==> r->Some_0.wf() && r->Some_0@ == (LeaseState {
                lease_id,
                ttl_secs: granted_ttl as u64,
                phase: LeasePhase::Waiting,
                fatal_signalled: false,
            }),
    {
        if granted_ttl > 0 && granted_ttl as u64 <= MAX_LEASE_TTL_SECS {
            Some(LeaseKeeper::new(lease_id, granted_ttl as u64))
        } else {
            None
        }
    }

    pub fn lease_id(&self) -> (r: i64)
        ensures
            r == self@.lease_id,
    {
        self.lease_id
    }

    pub fn ttl_secs(&self) -> (r: u64)
        ensures
            r == self@.ttl_secs,
    {
        self.ttl_secs
    }

    pub fn phase(&self) -> (r: LeasePhase)
        ensures
            r == self@.phase,
    {
        self.phase
    }

    pub fn fatal_signalled(&self) -> (r: bool)
        ensures
            r == self@.fatal_signalled,
    {
        self.fatal_signalled
    }

    /// Milliseconds to wait before the next renewal under the current ttl.
    pub fn wait_millis(&self) -> (r: u64)
        requires
            self.wf(),
        ensures
            r == renewal_wait(self@.ttl_secs),
            1000 * self@.ttl_secs <= 3 * r <= 2000 * self@.ttl_secs,
    {
        renewal_wait_millis(self.ttl_secs)
    }

    /// Takes one event and says what to do next.
    pub fn step(&mut self, event: LeaseEvent) -> (r: LeaseAction)
        requires
            old(self).wf(),
        ensures
            final(self).wf(),
            (final(self)@, r) == lease_step(old(self)@, event),
    {
        if self.phase == LeasePhase::Done {
            return LeaseAction::Exit;
        }
        match event {
            LeaseEvent::StopRequested => {
                self.phase = LeasePhase::Done;
                LeaseAction::Exit
            },
            LeaseEvent::WaitElapsed => {
                if self.phase == LeasePhase::Waiting {
                    self.phase = LeasePhase::Renewing;
                    LeaseAction::SendKeepAlive
                } else {
                    LeaseAction::Ignore
                }
            },
            LeaseEvent::KeepAliveFailed => {
                if self.phase == LeasePhase::Renewing {
                    self.phase = LeasePhase::Done;
                    self.fatal_signalled = true;
                    LeaseAction::SignalFatal
                } else {
                    LeaseAction::Ignore
                }
            },
            LeaseEvent::Renewed(t) => {
                if self.phase != LeasePhase::Renewing {
                    LeaseAction::Ignore
                } else if t > 0 && t as u64 <= MAX_LEASE_TTL_SECS {
                    self.phase = LeasePhase::Waiting;
                    self.ttl_secs = t as u64;
                    LeaseAction::Wait(renewal_wait_millis(t as u64))
                } else {
                    self.phase = LeasePhase::Done;
                    self.fatal_signalled = true;
                    LeaseAction::SignalFatal
                }
            },
        }
    }
}

/// The keeper after each event of `events` in turn, from `k`.
pub open spec fn lease_run(k: LeaseState, events: Seq<LeaseEvent>) -> LeaseState
    decreases events.len(),
{
    if events.len() == 0 {
        k
    } else {
        lease_step(lease_run(k, events.drop_last()), events.last()).0
    }
}

/// Renewal cadence: a keeper granted with ttl 60 first waits between 20 and
/// 40 seconds; a renewal that returns a ttl `t` makes the next wait lie
/// between a third and two thirds of `t`, and keeps `t` as the lease's ttl.
pub proof fn lemma_renewal_cadence(k: LeaseState, t: i64)
    requires
        lease_wf(k),
        k.phase == LeasePhase::Renewing,
        valid_ttl(t as int),
    ensures
        20_000 <= renewal_wait(60) <= 40_000,
        lease_step(k, LeaseEvent::Renewed(t)).1 == LeaseAction::Wait(renewal_wait(t as u64)),
        1000 * t <= 3 * renewal_wait(t as u64) <= 2000 * t,
        lease_step(k, LeaseEvent::Renewed(t)).0.ttl_secs == t as u64,
        lease_step(k, LeaseEvent::Renewed(t)).0.phase == LeasePhase::Waiting,
{
}

/// The fatal signal fires at most once: after any sequence of events, a
/// keeper whose signal has fired asks for it never again, and a stop request
/// never fires it.
pub proof fn lemma_fatal_at_most_once(k: LeaseState, events: Seq<LeaseEvent>, next: LeaseEvent)
    requires
        lease_wf(k),
    ensures
        lease_wf(lease_run(k, events)),
        lease_run(k, events).fatal_signalled ==> lease_step(lease_run(k, events), next).1
            != LeaseAction::SignalFatal,
        lease_step(lease_run(k, events), LeaseEvent::StopRequested).1 != LeaseAction::SignalFatal,
    decreases events.len(),
{
    if events.len() > 0 {
        lemma_fatal_at_most_once(k, events.drop_last(), events.last());
    }
}

/// A renewal that fails is fatal: a keeper awaiting a keep-alive outcome
/// that learns the request or its response failed fires the fatal signal
/// and ends.
pub proof fn lemma_failed_renewal_is_fatal(k: LeaseState)
    requires
        lease_wf(k),
        k.phase == LeasePhase::Renewing,
    ensures
        lease_step(k, LeaseEvent::KeepAliveFailed).1 == LeaseAction::SignalFatal,
        lease_step(k, LeaseEvent::KeepAliveFailed).0.phase == LeasePhase::Done,
{
}

} // verus!
