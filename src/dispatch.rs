use vstd::prelude::*;

use crate::server::{topic_of, Server};

verus! {

/// Why the dispatch server refused to start.
#[derive(PartialEq, Eq, Structural, Clone, Copy, Debug)]
pub enum DispatchError {
    /// The server is already running.
    AlreadyStarted,
    /// The bus could not be connected to or subscribed on.
    TransportUnavailable,
}

/// The error part of a reply envelope.
pub struct ReplyError {
    pub code: String,
    pub msg: String,
}

/// A reply to one call: its payload, and an error where the call failed.
pub struct ReplyEnvelope {
    pub data: Vec<u8>,
    pub error: Option<ReplyError>,
}

/// The parts of a decoded call envelope that dispatch reads: the route of
/// its message, where it carries one.
pub struct CallRequest {
    pub route: Option<String>,
}

/// How an attempt to put a call on the work queue went.
#[derive(PartialEq, Eq, Structural, Clone, Copy, Debug)]
pub enum EnqueueOutcome {
    Queued,
    Full,
    Closed,
}

/// How the wait for a handler's reply ended.
#[derive(PartialEq, Eq, Structural, Clone, Copy, Debug)]
pub enum ReplyOutcome {
    /// The reply was published to the reply topic.
    Published,
    /// Publishing the reply failed.
    PublishFailed,
    /// The handler dropped the completion channel without replying.
    ResponderDropped,
    /// The bus connection had been closed, so the reply was lost.
    NotConnected,
}

#[derive(PartialEq, Eq, Structural, Clone, Copy, Debug)]
pub enum RpcStatus {
    Succeeded,
    Failed,
}

/// One latency observation, labelled by route and status.
pub struct LatencyObservation {
    pub route: String,
    pub status: RpcStatus,
}

/// What becomes of one inbound message before it is queued.
pub enum Intake {
    /// The envelope did not decode: drop it.
    DropUndecodable,
    /// The message names no reply topic: drop it.
    DropNoReplyTopic,
    /// Try to queue the call; its reply goes to `reply_topic`.
    Enqueue { reply_topic: String, route: String },
}

/// What to do once the queue has answered.
pub enum Dispatch {
    /// Wait for the handler's reply, then publish it to the reply topic.
    AwaitReply { reply_topic: String, route: String },
    /// Publish `reply` to `reply_topic` at once and record `observation`.
    RejectOverloaded {
        reply_topic: String,
        reply: ReplyEnvelope,
        observation: LatencyObservation,
    },
    /// The queue is closed: drop the call with no reply.
    Drop,
}

/// What shutting down has to release.
#[derive(PartialEq, Eq, Structural, Clone, Copy, Debug)]
pub enum ShutdownAction {
    /// Unsubscribe and close the open bus connection.
    CloseConnection,
    /// Nothing is open.
    Nothing,
}

/// What the driver needs to bring the server up.
pub struct StartPlan {
    pub topic: String,
    pub queue_capacity: usize,
}

pub open spec fn overload_code() -> Seq<char> {
    "PIT-503"@
}

pub open spec fn overload_message() -> Seq<char> {
    "server is overloaded"@
}

/// The route a call is labelled with: its message's route, or empty.
pub open spec fn route_of(req: CallRequest) -> Seq<char> {
    match req.route {
        Some(r) => r@,
        None => Seq::empty(),
    }
}

/// The reply sent to a caller turned away because the queue is full.
pub fn overload_reply() -> (r: ReplyEnvelope)
    ensures
        r.data@.len() == 0,
        r.error is Some,
        r.error->Some_0.code@ == overload_code(),
        r.error->Some_0.msg@ == overload_message(),
{
    ReplyEnvelope {
        data: Vec::new(),
        error: Some(
            ReplyError {
                code: String::from_str("PIT-503"),
                msg: String::from_str("server is overloaded"),
            },
        ),
    }
}

/// Sorts an inbound message: undecodable envelopes and messages without a
/// reply topic are dropped, the rest go on to the queue.
pub fn classify_message(request: Option<CallRequest>, reply_topic: Option<String>) -> (r: Intake)
    ensures
        request is None ==> r is DropUndecodable,
        request is Some && reply_topic is None ==> r is DropNoReplyTopic,
        request is Some && reply_topic is Some ==> match r {
            Intake::Enqueue { reply_topic: t, route } => t@ == reply_topic->Some_0@ && route@
                == route_of(request->Some_0),
            _ => false,
        },
{
    match request {
        None => Intake::DropUndecodable,
        Some(req) => {
            let route = match req.route {
                Some(r) => r,
                None => String::new(),
            };
            match reply_topic {
                None => Intake::DropNoReplyTopic,
                Some(t) => Intake::Enqueue { reply_topic: t, route },
            }
        },
    }
}

/// Admission control: a queued call waits for its reply, a full queue turns
/// the caller away at once with the overload reply and a failed
/// observation, and a closed queue drops the call.
pub fn on_enqueue(outcome: EnqueueOutcome, reply_topic: String, route: String) -> (r: Dispatch)
    ensures
        outcome == EnqueueOutcome::Queued ==> match r {
            Dispatch::AwaitReply { reply_topic: t, route: rt } => t@ == reply_topic@ && rt@
                == route@,
            _ => false,
        },
        outcome == EnqueueOutcome::Full ==> match r {
            Dispatch::RejectOverloaded { reply_topic: t, reply, observation } => t@
                == reply_topic@ && reply.data@.len() == 0 && reply.error is Some
                && reply.error->Some_0.code@ == overload_code()
                && reply.error->Some_0.msg@ == overload_message() && observation.route@ == route@
                && observation.status == RpcStatus::Failed,
            _ => false,
        },
        outcome == EnqueueOutcome::Closed ==> r is Drop,
{
    match outcome {
        EnqueueOutcome::Queued => Dispatch::AwaitReply { reply_topic, route },
        EnqueueOutcome::Full => Dispatch::RejectOverloaded {
            reply_topic,
            reply: overload_reply(),
            observation: LatencyObservation { route, status: RpcStatus::Failed },
        },
        EnqueueOutcome::Closed => Dispatch::Drop,
    }
}

/// The observation recorded once the wait for a reply has ended: `ok` for a
/// published reply, `failed` for a failed publish, a lost handler, or a
/// connection that had closed so that the reply was lost.
pub fn on_reply(outcome: ReplyOutcome, route: String) -> (r: LatencyObservation)
    ensures
        r.route@ == route@,
        outcome == ReplyOutcome::Published <==> r.status == RpcStatus::Succeeded,
        outcome != ReplyOutcome::Published <==> r.status == RpcStatus::Failed,
{
    match outcome {
        ReplyOutcome::Published => LatencyObservation { route, status: RpcStatus::Succeeded },
        _ => LatencyObservation { route, status: RpcStatus::Failed },
    }
}

impl RpcStatus {
    /// The status label: `ok` or `failed`.
    pub fn label(&self) -> (r: String)
        ensures
            *self == RpcStatus::Succeeded ==> r@ == "ok"@,
            *self == RpcStatus::Failed ==> r@ == "failed"@,
    {
        match self {
            RpcStatus::Succeeded => String::from_str("ok"),
            RpcStatus::Failed => String::from_str("failed"),
        }
    }
}

/// The upper bound of latency bucket `i`, in microseconds: 500 doubled `i`
/// times.
pub open spec fn bucket_bound(i: nat) -> nat
    decreases i,
{
    if i == 0 {
        500
    } else {
        2 * bucket_bound((i - 1) as nat)
    }
}

pub const LATENCY_BUCKETS: usize = 20;

/// The latency histogram's bucket bounds, in microseconds.
pub fn latency_buckets_micros() -> (r: Vec<u64>)
    ensures
        r@.len() == LATENCY_BUCKETS,
        forall|i: int| 0 <= i < r@.len() ==> r@[i] as nat == bucket_bound(i as nat),
{
    let mut r: Vec<u64> = Vec::new();
    let mut b: u64 = 500;
    for i in 0..LATENCY_BUCKETS
        invariant
            r@.len() == i,
            b as nat == bucket_bound(i as nat),
            b <= 500 * pow2_u64(i as nat),
            forall|k: int| 0 <= k < i ==> r@[k] as nat == bucket_bound(k as nat),
    {
        r.push(b);
        proof {
            lemma_pow2_bound(i as nat);
        }
        b = b * 2;
    }
    r
}

pub open spec fn pow2_u64(i: nat) -> nat
    decreases i,
{
    if i == 0 {
        1
    } else {
        2 * pow2_u64((i - 1) as nat)
    }
}

proof fn lemma_pow2_bound(i: nat)
    requires
        i < 20,
    ensures
        500 * pow2_u64(i) <= 500 * pow2_u64(19),
        pow2_u64(19) == 524288,
    decreases 19 - i,
{
    reveal_with_fuel(pow2_u64, 20);
    if i < 19 {
        lemma_pow2_bound(i + 1);
    }
}

/// The dispatch server's control state: who it is, how many calls it queues,
/// and whether its bus subscription is open.
pub struct NatsRpcServer {
    topic: String,
    max_rpcs_queued: usize,
    running: bool,
}

impl NatsRpcServer {
    pub closed spec fn spec_topic(&self) -> Seq<char> {
        self.topic@
    }

    pub closed spec fn capacity(&self) -> usize {
        self.max_rpcs_queued
    }

    pub closed spec fn is_running(&self) -> bool {
        self.running
    }

    /// The work queue has room for at least one call.
    pub open spec fn wf(&self) -> bool {
        self.capacity() > 0
    }

    /// A stopped server for `this_server`, queueing at most
    /// `max_rpcs_queued` calls.
    pub fn new(this_server: &Server, max_rpcs_queued: usize) -> (r: NatsRpcServer)
        requires
            max_rpcs_queued > 0,
        ensures
            r.spec_topic() == topic_of(this_server.kind@, this_server.id@),
            r.capacity() == max_rpcs_queued,
            r.wf(),
            !r.is_running(),
    {
        NatsRpcServer { topic: this_server.topic(), max_rpcs_queued, running: false }
    }

    pub fn running(&self) -> (r: bool)
        ensures
            r == self.is_running(),
    {
        self.running
    }

    /// The first half of start: refuses a running server, else says which
    /// topic to subscribe on and how large the work queue is.
    pub fn start_plan(&self) -> (r: Result<StartPlan, DispatchError>)
        requires
            self.wf(),
        ensures
            self.is_running() <==> r is Err,
            r is Err ==> r->Err_0 == DispatchError::AlreadyStarted,
            r is Ok ==> r->Ok_0.topic@ == self.spec_topic() && r->Ok_0.queue_capacity
                == self.capacity() && r->Ok_0.queue_capacity > 0,
    {
        if self.running {
            Err(DispatchError::AlreadyStarted)
        } else {
            Ok(StartPlan { topic: self.topic.clone(), queue_capacity: self.max_rpcs_queued })
        }
    }

    /// The second half of start: the server runs once the bus connection
    /// and subscription are open.
    pub fn finish_start(&mut self, subscribed: bool) -> (r: Result<(), DispatchError>)
        requires
            old(self).wf(),
        ensures
            final(self).spec_topic() == old(self).spec_topic(),
            final(self).capacity() == old(self).capacity(),
            old(self).is_running() ==> r == Err::<(), DispatchError>(DispatchError::AlreadyStarted)
                && final(self).is_running(),
            !old(self).is_running() && subscribed ==> r is Ok && final(self).is_running(),
            !old(self).is_running() && !subscribed ==> r == Err::<(), DispatchError>(
                DispatchError::TransportUnavailable,
            ) && !final(self).is_running(),
    {
        if self.running {
            Err(DispatchError::AlreadyStarted)
        } else if subscribed {
            self.running = true;
            Ok(())
        } else {
            Err(DispatchError::TransportUnavailable)
        }
    }

    /// Shuts the server down: a running server has its connection closed,
    /// a stopped one is left as it is. Either way it ends stopped.
    pub fn close(&mut self) -> (r: ShutdownAction)
        ensures
            final(self).spec_topic() == old(self).spec_topic(),
            final(self).capacity() == old(self).capacity(),
            (final(self).is_running(), r) == close_step(old(self).is_running()),
    {
        let was_running = self.running;
        self.running = false;
        if was_running {
            ShutdownAction::CloseConnection
        } else {
            ShutdownAction::Nothing
        }
    }
}

/// The server after a shutdown, and what that shutdown had to release.
pub open spec fn close_step(running: bool) -> (bool, ShutdownAction) {
    (false, if running {
        ShutdownAction::CloseConnection
    } else {
        ShutdownAction::Nothing
    })
}

/// Shutdown is idempotent: a second shutdown right after a first finds
/// nothing open, so nothing is closed twice, and the server stays stopped.
pub proof fn lemma_shutdown_idempotent(running: bool)
    ensures
        close_step(close_step(running).0).1 == ShutdownAction::Nothing,
        close_step(close_step(running).0).0 == close_step(running).0,
        !close_step(running).0,
{
}

} // verus!
