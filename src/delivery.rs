//! The decisions of the network delivery task: when to build a connection,
//! when to deliver, and what to do with the result of each post.
use vstd::prelude::*;

verus! {

/// Pause before trying again to build a client that could not be built, in milliseconds.
pub const CONNECT_RETRY_MS: u64 = 2_000;

/// Pause after a transport failure before the connection is rebuilt, in milliseconds.
pub const TRANSPORT_RETRY_MS: u64 = 2_000;

/// Fixed cool-down after the endpoint answers "too many requests", in milliseconds.
pub const RATE_LIMIT_COOLDOWN_MS: u64 = 5_000;

pub const STATUS_OK: u16 = 200;
pub const STATUS_CREATED: u16 = 201;
pub const STATUS_TOO_MANY_REQUESTS: u16 = 429;

/// How a post ended: with a status from the endpoint, or without an exchange.
#[derive(Clone, Copy, PartialEq, Eq, Structural, Debug)]
pub enum PostOutcome {
    Status(u16),
    TransportFailed,
}

/// The meaning of a post's outcome.
#[derive(Clone, Copy, PartialEq, Eq, Structural, Debug)]
pub enum Verdict {
    Delivered,
    RateLimited,
    ServerError,
    TransportFailed,
}

/// What the task does next.
#[derive(Clone, Copy, PartialEq, Eq, Structural, Debug)]
pub enum DeliveryAction {
    /// Delivery is disabled: do nothing, ever.
    StandBy,
    /// Build a fresh client.
    Connect,
    /// Wait for a reading and post it on the current client.
    Deliver,
}

/// What follows one post.
#[derive(Clone, Copy, PartialEq, Eq, Structural, Debug)]
pub struct PostReport {
    pub verdict: Verdict,
    /// Pause before the task goes on.
    pub delay_ms: u64,
}

/// State of the delivery task: whether delivery is enabled at all, and
/// whether it holds a usable client.
pub struct NetworkTask {
    pub enabled: bool,
    pub connected: bool,
}

pub open spec fn verdict_of(outcome: PostOutcome) -> Verdict {
    match outcome {
        PostOutcome::Status(s) => if s == STATUS_OK || s == STATUS_CREATED {
            Verdict::Delivered
        } else if s == STATUS_TOO_MANY_REQUESTS {
            Verdict::RateLimited
        } else {
            Verdict::ServerError
        },
        PostOutcome::TransportFailed => Verdict::TransportFailed,
    }
}

pub open spec fn delay_of(v: Verdict) -> u64 {
    match v {
        Verdict::RateLimited => RATE_LIMIT_COOLDOWN_MS,
        Verdict::TransportFailed => TRANSPORT_RETRY_MS,
        _ => 0,
    }
}

pub open spec fn next_action_of(t: NetworkTask) -> DeliveryAction {
    if !t.enabled {
        DeliveryAction::StandBy
    } else if !t.connected {
        DeliveryAction::Connect
    } else {
        DeliveryAction::Deliver
    }
}

/// The state after an attempt to build a client.
pub open spec fn connect_step(t: NetworkTask, built: bool) -> NetworkTask {
    NetworkTask { enabled: t.enabled, connected: t.enabled && (t.connected || built) }
}

/// The state after a post: only a transport failure gives up the client.
pub open spec fn post_step(t: NetworkTask, outcome: PostOutcome) -> NetworkTask {
    NetworkTask { enabled: t.enabled, connected: t.connected && outcome != PostOutcome::TransportFailed }
}

/// Classifies the status of a completed exchange.
pub fn classify(outcome: PostOutcome) -> (v: Verdict)
    ensures
        v == verdict_of(outcome),
{
    match outcome {
        PostOutcome::Status(s) => {
            if s == STATUS_OK || s == STATUS_CREATED {
                Verdict::Delivered
            } else if s == STATUS_TOO_MANY_REQUESTS {
                Verdict::RateLimited
            } else {
                Verdict::ServerError
            }
        },
        PostOutcome::TransportFailed => Verdict::TransportFailed,
    }
}

impl NetworkTask {
    /// The task at start-up, with delivery enabled or not by configuration,
    /// and no client yet.
    pub fn new(enabled: bool) -> (t: NetworkTask)
        ensures
            t.enabled == enabled,
            !t.connected,
    {
        NetworkTask { enabled, connected: false }
    }

    /// What the task does next: nothing when disabled; else build a client
    /// when it has none, and deliver when it has one.
    pub fn next_action(&self) -> (a: DeliveryAction)
        ensures
            a == next_action_of(*self),
    {
        if !self.enabled {
            DeliveryAction::StandBy
        } else if !self.connected {
            DeliveryAction::Connect
        } else {
            DeliveryAction::Deliver
        }
    }

    /// Records an attempt to build a client. Returns the pause before the
    /// task goes on: [`CONNECT_RETRY_MS`] when building failed, else none.
    pub fn on_connect(&mut self, built: bool) -> (delay_ms: u64)
        ensures
            *final(self) == connect_step(*old(self), built),
            delay_ms == if built { 0 } else { CONNECT_RETRY_MS },
    {
        self.connected = self.enabled && (self.connected || built);
        if built {
            0
        } else {
            CONNECT_RETRY_MS
        }
    }

    /// Records how a post ended. A status keeps the client, whatever it is:
    /// 200 and 201 deliver, 429 asks for a cool-down, any other is a server
    /// error. A transport failure discards the client, so that the next
    /// action builds a new one after a pause.
    pub fn on_post(&mut self, outcome: PostOutcome) -> (report: PostReport)
        ensures
            *final(self) == post_step(*old(self), outcome),
            report.verdict == verdict_of(outcome),
            report.delay_ms == delay_of(verdict_of(outcome)),
    {
        let verdict = classify(outcome);
        if verdict == Verdict::TransportFailed {
            self.connected = false;
        }
        let delay_ms = match verdict {
            Verdict::RateLimited => RATE_LIMIT_COOLDOWN_MS,
            Verdict::TransportFailed => TRANSPORT_RETRY_MS,
            _ => 0,
        };
        PostReport { verdict, delay_ms }
    }
}

/// Number of transport failures in a run of post outcomes.
pub open spec fn transport_failures(script: Seq<PostOutcome>) -> nat
    decreases script.len(),
{
    if script.len() == 0 {
        0
    } else {
        (if script[0] == PostOutcome::TransportFailed { 1nat } else { 0nat }) + transport_failures(script.drop_first())
    }
}

/// Drives a task through a run of post outcomes, building a client (which
/// succeeds) whenever the next action asks for one. Gives the final state and
/// the number of clients built.
pub open spec fn drive(t: NetworkTask, script: Seq<PostOutcome>) -> (NetworkTask, nat)
    decreases script.len(),
{
    if script.len() == 0 {
        (t, 0)
    } else {
        let t1 = post_step(t, script[0]);
        let rebuild = next_action_of(t1) == DeliveryAction::Connect;
        let t2 = if rebuild { connect_step(t1, true) } else { t1 };
        let (t3, n) = drive(t2, script.drop_first());
        (t3, (if rebuild { 1nat } else { 0nat }) + n)
    }
}

/// An enabled task holding a client rebuilds its connection once after each
/// transport failure and never after a status, whatever the status is.
pub proof fn lemma_rebuilds_match_transport_failures(t: NetworkTask, script: Seq<PostOutcome>)
    requires
        t.enabled,
        t.connected,
    ensures
        drive(t, script).1 == transport_failures(script),
        drive(t, script).0 == t,
    decreases script.len(),
{
    if script.len() > 0 {
        lemma_rebuilds_match_transport_failures(t, script.drop_first());
    }
}

/// An event the delivery task learns of.
#[derive(Clone, Copy, PartialEq, Eq, Structural, Debug)]
pub enum DeliveryEvent {
    ConnectAttempt(bool),
    Posted(PostOutcome),
}

pub open spec fn event_step(t: NetworkTask, e: DeliveryEvent) -> NetworkTask {
    match e {
        DeliveryEvent::ConnectAttempt(built) => connect_step(t, built),
        DeliveryEvent::Posted(outcome) => post_step(t, outcome),
    }
}

/// The states a task passes through over a run of events, the first one included.
pub open spec fn states_over(t: NetworkTask, events: Seq<DeliveryEvent>) -> Seq<NetworkTask>
    decreases events.len(),
{
    if events.len() == 0 {
        seq![t]
    } else {
        seq![t] + states_over(event_step(t, events[0]), events.drop_first())
    }
}

/// A task whose delivery is disabled stands by in every state it can reach,
/// whatever happens: it never builds a client and never posts.
pub proof fn lemma_disabled_never_delivers(t: NetworkTask, events: Seq<DeliveryEvent>)
    requires
        !t.enabled,
    ensures
        states_over(t, events).len() == events.len() + 1,
        forall|i: int| 0 <= i < states_over(t, events).len()
            ==> next_action_of(#[trigger] states_over(t, events)[i]) == DeliveryAction::StandBy,
    decreases events.len(),
{
    if events.len() > 0 {
        let t1 = event_step(t, events[0]);
        lemma_disabled_never_delivers(t1, events.drop_first());
        let all = states_over(t, events);
        assert forall|i: int| 0 <= i < all.len() implies next_action_of(#[trigger] all[i]) == DeliveryAction::StandBy by {
            if i > 0 {
                assert(all[i] == states_over(t1, events.drop_first())[i - 1]);
            }
        }
    }
}

} // verus!
