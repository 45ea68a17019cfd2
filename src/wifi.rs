//! The retry policy for joining the wireless network at start-up.
use vstd::prelude::*;

verus! {

/// Pause after starting the radio before the first attempt, in milliseconds.
pub const WIFI_START_DELAY_MS: u64 = 500;

/// Number of connection attempts before start-up fails.
pub const MAX_ATTEMPTS: u32 = 40;

/// Number of link polls an attempt waits beyond its first before it fails.
pub const MAX_CONNECTED_WAIT_TICKS: u32 = 40;

/// Interval between link polls, in milliseconds.
pub const LINK_POLL_MS: u64 = 250;

/// Pause between a failed attempt and the next one, in milliseconds.
pub const RETRY_DELAY_MS: u64 = 2_000;

/// What joining does next.
#[derive(Clone, Copy, PartialEq, Eq, Structural, Debug)]
pub enum JoinStep {
    /// The link is up.
    Joined,
    /// Wait this long, then poll the link again.
    PollLink(u64),
    /// Wait this long, then start a new attempt.
    RetryAfter(u64),
    /// All attempts failed.
    GiveUp,
}

/// Progress of joining: attempts started so far, and link polls waited in
/// the current attempt.
pub struct WifiJoin {
    pub attempts: u32,
    pub wait_ticks: u32,
}

pub open spec fn after_failed_attempt(j: WifiJoin) -> JoinStep {
    if j.attempts >= MAX_ATTEMPTS {
        JoinStep::GiveUp
    } else {
        JoinStep::RetryAfter(RETRY_DELAY_MS)
    }
}

impl WifiJoin {
    pub fn new() -> (j: WifiJoin)
        ensures
            j.attempts == 0,
            j.wait_ticks == 0,
    {
        WifiJoin { attempts: 0, wait_ticks: 0 }
    }

    /// Starts an attempt and returns its number, counting from one.
    pub fn start_attempt(&mut self) -> (n: u32)
        requires
            old(self).attempts < u32::MAX,
        ensures
            final(self).attempts == old(self).attempts + 1,
            final(self).wait_ticks == 0,
            n == final(self).attempts,
    {
        self.attempts = self.attempts + 1;
        self.wait_ticks = 0;
        self.attempts
    }

    /// Handles the result of the call that asks the radio to connect. When
    /// it was accepted the link is polled at once; when it was refused the
    /// attempt has failed.
    pub fn on_connect_call(&mut self, accepted: bool) -> (step: JoinStep)
        ensures
            *final(self) == *old(self),
            accepted ==> step == JoinStep::PollLink(0),
            !accepted ==> step == after_failed_attempt(*old(self)),
    {
        if accepted {
            JoinStep::PollLink(0)
        } else if self.attempts >= MAX_ATTEMPTS {
            JoinStep::GiveUp
        } else {
            JoinStep::RetryAfter(RETRY_DELAY_MS)
        }
    }

    /// Handles one poll of the link. An up link ends joining. A down link is
    /// polled again after [`LINK_POLL_MS`] until the attempt has waited more
    /// than [`MAX_CONNECTED_WAIT_TICKS`] polls; then the attempt has failed,
    /// and joining gives up once [`MAX_ATTEMPTS`] attempts have failed.
    pub fn on_link_status(&mut self, linked: bool) -> (step: JoinStep)
        ensures
            final(self).attempts == old(self).attempts,
            linked ==> step == JoinStep::Joined && final(self).wait_ticks == old(self).wait_ticks,
            !linked && old(self).wait_ticks > MAX_CONNECTED_WAIT_TICKS ==> step == after_failed_attempt(*old(self))
                && final(self).wait_ticks == old(self).wait_ticks,
            !linked && old(self).wait_ticks <= MAX_CONNECTED_WAIT_TICKS ==> step == JoinStep::PollLink(LINK_POLL_MS)
                && final(self).wait_ticks == old(self).wait_ticks + 1,
    {
        if linked {
            JoinStep::Joined
        } else if self.wait_ticks > MAX_CONNECTED_WAIT_TICKS {
            if self.attempts >= MAX_ATTEMPTS {
                JoinStep::GiveUp
            } else {
                JoinStep::RetryAfter(RETRY_DELAY_MS)
            }
        } else {
            self.wait_ticks = self.wait_ticks + 1;
            JoinStep::PollLink(LINK_POLL_MS)
        }
    }
}

} // verus!
