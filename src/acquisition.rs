//! The decisions of the periodic acquisition task after a reading is built.
use vstd::prelude::*;
use crate::health::{elapsed_ms, observe_step, HealthState};
use crate::queue::{DeliveryQueue, QUEUE_CAPACITY};
use crate::reading::Reading;
use crate::reboot::{RebootLatch, RebootReason};

verus! {

/// Cadence of the acquisition loop, in milliseconds.
pub const EXECUTION_DELAY_MS: u64 = 1_000;

/// Pause between the primary sample and the secondary measurement, in milliseconds.
pub const SETTLE_DELAY_MS: u64 = 50;

/// Default least time between two readings handed to delivery, in milliseconds.
pub const HTTP_SEND_INTERVAL_MS: u64 = 60_000;

/// State the acquisition task keeps from one cycle to the next.
pub struct SensorTask {
    pub health: HealthState,
    /// When a reading was last accepted by the delivery queue.
    pub last_send_ms: u64,
    /// Least time between two readings handed to delivery.
    pub send_interval_ms: u64,
}

/// What one cycle did with its reading.
#[derive(Clone, Copy, PartialEq, Eq, Structural, Debug)]
pub struct CycleReport {
    /// The sensor was judged stuck and a restart was requested.
    pub stuck: bool,
    /// The reading was accepted by the delivery queue.
    pub enqueued: bool,
}

/// Whether a reading taken at `now_ms` is due for delivery.
pub open spec fn send_due(t: SensorTask, now_ms: u64) -> bool {
    elapsed_ms(t.last_send_ms, now_ms) >= t.send_interval_ms
}

impl SensorTask {
    /// The task's state at start-up, at `now_ms`: the health monitor's
    /// warm-up window and the delivery interval both start then.
    pub fn new(now_ms: u64, send_interval_ms: u64) -> (t: SensorTask)
        ensures
            t.health.boot_ms == now_ms,
            t.health.consecutive_one == 0,
            t.last_send_ms == now_ms,
            t.send_interval_ms == send_interval_ms,
    {
        SensorTask { health: HealthState::new(now_ms), last_send_ms: now_ms, send_interval_ms }
    }

    /// Handles the reading of a cycle taken at `now_ms`. Its air-quality value
    /// goes to the health monitor, and a stuck verdict requests a restart.
    /// The reading is offered to the queue only when the delivery interval
    /// has passed since the last accepted one; a full queue refuses it and
    /// it is dropped. The interval restarts only when the queue accepts.
    pub fn handle_reading(
        &mut self,
        reading: Reading,
        now_ms: u64,
        queue: &mut DeliveryQueue,
        latch: &mut RebootLatch,
    ) -> (report: CycleReport)
        requires
            old(queue).wf(),
        ensures
            (final(self).health, report.stuck) == observe_step(old(self).health, now_ms, reading.voc),
            report.stuck ==> final(latch).pending() == Some(RebootReason::SensorStuck),
            !report.stuck ==> final(latch).pending() == old(latch).pending(),
            final(queue).wf(),
            report.enqueued == (send_due(*old(self), now_ms) && old(queue).items().len() < QUEUE_CAPACITY),
            report.enqueued ==> final(queue).items() == old(queue).items().push(reading)
                && final(self).last_send_ms == now_ms,
            !report.enqueued ==> final(queue).items() == old(queue).items()
                && final(self).last_send_ms == old(self).last_send_ms,
            final(self).send_interval_ms == old(self).send_interval_ms,
    {
        let stuck = self.health.check_stuck_condition(now_ms, reading.voc);
        if stuck {
            latch.request(RebootReason::SensorStuck);
        }
        let elapsed: u64 = if now_ms >= self.last_send_ms { now_ms - self.last_send_ms } else { 0 };
        let mut enqueued = false;
        if elapsed >= self.send_interval_ms {
            match queue.try_enqueue(reading) {
                Ok(()) => {
                    self.last_send_ms = now_ms;
                    enqueued = true;
                },
                Err(_) => {},
            }
        }
        CycleReport { stuck, enqueued }
    }
}

} // verus!
