//! Detection of the air-quality sensor's stuck-at-saturation failure mode.
use vstd::prelude::*;

verus! {

/// Length of the warm-up window after construction, in milliseconds, during
/// which no detection fires.
pub const WARMUP_MS: u64 = 60_000;

/// Number of consecutive saturated readings that makes the sensor stuck.
pub const STUCK_THRESHOLD: u16 = 20;

/// The value the sensor reports without end once it is stuck.
pub const SATURATED_VOC: u16 = 1;

/// Milliseconds from `since` to `now`; zero if `now` is earlier.
pub open spec fn elapsed_ms(since: u64, now: u64) -> nat {
    if now >= since {
        (now - since) as nat
    } else {
        0
    }
}

/// Hysteresis detector over the stream of air-quality readings.
///
/// `boot_ms` is the instant of construction on the caller's monotonic clock;
/// `consecutive_one` counts the saturated readings seen in a row since the
/// warm-up window ended.
pub struct HealthState {
    pub boot_ms: u64,
    pub consecutive_one: u16,
}

/// Whether `now_ms` still lies in the warm-up window of `h`.
pub open spec fn in_warmup(h: HealthState, now_ms: u64) -> bool {
    elapsed_ms(h.boot_ms, now_ms) < WARMUP_MS
}

/// One observation: the next state and whether the sensor is judged stuck.
pub open spec fn observe_step(h: HealthState, now_ms: u64, voc: Option<u16>) -> (HealthState, bool) {
    if in_warmup(h, now_ms) {
        (HealthState { boot_ms: h.boot_ms, consecutive_one: 0 }, false)
    } else if voc == Some(SATURATED_VOC) {
        let n: u16 = if h.consecutive_one == u16::MAX { u16::MAX } else { (h.consecutive_one + 1) as u16 };
        (HealthState { boot_ms: h.boot_ms, consecutive_one: n }, n >= STUCK_THRESHOLD)
    } else {
        (HealthState { boot_ms: h.boot_ms, consecutive_one: 0 }, false)
    }
}

/// The state after a run of observations `(now_ms, voc)`, and the verdict of
/// each one, in order.
pub open spec fn observe_run(h: HealthState, obs: Seq<(u64, Option<u16>)>) -> (HealthState, Seq<bool>)
    decreases obs.len(),
{
    if obs.len() == 0 {
        (h, Seq::<bool>::empty())
    } else {
        let (h1, v1) = observe_step(h, obs[0].0, obs[0].1);
        let (h2, rest) = observe_run(h1, obs.drop_first());
        (h2, seq![v1] + rest)
    }
}

impl HealthState {
    /// A detector whose warm-up window starts at `now_ms`.
    pub fn new(now_ms: u64) -> (h: HealthState)
        ensures
            h.boot_ms == now_ms,
            h.consecutive_one == 0,
    {
        HealthState { boot_ms: now_ms, consecutive_one: 0 }
    }

    /// Feeds the latest air-quality reading (absent when its measurement
    /// failed) taken at `now_ms`. Returns `true` when the sensor is stuck:
    /// past the warm-up window, with at least [`STUCK_THRESHOLD`] saturated
    /// readings in a row. Inside the window, or on any other reading, the
    /// streak is reset.
    pub fn check_stuck_condition(&mut self, now_ms: u64, voc: Option<u16>) -> (stuck: bool)
        ensures
            (*final(self), stuck) == observe_step(*old(self), now_ms, voc),
            in_warmup(*old(self), now_ms) ==> !stuck && final(self).consecutive_one == 0,
            !in_warmup(*old(self), now_ms) && voc != Some(SATURATED_VOC) ==> !stuck && final(self).consecutive_one == 0,
    {
        let elapsed: u64 = if now_ms >= self.boot_ms { now_ms - self.boot_ms } else { 0 };
        if elapsed < WARMUP_MS {
            self.consecutive_one = 0;
            return false;
        }
        match voc {
            Some(v) if v == SATURATED_VOC => {
                self.consecutive_one = self.consecutive_one.saturating_add(1);
                self.consecutive_one >= STUCK_THRESHOLD
            },
            _ => {
                self.consecutive_one = 0;
                false
            },
        }
    }
}

/// Past the warm-up window, a run of saturated readings that starts from a
/// streak of `c` gives, at its `i`-th observation, the verdict "stuck" exactly
/// when `c + i + 1` reaches the threshold; the streak is then that count,
/// capped at `u16::MAX`.
pub proof fn lemma_saturated_run(h: HealthState, obs: Seq<(u64, Option<u16>)>)
    requires
        forall|i: int| 0 <= i < obs.len() ==> !in_warmup(h, #[trigger] obs[i].0),
        forall|i: int| 0 <= i < obs.len() ==> #[trigger] obs[i].1 == Some(SATURATED_VOC),
    ensures
        observe_run(h, obs).1.len() == obs.len(),
        forall|i: int| 0 <= i < obs.len() ==> #[trigger] observe_run(h, obs).1[i]
            == (h.consecutive_one + i + 1 >= STUCK_THRESHOLD),
        observe_run(h, obs).0.boot_ms == h.boot_ms,
        observe_run(h, obs).0.consecutive_one == if h.consecutive_one + obs.len() >= u16::MAX {
            u16::MAX as int
        } else {
            h.consecutive_one + obs.len()
        },
    decreases obs.len(),
{
    if obs.len() > 0 {
        let (h1, v1) = observe_step(h, obs[0].0, obs[0].1);
        let tail = obs.drop_first();
        assert forall|i: int| 0 <= i < tail.len() implies !in_warmup(h1, #[trigger] tail[i].0) by {
            assert(tail[i] == obs[i + 1]);
        }
        assert forall|i: int| 0 <= i < tail.len() implies #[trigger] tail[i].1 == Some(SATURATED_VOC) by {
            assert(tail[i] == obs[i + 1]);
        }
        lemma_saturated_run(h1, tail);
        let run = observe_run(h, obs).1;
        assert forall|i: int| 0 <= i < obs.len() implies #[trigger] run[i]
            == (h.consecutive_one + i + 1 >= STUCK_THRESHOLD) by {
            if i > 0 {
                assert(run[i] == observe_run(h1, tail).1[i - 1]);
            }
        }
    }
}

/// Past the warm-up window and from an empty streak, the first nineteen
/// saturated readings in a row are not judged stuck and the twentieth is.
pub proof fn lemma_twentieth_saturated_reading_is_stuck(h: HealthState, obs: Seq<(u64, Option<u16>)>)
    requires
        h.consecutive_one == 0,
        obs.len() >= STUCK_THRESHOLD,
        forall|i: int| 0 <= i < obs.len() ==> !in_warmup(h, #[trigger] obs[i].0),
        forall|i: int| 0 <= i < obs.len() ==> #[trigger] obs[i].1 == Some(SATURATED_VOC),
    ensures
        forall|i: int| 0 <= i < STUCK_THRESHOLD - 1 ==> !#[trigger] observe_run(h, obs).1[i],
        observe_run(h, obs).1[STUCK_THRESHOLD - 1],
{
    lemma_saturated_run(h, obs);
}

/// Inside the warm-up window no reading is judged stuck, whatever its value.
pub proof fn lemma_no_verdict_in_warmup(h: HealthState, obs: Seq<(u64, Option<u16>)>)
    requires
        forall|i: int| 0 <= i < obs.len() ==> in_warmup(h, #[trigger] obs[i].0),
    ensures
        observe_run(h, obs).1.len() == obs.len(),
        forall|i: int| 0 <= i < obs.len() ==> !#[trigger] observe_run(h, obs).1[i],
        obs.len() > 0 ==> observe_run(h, obs).0.consecutive_one == 0,
    decreases obs.len(),
{
    if obs.len() > 0 {
        let (h1, v1) = observe_step(h, obs[0].0, obs[0].1);
        let tail = obs.drop_first();
        assert forall|i: int| 0 <= i < tail.len() implies in_warmup(h1, #[trigger] tail[i].0) by {
            assert(tail[i] == obs[i + 1]);
        }
        lemma_no_verdict_in_warmup(h1, tail);
        let run = observe_run(h, obs).1;
        assert forall|i: int| 0 <= i < obs.len() implies !#[trigger] run[i] by {
            if i > 0 {
                assert(run[i] == observe_run(h1, tail).1[i - 1]);
            }
        }
    }
}

} // verus!
