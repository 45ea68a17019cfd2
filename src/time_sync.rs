//! Whether the wall clock can be trusted, and the decisions of the tasks that
//! establish and watch clock synchronisation.
use vstd::prelude::*;
use embassy_sync::blocking_mutex::raw::CriticalSectionRawMutex;
use embassy_sync::signal::Signal;

verus! {

/// The one-shot wake raised when the clock first becomes trustworthy. Whether
/// it is raised is known to the proofs only through [`sync_wake_raised`].
#[verifier::external_body]
pub struct SyncWake {
    inner: Signal<CriticalSectionRawMutex, ()>,
}

/// Whether the wake holds a value that nobody has taken yet.
pub uninterp spec fn sync_wake_raised(w: SyncWake) -> bool;

/// Relies on `embassy_sync::signal::Signal::new`: a new signal holds no value.
#[verifier::external_body]
fn sync_wake_new() -> (r: SyncWake)
    ensures
        !sync_wake_raised(r),
{
    SyncWake { inner: Signal::new() }
}

/// Relies on `embassy_sync::signal::Signal::signal`: the signal then holds a value.
#[verifier::external_body]
fn sync_wake_raise(w: &mut SyncWake)
    ensures
        sync_wake_raised(*final(w)),
{
    w.inner.signal(())
}

/// Relies on `embassy_sync::signal::Signal::try_take`: it hands out the held
/// value, if any, and leaves the signal without one.
#[verifier::external_body]
fn sync_wake_take(w: &mut SyncWake) -> (r: bool)
    ensures
        r == sync_wake_raised(*old(w)),
        !sync_wake_raised(*final(w)),
{
    w.inner.try_take().is_some()
}

/// What the clock-sync protocol reports when polled.
#[derive(Clone, Copy, PartialEq, Eq, Structural, Debug)]
pub enum SyncStatus {
    Pending,
    Completed,
}

/// The abstract state: whether the clock is synchronised, and whether the wake
/// for that transition is still waiting to be taken.
pub struct SyncView {
    pub synced: bool,
    pub wake_raised: bool,
}

/// Monotone "the clock is trustworthy" flag with its one-shot wake.
pub struct TimeSyncState {
    synced: bool,
    wake: SyncWake,
}

impl View for TimeSyncState {
    type V = SyncView;

    closed spec fn view(&self) -> SyncView {
        SyncView { synced: self.synced, wake_raised: sync_wake_raised(self.wake) }
    }
}

/// Marking the clock synchronised: the flag is set, and the wake is raised if
/// and only if the flag was not set before.
pub open spec fn mark_step(v: SyncView) -> SyncView {
    SyncView { synced: true, wake_raised: v.wake_raised || !v.synced }
}

/// One poll of the background watcher.
pub open spec fn watch_step(v: SyncView, status: SyncStatus) -> SyncView {
    if status == SyncStatus::Completed {
        mark_step(v)
    } else {
        v
    }
}

/// The state after the watcher has seen `statuses`, in order.
pub open spec fn watch_run(v: SyncView, statuses: Seq<SyncStatus>) -> SyncView
    decreases statuses.len(),
{
    if statuses.len() == 0 {
        v
    } else {
        watch_run(watch_step(v, statuses[0]), statuses.drop_first())
    }
}

impl TimeSyncState {
    /// An unsynchronised clock with no wake pending.
    pub fn new() -> (s: TimeSyncState)
        ensures
            !s@.synced,
            !s@.wake_raised,
    {
        TimeSyncState { synced: false, wake: sync_wake_new() }
    }

    /// Takes the wake raised by the transition to synchronised, if it is
    /// still there; the flag is left as it is.
    pub fn take_sync_wake(&mut self) -> (woken: bool)
        ensures
            woken == old(self)@.wake_raised,
            final(self)@.synced == old(self)@.synced,
            !final(self)@.wake_raised,
    {
        sync_wake_take(&mut self.wake)
    }
}

/// Whether the clock is synchronised.
pub fn is_time_synced(state: &TimeSyncState) -> (r: bool)
    ensures
        r == state@.synced,
{
    state.synced
}

/// Marks the clock synchronised. Returns `true` exactly on the transition
/// from unsynchronised, which is also when the wake is raised; later calls
/// change nothing.
pub fn mark_time_synced(state: &mut TimeSyncState) -> (fired: bool)
    ensures
        fired == !old(state)@.synced,
        final(state)@ == mark_step(old(state)@),
{
    if !state.synced {
        state.synced = true;
        sync_wake_raise(&mut state.wake);
        true
    } else {
        false
    }
}

/// Poll interval of the watcher while the clock is synchronised, in milliseconds.
pub const WATCH_SYNCED_POLL_MS: u64 = 60_000;

/// Poll interval of the watcher while the protocol has not completed, in milliseconds.
pub const WATCH_PENDING_POLL_MS: u64 = 1_000;

/// What the watcher does after one poll.
pub struct WatchOutcome {
    /// The clock became synchronised on this poll.
    pub newly_synced: bool,
    /// How long to wait before the next poll.
    pub next_poll_ms: u64,
}

/// One poll of the background watcher: a completed protocol marks the clock
/// synchronised and slows polling down; any other status leaves the state
/// alone, so a synchronised clock stays synchronised.
pub fn ntp_sync_watcher(state: &mut TimeSyncState, status: SyncStatus) -> (out: WatchOutcome)
    ensures
        final(state)@ == watch_step(old(state)@, status),
        out.newly_synced == (status == SyncStatus::Completed && !old(state)@.synced),
        out.next_poll_ms == if status == SyncStatus::Completed { WATCH_SYNCED_POLL_MS } else { WATCH_PENDING_POLL_MS },
{
    match status {
        SyncStatus::Completed => {
            let fired = mark_time_synced(state);
            WatchOutcome { newly_synced: fired, next_poll_ms: WATCH_SYNCED_POLL_MS }
        },
        SyncStatus::Pending => WatchOutcome { newly_synced: false, next_poll_ms: WATCH_PENDING_POLL_MS },
    }
}

/// Number of polls the start-up wait makes before it gives up.
pub const STARTUP_MAX_POLLS: u32 = 100;

/// Interval between polls of the start-up wait, in milliseconds.
pub const STARTUP_POLL_MS: u64 = 100;

/// What the start-up wait does after one poll.
#[derive(Clone, Copy, PartialEq, Eq, Structural, Debug)]
pub enum StartupStep {
    /// The clock is synchronised; start-up goes on.
    Synced,
    /// Polled long enough; start-up goes on unsynchronised and the watcher
    /// keeps trying in the background.
    TimedOut,
    /// Wait [`STARTUP_POLL_MS`] and poll again.
    PollAgain,
}

/// The bounded wait for clock synchronisation at start-up.
pub struct StartupSync {
    pub polls: u32,
}

impl StartupSync {
    pub fn new() -> (s: StartupSync)
        ensures
            s.polls == 0,
    {
        StartupSync { polls: 0 }
    }

    /// Handles one poll of the protocol. A completed protocol marks the clock
    /// synchronised. Otherwise the wait gives up once it has waited
    /// [`STARTUP_MAX_POLLS`] times, leaving the flag unset, and else waits again.
    pub fn setup_ntp(&mut self, state: &mut TimeSyncState, status: SyncStatus) -> (step: StartupStep)
        ensures
            status == SyncStatus::Completed ==> step == StartupStep::Synced && final(state)@ == mark_step(old(state)@)
                && final(self).polls == old(self).polls,
            status == SyncStatus::Pending && old(self).polls >= STARTUP_MAX_POLLS ==> step == StartupStep::TimedOut
                && final(state)@ == old(state)@ && final(self).polls == old(self).polls,
            status == SyncStatus::Pending && old(self).polls < STARTUP_MAX_POLLS ==> step == StartupStep::PollAgain
                && final(state)@ == old(state)@ && final(self).polls == old(self).polls + 1,
    {
        match status {
            SyncStatus::Completed => {
                mark_time_synced(state);
                StartupStep::Synced
            },
            SyncStatus::Pending => {
                if self.polls >= STARTUP_MAX_POLLS {
                    StartupStep::TimedOut
                } else {
                    self.polls = self.polls + 1;
                    StartupStep::PollAgain
                }
            },
        }
    }
}

/// Longest time a consumer waits for the clock before it goes on, in milliseconds.
pub const SYNC_GRACE_MS: u64 = 30_000;

/// How long a consumer that wants a trustworthy clock should wait for the
/// wake: not at all when the clock is already synchronised, else at most
/// [`SYNC_GRACE_MS`].
pub fn wait_time_sync_grace_period(state: &TimeSyncState) -> (wait_ms: u64)
    ensures
        state@.synced ==> wait_ms == 0,
        !state@.synced ==> wait_ms == SYNC_GRACE_MS,
{
    if state.synced {
        0
    } else {
        SYNC_GRACE_MS
    }
}

/// Once synchronised the clock stays synchronised; before that it becomes
/// synchronised exactly when the watcher sees a completed protocol, whatever
/// it sees afterwards.
pub proof fn lemma_synced_iff_completed_seen(v: SyncView, statuses: Seq<SyncStatus>)
    ensures
        watch_run(v, statuses).synced == (v.synced || statuses.contains(SyncStatus::Completed)),
    decreases statuses.len(),
{
    if statuses.len() > 0 {
        let tail = statuses.drop_first();
        lemma_synced_iff_completed_seen(watch_step(v, statuses[0]), tail);
        if tail.contains(SyncStatus::Completed) {
            let j = choose|j: int| 0 <= j < tail.len() && tail[j] == SyncStatus::Completed;
            assert(statuses[j + 1] == SyncStatus::Completed);
        }
        if statuses.contains(SyncStatus::Completed) && statuses[0] != SyncStatus::Completed {
            let j = choose|j: int| 0 <= j < statuses.len() && statuses[j] == SyncStatus::Completed;
            assert(tail[j - 1] == SyncStatus::Completed);
        }
        if statuses[0] == SyncStatus::Completed {
            assert(statuses.contains(SyncStatus::Completed));
        }
    }
}

/// Starting unsynchronised with no wake pending, the wake is raised after a
/// run of polls exactly when the clock became synchronised during it.
pub proof fn lemma_wake_marks_transition(v: SyncView, statuses: Seq<SyncStatus>)
    requires
        !v.synced,
        !v.wake_raised,
    ensures
        watch_run(v, statuses).wake_raised == watch_run(v, statuses).synced,
    decreases statuses.len(),
{
    if statuses.len() > 0 {
        let v1 = watch_step(v, statuses[0]);
        if statuses[0] == SyncStatus::Completed {
            lemma_stays_raised(v1, statuses.drop_first());
        } else {
            lemma_wake_marks_transition(v1, statuses.drop_first());
        }
    }
}

proof fn lemma_stays_raised(v: SyncView, statuses: Seq<SyncStatus>)
    requires
        v.synced,
        v.wake_raised,
    ensures
        watch_run(v, statuses).synced,
        watch_run(v, statuses).wake_raised,
    decreases statuses.len(),
{
    if statuses.len() > 0 {
        lemma_stays_raised(watch_step(v, statuses[0]), statuses.drop_first());
    }
}

} // verus!
