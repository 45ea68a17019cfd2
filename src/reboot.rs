//! The single-slot latch through which a restart of the device is requested.
use vstd::prelude::*;
use vstd::string::*;
use embassy_sync::blocking_mutex::raw::CriticalSectionRawMutex;
use embassy_sync::signal::Signal;

verus! {

/// Why a restart is requested.
#[derive(Clone, Copy, PartialEq, Eq, Structural, Debug)]
pub enum RebootReason {
    /// The air-quality sensor keeps reporting its saturated value.
    SensorStuck,
}

/// The signal that carries a restart request. What it holds is known to the
/// proofs only through [`reboot_slot`].
#[verifier::external_body]
pub struct RebootSignal {
    inner: Signal<CriticalSectionRawMutex, RebootReason>,
}

/// The request the signal holds, if any.
pub uninterp spec fn reboot_slot(s: RebootSignal) -> Option<RebootReason>;

/// Relies on `embassy_sync::signal::Signal::new`: a new signal holds nothing.
#[verifier::external_body]
fn reboot_signal_new() -> (r: RebootSignal)
    ensures
        reboot_slot(r) is None,
{
    RebootSignal { inner: Signal::new() }
}

/// Relies on `embassy_sync::signal::Signal::signal`: the value replaces
/// whatever the signal held.
#[verifier::external_body]
fn reboot_signal_raise(s: &mut RebootSignal, reason: RebootReason)
    ensures
        reboot_slot(*final(s)) == Some(reason),
{
    s.inner.signal(reason)
}

/// Relies on `embassy_sync::signal::Signal::try_take`: it hands out the held
/// value, if any, and leaves the signal empty.
#[verifier::external_body]
fn reboot_signal_take(s: &mut RebootSignal) -> (r: Option<RebootReason>)
    ensures
        r == reboot_slot(*old(s)),
        reboot_slot(*final(s)) is None,
{
    s.inner.try_take()
}

/// At most one pending restart request: a new request overwrites one that
/// was not read yet, and reading a request consumes it.
pub struct RebootLatch {
    signal: RebootSignal,
}

impl RebootLatch {
    /// The pending request, if any.
    pub closed spec fn pending(&self) -> Option<RebootReason> {
        reboot_slot(self.signal)
    }

    pub fn new() -> (l: RebootLatch)
        ensures
            l.pending() is None,
    {
        RebootLatch { signal: reboot_signal_new() }
    }

    /// Requests a restart for `reason`, replacing any pending request.
    pub fn request(&mut self, reason: RebootReason)
        ensures
            final(self).pending() == Some(reason),
    {
        reboot_signal_raise(&mut self.signal, reason)
    }

    /// Consumes the pending request.
    pub fn take_request(&mut self) -> (r: Option<RebootReason>)
        ensures
            r == old(self).pending(),
            final(self).pending() is None,
    {
        reboot_signal_take(&mut self.signal)
    }
}

/// How long the supervisor waits after a request before it restarts the
/// device, so that buffered log output can drain, in milliseconds.
pub const REBOOT_GRACE_MS: u64 = 200;

/// The name of a restart reason, as the supervisor reports it.
pub fn reason_name(reason: RebootReason) -> (r: String)
    ensures
        reason == RebootReason::SensorStuck ==> r@ == "SensorStuck"@,
{
    match reason {
        RebootReason::SensorStuck => String::from_str("SensorStuck"),
    }
}

} // verus!
