//! Telemetry core of an always-on environmental station: sensor health
//! monitoring, time-synchronisation state, a bounded delivery queue, the
//! restart latch, and the decision logic of the acquisition and delivery
//! tasks. The tasks' loops, the hardware and the network live outside.
use vstd::prelude::*;

pub mod reading;
pub mod queue;
pub mod health;
pub mod text;
pub mod wire;
pub mod time_sync;
pub mod reboot;
pub mod acquisition;
pub mod delivery;
pub mod logging;
pub mod config;
pub mod clock;
pub mod wifi;
