//! A dead-man's-switch watchdog for virtual machines.
//!
//! For each machine the guest keeps a file that names the time after which it
//! wants to be reset, and the watchdog keeps a file with the current time. The
//! decisions of the watchdog are made here, as functions from the state of a
//! machine and what the hypervisor answered to the next state, the messages
//! to deliver and the next call to make. Performing the calls is left to the
//! caller.

pub mod api;
pub mod clock;
pub mod config;
pub mod heartbeat;
pub mod laws;
pub mod monitoring;
pub mod notices;
pub mod text;
pub mod thresholds;
pub mod transitions;
