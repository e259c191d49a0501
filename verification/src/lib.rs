//! Supervision of a long-running child server process: crash detection and
//! restart, a periodic scheduled restart with advance warnings, and graceful
//! shutdown on an interrupt signal.
//!
//! The supervision state machine lives in `supervisor`; the countdown table
//! it consumes lives in `schedule`; the set-once shutdown flag model lives in
//! `flag`. The surrounding process runs the machine: it polls the child,
//! feeds each observation in as an event, and performs the commands the
//! machine hands back.

pub mod flag;
pub mod schedule;
pub mod supervisor;
