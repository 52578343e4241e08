//! A minimal socket-activation supervisor library.
//!
//! The supervisor owns a listening unix socket per registered service and
//! starts the service binary only once a connection attempt arrives. This
//! crate holds the verified core of that pipeline: the service registry,
//! the descriptor-handoff protocol (an environment variable carrying the
//! descriptor number in decimal), the descriptor flag preparation, the
//! one-shot activation watcher state machine, and the per-connection
//! worker state machine.

use vstd::prelude::*;

pub mod fdflags;
pub mod handoff;
pub mod reap;
pub mod registry;
pub mod spawner;
pub mod watcher;
pub mod worker;

verus! {

/// The reserved environment variable that carries the decimal string form of
/// the listening-socket descriptor handed to a spawned service.
pub const INIT_ENV_FORMAT: &'static str = "INIT_FD";

/// The error returned when the inherited descriptor cannot be discovered:
/// the reserved environment variable is absent or does not parse as a
/// descriptor number.
#[derive(Debug)]
pub struct Error();

} // verus!
