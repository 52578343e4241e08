//! The compute half of spawning a service.
//!
//! The supervisor activates a service by forking and exec'ing its binary;
//! the fork, the descriptor system calls and the exec itself are I/O and
//! happen outside this crate. What is verified here is everything the
//! child must compute before the exec: the program path resolved from the
//! fixed build-output directory and the service name, and the
//! environment-variable assignment that carries the descriptor number to
//! the exec'd service. The descriptor's flag words are prepared with
//! `crate::fdflags::clear_flag`.

use vstd::prelude::*;
use vstd::string::{StringExecFns, StrSliceExecFns};

verus! {

use crate::INIT_ENV_FORMAT;
use crate::handoff::{encode_fd, spec_dec};

/// The path of a service's binary: the fixed build-output directory joined
/// with the service name.
pub open spec fn spec_program_path(service: Seq<char>) -> Seq<char> {
    "target/debug/"@ + service
}

/// Everything the child computes before exec'ing into a service: the
/// program path, and the name and value of the environment variable that
/// hands the listening-socket descriptor over.
pub struct ExecPlan {
    pub program_path: String,
    pub env_name: String,
    pub env_value: Vec<u8>,
}

/// Prepares the exec of `service` with inherited descriptor `socket_fd`:
/// the program path is the build-output directory joined with the service
/// name, and the handoff variable is set to the descriptor number in
/// decimal. A descriptor number is nonnegative.
pub fn plan_exec(service: &str, socket_fd: i32) -> (r: ExecPlan)
    requires
        0 <= socket_fd,
    ensures
        r.program_path@ == spec_program_path(service@),
        r.env_name@ == INIT_ENV_FORMAT@,
        r.env_value@ == spec_dec(socket_fd as nat),
{
    ExecPlan {
        program_path: String::from_str("target/debug/").concat(service),
        env_name: String::from_str(INIT_ENV_FORMAT),
        env_value: encode_fd(socket_fd),
    }
}

} // verus!
