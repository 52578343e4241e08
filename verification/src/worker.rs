//! The per-connection request/reply worker.
//!
//! A service runs one worker per accepted connection. The loop reads a
//! request into a fixed-size buffer, invokes a caller-supplied side effect
//! on any non-empty payload, and writes a fixed reply identifying the
//! service by name. A zero-length read (peer closed), a read error or a
//! failed write terminates the loop; such failures are isolated to the one
//! connection. The socket reads and writes are I/O and happen outside this
//! crate; the worker's decisions and the reply it sends are verified here.

use vstd::prelude::*;
use vstd::string::StringExecFns;

verus! {

/// The reply a worker of `service` sends for every non-empty request.
pub open spec fn spec_reply(service: Seq<char>) -> Seq<char> {
    "Answer from "@ + service
}

/// Builds the fixed reply identifying the responding service by name.
pub fn reply_for(service: &str) -> (r: String)
    ensures
        r@ == spec_reply(service@),
{
    String::from_str("Answer from ").concat(service)
}

/// One accepted connection's request/reply loop state: the name of the
/// service answering, and whether the loop has terminated.
pub struct Worker {
    service: String,
    done: bool,
}

impl Worker {
    /// The name of the service this worker answers for.
    pub closed spec fn service_name(&self) -> Seq<char> {
        self.service@
    }

    /// Whether the loop has terminated: a finished worker attempts no
    /// further read, and the connection is released.
    pub closed spec fn is_done(&self) -> bool {
        self.done
    }

    /// A worker for one freshly accepted connection of `service`.
    pub fn new(service: String) -> (w: Worker)
        ensures
            w.service_name() == service@,
            !w.is_done(),
    {
        Worker { service, done: false }
    }

    /// Handles the outcome of one successful read of `n` bytes. A
    /// zero-length read means the peer closed: the loop terminates at once
    /// and nothing is replied. Any non-empty payload — the bytes are
    /// treated as an opaque blob — earns the fixed reply, to be written
    /// back after the caller-supplied side effect has run.
    pub fn on_read(&mut self, n: usize) -> (reply: Option<String>)
        requires
            !old(self).is_done(),
        ensures
            final(self).service_name() == old(self).service_name(),
            final(self).is_done() == (n == 0),
            match reply {
                Some(r) => n > 0 && r@ == spec_reply(old(self).service_name()),
                None => n == 0,
            },
    {
        if n == 0 {
            self.done = true;
            None
        } else {
            Some(reply_for(self.service.as_str()))
        }
    }

    /// A read error terminates the loop; it is logged by the caller, never
    /// propagated.
    pub fn on_read_error(&mut self)
        ensures
            final(self).service_name() == old(self).service_name(),
            final(self).is_done(),
    {
        self.done = true;
    }

    /// Records whether writing the reply succeeded: a failed write
    /// terminates the loop.
    pub fn on_write_result(&mut self, ok: bool)
        ensures
            final(self).service_name() == old(self).service_name(),
            final(self).is_done() == (old(self).is_done() || !ok),
    {
        if !ok {
            self.done = true;
        }
    }

    /// Whether the loop is finished and the connection may be released.
    pub fn is_finished(&self) -> (b: bool)
        ensures
            b == self.is_done(),
    {
        self.done
    }
}

/// Every reply is correctly addressed: the responding service's name
/// stands verbatim in the reply, right after the fixed prefix. Since the
/// reply is a function of the service name alone, independent connections
/// to the same service each receive this same, correctly addressed reply —
/// no cross-talk between workers.
pub proof fn lemma_reply_addressed(service: Seq<char>)
    ensures
        spec_reply(service).len() == 12 + service.len(),
        spec_reply(service).subrange(12, 12 + service.len() as int) == service,
{
    reveal_strlit("Answer from ");
    assert("Answer from "@.len() == 12);
    assert(spec_reply(service).subrange(12, 12 + service.len() as int) =~= service);
}

} // verus!
