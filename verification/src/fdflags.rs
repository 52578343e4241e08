//! Descriptor flag preparation for the fork/exec handoff.
//!
//! Before a spawned child execs into the service binary, the listening
//! socket's descriptor must lose its close-on-exec flag (so it survives the
//! exec) and its non-blocking flag (so the service sees an ordinary blocking
//! listening socket). The flag words themselves are fetched and stored with
//! descriptor system calls outside this crate; the arithmetic that computes
//! the new flag word is verified here.

use vstd::prelude::*;

verus! {

/// Computes the flag word with every bit of `mask` cleared and every other
/// bit kept, as a descriptor-flag update must.
pub fn clear_flag(flags: u32, mask: u32) -> (r: u32)
    ensures
        r == flags & !mask,
        r & mask == 0,
        r | (flags & mask) == flags,
{
    proof {
        lemma_clear_flag_bits(flags, mask);
    }
    flags & !mask
}

/// After clearing a flag bit, querying the resulting flag word shows the
/// flag absent, and all other bits are exactly as they were.
pub proof fn lemma_clear_flag_bits(flags: u32, mask: u32)
    ensures
        (flags & !mask) & mask == 0,
        (flags & !mask) | (flags & mask) == flags,
        forall|j: u32| j < 32 && mask & (1u32 << j) == 0 ==> #[trigger] ((flags & !mask) & (1u32 << j)) == flags & (1u32 << j),
{
    assert((flags & !mask) & mask == 0) by (bit_vector);
    assert((flags & !mask) | (flags & mask) == flags) by (bit_vector);
    assert forall|j: u32| j < 32 && mask & (1u32 << j) == 0 implies #[trigger] ((flags & !mask) & (1u32 << j)) == flags & (1u32 << j) by {
        assert(mask & (1u32 << j) == 0 ==> (flags & !mask) & (1u32 << j) == flags & (1u32 << j)) by (bit_vector);
    }
}

} // verus!
