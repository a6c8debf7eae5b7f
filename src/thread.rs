//! Thread states
use vstd::prelude::*;

verus! {

/// The CPU context record that the OS passes to an interrupt or timer
/// handler, held by its address.
pub struct CpuCx {
    raw: usize,
}

impl CpuCx {
    #[verifier::type_invariant]
    spec fn non_null(self) -> bool {
        self.raw != 0
    }

    /// The address of the record.
    pub closed spec fn addr(&self) -> usize {
        self.raw
    }

    /// Wrap the address of a CPU context record, which is never null.
    pub fn new(raw: usize) -> (r: Self)
        requires
            raw != 0,
        ensures
            r.addr() == raw,
    {
        CpuCx { raw }
    }

    /// Get the address of the underlying `SOLID_CPU_CONTEXT` record.
    pub fn as_raw(&self) -> (r: usize)
        ensures
            r == self.addr(),
            r != 0,
    {
        proof {
            use_type_invariant(self);
        }
        self.raw
    }
}

} // verus!
