//! Multiprocessing: processor sets and the decisions around remote calls.
use vstd::prelude::*;

use crate::abi::{SOLID_CORE_MAX, SOLID_ERR_NOTREADY, SOLID_ERR_OK, SOLID_ERR_PAR};

verus! {

/// The bits of all the processors of the system.
pub open spec fn all_processor_bits() -> u32 {
    ((1u32 << (SOLID_CORE_MAX as u32)) - 1) as u32
}

proof fn lemma_all_processor_bits()
    ensures
        all_processor_bits() == 0xfu32,
{
    assert(1u32 << 4u32 == 16u32) by (bit_vector);
}

/// A set of processors, one bit per processor ID.
#[derive(Clone, Copy, PartialEq, Eq, Structural, Hash, Debug)]
pub struct ProcessorSet {
    bits: u32,
}

impl View for ProcessorSet {
    type V = u32;

    closed spec fn view(&self) -> u32 {
        self.bits
    }
}

impl ProcessorSet {
    /// Construct a `ProcessorSet` comprising a single processor.
    pub fn single(processor_id: usize) -> (r: Self)
        requires
            processor_id < SOLID_CORE_MAX,
        ensures
            r@ == 1u32 << (processor_id as u32),
    {
        let bit: u32 = 1u32 << processor_id as u32;
        assert(bit & 0xf == bit) by (bit_vector)
            requires
                bit == 1u32 << processor_id as u32,
                processor_id < 4,
        ;
        proof {
            lemma_all_processor_bits();
        }
        Self::from_bits_truncating(bit)
    }

    /// Construct a `ProcessorSet` from a bitfield, ignoring non-existent
    /// processors.
    pub fn from_bits_truncating(bits: u32) -> (r: Self)
        ensures
            r@ == bits & all_processor_bits(),
    {
        proof {
            lemma_all_processor_bits();
        }
        Self { bits: bits & 0xf }
    }

    /// Construct a `ProcessorSet` including all processors in the system.
    pub fn all() -> (r: Self)
        ensures
            r@ == all_processor_bits(),
    {
        let r = Self::from_bits_truncating(u32::MAX);
        proof {
            lemma_all_processor_bits();
        }
        assert(u32::MAX & 0xf == 0xf) by (bit_vector);
        r
    }

    /// The set as a bitfield.
    pub fn as_u32_bits(&self) -> (r: u32)
        ensures
            r == self@,
    {
        self.bits
    }
}

/// Get the number of processors in the system.
pub fn num_processors() -> (r: usize)
    ensures
        r == SOLID_CORE_MAX,
{
    SOLID_CORE_MAX
}

/// The error type for remote calls.
#[derive(Clone, Copy, PartialEq, Eq, Structural, Debug, Hash)]
pub enum RemoteCallError {
    /// `SOLID_ERR_NOTREADY`
    NotReady,
    /// The current processor ID or an invalid processor ID was specified as
    /// the target of a remote call.
    BadProcessor,
}

/// Check the target of a call on a single processor before asking the OS.
pub fn check_target_processor(processor_id: usize) -> (r: Result<(), RemoteCallError>)
    ensures
        r is Ok <==> processor_id < SOLID_CORE_MAX,
        r is Err ==> r == Err::<(), RemoteCallError>(RemoteCallError::BadProcessor),
{
    if processor_id >= num_processors() {
        Err(RemoteCallError::BadProcessor)
    } else {
        Ok(())
    }
}

/// The statuses that the OS's request to run a function on one processor can
/// return. Any other status is a broken invariant.
pub open spec fn is_request_exec_status(status: i32) -> bool {
    status == SOLID_ERR_OK || status == SOLID_ERR_NOTREADY || status == SOLID_ERR_PAR
}

/// The outcome of a call on a single processor, from the OS's status.
pub fn request_exec_result(status: i32) -> (r: Result<(), RemoteCallError>)
    requires
        is_request_exec_status(status),
    ensures
        status == SOLID_ERR_OK ==> r is Ok,
        status == SOLID_ERR_NOTREADY ==> r == Err::<(), RemoteCallError>(RemoteCallError::NotReady),
        status == SOLID_ERR_PAR ==> r == Err::<(), RemoteCallError>(RemoteCallError::BadProcessor),
{
    if status == SOLID_ERR_OK {
        Ok(())
    } else if status == SOLID_ERR_NOTREADY {
        Err(RemoteCallError::NotReady)
    } else {
        Err(RemoteCallError::BadProcessor)
    }
}

/// The statuses that the OS's request to run a function on a set of
/// processors can return. Any other status is a broken invariant.
pub open spec fn is_for_each_cpu_status(status: i32) -> bool {
    status == SOLID_ERR_OK || status == SOLID_ERR_NOTREADY
}

/// The outcome of a call on a set of processors, from the OS's status.
pub fn for_each_cpu_result(status: i32) -> (r: Result<(), RemoteCallError>)
    requires
        is_for_each_cpu_status(status),
    ensures
        status == SOLID_ERR_OK ==> r is Ok,
        status == SOLID_ERR_NOTREADY ==> r == Err::<(), RemoteCallError>(RemoteCallError::NotReady),
{
    if status == SOLID_ERR_OK {
        Ok(())
    } else {
        Err(RemoteCallError::NotReady)
    }
}

} // verus!
