//! Constants of the SOLID-OS interface: status codes and platform limits.
use vstd::prelude::*;

verus! {

/// Success.
pub const SOLID_ERR_OK: i32 = 0;

/// A parameter was rejected.
pub const SOLID_ERR_PAR: i32 = -17;

/// Memory access violation.
pub const SOLID_ERR_MACV: i32 = -26;

/// Out of memory.
pub const SOLID_ERR_NOMEM: i32 = -33;

/// Out of resources.
pub const SOLID_ERR_NORES: i32 = -35;

/// The object was not found.
pub const SOLID_ERR_NOTFOUND: i32 = -1000;

/// The operation is not supported.
pub const SOLID_ERR_NOTSUPPORTED: i32 = -1001;

/// Bad file descriptor.
pub const SOLID_ERR_EBADF: i32 = -1002;

/// Invalid content.
pub const SOLID_ERR_INVALIDCONTENT: i32 = -1003;

/// The slot is not in use (for example, no handler on an interrupt line).
pub const SOLID_ERR_NOTUSED: i32 = -1004;

/// The slot is already in use (for example, a handler on an interrupt line).
pub const SOLID_ERR_ALREADYUSED: i32 = -1005;

/// Out of bounds.
pub const SOLID_ERR_OUTOFBOUND: i32 = -1006;

/// Bad call sequence.
pub const SOLID_ERR_BADSEQUENCE: i32 = -1007;

/// Unknown device.
pub const SOLID_ERR_UNKNOWNDEVICE: i32 = -1008;

/// The resource is busy.
pub const SOLID_ERR_BUSY: i32 = -1009;

/// The operation timed out.
pub const SOLID_ERR_TIMEOUT: i32 = -1010;

/// Invalid access.
pub const SOLID_ERR_INVALIDACCESS: i32 = -1011;

/// The target is not ready.
pub const SOLID_ERR_NOTREADY: i32 = -1012;

/// The number of processors of the target system (a quad-core Cortex-A72).
pub const SOLID_CORE_MAX: usize = 4;

/// Whether each processor has a timer queue of its own. When it is `false`,
/// a single timer queue is served by the first processor, and only that
/// processor may add timers to it or remove them.
pub const SOLID_TIMER_EACHCPU: bool = false;

/// The largest interrupt number of the interrupt controller (GIC).
pub const GIC_MAXINTNO: usize = 1019;

/// The smallest interrupt number of a shared peripheral interrupt. Numbers
/// below it denote processor-private interrupts.
pub const FIRST_SHARED_INTNO: i32 = 32;

} // verus!
