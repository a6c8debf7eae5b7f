//! Safe, verified core of the SOLID-OS interrupt and timer bindings.
pub mod abi;
pub mod bcm2711;
pub mod error;
pub mod fs;
pub mod interrupt;
pub mod loader;
pub mod smp;
pub mod staticenv;
pub mod thread;
pub mod timer;
