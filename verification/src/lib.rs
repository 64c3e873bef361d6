//! A small, modular foundation for building operating-system kernels.
//!
//! The crate models the architecture of a kernel as traits (timers,
//! interrupt controllers, address translation, boot stages, device
//! drivers, memory managers, schedulers and message endpoints), together
//! with the pieces of orchestration logic that tie them together: the boot
//! pipeline, a fixed-capacity device registry, a kernel wrapper and a lock.
//! Every executable function carries a contract that Verus proves.

pub mod arch;
pub mod boot;
pub mod device;
pub mod ipc;
pub mod kernel;
pub mod memory;
pub mod scheduler;
pub mod sync;
