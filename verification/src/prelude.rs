//! Convenience re-export of the most commonly used types.

pub use crate::access::{ReadOnly, ReadWrite, WriteOnly};
pub use crate::atomic::AtomicRegister;
pub use crate::block::{DynamicRegisterBlock, RegisterBlock};
pub use crate::irq_guard::IrqGuard;
pub use crate::section::{CriticalSection, HostCriticalSection};
pub use crate::register::Register;
pub use crate::space::RegisterSpace;
