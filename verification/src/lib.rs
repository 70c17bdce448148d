//! Type-safe access to memory-mapped registers.
//!
//! Registers are typed handles on addresses of a `RegisterSpace`; their access
//! policy (`ReadOnly`, `WriteOnly`, `ReadWrite`) is enforced at compile time.

pub mod access;
pub mod atomic;
pub mod bits;
pub mod block;
pub mod irq_guard;
pub mod laws;
pub mod prelude;
pub mod register;
pub mod section;
pub mod space;
pub mod word;

pub use access::{ReadOnly, ReadWrite, Readable, WriteOnly, Writeable};
pub use atomic::AtomicRegister;
pub use block::{DynamicRegisterBlock, RegisterBlock};
pub use irq_guard::IrqGuard;
pub use section::{critical_section, CriticalSection, HostCriticalSection, SectionEvent};
pub use register::Register;
pub use space::{BusAccess, RegisterSpace};
pub use word::Word;
