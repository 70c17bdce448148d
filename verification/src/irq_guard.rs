//! `IrqGuard`: an open critical section.
use vstd::prelude::*;
use crate::section::{CriticalSection, SectionEvent};

verus! {

/// An open critical section: holds the interrupt state to restore when it is released.
///
/// A guard is obtained only from `acquire` and is consumed by `release`, so an
/// operation handed `&IrqGuard` runs while its section is open.
pub struct IrqGuard {
    state: u32,
    section: Ghost<nat>,
}

impl IrqGuard {
    /// The interrupt state this guard restores on release.
    pub closed spec fn saved_state(self) -> u32 {
        self.state
    }

    /// The position of this section's acquire in its critical section's log.
    pub closed spec fn section(self) -> nat {
        self.section@
    }

    /// Opens a critical section, saving the state that `cs.acquire()` returns.
    pub fn acquire<C: CriticalSection>(cs: &mut C) -> (g: IrqGuard)
        ensures
            g.section() == old(cs).events().len(),
            final(cs).events() == old(cs).events().push(SectionEvent::Acquire(g.saved_state())),
    {
        let ghost at = cs.events().len();
        let state = cs.acquire();
        IrqGuard { state, section: Ghost(at) }
    }

    /// Closes the critical section, restoring the saved interrupt state.
    ///
    /// `cs` is the critical section the guard was acquired on: its log holds this
    /// guard's acquire at the guard's position.
    pub fn release<C: CriticalSection>(self, cs: &mut C)
        requires
            self.section() < old(cs).events().len(),
            old(cs).events()[self.section() as int] == SectionEvent::Acquire(self.saved_state()),
        ensures
            final(cs).events() == old(cs).events().push(SectionEvent::Release(self.saved_state())),
    {
        cs.release(self.state);
    }
}

} // verus!
