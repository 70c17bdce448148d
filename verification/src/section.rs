//! Critical sections: running code with interrupts masked.
use vstd::prelude::*;
use crate::irq_guard::IrqGuard;

verus! {

/// One call on a `CriticalSection`.
pub enum SectionEvent {
    /// `acquire` masked interrupts and returned this state.
    Acquire(u32),
    /// `release` restored this state.
    Release(u32),
}

/// `after` is `before` followed by one acquire and the release of the very
/// state that acquire returned.
pub open spec fn is_balanced_section(before: Seq<SectionEvent>, after: Seq<SectionEvent>) -> bool {
    &&& after.len() == before.len() + 2
    &&& after.subrange(0, before.len() as int) == before
    &&& after[before.len() as int] is Acquire
    &&& after[before.len() + 1int] == SectionEvent::Release(after[before.len() as int]->Acquire_0)
}

/// How a platform masks and restores interrupts.
///
/// Each project provides one implementation for its target. `acquire` masks
/// interrupts and returns the state to restore; `release` restores a state that
/// `acquire` returned. `events` is the sequence of calls made on it so far: an
/// implementation records in it each masking and restoring it performs.
pub trait CriticalSection {
    /// The calls made on this critical section so far, oldest first.
    spec fn events(&self) -> Seq<SectionEvent>;

    /// Masks interrupts and returns the previous interrupt state.
    fn acquire(&mut self) -> (state: u32)
        ensures
            final(self).events() == old(self).events().push(SectionEvent::Acquire(state)),
    ;

    /// Restores the interrupt state `state`.
    fn release(&mut self, state: u32)
        ensures
            final(self).events() == old(self).events().push(SectionEvent::Release(state)),
    ;
}

/// The critical section of a host without interrupts: masking is a no-op.
pub struct HostCriticalSection {
    log: Ghost<Seq<SectionEvent>>,
}

impl HostCriticalSection {
    /// A critical section on which no call has been made.
    pub fn new() -> (cs: Self)
        ensures
            cs.events() == Seq::<SectionEvent>::empty(),
    {
        HostCriticalSection { log: Ghost(Seq::empty()) }
    }
}

impl CriticalSection for HostCriticalSection {
    closed spec fn events(&self) -> Seq<SectionEvent> {
        self.log@
    }

    fn acquire(&mut self) -> (state: u32)
        ensures
            state == 0,
    {
        self.log = Ghost(self.log@.push(SectionEvent::Acquire(0)));
        0
    }

    fn release(&mut self, state: u32) {
        self.log = Ghost(self.log@.push(SectionEvent::Release(state)));
    }
}

/// Runs `f` inside a critical section and returns its result.
///
/// `f` is handed the open section's guard: it runs after the acquire and before
/// the release, which restores the state that acquire returned.
pub fn critical_section<C: CriticalSection, R, F: FnOnce(&IrqGuard) -> R>(cs: &mut C, f: F) -> (r: R)
    requires
        forall|g: IrqGuard| f.requires((&g,)),
    ensures
        is_balanced_section(old(cs).events(), final(cs).events()),
        exists|g: IrqGuard| g.section() == old(cs).events().len() && f.ensures((&g,), r),
{
    let ghost before = cs.events();
    let guard = IrqGuard::acquire(cs);
    let r = f(&guard);
    guard.release(cs);
    assert(cs.events().subrange(0, before.len() as int) =~= before);
    r
}

} // verus!
