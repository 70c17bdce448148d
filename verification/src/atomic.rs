//! `AtomicRegister`: read-modify-write operations inside a critical section.
use vstd::prelude::*;
use crate::access::{Readable, Writeable};
use crate::bits::{with_bits_cleared, with_bits_set, with_bits_toggled};
use crate::irq_guard::IrqGuard;
use crate::section::{is_balanced_section, CriticalSection};
use crate::register::Register;
use crate::space::RegisterSpace;
use crate::word::Word;

verus! {

/// Wraps a `Register` to provide interrupt-safe read-modify-write operations:
/// each one opens a critical section on `cs`, loads and stores the register while
/// it is open, and closes it (all through `modify`). The space records the load and the store as made in
/// the section whose acquire is the next entry of `cs`'s log.
pub struct AtomicRegister<'a, T: Word, Access> {
    reg: &'a Register<T, Access>,
}

impl<'a, T: Word, Access> AtomicRegister<'a, T, Access> {
    /// The register this handle operates on.
    pub closed spec fn register(self) -> Register<T, Access> {
        *self.reg
    }
}

impl<'a, T: Word, Access: Readable + Writeable> AtomicRegister<'a, T, Access> {
    /// Creates an `AtomicRegister` wrapping `reg`.
    pub fn new(reg: &'a Register<T, Access>) -> (r: Self)
        ensures
            r.register() == *reg,
    {
        AtomicRegister { reg }
    }

    /// Sets every bit that is 1 in `mask`, inside a critical section.
    pub fn set_bits<C: CriticalSection>(&self, space: &mut RegisterSpace, cs: &mut C, mask: T)
        requires
            self.register().spec_is_valid(),
        ensures
            final(space)@ == self.register().spec_set_bits(old(space)@, mask),
            final(space).accesses() == self.register().spec_rmw_accesses(
                old(space).accesses(),
                self.register().spec_set_bits_value(old(space)@, mask),
                Some(old(cs).events().len()),
            ),
            is_balanced_section(old(cs).events(), final(cs).events()),
    {
        let op = |v: T| -> (r: T)
            ensures
                r == T::spec_from_u64(v.spec_value() | mask.spec_value()),
            {
                with_bits_set(v, mask)
            };
        self.modify(space, cs, op);
    }

    /// Clears every bit that is 1 in `mask`, inside a critical section.
    pub fn clear_bits<C: CriticalSection>(&self, space: &mut RegisterSpace, cs: &mut C, mask: T)
        requires
            self.register().spec_is_valid(),
        ensures
            final(space)@ == self.register().spec_clear_bits(old(space)@, mask),
            final(space).accesses() == self.register().spec_rmw_accesses(
                old(space).accesses(),
                self.register().spec_clear_bits_value(old(space)@, mask),
                Some(old(cs).events().len()),
            ),
            is_balanced_section(old(cs).events(), final(cs).events()),
    {
        let op = |v: T| -> (r: T)
            ensures
                r == T::spec_from_u64(v.spec_value() & !mask.spec_value()),
            {
                with_bits_cleared(v, mask)
            };
        self.modify(space, cs, op);
    }

    /// Toggles every bit that is 1 in `mask`, inside a critical section.
    pub fn toggle_bits<C: CriticalSection>(&self, space: &mut RegisterSpace, cs: &mut C, mask: T)
        requires
            self.register().spec_is_valid(),
        ensures
            final(space)@ == self.register().spec_toggle_bits(old(space)@, mask),
            final(space).accesses() == self.register().spec_rmw_accesses(
                old(space).accesses(),
                self.register().spec_toggle_bits_value(old(space)@, mask),
                Some(old(cs).events().len()),
            ),
            is_balanced_section(old(cs).events(), final(cs).events()),
    {
        let op = |v: T| -> (r: T)
            ensures
                r == T::spec_from_u64(v.spec_value() ^ mask.spec_value()),
            {
                with_bits_toggled(v, mask)
            };
        self.modify(space, cs, op);
    }

    /// Reads the register, applies `f`, and writes the result back, all inside a
    /// critical section.
    pub fn modify<C: CriticalSection, F: FnOnce(T) -> T>(
        &self,
        space: &mut RegisterSpace,
        cs: &mut C,
        f: F,
    )
        requires
            self.register().spec_is_valid(),
            f.requires((self.register().spec_read(old(space)@),)),
        ensures
            f.ensures(
                (self.register().spec_read(old(space)@),),
                self.register().spec_read(final(space)@),
            ),
            final(space)@ == self.register().spec_write(
                old(space)@,
                self.register().spec_read(final(space)@),
            ),
            final(space).accesses() == self.register().spec_rmw_accesses(
                old(space).accesses(),
                self.register().spec_read(final(space)@),
                Some(old(cs).events().len()),
            ),
            is_balanced_section(old(cs).events(), final(cs).events()),
    {
        let ghost before = cs.events();
        let guard = IrqGuard::acquire(cs);
        let v = self.reg.read_in(space, &guard);
        let new_v = f(v);
        self.reg.write_in(space, &guard, new_v);
        proof {
            crate::laws::law_read_after_write(*self.reg, old(space)@, new_v);
        }
        guard.release(cs);
        assert(cs.events().subrange(0, before.len() as int) =~= before);
    }
}

} // verus!
