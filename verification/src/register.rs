//! `Register<T, Access>`: a typed handle on one memory-mapped register.
use vstd::prelude::*;
use core::marker::PhantomData;
use crate::access::{Readable, Writeable};
use crate::bits::{
    bit_is_set, bit_mask, field, spec_field, spec_with_field, with_bit_cleared, with_bit_set,
    with_bits_kept, with_bits_set, with_bits_toggled, with_field,
};
use crate::irq_guard::IrqGuard;
use crate::space::{in_space, le_load, le_store, BusAccess, RegisterSpace};
use crate::word::Word;

verus! {

/// A typed handle on the register at one address of a `RegisterSpace`.
///
/// `T` is the register width (`u8`, `u16`, `u32`, `u64`); the register occupies
/// `T::size()` bytes from its address, little-endian (the byte order of the target
/// the space models).
/// `Access` is one of `ReadOnly`, `WriteOnly` or `ReadWrite`, enforced at compile time.
pub struct Register<T: Word, Access> {
    addr: usize,
    _marker: PhantomData<(T, Access)>,
}

impl<T: Word, Access> Register<T, Access> {
    /// The address this register points to.
    pub closed spec fn spec_address(self) -> usize {
        self.addr
    }

    /// The register has a non-null address and all its bytes lie in the address space.
    pub open spec fn spec_is_valid(self) -> bool {
        &&& self.spec_address() != 0
        &&& in_space(self.spec_address() as int, T::spec_size() as nat)
    }

    /// The value this register holds in a space whose bytes are `cells`.
    pub open spec fn spec_read(self, cells: Map<usize, u8>) -> T {
        T::spec_from_u64(le_load(cells, self.spec_address() as int, T::spec_size() as nat))
    }

    /// The bytes of a space after `value` is written to this register.
    pub open spec fn spec_write(self, cells: Map<usize, u8>, value: T) -> Map<usize, u8> {
        le_store(cells, self.spec_address() as int, value.spec_value(), T::spec_size() as nat)
    }

    /// A load of this register, made in critical section `section`.
    pub open spec fn spec_load_access(self, section: Option<nat>) -> BusAccess {
        BusAccess::Load { addr: self.spec_address(), size: T::spec_size(), section }
    }

    /// A store of `value` to this register, made in critical section `section`.
    pub open spec fn spec_store_access(self, value: T, section: Option<nat>) -> BusAccess {
        BusAccess::Store {
            addr: self.spec_address(),
            size: T::spec_size(),
            value: value.spec_value(),
            section,
        }
    }

    /// `trace` followed by one load of this register and one store of `value` to
    /// it, both made in critical section `section`.
    pub open spec fn spec_rmw_accesses(
        self,
        trace: Seq<BusAccess>,
        value: T,
        section: Option<nat>,
    ) -> Seq<BusAccess> {
        trace.push(self.spec_load_access(section)).push(self.spec_store_access(value, section))
    }

    /// Whether bit `pos` of this register is set in `cells`.
    pub open spec fn spec_get_bit(self, cells: Map<usize, u8>, pos: u32) -> bool {
        self.spec_read(cells).spec_value() & bit_mask(pos) != 0
    }

    /// The bit-field `mask` at `shift` of this register in `cells`.
    pub open spec fn spec_read_field(self, cells: Map<usize, u8>, mask: T, shift: u32) -> T {
        T::spec_from_u64(spec_field(self.spec_read(cells).spec_value(), mask.spec_value(), shift))
    }

    /// The value of this register after bit `pos` of this register is set.
    pub open spec fn spec_set_bit_value(self, cells: Map<usize, u8>, pos: u32) -> T {
        T::spec_from_u64(self.spec_read(cells).spec_value() | bit_mask(pos))
    }

    /// The cells after bit `pos` of this register is set.
    pub open spec fn spec_set_bit(self, cells: Map<usize, u8>, pos: u32) -> Map<usize, u8> {
        self.spec_write(cells, self.spec_set_bit_value(cells, pos))
    }

    /// The value of this register after bit `pos` of this register is cleared.
    pub open spec fn spec_clear_bit_value(self, cells: Map<usize, u8>, pos: u32) -> T {
        T::spec_from_u64(self.spec_read(cells).spec_value() & !bit_mask(pos))
    }

    /// The cells after bit `pos` of this register is cleared.
    pub open spec fn spec_clear_bit(self, cells: Map<usize, u8>, pos: u32) -> Map<usize, u8> {
        self.spec_write(cells, self.spec_clear_bit_value(cells, pos))
    }

    /// The value of this register after this register is ORed with `mask`.
    pub open spec fn spec_set_bits_value(self, cells: Map<usize, u8>, mask: T) -> T {
        T::spec_from_u64(self.spec_read(cells).spec_value() | mask.spec_value())
    }

    /// The cells after this register is ORed with `mask`.
    pub open spec fn spec_set_bits(self, cells: Map<usize, u8>, mask: T) -> Map<usize, u8> {
        self.spec_write(cells, self.spec_set_bits_value(cells, mask))
    }

    /// The value of this register after this register is ANDed with `mask`.
    pub open spec fn spec_and_bits_value(self, cells: Map<usize, u8>, mask: T) -> T {
        T::spec_from_u64(self.spec_read(cells).spec_value() & mask.spec_value())
    }

    /// The cells after this register is ANDed with `mask`.
    pub open spec fn spec_and_bits(self, cells: Map<usize, u8>, mask: T) -> Map<usize, u8> {
        self.spec_write(cells, self.spec_and_bits_value(cells, mask))
    }

    /// The value of this register after the bits of this register that are 1 in `mask` are cleared.
    pub open spec fn spec_clear_bits_value(self, cells: Map<usize, u8>, mask: T) -> T {
        T::spec_from_u64(self.spec_read(cells).spec_value() & !mask.spec_value())
    }

    /// The cells after the bits of this register that are 1 in `mask` are cleared.
    pub open spec fn spec_clear_bits(self, cells: Map<usize, u8>, mask: T) -> Map<usize, u8> {
        self.spec_write(cells, self.spec_clear_bits_value(cells, mask))
    }

    /// The value of this register after this register is XORed with `mask`.
    pub open spec fn spec_toggle_bits_value(self, cells: Map<usize, u8>, mask: T) -> T {
        T::spec_from_u64(self.spec_read(cells).spec_value() ^ mask.spec_value())
    }

    /// The cells after this register is XORed with `mask`.
    pub open spec fn spec_toggle_bits(self, cells: Map<usize, u8>, mask: T) -> Map<usize, u8> {
        self.spec_write(cells, self.spec_toggle_bits_value(cells, mask))
    }

    /// The value of this register after `value` is written into the bit-field `mask` at `shift`.
    pub open spec fn spec_write_field_value(self, cells: Map<usize, u8>, mask: T, shift: u32, value: T) -> T {
        T::spec_from_u64(spec_with_field(self.spec_read(cells).spec_value(), mask.spec_value(), shift, value.spec_value()))
    }

    /// The cells after `value` is written into the bit-field `mask` at `shift`.
    pub open spec fn spec_write_field(self, cells: Map<usize, u8>, mask: T, shift: u32, value: T) -> Map<usize, u8> {
        self.spec_write(cells, self.spec_write_field_value(cells, mask, shift, value))
    }

    /// Creates a register pointing to `addr`.
    pub fn new(addr: usize) -> (r: Self)
        ensures
            r.spec_address() == addr,
    {
        Register { addr, _marker: PhantomData }
    }

    /// Creates a register with a null address. Call `set_address` before use.
    pub fn uninit() -> (r: Self)
        ensures
            r.spec_address() == 0,
    {
        Register { addr: 0, _marker: PhantomData }
    }

    /// Points this register at a new address.
    pub fn set_address(&mut self, addr: usize)
        ensures
            final(self).spec_address() == addr,
    {
        self.addr = addr;
    }

    /// Returns the current address this register points to.
    pub fn address(&self) -> (r: usize)
        ensures
            r == self.spec_address(),
    {
        self.addr
    }

    /// Returns `true` if the register has been initialised (address is non-null).
    pub fn is_valid(&self) -> (r: bool)
        ensures
            r == (self.spec_address() != 0),
    {
        self.addr != 0
    }
}

impl<T: Word, Access: Readable> Register<T, Access> {
    /// Reads the register: one load of its bytes.
    pub fn read(&self, space: &mut RegisterSpace) -> (r: T)
        requires
            self.spec_is_valid(),
        ensures
            r == self.spec_read(old(space)@),
            final(space)@ == old(space)@,
            final(space).accesses() == old(space).accesses().push(self.spec_load_access(None)),
    {
        proof {
            T::lemma_shape();
        }
        T::from_u64(space.load(self.addr, T::size()))
    }

    /// Reads the register while the critical section of `guard` is open.
    pub fn read_in(&self, space: &mut RegisterSpace, guard: &IrqGuard) -> (r: T)
        requires
            self.spec_is_valid(),
        ensures
            r == self.spec_read(old(space)@),
            final(space)@ == old(space)@,
            final(space).accesses() == old(space).accesses().push(
                self.spec_load_access(Some(guard.section())),
            ),
    {
        proof {
            T::lemma_shape();
        }
        T::from_u64(space.load_in(guard, self.addr, T::size()))
    }

    /// Reads a bit-field: shifts right by `shift` then masks with `mask`.
    pub fn read_field(&self, space: &mut RegisterSpace, mask: T, shift: u32) -> (r: T)
        requires
            self.spec_is_valid(),
            shift < T::spec_bits(),
        ensures
            r == self.spec_read_field(old(space)@, mask, shift),
            final(space)@ == old(space)@,
            final(space).accesses() == old(space).accesses().push(self.spec_load_access(None)),
    {
        field(self.read(space), mask, shift)
    }

    /// Returns `true` if the bit at position `pos` is set.
    pub fn get_bit(&self, space: &mut RegisterSpace, pos: u32) -> (r: bool)
        requires
            self.spec_is_valid(),
            pos < T::spec_bits(),
        ensures
            r == self.spec_get_bit(old(space)@, pos),
            r == ((self.spec_read(old(space)@).spec_value() >> pos) & 1u64 == 1u64),
            final(space)@ == old(space)@,
            final(space).accesses() == old(space).accesses().push(self.spec_load_access(None)),
    {
        bit_is_set(self.read(space), pos)
    }
}

impl<T: Word, Access: Writeable> Register<T, Access> {
    /// Writes `value` to the register: one store of its bytes; every other byte
    /// of the space keeps its value.
    pub fn write(&self, space: &mut RegisterSpace, value: T)
        requires
            self.spec_is_valid(),
        ensures
            final(space)@ == self.spec_write(old(space)@, value),
            final(space).accesses() == old(space).accesses().push(
                self.spec_store_access(value, None),
            ),
    {
        space.store(self.addr, T::size(), value.to_u64());
    }

    /// Writes `value` to the register while the critical section of `guard` is open.
    pub fn write_in(&self, space: &mut RegisterSpace, guard: &IrqGuard, value: T)
        requires
            self.spec_is_valid(),
        ensures
            final(space)@ == self.spec_write(old(space)@, value),
            final(space).accesses() == old(space).accesses().push(
                self.spec_store_access(value, Some(guard.section())),
            ),
    {
        space.store_in(guard, self.addr, T::size(), value.to_u64());
    }
}

impl<T: Word, Access: Readable + Writeable> Register<T, Access> {
    /// Reads the register, applies `f` to the value, and writes the result back.
    pub fn modify<F: FnOnce(T) -> T>(&self, space: &mut RegisterSpace, f: F)
        requires
            self.spec_is_valid(),
            f.requires((self.spec_read(old(space)@),)),
        ensures
            f.ensures((self.spec_read(old(space)@),), self.spec_read(final(space)@)),
            final(space)@ == self.spec_write(old(space)@, self.spec_read(final(space)@)),
            final(space).accesses() == self.spec_rmw_accesses(
                old(space).accesses(),
                self.spec_read(final(space)@),
                None,
            ),
    {
        let val = self.read(space);
        let new_val = f(val);
        self.write(space, new_val);
        proof {
            crate::laws::law_read_after_write(*self, old(space)@, new_val);
        }
    }

    /// Sets bit `pos` (read-modify-write).
    pub fn set_bit(&self, space: &mut RegisterSpace, pos: u32)
        requires
            self.spec_is_valid(),
            pos < T::spec_bits(),
        ensures
            final(space)@ == self.spec_set_bit(old(space)@, pos),
            self.spec_read(final(space)@).spec_value() == self.spec_read(old(space)@).spec_value()
                | (1u64 << pos),
            final(space).accesses() == self.spec_rmw_accesses(
                old(space).accesses(),
                self.spec_set_bit_value(old(space)@, pos),
                None,
            ),
    {
        let v = self.read(space);
        self.write(space, with_bit_set(v, pos));
        proof {
            crate::laws::law_set_bit_value(*self, old(space)@, pos);
        }
    }

    /// Clears bit `pos` (read-modify-write).
    pub fn clear_bit(&self, space: &mut RegisterSpace, pos: u32)
        requires
            self.spec_is_valid(),
            pos < T::spec_bits(),
        ensures
            final(space)@ == self.spec_clear_bit(old(space)@, pos),
            self.spec_read(final(space)@).spec_value() == self.spec_read(old(space)@).spec_value()
                & !(1u64 << pos),
            final(space).accesses() == self.spec_rmw_accesses(
                old(space).accesses(),
                self.spec_clear_bit_value(old(space)@, pos),
                None,
            ),
    {
        let v = self.read(space);
        self.write(space, with_bit_cleared(v, pos));
        proof {
            crate::laws::law_clear_bit_value(*self, old(space)@, pos);
        }
    }

    /// ORs the register value with `mask` (sets every bit that is 1 in `mask`).
    pub fn set_bits(&self, space: &mut RegisterSpace, mask: T)
        requires
            self.spec_is_valid(),
        ensures
            final(space)@ == self.spec_set_bits(old(space)@, mask),
            final(space).accesses() == self.spec_rmw_accesses(
                old(space).accesses(),
                self.spec_set_bits_value(old(space)@, mask),
                None,
            ),
    {
        let v = self.read(space);
        self.write(space, with_bits_set(v, mask));
    }

    /// ANDs the register value with `mask` (clears every bit that is 0 in `mask`).
    pub fn and_bits(&self, space: &mut RegisterSpace, mask: T)
        requires
            self.spec_is_valid(),
        ensures
            final(space)@ == self.spec_and_bits(old(space)@, mask),
            final(space).accesses() == self.spec_rmw_accesses(
                old(space).accesses(),
                self.spec_and_bits_value(old(space)@, mask),
                None,
            ),
    {
        let v = self.read(space);
        self.write(space, with_bits_kept(v, mask));
    }

    /// XORs the register value with `mask` (toggles every bit that is 1 in `mask`).
    pub fn toggle_bits(&self, space: &mut RegisterSpace, mask: T)
        requires
            self.spec_is_valid(),
        ensures
            final(space)@ == self.spec_toggle_bits(old(space)@, mask),
            final(space).accesses() == self.spec_rmw_accesses(
                old(space).accesses(),
                self.spec_toggle_bits_value(old(space)@, mask),
                None,
            ),
    {
        let v = self.read(space);
        self.write(space, with_bits_toggled(v, mask));
    }

    /// Writes `value` into the bit-field defined by `mask` at `shift`, preserving all
    /// other bits. `value` is clamped to `mask` so it cannot bleed into adjacent fields.
    pub fn write_field(&self, space: &mut RegisterSpace, mask: T, shift: u32, value: T)
        requires
            self.spec_is_valid(),
            shift < T::spec_bits(),
        ensures
            final(space)@ == self.spec_write_field(old(space)@, mask, shift, value),
            final(space).accesses() == self.spec_rmw_accesses(
                old(space).accesses(),
                self.spec_write_field_value(old(space)@, mask, shift, value),
                None,
            ),
    {
        let v = self.read(space);
        self.write(space, with_field(v, mask, shift, value));
    }

}

} // verus!
