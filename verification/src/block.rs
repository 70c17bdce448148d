//! Register blocks: a base address plus a byte offset for each register.
use vstd::prelude::*;
use core::marker::PhantomData;
use crate::access::ReadWrite;
use crate::register::Register;
use crate::word::Word;

verus! {

/// A fixed-size array of `N` registers sharing a base address, addressed by index.
///
/// All registers are typed as `ReadWrite`.
pub struct RegisterBlock<const N: usize> {
    base: usize,
    offsets: [usize; N],
}

impl<const N: usize> RegisterBlock<N> {
    /// The base address.
    pub closed spec fn spec_base(self) -> usize {
        self.base
    }

    /// The byte offset of each register from the base.
    pub closed spec fn spec_offsets(self) -> Seq<usize> {
        self.offsets@
    }

    /// The address of register `index`.
    pub open spec fn spec_reg_address(self, index: int) -> int {
        self.spec_base() + self.spec_offsets()[index]
    }

    /// Creates a block at `base` with the given byte `offsets`.
    pub fn new(base: usize, offsets: [usize; N]) -> (b: Self)
        ensures
            b.spec_base() == base,
            b.spec_offsets() == offsets@,
    {
        RegisterBlock { base, offsets }
    }

    /// Returns the base address.
    pub fn base(&self) -> (r: usize)
        ensures
            r == self.spec_base(),
    {
        self.base
    }

    /// Updates the base address.
    pub fn set_base(&mut self, base: usize)
        ensures
            final(self).spec_base() == base,
            final(self).spec_offsets() == old(self).spec_offsets(),
    {
        self.base = base;
    }

    /// Returns `true` if the base address is non-zero.
    pub fn is_valid(&self) -> (r: bool)
        ensures
            r == (self.spec_base() != 0),
    {
        self.base != 0
    }

    /// Returns the register at `index`.
    pub fn reg<T: Word>(&self, index: usize) -> (r: Register<T, ReadWrite>)
        requires
            index < N,
            self.spec_reg_address(index as int) <= usize::MAX,
        ensures
            r.spec_address() == self.spec_reg_address(index as int),
            r.spec_address() == self.spec_base() + self.spec_offsets()[index as int],
    {
        Register::new(self.base + self.offsets[index])
    }

    /// Returns the register at `index`, or `None` if `index >= N`.
    pub fn reg_checked<T: Word>(&self, index: usize) -> (r: Option<Register<T, ReadWrite>>)
        requires
            index < N ==> self.spec_reg_address(index as int) <= usize::MAX,
        ensures
            r is Some <==> index < N,
            r matches Some(reg) ==> reg.spec_address() == self.spec_reg_address(index as int),
            r matches Some(reg) ==> reg.spec_address() == self.spec_base()
                + self.spec_offsets()[index as int],
    {
        if index < N {
            Some(Register::new(self.base + self.offsets[index]))
        } else {
            None
        }
    }
}

/// Like `RegisterBlock`, but the register type `T` and access marker `Access` are
/// fixed at construction time, and the base address can be set after creation.
pub struct DynamicRegisterBlock<T: Word, Access, const N: usize> {
    base: usize,
    offsets: [usize; N],
    _phantom: PhantomData<(T, Access)>,
}

impl<T: Word, Access, const N: usize> DynamicRegisterBlock<T, Access, N> {
    /// The base address.
    pub closed spec fn spec_base(self) -> usize {
        self.base
    }

    /// The byte offset of each register from the base.
    pub closed spec fn spec_offsets(self) -> Seq<usize> {
        self.offsets@
    }

    /// The address of register `index`.
    pub open spec fn spec_reg_address(self, index: int) -> int {
        self.spec_base() + self.spec_offsets()[index]
    }

    /// Creates a block at `base` with the given byte `offsets`.
    pub fn new(base: usize, offsets: [usize; N]) -> (b: Self)
        ensures
            b.spec_base() == base,
            b.spec_offsets() == offsets@,
    {
        DynamicRegisterBlock { base, offsets, _phantom: PhantomData }
    }

    /// Creates a block with a zero base address. Call `set_base_address` before use.
    pub fn uninit(offsets: [usize; N]) -> (b: Self)
        ensures
            b.spec_base() == 0,
            b.spec_offsets() == offsets@,
    {
        DynamicRegisterBlock { base: 0, offsets, _phantom: PhantomData }
    }

    /// Sets the base address.
    pub fn set_base_address(&mut self, base: usize)
        ensures
            final(self).spec_base() == base,
            final(self).spec_offsets() == old(self).spec_offsets(),
    {
        self.base = base;
    }

    /// Returns the base address.
    pub fn base_address(&self) -> (r: usize)
        ensures
            r == self.spec_base(),
    {
        self.base
    }

    /// Returns `true` if the base address is non-zero.
    pub fn is_valid(&self) -> (r: bool)
        ensures
            r == (self.spec_base() != 0),
    {
        self.base != 0
    }

    /// Returns the register at `index`.
    pub fn get(&self, index: usize) -> (r: Register<T, Access>)
        requires
            index < N,
            self.spec_reg_address(index as int) <= usize::MAX,
        ensures
            r.spec_address() == self.spec_reg_address(index as int),
            r.spec_address() == self.spec_base() + self.spec_offsets()[index as int],
    {
        Register::new(self.base + self.offsets[index])
    }

    /// Returns the register at `index`, or `None` if `index >= N`.
    pub fn get_checked(&self, index: usize) -> (r: Option<Register<T, Access>>)
        requires
            index < N ==> self.spec_reg_address(index as int) <= usize::MAX,
        ensures
            r is Some <==> index < N,
            r matches Some(reg) ==> reg.spec_address() == self.spec_reg_address(index as int),
            r matches Some(reg) ==> reg.spec_address() == self.spec_base()
                + self.spec_offsets()[index as int],
    {
        if index < N {
            Some(Register::new(self.base + self.offsets[index]))
        } else {
            None
        }
    }
}

} // verus!
