//! The byte-addressed address space that registers point into.
use vstd::prelude::*;
use std::collections::HashMap;
use crate::irq_guard::IrqGuard;
use crate::word::byte_mask;

verus! {

broadcast use vstd::std_specs::hash::group_hash_axioms;

/// One access to the space, as a bus would see it.
///
/// `section` is the position, in its critical section's log, of the acquire of
/// the section open during the access (`None` for an access outside any section).
pub ghost enum BusAccess {
    Load { addr: usize, size: usize, section: Option<nat> },
    Store { addr: usize, size: usize, value: u64, section: Option<nat> },
}

/// `n` bytes starting at address `a` lie inside the address space.
pub open spec fn in_space(a: int, n: nat) -> bool {
    0 <= a && a + n <= usize::MAX + 1
}

/// The byte at address `a`: an address that was never written holds zero.
pub open spec fn byte_at(cells: Map<usize, u8>, a: int) -> u8 {
    if cells.contains_key(a as usize) {
        cells[a as usize]
    } else {
        0
    }
}

/// The little-endian value of the `n` bytes starting at `a`.
pub open spec fn le_load(cells: Map<usize, u8>, a: int, n: nat) -> u64
    decreases n,
{
    if n == 0 {
        0
    } else {
        (le_load(cells, a + 1, (n - 1) as nat) << 8u64) | (byte_at(cells, a) as u64)
    }
}

/// The cells after the low `n` bytes of `v` are stored little-endian from `a`.
pub open spec fn le_store(cells: Map<usize, u8>, a: int, v: u64, n: nat) -> Map<usize, u8>
    decreases n,
{
    if n == 0 {
        cells
    } else {
        le_store(cells.insert(a as usize, (v & 0xffu64) as u8), a + 1, v >> 8u64, (n - 1) as nat)
    }
}

/// A load of `n <= 8` bytes gives at most `n` bytes of value.
pub proof fn lemma_le_load_fits(cells: Map<usize, u8>, a: int, n: nat)
    requires
        n <= 8,
    ensures
        le_load(cells, a, n) & byte_mask(n) == le_load(cells, a, n),
    decreases n,
{
    if n > 0 {
        lemma_le_load_fits(cells, a + 1, (n - 1) as nat);
        let rest = le_load(cells, a + 1, (n - 1) as nat);
        let m2 = byte_mask((n - 1) as nat);
        let b = byte_at(cells, a) as u64;
        assert(b <= 0xff);
        assert(((rest << 8u64) | b) & ((m2 << 8u64) | 0xffu64) == (rest << 8u64) | b) by (bit_vector)
            requires
                rest & m2 == rest,
                b <= 0xff,
        ;
    } else {
        lemma_and_zero();
    }
}

/// Masking with zero gives zero.
proof fn lemma_and_zero()
    ensures
        forall|v: u64| #[trigger] (v & 0u64) == 0u64,
{
    assert(forall|v: u64| #[trigger] (v & 0u64) == 0u64) by (bit_vector);
}

/// Storing bytes from `a` leaves every byte outside `[a, a + n)` unchanged.
pub proof fn lemma_le_store_frame(cells: Map<usize, u8>, a: int, v: u64, n: nat, x: int)
    requires
        in_space(a, n),
        0 <= x <= usize::MAX,
        x < a || x >= a + n,
    ensures
        byte_at(le_store(cells, a, v, n), x) == byte_at(cells, x),
    decreases n,
{
    if n > 0 {
        lemma_le_store_frame(cells.insert(a as usize, (v & 0xffu64) as u8), a + 1, v >> 8u64, (n - 1) as nat, x);
    }
}

/// A load of `[b, b + m)` depends on those bytes only.
pub proof fn lemma_le_load_same_bytes(c1: Map<usize, u8>, c2: Map<usize, u8>, b: int, m: nat)
    requires
        forall|x: int| b <= x < b + m ==> byte_at(c1, x) == byte_at(c2, x),
    ensures
        le_load(c1, b, m) == le_load(c2, b, m),
    decreases m,
{
    if m > 0 {
        lemma_le_load_same_bytes(c1, c2, b + 1, (m - 1) as nat);
        assert(byte_at(c1, b) == byte_at(c2, b));
    }
}

/// Loading the bytes just stored gives back the stored value, cut to `n` bytes.
pub proof fn lemma_le_round_trip(cells: Map<usize, u8>, a: int, v: u64, n: nat)
    requires
        in_space(a, n),
        n <= 8,
    ensures
        le_load(le_store(cells, a, v, n), a, n) == v & byte_mask(n),
    decreases n,
{
    if n > 0 {
        let c1 = cells.insert(a as usize, (v & 0xffu64) as u8);
        let after = le_store(c1, a + 1, v >> 8u64, (n - 1) as nat);
        lemma_le_round_trip(c1, a + 1, v >> 8u64, (n - 1) as nat);
        lemma_le_store_frame(c1, a + 1, v >> 8u64, (n - 1) as nat, a);
        assert(byte_at(after, a) == (v & 0xffu64) as u8);
        let m2 = byte_mask((n - 1) as nat);
        assert((((v >> 8u64) & m2) << 8u64) | (((v & 0xffu64) as u8) as u64) == v & ((m2 << 8u64)
            | 0xffu64)) by (bit_vector);
    } else {
        lemma_and_zero();
    }
}

/// Byte `i` of a little-endian store holds bits `8 * i ..` of the stored value.
pub proof fn lemma_le_store_byte(cells: Map<usize, u8>, a: int, v: u64, n: nat, i: nat)
    requires
        in_space(a, n),
        n <= 8,
        i < n,
    ensures
        byte_at(le_store(cells, a, v, n), a + i) == ((v >> (8 * i) as u64) & 0xffu64) as u8,
    decreases n,
{
    let c1 = cells.insert(a as usize, (v & 0xffu64) as u8);
    if i == 0 {
        lemma_le_store_frame(c1, a + 1, v >> 8u64, (n - 1) as nat, a);
        assert(v >> 0u64 == v) by (bit_vector);
    } else {
        lemma_le_store_byte(c1, a + 1, v >> 8u64, (n - 1) as nat, (i - 1) as nat);
        let k = (8 * (i - 1)) as u64;
        assert((v >> 8u64) >> k == v >> (k + 8u64)) by (bit_vector)
            requires
                k <= 48u64,
        ;
        assert((8 * i) as u64 == k + 8u64);
    }
}

/// Storing into `[a, a + n)` leaves a load of a disjoint `[b, b + m)` unchanged.
pub proof fn lemma_le_store_other(cells: Map<usize, u8>, a: int, v: u64, n: nat, b: int, m: nat)
    requires
        in_space(a, n),
        in_space(b, m),
        a + n <= b || b + m <= a,
    ensures
        le_load(le_store(cells, a, v, n), b, m) == le_load(cells, b, m),
{
    let after = le_store(cells, a, v, n);
    assert forall|x: int| b <= x < b + m implies byte_at(after, x) == byte_at(cells, x) by {
        lemma_le_store_frame(cells, a, v, n, x);
    }
    lemma_le_load_same_bytes(after, cells, b, m);
}

/// A memory-mapped address space of bytes, together with the sequence of loads
/// and stores made on it.
///
/// Every byte holds zero until it is written. Registers of several bytes are
/// stored little-endian: the space models the memory of a little-endian target.
pub struct RegisterSpace {
    cells: HashMap<usize, u8>,
    trace: Ghost<Seq<BusAccess>>,
}

impl View for RegisterSpace {
    type V = Map<usize, u8>;

    closed spec fn view(&self) -> Map<usize, u8> {
        self.cells@
    }
}

impl RegisterSpace {
    /// The loads and stores made on this space so far, oldest first.
    pub closed spec fn accesses(&self) -> Seq<BusAccess> {
        self.trace@
    }

    /// An address space in which every byte holds zero and nothing was accessed.
    pub fn new() -> (s: Self)
        ensures
            s@ == Map::<usize, u8>::empty(),
            s.accesses() == Seq::<BusAccess>::empty(),
    {
        RegisterSpace { cells: HashMap::new(), trace: Ghost(Seq::empty()) }
    }

    fn byte(&self, a: usize) -> (r: u8)
        ensures
            r == byte_at(self@, a as int),
    {
        match self.cells.get(&a) {
            Some(b) => *b,
            None => 0,
        }
    }

    fn load_bytes(&self, addr: usize, size: usize) -> (v: u64)
        requires
            in_space(addr as int, size as nat),
            size <= 8,
        ensures
            v == le_load(self@, addr as int, size as nat),
    {
        let mut acc: u64 = 0;
        let mut i: usize = size;
        while i > 0
            invariant
                i <= size,
                in_space(addr as int, size as nat),
                acc == le_load(self@, addr + i, (size - i) as nat),
            decreases i,
        {
            i = i - 1;
            let b = self.byte(addr + i);
            acc = (acc << 8u64) | (b as u64);
        }
        acc
    }

    fn store_bytes(&mut self, addr: usize, size: usize, value: u64)
        requires
            in_space(addr as int, size as nat),
        ensures
            final(self)@ == le_store(old(self)@, addr as int, value, size as nat),
            final(self).accesses() == old(self).accesses(),
    {
        let mut cur: u64 = value;
        let mut i: usize = 0;
        while i < size
            invariant
                i <= size,
                in_space(addr as int, size as nat),
                le_store(self@, addr + i, cur, (size - i) as nat) == le_store(
                    old(self)@,
                    addr as int,
                    value,
                    size as nat,
                ),
                self.accesses() == old(self).accesses(),
            decreases size - i,
        {
            self.cells.insert(addr + i, (cur & 0xffu64) as u8);
            cur = cur >> 8u64;
            i = i + 1;
        }
    }

    /// Loads the `size` bytes at `addr` as a little-endian value.
    pub fn load(&mut self, addr: usize, size: usize) -> (v: u64)
        requires
            in_space(addr as int, size as nat),
            size <= 8,
        ensures
            v == le_load(old(self)@, addr as int, size as nat),
            final(self)@ == old(self)@,
            final(self).accesses() == old(self).accesses().push(
                BusAccess::Load { addr, size, section: None },
            ),
    {
        let v = self.load_bytes(addr, size);
        self.trace = Ghost(self.trace@.push(BusAccess::Load { addr, size, section: None }));
        v
    }

    /// Stores the low `size` bytes of `value` little-endian at `addr`; every other
    /// byte keeps its value.
    pub fn store(&mut self, addr: usize, size: usize, value: u64)
        requires
            in_space(addr as int, size as nat),
        ensures
            final(self)@ == le_store(old(self)@, addr as int, value, size as nat),
            final(self).accesses() == old(self).accesses().push(
                BusAccess::Store { addr, size, value, section: None },
            ),
    {
        self.store_bytes(addr, size, value);
        self.trace = Ghost(self.trace@.push(BusAccess::Store { addr, size, value, section: None }));
    }

    /// `load`, made while the critical section of `guard` is open.
    pub fn load_in(&mut self, guard: &IrqGuard, addr: usize, size: usize) -> (v: u64)
        requires
            in_space(addr as int, size as nat),
            size <= 8,
        ensures
            v == le_load(old(self)@, addr as int, size as nat),
            final(self)@ == old(self)@,
            final(self).accesses() == old(self).accesses().push(
                BusAccess::Load { addr, size, section: Some(guard.section()) },
            ),
    {
        let v = self.load_bytes(addr, size);
        self.trace = Ghost(
            self.trace@.push(BusAccess::Load { addr, size, section: Some(guard.section()) }),
        );
        v
    }

    /// `store`, made while the critical section of `guard` is open.
    pub fn store_in(&mut self, guard: &IrqGuard, addr: usize, size: usize, value: u64)
        requires
            in_space(addr as int, size as nat),
        ensures
            final(self)@ == le_store(old(self)@, addr as int, value, size as nat),
            final(self).accesses() == old(self).accesses().push(
                BusAccess::Store { addr, size, value, section: Some(guard.section()) },
            ),
    {
        self.store_bytes(addr, size, value);
        self.trace = Ghost(
            self.trace@.push(BusAccess::Store { addr, size, value, section: Some(guard.section()) }),
        );
    }
}

} // verus!
