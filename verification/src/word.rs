//! Register widths: the unsigned integer types a register can hold.
use vstd::prelude::*;

verus! {

/// `w` is a register width in bits and `m` the mask of its low `w` bits.
pub open spec fn is_word_shape(w: u32, m: u64) -> bool {
    ||| (w == 8 && m == 0xffu64)
    ||| (w == 16 && m == 0xffffu64)
    ||| (w == 32 && m == 0xffff_ffffu64)
    ||| (w == 64 && m == 0xffff_ffff_ffff_ffffu64)
}

/// The mask of the low `n` bytes of a word (for `n <= 8`).
pub open spec fn byte_mask(n: nat) -> u64
    decreases n,
{
    if n == 0 {
        0
    } else {
        (byte_mask((n - 1) as nat) << 8u64) | 0xffu64
    }
}

/// The byte masks of the four register sizes.
pub proof fn lemma_byte_masks()
    ensures
        byte_mask(1) == 0xffu64,
        byte_mask(2) == 0xffffu64,
        byte_mask(4) == 0xffff_ffffu64,
        byte_mask(8) == 0xffff_ffff_ffff_ffffu64,
{
    assert({
        &&& (0u64 << 8u64) | 0xffu64 == 0xffu64
        &&& (0xffu64 << 8u64) | 0xffu64 == 0xffffu64
        &&& (0xffffu64 << 8u64) | 0xffu64 == 0xff_ffffu64
        &&& (0xff_ffffu64 << 8u64) | 0xffu64 == 0xffff_ffffu64
        &&& (0xffff_ffffu64 << 8u64) | 0xffu64 == 0xff_ffff_ffffu64
        &&& (0xff_ffff_ffffu64 << 8u64) | 0xffu64 == 0xffff_ffff_ffffu64
        &&& (0xffff_ffff_ffffu64 << 8u64) | 0xffu64 == 0xff_ffff_ffff_ffffu64
        &&& (0xff_ffff_ffff_ffffu64 << 8u64) | 0xffu64 == 0xffff_ffff_ffff_ffffu64
    }) by (bit_vector);
    assert(byte_mask(0) == 0);
    assert(byte_mask(1) == 0xffu64);
    assert(byte_mask(2) == 0xffffu64);
    assert(byte_mask(3) == 0xff_ffffu64);
    assert(byte_mask(4) == 0xffff_ffffu64);
    assert(byte_mask(5) == 0xff_ffff_ffffu64);
    assert(byte_mask(6) == 0xffff_ffff_ffffu64);
    assert(byte_mask(7) == 0xff_ffff_ffff_ffffu64);
    assert(byte_mask(8) == 0xffff_ffff_ffff_ffffu64);
}

/// An unsigned integer type that a register can hold (`u8`, `u16`, `u32`, `u64`).
///
/// Values are described by their zero-extension to `u64`.
pub trait Word: Copy + Sized {
    /// The width of the type in bits.
    spec fn spec_bits() -> u32;

    /// The mask of the low `spec_bits()` bits.
    spec fn spec_mask() -> u64;

    /// The size of the type in bytes.
    spec fn spec_size() -> usize;

    /// The value, zero-extended to 64 bits.
    spec fn spec_value(self) -> u64;

    /// The value whose bits are the low `spec_bits()` bits of `v`.
    spec fn spec_from_u64(v: u64) -> Self;

    proof fn lemma_shape()
        ensures
            is_word_shape(Self::spec_bits(), Self::spec_mask()),
            Self::spec_size() * 8 == Self::spec_bits(),
            Self::spec_mask() == byte_mask(Self::spec_size() as nat),
    ;

    proof fn lemma_value_fits(x: Self)
        ensures
            x.spec_value() & Self::spec_mask() == x.spec_value(),
    ;

    proof fn lemma_from_u64(v: u64)
        ensures
            Self::spec_from_u64(v).spec_value() == v & Self::spec_mask(),
    ;

    proof fn lemma_round_trip(x: Self)
        ensures
            Self::spec_from_u64(x.spec_value()) == x,
    ;

    /// The width of the type in bits.
    fn bits() -> (r: u32)
        ensures
            r == Self::spec_bits(),
    ;

    /// The size of the type in bytes.
    fn size() -> (r: usize)
        ensures
            r == Self::spec_size(),
    ;

    /// The value, zero-extended to 64 bits.
    fn to_u64(self) -> (r: u64)
        ensures
            r == self.spec_value(),
    ;

    /// The low `bits()` bits of `v`.
    fn from_u64(v: u64) -> (r: Self)
        ensures
            r == Self::spec_from_u64(v),
    ;
}

impl Word for u8 {
    open spec fn spec_bits() -> u32 {
        8
    }

    open spec fn spec_mask() -> u64 {
        0xffu64
    }

    open spec fn spec_size() -> usize {
        1
    }

    open spec fn spec_value(self) -> u64 {
        self as u64
    }

    open spec fn spec_from_u64(v: u64) -> u8 {
        (v & 0xffu64) as u8
    }

    proof fn lemma_shape() {
        lemma_byte_masks();
    }

    proof fn lemma_value_fits(x: u8) {
        assert((x as u64) & 0xffu64 == x as u64) by (bit_vector);
    }

    proof fn lemma_from_u64(v: u64) {
        assert(((v & 0xffu64) as u8) as u64 == v & 0xffu64) by (bit_vector);
    }

    proof fn lemma_round_trip(x: u8) {
        assert(((x as u64) & 0xffu64) as u8 == x) by (bit_vector);
    }

    fn size() -> (r: usize) {
        1
    }

    fn bits() -> (r: u32) {
        8
    }

    fn to_u64(self) -> (r: u64) {
        self as u64
    }

    fn from_u64(v: u64) -> (r: u8) {
        (v & 0xffu64) as u8
    }
}

impl Word for u16 {
    open spec fn spec_bits() -> u32 {
        16
    }

    open spec fn spec_mask() -> u64 {
        0xffffu64
    }

    open spec fn spec_size() -> usize {
        2
    }

    open spec fn spec_value(self) -> u64 {
        self as u64
    }

    open spec fn spec_from_u64(v: u64) -> u16 {
        (v & 0xffffu64) as u16
    }

    proof fn lemma_shape() {
        lemma_byte_masks();
    }

    proof fn lemma_value_fits(x: u16) {
        assert((x as u64) & 0xffffu64 == x as u64) by (bit_vector);
    }

    proof fn lemma_from_u64(v: u64) {
        assert(((v & 0xffffu64) as u16) as u64 == v & 0xffffu64) by (bit_vector);
    }

    proof fn lemma_round_trip(x: u16) {
        assert(((x as u64) & 0xffffu64) as u16 == x) by (bit_vector);
    }

    fn size() -> (r: usize) {
        2
    }

    fn bits() -> (r: u32) {
        16
    }

    fn to_u64(self) -> (r: u64) {
        self as u64
    }

    fn from_u64(v: u64) -> (r: u16) {
        (v & 0xffffu64) as u16
    }
}

impl Word for u32 {
    open spec fn spec_bits() -> u32 {
        32
    }

    open spec fn spec_mask() -> u64 {
        0xffff_ffffu64
    }

    open spec fn spec_size() -> usize {
        4
    }

    open spec fn spec_value(self) -> u64 {
        self as u64
    }

    open spec fn spec_from_u64(v: u64) -> u32 {
        (v & 0xffff_ffffu64) as u32
    }

    proof fn lemma_shape() {
        lemma_byte_masks();
    }

    proof fn lemma_value_fits(x: u32) {
        assert((x as u64) & 0xffff_ffffu64 == x as u64) by (bit_vector);
    }

    proof fn lemma_from_u64(v: u64) {
        assert(((v & 0xffff_ffffu64) as u32) as u64 == v & 0xffff_ffffu64) by (bit_vector);
    }

    proof fn lemma_round_trip(x: u32) {
        assert(((x as u64) & 0xffff_ffffu64) as u32 == x) by (bit_vector);
    }

    fn size() -> (r: usize) {
        4
    }

    fn bits() -> (r: u32) {
        32
    }

    fn to_u64(self) -> (r: u64) {
        self as u64
    }

    fn from_u64(v: u64) -> (r: u32) {
        (v & 0xffff_ffffu64) as u32
    }
}

impl Word for u64 {
    open spec fn spec_bits() -> u32 {
        64
    }

    open spec fn spec_mask() -> u64 {
        0xffff_ffff_ffff_ffffu64
    }

    open spec fn spec_size() -> usize {
        8
    }

    open spec fn spec_value(self) -> u64 {
        self
    }

    open spec fn spec_from_u64(v: u64) -> u64 {
        v
    }

    proof fn lemma_shape() {
        lemma_byte_masks();
    }

    proof fn lemma_value_fits(x: u64) {
        assert(x & 0xffff_ffff_ffff_ffffu64 == x) by (bit_vector);
    }

    proof fn lemma_from_u64(v: u64) {
        assert(v & 0xffff_ffff_ffff_ffffu64 == v) by (bit_vector);
    }

    proof fn lemma_round_trip(x: u64) {
    }

    fn size() -> (r: usize) {
        8
    }

    fn bits() -> (r: u32) {
        64
    }

    fn to_u64(self) -> (r: u64) {
        self
    }

    fn from_u64(v: u64) -> (r: u64) {
        v
    }
}

} // verus!
