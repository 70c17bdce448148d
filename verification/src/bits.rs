//! Bit and bit-field arithmetic on register values.
//!
//! Each operation computes the new register value from the current one; the
//! read-modify-write methods of `Register` apply them between a read and a write.
use vstd::prelude::*;
use crate::word::{is_word_shape, Word};

verus! {

/// The single-bit mask for bit `pos`.
pub open spec fn bit_mask(pos: u32) -> u64 {
    1u64 << pos
}

/// Setting, clearing and testing bit `pos` of a value that fits the width:
/// setting and clearing keep it within the width, and bit `pos` is set exactly
/// when `(v >> pos) & 1 == 1`.
pub proof fn lemma_single_bit<T: Word>(v: T, pos: u32)
    requires
        pos < T::spec_bits(),
    ensures
        (v.spec_value() | (1u64 << pos)) & T::spec_mask() == v.spec_value() | (1u64 << pos),
        (v.spec_value() & !(1u64 << pos)) & T::spec_mask() == v.spec_value() & !(1u64 << pos),
        (v.spec_value() & (1u64 << pos) != 0) == ((v.spec_value() >> pos) & 1u64 == 1u64),
{
    let c = v.spec_value();
    let w = T::spec_bits();
    let m = T::spec_mask();
    T::lemma_shape();
    T::lemma_value_fits(v);
    assert({
        &&& (c | (1u64 << pos)) & m == c | (1u64 << pos)
        &&& (c & !(1u64 << pos)) & m == c & !(1u64 << pos)
        &&& (c & (1u64 << pos) != 0) == ((c >> pos) & 1u64 == 1u64)
    }) by (bit_vector)
        requires
            is_word_shape(w, m),
            pos < w,
            c & m == c,
    ;
}

/// `v` with bit `pos` set.
pub fn with_bit_set<T: Word>(v: T, pos: u32) -> (r: T)
    requires
        pos < T::spec_bits(),
    ensures
        r == T::spec_from_u64(v.spec_value() | bit_mask(pos)),
        r.spec_value() == v.spec_value() | (1u64 << pos),
{
    proof {
        T::lemma_shape();
        lemma_single_bit(v, pos);
        T::lemma_from_u64(v.spec_value() | (1u64 << pos));
    }
    T::from_u64(v.to_u64() | (1u64 << pos))
}

/// `v` with bit `pos` cleared.
pub fn with_bit_cleared<T: Word>(v: T, pos: u32) -> (r: T)
    requires
        pos < T::spec_bits(),
    ensures
        r == T::spec_from_u64(v.spec_value() & !bit_mask(pos)),
        r.spec_value() == v.spec_value() & !(1u64 << pos),
{
    proof {
        T::lemma_shape();
        lemma_single_bit(v, pos);
        T::lemma_from_u64(v.spec_value() & !(1u64 << pos));
    }
    T::from_u64(v.to_u64() & !(1u64 << pos))
}

/// Whether bit `pos` of `v` is set.
pub fn bit_is_set<T: Word>(v: T, pos: u32) -> (r: bool)
    requires
        pos < T::spec_bits(),
    ensures
        r == (v.spec_value() & bit_mask(pos) != 0),
        r == ((v.spec_value() >> pos) & 1u64 == 1u64),
{
    proof {
        T::lemma_shape();
        lemma_single_bit(v, pos);
    }
    v.to_u64() & (1u64 << pos) != 0
}

/// `v` with every bit that is 1 in `mask` set.
pub fn with_bits_set<T: Word>(v: T, mask: T) -> (r: T)
    ensures
        r == T::spec_from_u64(v.spec_value() | mask.spec_value()),
{
    T::from_u64(v.to_u64() | mask.to_u64())
}

/// `v` with every bit that is 0 in `mask` cleared.
pub fn with_bits_kept<T: Word>(v: T, mask: T) -> (r: T)
    ensures
        r == T::spec_from_u64(v.spec_value() & mask.spec_value()),
{
    T::from_u64(v.to_u64() & mask.to_u64())
}

/// `v` with every bit that is 1 in `mask` cleared.
pub fn with_bits_cleared<T: Word>(v: T, mask: T) -> (r: T)
    ensures
        r == T::spec_from_u64(v.spec_value() & !mask.spec_value()),
{
    T::from_u64(v.to_u64() & !mask.to_u64())
}

/// `v` with every bit that is 1 in `mask` inverted.
pub fn with_bits_toggled<T: Word>(v: T, mask: T) -> (r: T)
    ensures
        r == T::spec_from_u64(v.spec_value() ^ mask.spec_value()),
{
    T::from_u64(v.to_u64() ^ mask.to_u64())
}

/// The bit-field of `v` selected by `mask` after shifting right by `shift`.
pub open spec fn spec_field(v: u64, mask: u64, shift: u32) -> u64 {
    (v >> shift) & mask
}

/// `v` with the bit-field `mask << shift` replaced by `value & mask`.
pub open spec fn spec_with_field(v: u64, mask: u64, shift: u32, value: u64) -> u64 {
    (v & !(mask << shift)) | ((value & mask) << shift)
}

/// The bit-field of `v` selected by `mask` after shifting right by `shift`.
pub fn field<T: Word>(v: T, mask: T, shift: u32) -> (r: T)
    requires
        shift < T::spec_bits(),
    ensures
        r == T::spec_from_u64(spec_field(v.spec_value(), mask.spec_value(), shift)),
{
    proof {
        T::lemma_shape();
    }
    T::from_u64((v.to_u64() >> shift) & mask.to_u64())
}

/// `v` with the bit-field at `mask << shift` replaced by `value`; the bits of
/// `value` outside `mask` are dropped, and every other bit of `v` is kept.
pub fn with_field<T: Word>(v: T, mask: T, shift: u32, value: T) -> (r: T)
    requires
        shift < T::spec_bits(),
    ensures
        r == T::spec_from_u64(spec_with_field(v.spec_value(), mask.spec_value(), shift, value.spec_value())),
{
    proof {
        T::lemma_shape();
    }
    let m = mask.to_u64();
    T::from_u64((v.to_u64() & !(m << shift)) | ((value.to_u64() & m) << shift))
}

} // verus!
