//! Properties that hold across the register operations, stated over the
//! specifications that the operations' contracts use.
use vstd::prelude::*;
use crate::bits::{bit_mask, lemma_single_bit, spec_field, spec_with_field};
use crate::block::{DynamicRegisterBlock, RegisterBlock};
use crate::register::Register;
use crate::space::{byte_at, lemma_le_round_trip, lemma_le_store_byte, lemma_le_store_other};
use crate::word::{is_word_shape, Word};

verus! {

/// Reading a register after writing `value` to it gives back `value`.
pub proof fn law_read_after_write<T: Word, A>(reg: Register<T, A>, cells: Map<usize, u8>, value: T)
    requires
        reg.spec_is_valid(),
    ensures
        reg.spec_read(reg.spec_write(cells, value)) == value,
{
    T::lemma_shape();
    T::lemma_value_fits(value);
    lemma_le_round_trip(cells, reg.spec_address() as int, value.spec_value(), T::spec_size() as nat);
    T::lemma_round_trip(value);
}

/// Writing one register leaves every register whose bytes do not overlap it unchanged.
pub proof fn law_write_leaves_other_addresses<T: Word, A, U: Word, B>(
    reg: Register<T, A>,
    other: Register<U, B>,
    cells: Map<usize, u8>,
    value: T,
)
    requires
        reg.spec_is_valid(),
        other.spec_is_valid(),
        reg.spec_address() + T::spec_size() <= other.spec_address() || other.spec_address()
            + U::spec_size() <= reg.spec_address(),
    ensures
        other.spec_read(reg.spec_write(cells, value)) == other.spec_read(cells),
{
    lemma_le_store_other(
        cells,
        reg.spec_address() as int,
        value.spec_value(),
        T::spec_size() as nat,
        other.spec_address() as int,
        U::spec_size() as nat,
    );
}

/// A register is stored little-endian: after `value` is written, the byte at
/// `address + i` holds bits `8 * i .. 8 * i + 8` of `value`. A narrower register
/// inside a wider one therefore reads the corresponding bytes of it.
pub proof fn law_write_is_little_endian<T: Word, A>(
    reg: Register<T, A>,
    cells: Map<usize, u8>,
    value: T,
    i: nat,
)
    requires
        reg.spec_is_valid(),
        i < T::spec_size(),
    ensures
        byte_at(reg.spec_write(cells, value), reg.spec_address() + i) == ((value.spec_value() >> (8
            * i) as u64) & 0xffu64) as u8,
{
    T::lemma_shape();
    lemma_le_store_byte(cells, reg.spec_address() as int, value.spec_value(), T::spec_size() as nat, i);
}

/// Setting bit `pos` ORs the register value with `1 << pos`, for every bit position.
pub proof fn law_set_bit_value<T: Word, A>(reg: Register<T, A>, cells: Map<usize, u8>, pos: u32)
    requires
        reg.spec_is_valid(),
        pos < T::spec_bits(),
    ensures
        reg.spec_read(reg.spec_set_bit(cells, pos)).spec_value() == reg.spec_read(
            cells,
        ).spec_value() | (1u64 << pos),
{
    let old_v = reg.spec_read(cells);
    let new = reg.spec_set_bit_value(cells, pos);
    law_read_after_write(reg, cells, new);
    T::lemma_from_u64(old_v.spec_value() | bit_mask(pos));
    lemma_single_bit(old_v, pos);
}

/// Clearing bit `pos` ANDs the register value with `!(1 << pos)`, for every bit position.
pub proof fn law_clear_bit_value<T: Word, A>(reg: Register<T, A>, cells: Map<usize, u8>, pos: u32)
    requires
        reg.spec_is_valid(),
        pos < T::spec_bits(),
    ensures
        reg.spec_read(reg.spec_clear_bit(cells, pos)).spec_value() == reg.spec_read(
            cells,
        ).spec_value() & !(1u64 << pos),
{
    let old_v = reg.spec_read(cells);
    let new = reg.spec_clear_bit_value(cells, pos);
    law_read_after_write(reg, cells, new);
    T::lemma_from_u64(old_v.spec_value() & !bit_mask(pos));
    lemma_single_bit(old_v, pos);
}

/// Bit `pos` of a register is set exactly when `(value >> pos) & 1 == 1`.
pub proof fn law_get_bit_value<T: Word, A>(reg: Register<T, A>, cells: Map<usize, u8>, pos: u32)
    requires
        pos < T::spec_bits(),
    ensures
        reg.spec_get_bit(cells, pos) == ((reg.spec_read(cells).spec_value() >> pos) & 1u64 == 1u64),
{
    lemma_single_bit(reg.spec_read(cells), pos);
}

/// After bit `pos` is set, bit `j` is set exactly when `j == pos` or it was set before.
pub proof fn law_get_bit_after_set_bit<T: Word, A>(
    reg: Register<T, A>,
    cells: Map<usize, u8>,
    pos: u32,
    j: u32,
)
    requires
        reg.spec_is_valid(),
        pos < T::spec_bits(),
        j < T::spec_bits(),
    ensures
        reg.spec_get_bit(reg.spec_set_bit(cells, pos), j) == (j == pos || reg.spec_get_bit(
            cells,
            j,
        )),
{
    let c = reg.spec_read(cells).spec_value();
    let w = T::spec_bits();
    let m = T::spec_mask();
    T::lemma_shape();
    let new = T::spec_from_u64(c | bit_mask(pos));
    T::lemma_from_u64(c | bit_mask(pos));
    law_read_after_write(reg, cells, new);
    assert((((c | (1u64 << pos)) & m) & (1u64 << j) != 0) == (j == pos || c & (1u64 << j) != 0))
        by (bit_vector)
        requires
            is_word_shape(w, m),
            pos < w,
            j < w,
    ;
}

/// After bit `pos` is cleared, bit `j` is set exactly when `j != pos` and it was set before.
pub proof fn law_get_bit_after_clear_bit<T: Word, A>(
    reg: Register<T, A>,
    cells: Map<usize, u8>,
    pos: u32,
    j: u32,
)
    requires
        reg.spec_is_valid(),
        pos < T::spec_bits(),
        j < T::spec_bits(),
    ensures
        reg.spec_get_bit(reg.spec_clear_bit(cells, pos), j) == (j != pos && reg.spec_get_bit(
            cells,
            j,
        )),
{
    let c = reg.spec_read(cells).spec_value();
    let w = T::spec_bits();
    let m = T::spec_mask();
    T::lemma_shape();
    let new = T::spec_from_u64(c & !bit_mask(pos));
    T::lemma_from_u64(c & !bit_mask(pos));
    law_read_after_write(reg, cells, new);
    assert((((c & !(1u64 << pos)) & m) & (1u64 << j) != 0) == (j != pos && c & (1u64 << j) != 0))
        by (bit_vector)
        requires
            is_word_shape(w, m),
            pos < w,
            j < w,
    ;
}

/// Reading back a field just written gives the written value clamped to the mask,
/// provided the field `mask << shift` lies within the register width.
pub proof fn law_read_field_after_write_field<T: Word, A>(
    reg: Register<T, A>,
    cells: Map<usize, u8>,
    mask: T,
    shift: u32,
    value: T,
)
    requires
        reg.spec_is_valid(),
        shift < T::spec_bits(),
        mask.spec_value() & (T::spec_mask() >> shift) == mask.spec_value(),
    ensures
        reg.spec_read_field(reg.spec_write_field(cells, mask, shift, value), mask, shift).spec_value()
            == value.spec_value() & mask.spec_value(),
{
    let c = reg.spec_read(cells).spec_value();
    let f = mask.spec_value();
    let x = value.spec_value();
    let w = T::spec_bits();
    let m = T::spec_mask();
    T::lemma_shape();
    let r = spec_with_field(c, f, shift, x);
    let new = T::spec_from_u64(r);
    T::lemma_from_u64(r);
    law_read_after_write(reg, cells, new);
    T::lemma_from_u64(spec_field(r & m, f, shift));
    assert(((((c & !(f << shift)) | ((x & f) << shift)) & m) >> shift) & f & m == x & f)
        by (bit_vector)
        requires
            is_word_shape(w, m),
            shift < w,
            f & (m >> shift) == f,
    ;
}

/// Writing a field leaves every bit of the register outside `mask << shift` as it was.
pub proof fn law_write_field_keeps_other_bits<T: Word, A>(
    reg: Register<T, A>,
    cells: Map<usize, u8>,
    mask: T,
    shift: u32,
    value: T,
)
    requires
        reg.spec_is_valid(),
        shift < T::spec_bits(),
    ensures
        reg.spec_read(reg.spec_write_field(cells, mask, shift, value)).spec_value() & !(
        mask.spec_value() << shift) == reg.spec_read(cells).spec_value() & !(mask.spec_value()
            << shift),
{
    let old_v = reg.spec_read(cells);
    let c = old_v.spec_value();
    let f = mask.spec_value();
    let x = value.spec_value();
    let w = T::spec_bits();
    let m = T::spec_mask();
    T::lemma_shape();
    T::lemma_value_fits(old_v);
    let r = spec_with_field(c, f, shift, x);
    let new = T::spec_from_u64(r);
    T::lemma_from_u64(r);
    law_read_after_write(reg, cells, new);
    assert((((c & !(f << shift)) | ((x & f) << shift)) & m) & !(f << shift) == c & !(f << shift))
        by (bit_vector)
        requires
            is_word_shape(w, m),
            shift < w,
            c & m == c,
    ;
}

/// OR, AND and XOR with a mask give exactly the bitwise result: no bit of the
/// register is lost to the register width.
pub proof fn law_mask_operations<T: Word, A>(reg: Register<T, A>, cells: Map<usize, u8>, mask: T)
    requires
        reg.spec_is_valid(),
    ensures
        reg.spec_read(reg.spec_set_bits(cells, mask)).spec_value() == reg.spec_read(
            cells,
        ).spec_value() | mask.spec_value(),
        reg.spec_read(reg.spec_and_bits(cells, mask)).spec_value() == reg.spec_read(
            cells,
        ).spec_value() & mask.spec_value(),
        reg.spec_read(reg.spec_toggle_bits(cells, mask)).spec_value() == reg.spec_read(
            cells,
        ).spec_value() ^ mask.spec_value(),
        reg.spec_read(reg.spec_clear_bits(cells, mask)).spec_value() == reg.spec_read(
            cells,
        ).spec_value() & !mask.spec_value(),
{
    let old_v = reg.spec_read(cells);
    let c = old_v.spec_value();
    let k = mask.spec_value();
    let m = T::spec_mask();
    T::lemma_value_fits(old_v);
    T::lemma_value_fits(mask);
    T::lemma_from_u64(c | k);
    T::lemma_from_u64(c & k);
    T::lemma_from_u64(c ^ k);
    T::lemma_from_u64(c & !k);
    law_read_after_write(reg, cells, T::spec_from_u64(c | k));
    law_read_after_write(reg, cells, T::spec_from_u64(c & k));
    law_read_after_write(reg, cells, T::spec_from_u64(c ^ k));
    law_read_after_write(reg, cells, T::spec_from_u64(c & !k));
    assert((c | k) & m == c | k && (c & k) & m == c & k && (c ^ k) & m == c ^ k && (c & !k) & m
        == c & !k) by (bit_vector)
        requires
            c & m == c,
            k & m == k,
    ;
}

/// Toggling the same mask twice gives the register its original value back.
pub proof fn law_toggle_twice<T: Word, A>(reg: Register<T, A>, cells: Map<usize, u8>, mask: T)
    requires
        reg.spec_is_valid(),
    ensures
        reg.spec_read(reg.spec_toggle_bits(reg.spec_toggle_bits(cells, mask), mask))
            == reg.spec_read(cells),
{
    let old_v = reg.spec_read(cells);
    let c = old_v.spec_value();
    let k = mask.spec_value();
    let once = reg.spec_toggle_bits(cells, mask);
    law_mask_operations(reg, cells, mask);
    law_mask_operations(reg, once, mask);
    assert((c ^ k) ^ k == c) by (bit_vector);
    T::lemma_round_trip(old_v);
    T::lemma_round_trip(reg.spec_read(reg.spec_toggle_bits(once, mask)));
}

/// Register `index` of a block sits at the base plus its offset, so two registers
/// of a block lie as far apart as their offsets.
pub proof fn law_block_register_address<const N: usize>(block: RegisterBlock<N>, i: int, j: int)
    requires
        0 <= i < N,
        0 <= j < N,
    ensures
        block.spec_reg_address(i) == block.spec_base() + block.spec_offsets()[i],
        block.spec_reg_address(i) - block.spec_reg_address(j) == block.spec_offsets()[i]
            - block.spec_offsets()[j],
{
}

/// Register `index` of a dynamic block sits at the base plus its offset, so two
/// registers of a block lie as far apart as their offsets.
pub proof fn law_dynamic_block_register_address<T: Word, A, const N: usize>(
    block: DynamicRegisterBlock<T, A, N>,
    i: int,
    j: int,
)
    requires
        0 <= i < N,
        0 <= j < N,
    ensures
        block.spec_reg_address(i) == block.spec_base() + block.spec_offsets()[i],
        block.spec_reg_address(i) - block.spec_reg_address(j) == block.spec_offsets()[i]
            - block.spec_offsets()[j],
{
}

} // verus!
