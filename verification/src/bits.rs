//! Fixed-width bit-field values with offset/length-checked accessors.
//!
//! A hardware control register packs several independent fields into one
//! unsigned integer. [`Bits`] wraps such an integer and offers pure field
//! operations: each one takes the field's geometry (a bit offset and a
//! length), masks the operand to the field's width before use, and leaves
//! every bit outside the field untouched. Field geometry out of bounds for
//! the width is a programming error and is excluded by precondition.

use vstd::prelude::*;

verus! {

/// A raw unsigned integer manipulated as a composition of bit fields.
///
/// The value is always exactly the composition of the fields written into
/// it; there is no hidden state. Copying is free: this is a plain value.
#[derive(Clone, Copy)]
pub struct Bits<T>(pub T);

/// The 16-bit mask with the low `length` bits set and all others clear.
///
/// Shifting the all-ones word left by `length` clears exactly the low
/// `length` bits (for `length == 16` everything is shifted out), so the
/// complement keeps exactly those bits.
pub open spec fn mask16(length: usize) -> u16 {
    !(0xFFFFu16 << length)
}

/// The 16-bit mask covering the field `[offset, offset + length)`.
pub open spec fn field_mask16(offset: usize, length: usize) -> u16 {
    mask16(length) << offset
}

/// The field `[offset, offset + length)` of `bits`, shifted down to bit 0.
pub open spec fn spec_get_field16(bits: u16, offset: usize, length: usize) -> u16 {
    (bits >> offset) & mask16(length)
}

/// `bits` with the field `[offset, offset + length)` replaced by `value`
/// masked to the field's length; all other bits are kept.
pub open spec fn spec_set_field16(bits: u16, offset: usize, length: usize, value: u16) -> u16 {
    (bits & !field_mask16(offset, length)) | ((value & mask16(length)) << offset)
}

/// Bit `offset` of `bits`.
pub open spec fn spec_get_bit16(bits: u16, offset: usize) -> bool {
    (bits >> offset) & 1u16 == 1u16
}

/// `bits` with the masked `value` OR-ed into the field at `offset`.
pub open spec fn spec_or_field16(bits: u16, offset: usize, length: usize, value: u16) -> u16 {
    bits | ((value & mask16(length)) << offset)
}

/// `bits` with the field AND-ed with the masked `value`; bits outside the
/// field are kept as they are (they are not AND-ed with zero).
pub open spec fn spec_and_field16(bits: u16, offset: usize, length: usize, value: u16) -> u16 {
    bits & (((value & mask16(length)) << offset) | !field_mask16(offset, length))
}

/// `bits` with the masked `value` XOR-ed into the field at `offset`.
pub open spec fn spec_xor_field16(bits: u16, offset: usize, length: usize, value: u16) -> u16 {
    bits ^ ((value & mask16(length)) << offset)
}

/// `bits` with every bit that is set in the masked `value` cleared
/// (bit clear), within the field at `offset`.
pub open spec fn spec_bic_field16(bits: u16, offset: usize, length: usize, value: u16) -> u16 {
    bits & !((value & mask16(length)) << offset)
}

/// `bits` with the whole field `[offset, offset + length)` inverted.
pub open spec fn spec_not_field16(bits: u16, offset: usize, length: usize) -> u16 {
    bits ^ field_mask16(offset, length)
}

/// `bits` with only the field `[offset, offset + length)` kept.
pub open spec fn spec_isolate_field16(bits: u16, offset: usize, length: usize) -> u16 {
    bits & field_mask16(offset, length)
}

/// `bits` with the field `[offset, offset + length)` zeroed.
pub open spec fn spec_clear_field16(bits: u16, offset: usize, length: usize) -> u16 {
    bits & !field_mask16(offset, length)
}

impl Bits<u16> {
    /// Return the bitmask with the low `length` bits set.
    pub fn mask(length: usize) -> (r: u16)
        requires
            length <= 16,
        ensures
            r == mask16(length),
    {
        if length == 16 {
            proof {
                assert(mask16(16) == 0xFFFFu16) by (bit_vector);
            }
            0xFFFF
        } else {
            !(0xFFFFu16 << length)
        }
    }

    /// Gets the given bits, shifted down to position 0.
    pub fn get_field(self, offset: usize, length: usize) -> (r: u16)
        requires
            offset < 16,
            offset + length <= 16,
        ensures
            r == spec_get_field16(self.0, offset, length),
    {
        (self.0 >> offset) & Self::mask(length)
    }

    /// Sets the given bits to `value`, masked to the field's length.
    ///
    /// Masking before insertion means an over-wide `value` can never
    /// corrupt bits outside the field, regardless of the caller.
    pub fn set_field(self, offset: usize, length: usize, value: u16) -> (r: Self)
        requires
            offset < 16,
            offset + length <= 16,
        ensures
            r.0 == spec_set_field16(self.0, offset, length, value),
    {
        let m = Self::mask(length);
        let field_mask = m << offset;
        Bits((self.0 & !field_mask) | ((value & m) << offset))
    }

    /// Gets the given bit.
    pub fn get_bit(self, offset: usize) -> (r: bool)
        requires
            offset < 16,
        ensures
            r == spec_get_bit16(self.0, offset),
    {
        let v = self.get_field(offset, 1);
        proof {
            let b = self.0;
            assert(((b >> offset) & mask16(1) != 0) == ((b >> offset) & 1u16 == 1u16))
                by (bit_vector);
        }
        v != 0
    }

    /// Sets the given bit.
    pub fn set_bit(self, offset: usize, value: bool) -> (r: Self)
        requires
            offset < 16,
        ensures
            r.0 == spec_set_field16(self.0, offset, 1, if value { 1u16 } else { 0u16 }),
    {
        self.set_field(offset, 1, if value { 1 } else { 0 })
    }

    /// Logical ORs the masked `value` into the given field.
    pub fn or_field(self, offset: usize, length: usize, value: u16) -> (r: Self)
        requires
            offset < 16,
            offset + length <= 16,
        ensures
            r.0 == spec_or_field16(self.0, offset, length, value),
    {
        let m = Self::mask(length);
        Bits(self.0 | ((value & m) << offset))
    }

    /// Logical ANDs the given field with the masked `value`.
    ///
    /// Only bits inside the field take part: bits outside it keep their
    /// prior value rather than being AND-ed with zero.
    pub fn and_field(self, offset: usize, length: usize, value: u16) -> (r: Self)
        requires
            offset < 16,
            offset + length <= 16,
        ensures
            r.0 == spec_and_field16(self.0, offset, length, value),
    {
        let m = Self::mask(length);
        let field_mask = m << offset;
        Bits(self.0 & (((value & m) << offset) | !field_mask))
    }

    /// Logical XORs the masked `value` into the given field.
    pub fn xor_field(self, offset: usize, length: usize, value: u16) -> (r: Self)
        requires
            offset < 16,
            offset + length <= 16,
        ensures
            r.0 == spec_xor_field16(self.0, offset, length, value),
    {
        let m = Self::mask(length);
        Bits(self.0 ^ ((value & m) << offset))
    }

    /// Performs a bit clear: every bit set in the masked `value` is
    /// cleared in the given field.
    pub fn bic_field(self, offset: usize, length: usize, value: u16) -> (r: Self)
        requires
            offset < 16,
            offset + length <= 16,
        ensures
            r.0 == spec_bic_field16(self.0, offset, length, value),
    {
        let m = Self::mask(length);
        Bits(self.0 & !((value & m) << offset))
    }

    /// Logical NOTs the given field.
    pub fn not_field(self, offset: usize, length: usize) -> (r: Self)
        requires
            offset < 16,
            offset + length <= 16,
        ensures
            r.0 == spec_not_field16(self.0, offset, length),
    {
        let m = Self::mask(length);
        Bits(self.0 ^ (m << offset))
    }

    /// Isolates the given field, clearing everything else.
    pub fn isolate_field(self, offset: usize, length: usize) -> (r: Self)
        requires
            offset < 16,
            offset + length <= 16,
        ensures
            r.0 == spec_isolate_field16(self.0, offset, length),
    {
        let m = Self::mask(length);
        Bits(self.0 & (m << offset))
    }

    /// Clears the given field.
    pub fn clear_field(self, offset: usize, length: usize) -> (r: Self)
        requires
            offset < 16,
            offset + length <= 16,
        ensures
            r.0 == spec_clear_field16(self.0, offset, length),
    {
        let m = Self::mask(length);
        Bits(self.0 & !(m << offset))
    }
}

/// Law: the empty mask has no bits set, and the full-width mask has every
/// bit of the width set.
pub proof fn lemma_mask16_bounds()
    by (bit_vector)
    ensures
        mask16(0) == 0u16,
        mask16(16) == 0xFFFFu16,
{
}

/// Law: writing a field and reading the same field back yields the written
/// value masked to the field's length, and every bit outside
/// `[offset, offset + length)` keeps its prior value.
pub proof fn lemma_set_field_then_get_field16(bits: u16, offset: usize, length: usize, value: u16)
    by (bit_vector)
    requires
        offset < 16,
        offset + length <= 16,
    ensures
        spec_get_field16(spec_set_field16(bits, offset, length, value), offset, length)
            == value & mask16(length),
        spec_set_field16(bits, offset, length, value) & !field_mask16(offset, length)
            == bits & !field_mask16(offset, length),
{
}

/// Law: OR-ing into a field touches only bits inside the field. The
/// isolated result is the OR of the prior isolated field and the masked,
/// shifted operand; every bit outside the field is identical to before.
pub proof fn lemma_or_field_frame16(bits: u16, offset: usize, length: usize, value: u16)
    by (bit_vector)
    requires
        offset < 16,
        offset + length <= 16,
    ensures
        spec_isolate_field16(spec_or_field16(bits, offset, length, value), offset, length)
            == spec_isolate_field16(bits, offset, length) | ((value & mask16(length)) << offset),
        spec_or_field16(bits, offset, length, value) & !field_mask16(offset, length)
            == bits & !field_mask16(offset, length),
{
}

/// Law: AND-ing a field touches only bits inside the field. The isolated
/// result is the AND of the prior isolated field and the masked, shifted
/// operand; every bit outside the field is identical to before.
pub proof fn lemma_and_field_frame16(bits: u16, offset: usize, length: usize, value: u16)
    by (bit_vector)
    requires
        offset < 16,
        offset + length <= 16,
    ensures
        spec_isolate_field16(spec_and_field16(bits, offset, length, value), offset, length)
            == spec_isolate_field16(bits, offset, length) & ((value & mask16(length)) << offset),
        spec_and_field16(bits, offset, length, value) & !field_mask16(offset, length)
            == bits & !field_mask16(offset, length),
{
}

/// Law: XOR-ing into a field touches only bits inside the field. The
/// isolated result is the XOR of the prior isolated field and the masked,
/// shifted operand; every bit outside the field is identical to before.
pub proof fn lemma_xor_field_frame16(bits: u16, offset: usize, length: usize, value: u16)
    by (bit_vector)
    requires
        offset < 16,
        offset + length <= 16,
    ensures
        spec_isolate_field16(spec_xor_field16(bits, offset, length, value), offset, length)
            == spec_isolate_field16(bits, offset, length) ^ ((value & mask16(length)) << offset),
        spec_xor_field16(bits, offset, length, value) & !field_mask16(offset, length)
            == bits & !field_mask16(offset, length),
{
}

/// Law: a bit clear touches only bits inside the field. The isolated
/// result is the prior isolated field AND the complement of the masked,
/// shifted operand; every bit outside the field is identical to before.
pub proof fn lemma_bic_field_frame16(bits: u16, offset: usize, length: usize, value: u16)
    by (bit_vector)
    requires
        offset < 16,
        offset + length <= 16,
    ensures
        spec_isolate_field16(spec_bic_field16(bits, offset, length, value), offset, length)
            == spec_isolate_field16(bits, offset, length) & !((value & mask16(length)) << offset),
        spec_bic_field16(bits, offset, length, value) & !field_mask16(offset, length)
            == bits & !field_mask16(offset, length),
{
}

/// Law: two words that agree outside a field under the mask formulation
/// agree bit for bit on every position outside the field. Together with
/// the frame equalities of the field operations, this says each operation
/// leaves every individual bit outside `[offset, offset + length)` exactly
/// as it was.
pub proof fn lemma_outside_field_bitwise16(a: u16, b: u16, offset: usize, length: usize, i: usize)
    by (bit_vector)
    requires
        offset < 16,
        offset + length <= 16,
        a & !field_mask16(offset, length) == b & !field_mask16(offset, length),
        i < 16,
        i < offset || offset + length <= i,
    ensures
        spec_get_bit16(a, i) == spec_get_bit16(b, i),
{
}

/// The 32-bit mask with the low `length` bits set and all others clear.
pub open spec fn mask32(length: usize) -> u32 {
    !(0xFFFF_FFFFu32 << length)
}

/// The 32-bit mask covering the field `[offset, offset + length)`.
pub open spec fn field_mask32(offset: usize, length: usize) -> u32 {
    mask32(length) << offset
}

/// The field `[offset, offset + length)` of `bits`, shifted down to bit 0.
pub open spec fn spec_get_field32(bits: u32, offset: usize, length: usize) -> u32 {
    (bits >> offset) & mask32(length)
}

/// `bits` with the field `[offset, offset + length)` replaced by `value`
/// masked to the field's length; all other bits are kept.
pub open spec fn spec_set_field32(bits: u32, offset: usize, length: usize, value: u32) -> u32 {
    (bits & !field_mask32(offset, length)) | ((value & mask32(length)) << offset)
}

/// Bit `offset` of `bits`.
pub open spec fn spec_get_bit32(bits: u32, offset: usize) -> bool {
    (bits >> offset) & 1u32 == 1u32
}

/// `bits` with the masked `value` OR-ed into the field at `offset`.
pub open spec fn spec_or_field32(bits: u32, offset: usize, length: usize, value: u32) -> u32 {
    bits | ((value & mask32(length)) << offset)
}

/// `bits` with the field AND-ed with the masked `value`; bits outside the
/// field are kept as they are (they are not AND-ed with zero).
pub open spec fn spec_and_field32(bits: u32, offset: usize, length: usize, value: u32) -> u32 {
    bits & (((value & mask32(length)) << offset) | !field_mask32(offset, length))
}

/// `bits` with the masked `value` XOR-ed into the field at `offset`.
pub open spec fn spec_xor_field32(bits: u32, offset: usize, length: usize, value: u32) -> u32 {
    bits ^ ((value & mask32(length)) << offset)
}

/// `bits` with every bit that is set in the masked `value` cleared
/// (bit clear), within the field at `offset`.
pub open spec fn spec_bic_field32(bits: u32, offset: usize, length: usize, value: u32) -> u32 {
    bits & !((value & mask32(length)) << offset)
}

/// `bits` with the whole field `[offset, offset + length)` inverted.
pub open spec fn spec_not_field32(bits: u32, offset: usize, length: usize) -> u32 {
    bits ^ field_mask32(offset, length)
}

/// `bits` with only the field `[offset, offset + length)` kept.
pub open spec fn spec_isolate_field32(bits: u32, offset: usize, length: usize) -> u32 {
    bits & field_mask32(offset, length)
}

/// `bits` with the field `[offset, offset + length)` zeroed.
pub open spec fn spec_clear_field32(bits: u32, offset: usize, length: usize) -> u32 {
    bits & !field_mask32(offset, length)
}

impl Bits<u32> {
    /// Return the bitmask with the low `length` bits set.
    pub fn mask(length: usize) -> (r: u32)
        requires
            length <= 32,
        ensures
            r == mask32(length),
    {
        if length == 32 {
            proof {
                assert(mask32(32) == 0xFFFF_FFFFu32) by (bit_vector);
            }
            0xFFFF_FFFF
        } else {
            !(0xFFFF_FFFFu32 << length)
        }
    }

    /// Gets the given bits, shifted down to position 0.
    pub fn get_field(self, offset: usize, length: usize) -> (r: u32)
        requires
            offset < 32,
            offset + length <= 32,
        ensures
            r == spec_get_field32(self.0, offset, length),
    {
        (self.0 >> offset) & Self::mask(length)
    }

    /// Sets the given bits to `value`, masked to the field's length.
    ///
    /// Masking before insertion means an over-wide `value` can never
    /// corrupt bits outside the field, regardless of the caller.
    pub fn set_field(self, offset: usize, length: usize, value: u32) -> (r: Self)
        requires
            offset < 32,
            offset + length <= 32,
        ensures
            r.0 == spec_set_field32(self.0, offset, length, value),
    {
        let m = Self::mask(length);
        let field_mask = m << offset;
        Bits((self.0 & !field_mask) | ((value & m) << offset))
    }

    /// Gets the given bit.
    pub fn get_bit(self, offset: usize) -> (r: bool)
        requires
            offset < 32,
        ensures
            r == spec_get_bit32(self.0, offset),
    {
        let v = self.get_field(offset, 1);
        proof {
            let b = self.0;
            assert(((b >> offset) & mask32(1) != 0) == ((b >> offset) & 1u32 == 1u32))
                by (bit_vector);
        }
        v != 0
    }

    /// Sets the given bit.
    pub fn set_bit(self, offset: usize, value: bool) -> (r: Self)
        requires
            offset < 32,
        ensures
            r.0 == spec_set_field32(self.0, offset, 1, if value { 1u32 } else { 0u32 }),
    {
        self.set_field(offset, 1, if value { 1 } else { 0 })
    }

    /// Logical ORs the masked `value` into the given field.
    pub fn or_field(self, offset: usize, length: usize, value: u32) -> (r: Self)
        requires
            offset < 32,
            offset + length <= 32,
        ensures
            r.0 == spec_or_field32(self.0, offset, length, value),
    {
        let m = Self::mask(length);
        Bits(self.0 | ((value & m) << offset))
    }

    /// Logical ANDs the given field with the masked `value`.
    ///
    /// Only bits inside the field take part: bits outside it keep their
    /// prior value rather than being AND-ed with zero.
    pub fn and_field(self, offset: usize, length: usize, value: u32) -> (r: Self)
        requires
            offset < 32,
            offset + length <= 32,
        ensures
            r.0 == spec_and_field32(self.0, offset, length, value),
    {
        let m = Self::mask(length);
        let field_mask = m << offset;
        Bits(self.0 & (((value & m) << offset) | !field_mask))
    }

    /// Logical XORs the masked `value` into the given field.
    pub fn xor_field(self, offset: usize, length: usize, value: u32) -> (r: Self)
        requires
            offset < 32,
            offset + length <= 32,
        ensures
            r.0 == spec_xor_field32(self.0, offset, length, value),
    {
        let m = Self::mask(length);
        Bits(self.0 ^ ((value & m) << offset))
    }

    /// Performs a bit clear: every bit set in the masked `value` is
    /// cleared in the given field.
    pub fn bic_field(self, offset: usize, length: usize, value: u32) -> (r: Self)
        requires
            offset < 32,
            offset + length <= 32,
        ensures
            r.0 == spec_bic_field32(self.0, offset, length, value),
    {
        let m = Self::mask(length);
        Bits(self.0 & !((value & m) << offset))
    }

    /// Logical NOTs the given field.
    pub fn not_field(self, offset: usize, length: usize) -> (r: Self)
        requires
            offset < 32,
            offset + length <= 32,
        ensures
            r.0 == spec_not_field32(self.0, offset, length),
    {
        let m = Self::mask(length);
        Bits(self.0 ^ (m << offset))
    }

    /// Isolates the given field, clearing everything else.
    pub fn isolate_field(self, offset: usize, length: usize) -> (r: Self)
        requires
            offset < 32,
            offset + length <= 32,
        ensures
            r.0 == spec_isolate_field32(self.0, offset, length),
    {
        let m = Self::mask(length);
        Bits(self.0 & (m << offset))
    }

    /// Clears the given field.
    pub fn clear_field(self, offset: usize, length: usize) -> (r: Self)
        requires
            offset < 32,
            offset + length <= 32,
        ensures
            r.0 == spec_clear_field32(self.0, offset, length),
    {
        let m = Self::mask(length);
        Bits(self.0 & !(m << offset))
    }
}

/// Law: the empty mask has no bits set, and the full-width mask has every
/// bit of the width set.
pub proof fn lemma_mask32_bounds()
    by (bit_vector)
    ensures
        mask32(0) == 0u32,
        mask32(32) == 0xFFFF_FFFFu32,
{
}

/// Law: writing a field and reading the same field back yields the written
/// value masked to the field's length, and every bit outside
/// `[offset, offset + length)` keeps its prior value.
pub proof fn lemma_set_field_then_get_field32(bits: u32, offset: usize, length: usize, value: u32)
    by (bit_vector)
    requires
        offset < 32,
        offset + length <= 32,
    ensures
        spec_get_field32(spec_set_field32(bits, offset, length, value), offset, length)
            == value & mask32(length),
        spec_set_field32(bits, offset, length, value) & !field_mask32(offset, length)
            == bits & !field_mask32(offset, length),
{
}

/// Law: OR-ing into a field touches only bits inside the field. The
/// isolated result is the OR of the prior isolated field and the masked,
/// shifted operand; every bit outside the field is identical to before.
pub proof fn lemma_or_field_frame32(bits: u32, offset: usize, length: usize, value: u32)
    by (bit_vector)
    requires
        offset < 32,
        offset + length <= 32,
    ensures
        spec_isolate_field32(spec_or_field32(bits, offset, length, value), offset, length)
            == spec_isolate_field32(bits, offset, length) | ((value & mask32(length)) << offset),
        spec_or_field32(bits, offset, length, value) & !field_mask32(offset, length)
            == bits & !field_mask32(offset, length),
{
}

/// Law: AND-ing a field touches only bits inside the field. The isolated
/// result is the AND of the prior isolated field and the masked, shifted
/// operand; every bit outside the field is identical to before.
pub proof fn lemma_and_field_frame32(bits: u32, offset: usize, length: usize, value: u32)
    by (bit_vector)
    requires
        offset < 32,
        offset + length <= 32,
    ensures
        spec_isolate_field32(spec_and_field32(bits, offset, length, value), offset, length)
            == spec_isolate_field32(bits, offset, length) & ((value & mask32(length)) << offset),
        spec_and_field32(bits, offset, length, value) & !field_mask32(offset, length)
            == bits & !field_mask32(offset, length),
{
}

/// Law: XOR-ing into a field touches only bits inside the field. The
/// isolated result is the XOR of the prior isolated field and the masked,
/// shifted operand; every bit outside the field is identical to before.
pub proof fn lemma_xor_field_frame32(bits: u32, offset: usize, length: usize, value: u32)
    by (bit_vector)
    requires
        offset < 32,
        offset + length <= 32,
    ensures
        spec_isolate_field32(spec_xor_field32(bits, offset, length, value), offset, length)
            == spec_isolate_field32(bits, offset, length) ^ ((value & mask32(length)) << offset),
        spec_xor_field32(bits, offset, length, value) & !field_mask32(offset, length)
            == bits & !field_mask32(offset, length),
{
}

/// Law: a bit clear touches only bits inside the field. The isolated
/// result is the prior isolated field AND the complement of the masked,
/// shifted operand; every bit outside the field is identical to before.
pub proof fn lemma_bic_field_frame32(bits: u32, offset: usize, length: usize, value: u32)
    by (bit_vector)
    requires
        offset < 32,
        offset + length <= 32,
    ensures
        spec_isolate_field32(spec_bic_field32(bits, offset, length, value), offset, length)
            == spec_isolate_field32(bits, offset, length) & !((value & mask32(length)) << offset),
        spec_bic_field32(bits, offset, length, value) & !field_mask32(offset, length)
            == bits & !field_mask32(offset, length),
{
}

/// Law: writes to two non-overlapping fields of the same value commute.
pub proof fn lemma_set_field_commutes32(
    bits: u32,
    offset1: usize,
    length1: usize,
    value1: u32,
    offset2: usize,
    length2: usize,
    value2: u32,
)
    by (bit_vector)
    requires
        offset1 < 32,
        offset1 + length1 <= 32,
        offset2 < 32,
        offset2 + length2 <= 32,
        offset1 + length1 <= offset2 || offset2 + length2 <= offset1,
    ensures
        spec_set_field32(spec_set_field32(bits, offset1, length1, value1), offset2, length2, value2)
            == spec_set_field32(
            spec_set_field32(bits, offset2, length2, value2),
            offset1,
            length1,
            value1,
        ),
{
}

/// Law: two words that agree outside a field under the mask formulation
/// agree bit for bit on every position outside the field. Together with
/// the frame equalities of the field operations, this says each operation
/// leaves every individual bit outside `[offset, offset + length)` exactly
/// as it was.
pub proof fn lemma_outside_field_bitwise32(a: u32, b: u32, offset: usize, length: usize, i: usize)
    by (bit_vector)
    requires
        offset < 32,
        offset + length <= 32,
        a & !field_mask32(offset, length) == b & !field_mask32(offset, length),
        i < 32,
        i < offset || offset + length <= i,
    ensures
        spec_get_bit32(a, i) == spec_get_bit32(b, i),
{
}

/// Law: writes to two non-overlapping fields of the same value commute.
pub proof fn lemma_set_field_commutes16(
    bits: u16,
    offset1: usize,
    length1: usize,
    value1: u16,
    offset2: usize,
    length2: usize,
    value2: u16,
)
    by (bit_vector)
    requires
        offset1 < 16,
        offset1 + length1 <= 16,
        offset2 < 16,
        offset2 + length2 <= 16,
        offset1 + length1 <= offset2 || offset2 + length2 <= offset1,
    ensures
        spec_set_field16(spec_set_field16(bits, offset1, length1, value1), offset2, length2, value2)
            == spec_set_field16(
            spec_set_field16(bits, offset2, length2, value2),
            offset1,
            length1,
            value1,
        ),
{
}

} // verus!
