//! Bit ranges inside a raw register value.
//!
//! A field is an inclusive bit range `(lo, hi)` of a raw integer, bit 0 being
//! the least significant. Reading a field masks it out and right-justifies it;
//! writing a field clears exactly that range and ORs the new bits in. A flag is
//! a field of width one, read and written as a `bool`.
//!
//! The laws speak of a range by its two ends, `lo` and `hi`.

use vstd::arithmetic::power2::{lemma2_to64, pow2};
use vstd::bits::{
    lemma_u16_low_bits_mask_is_mod, lemma_u16_mul_pow2_le_max_iff_max_shr,
    lemma_u16_pow2_no_overflow, lemma_u16_shl_is_mul, lemma_u16_shr_is_div,
    lemma_u32_pow2_no_overflow, lemma_u32_shl_is_mul, lemma_u8_low_bits_mask_is_mod,
    lemma_u8_mul_pow2_le_max_iff_max_shr, lemma_u8_pow2_no_overflow, lemma_u8_shl_is_mul,
    lemma_u8_shr_is_div, low_bits_mask,
};
use vstd::prelude::*;

verus! {

/// A field of a register: the inclusive bit range `(lo, hi)`, bit 0 being the
/// least significant.
pub type Field = (u32, u32);

/// Whether the fields `a` and `b` share no bit.
pub open spec fn disjoint(a: Field, b: Field) -> bool {
    a.1 < b.0 || b.1 < a.0
}

// Registers of sixteen bits.

/// Whether bit `i` of `raw` is set.
pub open spec fn bit16(raw: u16, i: u32) -> bool {
    (raw >> i) & 1 == 1
}

/// Whether `field` is a range inside a register of sixteen bits.
pub open spec fn inside16(field: Field) -> bool {
    field.0 <= field.1 < 16
}

/// The largest value that fits in `field`: `(1 << width) - 1`.
pub open spec fn field_max16(field: Field) -> u16 {
    ((1u32 << ((field.1 - field.0 + 1) as u32)) - 1) as u16
}

/// Whether `value` is representable in the width of `field`.
pub open spec fn fits16(value: u16, field: Field) -> bool {
    value <= field_max16(field)
}

/// The mask that selects `field`: `(1 << width) - 1`, shifted to the low bit.
pub open spec fn mask16(field: Field) -> u16 {
    field_max16(field) << field.0
}

/// The value of `field` in `raw`, right-justified.
pub open spec fn extract16(raw: u16, field: Field) -> u16 {
    (raw & mask16(field)) >> field.0
}

/// `raw` with `field` replaced by the low bits of `value`.
pub open spec fn insert16(raw: u16, field: Field, value: u16) -> u16 {
    (raw & !mask16(field)) | ((value << field.0) & mask16(field))
}

/// The mask of the single bit `bit`.
pub open spec fn flag_mask16(bit: u32) -> u16 {
    1u16 << bit
}

/// Whether the flag at `bit` is set in `raw`.
pub open spec fn flag16(raw: u16, bit: u32) -> bool {
    raw & flag_mask16(bit) != 0
}

/// `raw` with the flag at `bit` set or cleared.
pub open spec fn with_flag16(raw: u16, bit: u32, on: bool) -> u16 {
    if on {
        raw | flag_mask16(bit)
    } else {
        raw & !flag_mask16(bit)
    }
}

/// Computes the mask of `field`.
pub fn field_mask16(field: Field) -> (mask: u16)
    requires
        inside16(field),
    ensures
        mask == mask16(field),
{
    let width: u32 = field.1 - field.0 + 1;
    assert((1u32 << width) >= 1) by (bit_vector)
        requires
            width <= 16,
    ;
    let ones: u16 = ((1u32 << width) - 1) as u16;
    ones << field.0
}

/// Reads `field` of `raw`: the bits of the range, right-justified. The result
/// fits the field's width.
pub fn get_bits16(raw: u16, field: Field) -> (value: u16)
    requires
        inside16(field),
    ensures
        value == extract16(raw, field),
        fits16(value, field),
{
    proof {
        lemma_extract_fits16(raw, field.0, field.1);
    }
    (raw & field_mask16(field)) >> field.0
}

/// Writes `value` into `field` of `raw`. Bits of `value` above the field's
/// width are dropped; every bit of `raw` outside the field is kept.
pub fn with_bits16(raw: u16, field: Field, value: u16) -> (out: u16)
    requires
        inside16(field),
    ensures
        out == insert16(raw, field, value),
        fits16(value, field) ==> extract16(out, field) == value,
{
    proof {
        lemma_get_after_set16(raw, field.0, field.1, value);
    }
    let mask: u16 = field_mask16(field);
    (raw & !mask) | ((value << field.0) & mask)
}

/// Reads the flag at `bit`.
pub fn get_flag16(raw: u16, bit: u32) -> (on: bool)
    requires
        bit < 16,
    ensures
        on == flag16(raw, bit),
{
    (raw & (1u16 << bit)) != 0
}

/// Sets or clears the flag at `bit`, and nothing else.
pub fn set_flag16(raw: u16, bit: u32, on: bool) -> (out: u16)
    requires
        bit < 16,
    ensures
        out == with_flag16(raw, bit, on),
        flag16(out, bit) == on,
{
    proof {
        lemma_flag_get_after_set16(raw, bit, on);
    }
    let mask: u16 = 1u16 << bit;
    if on {
        raw | mask
    } else {
        raw & !mask
    }
}

/// Bit by bit, reading a field: bit `i` of the result is bit `lo + i` of `raw`
/// while that lies in the range, and clear above it.
pub proof fn lemma_extract_bits16(raw: u16, lo: u32, hi: u32, i: u32)
    by (bit_vector)
    requires
        lo <= hi < 16,
        i < 16,
    ensures
        bit16(extract16(raw, (lo, hi)), i) == (i <= hi - lo && bit16(raw, (lo + i) as u32)),
{
}

/// Bit by bit, writing a field: inside the range the result holds the bits of
/// `value`, outside it the bits of `raw`.
pub proof fn lemma_insert_bits16(raw: u16, lo: u32, hi: u32, value: u16, i: u32)
    by (bit_vector)
    requires
        lo <= hi < 16,
        i < 16,
    ensures
        bit16(insert16(raw, (lo, hi), value), i) == (if lo <= i && i <= hi {
            bit16(value, (i - lo) as u32)
        } else {
            bit16(raw, i)
        }),
{
}

/// Two raw values with the same sixteen bits are equal.
pub proof fn lemma_bits_determine16(a: u16, b: u16)
    requires
        forall|i: u32| i < 16 ==> #[trigger] bit16(a, i) == bit16(b, i),
    ensures
        a == b,
{
    assert(a == b) by (bit_vector)
        requires
            bit16(a, 0) == bit16(b, 0),
            bit16(a, 1) == bit16(b, 1),
            bit16(a, 2) == bit16(b, 2),
            bit16(a, 3) == bit16(b, 3),
            bit16(a, 4) == bit16(b, 4),
            bit16(a, 5) == bit16(b, 5),
            bit16(a, 6) == bit16(b, 6),
            bit16(a, 7) == bit16(b, 7),
            bit16(a, 8) == bit16(b, 8),
            bit16(a, 9) == bit16(b, 9),
            bit16(a, 10) == bit16(b, 10),
            bit16(a, 11) == bit16(b, 11),
            bit16(a, 12) == bit16(b, 12),
            bit16(a, 13) == bit16(b, 13),
            bit16(a, 14) == bit16(b, 14),
            bit16(a, 15) == bit16(b, 15),
    ;
}

/// A field never reads as more than its width can hold.
pub proof fn lemma_extract_fits16(raw: u16, lo: u32, hi: u32)
    by (bit_vector)
    requires
        lo <= hi < 16,
    ensures
        fits16(extract16(raw, (lo, hi)), (lo, hi)),
{
}

/// As arithmetic, a field is the quotient of the raw value by `2^lo`, taken
/// modulo `2^width`.
pub proof fn lemma_extract_is_div_mod16(raw: u16, lo: u32, hi: u32)
    requires
        lo <= hi < 16,
    ensures
        extract16(raw, (lo, hi)) as nat == (raw as nat / pow2(lo as nat)) % pow2(
            (hi - lo + 1) as nat,
        ),
{
    let width: u32 = (hi - lo + 1) as u32;
    let shifted: u16 = raw >> lo;
    assert(extract16(raw, (lo, hi)) == shifted & field_max16((lo, hi))) by (bit_vector)
        requires
            lo <= hi < 16,
            shifted == raw >> lo,
    ;
    lemma_u16_shr_is_div(raw, lo as u16);
    assert(shifted as nat == raw as nat / pow2(lo as nat));
    lemma2_to64();
    if width == 16 {
        assert(shifted & field_max16((lo, hi)) == shifted) by (bit_vector)
            requires
                lo == 0,
                hi == 15,
        ;
        let divisor = pow2(lo as nat);
        let modulus = pow2(width as nat);
        assert(divisor == 1 && modulus == 0x10000);
        assert(raw as nat / divisor == raw as nat) by (nonlinear_arith)
            requires
                divisor == 1,
        ;
        assert(raw as nat % modulus == raw as nat) by (nonlinear_arith)
            requires
                modulus == 0x10000,
                raw < 0x10000,
        ;
    } else {
        lemma_u32_pow2_no_overflow(width as nat);
        lemma_u32_shl_is_mul(1, width);
        lemma_u16_pow2_no_overflow(width as nat);
        assert(field_max16((lo, hi)) == low_bits_mask(width as nat) as u16);
        lemma_u16_low_bits_mask_is_mod(shifted, width as nat);
    }
}

/// As arithmetic, writing a field takes the old field out of the raw value
/// and puts the new one, modulo `2^width`, in its place.
pub proof fn lemma_insert_is_arith16(raw: u16, lo: u32, hi: u32, value: u16)
    requires
        lo <= hi < 16,
    ensures
        insert16(raw, (lo, hi), value) as int == raw - extract16(raw, (lo, hi)) * pow2(
            lo as nat,
        ) + (value as nat % pow2((hi - lo + 1) as nat)) * pow2(lo as nat),
{
    let width: u32 = (hi - lo + 1) as u32;
    let before: u16 = extract16(raw, (lo, hi));
    let after: u16 = value & field_max16((lo, hi));
    let shift: u16 = lo as u16;
    assert(insert16(raw, (lo, hi), value) == raw - (before << shift) + (after << shift)
        && before <= (0xFFFFu16 >> shift) && after <= (0xFFFFu16 >> shift)) by (bit_vector)
        requires
            lo <= hi < 16,
            before == extract16(raw, (lo, hi)),
            after == value & field_max16((lo, hi)),
            shift == lo,
    ;
    lemma_u16_mul_pow2_le_max_iff_max_shr(before, shift, 0xFFFF);
    lemma_u16_mul_pow2_le_max_iff_max_shr(after, shift, 0xFFFF);
    lemma_u16_shl_is_mul(before, shift);
    lemma_u16_shl_is_mul(after, shift);
    lemma2_to64();
    if width == 16 {
        assert(value & field_max16((lo, hi)) == value) by (bit_vector)
            requires
                lo == 0,
                hi == 15,
        ;
        let modulus = pow2(width as nat);
        assert(value as nat % modulus == value as nat) by (nonlinear_arith)
            requires
                modulus == 0x10000,
                value < 0x10000,
        ;
    } else {
        lemma_u32_pow2_no_overflow(width as nat);
        lemma_u32_shl_is_mul(1, width);
        lemma_u16_pow2_no_overflow(width as nat);
        assert(field_max16((lo, hi)) == low_bits_mask(width as nat) as u16);
        lemma_u16_low_bits_mask_is_mod(value, width as nat);
    }
}

/// A field of two bits or more holds every value up to 3, and a field of
/// three bits or more every value up to 7.
pub proof fn lemma_small_values_fit16(value: u16, lo: u32, hi: u32)
    by (bit_vector)
    requires
        lo <= hi < 16,
    ensures
        lo < hi && value <= 3 ==> fits16(value, (lo, hi)),
        lo + 1 < hi && value <= 7 ==> fits16(value, (lo, hi)),
{
}

/// A field of two bits reads as one of 0, 1, 2 and 3.
pub proof fn lemma_two_bit_field16(raw: u16, lo: u32)
    by (bit_vector)
    requires
        lo < 15,
    ensures
        extract16(raw, (lo, (lo + 1) as u32)) <= 3,
{
}

/// Reading a field after writing it gives back the value written, cut to the
/// field's width; a value that fits comes back unchanged, whatever `raw` held.
pub proof fn lemma_get_after_set16(raw: u16, lo: u32, hi: u32, value: u16)
    by (bit_vector)
    requires
        lo <= hi < 16,
    ensures
        extract16(insert16(raw, (lo, hi), value), (lo, hi)) == value & field_max16((lo, hi)),
        fits16(value, (lo, hi)) ==> extract16(insert16(raw, (lo, hi), value), (lo, hi)) == value,
{
}

/// Writing one field leaves every field on a disjoint range as it was.
pub proof fn lemma_set_keeps_others16(
    raw: u16,
    lo: u32,
    hi: u32,
    value: u16,
    lo2: u32,
    hi2: u32,
)
    by (bit_vector)
    requires
        lo <= hi < 16,
        lo2 <= hi2 < 16,
        disjoint((lo, hi), (lo2, hi2)),
    ensures
        extract16(insert16(raw, (lo, hi), value), (lo2, hi2)) == extract16(raw, (lo2, hi2)),
{
}

/// Two ranges are disjoint exactly when their masks share no bit.
pub proof fn lemma_disjoint_masks16(lo: u32, hi: u32, lo2: u32, hi2: u32)
    by (bit_vector)
    requires
        lo <= hi < 16,
        lo2 <= hi2 < 16,
    ensures
        disjoint((lo, hi), (lo2, hi2)) <==> mask16((lo, hi)) & mask16((lo2, hi2)) == 0,
{
}

/// Writing a field twice is the same as writing the second value alone, and
/// writing back what a field holds changes nothing.
pub proof fn lemma_set_overwrites16(raw: u16, lo: u32, hi: u32, first: u16, second: u16)
    by (bit_vector)
    requires
        lo <= hi < 16,
    ensures
        insert16(insert16(raw, (lo, hi), first), (lo, hi), second) == insert16(
            raw,
            (lo, hi),
            second,
        ),
        insert16(raw, (lo, hi), extract16(raw, (lo, hi))) == raw,
{
}

/// Writes to disjoint fields commute.
pub proof fn lemma_sets_commute16(
    raw: u16,
    lo: u32,
    hi: u32,
    value: u16,
    lo2: u32,
    hi2: u32,
    value2: u16,
)
    by (bit_vector)
    requires
        lo <= hi < 16,
        lo2 <= hi2 < 16,
        disjoint((lo, hi), (lo2, hi2)),
    ensures
        insert16(insert16(raw, (lo, hi), value), (lo2, hi2), value2)
            == insert16(insert16(raw, (lo2, hi2), value2), (lo, hi), value),
{
}

/// A flag is the field of width one at its bit, `true` standing for 1.
pub proof fn lemma_flag_is_field16(raw: u16, bit: u32, on: bool)
    by (bit_vector)
    requires
        bit < 16,
    ensures
        flag_mask16(bit) == mask16((bit, bit)),
        flag16(raw, bit) == (extract16(raw, (bit, bit)) == 1),
        flag16(raw, bit) == bit16(raw, bit),
        with_flag16(raw, bit, on) == insert16(raw, (bit, bit), if on { 1u16 } else { 0u16 }),
{
}

/// A flag reads as it was last set.
pub proof fn lemma_flag_get_after_set16(raw: u16, bit: u32, on: bool)
    by (bit_vector)
    requires
        bit < 16,
    ensures
        flag16(with_flag16(raw, bit, on), bit) == on,
{
}

/// Setting a flag twice is setting it once; the last of two settings wins;
/// setting a flag to what it is changes nothing. So setting a clear flag and
/// clearing it again restores the value exactly.
pub proof fn lemma_flag_set_idempotent16(raw: u16, bit: u32, first: bool, second: bool)
    by (bit_vector)
    requires
        bit < 16,
    ensures
        with_flag16(with_flag16(raw, bit, first), bit, first) == with_flag16(raw, bit, first),
        with_flag16(with_flag16(raw, bit, first), bit, second) == with_flag16(raw, bit, second),
        with_flag16(raw, bit, flag16(raw, bit)) == raw,
        !flag16(raw, bit) ==> with_flag16(with_flag16(raw, bit, true), bit, false) == raw,
{
}

/// Setting a flag changes no other bit: every other flag, and every field
/// that does not hold the flag's bit, reads as before.
pub proof fn lemma_flag_set_keeps_others16(
    raw: u16,
    bit: u32,
    on: bool,
    other: u32,
    lo: u32,
    hi: u32,
)
    by (bit_vector)
    requires
        bit < 16,
        other < 16,
        lo <= hi < 16,
    ensures
        other != bit ==> bit16(with_flag16(raw, bit, on), other) == bit16(raw, other),
        other != bit ==> flag16(with_flag16(raw, bit, on), other) == flag16(raw, other),
        bit < lo || hi < bit ==> extract16(with_flag16(raw, bit, on), (lo, hi)) == extract16(
            raw,
            (lo, hi),
        ),
{
}

/// Writing a field changes no flag outside it.
pub proof fn lemma_set_keeps_flags16(raw: u16, lo: u32, hi: u32, value: u16, bit: u32)
    by (bit_vector)
    requires
        lo <= hi < 16,
        bit < 16,
        bit < lo || hi < bit,
    ensures
        flag16(insert16(raw, (lo, hi), value), bit) == flag16(raw, bit),
{
}

// Registers of eight bits.

/// Whether bit `i` of `raw` is set.
pub open spec fn bit8(raw: u8, i: u32) -> bool {
    (raw >> i) & 1 == 1
}

/// Whether `field` is a range inside a register of eight bits.
pub open spec fn inside8(field: Field) -> bool {
    field.0 <= field.1 < 8
}

/// The largest value that fits in `field`: `(1 << width) - 1`.
pub open spec fn field_max8(field: Field) -> u8 {
    ((1u32 << ((field.1 - field.0 + 1) as u32)) - 1) as u8
}

/// Whether `value` is representable in the width of `field`.
pub open spec fn fits8(value: u8, field: Field) -> bool {
    value <= field_max8(field)
}

/// The mask that selects `field`: `(1 << width) - 1`, shifted to the low bit.
pub open spec fn mask8(field: Field) -> u8 {
    field_max8(field) << field.0
}

/// The value of `field` in `raw`, right-justified.
pub open spec fn extract8(raw: u8, field: Field) -> u8 {
    (raw & mask8(field)) >> field.0
}

/// `raw` with `field` replaced by the low bits of `value`.
pub open spec fn insert8(raw: u8, field: Field, value: u8) -> u8 {
    (raw & !mask8(field)) | ((value << field.0) & mask8(field))
}

/// The mask of the single bit `bit`.
pub open spec fn flag_mask8(bit: u32) -> u8 {
    1u8 << bit
}

/// Whether the flag at `bit` is set in `raw`.
pub open spec fn flag8(raw: u8, bit: u32) -> bool {
    raw & flag_mask8(bit) != 0
}

/// `raw` with the flag at `bit` set or cleared.
pub open spec fn with_flag8(raw: u8, bit: u32, on: bool) -> u8 {
    if on {
        raw | flag_mask8(bit)
    } else {
        raw & !flag_mask8(bit)
    }
}

/// Computes the mask of `field`.
pub fn field_mask8(field: Field) -> (mask: u8)
    requires
        inside8(field),
    ensures
        mask == mask8(field),
{
    let width: u32 = field.1 - field.0 + 1;
    assert((1u32 << width) >= 1) by (bit_vector)
        requires
            width <= 8,
    ;
    let ones: u8 = ((1u32 << width) - 1) as u8;
    ones << field.0
}

/// Reads `field` of `raw`: the bits of the range, right-justified. The result
/// fits the field's width.
pub fn get_bits8(raw: u8, field: Field) -> (value: u8)
    requires
        inside8(field),
    ensures
        value == extract8(raw, field),
        fits8(value, field),
{
    proof {
        lemma_extract_fits8(raw, field.0, field.1);
    }
    (raw & field_mask8(field)) >> field.0
}

/// Writes `value` into `field` of `raw`. Bits of `value` above the field's
/// width are dropped; every bit of `raw` outside the field is kept.
pub fn with_bits8(raw: u8, field: Field, value: u8) -> (out: u8)
    requires
        inside8(field),
    ensures
        out == insert8(raw, field, value),
        fits8(value, field) ==> extract8(out, field) == value,
{
    proof {
        lemma_get_after_set8(raw, field.0, field.1, value);
    }
    let mask: u8 = field_mask8(field);
    (raw & !mask) | ((value << field.0) & mask)
}

/// Reads the flag at `bit`.
pub fn get_flag8(raw: u8, bit: u32) -> (on: bool)
    requires
        bit < 8,
    ensures
        on == flag8(raw, bit),
{
    (raw & (1u8 << bit)) != 0
}

/// Sets or clears the flag at `bit`, and nothing else.
pub fn set_flag8(raw: u8, bit: u32, on: bool) -> (out: u8)
    requires
        bit < 8,
    ensures
        out == with_flag8(raw, bit, on),
        flag8(out, bit) == on,
{
    proof {
        lemma_flag_get_after_set8(raw, bit, on);
    }
    let mask: u8 = 1u8 << bit;
    if on {
        raw | mask
    } else {
        raw & !mask
    }
}

/// Bit by bit, reading a field: bit `i` of the result is bit `lo + i` of `raw`
/// while that lies in the range, and clear above it.
pub proof fn lemma_extract_bits8(raw: u8, lo: u32, hi: u32, i: u32)
    by (bit_vector)
    requires
        lo <= hi < 8,
        i < 8,
    ensures
        bit8(extract8(raw, (lo, hi)), i) == (i <= hi - lo && bit8(raw, (lo + i) as u32)),
{
}

/// Bit by bit, writing a field: inside the range the result holds the bits of
/// `value`, outside it the bits of `raw`.
pub proof fn lemma_insert_bits8(raw: u8, lo: u32, hi: u32, value: u8, i: u32)
    by (bit_vector)
    requires
        lo <= hi < 8,
        i < 8,
    ensures
        bit8(insert8(raw, (lo, hi), value), i) == (if lo <= i && i <= hi {
            bit8(value, (i - lo) as u32)
        } else {
            bit8(raw, i)
        }),
{
}

/// Two raw values with the same eight bits are equal.
pub proof fn lemma_bits_determine8(a: u8, b: u8)
    requires
        forall|i: u32| i < 8 ==> #[trigger] bit8(a, i) == bit8(b, i),
    ensures
        a == b,
{
    assert(a == b) by (bit_vector)
        requires
            bit8(a, 0) == bit8(b, 0),
            bit8(a, 1) == bit8(b, 1),
            bit8(a, 2) == bit8(b, 2),
            bit8(a, 3) == bit8(b, 3),
            bit8(a, 4) == bit8(b, 4),
            bit8(a, 5) == bit8(b, 5),
            bit8(a, 6) == bit8(b, 6),
            bit8(a, 7) == bit8(b, 7),
    ;
}

/// A field never reads as more than its width can hold.
pub proof fn lemma_extract_fits8(raw: u8, lo: u32, hi: u32)
    by (bit_vector)
    requires
        lo <= hi < 8,
    ensures
        fits8(extract8(raw, (lo, hi)), (lo, hi)),
{
}

/// As arithmetic, a field is the quotient of the raw value by `2^lo`, taken
/// modulo `2^width`.
pub proof fn lemma_extract_is_div_mod8(raw: u8, lo: u32, hi: u32)
    requires
        lo <= hi < 8,
    ensures
        extract8(raw, (lo, hi)) as nat == (raw as nat / pow2(lo as nat)) % pow2(
            (hi - lo + 1) as nat,
        ),
{
    let width: u32 = (hi - lo + 1) as u32;
    let shifted: u8 = raw >> lo;
    assert(extract8(raw, (lo, hi)) == shifted & field_max8((lo, hi))) by (bit_vector)
        requires
            lo <= hi < 8,
            shifted == raw >> lo,
    ;
    lemma_u8_shr_is_div(raw, lo as u8);
    assert(shifted as nat == raw as nat / pow2(lo as nat));
    lemma2_to64();
    if width == 8 {
        assert(shifted & field_max8((lo, hi)) == shifted) by (bit_vector)
            requires
                lo == 0,
                hi == 7,
        ;
        let divisor = pow2(lo as nat);
        let modulus = pow2(width as nat);
        assert(divisor == 1 && modulus == 0x100);
        assert(raw as nat / divisor == raw as nat) by (nonlinear_arith)
            requires
                divisor == 1,
        ;
        assert(raw as nat % modulus == raw as nat) by (nonlinear_arith)
            requires
                modulus == 0x100,
                raw < 0x100,
        ;
    } else {
        lemma_u32_pow2_no_overflow(width as nat);
        lemma_u32_shl_is_mul(1, width);
        lemma_u8_pow2_no_overflow(width as nat);
        assert(field_max8((lo, hi)) == low_bits_mask(width as nat) as u8);
        lemma_u8_low_bits_mask_is_mod(shifted, width as nat);
    }
}

/// As arithmetic, writing a field takes the old field out of the raw value
/// and puts the new one, modulo `2^width`, in its place.
pub proof fn lemma_insert_is_arith8(raw: u8, lo: u32, hi: u32, value: u8)
    requires
        lo <= hi < 8,
    ensures
        insert8(raw, (lo, hi), value) as int == raw - extract8(raw, (lo, hi)) * pow2(
            lo as nat,
        ) + (value as nat % pow2((hi - lo + 1) as nat)) * pow2(lo as nat),
{
    let width: u32 = (hi - lo + 1) as u32;
    let before: u8 = extract8(raw, (lo, hi));
    let after: u8 = value & field_max8((lo, hi));
    let shift: u8 = lo as u8;
    assert(insert8(raw, (lo, hi), value) == raw - (before << shift) + (after << shift)
        && before <= (0xFFu8 >> shift) && after <= (0xFFu8 >> shift)) by (bit_vector)
        requires
            lo <= hi < 8,
            before == extract8(raw, (lo, hi)),
            after == value & field_max8((lo, hi)),
            shift == lo,
    ;
    lemma_u8_mul_pow2_le_max_iff_max_shr(before, shift, 0xFF);
    lemma_u8_mul_pow2_le_max_iff_max_shr(after, shift, 0xFF);
    lemma_u8_shl_is_mul(before, shift);
    lemma_u8_shl_is_mul(after, shift);
    lemma2_to64();
    if width == 8 {
        assert(value & field_max8((lo, hi)) == value) by (bit_vector)
            requires
                lo == 0,
                hi == 7,
        ;
        let modulus = pow2(width as nat);
        assert(value as nat % modulus == value as nat) by (nonlinear_arith)
            requires
                modulus == 0x100,
                value < 0x100,
        ;
    } else {
        lemma_u32_pow2_no_overflow(width as nat);
        lemma_u32_shl_is_mul(1, width);
        lemma_u8_pow2_no_overflow(width as nat);
        assert(field_max8((lo, hi)) == low_bits_mask(width as nat) as u8);
        lemma_u8_low_bits_mask_is_mod(value, width as nat);
    }
}

/// A field of two bits or more holds every value up to 3, and a field of
/// three bits or more every value up to 7.
pub proof fn lemma_small_values_fit8(value: u8, lo: u32, hi: u32)
    by (bit_vector)
    requires
        lo <= hi < 8,
    ensures
        lo < hi && value <= 3 ==> fits8(value, (lo, hi)),
        lo + 1 < hi && value <= 7 ==> fits8(value, (lo, hi)),
{
}

/// A field of two bits reads as one of 0, 1, 2 and 3.
pub proof fn lemma_two_bit_field8(raw: u8, lo: u32)
    by (bit_vector)
    requires
        lo < 7,
    ensures
        extract8(raw, (lo, (lo + 1) as u32)) <= 3,
{
}

/// Reading a field after writing it gives back the value written, cut to the
/// field's width; a value that fits comes back unchanged, whatever `raw` held.
pub proof fn lemma_get_after_set8(raw: u8, lo: u32, hi: u32, value: u8)
    by (bit_vector)
    requires
        lo <= hi < 8,
    ensures
        extract8(insert8(raw, (lo, hi), value), (lo, hi)) == value & field_max8((lo, hi)),
        fits8(value, (lo, hi)) ==> extract8(insert8(raw, (lo, hi), value), (lo, hi)) == value,
{
}

/// Writing one field leaves every field on a disjoint range as it was.
pub proof fn lemma_set_keeps_others8(
    raw: u8,
    lo: u32,
    hi: u32,
    value: u8,
    lo2: u32,
    hi2: u32,
)
    by (bit_vector)
    requires
        lo <= hi < 8,
        lo2 <= hi2 < 8,
        disjoint((lo, hi), (lo2, hi2)),
    ensures
        extract8(insert8(raw, (lo, hi), value), (lo2, hi2)) == extract8(raw, (lo2, hi2)),
{
}

/// Two ranges are disjoint exactly when their masks share no bit.
pub proof fn lemma_disjoint_masks8(lo: u32, hi: u32, lo2: u32, hi2: u32)
    by (bit_vector)
    requires
        lo <= hi < 8,
        lo2 <= hi2 < 8,
    ensures
        disjoint((lo, hi), (lo2, hi2)) <==> mask8((lo, hi)) & mask8((lo2, hi2)) == 0,
{
}

/// Writing a field twice is the same as writing the second value alone, and
/// writing back what a field holds changes nothing.
pub proof fn lemma_set_overwrites8(raw: u8, lo: u32, hi: u32, first: u8, second: u8)
    by (bit_vector)
    requires
        lo <= hi < 8,
    ensures
        insert8(insert8(raw, (lo, hi), first), (lo, hi), second) == insert8(
            raw,
            (lo, hi),
            second,
        ),
        insert8(raw, (lo, hi), extract8(raw, (lo, hi))) == raw,
{
}

/// Writes to disjoint fields commute.
pub proof fn lemma_sets_commute8(
    raw: u8,
    lo: u32,
    hi: u32,
    value: u8,
    lo2: u32,
    hi2: u32,
    value2: u8,
)
    by (bit_vector)
    requires
        lo <= hi < 8,
        lo2 <= hi2 < 8,
        disjoint((lo, hi), (lo2, hi2)),
    ensures
        insert8(insert8(raw, (lo, hi), value), (lo2, hi2), value2)
            == insert8(insert8(raw, (lo2, hi2), value2), (lo, hi), value),
{
}

/// A flag is the field of width one at its bit, `true` standing for 1.
pub proof fn lemma_flag_is_field8(raw: u8, bit: u32, on: bool)
    by (bit_vector)
    requires
        bit < 8,
    ensures
        flag_mask8(bit) == mask8((bit, bit)),
        flag8(raw, bit) == (extract8(raw, (bit, bit)) == 1),
        flag8(raw, bit) == bit8(raw, bit),
        with_flag8(raw, bit, on) == insert8(raw, (bit, bit), if on { 1u8 } else { 0u8 }),
{
}

/// A flag reads as it was last set.
pub proof fn lemma_flag_get_after_set8(raw: u8, bit: u32, on: bool)
    by (bit_vector)
    requires
        bit < 8,
    ensures
        flag8(with_flag8(raw, bit, on), bit) == on,
{
}

/// Setting a flag twice is setting it once; the last of two settings wins;
/// setting a flag to what it is changes nothing. So setting a clear flag and
/// clearing it again restores the value exactly.
pub proof fn lemma_flag_set_idempotent8(raw: u8, bit: u32, first: bool, second: bool)
    by (bit_vector)
    requires
        bit < 8,
    ensures
        with_flag8(with_flag8(raw, bit, first), bit, first) == with_flag8(raw, bit, first),
        with_flag8(with_flag8(raw, bit, first), bit, second) == with_flag8(raw, bit, second),
        with_flag8(raw, bit, flag8(raw, bit)) == raw,
        !flag8(raw, bit) ==> with_flag8(with_flag8(raw, bit, true), bit, false) == raw,
{
}

/// Setting a flag changes no other bit: every other flag, and every field
/// that does not hold the flag's bit, reads as before.
pub proof fn lemma_flag_set_keeps_others8(
    raw: u8,
    bit: u32,
    on: bool,
    other: u32,
    lo: u32,
    hi: u32,
)
    by (bit_vector)
    requires
        bit < 8,
        other < 8,
        lo <= hi < 8,
    ensures
        other != bit ==> bit8(with_flag8(raw, bit, on), other) == bit8(raw, other),
        other != bit ==> flag8(with_flag8(raw, bit, on), other) == flag8(raw, other),
        bit < lo || hi < bit ==> extract8(with_flag8(raw, bit, on), (lo, hi)) == extract8(
            raw,
            (lo, hi),
        ),
{
}

/// Writing a field changes no flag outside it.
pub proof fn lemma_set_keeps_flags8(raw: u8, lo: u32, hi: u32, value: u8, bit: u32)
    by (bit_vector)
    requires
        lo <= hi < 8,
        bit < 8,
        bit < lo || hi < bit,
    ensures
        flag8(insert8(raw, (lo, hi), value), bit) == flag8(raw, bit),
{
}

// Layouts.

/// Whether `layout`, the fields of a register, is sound for a register of
/// `width` bits: every field is a range inside the register, and no two fields
/// share a bit.
pub open spec fn layout_ok(layout: Seq<Field>, width: u32) -> bool {
    &&& forall|i: int|
        0 <= i < layout.len() ==> (#[trigger] layout[i]).0 <= layout[i].1 && layout[i].1 < width
    &&& forall|i: int, j: int|
        0 <= i < layout.len() && 0 <= j < layout.len() && i != j ==> disjoint(
            #[trigger] layout[i],
            #[trigger] layout[j],
        )
}

/// In a sound layout, writing any field reads back what was written and
/// leaves every other field of the layout as it was.
pub proof fn lemma_layout_independent16(layout: Seq<Field>, i: int, j: int, raw: u16, value: u16)
    requires
        layout_ok(layout, 16),
        0 <= i < layout.len(),
        0 <= j < layout.len(),
        fits16(value, layout[i]),
    ensures
        extract16(insert16(raw, layout[i], value), layout[j]) == (if i == j {
            value
        } else {
            extract16(raw, layout[j])
        }),
{
    let (lo, hi) = layout[i];
    let (lo2, hi2) = layout[j];
    if i == j {
        lemma_get_after_set16(raw, lo, hi, value);
    } else {
        lemma_set_keeps_others16(raw, lo, hi, value, lo2, hi2);
    }
}

/// The same for a register of eight bits.
pub proof fn lemma_layout_independent8(layout: Seq<Field>, i: int, j: int, raw: u8, value: u8)
    requires
        layout_ok(layout, 8),
        0 <= i < layout.len(),
        0 <= j < layout.len(),
        fits8(value, layout[i]),
    ensures
        extract8(insert8(raw, layout[i], value), layout[j]) == (if i == j {
            value
        } else {
            extract8(raw, layout[j])
        }),
{
    let (lo, hi) = layout[i];
    let (lo2, hi2) = layout[j];
    if i == j {
        lemma_get_after_set8(raw, lo, hi, value);
    } else {
        lemma_set_keeps_others8(raw, lo, hi, value, lo2, hi2);
    }
}

} // verus!
