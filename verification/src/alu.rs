//! What each arithmetic and logic operation computes: its result byte and the
//! status register it leaves behind, as functions of the operands alone.

use crate::status::Status;
use vstd::prelude::*;

verus! {

/// Whether bit 7 of a byte, its sign bit, is 1.
pub open spec fn sign_bit(value: u8) -> bool {
    value & 0x80 != 0
}

/// What the Carry flag adds to a sum.
pub open spec fn carry_value(carry: bool) -> int {
    if carry {
        1
    } else {
        0
    }
}

/// The unbounded sum that add-with-carry forms.
pub open spec fn adc_sum(accumulator: u8, operand: u8, carry: bool) -> int {
    accumulator + operand + carry_value(carry)
}

/// The low eight bits of the sum.
pub open spec fn adc_result(accumulator: u8, operand: u8, carry: bool) -> u8 {
    (adc_sum(accumulator, operand, carry) % 0x100) as u8
}

/// Signed overflow: the result's sign differs from the sign of both inputs.
pub open spec fn adc_overflow(accumulator: u8, operand: u8, result: u8) -> bool {
    (operand ^ result) & (accumulator ^ result) & 0x80 != 0
}

/// The status register after add-with-carry.
pub open spec fn adc_status(status: Status, accumulator: u8, operand: u8) -> Status {
    let result = adc_result(accumulator, operand, status.carry);
    Status {
        carry: adc_sum(accumulator, operand, status.carry) > 0xFF,
        zero: result == 0,
        negative: sign_bit(result),
        overflow: adc_overflow(accumulator, operand, result),
        ..status
    }
}

/// The status register after a logical AND of `operand` into the accumulator.
pub open spec fn and_status(status: Status, accumulator: u8, operand: u8) -> Status {
    Status { zero: accumulator & operand == 0, negative: sign_bit(accumulator & operand), ..status }
}

/// An input shifted left by one bit: bit 7 is lost, bit 0 becomes 0.
pub open spec fn asl_result(operand: u8) -> u8 {
    operand << 1
}

/// The status register after an arithmetic shift left of `operand`.
pub open spec fn asl_status(status: Status, operand: u8) -> Status {
    Status {
        carry: sign_bit(operand),
        zero: asl_result(operand) == 0,
        negative: sign_bit(asl_result(operand)),
        ..status
    }
}

/// The low eight bits of `accumulator - operand`.
pub open spec fn compare_difference(accumulator: u8, operand: u8) -> u8 {
    ((accumulator - operand) % 0x100) as u8
}

/// The status register after comparing the accumulator with `operand`.
pub open spec fn compare_status(status: Status, accumulator: u8, operand: u8) -> Status {
    Status {
        carry: accumulator >= operand,
        zero: accumulator == operand,
        negative: sign_bit(compare_difference(accumulator, operand)),
        ..status
    }
}

/// The status register after a bit test of `operand` against the accumulator.
pub open spec fn bit_status(status: Status, accumulator: u8, operand: u8) -> Status {
    Status {
        zero: accumulator & operand == 0,
        overflow: operand & 0x40 != 0,
        negative: operand & 0x80 != 0,
        ..status
    }
}

/// The status register after loading `operand` into the accumulator.
pub open spec fn lda_status(status: Status, operand: u8) -> Status {
    Status { zero: operand == 0, negative: sign_bit(operand), ..status }
}

/// Add with carry. Returns the low eight bits of
/// `accumulator + operand + carry`, and sets Carry, Zero, Overflow and
/// Negative from the sum.
pub fn add_with_carry(status: &mut Status, accumulator: u8, operand: u8) -> (result: u8)
    ensures
        result == adc_result(accumulator, operand, old(status).carry),
        *final(status) == adc_status(*old(status), accumulator, operand),
{
    let carry_in: u16 = if status.carry { 1 } else { 0 };
    let sum: u16 = accumulator as u16 + operand as u16 + carry_in;
    let result: u8 = (sum & 0xFF) as u8;
    assert(sum & 0xFF == sum % 0x100) by (bit_vector);
    status.carry = sum > 0xFF;
    status.zero = result == 0;
    status.overflow = (operand ^ result) & (accumulator ^ result) & 0x80 != 0;
    status.negative = result & 0x80 != 0;
    result
}

/// Logical AND. Returns `accumulator & operand`, and sets Zero and Negative
/// from it.
pub fn logical_and(status: &mut Status, accumulator: u8, operand: u8) -> (result: u8)
    ensures
        result == accumulator & operand,
        *final(status) == and_status(*old(status), accumulator, operand),
{
    let result: u8 = accumulator & operand;
    status.zero = result == 0;
    status.negative = result & 0x80 != 0;
    result
}

/// Arithmetic shift left. Returns `operand` shifted left by one bit, moves
/// the bit shifted out into Carry, and sets Zero and Negative from the
/// result.
pub fn shift_left(status: &mut Status, operand: u8) -> (result: u8)
    ensures
        result == asl_result(operand),
        *final(status) == asl_status(*old(status), operand),
{
    let result: u8 = operand << 1;
    status.carry = operand & 0x80 != 0;
    status.zero = result == 0;
    status.negative = result & 0x80 != 0;
    result
}

/// Compare. Sets Carry, Zero and Negative as a subtraction of `operand`
/// from `accumulator` would, and stores no difference anywhere.
pub fn compare(status: &mut Status, accumulator: u8, operand: u8)
    ensures
        *final(status) == compare_status(*old(status), accumulator, operand),
{
    let difference: u8 = accumulator.wrapping_sub(operand);
    status.carry = accumulator >= operand;
    status.zero = accumulator == operand;
    status.negative = difference & 0x80 != 0;
}

/// Bit test. Sets Zero from `accumulator & operand`, and copies bits 6 and
/// 7 of `operand` into Overflow and Negative.
pub fn bit_test(status: &mut Status, accumulator: u8, operand: u8)
    ensures
        *final(status) == bit_status(*old(status), accumulator, operand),
{
    status.zero = accumulator & operand == 0;
    status.overflow = operand & 0x40 != 0;
    status.negative = operand & 0x80 != 0;
}

/// Load. Returns `operand`, and sets Zero and Negative from it.
pub fn load(status: &mut Status, operand: u8) -> (result: u8)
    ensures
        result == operand,
        *final(status) == lda_status(*old(status), operand),
{
    status.zero = operand == 0;
    status.negative = operand & 0x80 != 0;
    operand
}

/// A byte has its sign bit set exactly when it is 128 or more.
pub proof fn lemma_sign_bit_is_high_half(value: u8)
    ensures
        sign_bit(value) <==> value >= 128,
{
    assert((value & 0x80 != 0) <==> value >= 128) by (bit_vector);
}

/// Shifting left by one bit doubles the byte, modulo 256.
pub proof fn lemma_asl_doubles(operand: u8)
    ensures
        asl_result(operand) == (2 * operand) % 0x100,
{
    assert(operand << 1 == (2 * operand) % 0x100) by (bit_vector);
}

/// Add-with-carry overflows exactly when both inputs have the same sign and
/// the result has the other one.
pub proof fn lemma_adc_overflow_is_sign_mismatch(accumulator: u8, operand: u8, result: u8)
    ensures
        adc_overflow(accumulator, operand, result) <==> (sign_bit(accumulator) == sign_bit(operand)
            && sign_bit(result) != sign_bit(accumulator)),
{
    assert(((operand ^ result) & (accumulator ^ result) & 0x80 != 0) <==> ((accumulator & 0x80 != 0)
        == (operand & 0x80 != 0) && (result & 0x80 != 0) != (accumulator & 0x80 != 0)))
        by (bit_vector);
}

/// A logical AND with the same operand twice gives what one gives.
pub proof fn lemma_and_idempotent(accumulator: u8, operand: u8)
    ensures
        (accumulator & operand) & operand == accumulator & operand,
{
    assert((accumulator & operand) & operand == accumulator & operand) by (bit_vector);
}

} // verus!
