//! The instruction set: which operation, addressing mode and base cycle
//! count each opcode byte stands for.

use crate::addressing::AddressingMode;
use vstd::prelude::*;

verus! {

/// What an instruction does, together with the addressing mode of those
/// operations that take an operand from memory. Branches are always
/// relative; the remaining operations work on registers and flags alone.
#[derive(Clone, Copy, Debug, PartialEq, Eq, Structural)]
pub enum Operation {
    /// Add the operand and the Carry flag to the accumulator.
    Adc(AddressingMode),
    /// AND the operand into the accumulator.
    And(AddressingMode),
    /// Shift the operand left by one bit, in memory.
    Asl(AddressingMode),
    /// Shift the accumulator left by one bit.
    AslAccumulator,
    /// Branch if Carry is clear.
    Bcc,
    /// Branch if Carry is set.
    Bcs,
    /// Branch if Zero is set.
    Beq,
    /// Test the operand's bits against the accumulator.
    Bit(AddressingMode),
    /// Branch if Negative is set.
    Bmi,
    /// Branch if Zero is clear.
    Bne,
    /// Branch if Negative is clear.
    Bpl,
    /// Branch if Overflow is clear.
    Bvc,
    /// Branch if Overflow is set.
    Bvs,
    /// Clear Carry.
    Clc,
    /// Clear Decimal.
    Cld,
    /// Clear InterruptDisable.
    Cli,
    /// Clear Overflow.
    Clv,
    /// Compare the operand with the accumulator.
    Cmp(AddressingMode),
    /// Load the operand into the accumulator.
    Lda(AddressingMode),
    /// Set Carry.
    Sec,
}

/// A decoded opcode.
#[derive(Clone, Copy, Debug, PartialEq, Eq, Structural)]
pub struct Instruction {
    pub operation: Operation,
    /// The base cost of the instruction, in cycles.
    pub cycles: u8,
}

/// Why an instruction could not be executed.
#[derive(Clone, Copy, Debug, PartialEq, Eq, Structural)]
pub enum ExecutionError {
    /// The byte fetched as an opcode stands for no instruction.
    InvalidOpcode(u8),
}

/// The instruction that an opcode byte stands for, if any.
pub open spec fn spec_decode(opcode: u8) -> Option<Instruction> {
    match opcode {
        0x69u8 => Some(Instruction { operation: Operation::Adc(AddressingMode::Immediate), cycles: 2 }),
        0x65u8 => Some(Instruction { operation: Operation::Adc(AddressingMode::ZeroPage), cycles: 3 }),
        0x6Du8 => Some(Instruction { operation: Operation::Adc(AddressingMode::Absolute), cycles: 4 }),
        0x29u8 => Some(Instruction { operation: Operation::And(AddressingMode::Immediate), cycles: 2 }),
        0x25u8 => Some(Instruction { operation: Operation::And(AddressingMode::ZeroPage), cycles: 3 }),
        0x2Du8 => Some(Instruction { operation: Operation::And(AddressingMode::Absolute), cycles: 4 }),
        0x0Au8 => Some(Instruction { operation: Operation::AslAccumulator, cycles: 2 }),
        0x06u8 => Some(Instruction { operation: Operation::Asl(AddressingMode::ZeroPage), cycles: 5 }),
        0x0Eu8 => Some(Instruction { operation: Operation::Asl(AddressingMode::Absolute), cycles: 6 }),
        0x90u8 => Some(Instruction { operation: Operation::Bcc, cycles: 2 }),
        0xB0u8 => Some(Instruction { operation: Operation::Bcs, cycles: 2 }),
        0xF0u8 => Some(Instruction { operation: Operation::Beq, cycles: 2 }),
        0x24u8 => Some(Instruction { operation: Operation::Bit(AddressingMode::ZeroPage), cycles: 3 }),
        0x2Cu8 => Some(Instruction { operation: Operation::Bit(AddressingMode::Absolute), cycles: 4 }),
        0x30u8 => Some(Instruction { operation: Operation::Bmi, cycles: 2 }),
        0xD0u8 => Some(Instruction { operation: Operation::Bne, cycles: 2 }),
        0x10u8 => Some(Instruction { operation: Operation::Bpl, cycles: 2 }),
        0x50u8 => Some(Instruction { operation: Operation::Bvc, cycles: 2 }),
        0x70u8 => Some(Instruction { operation: Operation::Bvs, cycles: 2 }),
        0x18u8 => Some(Instruction { operation: Operation::Clc, cycles: 2 }),
        0xD8u8 => Some(Instruction { operation: Operation::Cld, cycles: 2 }),
        0x58u8 => Some(Instruction { operation: Operation::Cli, cycles: 2 }),
        0xB8u8 => Some(Instruction { operation: Operation::Clv, cycles: 2 }),
        0xC9u8 => Some(Instruction { operation: Operation::Cmp(AddressingMode::Immediate), cycles: 2 }),
        0xC5u8 => Some(Instruction { operation: Operation::Cmp(AddressingMode::ZeroPage), cycles: 3 }),
        0xCDu8 => Some(Instruction { operation: Operation::Cmp(AddressingMode::Absolute), cycles: 4 }),
        0xA9u8 => Some(Instruction { operation: Operation::Lda(AddressingMode::Immediate), cycles: 2 }),
        0xA5u8 => Some(Instruction { operation: Operation::Lda(AddressingMode::ZeroPage), cycles: 3 }),
        0xADu8 => Some(Instruction { operation: Operation::Lda(AddressingMode::Absolute), cycles: 4 }),
        0x38u8 => Some(Instruction { operation: Operation::Sec, cycles: 2 }),
        _ => None,
    }
}

/// Looks an opcode byte up in the instruction set.
pub fn decode(opcode: u8) -> (instruction: Option<Instruction>)
    ensures
        instruction == spec_decode(opcode),
{
    match opcode {
        0x69 => Some(Instruction { operation: Operation::Adc(AddressingMode::Immediate), cycles: 2 }),
        0x65 => Some(Instruction { operation: Operation::Adc(AddressingMode::ZeroPage), cycles: 3 }),
        0x6D => Some(Instruction { operation: Operation::Adc(AddressingMode::Absolute), cycles: 4 }),
        0x29 => Some(Instruction { operation: Operation::And(AddressingMode::Immediate), cycles: 2 }),
        0x25 => Some(Instruction { operation: Operation::And(AddressingMode::ZeroPage), cycles: 3 }),
        0x2D => Some(Instruction { operation: Operation::And(AddressingMode::Absolute), cycles: 4 }),
        0x0A => Some(Instruction { operation: Operation::AslAccumulator, cycles: 2 }),
        0x06 => Some(Instruction { operation: Operation::Asl(AddressingMode::ZeroPage), cycles: 5 }),
        0x0E => Some(Instruction { operation: Operation::Asl(AddressingMode::Absolute), cycles: 6 }),
        0x90 => Some(Instruction { operation: Operation::Bcc, cycles: 2 }),
        0xB0 => Some(Instruction { operation: Operation::Bcs, cycles: 2 }),
        0xF0 => Some(Instruction { operation: Operation::Beq, cycles: 2 }),
        0x24 => Some(Instruction { operation: Operation::Bit(AddressingMode::ZeroPage), cycles: 3 }),
        0x2C => Some(Instruction { operation: Operation::Bit(AddressingMode::Absolute), cycles: 4 }),
        0x30 => Some(Instruction { operation: Operation::Bmi, cycles: 2 }),
        0xD0 => Some(Instruction { operation: Operation::Bne, cycles: 2 }),
        0x10 => Some(Instruction { operation: Operation::Bpl, cycles: 2 }),
        0x50 => Some(Instruction { operation: Operation::Bvc, cycles: 2 }),
        0x70 => Some(Instruction { operation: Operation::Bvs, cycles: 2 }),
        0x18 => Some(Instruction { operation: Operation::Clc, cycles: 2 }),
        0xD8 => Some(Instruction { operation: Operation::Cld, cycles: 2 }),
        0x58 => Some(Instruction { operation: Operation::Cli, cycles: 2 }),
        0xB8 => Some(Instruction { operation: Operation::Clv, cycles: 2 }),
        0xC9 => Some(Instruction { operation: Operation::Cmp(AddressingMode::Immediate), cycles: 2 }),
        0xC5 => Some(Instruction { operation: Operation::Cmp(AddressingMode::ZeroPage), cycles: 3 }),
        0xCD => Some(Instruction { operation: Operation::Cmp(AddressingMode::Absolute), cycles: 4 }),
        0xA9 => Some(Instruction { operation: Operation::Lda(AddressingMode::Immediate), cycles: 2 }),
        0xA5 => Some(Instruction { operation: Operation::Lda(AddressingMode::ZeroPage), cycles: 3 }),
        0xAD => Some(Instruction { operation: Operation::Lda(AddressingMode::Absolute), cycles: 4 }),
        0x38 => Some(Instruction { operation: Operation::Sec, cycles: 2 }),
        _ => None,
    }
}

/// No two opcodes stand for the same operation.
pub proof fn lemma_decode_injective(first: u8, second: u8)
    requires
        spec_decode(first) matches Some(a) && spec_decode(second) matches Some(b) && a.operation
            == b.operation,
    ensures
        first == second,
{
}

} // verus!
