//! Address arithmetic: how the bytes that follow an opcode become the
//! address an instruction works on. Every computation wraps modulo 65536.

use vstd::prelude::*;

verus! {

/// The rule by which an instruction finds its operand.
#[derive(Clone, Copy, Debug, PartialEq, Eq, Structural)]
pub enum AddressingMode {
    /// The operand is the byte that follows the opcode.
    Immediate,
    /// The byte that follows the opcode is an address in page zero.
    ZeroPage,
    /// The two bytes that follow the opcode are an address, low byte first.
    Absolute,
    /// The byte that follows the opcode is a signed displacement from the
    /// address of the next instruction.
    Relative,
}

impl AddressingMode {
    /// The number of operand bytes that follow the opcode.
    pub open spec fn spec_operand_len(self) -> u16 {
        match self {
            AddressingMode::Absolute => 2,
            _ => 1,
        }
    }

    #[verifier::when_used_as_spec(spec_operand_len)]
    pub fn operand_len(self) -> (len: u16)
        ensures
            len == self.spec_operand_len(),
    {
        match self {
            AddressingMode::Absolute => 2,
            _ => 1,
        }
    }
}

/// An integer brought into the address space, modulo 65536.
pub open spec fn wrap_address(value: int) -> u16 {
    (value % 0x1_0000) as u16
}

/// A displacement byte read as a two's complement number, from -128 to 127.
pub open spec fn sign_extend(displacement: u8) -> int {
    if displacement >= 0x80 {
        displacement - 0x100
    } else {
        displacement as int
    }
}

/// Where a branch lands: the displacement is counted from the address after
/// the displacement byte, which itself lies at `operand_address`.
pub open spec fn relative_target(operand_address: u16, displacement: u8) -> u16 {
    wrap_address(operand_address + 1 + sign_extend(displacement))
}

/// The 16-bit word made of a low and a high byte.
pub open spec fn word(low: u8, high: u8) -> u16 {
    (low + 0x100 * high) as u16
}

/// Computes `relative_target`.
pub fn branch_target(operand_address: u16, displacement: u8) -> (target: u16)
    ensures
        target == relative_target(operand_address, displacement),
{
    let next: u16 = operand_address.wrapping_add(1);
    let offset: u16 = displacement as i8 as u16;
    assert(offset == if displacement >= 0x80 {
        0xFF00 + displacement
    } else {
        displacement as int
    }) by (bit_vector)
        requires
            offset == displacement as i8 as u16,
    ;
    next.wrapping_add(offset)
}

/// Computes `word`.
pub fn make_word(low: u8, high: u8) -> (address: u16)
    ensures
        address == word(low, high),
{
    let address: u16 = (low as u16) | ((high as u16) << 8);
    assert((low as u16) | ((high as u16) << 8) == low + 0x100 * high) by (bit_vector);
    address
}

/// A displacement of zero lands on the next instruction.
pub proof fn lemma_zero_displacement(operand_address: u16)
    ensures
        relative_target(operand_address, 0) == wrap_address(operand_address + 1),
{
}

} // verus!
