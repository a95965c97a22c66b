//! The processor status register: eight named condition flags, packed into a
//! single byte only when the register is saved or restored.

use vstd::prelude::*;

verus! {

/// One of the eight condition flags, named from bit 7 down to bit 0.
#[derive(Clone, Copy, Debug, PartialEq, Eq, Structural)]
pub enum Flag {
    Negative,
    Overflow,
    Unused,
    Break,
    Decimal,
    InterruptDisable,
    Zero,
    Carry,
}

/// The byte that holds `mask` when `on` is true and nothing otherwise.
pub open spec fn flag_bit(on: bool, mask: u8) -> u8 {
    if on {
        mask
    } else {
        0
    }
}

/// The status register as a set of named boolean flags.
#[derive(Clone, Copy, Debug, PartialEq, Eq, Structural)]
pub struct Status {
    pub negative: bool,
    pub overflow: bool,
    pub unused: bool,
    pub brk: bool,
    pub decimal: bool,
    pub interrupt_disable: bool,
    pub zero: bool,
    pub carry: bool,
}

impl Status {
    /// The register with every flag cleared.
    pub open spec fn spec_new() -> Status {
        Status {
            negative: false,
            overflow: false,
            unused: false,
            brk: false,
            decimal: false,
            interrupt_disable: false,
            zero: false,
            carry: false,
        }
    }

    /// The value of one flag.
    pub open spec fn spec_get(self, flag: Flag) -> bool {
        match flag {
            Flag::Negative => self.negative,
            Flag::Overflow => self.overflow,
            Flag::Unused => self.unused,
            Flag::Break => self.brk,
            Flag::Decimal => self.decimal,
            Flag::InterruptDisable => self.interrupt_disable,
            Flag::Zero => self.zero,
            Flag::Carry => self.carry,
        }
    }

    /// The register with one flag given the value `on` and the other seven
    /// as they were.
    pub open spec fn with(self, flag: Flag, on: bool) -> Status {
        match flag {
            Flag::Negative => Status { negative: on, ..self },
            Flag::Overflow => Status { overflow: on, ..self },
            Flag::Unused => Status { unused: on, ..self },
            Flag::Break => Status { brk: on, ..self },
            Flag::Decimal => Status { decimal: on, ..self },
            Flag::InterruptDisable => Status { interrupt_disable: on, ..self },
            Flag::Zero => Status { zero: on, ..self },
            Flag::Carry => Status { carry: on, ..self },
        }
    }

    /// The packed byte: bit 7 is Negative, bit 0 is Carry.
    pub open spec fn spec_as_byte(self) -> u8 {
        flag_bit(self.negative, 0x80) | flag_bit(self.overflow, 0x40)
            | flag_bit(self.unused, 0x20) | flag_bit(self.brk, 0x10)
            | flag_bit(self.decimal, 0x08) | flag_bit(self.interrupt_disable, 0x04)
            | flag_bit(self.zero, 0x02) | flag_bit(self.carry, 0x01)
    }

    /// The flags that a packed byte stands for.
    pub open spec fn spec_from_byte(byte: u8) -> Status {
        Status {
            negative: byte & 0x80 != 0,
            overflow: byte & 0x40 != 0,
            unused: byte & 0x20 != 0,
            brk: byte & 0x10 != 0,
            decimal: byte & 0x08 != 0,
            interrupt_disable: byte & 0x04 != 0,
            zero: byte & 0x02 != 0,
            carry: byte & 0x01 != 0,
        }
    }

    /// A register with every flag cleared.
    pub fn new() -> (status: Status)
        ensures
            status == Status::spec_new(),
    {
        Status {
            negative: false,
            overflow: false,
            unused: false,
            brk: false,
            decimal: false,
            interrupt_disable: false,
            zero: false,
            carry: false,
        }
    }

    /// Whether `flag` is set.
    pub fn get(&self, flag: Flag) -> (on: bool)
        ensures
            on == self.spec_get(flag),
    {
        match flag {
            Flag::Negative => self.negative,
            Flag::Overflow => self.overflow,
            Flag::Unused => self.unused,
            Flag::Break => self.brk,
            Flag::Decimal => self.decimal,
            Flag::InterruptDisable => self.interrupt_disable,
            Flag::Zero => self.zero,
            Flag::Carry => self.carry,
        }
    }

    /// Gives `flag` the value `on` and leaves the other flags alone.
    pub fn assign(&mut self, flag: Flag, on: bool)
        ensures
            *final(self) == old(self).with(flag, on),
    {
        match flag {
            Flag::Negative => { self.negative = on; },
            Flag::Overflow => { self.overflow = on; },
            Flag::Unused => { self.unused = on; },
            Flag::Break => { self.brk = on; },
            Flag::Decimal => { self.decimal = on; },
            Flag::InterruptDisable => { self.interrupt_disable = on; },
            Flag::Zero => { self.zero = on; },
            Flag::Carry => { self.carry = on; },
        }
    }

    /// Sets `flag` and leaves the other flags alone.
    pub fn set(&mut self, flag: Flag)
        ensures
            *final(self) == old(self).with(flag, true),
    {
        self.assign(flag, true);
    }

    /// Clears `flag` and leaves the other flags alone.
    pub fn clear(&mut self, flag: Flag)
        ensures
            *final(self) == old(self).with(flag, false),
    {
        self.assign(flag, false);
    }

    /// Packs the flags into one byte, from which `from_byte` gives them
    /// back.
    pub fn as_byte(&self) -> (byte: u8)
        ensures
            byte == self.spec_as_byte(),
            Status::spec_from_byte(byte) == *self,
    {
        proof {
            lemma_status_byte_round_trip(*self);
        }
        let n: u8 = if self.negative { 0x80 } else { 0 };
        let v: u8 = if self.overflow { 0x40 } else { 0 };
        let u: u8 = if self.unused { 0x20 } else { 0 };
        let b: u8 = if self.brk { 0x10 } else { 0 };
        let d: u8 = if self.decimal { 0x08 } else { 0 };
        let i: u8 = if self.interrupt_disable { 0x04 } else { 0 };
        let z: u8 = if self.zero { 0x02 } else { 0 };
        let c: u8 = if self.carry { 0x01 } else { 0 };
        n | v | u | b | d | i | z | c
    }

    /// Unpacks a byte into the flags, from which `as_byte` gives the byte
    /// back.
    pub fn from_byte(byte: u8) -> (status: Status)
        ensures
            status == Status::spec_from_byte(byte),
            status.spec_as_byte() == byte,
    {
        proof {
            lemma_byte_status_round_trip(byte);
        }
        Status {
            negative: byte & 0x80 != 0,
            overflow: byte & 0x40 != 0,
            unused: byte & 0x20 != 0,
            brk: byte & 0x10 != 0,
            decimal: byte & 0x08 != 0,
            interrupt_disable: byte & 0x04 != 0,
            zero: byte & 0x02 != 0,
            carry: byte & 0x01 != 0,
        }
    }
}

/// Each bit of a byte assembled from eight flags is the flag it was
/// assembled from.
proof fn lemma_pack_unpack(n: bool, v: bool, u: bool, b: bool, d: bool, i: bool, z: bool, c: bool)
    by (bit_vector)
    ensures
        ({
            let byte: u8 = (if n { 0x80u8 } else { 0u8 }) | (if v { 0x40u8 } else { 0u8 })
                | (if u { 0x20u8 } else { 0u8 }) | (if b { 0x10u8 } else { 0u8 })
                | (if d { 0x08u8 } else { 0u8 }) | (if i { 0x04u8 } else { 0u8 })
                | (if z { 0x02u8 } else { 0u8 }) | (if c { 0x01u8 } else { 0u8 });
            &&& (byte & 0x80 != 0) == n
            &&& (byte & 0x40 != 0) == v
            &&& (byte & 0x20 != 0) == u
            &&& (byte & 0x10 != 0) == b
            &&& (byte & 0x08 != 0) == d
            &&& (byte & 0x04 != 0) == i
            &&& (byte & 0x02 != 0) == z
            &&& (byte & 0x01 != 0) == c
        }),
{
}

/// Packing a register and unpacking the byte gives the register back.
pub proof fn lemma_status_byte_round_trip(status: Status)
    ensures
        Status::spec_from_byte(status.spec_as_byte()) == status,
{
    lemma_pack_unpack(
        status.negative,
        status.overflow,
        status.unused,
        status.brk,
        status.decimal,
        status.interrupt_disable,
        status.zero,
        status.carry,
    );
}

/// Unpacking a byte and packing the register gives the byte back.
pub proof fn lemma_byte_status_round_trip(byte: u8)
    ensures
        Status::spec_from_byte(byte).spec_as_byte() == byte,
{
    assert((if byte & 0x80 != 0 { 0x80u8 } else { 0u8 })
        | (if byte & 0x40 != 0 { 0x40u8 } else { 0u8 })
        | (if byte & 0x20 != 0 { 0x20u8 } else { 0u8 })
        | (if byte & 0x10 != 0 { 0x10u8 } else { 0u8 })
        | (if byte & 0x08 != 0 { 0x08u8 } else { 0u8 })
        | (if byte & 0x04 != 0 { 0x04u8 } else { 0u8 })
        | (if byte & 0x02 != 0 { 0x02u8 } else { 0u8 })
        | (if byte & 0x01 != 0 { 0x01u8 } else { 0u8 }) == byte) by (bit_vector);
}

/// A flag reads as what it was last given, and giving one flag a value
/// leaves every other flag as it was.
pub proof fn lemma_get_after_with(status: Status, changed: Flag, on: bool, read: Flag)
    ensures
        status.with(changed, on).spec_get(read) == if read == changed {
            on
        } else {
            status.spec_get(read)
        },
{
}

/// A register in which no flag was ever set packs to the zero byte.
pub proof fn lemma_new_status_is_zero_byte()
    ensures
        Status::spec_new().spec_as_byte() == 0,
{
    assert(0u8 | 0u8 | 0u8 | 0u8 | 0u8 | 0u8 | 0u8 | 0u8 == 0u8) by (bit_vector);
}

} // verus!
