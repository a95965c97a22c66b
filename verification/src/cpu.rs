//! The processor: its register file, its memory, and the instructions that
//! act on them.

use crate::addressing::{branch_target, make_word, AddressingMode};
use crate::alu::{asl_result, carry_value};
use crate::instruction::{decode, ExecutionError, Operation};
use crate::memory::Memory;
use crate::state::CpuState;
use crate::status::{Flag, Status};
use vstd::prelude::*;

verus! {

/// An 8-bit processor with a 16-bit address space.
pub struct CPU {
    program_counter: u16,
    stack_pointer: u8,
    accumulator: u8,
    register_x: u8,
    register_y: u8,
    status: Status,
    memory: Memory,
}

impl View for CPU {
    type V = CpuState;

    closed spec fn view(&self) -> CpuState {
        CpuState {
            program_counter: self.program_counter,
            stack_pointer: self.stack_pointer,
            accumulator: self.accumulator,
            register_x: self.register_x,
            register_y: self.register_y,
            status: self.status,
            memory: self.memory@,
        }
    }
}

impl CPU {
    /// The memory of every processor has exactly one cell for each address.
    pub proof fn lemma_well_formed(self)
        ensures
            self@.well_formed(),
    {
        self.memory.lemma_size();
    }

    /// A processor with zeroed registers, cleared flags and zeroed memory.
    pub fn new() -> (cpu: CPU)
        ensures
            cpu@ == CpuState::initial(),
    {
        CPU {
            program_counter: 0,
            stack_pointer: 0,
            accumulator: 0,
            register_x: 0,
            register_y: 0,
            status: Status::new(),
            memory: Memory::new(),
        }
    }

    /// The address of the next byte to fetch.
    pub fn program_counter(&self) -> (value: u16)
        ensures
            value == self@.program_counter,
    {
        self.program_counter
    }

    /// The stack pointer: an offset into the stack page.
    pub fn stack_pointer(&self) -> (value: u8)
        ensures
            value == self@.stack_pointer,
    {
        self.stack_pointer
    }

    /// The accumulator.
    pub fn accumulator(&self) -> (value: u8)
        ensures
            value == self@.accumulator,
    {
        self.accumulator
    }

    /// The index register X.
    pub fn register_x(&self) -> (value: u8)
        ensures
            value == self@.register_x,
    {
        self.register_x
    }

    /// The index register Y.
    pub fn register_y(&self) -> (value: u8)
        ensures
            value == self@.register_y,
    {
        self.register_y
    }

    /// The status register.
    pub fn status(&self) -> (status: Status)
        ensures
            status == self@.status,
    {
        self.status
    }

    /// The byte in the memory cell at `addr`.
    pub fn read_mem(&self, addr: u16) -> (value: u8)
        ensures
            value == self@.read(addr),
    {
        self.memory.read(addr)
    }

    /// Overwrites the memory cell at `addr`.
    pub fn write_mem(&mut self, addr: u16, value: u8)
        ensures
            final(self)@ == old(self)@.after_write(addr, value),
    {
        self.memory.write(addr, value);
    }

    /// Whether `flag` is set.
    pub fn get_flag(&self, flag: Flag) -> (on: bool)
        ensures
            on == self@.status.spec_get(flag),
    {
        self.status.get(flag)
    }

    /// Whether Carry is set.
    pub fn get_carry_flag(&self) -> (on: bool)
        ensures
            on == self@.status.carry,
    {
        self.status.carry
    }

    /// Whether Zero is set.
    pub fn get_zero_flag(&self) -> (on: bool)
        ensures
            on == self@.status.zero,
    {
        self.status.zero
    }

    /// Whether Negative is set.
    pub fn get_negative_flag(&self) -> (on: bool)
        ensures
            on == self@.status.negative,
    {
        self.status.negative
    }

    /// Whether Overflow is set.
    pub fn get_overflow_flag(&self) -> (on: bool)
        ensures
            on == self@.status.overflow,
    {
        self.status.overflow
    }

    /// Whether Break is set.
    pub fn get_break_flag(&self) -> (on: bool)
        ensures
            on == self@.status.brk,
    {
        self.status.brk
    }

    /// CLC: clears Carry and touches nothing else.
    pub fn clc_clear_carry_flag(&mut self)
        ensures
            final(self)@ == (CpuState {
                status: Status { carry: false, ..old(self)@.status },
                ..old(self)@
            }),
    {
        self.status.carry = false;
    }

    /// SEC: sets Carry and touches nothing else.
    pub fn sec_set_carry_flag(&mut self)
        ensures
            final(self)@ == (CpuState {
                status: Status { carry: true, ..old(self)@.status },
                ..old(self)@
            }),
    {
        self.status.carry = true;
    }

    /// Sets Zero and touches nothing else.
    pub fn set_zero_flag(&mut self)
        ensures
            final(self)@ == (CpuState {
                status: Status { zero: true, ..old(self)@.status },
                ..old(self)@
            }),
    {
        self.status.zero = true;
    }

    /// Clears Zero and touches nothing else.
    pub fn remove_zero_flag(&mut self)
        ensures
            final(self)@ == (CpuState {
                status: Status { zero: false, ..old(self)@.status },
                ..old(self)@
            }),
    {
        self.status.zero = false;
    }

    /// Sets Overflow and touches nothing else.
    pub fn set_overflow_flag(&mut self)
        ensures
            final(self)@ == (CpuState {
                status: Status { overflow: true, ..old(self)@.status },
                ..old(self)@
            }),
    {
        self.status.overflow = true;
    }

    /// Clears Overflow and touches nothing else.
    pub fn remove_overflow_flag(&mut self)
        ensures
            final(self)@ == (CpuState {
                status: Status { overflow: false, ..old(self)@.status },
                ..old(self)@
            }),
    {
        self.status.overflow = false;
    }

    /// Sets Negative and touches nothing else.
    pub fn set_negative_flag(&mut self)
        ensures
            final(self)@ == (CpuState {
                status: Status { negative: true, ..old(self)@.status },
                ..old(self)@
            }),
    {
        self.status.negative = true;
    }

    /// Clears Negative and touches nothing else.
    pub fn remove_negative_flag(&mut self)
        ensures
            final(self)@ == (CpuState {
                status: Status { negative: false, ..old(self)@.status },
                ..old(self)@
            }),
    {
        self.status.negative = false;
    }

    /// Clears InterruptDisable and touches nothing else.
    pub fn remove_interrupt_flag(&mut self)
        ensures
            final(self)@ == (CpuState {
                status: Status { interrupt_disable: false, ..old(self)@.status },
                ..old(self)@
            }),
    {
        self.status.interrupt_disable = false;
    }

    /// Clears Decimal and touches nothing else.
    pub fn remove_decimal_flag(&mut self)
        ensures
            final(self)@ == (CpuState {
                status: Status { decimal: false, ..old(self)@.status },
                ..old(self)@
            }),
    {
        self.status.decimal = false;
    }

    /// Finds the address that an instruction works on, and moves the
    /// program counter past the instruction's operand bytes.
    pub fn resolve(&mut self, mode: AddressingMode) -> (address: u16)
        ensures
            address == old(self)@.effective_address(mode),
            final(self)@ == old(self)@.after_resolve(mode),
    {
        let at: u16 = self.program_counter;
        self.program_counter = at.wrapping_add(mode.operand_len());
        match mode {
            AddressingMode::Immediate => at,
            AddressingMode::ZeroPage => self.read_mem(at) as u16,
            AddressingMode::Absolute => {
                let low: u8 = self.read_mem(at);
                let high: u8 = self.read_mem(at.wrapping_add(1));
                make_word(low, high)
            },
            AddressingMode::Relative => {
                let displacement: u8 = self.read_mem(at);
                branch_target(at, displacement)
            },
        }
    }

    /// Reads the byte that an instruction works on, and moves the program
    /// counter past the instruction's operand bytes.
    pub fn fetch_operand(&mut self, mode: AddressingMode) -> (value: u8)
        ensures
            value == old(self)@.operand(mode),
            final(self)@ == old(self)@.after_resolve(mode),
    {
        let address: u16 = self.resolve(mode);
        self.read_mem(address)
    }

    /// Takes the branch whose displacement byte lies at the program counter.
    pub fn branch(&mut self)
        ensures
            final(self)@ == old(self)@.after_branch(true),
    {
        let target: u16 = self.resolve(AddressingMode::Relative);
        self.program_counter = target;
    }

    /// Moves past the displacement byte of a branch that is not taken.
    pub fn skip_branch(&mut self)
        ensures
            final(self)@ == old(self)@.after_branch(false),
    {
        self.program_counter = self.program_counter.wrapping_add(1);
    }

    /// CLD: clears Decimal.
    pub fn cld_clear_decimal_mode(&mut self)
        ensures
            final(self)@ == (CpuState {
                status: Status { decimal: false, ..old(self)@.status },
                ..old(self)@
            }),
    {
        self.remove_decimal_flag();
    }

    /// CLI: clears InterruptDisable.
    pub fn cli_clear_interrupt_disable(&mut self)
        ensures
            final(self)@ == (CpuState {
                status: Status { interrupt_disable: false, ..old(self)@.status },
                ..old(self)@
            }),
    {
        self.remove_interrupt_flag();
    }

    /// Reads the Overflow flag and leaves the processor as it was.
    pub fn cli_clear_overflow_disable(&mut self)
        ensures
            final(self)@ == old(self)@,
    {
        self.get_overflow_flag();
    }

    /// CMP: compares `value` with the accumulator. Carry is set iff the
    /// accumulator is at least `value`, Zero iff they are equal, Negative
    /// iff bit 7 of their difference is 1. The accumulator keeps its value.
    pub fn cmp_compare(&mut self, value: u8)
        ensures
            final(self)@ == old(self)@.after_compare(value),
            final(self)@.accumulator == old(self)@.accumulator,
    {
        crate::alu::compare(&mut self.status, self.accumulator, value);
    }

    /// ADC: adds `value` and the Carry flag to the accumulator.
    pub fn adc_add_with_carry(&mut self, value: u8)
        ensures
            final(self)@ == old(self)@.after_adc(value),
            final(self)@.accumulator == (old(self)@.accumulator + value + carry_value(
                old(self)@.status.carry,
            )) % 256,
            final(self)@.status.carry == (old(self)@.accumulator + value + carry_value(
                old(self)@.status.carry,
            ) > 255),
    {
        self.accumulator = crate::alu::add_with_carry(&mut self.status, self.accumulator, value);
    }

    /// AND: ANDs `value` into the accumulator.
    pub fn and_logical_and(&mut self, value: u8)
        ensures
            final(self)@ == old(self)@.after_and(value),
    {
        self.accumulator = crate::alu::logical_and(&mut self.status, self.accumulator, value);
    }

    /// ASL on a byte from memory: returns `value` shifted left by one bit.
    /// Carry receives the bit shifted out.
    pub fn asl_arithmetic_shift_left(&mut self, value: u8) -> (result: u8)
        ensures
            result == asl_result(value),
            final(self)@ == old(self)@.after_asl(value),
    {
        crate::alu::shift_left(&mut self.status, value)
    }

    /// ASL on the accumulator.
    pub fn asl_arithmetic_shift_left_accu(&mut self)
        ensures
            final(self)@ == old(self)@.after_asl_accumulator(),
    {
        self.accumulator = crate::alu::shift_left(&mut self.status, self.accumulator);
    }

    /// BCC: branches iff Carry is clear.
    pub fn bcc_branch_if_carry_clear(&mut self)
        ensures
            final(self)@ == old(self)@.after_branch(!old(self)@.status.carry),
    {
        if !self.get_carry_flag() {
            self.branch();
        } else {
            self.skip_branch();
        }
    }

    /// BCS: branches iff Carry is set.
    pub fn bcs_branch_if_carry_set(&mut self)
        ensures
            final(self)@ == old(self)@.after_branch(old(self)@.status.carry),
    {
        if self.get_carry_flag() {
            self.branch();
        } else {
            self.skip_branch();
        }
    }

    /// BEQ: branches iff Zero is set.
    pub fn beq_branch_if_equal(&mut self)
        ensures
            final(self)@ == old(self)@.after_branch(old(self)@.status.zero),
    {
        if self.get_zero_flag() {
            self.branch();
        } else {
            self.skip_branch();
        }
    }

    /// BIT: tests the bits of `value` against the accumulator. Zero is set
    /// iff they have no bit in common; Overflow and Negative receive bits 6
    /// and 7 of `value`. The accumulator keeps its value.
    pub fn bit_test(&mut self, value: u8)
        ensures
            final(self)@ == old(self)@.after_bit_test(value),
            final(self)@.status.overflow == (value & 0x40 != 0),
            final(self)@.status.negative == (value & 0x80 != 0),
    {
        crate::alu::bit_test(&mut self.status, self.accumulator, value);
    }

    /// BMI: branches iff Negative is set.
    pub fn bmi_branch_if_minus(&mut self)
        ensures
            final(self)@ == old(self)@.after_branch(old(self)@.status.negative),
    {
        if self.get_negative_flag() {
            self.branch();
        } else {
            self.skip_branch();
        }
    }

    /// BNE: branches iff Zero is clear.
    pub fn bne_branch_if_not_equal(&mut self)
        ensures
            final(self)@ == old(self)@.after_branch(!old(self)@.status.zero),
    {
        if !self.get_zero_flag() {
            self.branch();
        } else {
            self.skip_branch();
        }
    }

    /// BPL: branches iff Negative is clear.
    pub fn bpl_branch_if_positive(&mut self)
        ensures
            final(self)@ == old(self)@.after_branch(!old(self)@.status.negative),
    {
        if !self.get_negative_flag() {
            self.branch();
        } else {
            self.skip_branch();
        }
    }

    /// BVC: branches iff Overflow is clear.
    pub fn bvc_branch_if_overflow_clear(&mut self)
        ensures
            final(self)@ == old(self)@.after_branch(!old(self)@.status.overflow),
    {
        if !self.get_overflow_flag() {
            self.branch();
        } else {
            self.skip_branch();
        }
    }

    /// BVS: branches iff Overflow is set.
    pub fn bvc_branch_if_overflow_set(&mut self)
        ensures
            final(self)@ == old(self)@.after_branch(old(self)@.status.overflow),
    {
        if self.get_overflow_flag() {
            self.branch();
        } else {
            self.skip_branch();
        }
    }

    /// LDA: loads `value` into the accumulator.
    pub fn lda_load_accumulator(&mut self, value: u8)
        ensures
            final(self)@ == old(self)@.after_lda(value),
    {
        self.accumulator = crate::alu::load(&mut self.status, value);
    }

    /// Runs `operation`, whose operand bytes, if it has any, lie at the
    /// program counter.
    pub fn execute(&mut self, operation: Operation)
        ensures
            final(self)@ == old(self)@.after_execute(operation),
    {
        match operation {
            Operation::Adc(mode) => {
                let value: u8 = self.fetch_operand(mode);
                self.adc_add_with_carry(value);
            },
            Operation::And(mode) => {
                let value: u8 = self.fetch_operand(mode);
                self.and_logical_and(value);
            },
            Operation::Asl(mode) => {
                let address: u16 = self.resolve(mode);
                let value: u8 = self.read_mem(address);
                let result: u8 = self.asl_arithmetic_shift_left(value);
                self.write_mem(address, result);
            },
            Operation::AslAccumulator => self.asl_arithmetic_shift_left_accu(),
            Operation::Bcc => self.bcc_branch_if_carry_clear(),
            Operation::Bcs => self.bcs_branch_if_carry_set(),
            Operation::Beq => self.beq_branch_if_equal(),
            Operation::Bit(mode) => {
                let value: u8 = self.fetch_operand(mode);
                self.bit_test(value);
            },
            Operation::Bmi => self.bmi_branch_if_minus(),
            Operation::Bne => self.bne_branch_if_not_equal(),
            Operation::Bpl => self.bpl_branch_if_positive(),
            Operation::Bvc => self.bvc_branch_if_overflow_clear(),
            Operation::Bvs => self.bvc_branch_if_overflow_set(),
            Operation::Clc => self.clc_clear_carry_flag(),
            Operation::Cld => self.cld_clear_decimal_mode(),
            Operation::Cli => self.cli_clear_interrupt_disable(),
            Operation::Clv => self.remove_overflow_flag(),
            Operation::Cmp(mode) => {
                let value: u8 = self.fetch_operand(mode);
                self.cmp_compare(value);
            },
            Operation::Lda(mode) => {
                let value: u8 = self.fetch_operand(mode);
                self.lda_load_accumulator(value);
            },
            Operation::Sec => self.sec_set_carry_flag(),
        }
    }

    /// Executes one instruction: fetches the opcode at the program counter,
    /// moves past it, and runs the instruction it stands for. Returns the
    /// instruction's base cycle count. A byte that stands for no
    /// instruction is reported, with the program counter left just past it
    /// and everything else untouched.
    pub fn step(&mut self) -> (outcome: Result<u8, ExecutionError>)
        ensures
            final(self)@ == old(self)@.after_step(),
            outcome == old(self)@.step_outcome(),
    {
        let opcode: u8 = self.read_mem(self.program_counter);
        self.program_counter = self.program_counter.wrapping_add(1);
        match decode(opcode) {
            Some(instruction) => {
                self.execute(instruction.operation);
                Ok(instruction.cycles)
            },
            None => Err(ExecutionError::InvalidOpcode(opcode)),
        }
    }
}

} // verus!
