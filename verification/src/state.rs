//! The processor as a mathematical value, and what each instruction makes
//! of it.

use crate::addressing::{relative_target, word, wrap_address, AddressingMode};
use crate::alu::{
    adc_result, adc_status, and_status, asl_result, asl_status, bit_status, compare_status,
    lda_status, lemma_and_idempotent,
};
use crate::instruction::{spec_decode, ExecutionError, Operation};
use crate::memory::MEMORY_SIZE;
use crate::status::Status;
use vstd::prelude::*;

verus! {

/// The processor as a mathematical value: the registers, and the contents
/// of memory cell by cell.
pub struct CpuState {
    pub program_counter: u16,
    pub stack_pointer: u8,
    pub accumulator: u8,
    pub register_x: u8,
    pub register_y: u8,
    pub status: Status,
    pub memory: Seq<u8>,
}

impl CpuState {
    /// Memory has one cell for each 16-bit address.
    pub open spec fn well_formed(self) -> bool {
        self.memory.len() == MEMORY_SIZE
    }

    /// The state in which every register, every flag and every memory cell
    /// is zero.
    pub open spec fn initial() -> CpuState {
        CpuState {
            program_counter: 0,
            stack_pointer: 0,
            accumulator: 0,
            register_x: 0,
            register_y: 0,
            status: Status::spec_new(),
            memory: Seq::new(MEMORY_SIZE as nat, |i: int| 0u8),
        }
    }

    /// The byte in the memory cell at `address`.
    pub open spec fn read(self, address: u16) -> u8 {
        self.memory[address as int]
    }

    /// The state after `value` is written to the cell at `address`.
    pub open spec fn after_write(self, address: u16, value: u8) -> CpuState {
        CpuState { memory: self.memory.update(address as int, value), ..self }
    }

    /// The state after add-with-carry of `operand`.
    pub open spec fn after_adc(self, operand: u8) -> CpuState {
        CpuState {
            accumulator: adc_result(self.accumulator, operand, self.status.carry),
            status: adc_status(self.status, self.accumulator, operand),
            ..self
        }
    }

    /// The state after a logical AND with `operand`.
    pub open spec fn after_and(self, operand: u8) -> CpuState {
        CpuState {
            accumulator: self.accumulator & operand,
            status: and_status(self.status, self.accumulator, operand),
            ..self
        }
    }

    /// The state after `operand`, a byte from memory, is shifted left: only
    /// the flags change.
    pub open spec fn after_asl(self, operand: u8) -> CpuState {
        CpuState { status: asl_status(self.status, operand), ..self }
    }

    /// The state after the accumulator is shifted left.
    pub open spec fn after_asl_accumulator(self) -> CpuState {
        CpuState {
            accumulator: asl_result(self.accumulator),
            status: asl_status(self.status, self.accumulator),
            ..self
        }
    }

    /// The state after `operand` is compared with the accumulator: only the
    /// flags change.
    pub open spec fn after_compare(self, operand: u8) -> CpuState {
        CpuState { status: compare_status(self.status, self.accumulator, operand), ..self }
    }

    /// The state after a bit test of `operand`: only the flags change.
    pub open spec fn after_bit_test(self, operand: u8) -> CpuState {
        CpuState { status: bit_status(self.status, self.accumulator, operand), ..self }
    }

    /// The state after `operand` is loaded into the accumulator.
    pub open spec fn after_lda(self, operand: u8) -> CpuState {
        CpuState { accumulator: operand, status: lda_status(self.status, operand), ..self }
    }

    /// The address that an instruction works on, when the program counter
    /// points at the first of its operand bytes.
    pub open spec fn effective_address(self, mode: AddressingMode) -> u16 {
        match mode {
            AddressingMode::Immediate => self.program_counter,
            AddressingMode::ZeroPage => self.read(self.program_counter) as u16,
            AddressingMode::Absolute => word(
                self.read(self.program_counter),
                self.read(wrap_address(self.program_counter + 1)),
            ),
            AddressingMode::Relative => relative_target(
                self.program_counter,
                self.read(self.program_counter),
            ),
        }
    }

    /// The byte at the effective address.
    pub open spec fn operand(self, mode: AddressingMode) -> u8 {
        self.read(self.effective_address(mode))
    }

    /// The state with the program counter moved past the operand bytes.
    pub open spec fn after_resolve(self, mode: AddressingMode) -> CpuState {
        CpuState {
            program_counter: wrap_address(self.program_counter + mode.spec_operand_len()),
            ..self
        }
    }

    /// The state after a conditional branch whose displacement byte lies at
    /// the program counter: at the branch target if the branch is taken,
    /// and just past the displacement byte if it is not.
    pub open spec fn after_branch(self, taken: bool) -> CpuState {
        CpuState {
            program_counter: if taken {
                relative_target(self.program_counter, self.read(self.program_counter))
            } else {
                wrap_address(self.program_counter + 1)
            },
            ..self
        }
    }

    /// The state after `operation` has run, when the program counter points
    /// just past its opcode.
    pub open spec fn after_execute(self, operation: Operation) -> CpuState {
        match operation {
            Operation::Adc(mode) => self.after_resolve(mode).after_adc(self.operand(mode)),
            Operation::And(mode) => self.after_resolve(mode).after_and(self.operand(mode)),
            Operation::Asl(mode) => self.after_resolve(mode).after_asl(
                self.operand(mode),
            ).after_write(self.effective_address(mode), asl_result(self.operand(mode))),
            Operation::AslAccumulator => self.after_asl_accumulator(),
            Operation::Bcc => self.after_branch(!self.status.carry),
            Operation::Bcs => self.after_branch(self.status.carry),
            Operation::Beq => self.after_branch(self.status.zero),
            Operation::Bit(mode) => self.after_resolve(mode).after_bit_test(self.operand(mode)),
            Operation::Bmi => self.after_branch(self.status.negative),
            Operation::Bne => self.after_branch(!self.status.zero),
            Operation::Bpl => self.after_branch(!self.status.negative),
            Operation::Bvc => self.after_branch(!self.status.overflow),
            Operation::Bvs => self.after_branch(self.status.overflow),
            Operation::Clc => CpuState { status: Status { carry: false, ..self.status }, ..self },
            Operation::Cld => CpuState { status: Status { decimal: false, ..self.status }, ..self },
            Operation::Cli => CpuState {
                status: Status { interrupt_disable: false, ..self.status },
                ..self
            },
            Operation::Clv => CpuState { status: Status { overflow: false, ..self.status }, ..self },
            Operation::Cmp(mode) => self.after_resolve(mode).after_compare(self.operand(mode)),
            Operation::Lda(mode) => self.after_resolve(mode).after_lda(self.operand(mode)),
            Operation::Sec => CpuState { status: Status { carry: true, ..self.status }, ..self },
        }
    }

    /// The byte that the next step fetches as its opcode.
    pub open spec fn opcode(self) -> u8 {
        self.read(self.program_counter)
    }

    /// The state with the program counter moved past the opcode.
    pub open spec fn after_fetch(self) -> CpuState {
        CpuState { program_counter: wrap_address(self.program_counter + 1), ..self }
    }

    /// The state after one step: the opcode is fetched and, if it stands for
    /// an instruction, that instruction is executed.
    pub open spec fn after_step(self) -> CpuState {
        match spec_decode(self.opcode()) {
            Some(instruction) => self.after_fetch().after_execute(instruction.operation),
            None => self.after_fetch(),
        }
    }

    /// What one step reports: the instruction's cycle count, or the opcode
    /// that stands for no instruction.
    pub open spec fn step_outcome(self) -> Result<u8, ExecutionError> {
        match spec_decode(self.opcode()) {
            Some(instruction) => Ok(instruction.cycles),
            None => Err(ExecutionError::InvalidOpcode(self.opcode())),
        }
    }
}

/// A second logical AND with the same operand changes nothing: neither the
/// accumulator nor any flag.
pub proof fn lemma_and_twice(state: CpuState, operand: u8)
    ensures
        state.after_and(operand).after_and(operand) == state.after_and(operand),
{
    lemma_and_idempotent(state.accumulator, operand);
}

/// A branch that is not taken still moves the program counter past its
/// displacement byte, and changes nothing else.
pub proof fn lemma_branch_not_taken(state: CpuState)
    ensures
        state.after_branch(false) == (CpuState {
            program_counter: wrap_address(state.program_counter + 1),
            ..state
        }),
{
}

/// A cell that was written reads back what was written, and every other
/// cell reads as before.
pub proof fn lemma_read_after_write(state: CpuState, address: u16, value: u8, other: u16)
    requires
        state.well_formed(),
    ensures
        state.after_write(address, value).read(address) == value,
        other != address ==> state.after_write(address, value).read(other) == state.read(other),
{
}

/// No instruction changes the size of memory.
pub proof fn lemma_step_keeps_memory_size(state: CpuState)
    requires
        state.well_formed(),
    ensures
        state.after_step().well_formed(),
{
}

/// No instruction touches the Unused or the Break flag, the stack pointer
/// or an index register.
pub proof fn lemma_step_keeps_reserved(state: CpuState)
    ensures
        state.after_step().status.unused == state.status.unused,
        state.after_step().status.brk == state.status.brk,
        state.after_step().stack_pointer == state.stack_pointer,
        state.after_step().register_x == state.register_x,
        state.after_step().register_y == state.register_y,
{
}

/// A byte that stands for no instruction moves the program counter past
/// itself and changes nothing else.
pub proof fn lemma_invalid_opcode(state: CpuState)
    requires
        spec_decode(state.opcode()) is None,
    ensures
        state.step_outcome() == Err::<u8, ExecutionError>(
            ExecutionError::InvalidOpcode(state.opcode()),
        ),
        state.after_step() == (CpuState {
            program_counter: wrap_address(state.program_counter + 1),
            ..state
        }),
{
}

} // verus!
