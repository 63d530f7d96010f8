use vstd::prelude::*;

use crate::addressing::{AddressingMode, add8, operand_address};
use crate::memory::{MEMORY_SIZE, Memory, next_address, word_at, with_word, lemma_word_from_bytes};
use crate::opcodes::{OpCode, OpcodeTable, table_wf, standard_opcode, standard_table};

verus! {

/// Status bit set when the last result was zero.
pub const ZERO_FLAG: u8 = 0b0000_0010;

/// Status bit set when the last result had its high bit set.
pub const NEGATIVE_FLAG: u8 = 0b1000_0000;

/// Where `load` places a program.
pub const PROGRAM_START: u16 = 0x8000;

/// Where the entry address is kept for `reset`.
pub const RESET_VECTOR: u16 = 0xFFFC;

/// Largest program that fits between `PROGRAM_START` and the end of memory.
pub const MAX_PROGRAM_LEN: usize = 0x8000;

/// Why execution stopped short of a halt.
#[derive(Clone, Copy, Debug, PartialEq, Eq, Structural)]
pub enum CpuError {
    /// The fetched byte has no entry in the opcode table.
    UnrecognizedOpcode(u8),
    /// An instruction that needs an operand was given a mode without one.
    UnsupportedAddressingMode(AddressingMode),
    /// The opcode is in the table but has no handler.
    NotYetImplemented(u8),
    /// The allowed number of instructions ran without reaching a halt.
    StepLimitReached,
}

/// What one executed instruction leaves behind.
#[derive(Clone, Copy, Debug, PartialEq, Eq, Structural)]
pub enum StepOutcome {
    Continued,
    Halted,
}

/// The instructions that have a handler.
#[derive(Clone, Copy, Debug, PartialEq, Eq, Structural)]
pub enum Instruction {
    Lda,
    Sta,
    Tax,
    Inx,
    Brk,
}

/// The handler that an opcode byte dispatches to.
pub open spec fn instruction_of(code: u8) -> Option<Instruction> {
    match code {
        0xa9 | 0xa5 | 0xb5 | 0xad | 0xbd | 0xb9 | 0xa1 | 0xb1 => Some(Instruction::Lda),
        0x85 | 0x95 | 0x8d | 0x9d | 0x99 | 0x81 | 0x91 => Some(Instruction::Sta),
        0xaa => Some(Instruction::Tax),
        0xe8 => Some(Instruction::Inx),
        0x00 => Some(Instruction::Brk),
        _ => None,
    }
}

/// Whether the instruction reads or writes an operand in memory.
pub open spec fn takes_operand(ins: Instruction) -> bool {
    ins == Instruction::Lda || ins == Instruction::Sta
}

/// `status` after a result of `result`: the zero bit set exactly when the
/// result is zero, the negative bit a copy of the result's high bit, and every
/// other bit kept.
pub open spec fn with_zero_negative(status: u8, result: u8) -> u8 {
    (status & !(ZERO_FLAG | NEGATIVE_FLAG)) | (if result == 0 {
        ZERO_FLAG
    } else {
        0
    }) | (result & NEGATIVE_FLAG)
}

/// Whether the zero flag is set in `status`.
pub open spec fn zero_flag(status: u8) -> bool {
    status & ZERO_FLAG != 0
}

/// Whether the negative flag is set in `status`.
pub open spec fn negative_flag(status: u8) -> bool {
    status & NEGATIVE_FLAG != 0
}

/// The flag update sets the zero flag exactly for a zero result, the negative
/// flag exactly for a result of 0x80 or more, and leaves the other six bits.
pub proof fn lemma_zero_negative_flags(status: u8, result: u8)
    by (bit_vector)
    ensures
        zero_flag(with_zero_negative(status, result)) == (result == 0),
        negative_flag(with_zero_negative(status, result)) == (result >= 0x80),
        with_zero_negative(status, result) & !(ZERO_FLAG | NEGATIVE_FLAG) == status & !(ZERO_FLAG
            | NEGATIVE_FLAG),
{
}

/// The machine as the contracts see it: the registers, the 64 KiB of memory,
/// and the opcode table it decodes with.
pub ghost struct MachineState {
    pub register_a: u8,
    pub register_x: u8,
    pub register_y: u8,
    pub status: u8,
    pub program_counter: u16,
    pub memory: Seq<u8>,
    pub opcodes: Seq<Option<OpCode>>,
}

/// A machine just built with `opcodes`: registers, flags and memory all zero.
pub open spec fn power_on(opcodes: Seq<Option<OpCode>>) -> MachineState {
    MachineState {
        register_a: 0,
        register_x: 0,
        register_y: 0,
        status: 0,
        program_counter: 0,
        memory: Seq::new(MEMORY_SIZE as nat, |i: int| 0u8),
        opcodes,
    }
}

/// The effect of a handler on the machine, its program counter at the
/// operand bytes; none of them moves the program counter.
pub open spec fn execute(ins: Instruction, mode: AddressingMode, s: MachineState) -> MachineState {
    let address = operand_address(
        mode,
        s.program_counter,
        s.register_x,
        s.register_y,
        s.memory,
    )->0 as int;
    match ins {
        Instruction::Lda => MachineState {
            register_a: s.memory[address],
            status: with_zero_negative(s.status, s.memory[address]),
            ..s
        },
        Instruction::Sta => MachineState { memory: s.memory.update(address, s.register_a), ..s },
        Instruction::Tax => MachineState {
            register_x: s.register_a,
            status: with_zero_negative(s.status, s.register_a),
            ..s
        },
        Instruction::Inx => MachineState {
            register_x: add8(s.register_x, 1),
            status: with_zero_negative(s.status, add8(s.register_x, 1)),
            ..s
        },
        Instruction::Brk => s,
    }
}

/// One fetch-decode-execute cycle: the new machine and whether it halted, or
/// the fault, which leaves the machine as it was.
pub open spec fn step_spec(s: MachineState) -> Result<(MachineState, StepOutcome), CpuError> {
    let code = s.memory[s.program_counter as int];
    match s.opcodes[code as int] {
        None => Err(CpuError::UnrecognizedOpcode(code)),
        Some(op) => match instruction_of(code) {
            None => Err(CpuError::NotYetImplemented(code)),
            Some(ins) => if takes_operand(ins) && op.mode == AddressingMode::NoneAddressing {
                Err(CpuError::UnsupportedAddressingMode(op.mode))
            } else {
                let fetched = MachineState {
                    program_counter: next_address(s.program_counter),
                    ..s
                };
                if ins == Instruction::Brk {
                    Ok((fetched, StepOutcome::Halted))
                } else {
                    let done = execute(ins, op.mode, fetched);
                    Ok(
                        (
                            MachineState {
                                program_counter: ((done.program_counter + op.len - 1)
                                    % 0x1_0000) as u16,
                                ..done
                            },
                            StepOutcome::Continued,
                        ),
                    )
                }
            },
        },
    }
}

/// Runs at most `fuel` instructions from `s`: the machine where it stopped and
/// `Ok` for a halt, or the fault (the machine as it was before the faulting
/// instruction), or `StepLimitReached` once the fuel is spent.
pub open spec fn run_spec(s: MachineState, fuel: nat) -> (MachineState, Result<(), CpuError>)
    decreases fuel,
{
    if fuel == 0 {
        (s, Err(CpuError::StepLimitReached))
    } else {
        match step_spec(s) {
            Err(e) => (s, Err(e)),
            Ok((t, StepOutcome::Halted)) => (t, Ok(())),
            Ok((t, StepOutcome::Continued)) => run_spec(t, (fuel - 1) as nat),
        }
    }
}

/// The machine after `reset`: registers and flags zero, the program counter
/// taken from the reset vector.
pub open spec fn reset_spec(s: MachineState) -> MachineState {
    MachineState {
        register_a: 0,
        register_x: 0,
        register_y: 0,
        status: 0,
        program_counter: word_at(s.memory, RESET_VECTOR),
        ..s
    }
}

/// Memory after loading `program`: its bytes copied from `PROGRAM_START` on,
/// then `PROGRAM_START` written to the reset vector.
pub open spec fn loaded_memory(bytes: Seq<u8>, program: Seq<u8>) -> Seq<u8> {
    with_word(
        Seq::new(
            MEMORY_SIZE as nat,
            |i: int|
                if PROGRAM_START <= i < PROGRAM_START + program.len() {
                    program[i - PROGRAM_START]
                } else {
                    bytes[i]
                },
        ),
        RESET_VECTOR,
        PROGRAM_START,
    )
}

/// The machine after `load`.
pub open spec fn load_spec(s: MachineState, program: Seq<u8>) -> MachineState {
    MachineState { memory: loaded_memory(s.memory, program), ..s }
}

/// A 6502 processor with its own memory and opcode table.
pub struct CPU {
    pub register_a: u8,
    pub register_x: u8,
    pub register_y: u8,
    pub status: u8,
    pub program_counter: u16,
    memory: Memory,
    table: OpcodeTable,
}

impl View for CPU {
    type V = MachineState;

    closed spec fn view(&self) -> MachineState {
        MachineState {
            register_a: self.register_a,
            register_x: self.register_x,
            register_y: self.register_y,
            status: self.status,
            program_counter: self.program_counter,
            memory: self.memory@,
            opcodes: self.table@,
        }
    }
}

/// The instruction handler that `code` dispatches to.
fn decode(code: u8) -> (r: Option<Instruction>)
    ensures
        r == instruction_of(code),
{
    match code {
        0xa9 | 0xa5 | 0xb5 | 0xad | 0xbd | 0xb9 | 0xa1 | 0xb1 => Some(Instruction::Lda),
        0x85 | 0x95 | 0x8d | 0x9d | 0x99 | 0x81 | 0x91 => Some(Instruction::Sta),
        0xaa => Some(Instruction::Tax),
        0xe8 => Some(Instruction::Inx),
        0x00 => Some(Instruction::Brk),
        _ => None,
    }
}

impl CPU {
    /// The memory holds one byte per address and the table one slot per
    /// opcode byte.
    pub open spec fn wf(&self) -> bool {
        &&& self@.memory.len() == MEMORY_SIZE
        &&& table_wf(self@.opcodes)
    }

    /// A processor with zeroed registers and memory, decoding with the
    /// standard opcode table.
    pub fn new() -> (r: CPU)
        ensures
            r.wf(),
            r@ == power_on(standard_table()),
    {
        CPU::with_table(OpcodeTable::standard())
    }

    /// A processor with zeroed registers and memory, decoding with `table`.
    pub fn with_table(table: OpcodeTable) -> (r: CPU)
        requires
            table.wf(),
        ensures
            r.wf(),
            r@ == power_on(table@),
    {
        CPU {
            register_a: 0,
            register_x: 0,
            register_y: 0,
            status: 0,
            program_counter: 0,
            memory: Memory::new(),
            table,
        }
    }

    /// Stores `data` at `address`, outside the instruction stream.
    pub fn write_memory(&mut self, address: u16, data: u8)
        requires
            old(self).wf(),
        ensures
            final(self).wf(),
            final(self)@ == (MachineState {
                memory: old(self)@.memory.update(address as int, data),
                ..old(self)@
            }),
    {
        self.memory.write(address, data);
    }

    /// The byte stored at `address`.
    pub fn read_memory(&self, address: u16) -> (r: u8)
        requires
            self.wf(),
        ensures
            r == self@.memory[address as int],
    {
        self.memory.read(address)
    }

    /// The effective address of the operand in `mode`, its bytes starting at
    /// the program counter; an error for `NoneAddressing`.
    #[verifier::rlimit(40)]
    pub fn get_operand_address(&self, mode: &AddressingMode) -> (r: Result<u16, CpuError>)
        requires
            self.wf(),
        ensures
            r == (match operand_address(
                *mode,
                self@.program_counter,
                self@.register_x,
                self@.register_y,
                self@.memory,
            ) {
                Some(address) => Ok(address),
                None => Err(CpuError::UnsupportedAddressingMode(*mode)),
            }),
    {
        match mode {
            AddressingMode::Immediate => Ok(self.program_counter),
            AddressingMode::ZeroPage => Ok(self.memory.read(self.program_counter) as u16),
            AddressingMode::Absolute => Ok(self.memory.read_word(self.program_counter)),
            AddressingMode::ZeroPageX => {
                let position = self.memory.read(self.program_counter);
                Ok(position.wrapping_add(self.register_x) as u16)
            },
            AddressingMode::ZeroPageY => {
                let position = self.memory.read(self.program_counter);
                Ok(position.wrapping_add(self.register_y) as u16)
            },
            AddressingMode::AbsoluteX => {
                let base = self.memory.read_word(self.program_counter);
                Ok(base.wrapping_add(self.register_x as u16))
            },
            AddressingMode::AbsoluteY => {
                let base = self.memory.read_word(self.program_counter);
                Ok(base.wrapping_add(self.register_y as u16))
            },
            AddressingMode::IndirectX => {
                let base = self.memory.read(self.program_counter);
                let pointer = base.wrapping_add(self.register_x);
                let lo = self.memory.read(pointer as u16);
                let hi = self.memory.read(pointer.wrapping_add(1) as u16);
                proof {
                    lemma_word_from_bytes(lo, hi);
                }
                Ok(((hi as u16) << 8) | (lo as u16))
            },
            AddressingMode::IndirectY => {
                let base = self.memory.read(self.program_counter);
                let lo = self.memory.read(base as u16);
                let hi = self.memory.read(base.wrapping_add(1) as u16);
                proof {
                    lemma_word_from_bytes(lo, hi);
                }
                let deref_base = ((hi as u16) << 8) | (lo as u16);
                Ok(deref_base.wrapping_add(self.register_y as u16))
            },
            AddressingMode::NoneAddressing => Err(CpuError::UnsupportedAddressingMode(*mode)),
        }
    }

    /// Load accumulator: A takes the operand's byte.
    fn lda(&mut self, mode: &AddressingMode)
        requires
            old(self).wf(),
            *mode != AddressingMode::NoneAddressing,
        ensures
            final(self).wf(),
            final(self)@ == execute(Instruction::Lda, *mode, old(self)@),
    {
        let address = match self.get_operand_address(mode) {
            Ok(address) => address,
            Err(_) => return,
        };
        let value = self.memory.read(address);
        self.register_a = value;
        self.update_zero_and_negative_flags(value);
    }

    /// Store accumulator: the operand's byte takes A.
    fn sta(&mut self, mode: &AddressingMode)
        requires
            old(self).wf(),
            *mode != AddressingMode::NoneAddressing,
        ensures
            final(self).wf(),
            final(self)@ == execute(Instruction::Sta, *mode, old(self)@),
    {
        let address = match self.get_operand_address(mode) {
            Ok(address) => address,
            Err(_) => return,
        };
        self.memory.write(address, self.register_a);
    }

    /// Transfer accumulator to X.
    fn tax(&mut self)
        requires
            old(self).wf(),
        ensures
            final(self).wf(),
            final(self)@ == execute(Instruction::Tax, AddressingMode::NoneAddressing, old(self)@),
    {
        self.register_x = self.register_a;
        self.update_zero_and_negative_flags(self.register_x);
    }

    /// Sets the zero and negative flags from `result`, keeping the other bits.
    fn update_zero_and_negative_flags(&mut self, result: u8)
        requires
            old(self).wf(),
        ensures
            final(self).wf(),
            final(self)@ == (MachineState {
                status: with_zero_negative(old(self)@.status, result),
                ..old(self)@
            }),
    {
        let zero = if result == 0 {
            ZERO_FLAG
        } else {
            0
        };
        self.status = (self.status & !(ZERO_FLAG | NEGATIVE_FLAG)) | zero | (result
            & NEGATIVE_FLAG);
    }

    /// Increment X, wrapping from 0xFF to 0x00.
    fn inx(&mut self)
        requires
            old(self).wf(),
        ensures
            final(self).wf(),
            final(self)@ == execute(Instruction::Inx, AddressingMode::NoneAddressing, old(self)@),
    {
        self.register_x = self.register_x.wrapping_add(1);
        self.update_zero_and_negative_flags(self.register_x);
    }

    /// Executes the instruction at the program counter. A fault leaves the
    /// machine untouched.
    pub fn step(&mut self) -> (r: Result<StepOutcome, CpuError>)
        requires
            old(self).wf(),
        ensures
            final(self).wf(),
            match step_spec(old(self)@) {
                Ok((s, outcome)) => r == Ok::<StepOutcome, CpuError>(outcome) && final(self)@ == s,
                Err(e) => r == Err::<StepOutcome, CpuError>(e) && final(self)@ == old(self)@,
            },
    {
        let code = self.memory.read(self.program_counter);
        let opcode = match self.table.get(code) {
            Some(opcode) => opcode,
            None => return Err(CpuError::UnrecognizedOpcode(code)),
        };
        let instruction = match decode(code) {
            Some(instruction) => instruction,
            None => return Err(CpuError::NotYetImplemented(code)),
        };
        let needs_operand = match instruction {
            Instruction::Lda | Instruction::Sta => true,
            _ => false,
        };
        if needs_operand && matches!(opcode.mode, AddressingMode::NoneAddressing) {
            return Err(CpuError::UnsupportedAddressingMode(opcode.mode));
        }
        self.program_counter = self.program_counter.wrapping_add(1);
        match instruction {
            Instruction::Lda => self.lda(&opcode.mode),
            Instruction::Sta => self.sta(&opcode.mode),
            Instruction::Tax => self.tax(),
            Instruction::Inx => self.inx(),
            Instruction::Brk => return Ok(StepOutcome::Halted),
        }
        // None of these handlers redirects control flow, so each instruction
        // moves on past its operand bytes.
        self.program_counter = self.program_counter.wrapping_add((opcode.len - 1) as u16);
        Ok(StepOutcome::Continued)
    }

    /// Runs until a halt, a fault, or `max_steps` executed instructions.
    pub fn run_with_limit(&mut self, max_steps: u64) -> (r: Result<(), CpuError>)
        requires
            old(self).wf(),
        ensures
            final(self).wf(),
            (final(self)@, r) == run_spec(old(self)@, max_steps as nat),
    {
        let mut remaining: u64 = max_steps;
        loop
            invariant
                self.wf(),
                run_spec(self@, remaining as nat) == run_spec(old(self)@, max_steps as nat),
            decreases remaining,
        {
            if remaining == 0 {
                return Err(CpuError::StepLimitReached);
            }
            match self.step() {
                Err(e) => return Err(e),
                Ok(StepOutcome::Halted) => return Ok(()),
                Ok(StepOutcome::Continued) => {},
            }
            remaining = remaining - 1;
        }
    }

    /// Runs the fetch-decode-execute loop from the program counter until a
    /// halt or a fault, for at most `u64::MAX` instructions.
    pub fn run(&mut self) -> (r: Result<(), CpuError>)
        requires
            old(self).wf(),
        ensures
            final(self).wf(),
            (final(self)@, r) == run_spec(old(self)@, u64::MAX as nat),
    {
        self.run_with_limit(u64::MAX)
    }

    /// Zeroes the registers and flags and takes the program counter from the
    /// reset vector; memory is kept.
    pub fn reset(&mut self)
        requires
            old(self).wf(),
        ensures
            final(self).wf(),
            final(self)@ == reset_spec(old(self)@),
    {
        self.register_a = 0;
        self.register_x = 0;
        self.register_y = 0;
        self.status = 0;
        self.program_counter = self.memory.read_word(RESET_VECTOR);
    }

    /// Copies `program` into memory from `PROGRAM_START` on and points the
    /// reset vector at it.
    pub fn load(&mut self, program: Vec<u8>)
        requires
            old(self).wf(),
            program.len() <= MAX_PROGRAM_LEN,
        ensures
            final(self).wf(),
            final(self)@ == load_spec(old(self)@, program@),
    {
        let mut i: usize = 0;
        while i < program.len()
            invariant
                self.wf(),
                i <= program.len() <= MAX_PROGRAM_LEN,
                self@ == (MachineState { memory: self@.memory, ..old(self)@ }),
                self@.memory == Seq::new(
                    MEMORY_SIZE as nat,
                    |k: int|
                        if PROGRAM_START <= k < PROGRAM_START + i {
                            program@[k - PROGRAM_START]
                        } else {
                            old(self)@.memory[k]
                        },
                ),
            decreases program.len() - i,
        {
            self.memory.write(PROGRAM_START + i as u16, program[i]);
            i = i + 1;
            assert(self@.memory =~= Seq::new(
                MEMORY_SIZE as nat,
                |k: int|
                    if PROGRAM_START <= k < PROGRAM_START + i {
                        program@[k - PROGRAM_START]
                    } else {
                        old(self)@.memory[k]
                    },
            ));
        }
        self.memory.write_word(RESET_VECTOR, PROGRAM_START);
    }

    /// Loads `program`, resets, and runs it.
    pub fn load_and_run(&mut self, program: Vec<u8>) -> (r: Result<(), CpuError>)
        requires
            old(self).wf(),
            program.len() <= MAX_PROGRAM_LEN,
        ensures
            final(self).wf(),
            (final(self)@, r) == run_spec(
                reset_spec(load_spec(old(self)@, program@)),
                u64::MAX as nat,
            ),
    {
        self.load(program);
        self.reset();
        self.run()
    }
}

} // verus!
