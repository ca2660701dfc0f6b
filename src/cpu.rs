use vstd::prelude::*;

use crate::flags::{flags_for, NEGATIVE_FLAG, ZERO_FLAG};

verus! {

/// Size in bytes of the processor's directly addressable memory.
pub const RAM_SIZE: usize = 2048;

/// The opcode that halts the run loop.
pub const OP_BRK: u8 = 0x00;

/// Load the immediate operand into the accumulator.
pub const OP_LDA: u8 = 0xA9;

/// Copy the accumulator into index register X.
pub const OP_TAX: u8 = 0xAA;

/// Increment index register X, wrapping from 0xFF to 0x00.
pub const OP_INX: u8 = 0xE8;

/// Why a run stopped without reaching a halt opcode.
#[derive(Debug, Clone, Copy, PartialEq, Eq, Structural)]
pub enum CpuError {
    /// The fetched opcode byte has no entry in the instruction table.
    UnimplementedOpcode(u8),
    /// The program counter, or an operand read, addressed a byte beyond the
    /// instruction stream, or would have been moved past address 0xFFFF.
    OutOfBoundsAccess,
}

/// The instructions known to the dispatcher.
#[derive(Debug, Clone, Copy, PartialEq, Eq, Structural)]
pub enum Instruction {
    Brk,
    Lda,
    Tax,
    Inx,
}

/// The instruction table: which instruction an opcode byte stands for.
pub open spec fn decoded(op: u8) -> Option<Instruction> {
    if op == OP_BRK {
        Some(Instruction::Brk)
    } else if op == OP_LDA {
        Some(Instruction::Lda)
    } else if op == OP_TAX {
        Some(Instruction::Tax)
    } else if op == OP_INX {
        Some(Instruction::Inx)
    } else {
        None
    }
}

impl Instruction {
    /// Looks an opcode byte up in the instruction table.
    pub fn decode(op: u8) -> (r: Option<Instruction>)
        ensures
            r == decoded(op),
    {
        match op {
            OP_BRK => Some(Instruction::Brk),
            OP_LDA => Some(Instruction::Lda),
            OP_TAX => Some(Instruction::Tax),
            OP_INX => Some(Instruction::Inx),
            _ => None,
        }
    }

    pub open spec fn spec_operand_width(self) -> u16 {
        match self {
            Instruction::Lda => 1,
            _ => 0,
        }
    }

    /// How many operand bytes follow the opcode in the instruction stream.
    pub fn operand_width(&self) -> (w: u16)
        ensures
            w == self.spec_operand_width(),
    {
        match self {
            Instruction::Lda => 1,
            _ => 0,
        }
    }
}

/// How a run continues after one instruction.
#[derive(Debug, Clone, Copy, PartialEq, Eq, Structural)]
pub enum Flow {
    /// Fetch the next opcode.
    Running,
    /// A halt opcode was reached.
    Halted,
    /// The run failed and must not go on.
    Failed(CpuError),
}

/// The processor: its memory, register file and status byte.
pub struct CPU {
    pub ram: [u8; RAM_SIZE],
    pub pc: u16,
    pub reg_a: u8,
    pub reg_x: u8,
    pub reg_y: u8,
    /// Bit 0 carry, 1 zero, 2 interrupt disable, 3 decimal mode, 4 break,
    /// 5 unused, 6 overflow, 7 negative.
    pub status: u8,
}

/// `c` with its program counter set to `pc`.
pub open spec fn with_pc(c: CPU, pc: u16) -> CPU {
    CPU { pc, ..c }
}

/// `c` with `r` written to the accumulator and the flags recomputed from it.
pub open spec fn loaded_a(c: CPU, r: u8) -> CPU {
    CPU { reg_a: r, status: flags_for(c.status, r), ..c }
}

/// `c` with `r` written to index register X and the flags recomputed from it.
pub open spec fn loaded_x(c: CPU, r: u8) -> CPU {
    CPU { reg_x: r, status: flags_for(c.status, r), ..c }
}

/// The byte after `x` in 8-bit wraparound arithmetic.
pub open spec fn wrapping_inc(x: u8) -> u8 {
    ((x as int + 1) % 256) as u8
}

/// Whether the byte at `pc` can be read and the program counter moved past it.
pub open spec fn can_fetch(program: Seq<u8>, pc: u16) -> bool {
    pc < program.len() && pc < 0xFFFF
}

/// The effect of an instruction whose opcode has been fetched, on a processor
/// whose program counter already stands past that opcode.
pub open spec fn executed(c: CPU, ins: Instruction, program: Seq<u8>) -> (CPU, Flow) {
    match ins {
        Instruction::Brk => (c, Flow::Halted),
        Instruction::Lda => if can_fetch(program, c.pc) {
            (loaded_a(with_pc(c, (c.pc + 1) as u16), program[c.pc as int]), Flow::Running)
        } else {
            (c, Flow::Failed(CpuError::OutOfBoundsAccess))
        },
        Instruction::Tax => (loaded_x(c, c.reg_a), Flow::Running),
        Instruction::Inx => (loaded_x(c, wrapping_inc(c.reg_x)), Flow::Running),
    }
}

/// One fetch, decode and execute: the processor after it, and how the run
/// continues.
pub open spec fn stepped(c: CPU, program: Seq<u8>) -> (CPU, Flow) {
    if !can_fetch(program, c.pc) {
        (c, Flow::Failed(CpuError::OutOfBoundsAccess))
    } else {
        let op = program[c.pc as int];
        let fetched = with_pc(c, (c.pc + 1) as u16);
        match decoded(op) {
            Some(ins) => executed(fetched, ins, program),
            None => (fetched, Flow::Failed(CpuError::UnimplementedOpcode(op))),
        }
    }
}

/// Steps from `c` until a halt opcode or a failure: the final processor and
/// the outcome of the run.
pub open spec fn run_from(c: CPU, program: Seq<u8>) -> (CPU, Result<(), CpuError>)
    decreases 0x10000 - c.pc,
{
    let (next, flow) = stepped(c, program);
    match flow {
        Flow::Halted => (next, Ok(())),
        Flow::Failed(e) => (next, Err(e)),
        Flow::Running => run_from(next, program),
    }
}

/// The outcome of running `program` on `c`: the program counter starts at 0,
/// registers, flags and memory start as they are in `c`.
pub open spec fn run(c: CPU, program: Seq<u8>) -> (CPU, Result<(), CpuError>) {
    run_from(with_pc(c, 0), program)
}

impl CPU {
    /// A processor with memory, registers and status byte all zero.
    pub fn new() -> (c: CPU)
        ensures
            forall|i: int| 0 <= i < RAM_SIZE ==> c.ram@[i] == 0,
            c.pc == 0,
            c.reg_a == 0,
            c.reg_x == 0,
            c.reg_y == 0,
            c.status == 0,
    {
        CPU { ram: [0u8; RAM_SIZE], pc: 0, reg_a: 0, reg_x: 0, reg_y: 0, status: 0 }
    }

    /// Reads the byte at the program counter and moves the counter past it.
    fn next_byte(&mut self, program: &Vec<u8>) -> (r: Result<u8, CpuError>)
        ensures
            can_fetch(program@, old(self).pc) ==> r == Ok::<u8, CpuError>(
                program@[old(self).pc as int],
            ) && *final(self) == with_pc(*old(self), (old(self).pc + 1) as u16),
            !can_fetch(program@, old(self).pc) ==> r == Err::<u8, CpuError>(
                CpuError::OutOfBoundsAccess,
            ) && *final(self) == *old(self),
    {
        if self.pc as usize >= program.len() || self.pc == 0xFFFF {
            return Err(CpuError::OutOfBoundsAccess);
        }
        let b = program[self.pc as usize];
        self.pc = self.pc + 1;
        Ok(b)
    }

    /// Sets the Zero flag exactly when `result` is zero and the Negative flag
    /// to bit 7 of `result`; the other status bits are kept.
    fn update_zero_and_negative_flags(&mut self, result: u8)
        ensures
            *final(self) == (CPU { status: flags_for(old(self).status, result), ..*old(self) }),
    {
        let ghost s = self.status;
        if result == 0 {
            self.status = self.status | ZERO_FLAG;
        } else {
            self.status = self.status & !ZERO_FLAG;
        }
        if result & NEGATIVE_FLAG != 0 {
            self.status = self.status | NEGATIVE_FLAG;
        } else {
            self.status = self.status & !NEGATIVE_FLAG;
        }
        proof {
            if result == 0 {
                assert(((s | 0x02) & !0x80u8) == (s & 0x7d) | 0x02u8 | (result & 0x80)) by (bit_vector)
                    requires result == 0;
                assert(result & 0x80 == 0) by (bit_vector) requires result == 0;
            } else if result & 0x80 != 0 {
                assert(((s & !0x02u8) | 0x80) == (s & 0x7d) | 0u8 | (result & 0x80)) by (bit_vector)
                    requires result & 0x80 != 0;
            } else {
                assert(((s & !0x02u8) & !0x80u8) == (s & 0x7d) | 0u8 | (result & 0x80)) by (bit_vector)
                    requires result & 0x80 == 0;
            }
        }
    }

    /// LDA: loads `value` into the accumulator.
    fn lda(&mut self, value: u8)
        ensures
            *final(self) == loaded_a(*old(self), value),
    {
        self.reg_a = value;
        self.update_zero_and_negative_flags(self.reg_a);
    }

    /// TAX: copies the accumulator into index register X.
    fn tax(&mut self)
        ensures
            *final(self) == loaded_x(*old(self), old(self).reg_a),
    {
        self.reg_x = self.reg_a;
        self.update_zero_and_negative_flags(self.reg_x);
    }

    /// INX: increments index register X with wraparound.
    fn inx(&mut self)
        ensures
            *final(self) == loaded_x(*old(self), wrapping_inc(old(self).reg_x)),
    {
        self.reg_x = self.reg_x.wrapping_add(1);
        self.update_zero_and_negative_flags(self.reg_x);
    }

    /// Fetches, decodes and executes one instruction of `program`.
    fn step(&mut self, program: &Vec<u8>) -> (f: Flow)
        ensures
            (*final(self), f) == stepped(*old(self), program@),
    {
        let op = match self.next_byte(program) {
            Ok(b) => b,
            Err(e) => return Flow::Failed(e),
        };
        match Instruction::decode(op) {
            Some(Instruction::Brk) => Flow::Halted,
            Some(Instruction::Lda) => match self.next_byte(program) {
                Ok(param) => {
                    self.lda(param);
                    Flow::Running
                },
                Err(e) => Flow::Failed(e),
            },
            Some(Instruction::Tax) => {
                self.tax();
                Flow::Running
            },
            Some(Instruction::Inx) => {
                self.inx();
                Flow::Running
            },
            None => Flow::Failed(CpuError::UnimplementedOpcode(op)),
        }
    }

    /// Runs `program` from its first byte until a halt opcode (`Ok`) or a
    /// failure (`Err`). Only the program counter is reset first: registers
    /// and flags carry over from earlier runs.
    pub fn interpret(&mut self, program: Vec<u8>) -> (r: Result<(), CpuError>)
        ensures
            *final(self) == run(*old(self), program@).0,
            r == run(*old(self), program@).1,
    {
        self.pc = 0;
        loop
            invariant
                run_from(*self, program@) == run(*old(self), program@),
            decreases 0x10000 - self.pc,
        {
            match self.step(&program) {
                Flow::Running => {},
                Flow::Halted => return Ok(()),
                Flow::Failed(e) => return Err(e),
            }
        }
    }
}

} // verus!
