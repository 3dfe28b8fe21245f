//! The mathematical model of the machine: a state made of plain values, and
//! for every operation of the processor the state that it leads to. The
//! contracts of the executable code are stated over this model.

use crate::cpu::{AddressingMode, CpuError, Progress};
use crate::opcodes::{decoded, registry, Instruction, OpCode};
use crate::status::{
    bit6, bit7, has_flag, put_flag, zero_negative, FLAG_CARRY, FLAG_DECIMAL_MODE,
    FLAG_INTERRUPT_DISABLE, FLAG_NEGATIVE, FLAG_OVERFLOW, FLAG_ZERO,
};
use vstd::prelude::*;

verus! {

/// The number of bytes that the processor can address.
pub const MEMORY_SIZE: usize = 65536;

/// Where `load` places a program.
pub const PROGRAM_START: u16 = 0x8000;

/// Where the address lies at which execution starts after a reset, low byte
/// first.
pub const RESET_VECTOR: u16 = 0xFFFC;

/// An integer reduced to a byte, modulo 256.
pub open spec fn wrap8(i: int) -> u8 {
    (i % 256) as u8
}

/// An integer reduced to an address, modulo 65536.
pub open spec fn wrap16(i: int) -> u16 {
    (i % 65536) as u16
}

/// The 16-bit value whose low byte is `lo` and whose high byte is `hi`.
pub open spec fn word(lo: u8, hi: u8) -> u16 {
    (lo + 256 * hi) as u16
}

/// A byte read as a two's complement number, from -128 to 127.
pub open spec fn signed(b: u8) -> int {
    if b < 128 {
        b as int
    } else {
        b - 256
    }
}

/// The status register after `register` was compared with `operand`: Carry
/// tells whether `register >= operand`, Zero and Negative describe the
/// difference modulo 256.
pub open spec fn compared(status: u8, register: u8, operand: u8) -> u8 {
    zero_negative(put_flag(status, FLAG_CARRY, register >= operand), wrap8(register - operand))
}

/// The status register after the bit test of `operand` against the
/// accumulator `a`: Overflow and Negative copy bits 6 and 7 of the operand,
/// Zero tells whether the two have no bit in common.
pub open spec fn bit_tested(status: u8, a: u8, operand: u8) -> u8 {
    put_flag(
        put_flag(put_flag(status, FLAG_OVERFLOW, bit6(operand)), FLAG_NEGATIVE, bit7(operand)),
        FLAG_ZERO,
        a & operand == 0,
    )
}

/// The state of the machine.
pub struct CpuState {
    /// The accumulator.
    pub a: u8,
    /// Index register X.
    pub x: u8,
    /// Index register Y.
    pub y: u8,
    /// The status register.
    pub status: u8,
    /// The program counter.
    pub pc: u16,
    /// The memory, one byte per address.
    pub mem: Seq<u8>,
}

impl CpuState {
    /// The memory covers the whole address space.
    pub open spec fn wf(self) -> bool {
        self.mem.len() == MEMORY_SIZE
    }

    /// The byte at `addr`.
    pub open spec fn read(self, addr: u16) -> u8 {
        self.mem[addr as int]
    }

    /// The 16-bit value at `addr`, low byte first; the high byte of the one
    /// at 0xFFFF is at 0x0000.
    pub open spec fn read_u16(self, addr: u16) -> u16 {
        word(self.read(addr), self.read(wrap16(addr + 1)))
    }

    /// The 16-bit value in page zero at `ptr`, low byte first; the high byte
    /// of the one at 0xFF is at 0x00.
    pub open spec fn read_zero_page_u16(self, ptr: u8) -> u16 {
        word(self.read(ptr as u16), self.read(wrap8(ptr + 1) as u16))
    }

    /// This state with `data` at `addr`.
    pub open spec fn write(self, addr: u16, data: u8) -> CpuState {
        CpuState { mem: self.mem.update(addr as int, data), ..self }
    }

    /// This state with the 16-bit `data` at `addr`, low byte first.
    pub open spec fn write_u16(self, addr: u16, data: u16) -> CpuState {
        self.write(addr, wrap8(data as int)).write(wrap16(addr + 1), (data / 256) as u8)
    }

    /// This state with another status register.
    pub open spec fn with_status(self, status: u8) -> CpuState {
        CpuState { status, ..self }
    }

    /// This state with another program counter.
    pub open spec fn with_pc(self, pc: u16) -> CpuState {
        CpuState { pc, ..self }
    }

    /// This state after the accumulator received `v`.
    pub open spec fn set_a(self, v: u8) -> CpuState {
        CpuState { a: v, status: zero_negative(self.status, v), ..self }
    }

    /// This state after X received `v`.
    pub open spec fn set_x(self, v: u8) -> CpuState {
        CpuState { x: v, status: zero_negative(self.status, v), ..self }
    }

    /// This state after Y received `v`.
    pub open spec fn set_y(self, v: u8) -> CpuState {
        CpuState { y: v, status: zero_negative(self.status, v), ..self }
    }

    /// The address of the operand of the instruction whose first operand
    /// byte the program counter points at; none where the mode names no
    /// location.
    pub open spec fn operand_address(self, mode: AddressingMode) -> Option<u16> {
        match mode {
            AddressingMode::Immediate => Some(self.pc),
            AddressingMode::ZeroPage => Some(self.read(self.pc) as u16),
            AddressingMode::ZeroPage_X => Some(wrap8(self.read(self.pc) + self.x) as u16),
            AddressingMode::ZeroPage_Y => Some(wrap8(self.read(self.pc) + self.y) as u16),
            AddressingMode::Absolute => Some(self.read_u16(self.pc)),
            AddressingMode::Absolute_X => Some(wrap16(self.read_u16(self.pc) + self.x)),
            AddressingMode::Absolute_Y => Some(wrap16(self.read_u16(self.pc) + self.y)),
            AddressingMode::Indirect_X => Some(
                self.read_zero_page_u16(wrap8(self.read(self.pc) + self.x)),
            ),
            AddressingMode::Indirect_Y => Some(
                wrap16(self.read_zero_page_u16(self.read(self.pc)) + self.y),
            ),
            AddressingMode::NoneAddressing => None,
        }
    }

    /// This state after a shift to the left of the accumulator: Carry
    /// receives the bit that leaves at the top.
    pub open spec fn shift_accumulator(self) -> CpuState {
        self.with_status(put_flag(self.status, FLAG_CARRY, bit7(self.a))).set_a(wrap8(2 * self.a))
    }

    /// This state after a shift to the left of the byte at `addr`: Carry
    /// receives the bit that leaves at the top, Negative the new bit 7. Zero
    /// is left as it was.
    pub open spec fn shift_memory(self, addr: u16) -> CpuState {
        let v = self.read(addr);
        let w = wrap8(2 * v);
        self.write(addr, w).with_status(
            put_flag(put_flag(self.status, FLAG_CARRY, bit7(v)), FLAG_NEGATIVE, bit7(w)),
        )
    }

    /// This state after the byte at `addr` was decremented, modulo 256.
    pub open spec fn decrement_memory(self, addr: u16) -> CpuState {
        let w = wrap8(self.read(addr) - 1);
        self.write(addr, w).with_status(zero_negative(self.status, w))
    }

    /// This state after a branch instruction whose condition is `taken`. The
    /// program counter points at the offset byte; a branch that is taken
    /// continues at the byte after it, moved by the offset read as a signed
    /// number, modulo 65536.
    pub open spec fn branch(self, taken: bool) -> CpuState {
        if taken {
            self.with_pc(wrap16(self.pc + 1 + signed(self.read(self.pc))))
        } else {
            self
        }
    }

    /// This state after an instruction that works on the operand at `addr`.
    pub open spec fn on_operand(self, instruction: Instruction, addr: u16) -> CpuState {
        match instruction {
            Instruction::And => self.set_a(self.a & self.read(addr)),
            Instruction::Asl => self.shift_memory(addr),
            Instruction::Bit => self.with_status(bit_tested(self.status, self.a, self.read(addr))),
            Instruction::CompareA => self.with_status(
                compared(self.status, self.a, self.read(addr)),
            ),
            Instruction::CompareX => self.with_status(
                compared(self.status, self.x, self.read(addr)),
            ),
            Instruction::CompareY => self.with_status(
                compared(self.status, self.y, self.read(addr)),
            ),
            Instruction::Dec => self.decrement_memory(addr),
            Instruction::Lda => self.set_a(self.read(addr)),
            Instruction::Ldx => self.set_x(self.read(addr)),
            Instruction::Ldy => self.set_y(self.read(addr)),
            Instruction::Sta => self.write(addr, self.a),
            _ => self,
        }
    }

    /// This state after an instruction that has no memory operand.
    pub open spec fn on_implied(self, instruction: Instruction) -> CpuState {
        match instruction {
            Instruction::AslAccumulator => self.shift_accumulator(),
            Instruction::Bcc => self.branch(!has_flag(self.status, FLAG_CARRY)),
            Instruction::Bcs => self.branch(has_flag(self.status, FLAG_CARRY)),
            Instruction::Beq => self.branch(has_flag(self.status, FLAG_ZERO)),
            Instruction::Bmi => self.branch(has_flag(self.status, FLAG_NEGATIVE)),
            Instruction::Bne => self.branch(!has_flag(self.status, FLAG_ZERO)),
            Instruction::Bpl => self.branch(!has_flag(self.status, FLAG_NEGATIVE)),
            Instruction::Bvc => self.branch(!has_flag(self.status, FLAG_OVERFLOW)),
            Instruction::Bvs => self.branch(has_flag(self.status, FLAG_OVERFLOW)),
            Instruction::Clc => self.with_status(put_flag(self.status, FLAG_CARRY, false)),
            Instruction::Cld => self.with_status(put_flag(self.status, FLAG_DECIMAL_MODE, false)),
            Instruction::Cli => self.with_status(
                put_flag(self.status, FLAG_INTERRUPT_DISABLE, false),
            ),
            Instruction::Clv => self.with_status(put_flag(self.status, FLAG_OVERFLOW, false)),
            Instruction::Dex => self.set_x(wrap8(self.x - 1)),
            Instruction::Dey => self.set_y(wrap8(self.y - 1)),
            Instruction::Inx => self.set_x(wrap8(self.x + 1)),
            Instruction::Tax => self.set_x(self.a),
            _ => self,
        }
    }

    /// The state and the result of executing the instruction that `opcode`
    /// describes, the program counter pointing at the byte after the opcode
    /// byte. An opcode byte that the core does not execute, and a memory
    /// instruction under a mode that names no location, leave the state as
    /// it is and fail.
    pub open spec fn execute(self, opcode: OpCode) -> (CpuState, Result<Progress, CpuError>) {
        match decoded(opcode.code) {
            None => (
                self,
                Err(CpuError::NotImplemented(opcode.mnemonic, opcode.code, opcode.mode)),
            ),
            Some(Instruction::Brk) => (self, Ok(Progress::Halted)),
            Some(instruction) => if instruction.takes_operand() {
                match self.operand_address(opcode.mode) {
                    Some(addr) => (self.on_operand(instruction, addr), Ok(Progress::Running)),
                    None => (self, Err(CpuError::UnsupportedAddressingMode(opcode.mode))),
                }
            } else {
                (self.on_implied(instruction), Ok(Progress::Running))
            },
        }
    }

    /// The state and the result of one round of fetch, decode and execute.
    /// The opcode byte is read at the program counter, which then moves on
    /// by one. Where the instruction ran and left the program counter there,
    /// it moves on over the operand bytes; where the instruction moved it,
    /// it stays where the instruction put it.
    pub open spec fn step(self) -> (CpuState, Result<Progress, CpuError>) {
        let code = self.read(self.pc);
        let fetched = self.with_pc(wrap16(self.pc + 1));
        match registry(code) {
            None => (fetched, Err(CpuError::UnknownOpcode(code))),
            Some(opcode) => {
                let (after, result) = fetched.execute(opcode);
                if result == Ok::<Progress, CpuError>(Progress::Running) && after.pc == fetched.pc {
                    (after.with_pc(wrap16(after.pc + opcode.len - 1)), result)
                } else {
                    (after, result)
                }
            },
        }
    }

    /// The state and the result of running for at most `steps` rounds: the
    /// machine stops at the first round that halts or fails, and is still
    /// running when the rounds are used up before that.
    pub open spec fn run(self, steps: nat) -> (CpuState, Result<Progress, CpuError>)
        decreases steps,
    {
        if steps == 0 {
            (self, Ok(Progress::Running))
        } else {
            let (next, result) = self.step();
            if result == Ok::<Progress, CpuError>(Progress::Running) {
                next.run((steps - 1) as nat)
            } else {
                (next, result)
            }
        }
    }

    /// This state after the first `count` bytes of `program` were copied to
    /// memory from `PROGRAM_START` on.
    pub open spec fn copied(self, program: Seq<u8>, count: nat) -> CpuState {
        CpuState {
            mem: Seq::new(
                self.mem.len(),
                |i: int|
                    if PROGRAM_START <= i < PROGRAM_START + count {
                        program[i - PROGRAM_START]
                    } else {
                        self.mem[i]
                    },
            ),
            ..self
        }
    }

    /// This state after `program` was copied to memory from `PROGRAM_START`
    /// on and the reset vector was pointed at it.
    pub open spec fn load(self, program: Seq<u8>) -> CpuState {
        self.copied(program, program.len()).write_u16(RESET_VECTOR, PROGRAM_START)
    }

    /// This state after a reset: the registers and the status register are
    /// zero, the program counter holds what the reset vector points at, the
    /// memory is as it was.
    pub open spec fn reset(self) -> CpuState {
        CpuState {
            a: 0,
            x: 0,
            y: 0,
            status: 0,
            pc: self.read_u16(RESET_VECTOR),
            mem: self.mem,
        }
    }
}

/// After a load the reset vector points at the start of the program, so a
/// reset that follows starts execution there.
pub proof fn lemma_load_sets_vector(s: CpuState, program: Seq<u8>)
    requires
        s.wf(),
        program.len() <= MEMORY_SIZE - PROGRAM_START,
    ensures
        s.load(program).wf(),
        s.load(program).read_u16(RESET_VECTOR) == PROGRAM_START,
        s.load(program).reset().pc == PROGRAM_START,
{
}

} // verus!
