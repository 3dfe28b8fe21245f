//! The processor: its registers and memory, the addressing-mode resolver,
//! the instruction handlers and the execution loop.

use crate::laws::{lemma_run_fails_on_unknown_opcode_only, lemma_step_fails_on_unknown_opcode_only};
use crate::opcodes::{lemma_registry_rows, registry, Instruction, OpCode};
use crate::semantics::{
    bit_tested, compared, lemma_load_sets_vector, signed, word, wrap16, wrap8, CpuState,
    MEMORY_SIZE, PROGRAM_START, RESET_VECTOR,
};
use crate::status::{
    bit7, has_flag, lemma_bit7_is_sign, lemma_compared, lemma_shift_flags,
    lemma_zero_negative, put_flag, zero_negative,
    FLAG_CARRY, FLAG_DECIMAL_MODE, FLAG_INTERRUPT_DISABLE, FLAG_NEGATIVE, FLAG_OVERFLOW,
    FLAG_ZERO,
};
use vstd::prelude::*;

verus! {

/// How an instruction finds its operand.
#[derive(Debug, Clone, Copy, PartialEq, Eq, Structural)]
#[allow(non_camel_case_types)]
pub enum AddressingMode {
    /// The operand is the byte after the opcode.
    Immediate,
    /// The byte after the opcode is an address in page zero.
    ZeroPage,
    /// Page zero, indexed by X, wrapping within the page.
    ZeroPage_X,
    /// Page zero, indexed by Y, wrapping within the page.
    ZeroPage_Y,
    /// The two bytes after the opcode are the address, low byte first.
    Absolute,
    /// Absolute, indexed by X.
    Absolute_X,
    /// Absolute, indexed by Y.
    Absolute_Y,
    /// The address is read from page zero at the operand byte plus X.
    Indirect_X,
    /// The address is read from page zero at the operand byte, then Y is added.
    Indirect_Y,
    /// Implied, accumulator or relative: there is no operand address.
    NoneAddressing,
}

/// What stops the processor for good.
#[derive(Debug, Clone, Copy, PartialEq, Eq)]
pub enum CpuError {
    /// The byte at the program counter is no opcode of the registry.
    UnknownOpcode(u8),
    /// An operand address was asked for under a mode that names no location.
    UnsupportedAddressingMode(AddressingMode),
    /// The opcode is described, by this mnemonic, opcode byte and mode, but
    /// the core does not execute it.
    NotImplemented(&'static str, u8, AddressingMode),
}

/// Where the processor stands after it ran.
#[derive(Debug, Clone, Copy, PartialEq, Eq, Structural)]
pub enum Progress {
    /// It executed BRK.
    Halted,
    /// It can go on with the next instruction.
    Running,
}

/// The most rounds that `run` executes.
pub const RUN_LIMIT: u64 = 0xFFFF_FFFF_FFFF_FFFF;

/// The processor.
pub struct CPU {
    /// The accumulator.
    pub register_a: u8,
    /// Index register X.
    pub register_x: u8,
    /// Index register Y.
    pub register_y: u8,
    /// The status register.
    pub status: u8,
    /// The address of the next byte to fetch.
    pub program_counter: u16,
    /// The memory, one byte per address.
    pub memory: [u8; 65536],
}

impl View for CPU {
    type V = CpuState;

    open spec fn view(&self) -> CpuState {
        CpuState {
            a: self.register_a,
            x: self.register_x,
            y: self.register_y,
            status: self.status,
            pc: self.program_counter,
            mem: self.memory@,
        }
    }
}

impl CPU {
    /// A processor with every register and every byte of memory at zero.
    pub fn new() -> (cpu: Self)
        ensures
            cpu@.wf(),
            cpu@ == (CpuState {
                a: 0,
                x: 0,
                y: 0,
                status: 0,
                pc: 0,
                mem: Seq::new(MEMORY_SIZE as nat, |i: int| 0u8),
            }),
    {
        let cpu = CPU {
            register_a: 0,
            register_x: 0,
            register_y: 0,
            status: 0,
            program_counter: 0,
            memory: [0; 65536],
        };
        assert(cpu.memory@ =~= Seq::new(MEMORY_SIZE as nat, |i: int| 0u8));
        cpu
    }

    /// Reads the byte at `address`.
    pub fn mem_read(&self, address: u16) -> (data: u8)
        ensures
            data == self@.read(address),
    {
        self.memory[address as usize]
    }

    /// Writes `data` at `address`.
    pub fn mem_write(&mut self, address: u16, data: u8)
        ensures
            final(self)@ == old(self)@.write(address, data),
    {
        self.memory[address as usize] = data;
    }

    /// Reads the 16-bit value at `address`, low byte first.
    pub fn mem_read_u16(&self, address: u16) -> (data: u16)
        ensures
            data == self@.read_u16(address),
    {
        let lo: u8 = self.mem_read(address);
        let hi: u8 = self.mem_read(plus16(address, 1));
        join(lo, hi)
    }

    /// Writes the 16-bit `data` at `address`, low byte first.
    pub fn mem_write_u16(&mut self, address: u16, data: u16)
        ensures
            final(self)@ == old(self)@.write_u16(address, data),
    {
        let hi: u16 = data >> 8;
        let lo: u16 = data & 0xff;
        assert(data >> 8 == data / 256 && data & 0xff == data % 256) by (bit_vector);
        self.mem_write(address, lo as u8);
        self.mem_write(plus16(address, 1), hi as u8);
    }

    /// Tells whether every flag of `flag` is set.
    pub fn check_flag(&self, flag: u8) -> (set: bool)
        ensures
            set == has_flag(self.status, flag),
    {
        self.status & flag == flag
    }

    /// Sets the flags of `flag`.
    pub fn set_flag(&mut self, flag: u8)
        ensures
            final(self)@ == old(self)@.with_status(put_flag(old(self).status, flag, true)),
    {
        self.status = self.status | flag;
    }

    /// Clears the flags of `flag`.
    pub fn clear_flag(&mut self, flag: u8)
        ensures
            final(self)@ == old(self)@.with_status(put_flag(old(self).status, flag, false)),
    {
        self.status = self.status & !flag;
    }

    /// Sets the flags of `flag` where `condition` holds, and clears them
    /// where it does not.
    pub fn set_flag_if(&mut self, flag: u8, condition: bool)
        ensures
            final(self)@ == old(self)@.with_status(put_flag(old(self).status, flag, condition)),
    {
        if condition {
            self.set_flag(flag);
        } else {
            self.clear_flag(flag);
        }
    }

    /// Sets Zero where `result` is zero, and clears it where it is not.
    pub fn update_zero_flag(&mut self, result: u8)
        ensures
            final(self)@ == old(self)@.with_status(
                put_flag(old(self).status, FLAG_ZERO, result == 0),
            ),
    {
        let condition = result == 0;
        self.set_flag_if(FLAG_ZERO, condition);
    }

    /// Copies bit 7 of `result` to Negative.
    pub fn update_negative_flag(&mut self, result: u8)
        ensures
            final(self)@ == old(self)@.with_status(
                put_flag(old(self).status, FLAG_NEGATIVE, bit7(result)),
            ),
    {
        let condition = result & FLAG_NEGATIVE != 0;
        self.set_flag_if(FLAG_NEGATIVE, condition);
    }

    /// Describes `result` in Zero and Negative: Zero is set exactly where it
    /// is zero, Negative exactly where its bit 7 is set. The other flags
    /// stay.
    pub fn update_zero_and_negative_flags(&mut self, result: u8)
        ensures
            final(self)@ == old(self)@.with_status(zero_negative(old(self).status, result)),
            has_flag(final(self).status, FLAG_ZERO) <==> result == 0,
            has_flag(final(self).status, FLAG_NEGATIVE) <==> result >= 128,
            final(self).status & 0x7D == old(self).status & 0x7D,
    {
        self.update_zero_flag(result);
        self.update_negative_flag(result);
        proof {
            lemma_zero_negative(old(self).status, result);
        }
    }

    /// Puts `value` in the accumulator and describes it in Zero and Negative.
    pub fn set_register_a(&mut self, value: u8)
        ensures
            final(self)@ == old(self)@.set_a(value),
            has_flag(final(self).status, FLAG_ZERO) <==> value == 0,
            has_flag(final(self).status, FLAG_NEGATIVE) <==> value >= 128,
    {
        self.register_a = value;
        self.update_zero_and_negative_flags(value);
    }

    /// Puts `value` in X and describes it in Zero and Negative.
    pub fn set_register_x(&mut self, value: u8)
        ensures
            final(self)@ == old(self)@.set_x(value),
            has_flag(final(self).status, FLAG_ZERO) <==> value == 0,
            has_flag(final(self).status, FLAG_NEGATIVE) <==> value >= 128,
    {
        self.register_x = value;
        self.update_zero_and_negative_flags(value);
    }

    /// Puts `value` in Y and describes it in Zero and Negative.
    pub fn set_register_y(&mut self, value: u8)
        ensures
            final(self)@ == old(self)@.set_y(value),
            has_flag(final(self).status, FLAG_ZERO) <==> value == 0,
            has_flag(final(self).status, FLAG_NEGATIVE) <==> value >= 128,
    {
        self.register_y = value;
        self.update_zero_and_negative_flags(value);
    }

    /// Points the program counter at `value`.
    pub fn set_program_counter(&mut self, value: u16)
        ensures
            final(self)@ == old(self)@.with_pc(value),
    {
        self.program_counter = value;
    }

    /// Finds the address of the operand of the instruction whose first
    /// operand byte the program counter points at. Fails under
    /// `NoneAddressing`, which names no location, and only there.
    pub fn get_operand_address(&self, mode: &AddressingMode) -> (r: Result<u16, CpuError>)
        ensures
            match self@.operand_address(*mode) {
                Some(addr) => r == Ok::<u16, CpuError>(addr),
                None => r == Err::<u16, CpuError>(CpuError::UnsupportedAddressingMode(*mode)),
            },
            r is Err <==> *mode == AddressingMode::NoneAddressing,
    {
        match mode {
            AddressingMode::Immediate => Ok(self.program_counter),
            AddressingMode::ZeroPage => Ok(self.mem_read(self.program_counter) as u16),
            AddressingMode::Absolute => Ok(self.mem_read_u16(self.program_counter)),
            AddressingMode::ZeroPage_X => {
                let pos: u8 = self.mem_read(self.program_counter);
                Ok(plus8(pos, self.register_x) as u16)
            },
            AddressingMode::ZeroPage_Y => {
                let pos: u8 = self.mem_read(self.program_counter);
                Ok(plus8(pos, self.register_y) as u16)
            },
            AddressingMode::Absolute_X => {
                let base: u16 = self.mem_read_u16(self.program_counter);
                Ok(plus16(base, self.register_x as u16))
            },
            AddressingMode::Absolute_Y => {
                let base: u16 = self.mem_read_u16(self.program_counter);
                Ok(plus16(base, self.register_y as u16))
            },
            AddressingMode::Indirect_X => {
                let base: u8 = self.mem_read(self.program_counter);
                let ptr: u8 = plus8(base, self.register_x);
                Ok(self.zero_page_read_u16(ptr))
            },
            AddressingMode::Indirect_Y => {
                let base: u8 = self.mem_read(self.program_counter);
                let deref_base: u16 = self.zero_page_read_u16(base);
                Ok(plus16(deref_base, self.register_y as u16))
            },
            AddressingMode::NoneAddressing => Err(CpuError::UnsupportedAddressingMode(*mode)),
        }
    }

    /// Reads the 16-bit value in page zero at `ptr`, low byte first, the
    /// high byte from the same page.
    fn zero_page_read_u16(&self, ptr: u8) -> (data: u16)
        ensures
            data == self@.read_zero_page_u16(ptr),
    {
        let lo: u8 = self.mem_read(ptr as u16);
        let hi: u8 = self.mem_read(plus8(ptr, 1) as u16);
        join(lo, hi)
    }
}

/// The instruction handlers. A handler of an instruction on a memory operand
/// takes the addressing mode, resolves it with the program counter at the
/// first operand byte, and fails without any effect where the mode names no
/// location.
impl CPU {
    /// AND: the accumulator keeps the bits that it shares with the operand.
    pub fn and(&mut self, mode: &AddressingMode) -> (r: Result<(), CpuError>)
        ensures
            match old(self)@.operand_address(*mode) {
                Some(addr) => r is Ok && final(self)@ == old(self)@.set_a(
                    old(self).register_a & old(self)@.read(addr),
                ),
                None => r == Err::<(), CpuError>(CpuError::UnsupportedAddressingMode(*mode))
                    && final(self)@ == old(self)@,
            },
    {
        match self.get_operand_address(mode) {
            Ok(addr) => {
                let value: u8 = self.mem_read(addr);
                self.set_register_a(self.register_a & value);
                Ok(())
            },
            Err(e) => Err(e),
        }
    }

    /// ASL on the accumulator: it is doubled modulo 256, and Carry receives
    /// the bit that left at the top.
    pub fn asl_accumulator(&mut self)
        ensures
            final(self)@ == old(self)@.shift_accumulator(),
            final(self).register_a == wrap8(2 * old(self).register_a),
            has_flag(final(self).status, FLAG_CARRY) <==> old(self).register_a >= 128,
            has_flag(final(self).status, FLAG_ZERO) <==> final(self).register_a == 0,
            has_flag(final(self).status, FLAG_NEGATIVE) <==> final(self).register_a >= 128,
    {
        let value: u8 = self.register_a;
        let (shifted, carry) = shift_left(value);
        self.set_flag_if(FLAG_CARRY, carry);
        self.set_register_a(shifted);
        proof {
            lemma_shift_flags(old(self).status, value);
        }
    }

    /// ASL on memory: the operand is doubled modulo 256, Carry receives the bit
    /// that left at the top, and Negative the new bit 7. Zero is not touched.
    pub fn asl(&mut self, mode: &AddressingMode) -> (r: Result<(), CpuError>)
        ensures
            match old(self)@.operand_address(*mode) {
                Some(addr) => r is Ok && final(self)@ == old(self)@.shift_memory(addr),
                None => r == Err::<(), CpuError>(CpuError::UnsupportedAddressingMode(*mode))
                    && final(self)@ == old(self)@,
            },
    {
        match self.get_operand_address(mode) {
            Ok(addr) => {
                let value: u8 = self.mem_read(addr);
                let (shifted, carry) = shift_left(value);
                self.set_flag_if(FLAG_CARRY, carry);
                self.mem_write(addr, shifted);
                self.update_negative_flag(shifted);
                Ok(())
            },
            Err(e) => Err(e),
        }
    }

    /// A conditional branch, with the program counter at the offset byte.
    /// Where `condition` holds execution continues at the byte after the
    /// offset, moved by the offset read as a signed number; where it does
    /// not, nothing changes.
    pub fn branch(&mut self, condition: bool)
        ensures
            final(self)@ == old(self)@.branch(condition),
    {
        if condition {
            let jump: u8 = self.mem_read(self.program_counter);
            self.program_counter = branch_target(self.program_counter, jump);
        }
    }

    /// BIT: Overflow and Negative receive bits 6 and 7 of the operand, Zero tells
    /// whether the operand and the accumulator share no bit. Registers and
    /// memory stay as they are.
    pub fn bit(&mut self, mode: &AddressingMode) -> (r: Result<(), CpuError>)
        ensures
            match old(self)@.operand_address(*mode) {
                Some(addr) => r is Ok && final(self)@ == old(self)@.with_status(
                    bit_tested(old(self).status, old(self).register_a, old(self)@.read(addr)),
                ),
                None => r == Err::<(), CpuError>(CpuError::UnsupportedAddressingMode(*mode))
                    && final(self)@ == old(self)@,
            },
            final(self).register_a == old(self).register_a,
            final(self).register_x == old(self).register_x,
            final(self).register_y == old(self).register_y,
            final(self).program_counter == old(self).program_counter,
            final(self).memory@ == old(self).memory@,
    {
        match self.get_operand_address(mode) {
            Ok(addr) => {
                let data: u8 = self.mem_read(addr);
                let masked_value: u8 = self.register_a & data;
                let overflow_bit: u8 = data & FLAG_OVERFLOW;
                let negative_bit: u8 = data & FLAG_NEGATIVE;
                self.set_flag_if(FLAG_OVERFLOW, overflow_bit != 0);
                self.set_flag_if(FLAG_NEGATIVE, negative_bit != 0);
                self.set_flag_if(FLAG_ZERO, masked_value == 0);
                Ok(())
            },
            Err(e) => Err(e),
        }
    }

    /// CMP, CPX, CPY: compares `compare_val`, the value of the register, with the
    /// operand. Carry tells whether the register is at least the operand,
    /// Zero whether the two are equal, Negative is bit 7 of their difference
    /// modulo 256.
    pub fn compare(&mut self, mode: &AddressingMode, compare_val: u8) -> (r: Result<(), CpuError>)
        ensures
            match old(self)@.operand_address(*mode) {
                Some(addr) => r is Ok && final(self)@ == old(self)@.with_status(
                    compared(old(self).status, compare_val, old(self)@.read(addr)),
                ),
                None => r == Err::<(), CpuError>(CpuError::UnsupportedAddressingMode(*mode))
                    && final(self)@ == old(self)@,
            },
            match old(self)@.operand_address(*mode) {
                Some(addr) => {
                    &&& has_flag(final(self).status, FLAG_CARRY) <==> compare_val >= old(self)@.read(
                        addr,
                    )
                    &&& has_flag(final(self).status, FLAG_ZERO) <==> compare_val == old(self)@.read(
                        addr,
                    )
                },
                None => true,
            },
    {
        match self.get_operand_address(mode) {
            Ok(addr) => {
                let data: u8 = self.mem_read(addr);
                if compare_val >= data {
                    self.set_flag(FLAG_CARRY);
                } else {
                    self.clear_flag(FLAG_CARRY);
                }
                self.update_zero_and_negative_flags(minus8(compare_val, data));
                proof {
                    lemma_compared(old(self).status, compare_val, data);
                }
                Ok(())
            },
            Err(e) => Err(e),
        }
    }

    /// DEC: the operand is decremented modulo 256 and described in Zero and
    /// Negative.
    pub fn dec(&mut self, mode: &AddressingMode) -> (r: Result<(), CpuError>)
        ensures
            match old(self)@.operand_address(*mode) {
                Some(addr) => r is Ok && final(self)@ == old(self)@.decrement_memory(addr),
                None => r == Err::<(), CpuError>(CpuError::UnsupportedAddressingMode(*mode))
                    && final(self)@ == old(self)@,
            },
    {
        match self.get_operand_address(mode) {
            Ok(addr) => {
                let result: u8 = minus8(self.mem_read(addr), 1);
                self.mem_write(addr, result);
                self.update_zero_and_negative_flags(result);
                Ok(())
            },
            Err(e) => Err(e),
        }
    }

    /// DEX: X is decremented modulo 256 and described in Zero and Negative.
    pub fn dex(&mut self)
        ensures
            final(self)@ == old(self)@.set_x(wrap8(old(self).register_x - 1)),
            has_flag(final(self).status, FLAG_ZERO) <==> final(self).register_x == 0,
            has_flag(final(self).status, FLAG_NEGATIVE) <==> final(self).register_x >= 128,
    {
        let result: u8 = minus8(self.register_x, 1);
        self.set_register_x(result);
    }

    /// DEY: Y is decremented modulo 256 and described in Zero and Negative.
    pub fn dey(&mut self)
        ensures
            final(self)@ == old(self)@.set_y(wrap8(old(self).register_y - 1)),
            has_flag(final(self).status, FLAG_ZERO) <==> final(self).register_y == 0,
            has_flag(final(self).status, FLAG_NEGATIVE) <==> final(self).register_y >= 128,
    {
        let result: u8 = minus8(self.register_y, 1);
        self.set_register_y(result);
    }

    /// LDA: the accumulator receives the operand. Zero is set exactly where the
    /// operand is zero, Negative exactly where its bit 7 is set.
    pub fn lda(&mut self, mode: &AddressingMode) -> (r: Result<(), CpuError>)
        ensures
            match old(self)@.operand_address(*mode) {
                Some(addr) => r is Ok && final(self)@ == old(self)@.set_a(old(self)@.read(addr)),
                None => r == Err::<(), CpuError>(CpuError::UnsupportedAddressingMode(*mode))
                    && final(self)@ == old(self)@,
            },
            match old(self)@.operand_address(*mode) {
                Some(addr) => {
                    &&& final(self).register_a == old(self)@.read(addr)
                    &&& has_flag(final(self).status, FLAG_ZERO) <==> old(self)@.read(addr) == 0
                    &&& has_flag(final(self).status, FLAG_NEGATIVE) <==> bit7(old(self)@.read(addr))
                    &&& !(has_flag(final(self).status, FLAG_ZERO) && has_flag(
                        final(self).status,
                        FLAG_NEGATIVE,
                    ))
                },
                None => true,
            },
    {
        match self.get_operand_address(mode) {
            Ok(addr) => {
                let value: u8 = self.mem_read(addr);
                self.set_register_a(value);
                proof {
                    lemma_bit7_is_sign(value);
                }
                Ok(())
            },
            Err(e) => Err(e),
        }
    }

    /// LDX: X receives the operand. Zero is set exactly where the
    /// operand is zero, Negative exactly where its bit 7 is set.
    pub fn ldx(&mut self, mode: &AddressingMode) -> (r: Result<(), CpuError>)
        ensures
            match old(self)@.operand_address(*mode) {
                Some(addr) => r is Ok && final(self)@ == old(self)@.set_x(old(self)@.read(addr)),
                None => r == Err::<(), CpuError>(CpuError::UnsupportedAddressingMode(*mode))
                    && final(self)@ == old(self)@,
            },
            match old(self)@.operand_address(*mode) {
                Some(addr) => {
                    &&& final(self).register_x == old(self)@.read(addr)
                    &&& has_flag(final(self).status, FLAG_ZERO) <==> old(self)@.read(addr) == 0
                    &&& has_flag(final(self).status, FLAG_NEGATIVE) <==> bit7(old(self)@.read(addr))
                    &&& !(has_flag(final(self).status, FLAG_ZERO) && has_flag(
                        final(self).status,
                        FLAG_NEGATIVE,
                    ))
                },
                None => true,
            },
    {
        match self.get_operand_address(mode) {
            Ok(addr) => {
                let value: u8 = self.mem_read(addr);
                self.set_register_x(value);
                proof {
                    lemma_bit7_is_sign(value);
                }
                Ok(())
            },
            Err(e) => Err(e),
        }
    }

    /// LDY: Y receives the operand. Zero is set exactly where the
    /// operand is zero, Negative exactly where its bit 7 is set.
    pub fn ldy(&mut self, mode: &AddressingMode) -> (r: Result<(), CpuError>)
        ensures
            match old(self)@.operand_address(*mode) {
                Some(addr) => r is Ok && final(self)@ == old(self)@.set_y(old(self)@.read(addr)),
                None => r == Err::<(), CpuError>(CpuError::UnsupportedAddressingMode(*mode))
                    && final(self)@ == old(self)@,
            },
            match old(self)@.operand_address(*mode) {
                Some(addr) => {
                    &&& final(self).register_y == old(self)@.read(addr)
                    &&& has_flag(final(self).status, FLAG_ZERO) <==> old(self)@.read(addr) == 0
                    &&& has_flag(final(self).status, FLAG_NEGATIVE) <==> bit7(old(self)@.read(addr))
                    &&& !(has_flag(final(self).status, FLAG_ZERO) && has_flag(
                        final(self).status,
                        FLAG_NEGATIVE,
                    ))
                },
                None => true,
            },
    {
        match self.get_operand_address(mode) {
            Ok(addr) => {
                let value: u8 = self.mem_read(addr);
                self.set_register_y(value);
                proof {
                    lemma_bit7_is_sign(value);
                }
                Ok(())
            },
            Err(e) => Err(e),
        }
    }

    /// STA: the operand receives the accumulator. No flag changes.
    pub fn sta(&mut self, mode: &AddressingMode) -> (r: Result<(), CpuError>)
        ensures
            match old(self)@.operand_address(*mode) {
                Some(addr) => r is Ok && final(self)@ == old(self)@.write(addr, old(self).register_a),
                None => r == Err::<(), CpuError>(CpuError::UnsupportedAddressingMode(*mode))
                    && final(self)@ == old(self)@,
            },
    {
        match self.get_operand_address(mode) {
            Ok(addr) => {
                self.mem_write(addr, self.register_a);
                Ok(())
            },
            Err(e) => Err(e),
        }
    }

    /// TAX: X receives the accumulator and is described in Zero and Negative.
    pub fn tax(&mut self)
        ensures
            final(self)@ == old(self)@.set_x(old(self).register_a),
            has_flag(final(self).status, FLAG_ZERO) <==> final(self).register_x == 0,
            has_flag(final(self).status, FLAG_NEGATIVE) <==> final(self).register_x >= 128,
    {
        self.register_x = self.register_a;
        self.update_zero_and_negative_flags(self.register_x);
    }

    /// INX: X is incremented modulo 256 and described in Zero and Negative.
    pub fn inx(&mut self)
        ensures
            final(self)@ == old(self)@.set_x(wrap8(old(self).register_x + 1)),
            has_flag(final(self).status, FLAG_ZERO) <==> final(self).register_x == 0,
            has_flag(final(self).status, FLAG_NEGATIVE) <==> final(self).register_x >= 128,
    {
        self.register_x = plus8(self.register_x, 1);
        self.update_zero_and_negative_flags(self.register_x);
    }
}

/// The execution engine.
impl CPU {
    /// Executes the instruction that `opcode` describes, with the program
    /// counter at the byte after the opcode byte. Fails with
    /// `NotImplemented` where the core does not execute the opcode byte, and
    /// with `UnsupportedAddressingMode` where the instruction needs an
    /// operand and the mode names no location; the machine is then as it
    /// was.
    pub fn execute(&mut self, opcode: &OpCode) -> (r: Result<Progress, CpuError>)
        ensures
            (final(self)@, r) == old(self)@.execute(*opcode),
    {
        let mode: AddressingMode = opcode.mode;
        match Instruction::decode(opcode.code) {
            None => Err(CpuError::NotImplemented(opcode.mnemonic, opcode.code, opcode.mode)),
            Some(Instruction::Brk) => Ok(Progress::Halted),
            Some(Instruction::And) => running(self.and(&mode)),
            Some(Instruction::AslAccumulator) => {
                self.asl_accumulator();
                Ok(Progress::Running)
            },
            Some(Instruction::Asl) => running(self.asl(&mode)),
            Some(Instruction::Bcc) => {
                self.branch(!self.check_flag(FLAG_CARRY));
                Ok(Progress::Running)
            },
            Some(Instruction::Bcs) => {
                self.branch(self.check_flag(FLAG_CARRY));
                Ok(Progress::Running)
            },
            Some(Instruction::Beq) => {
                self.branch(self.check_flag(FLAG_ZERO));
                Ok(Progress::Running)
            },
            Some(Instruction::Bmi) => {
                self.branch(self.check_flag(FLAG_NEGATIVE));
                Ok(Progress::Running)
            },
            Some(Instruction::Bne) => {
                self.branch(!self.check_flag(FLAG_ZERO));
                Ok(Progress::Running)
            },
            Some(Instruction::Bpl) => {
                self.branch(!self.check_flag(FLAG_NEGATIVE));
                Ok(Progress::Running)
            },
            Some(Instruction::Bvc) => {
                self.branch(!self.check_flag(FLAG_OVERFLOW));
                Ok(Progress::Running)
            },
            Some(Instruction::Bvs) => {
                self.branch(self.check_flag(FLAG_OVERFLOW));
                Ok(Progress::Running)
            },
            Some(Instruction::Bit) => running(self.bit(&mode)),
            Some(Instruction::Clc) => {
                self.clear_flag(FLAG_CARRY);
                Ok(Progress::Running)
            },
            Some(Instruction::Cld) => {
                self.clear_flag(FLAG_DECIMAL_MODE);
                Ok(Progress::Running)
            },
            Some(Instruction::Cli) => {
                self.clear_flag(FLAG_INTERRUPT_DISABLE);
                Ok(Progress::Running)
            },
            Some(Instruction::Clv) => {
                self.clear_flag(FLAG_OVERFLOW);
                Ok(Progress::Running)
            },
            Some(Instruction::CompareA) => running(self.compare(&mode, self.register_a)),
            Some(Instruction::CompareX) => running(self.compare(&mode, self.register_x)),
            Some(Instruction::CompareY) => running(self.compare(&mode, self.register_y)),
            Some(Instruction::Dec) => running(self.dec(&mode)),
            Some(Instruction::Dex) => {
                self.dex();
                Ok(Progress::Running)
            },
            Some(Instruction::Dey) => {
                self.dey();
                Ok(Progress::Running)
            },
            Some(Instruction::Lda) => running(self.lda(&mode)),
            Some(Instruction::Ldx) => running(self.ldx(&mode)),
            Some(Instruction::Ldy) => running(self.ldy(&mode)),
            Some(Instruction::Sta) => running(self.sta(&mode)),
            Some(Instruction::Tax) => {
                self.tax();
                Ok(Progress::Running)
            },
            Some(Instruction::Inx) => {
                self.inx();
                Ok(Progress::Running)
            },
        }
    }

    /// One round of fetch, decode and execute. Reads the opcode byte at the
    /// program counter and moves the program counter past it. Fails with
    /// `UnknownOpcode` where the registry does not list the byte. Else the
    /// instruction is executed, and where it ran and left the program
    /// counter alone, the program counter moves on over its operand bytes.
    pub fn step(&mut self) -> (r: Result<Progress, CpuError>)
        ensures
            (final(self)@, r) == old(self)@.step(),
            r is Err <==> registry(old(self)@.read(old(self).program_counter)) is None,
            r is Err ==> r == Err::<Progress, CpuError>(
                CpuError::UnknownOpcode(old(self)@.read(old(self).program_counter)),
            ),
    {
        proof {
            lemma_step_fails_on_unknown_opcode_only(old(self)@);
        }
        let code: u8 = self.mem_read(self.program_counter);
        self.program_counter = plus16(self.program_counter, 1);
        let program_counter_state: u16 = self.program_counter;
        match OpCode::lookup(code) {
            None => Err(CpuError::UnknownOpcode(code)),
            Some(opcode) => {
                let r = self.execute(&opcode);
                match r {
                    Ok(Progress::Running) => {
                        if self.program_counter == program_counter_state {
                            proof {
                                lemma_registry_rows(code);
                            }
                            self.program_counter = plus16(
                                self.program_counter,
                                (opcode.len - 1) as u16,
                            );
                        }
                    },
                    _ => {},
                }
                r
            },
        }
    }

    /// Runs for at most `steps` rounds. Stops at the first round that halts
    /// or fails, and returns `Running` where none did.
    pub fn run_for(&mut self, steps: u64) -> (r: Result<Progress, CpuError>)
        ensures
            (final(self)@, r) == old(self)@.run(steps as nat),
            match r {
                Ok(_) => true,
                Err(e) => e is UnknownOpcode,
            },
    {
        proof {
            lemma_run_fails_on_unknown_opcode_only(old(self)@, steps as nat);
        }
        let mut left: u64 = steps;
        while left > 0
            invariant
                old(self)@.run(steps as nat) == self@.run(left as nat),
            decreases left,
        {
            let r = self.step();
            match r {
                Ok(Progress::Running) => {},
                _ => {
                    return r;
                },
            }
            left = left - 1;
        }
        Ok(Progress::Running)
    }

    /// Runs until BRK halts the machine or an instruction fails, for at most
    /// `RUN_LIMIT` rounds.
    pub fn run(&mut self) -> (r: Result<Progress, CpuError>)
        ensures
            (final(self)@, r) == old(self)@.run(RUN_LIMIT as nat),
            match r {
                Ok(_) => true,
                Err(e) => e is UnknownOpcode,
            },
    {
        self.run_for(RUN_LIMIT)
    }

    /// Sets the registers and the status register to zero and points the
    /// program counter at the address in the reset vector. The memory stays
    /// as it is.
    pub fn reset(&mut self)
        ensures
            final(self)@ == old(self)@.reset(),
    {
        self.register_a = 0;
        self.register_x = 0;
        self.register_y = 0;
        self.status = 0;
        self.program_counter = self.mem_read_u16(RESET_VECTOR);
    }

    /// Copies `program` to memory from `PROGRAM_START` on and points the
    /// reset vector at it. The program must fit between `PROGRAM_START` and
    /// the end of memory; where it reaches as far as the reset vector, the
    /// vector replaces its two bytes there.
    pub fn load(&mut self, program: Vec<u8>)
        requires
            program@.len() <= MEMORY_SIZE - PROGRAM_START,
        ensures
            final(self)@ == old(self)@.load(program@),
    {
        let n: usize = program.len();
        let mut i: usize = 0;
        assert(self.memory@ =~= old(self)@.copied(program@, 0).mem);
        while i < n
            invariant
                n == program@.len(),
                n <= MEMORY_SIZE - PROGRAM_START,
                i <= n,
                self@ == old(self)@.copied(program@, i as nat),
            decreases n - i,
        {
            self.memory[PROGRAM_START as usize + i] = program[i];
            assert(self.memory@ =~= old(self)@.copied(program@, (i + 1) as nat).mem);
            i = i + 1;
        }
        self.mem_write_u16(RESET_VECTOR, PROGRAM_START);
    }

    /// Loads `program` and resets the machine.
    pub fn load_and_reset(&mut self, program: Vec<u8>)
        requires
            program@.len() <= MEMORY_SIZE - PROGRAM_START,
        ensures
            final(self)@ == old(self)@.load(program@).reset(),
            final(self).program_counter == PROGRAM_START,
    {
        self.load(program);
        self.reset();
        proof {
            lemma_load_sets_vector(old(self)@, program@);
        }
    }

    /// Loads `program`, resets the machine and runs it.
    pub fn load_and_run(&mut self, program: Vec<u8>) -> (r: Result<Progress, CpuError>)
        requires
            program@.len() <= MEMORY_SIZE - PROGRAM_START,
        ensures
            (final(self)@, r) == old(self)@.load(program@).reset().run(RUN_LIMIT as nat),
            match r {
                Ok(_) => true,
                Err(e) => e is UnknownOpcode,
            },
    {
        self.load(program);
        self.reset();
        self.run()
    }
}

/// Joins a low and a high byte to a 16-bit value.
fn join(lo: u8, hi: u8) -> (w: u16)
    ensures
        w == word(lo, hi),
{
    assert((((hi as u16) << 8) | (lo as u16)) == (lo as u16) + 256 * (hi as u16)) by (bit_vector);
    ((hi as u16) << 8) | (lo as u16)
}

/// Doubles a byte modulo 256 and tells whether its bit 7 was set.
fn shift_left(value: u8) -> (out: (u8, bool))
    ensures
        out.0 == wrap8(2 * value),
        out.1 == bit7(value),
{
    assert((value >> 7 == 1) == (value & 0x80 != 0) && (value << 1) == (2 * value) % 256)
        by (bit_vector);
    (value << 1, value >> 7 == 1)
}

/// The result of a round whose instruction was a handler with result `r`.
fn running(r: Result<(), CpuError>) -> (out: Result<Progress, CpuError>)
    ensures
        out == match r {
            Ok(_) => Ok::<Progress, CpuError>(Progress::Running),
            Err(e) => Err::<Progress, CpuError>(e),
        },
{
    match r {
        Ok(_) => Ok(Progress::Running),
        Err(e) => Err(e),
    }
}

/// The sum of two bytes, modulo 256.
fn plus8(a: u8, b: u8) -> (sum: u8)
    ensures
        sum == wrap8(a + b),
{
    a.wrapping_add(b)
}

/// The difference of two bytes, modulo 256.
fn minus8(a: u8, b: u8) -> (difference: u8)
    ensures
        difference == wrap8(a - b),
{
    a.wrapping_sub(b)
}

/// The sum of two addresses, modulo 65536.
fn plus16(a: u16, b: u16) -> (sum: u16)
    ensures
        sum == wrap16(a + b),
{
    a.wrapping_add(b)
}

/// Where a branch that is taken continues: at the byte after the offset
/// byte at `pc`, moved by `jump` read as a signed number.
fn branch_target(pc: u16, jump: u8) -> (target: u16)
    ensures
        target == wrap16(pc + 1 + signed(jump)),
{
    let next: u16 = pc.wrapping_add(1);
    if jump < 128 {
        next.wrapping_add(jump as u16)
    } else {
        next.wrapping_sub(256 - jump as u16)
    }
}

} // verus!
