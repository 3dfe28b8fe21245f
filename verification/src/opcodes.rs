//! The opcode registry: what each opcode byte is called, how long its
//! instruction is, how many cycles it takes at least, and how it finds its
//! operand; and the decoder from opcode byte to instruction.

use crate::cpu::AddressingMode;
use vstd::prelude::*;

verus! {

/// The description of one opcode.
#[derive(Debug, Clone, Copy, PartialEq, Eq)]
pub struct OpCode {
    /// The opcode byte.
    pub code: u8,
    /// The assembler's three-letter name of the instruction.
    pub mnemonic: &'static str,
    /// The opcode byte and its operand bytes, counted together.
    pub len: u8,
    /// The cycles the instruction takes before any page-crossing penalty.
    /// Carried for the host; execution does not consume it.
    pub cycles: u8,
    /// How the instruction finds its operand.
    pub mode: AddressingMode,
}

/// The instructions that the core executes.
#[derive(Debug, Clone, Copy, PartialEq, Eq)]
pub enum Instruction {
    /// AND: the accumulator and-ed with the operand.
    And,
    /// ASL on the accumulator.
    AslAccumulator,
    /// ASL on a memory cell.
    Asl,
    /// BCC: branch when Carry is clear.
    Bcc,
    /// BCS: branch when Carry is set.
    Bcs,
    /// BEQ: branch when Zero is set.
    Beq,
    /// BMI: branch when Negative is set.
    Bmi,
    /// BNE: branch when Zero is clear.
    Bne,
    /// BPL: branch when Negative is clear.
    Bpl,
    /// BVC: branch when Overflow is clear.
    Bvc,
    /// BVS: branch when Overflow is set.
    Bvs,
    /// BIT: test the operand against the accumulator.
    Bit,
    /// CLC: clear Carry.
    Clc,
    /// CLD: clear Decimal.
    Cld,
    /// CLI: clear InterruptDisable.
    Cli,
    /// CLV: clear Overflow.
    Clv,
    /// CMP: compare the accumulator with the operand.
    CompareA,
    /// CPX: compare X with the operand.
    CompareX,
    /// CPY: compare Y with the operand.
    CompareY,
    /// DEC: decrement a memory cell.
    Dec,
    /// DEX: decrement X.
    Dex,
    /// DEY: decrement Y.
    Dey,
    /// LDA: load the accumulator.
    Lda,
    /// LDX: load X.
    Ldx,
    /// LDY: load Y.
    Ldy,
    /// STA: store the accumulator.
    Sta,
    /// TAX: copy the accumulator to X.
    Tax,
    /// INX: increment X.
    Inx,
    /// BRK: halt.
    Brk,
}

/// One row of the registry.
pub open spec fn row(code: u8, mnemonic: &'static str, len: u8, cycles: u8, mode: AddressingMode) -> Option<OpCode> {
    Some(OpCode { code, mnemonic, len, cycles, mode })
}

/// The registry, as a table from opcode byte to description. A byte that it
/// does not list is no opcode of this core.
pub open spec fn registry(code: u8) -> Option<OpCode> {
    match code {
        0x00 => row(0x00, "BRK", 1, 7, AddressingMode::NoneAddressing),
        0x06 => row(0x06, "ASL", 2, 5, AddressingMode::ZeroPage),
        0x0A => row(0x0A, "ASL", 1, 2, AddressingMode::NoneAddressing),
        0x0E => row(0x0E, "ASL", 3, 6, AddressingMode::Absolute),
        0x10 => row(0x10, "BPL", 2, 2, AddressingMode::NoneAddressing),
        0x16 => row(0x16, "ASL", 2, 6, AddressingMode::ZeroPage_X),
        0x18 => row(0x18, "CLC", 1, 2, AddressingMode::NoneAddressing),
        0x1E => row(0x1E, "ASL", 3, 7, AddressingMode::Absolute_X),
        0x21 => row(0x21, "AND", 2, 6, AddressingMode::Indirect_X),
        0x24 => row(0x24, "BIT", 2, 3, AddressingMode::ZeroPage),
        0x25 => row(0x25, "AND", 2, 3, AddressingMode::ZeroPage),
        0x29 => row(0x29, "AND", 2, 2, AddressingMode::Immediate),
        0x2C => row(0x2C, "BIT", 3, 4, AddressingMode::Absolute),
        0x2D => row(0x2D, "AND", 3, 4, AddressingMode::Absolute),
        0x30 => row(0x30, "BMI", 2, 2, AddressingMode::NoneAddressing),
        0x31 => row(0x31, "AND", 2, 5, AddressingMode::Indirect_Y),
        0x35 => row(0x35, "AND", 2, 4, AddressingMode::ZeroPage_X),
        0x39 => row(0x39, "AND", 3, 4, AddressingMode::Absolute_Y),
        0x3D => row(0x3D, "AND", 3, 4, AddressingMode::Absolute_X),
        0x50 => row(0x50, "BVC", 2, 2, AddressingMode::NoneAddressing),
        0x58 => row(0x58, "CLI", 1, 2, AddressingMode::NoneAddressing),
        0x70 => row(0x70, "BVS", 2, 2, AddressingMode::NoneAddressing),
        0x81 => row(0x81, "STA", 2, 6, AddressingMode::Indirect_X),
        0x85 => row(0x85, "STA", 2, 3, AddressingMode::ZeroPage),
        0x88 => row(0x88, "DEY", 1, 2, AddressingMode::NoneAddressing),
        0x8D => row(0x8D, "STA", 3, 4, AddressingMode::Absolute),
        0x90 => row(0x90, "BCC", 2, 2, AddressingMode::NoneAddressing),
        0x91 => row(0x91, "STA", 2, 6, AddressingMode::Indirect_Y),
        0x95 => row(0x95, "STA", 2, 4, AddressingMode::ZeroPage_X),
        0x99 => row(0x99, "STA", 3, 5, AddressingMode::Absolute_Y),
        0x9D => row(0x9D, "STA", 3, 5, AddressingMode::Absolute_X),
        0xA0 => row(0xA0, "LDY", 2, 2, AddressingMode::Immediate),
        0xA1 => row(0xA1, "LDA", 2, 6, AddressingMode::Indirect_X),
        0xA2 => row(0xA2, "LDX", 2, 2, AddressingMode::Immediate),
        0xA4 => row(0xA4, "LDY", 2, 3, AddressingMode::ZeroPage),
        0xA5 => row(0xA5, "LDA", 2, 3, AddressingMode::ZeroPage),
        0xA6 => row(0xA6, "LDX", 2, 3, AddressingMode::ZeroPage),
        0xA9 => row(0xA9, "LDA", 2, 2, AddressingMode::Immediate),
        0xAA => row(0xAA, "TAX", 1, 2, AddressingMode::NoneAddressing),
        0xAC => row(0xAC, "LDY", 3, 4, AddressingMode::Absolute),
        0xAD => row(0xAD, "LDA", 3, 4, AddressingMode::Absolute),
        0xAE => row(0xAE, "LDX", 3, 4, AddressingMode::Absolute),
        0xB0 => row(0xB0, "BCS", 2, 2, AddressingMode::NoneAddressing),
        0xB1 => row(0xB1, "LDA", 2, 5, AddressingMode::Indirect_Y),
        0xB4 => row(0xB4, "LDY", 2, 4, AddressingMode::ZeroPage_X),
        0xB5 => row(0xB5, "LDA", 2, 4, AddressingMode::ZeroPage_X),
        0xB6 => row(0xB6, "LDX", 2, 4, AddressingMode::ZeroPage_Y),
        0xB8 => row(0xB8, "CLV", 1, 2, AddressingMode::NoneAddressing),
        0xB9 => row(0xB9, "LDA", 3, 4, AddressingMode::Absolute_Y),
        0xBC => row(0xBC, "LDY", 3, 4, AddressingMode::Absolute_X),
        0xBD => row(0xBD, "LDA", 3, 4, AddressingMode::Absolute_X),
        0xBE => row(0xBE, "LDX", 3, 4, AddressingMode::Absolute_Y),
        0xC0 => row(0xC0, "CPY", 2, 2, AddressingMode::Immediate),
        0xC1 => row(0xC1, "CMP", 2, 6, AddressingMode::Indirect_X),
        0xC4 => row(0xC4, "CPY", 2, 3, AddressingMode::ZeroPage),
        0xC5 => row(0xC5, "CMP", 2, 3, AddressingMode::ZeroPage),
        0xC6 => row(0xC6, "DEC", 2, 5, AddressingMode::ZeroPage),
        0xC9 => row(0xC9, "CMP", 2, 2, AddressingMode::Immediate),
        0xCA => row(0xCA, "DEX", 1, 2, AddressingMode::NoneAddressing),
        0xCC => row(0xCC, "CPY", 3, 4, AddressingMode::Absolute),
        0xCD => row(0xCD, "CMP", 3, 4, AddressingMode::Absolute),
        0xCE => row(0xCE, "DEC", 3, 6, AddressingMode::Absolute),
        0xD0 => row(0xD0, "BNE", 2, 2, AddressingMode::NoneAddressing),
        0xD1 => row(0xD1, "CMP", 2, 5, AddressingMode::Indirect_Y),
        0xD5 => row(0xD5, "CMP", 2, 4, AddressingMode::ZeroPage_X),
        0xD6 => row(0xD6, "DEC", 2, 6, AddressingMode::ZeroPage_X),
        0xD8 => row(0xD8, "CLD", 1, 2, AddressingMode::NoneAddressing),
        0xD9 => row(0xD9, "CMP", 3, 4, AddressingMode::Absolute_Y),
        0xDD => row(0xDD, "CMP", 3, 4, AddressingMode::Absolute_X),
        0xDE => row(0xDE, "DEC", 3, 7, AddressingMode::Absolute_X),
        0xE0 => row(0xE0, "CPX", 2, 2, AddressingMode::Immediate),
        0xE4 => row(0xE4, "CPX", 2, 3, AddressingMode::ZeroPage),
        0xE8 => row(0xE8, "INX", 1, 2, AddressingMode::NoneAddressing),
        0xEC => row(0xEC, "CPX", 3, 4, AddressingMode::Absolute),
        0xF0 => row(0xF0, "BEQ", 2, 2, AddressingMode::NoneAddressing),
        _ => None,
    }
}

/// The instruction that an opcode byte selects, if the core executes it.
pub open spec fn decoded(code: u8) -> Option<Instruction> {
    match code {
        0x21 | 0x25 | 0x29 | 0x2D | 0x31 | 0x35 | 0x39 | 0x3D => Some(Instruction::And),
        0x0A => Some(Instruction::AslAccumulator),
        0x06 | 0x0E | 0x16 | 0x1E => Some(Instruction::Asl),
        0x90 => Some(Instruction::Bcc),
        0xB0 => Some(Instruction::Bcs),
        0xF0 => Some(Instruction::Beq),
        0x30 => Some(Instruction::Bmi),
        0xD0 => Some(Instruction::Bne),
        0x10 => Some(Instruction::Bpl),
        0x50 => Some(Instruction::Bvc),
        0x70 => Some(Instruction::Bvs),
        0x24 | 0x2C => Some(Instruction::Bit),
        0x18 => Some(Instruction::Clc),
        0xD8 => Some(Instruction::Cld),
        0x58 => Some(Instruction::Cli),
        0xB8 => Some(Instruction::Clv),
        0xC1 | 0xC5 | 0xC9 | 0xCD | 0xD1 | 0xD5 | 0xD9 | 0xDD => Some(Instruction::CompareA),
        0xE0 | 0xE4 | 0xEC => Some(Instruction::CompareX),
        0xC0 | 0xC4 | 0xCC => Some(Instruction::CompareY),
        0xC6 | 0xCE | 0xD6 | 0xDE => Some(Instruction::Dec),
        0xCA => Some(Instruction::Dex),
        0x88 => Some(Instruction::Dey),
        0xA1 | 0xA5 | 0xA9 | 0xAD | 0xB1 | 0xB5 | 0xB9 | 0xBD => Some(Instruction::Lda),
        0xA2 | 0xA6 | 0xAE | 0xB6 | 0xBE => Some(Instruction::Ldx),
        0xA0 | 0xA4 | 0xAC | 0xB4 | 0xBC => Some(Instruction::Ldy),
        0x81 | 0x85 | 0x8D | 0x91 | 0x95 | 0x99 | 0x9D => Some(Instruction::Sta),
        0xAA => Some(Instruction::Tax),
        0xE8 => Some(Instruction::Inx),
        0x00 => Some(Instruction::Brk),
        _ => None,
    }
}

/// The operand bytes that follow the opcode byte under an addressing mode
/// that names a location.
pub open spec fn operand_bytes(mode: AddressingMode) -> int {
    match mode {
        AddressingMode::Immediate
        | AddressingMode::ZeroPage
        | AddressingMode::ZeroPage_X
        | AddressingMode::ZeroPage_Y
        | AddressingMode::Indirect_X
        | AddressingMode::Indirect_Y => 1,
        AddressingMode::Absolute | AddressingMode::Absolute_X | AddressingMode::Absolute_Y => 2,
        AddressingMode::NoneAddressing => 0,
    }
}

impl Instruction {
    /// The eight conditional branches, whose one operand byte is an offset.
    pub open spec fn is_branch(self) -> bool {
        self is Bcc || self is Bcs || self is Beq || self is Bmi || self is Bne || self is Bpl
            || self is Bvc || self is Bvs
    }

    /// The instructions that work on a memory operand, which the addressing
    /// mode locates.
    pub open spec fn takes_operand(self) -> bool {
        self is And || self is Asl || self is Bit || self is CompareA || self is CompareX
            || self is CompareY || self is Dec || self is Lda || self is Ldx || self is Ldy
            || self is Sta
    }

    /// Decodes an opcode byte.
    pub fn decode(code: u8) -> (r: Option<Instruction>)
        ensures
            r == decoded(code),
    {
        match code {
            0x21 | 0x25 | 0x29 | 0x2D | 0x31 | 0x35 | 0x39 | 0x3D => Some(Instruction::And),
            0x0A => Some(Instruction::AslAccumulator),
            0x06 | 0x0E | 0x16 | 0x1E => Some(Instruction::Asl),
            0x90 => Some(Instruction::Bcc),
            0xB0 => Some(Instruction::Bcs),
            0xF0 => Some(Instruction::Beq),
            0x30 => Some(Instruction::Bmi),
            0xD0 => Some(Instruction::Bne),
            0x10 => Some(Instruction::Bpl),
            0x50 => Some(Instruction::Bvc),
            0x70 => Some(Instruction::Bvs),
            0x24 | 0x2C => Some(Instruction::Bit),
            0x18 => Some(Instruction::Clc),
            0xD8 => Some(Instruction::Cld),
            0x58 => Some(Instruction::Cli),
            0xB8 => Some(Instruction::Clv),
            0xC1 | 0xC5 | 0xC9 | 0xCD | 0xD1 | 0xD5 | 0xD9 | 0xDD => Some(Instruction::CompareA),
            0xE0 | 0xE4 | 0xEC => Some(Instruction::CompareX),
            0xC0 | 0xC4 | 0xCC => Some(Instruction::CompareY),
            0xC6 | 0xCE | 0xD6 | 0xDE => Some(Instruction::Dec),
            0xCA => Some(Instruction::Dex),
            0x88 => Some(Instruction::Dey),
            0xA1 | 0xA5 | 0xA9 | 0xAD | 0xB1 | 0xB5 | 0xB9 | 0xBD => Some(Instruction::Lda),
            0xA2 | 0xA6 | 0xAE | 0xB6 | 0xBE => Some(Instruction::Ldx),
            0xA0 | 0xA4 | 0xAC | 0xB4 | 0xBC => Some(Instruction::Ldy),
            0x81 | 0x85 | 0x8D | 0x91 | 0x95 | 0x99 | 0x9D => Some(Instruction::Sta),
            0xAA => Some(Instruction::Tax),
            0xE8 => Some(Instruction::Inx),
            0x00 => Some(Instruction::Brk),
            _ => None,
        }
    }
}

impl OpCode {
    /// Describes one opcode.
    pub fn new(code: u8, mnemonic: &'static str, len: u8, cycles: u8, mode: AddressingMode) -> (op:
        Self)
        ensures
            op.code == code,
            op.mnemonic == mnemonic,
            op.len == len,
            op.cycles == cycles,
            op.mode == mode,
    {
        OpCode { code, mnemonic, len, cycles, mode }
    }

    /// Looks an opcode byte up in the registry.
    pub fn lookup(code: u8) -> (r: Option<OpCode>)
        ensures
            r == registry(code),
    {
        match code {
            0x00 => Some(OpCode::new(0x00, "BRK", 1, 7, AddressingMode::NoneAddressing)),
            0x06 => Some(OpCode::new(0x06, "ASL", 2, 5, AddressingMode::ZeroPage)),
            0x0A => Some(OpCode::new(0x0A, "ASL", 1, 2, AddressingMode::NoneAddressing)),
            0x0E => Some(OpCode::new(0x0E, "ASL", 3, 6, AddressingMode::Absolute)),
            0x10 => Some(OpCode::new(0x10, "BPL", 2, 2, AddressingMode::NoneAddressing)),
            0x16 => Some(OpCode::new(0x16, "ASL", 2, 6, AddressingMode::ZeroPage_X)),
            0x18 => Some(OpCode::new(0x18, "CLC", 1, 2, AddressingMode::NoneAddressing)),
            0x1E => Some(OpCode::new(0x1E, "ASL", 3, 7, AddressingMode::Absolute_X)),
            0x21 => Some(OpCode::new(0x21, "AND", 2, 6, AddressingMode::Indirect_X)),
            0x24 => Some(OpCode::new(0x24, "BIT", 2, 3, AddressingMode::ZeroPage)),
            0x25 => Some(OpCode::new(0x25, "AND", 2, 3, AddressingMode::ZeroPage)),
            0x29 => Some(OpCode::new(0x29, "AND", 2, 2, AddressingMode::Immediate)),
            0x2C => Some(OpCode::new(0x2C, "BIT", 3, 4, AddressingMode::Absolute)),
            0x2D => Some(OpCode::new(0x2D, "AND", 3, 4, AddressingMode::Absolute)),
            0x30 => Some(OpCode::new(0x30, "BMI", 2, 2, AddressingMode::NoneAddressing)),
            0x31 => Some(OpCode::new(0x31, "AND", 2, 5, AddressingMode::Indirect_Y)),
            0x35 => Some(OpCode::new(0x35, "AND", 2, 4, AddressingMode::ZeroPage_X)),
            0x39 => Some(OpCode::new(0x39, "AND", 3, 4, AddressingMode::Absolute_Y)),
            0x3D => Some(OpCode::new(0x3D, "AND", 3, 4, AddressingMode::Absolute_X)),
            0x50 => Some(OpCode::new(0x50, "BVC", 2, 2, AddressingMode::NoneAddressing)),
            0x58 => Some(OpCode::new(0x58, "CLI", 1, 2, AddressingMode::NoneAddressing)),
            0x70 => Some(OpCode::new(0x70, "BVS", 2, 2, AddressingMode::NoneAddressing)),
            0x81 => Some(OpCode::new(0x81, "STA", 2, 6, AddressingMode::Indirect_X)),
            0x85 => Some(OpCode::new(0x85, "STA", 2, 3, AddressingMode::ZeroPage)),
            0x88 => Some(OpCode::new(0x88, "DEY", 1, 2, AddressingMode::NoneAddressing)),
            0x8D => Some(OpCode::new(0x8D, "STA", 3, 4, AddressingMode::Absolute)),
            0x90 => Some(OpCode::new(0x90, "BCC", 2, 2, AddressingMode::NoneAddressing)),
            0x91 => Some(OpCode::new(0x91, "STA", 2, 6, AddressingMode::Indirect_Y)),
            0x95 => Some(OpCode::new(0x95, "STA", 2, 4, AddressingMode::ZeroPage_X)),
            0x99 => Some(OpCode::new(0x99, "STA", 3, 5, AddressingMode::Absolute_Y)),
            0x9D => Some(OpCode::new(0x9D, "STA", 3, 5, AddressingMode::Absolute_X)),
            0xA0 => Some(OpCode::new(0xA0, "LDY", 2, 2, AddressingMode::Immediate)),
            0xA1 => Some(OpCode::new(0xA1, "LDA", 2, 6, AddressingMode::Indirect_X)),
            0xA2 => Some(OpCode::new(0xA2, "LDX", 2, 2, AddressingMode::Immediate)),
            0xA4 => Some(OpCode::new(0xA4, "LDY", 2, 3, AddressingMode::ZeroPage)),
            0xA5 => Some(OpCode::new(0xA5, "LDA", 2, 3, AddressingMode::ZeroPage)),
            0xA6 => Some(OpCode::new(0xA6, "LDX", 2, 3, AddressingMode::ZeroPage)),
            0xA9 => Some(OpCode::new(0xA9, "LDA", 2, 2, AddressingMode::Immediate)),
            0xAA => Some(OpCode::new(0xAA, "TAX", 1, 2, AddressingMode::NoneAddressing)),
            0xAC => Some(OpCode::new(0xAC, "LDY", 3, 4, AddressingMode::Absolute)),
            0xAD => Some(OpCode::new(0xAD, "LDA", 3, 4, AddressingMode::Absolute)),
            0xAE => Some(OpCode::new(0xAE, "LDX", 3, 4, AddressingMode::Absolute)),
            0xB0 => Some(OpCode::new(0xB0, "BCS", 2, 2, AddressingMode::NoneAddressing)),
            0xB1 => Some(OpCode::new(0xB1, "LDA", 2, 5, AddressingMode::Indirect_Y)),
            0xB4 => Some(OpCode::new(0xB4, "LDY", 2, 4, AddressingMode::ZeroPage_X)),
            0xB5 => Some(OpCode::new(0xB5, "LDA", 2, 4, AddressingMode::ZeroPage_X)),
            0xB6 => Some(OpCode::new(0xB6, "LDX", 2, 4, AddressingMode::ZeroPage_Y)),
            0xB8 => Some(OpCode::new(0xB8, "CLV", 1, 2, AddressingMode::NoneAddressing)),
            0xB9 => Some(OpCode::new(0xB9, "LDA", 3, 4, AddressingMode::Absolute_Y)),
            0xBC => Some(OpCode::new(0xBC, "LDY", 3, 4, AddressingMode::Absolute_X)),
            0xBD => Some(OpCode::new(0xBD, "LDA", 3, 4, AddressingMode::Absolute_X)),
            0xBE => Some(OpCode::new(0xBE, "LDX", 3, 4, AddressingMode::Absolute_Y)),
            0xC0 => Some(OpCode::new(0xC0, "CPY", 2, 2, AddressingMode::Immediate)),
            0xC1 => Some(OpCode::new(0xC1, "CMP", 2, 6, AddressingMode::Indirect_X)),
            0xC4 => Some(OpCode::new(0xC4, "CPY", 2, 3, AddressingMode::ZeroPage)),
            0xC5 => Some(OpCode::new(0xC5, "CMP", 2, 3, AddressingMode::ZeroPage)),
            0xC6 => Some(OpCode::new(0xC6, "DEC", 2, 5, AddressingMode::ZeroPage)),
            0xC9 => Some(OpCode::new(0xC9, "CMP", 2, 2, AddressingMode::Immediate)),
            0xCA => Some(OpCode::new(0xCA, "DEX", 1, 2, AddressingMode::NoneAddressing)),
            0xCC => Some(OpCode::new(0xCC, "CPY", 3, 4, AddressingMode::Absolute)),
            0xCD => Some(OpCode::new(0xCD, "CMP", 3, 4, AddressingMode::Absolute)),
            0xCE => Some(OpCode::new(0xCE, "DEC", 3, 6, AddressingMode::Absolute)),
            0xD0 => Some(OpCode::new(0xD0, "BNE", 2, 2, AddressingMode::NoneAddressing)),
            0xD1 => Some(OpCode::new(0xD1, "CMP", 2, 5, AddressingMode::Indirect_Y)),
            0xD5 => Some(OpCode::new(0xD5, "CMP", 2, 4, AddressingMode::ZeroPage_X)),
            0xD6 => Some(OpCode::new(0xD6, "DEC", 2, 6, AddressingMode::ZeroPage_X)),
            0xD8 => Some(OpCode::new(0xD8, "CLD", 1, 2, AddressingMode::NoneAddressing)),
            0xD9 => Some(OpCode::new(0xD9, "CMP", 3, 4, AddressingMode::Absolute_Y)),
            0xDD => Some(OpCode::new(0xDD, "CMP", 3, 4, AddressingMode::Absolute_X)),
            0xDE => Some(OpCode::new(0xDE, "DEC", 3, 7, AddressingMode::Absolute_X)),
            0xE0 => Some(OpCode::new(0xE0, "CPX", 2, 2, AddressingMode::Immediate)),
            0xE4 => Some(OpCode::new(0xE4, "CPX", 2, 3, AddressingMode::ZeroPage)),
            0xE8 => Some(OpCode::new(0xE8, "INX", 1, 2, AddressingMode::NoneAddressing)),
            0xEC => Some(OpCode::new(0xEC, "CPX", 3, 4, AddressingMode::Absolute)),
            0xF0 => Some(OpCode::new(0xF0, "BEQ", 2, 2, AddressingMode::NoneAddressing)),
            _ => None,
        }
    }
}

/// Every row of the registry is filed under its own opcode byte, is an
/// instruction that the core executes, and has the length that its
/// addressing mode asks for: the opcode byte, the operand bytes of the mode,
/// and for a branch its offset byte. An instruction on a memory operand has
/// a mode that names one.
pub proof fn lemma_registry_rows(code: u8)
    ensures
        match registry(code) {
            Some(op) => {
                &&& op.code == code
                &&& decoded(code) is Some
                &&& op.len == 1 + operand_bytes(op.mode) + (if decoded(code).unwrap().is_branch() {
                    1int
                } else {
                    0int
                })
                &&& 1 <= op.len <= 3
                &&& decoded(code).unwrap().takes_operand() <==> op.mode != AddressingMode::NoneAddressing
            },
            None => decoded(code) is None,
        },
{
}

} // verus!
