//! What holds of the machine whatever its state: facts about the flags that
//! instructions leave behind, about reset, and about where a run can end.

use crate::cpu::{CpuError, Progress};
use crate::opcodes::{lemma_registry_rows, registry, Instruction};
use crate::semantics::{wrap16, wrap8, CpuState};
use crate::status::{
    bit7, has_flag, lemma_bit7_is_sign, lemma_bit_tested, lemma_compared, lemma_zero_negative,
    FLAG_CARRY, FLAG_NEGATIVE, FLAG_OVERFLOW, FLAG_ZERO,
};
use vstd::prelude::*;

verus! {

/// A value that is loaded into A, X or Y arrives there unchanged, and sets
/// Zero exactly where it is zero and Negative exactly where its bit 7 is
/// set; the two are never set together.
pub proof fn lemma_load_flags(s: CpuState, v: u8)
    ensures
        s.set_a(v).a == v && s.set_x(v).x == v && s.set_y(v).y == v,
        s.set_a(v).status == s.set_x(v).status && s.set_a(v).status == s.set_y(v).status,
        has_flag(s.set_a(v).status, FLAG_ZERO) <==> v == 0,
        has_flag(s.set_a(v).status, FLAG_NEGATIVE) <==> bit7(v),
        !(has_flag(s.set_a(v).status, FLAG_ZERO) && has_flag(s.set_a(v).status, FLAG_NEGATIVE)),
{
    lemma_zero_negative(s.status, v);
    lemma_bit7_is_sign(v);
}

/// The three load instructions are such loads of the operand.
pub proof fn lemma_load_instructions(s: CpuState, addr: u16)
    ensures
        s.on_operand(Instruction::Lda, addr) == s.set_a(s.read(addr)),
        s.on_operand(Instruction::Ldx, addr) == s.set_x(s.read(addr)),
        s.on_operand(Instruction::Ldy, addr) == s.set_y(s.read(addr)),
{
}

/// INX counts modulo 256: after 255 comes 0, with Zero set and Negative
/// clear.
pub proof fn lemma_inx_wraps(s: CpuState)
    ensures
        s.on_implied(Instruction::Inx).x == (if s.x == 255 {
            0
        } else {
            s.x + 1
        }),
        s.x == 255 ==> has_flag(s.on_implied(Instruction::Inx).status, FLAG_ZERO) && !has_flag(
            s.on_implied(Instruction::Inx).status,
            FLAG_NEGATIVE,
        ),
{
    lemma_zero_negative(s.status, wrap8(s.x + 1));
}

/// CMP, CPX and CPY, for every value of the register and every operand:
/// Carry is set exactly where the register is at least the operand, and Zero
/// exactly where the two are equal. Registers, program counter and memory
/// stay as they are.
pub proof fn lemma_compare_flags(s: CpuState, addr: u16)
    ensures
        has_flag(s.on_operand(Instruction::CompareA, addr).status, FLAG_CARRY) <==> s.a >= s.read(
            addr,
        ),
        has_flag(s.on_operand(Instruction::CompareA, addr).status, FLAG_ZERO) <==> s.a == s.read(
            addr,
        ),
        has_flag(s.on_operand(Instruction::CompareX, addr).status, FLAG_CARRY) <==> s.x >= s.read(
            addr,
        ),
        has_flag(s.on_operand(Instruction::CompareX, addr).status, FLAG_ZERO) <==> s.x == s.read(
            addr,
        ),
        has_flag(s.on_operand(Instruction::CompareY, addr).status, FLAG_CARRY) <==> s.y >= s.read(
            addr,
        ),
        has_flag(s.on_operand(Instruction::CompareY, addr).status, FLAG_ZERO) <==> s.y == s.read(
            addr,
        ),
        s.on_operand(Instruction::CompareA, addr) == s.with_status(
            s.on_operand(Instruction::CompareA, addr).status,
        ),
        s.on_operand(Instruction::CompareX, addr) == s.with_status(
            s.on_operand(Instruction::CompareX, addr).status,
        ),
        s.on_operand(Instruction::CompareY, addr) == s.with_status(
            s.on_operand(Instruction::CompareY, addr).status,
        ),
{
    lemma_compared(s.status, s.a, s.read(addr));
    lemma_compared(s.status, s.x, s.read(addr));
    lemma_compared(s.status, s.y, s.read(addr));
}

/// BIT changes flags and nothing else: the accumulator, X, Y, the program
/// counter and the memory are as before. Overflow and Negative are bits 6
/// and 7 of the operand, Zero tells whether operand and accumulator share no
/// bit, and the five other flags are as before.
pub proof fn lemma_bit_changes_flags_only(s: CpuState, addr: u16)
    ensures
        s.on_operand(Instruction::Bit, addr) == s.with_status(
            s.on_operand(Instruction::Bit, addr).status,
        ),
        s.on_operand(Instruction::Bit, addr).a == s.a,
        has_flag(s.on_operand(Instruction::Bit, addr).status, FLAG_OVERFLOW) <==> s.read(addr)
            & 0x40 != 0,
        has_flag(s.on_operand(Instruction::Bit, addr).status, FLAG_NEGATIVE) <==> s.read(addr)
            >= 128,
        has_flag(s.on_operand(Instruction::Bit, addr).status, FLAG_ZERO) <==> s.a & s.read(addr)
            == 0,
        s.on_operand(Instruction::Bit, addr).status & 0x3D == s.status & 0x3D,
{
    lemma_bit_tested(s.status, s.a, s.read(addr));
}

/// A second reset right after a reset changes nothing.
pub proof fn lemma_reset_twice(s: CpuState)
    ensures
        s.reset().reset() == s.reset(),
{
}

/// A reset does not depend on the registers, the status register or the
/// program counter, and leaves the memory as it is.
pub proof fn lemma_reset_reads_memory_only(s: CpuState, t: CpuState)
    requires
        s.mem == t.mem,
    ensures
        s.reset() == t.reset(),
        s.reset().mem == s.mem,
{
}

/// No instruction changes the size of the memory.
pub proof fn lemma_step_keeps_wf(s: CpuState)
    requires
        s.wf(),
    ensures
        s.step().0.wf(),
{
}

/// A round fails exactly where the byte at the program counter is not in
/// the registry, and then with `UnknownOpcode` of that byte: every opcode
/// of the registry is executed, and under a mode that suits it.
pub proof fn lemma_step_fails_on_unknown_opcode_only(s: CpuState)
    ensures
        match s.step().1 {
            Ok(_) => registry(s.read(s.pc)) is Some,
            Err(e) => registry(s.read(s.pc)) is None && e == CpuError::UnknownOpcode(
                s.read(s.pc),
            ),
        },
{
    lemma_registry_rows(s.read(s.pc));
}

/// A round halts exactly at BRK, and then only the program counter has
/// moved, to the byte after it.
pub proof fn lemma_step_halts_at_brk_only(s: CpuState)
    ensures
        s.step().1 == Ok::<Progress, CpuError>(Progress::Halted) <==> s.read(s.pc) == 0x00,
        s.read(s.pc) == 0x00 ==> s.step().0 == s.with_pc(wrap16(s.pc + 1)),
{
    lemma_registry_rows(s.read(s.pc));
}

/// A run of no rounds changes nothing.
pub proof fn lemma_run_zero(s: CpuState)
    ensures
        s.run(0) == (s, Ok::<Progress, CpuError>(Progress::Running)),
{
}

/// A run that has halted or failed within `n` rounds ends in the same state,
/// with the same result, whatever larger number of rounds it is given.
pub proof fn lemma_run_settles(s: CpuState, n: nat, m: nat)
    requires
        n <= m,
        s.run(n).1 != Ok::<Progress, CpuError>(Progress::Running),
    ensures
        s.run(m) == s.run(n),
    decreases n,
{
    if n > 0 {
        let (next, result) = s.step();
        if result == Ok::<Progress, CpuError>(Progress::Running) {
            lemma_run_settles(next, (n - 1) as nat, (m - 1) as nat);
        }
    }
}

/// A run of `n + m` rounds is a run of `n` rounds and, where the machine is
/// still running then, a run of `m` more.
pub proof fn lemma_run_continues(s: CpuState, n: nat, m: nat)
    ensures
        s.run(n + m) == (if s.run(n).1 == Ok::<Progress, CpuError>(Progress::Running) {
            s.run(n).0.run(m)
        } else {
            s.run(n)
        }),
    decreases n,
{
    if n > 0 {
        let (next, result) = s.step();
        if result == Ok::<Progress, CpuError>(Progress::Running) {
            lemma_run_continues(next, (n - 1) as nat, m);
            assert(s.run(n + m) == next.run((n + m - 1) as nat));
            assert((n + m - 1) as nat == (n - 1) as nat + m);
        }
    }
}

/// A run fails only with `UnknownOpcode`, and keeps the size of the memory.
pub proof fn lemma_run_fails_on_unknown_opcode_only(s: CpuState, n: nat)
    requires
        s.wf(),
    ensures
        s.run(n).0.wf(),
        match s.run(n).1 {
            Ok(_) => true,
            Err(e) => e is UnknownOpcode,
        },
    decreases n,
{
    if n > 0 {
        let (next, result) = s.step();
        lemma_step_fails_on_unknown_opcode_only(s);
        lemma_step_keeps_wf(s);
        if result == Ok::<Progress, CpuError>(Progress::Running) {
            lemma_run_fails_on_unknown_opcode_only(next, (n - 1) as nat);
        }
    }
}

} // verus!
