use vstd::prelude::*;

use crate::cpu::{decoded, run, run_from, stepped, with_pc, CpuError, Flow, CPU, OP_BRK, OP_INX, OP_LDA, OP_TAX};
use crate::flags::{flags_for, has_flag, lemma_flags_for_bits, NEGATIVE_FLAG, ZERO_FLAG};

verus! {

/// `LDA v; BRK` leaves `v` in the accumulator, the Zero flag set exactly when
/// `v` is zero, the Negative flag set exactly when bit 7 of `v` is set, and
/// the program counter past the halt byte; nothing else changes.
pub proof fn lemma_lda_then_halt(c: CPU, v: u8)
    ensures
        ({
            let (after, r) = run(c, seq![OP_LDA, v, OP_BRK]);
            &&& r == Ok::<(), CpuError>(())
            &&& after.reg_a == v
            &&& has_flag(after.status, ZERO_FLAG) == (v == 0)
            &&& has_flag(after.status, NEGATIVE_FLAG) == (v >= 128)
            &&& after.pc == 3
            &&& after.reg_x == c.reg_x
            &&& after.reg_y == c.reg_y
            &&& after.ram == c.ram
        }),
{
    let p = seq![OP_LDA, v, OP_BRK];
    assert(p[0] == OP_LDA && p[1] == v && p[2] == OP_BRK);
    reveal_with_fuel(run_from, 3);
    lemma_flags_for_bits(c.status, v);
}

/// `LDA v; BRK` with `v` non-zero and bit 7 clear leaves `v` in the
/// accumulator with both the Zero and the Negative flag clear.
pub proof fn lemma_lda_positive_clears_flags(c: CPU, v: u8)
    requires
        v != 0,
        v < 128,
    ensures
        run(c, seq![OP_LDA, v, OP_BRK]).0.reg_a == v,
        !has_flag(run(c, seq![OP_LDA, v, OP_BRK]).0.status, ZERO_FLAG),
        !has_flag(run(c, seq![OP_LDA, v, OP_BRK]).0.status, NEGATIVE_FLAG),
{
    lemma_lda_then_halt(c, v);
}

/// `TAX; BRK` copies the accumulator into index register X and recomputes
/// the flags from it.
pub proof fn lemma_tax_then_halt(c: CPU)
    ensures
        ({
            let (after, r) = run(c, seq![OP_TAX, OP_BRK]);
            &&& r == Ok::<(), CpuError>(())
            &&& after.reg_x == c.reg_a
            &&& after.reg_a == c.reg_a
            &&& after.status == flags_for(c.status, c.reg_a)
            &&& after.pc == 2
        }),
{
    let p = seq![OP_TAX, OP_BRK];
    assert(p[0] == OP_TAX && p[1] == OP_BRK);
    reveal_with_fuel(run_from, 2);
}

/// `INX; BRK` from index register X at 0xFF wraps it round to zero and sets
/// the Zero flag.
pub proof fn lemma_inx_wraps(c: CPU)
    requires
        c.reg_x == 0xFF,
    ensures
        run(c, seq![OP_INX, OP_BRK]).1 == Ok::<(), CpuError>(()),
        run(c, seq![OP_INX, OP_BRK]).0.reg_x == 0,
        has_flag(run(c, seq![OP_INX, OP_BRK]).0.status, ZERO_FLAG),
{
    let p = seq![OP_INX, OP_BRK];
    assert(p[0] == OP_INX && p[1] == OP_BRK);
    reveal_with_fuel(run_from, 2);
    lemma_flags_for_bits(c.status, 0);
}

/// An opcode outside the instruction table ends the run with
/// `UnimplementedOpcode`, wherever it stands: the only change made is the
/// fetch that moved the program counter past it.
pub proof fn lemma_unimplemented_opcode_stops(c: CPU, program: Seq<u8>)
    requires
        c.pc < program.len(),
        c.pc < 0xFFFF,
        program[c.pc as int] != OP_BRK,
        program[c.pc as int] != OP_LDA,
        program[c.pc as int] != OP_TAX,
        program[c.pc as int] != OP_INX,
    ensures
        run_from(c, program) == (with_pc(c, (c.pc + 1) as u16), Err::<(), CpuError>(
            CpuError::UnimplementedOpcode(program[c.pc as int]),
        )),
{
    assert(decoded(program[c.pc as int]).is_none());
}

/// An instruction that lets the run go on moves the program counter past its
/// opcode and past exactly as many operand bytes as it declares.
pub proof fn lemma_step_advances_past_operands(c: CPU, program: Seq<u8>)
    ensures
        stepped(c, program).1 == Flow::Running ==> ({
            &&& c.pc < program.len()
            &&& decoded(program[c.pc as int]) is Some
            &&& stepped(c, program).0.pc == c.pc + 1 + decoded(
                program[c.pc as int],
            ).unwrap().spec_operand_width()
        }),
{
}

} // verus!
