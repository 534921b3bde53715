//! The universally quantified guarantees of the core, each proved against
//! the specification interpreter that `Cpu8080::step` implements.

use vstd::prelude::*;

use crate::flags::{
    lemma_psw_round_trip, parity_even, psw_ac, psw_byte, psw_cy, psw_p, psw_s, psw_z, sign_of,
};
use crate::mem::mem_read;
use crate::model::{
    ack_ready, alu_app, cur_op, exec_step, hi8, hi_step, is_alu_reg, is_mov, lo8, lo_step,
    misc_step, mov_step, pair16, pop_val, push16, reg8, step_spec, wadd16, wsub16, CpuV,
};

verus! {

/// Splitting a 16-bit value into bytes and pairing them again is the
/// identity.
pub proof fn lemma_pair_split(v: u16)
    by (bit_vector)
    ensures
        pair16(hi8(v), lo8(v)) == v,
{
}

/// Pairing two bytes and taking the halves gives the bytes back.
pub proof fn lemma_pair_parts(hi: u8, lo: u8)
    by (bit_vector)
    ensures
        hi8(pair16(hi, lo)) == hi,
        lo8(pair16(hi, lo)) == lo,
{
}

/// After a MOV, every flag is unchanged, and for register operands the
/// destination holds exactly the pre-state value of the source.
pub proof fn lemma_mov(st: CpuV, input: u8)
    requires
        !ack_ready(st),
        !st.halt,
        is_mov(cur_op(st)),
    ensures
        ({
            let op = cur_op(st);
            let t = step_spec(st, input);
            &&& t.z == st.z
            &&& t.s == st.s
            &&& t.p == st.p
            &&& t.cy == st.cy
            &&& t.ac == st.ac
            &&& ((op >> 3) & 7 != 6 ==> reg8(t, (op >> 3) & 7) == reg8(st, op & 7))
        }),
{
    reveal(exec_step);
    let op = cur_op(st);
    assert((op >> 3) & 7 < 8 && op & 7 < 8) by (bit_vector);
}

/// After any of the seven accumulator-writing ALU groups (CMP, which leaves
/// A untouched, is the one exception), Z holds exactly when A is zero, S
/// mirrors bit 7 of A, and P holds exactly when the popcount of A is even.
pub proof fn lemma_alu_flags(st: CpuV, g: u8, v: u8)
    requires
        g < 7,
    ensures
        ({
            let t = alu_app(st, g, v);
            &&& t.z == (t.a == 0)
            &&& t.s == sign_of(t.a)
            &&& t.p == parity_even(t.a)
        }),
{
}

/// The step-level form of the ALU flag law, for the register operand forms.
pub proof fn lemma_alu_flags_step(st: CpuV, input: u8)
    requires
        !ack_ready(st),
        !st.halt,
        is_alu_reg(cur_op(st)),
        (cur_op(st) >> 3) & 7 != 7,
    ensures
        ({
            let t = step_spec(st, input);
            &&& t.z == (t.a == 0)
            &&& t.s == sign_of(t.a)
            &&& t.p == parity_even(t.a)
        }),
{
    reveal(exec_step);
    let op = cur_op(st);
    assert((op >> 3) & 7 < 8) by (bit_vector);
    lemma_alu_flags(st, (op >> 3) & 7, reg8(st, op & 7));
}

/// The step-level form of the ALU flag law for the immediate forms (ADI
/// ACI SUI SBI ANI XRI ORI; CPI is the excluded compare).
pub proof fn lemma_alu_flags_imm_step(st: CpuV, input: u8)
    requires
        !ack_ready(st),
        !st.halt,
        cur_op(st) & 0xC7 == 0xC6,
        (cur_op(st) >> 3) & 7 != 7,
    ensures
        ({
            let t = step_spec(st, input);
            &&& t.z == (t.a == 0)
            &&& t.s == sign_of(t.a)
            &&& t.p == parity_even(t.a)
        }),
{
    reveal(exec_step);
    reveal(misc_step);
    reveal(hi_step);
    let op = cur_op(st);
    assert(op & 0xC7 == 0xC6 ==> !(0x40 <= op && op < 0x80) && !(0x80 <= op && op < 0xC0) && !(op
        < 0x40) && op != 0x76 && op != 0xC3 && op != 0xC9 && op != 0xCD && op != 0xD3 && op
        != 0xDB && op != 0xE3 && op != 0xE9 && op != 0xEB && op != 0xF3 && op != 0xF9 && op
        != 0xFB && (op >> 3) & 7 < 8) by (bit_vector);
    lemma_alu_flags(st, (op >> 3) & 7, crate::model::imm8(st));
}

/// Stack round trip: popping right after a push yields the pushed value,
/// and SP returns to where it was. Stated for SP inside the RAM window, so
/// that the two stack cells are writable and unaliased.
pub proof fn lemma_push_pop(st: CpuV, v: u16)
    requires
        st.mem.len() == 0x10000,
        0x2002 <= st.sp && st.sp <= 0x4000,
    ensures
        ({
            let t = push16(st, v);
            &&& pop_val(t) == v
            &&& t.sp == wsub16(st.sp, 2)
            &&& wadd16(t.sp, 2) == st.sp
        }),
{
    let t = push16(st, v);
    assert(t.sp == st.sp - 2);
    assert(wadd16(t.sp, 1) == st.sp - 1);
    assert(mem_read(t.mem, t.sp) == lo8(v));
    assert(mem_read(t.mem, wadd16(t.sp, 1)) == hi8(v));
    lemma_pair_split(v);
}

/// A halted CPU with no acknowledgeable interrupt is completely quiescent:
/// the step changes nothing at all.
pub proof fn lemma_halted_step(st: CpuV, input: u8)
    requires
        st.halt,
        !ack_ready(st),
    ensures
        step_spec(st, input) == st,
{
}

/// The low-opcode instructions run the same way whatever the pending slot
/// holds.
#[verifier::rlimit(100)]
#[verifier::spinoff_prover]
proof fn lemma_lo_ignores_pending(st: CpuV, q: Option<u8>, op: u8)
    ensures
        lo_step(CpuV { pending: q, ..st }, op) == (CpuV { pending: q, ..lo_step(st, op) }),
{
    reveal(lo_step);
    let stq = CpuV { pending: q, ..st };
    if op == 0x07 {
        assert(lo_step(stq, op) =~= (CpuV { pending: q, ..lo_step(st, op) }));
    } else if op == 0x0F {
        assert(lo_step(stq, op) =~= (CpuV { pending: q, ..lo_step(st, op) }));
    } else if op == 0x17 {
        assert(lo_step(stq, op) =~= (CpuV { pending: q, ..lo_step(st, op) }));
    } else if op == 0x1F {
        assert(lo_step(stq, op) =~= (CpuV { pending: q, ..lo_step(st, op) }));
    } else if op == 0x27 {
        assert(lo_step(stq, op) =~= (CpuV { pending: q, ..lo_step(st, op) }));
    } else if op == 0x2F {
        assert(lo_step(stq, op) =~= (CpuV { pending: q, ..lo_step(st, op) }));
    } else if op == 0x37 {
        assert(lo_step(stq, op) =~= (CpuV { pending: q, ..lo_step(st, op) }));
    } else if op == 0x3F {
        assert(lo_step(stq, op) =~= (CpuV { pending: q, ..lo_step(st, op) }));
    } else if op == 0x02 {
        assert(lo_step(stq, op) =~= (CpuV { pending: q, ..lo_step(st, op) }));
    } else if op == 0x12 {
        assert(lo_step(stq, op) =~= (CpuV { pending: q, ..lo_step(st, op) }));
    } else if op == 0x0A {
        assert(lo_step(stq, op) =~= (CpuV { pending: q, ..lo_step(st, op) }));
    } else if op == 0x1A {
        assert(lo_step(stq, op) =~= (CpuV { pending: q, ..lo_step(st, op) }));
    } else if op == 0x22 {
        assert(lo_step(stq, op) =~= (CpuV { pending: q, ..lo_step(st, op) }));
    } else if op == 0x2A {
        assert(lo_step(stq, op) =~= (CpuV { pending: q, ..lo_step(st, op) }));
    } else if op == 0x32 {
        assert(lo_step(stq, op) =~= (CpuV { pending: q, ..lo_step(st, op) }));
    } else if op == 0x3A {
        assert(lo_step(stq, op) =~= (CpuV { pending: q, ..lo_step(st, op) }));
    } else if op & 0xCF == 0x01 {
        assert(lo_step(stq, op) =~= (CpuV { pending: q, ..lo_step(st, op) }));
    } else if op & 0xC7 == 0x06 {
        assert(lo_step(stq, op) =~= (CpuV { pending: q, ..lo_step(st, op) }));
    } else if op & 0xC7 == 0x04 {
        assert(lo_step(stq, op) =~= (CpuV { pending: q, ..lo_step(st, op) }));
    } else if op & 0xC7 == 0x05 {
        assert(lo_step(stq, op) =~= (CpuV { pending: q, ..lo_step(st, op) }));
    } else if op & 0xCF == 0x09 {
        assert(lo_step(stq, op) =~= (CpuV { pending: q, ..lo_step(st, op) }));
    } else if op & 0xCF == 0x03 {
        assert(lo_step(stq, op) =~= (CpuV { pending: q, ..lo_step(st, op) }));
    } else if op & 0xCF == 0x0B {
        assert(lo_step(stq, op) =~= (CpuV { pending: q, ..lo_step(st, op) }));
    } else {
        assert(lo_step(stq, op) =~= (CpuV { pending: q, ..lo_step(st, op) }));
    }
}

/// The high-opcode instructions run the same way whatever the pending slot
/// holds.
#[verifier::rlimit(100)]
#[verifier::spinoff_prover]
proof fn lemma_hi_ignores_pending(st: CpuV, q: Option<u8>, input: u8, op: u8)
    ensures
        hi_step(CpuV { pending: q, ..st }, input, op) == (CpuV {
            pending: q,
            ..hi_step(st, input, op)
        }),
{
    reveal(hi_step);
    let stq = CpuV { pending: q, ..st };
    if op == 0x76 {
        assert(hi_step(stq, input, op) =~= (CpuV { pending: q, ..hi_step(st, input, op) }));
    } else if op == 0xC3 {
        assert(hi_step(stq, input, op) =~= (CpuV { pending: q, ..hi_step(st, input, op) }));
    } else if op == 0xC9 {
        assert(hi_step(stq, input, op) =~= (CpuV { pending: q, ..hi_step(st, input, op) }));
    } else if op == 0xCD {
        assert(hi_step(stq, input, op) =~= (CpuV { pending: q, ..hi_step(st, input, op) }));
    } else if op == 0xD3 {
        assert(hi_step(stq, input, op) =~= (CpuV { pending: q, ..hi_step(st, input, op) }));
    } else if op == 0xDB {
        assert(hi_step(stq, input, op) =~= (CpuV { pending: q, ..hi_step(st, input, op) }));
    } else if op == 0xE3 {
        assert(hi_step(stq, input, op) =~= (CpuV { pending: q, ..hi_step(st, input, op) }));
    } else if op == 0xE9 {
        assert(hi_step(stq, input, op) =~= (CpuV { pending: q, ..hi_step(st, input, op) }));
    } else if op == 0xEB {
        assert(hi_step(stq, input, op) =~= (CpuV { pending: q, ..hi_step(st, input, op) }));
    } else if op == 0xF3 {
        assert(hi_step(stq, input, op) =~= (CpuV { pending: q, ..hi_step(st, input, op) }));
    } else if op == 0xF9 {
        assert(hi_step(stq, input, op) =~= (CpuV { pending: q, ..hi_step(st, input, op) }));
    } else if op == 0xFB {
        assert(hi_step(stq, input, op) =~= (CpuV { pending: q, ..hi_step(st, input, op) }));
    } else if op & 0xC7 == 0xC0 {
        assert(hi_step(stq, input, op) =~= (CpuV { pending: q, ..hi_step(st, input, op) }));
    } else if op & 0xC7 == 0xC2 {
        assert(hi_step(stq, input, op) =~= (CpuV { pending: q, ..hi_step(st, input, op) }));
    } else if op & 0xC7 == 0xC4 {
        assert(hi_step(stq, input, op) =~= (CpuV { pending: q, ..hi_step(st, input, op) }));
    } else if op & 0xC7 == 0xC6 {
        assert(hi_step(stq, input, op) =~= (CpuV { pending: q, ..hi_step(st, input, op) }));
    } else if op & 0xC7 == 0xC7 {
        assert(hi_step(stq, input, op) =~= (CpuV { pending: q, ..hi_step(st, input, op) }));
    } else if op & 0xCF == 0xC5 {
        assert(hi_step(stq, input, op) =~= (CpuV { pending: q, ..hi_step(st, input, op) }));
    } else if op & 0xCF == 0xC1 {
        assert(hi_step(stq, input, op) =~= (CpuV { pending: q, ..hi_step(st, input, op) }));
    } else {
        assert(hi_step(stq, input, op) =~= (CpuV { pending: q, ..hi_step(st, input, op) }));
    }
}

/// A MOV runs the same way whatever the pending slot holds.
#[verifier::rlimit(100)]
#[verifier::spinoff_prover]
proof fn lemma_mov_ignores_pending(st: CpuV, q: Option<u8>, op: u8)
    ensures
        mov_step(CpuV { pending: q, ..st }, op) == (CpuV { pending: q, ..mov_step(st, op) }),
{
    let stq = CpuV { pending: q, ..st };
    assert(reg8(stq, op & 7) == reg8(st, op & 7));
    assert(mov_step(stq, op) =~= (CpuV { pending: q, ..mov_step(st, op) }));
}

/// An accumulator ALU operation runs the same way whatever the pending
/// slot holds.
#[verifier::rlimit(100)]
#[verifier::spinoff_prover]
proof fn lemma_alu_ignores_pending(st: CpuV, q: Option<u8>, g: u8, v: u8)
    ensures
        alu_app(CpuV { pending: q, ..st }, g, v) == (CpuV { pending: q, ..alu_app(st, g, v) }),
{
    let stq = CpuV { pending: q, ..st };
    assert(alu_app(stq, g, v) =~= (CpuV { pending: q, ..alu_app(st, g, v) }));
}

/// Instruction execution never reads the pending slot: it rides along
/// unchanged and influences nothing.
#[verifier::rlimit(100)]
#[verifier::spinoff_prover]
pub proof fn lemma_exec_ignores_pending(st: CpuV, q: Option<u8>, input: u8)
    ensures
        exec_step(CpuV { pending: q, ..st }, input) == (CpuV {
            pending: q,
            ..exec_step(st, input)
        }),
{
    reveal(exec_step);
    reveal(misc_step);
    let stq = CpuV { pending: q, ..st };
    let op = cur_op(st);
    assert(cur_op(stq) == op);
    if is_mov(op) {
        lemma_mov_ignores_pending(st, q, op);
        assert(exec_step(stq, input) =~= (CpuV { pending: q, ..exec_step(st, input) }));
    } else if is_alu_reg(op) {
        assert(reg8(stq, op & 7) == reg8(st, op & 7));
        lemma_alu_ignores_pending(st, q, (op >> 3) & 7, reg8(st, op & 7));
        assert(exec_step(stq, input) =~= (CpuV { pending: q, ..exec_step(st, input) }));
    } else if op < 0x40 {
        lemma_lo_ignores_pending(st, q, op);
    } else {
        lemma_hi_ignores_pending(st, q, input, op);
    }
}

/// With INTE clear, raising an interrupt changes nothing about what the
/// step does: the CPU makes exactly the progress it would have made anyway
/// (in particular PC is untouched by the raised interrupt), and the slot is
/// still set afterwards.
pub proof fn lemma_masked_step_is_normal_step(st: CpuV, op: u8, input: u8)
    requires
        !st.inte,
    ensures
        step_spec(CpuV { pending: Some(op), ..st }, input) == (CpuV {
            pending: Some(op),
            ..step_spec(st, input)
        }),
{
    if !st.halt {
        lemma_exec_ignores_pending(st, Some(op), input);
    }
}


/// With INTE clear a raised interrupt is never acknowledged: the pending
/// slot stays valid across the step (no instruction writes it), and a
/// halted CPU does not move at all.
pub proof fn lemma_interrupt_masked(st: CpuV, op: u8, input: u8)
    requires
        !st.inte,
    ensures
        ({
            let raised = CpuV { pending: Some(op), ..st };
            let t = step_spec(raised, input);
            &&& t.pending == Some(op)
            &&& (st.halt ==> t == raised)
        }),
{
    lemma_masked_step_is_normal_step(st, op, input);
}

/// With INTE set, the step after `raise_interrupt(op)` acknowledges it: PC
/// becomes the restart vector `op & 0x38`, INTE falls, the slot empties and
/// SP drops by two; with SP in the RAM window the previous PC sits
/// little-endian at the new SP.
pub proof fn lemma_interrupt_ack(st: CpuV, op: u8, input: u8)
    requires
        st.inte,
        st.mem.len() == 0x10000,
    ensures
        ({
            let raised = CpuV { pending: Some(op), ..st };
            let t = step_spec(raised, input);
            &&& t.pc == (op & 0x38) as u16
            &&& !t.inte
            &&& !t.halt
            &&& t.pending is None
            &&& t.sp == wsub16(st.sp, 2)
            &&& (0x2002 <= st.sp && st.sp <= 0x4000 ==> mem_read(t.mem, t.sp) == lo8(st.pc)
                && mem_read(t.mem, wadd16(t.sp, 1)) == hi8(st.pc))
        }),
{
    let raised = CpuV { pending: Some(op), ..st };
    let t = step_spec(raised, input);
    if 0x2002 <= st.sp && st.sp <= 0x4000 {
        assert(t.sp == st.sp - 2);
        assert(wadd16(t.sp, 1) == st.sp - 1);
    }
}

/// A PUSH PSW step is exactly a push of (A, flag byte).
proof fn lemma_step_push_psw(st: CpuV, input: u8)
    requires
        !ack_ready(st),
        !st.halt,
        cur_op(st) == 0xF5,
    ensures
        step_spec(st, input) == (CpuV {
            pc: wadd16(st.pc, 1),
            ..push16(st, pair16(st.a, psw_byte(st.z, st.s, st.p, st.cy, st.ac)))
        }),
{
    reveal(exec_step);
    reveal(misc_step);
    reveal(hi_step);
    assert(!is_mov(0xF5) && !is_alu_reg(0xF5) && !(0xF5u8 < 0x40));
    assert(0xF5u8 & 0xC7 == 0xC5 && 0xF5u8 & 0xCF == 0xC5 && (0xF5u8 >> 4) & 3 == 3)
        by (bit_vector);
}

/// A POP PSW step restores A and the five flags from the two stack bytes.
proof fn lemma_step_pop_psw(st: CpuV, input: u8)
    requires
        !ack_ready(st),
        !st.halt,
        cur_op(st) == 0xF1,
    ensures
        ({
            let t = step_spec(st, input);
            let f = lo8(pop_val(st));
            &&& t.a == hi8(pop_val(st))
            &&& t.z == psw_z(f)
            &&& t.s == psw_s(f)
            &&& t.p == psw_p(f)
            &&& t.cy == psw_cy(f)
            &&& t.ac == psw_ac(f)
        }),
{
    reveal(exec_step);
    reveal(misc_step);
    reveal(hi_step);
    assert(!is_mov(0xF1) && !is_alu_reg(0xF1) && !(0xF1u8 < 0x40));
    assert(0xF1u8 & 0xC7 == 0xC1 && 0xF1u8 & 0xCF == 0xC1 && (0xF1u8 >> 4) & 3 == 3)
        by (bit_vector);
}

/// PUSH PSW directly followed by POP PSW restores all five flags exactly
/// (stated for a program in ROM and SP in the RAM window, so the push
/// cannot overwrite the instruction stream).
pub proof fn lemma_psw_push_pop(st: CpuV, input: u8)
    requires
        st.mem.len() == 0x10000,
        !ack_ready(st),
        !st.halt,
        st.pc < 0x1FFF,
        0x2002 <= st.sp && st.sp <= 0x4000,
        cur_op(st) == 0xF5,
        mem_read(st.mem, wadd16(st.pc, 1)) == 0xF1,
    ensures
        ({
            let t2 = step_spec(step_spec(st, input), input);
            &&& t2.z == st.z
            &&& t2.s == st.s
            &&& t2.p == st.p
            &&& t2.cy == st.cy
            &&& t2.ac == st.ac
        }),
{
    let f = psw_byte(st.z, st.s, st.p, st.cy, st.ac);
    let v = pair16(st.a, f);
    lemma_step_push_psw(st, input);
    let t1 = step_spec(st, input);
    assert(t1.sp == st.sp - 2);
    assert(t1.pc == st.pc + 1);
    assert(cur_op(t1) == 0xF1);
    assert(!ack_ready(t1));
    assert(wadd16(t1.sp, 1) == st.sp - 1);
    assert(mem_read(t1.mem, t1.sp) == lo8(v));
    assert(mem_read(t1.mem, wadd16(t1.sp, 1)) == hi8(v));
    lemma_pair_parts(st.a, f);
    assert(pop_val(t1) == pair16(hi8(v), lo8(v)));
    lemma_pair_split(v);
    assert(lo8(pop_val(t1)) == f);
    lemma_step_pop_psw(t1, input);
    lemma_psw_round_trip(st.z, st.s, st.p, st.cy, st.ac);
}

} // verus!
