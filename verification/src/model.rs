//! Mathematical model of the 8080: the abstract CPU state and the
//! specification-level interpreter `step_spec` that the executable core is
//! proved to implement, opcode by opcode.

use vstd::prelude::*;

use crate::flags::{
    add_aux, add_carry, add_res, cy_in, parity_even, psw_ac, psw_byte, psw_cy, psw_p, psw_s, psw_z,
    sign_of, sub_aux, sub_borrow, sub_res,
};
use crate::mem::{mem_read, mem_write};

verus! {

/// Abstract CPU state: seven 8-bit registers, the two 16-bit pointers, the
/// five flags, the interrupt-enable and halt latches, the pending-interrupt
/// slot, and the 64 KiB memory backing store.
#[verifier::ext_equal]
pub ghost struct CpuV {
    pub a: u8,
    pub b: u8,
    pub c: u8,
    pub d: u8,
    pub e: u8,
    pub h: u8,
    pub l: u8,
    pub pc: u16,
    pub sp: u16,
    pub z: bool,
    pub s: bool,
    pub p: bool,
    pub cy: bool,
    pub ac: bool,
    pub inte: bool,
    pub halt: bool,
    pub pending: Option<u8>,
    pub mem: Seq<u8>,
}

/// 16-bit value from a high and a low byte.
pub open spec fn pair16(hi: u8, lo: u8) -> u16 {
    (((hi as u16) << 8) | (lo as u16)) as u16
}

/// High byte of a 16-bit value.
pub open spec fn hi8(v: u16) -> u8 {
    (v >> 8) as u8
}

/// Low byte of a 16-bit value.
pub open spec fn lo8(v: u16) -> u8 {
    (v & 0xFF) as u8
}

/// 16-bit addition, wrapping modulo 2^16.
pub open spec fn wadd16(x: u16, k: u16) -> u16 {
    ((x + k) % 0x10000) as u16
}

/// 16-bit subtraction, wrapping modulo 2^16.
pub open spec fn wsub16(x: u16, k: u16) -> u16 {
    ((x + 0x10000 - k) % 0x10000) as u16
}

/// Register-pair views.
pub open spec fn bc_of(st: CpuV) -> u16 {
    pair16(st.b, st.c)
}

pub open spec fn de_of(st: CpuV) -> u16 {
    pair16(st.d, st.e)
}

pub open spec fn hl_of(st: CpuV) -> u16 {
    pair16(st.h, st.l)
}

/// Value of the register operand `idx` (0=B 1=C 2=D 3=E 4=H 5=L 6=M 7=A);
/// operand 6 reads memory at HL.
pub open spec fn reg8(st: CpuV, idx: u8) -> u8 {
    if idx == 0 {
        st.b
    } else if idx == 1 {
        st.c
    } else if idx == 2 {
        st.d
    } else if idx == 3 {
        st.e
    } else if idx == 4 {
        st.h
    } else if idx == 5 {
        st.l
    } else if idx == 6 {
        mem_read(st.mem, hl_of(st))
    } else {
        st.a
    }
}

/// State with register operand `idx` set to `v`; operand 6 writes memory at
/// HL (subject to the memory map, so a ROM target discards the write).
pub open spec fn with_reg8(st: CpuV, idx: u8, v: u8) -> CpuV {
    if idx == 0 {
        CpuV { b: v, ..st }
    } else if idx == 1 {
        CpuV { c: v, ..st }
    } else if idx == 2 {
        CpuV { d: v, ..st }
    } else if idx == 3 {
        CpuV { e: v, ..st }
    } else if idx == 4 {
        CpuV { h: v, ..st }
    } else if idx == 5 {
        CpuV { l: v, ..st }
    } else if idx == 6 {
        CpuV { mem: mem_write(st.mem, hl_of(st), v), ..st }
    } else {
        CpuV { a: v, ..st }
    }
}

/// Value of register pair `idx` (0=BC 1=DE 2=HL 3=SP).
pub open spec fn rp16(st: CpuV, idx: u8) -> u16 {
    if idx == 0 {
        bc_of(st)
    } else if idx == 1 {
        de_of(st)
    } else if idx == 2 {
        hl_of(st)
    } else {
        st.sp
    }
}

/// State with register pair `idx` set to `v`.
pub open spec fn with_rp16(st: CpuV, idx: u8, v: u16) -> CpuV {
    if idx == 0 {
        CpuV { b: hi8(v), c: lo8(v), ..st }
    } else if idx == 1 {
        CpuV { d: hi8(v), e: lo8(v), ..st }
    } else if idx == 2 {
        CpuV { h: hi8(v), l: lo8(v), ..st }
    } else {
        CpuV { sp: v, ..st }
    }
}

/// State with Z, S and P set from the 8-bit result `r`.
pub open spec fn with_zsp(st: CpuV, r: u8) -> CpuV {
    CpuV { z: r == 0, s: sign_of(r), p: parity_even(r), ..st }
}

/// Condition codes for Jcc/Ccc/Rcc: NZ Z NC C PO PE P M.
pub open spec fn cond(st: CpuV, idx: u8) -> bool {
    if idx == 0 {
        !st.z
    } else if idx == 1 {
        st.z
    } else if idx == 2 {
        !st.cy
    } else if idx == 3 {
        st.cy
    } else if idx == 4 {
        !st.p
    } else if idx == 5 {
        st.p
    } else if idx == 6 {
        !st.s
    } else {
        st.s
    }
}

/// Addition into A (`c` is 0, or 1 for ADC with carry set): all five flags
/// from the 8-bit result.
pub open spec fn alu_add(st: CpuV, v: u8, c: u8) -> CpuV {
    let r = add_res(st.a, v, c);
    CpuV { a: r, cy: add_carry(st.a, v, c), ac: add_aux(st.a, v, c), ..with_zsp(st, r) }
}

/// Subtraction from A (`c` is 0, or 1 for SBB with carry set).
pub open spec fn alu_sub(st: CpuV, v: u8, c: u8) -> CpuV {
    let r = sub_res(st.a, v, c);
    CpuV { a: r, cy: sub_borrow(st.a, v, c), ac: sub_aux(st.a, v, c), ..with_zsp(st, r) }
}

/// ANA: AND into A; CY cleared, AC from bit 3 of the operands (the
/// documented 8080 convention).
pub open spec fn alu_and(st: CpuV, v: u8) -> CpuV {
    let r = (st.a & v) as u8;
    CpuV { a: r, cy: false, ac: (st.a | v) & 0x08 != 0, ..with_zsp(st, r) }
}

/// XRA: XOR into A; CY and AC cleared.
pub open spec fn alu_xor(st: CpuV, v: u8) -> CpuV {
    let r = (st.a ^ v) as u8;
    CpuV { a: r, cy: false, ac: false, ..with_zsp(st, r) }
}

/// ORA: OR into A; CY and AC cleared.
pub open spec fn alu_or(st: CpuV, v: u8) -> CpuV {
    let r = (st.a | v) as u8;
    CpuV { a: r, cy: false, ac: false, ..with_zsp(st, r) }
}

/// CMP: flags as SUB, but A is not written; CY is exactly "A < v" unsigned.
pub open spec fn alu_cmp(st: CpuV, v: u8) -> CpuV {
    let r = sub_res(st.a, v, 0);
    CpuV { cy: sub_borrow(st.a, v, 0), ac: sub_aux(st.a, v, 0), ..with_zsp(st, r) }
}

/// Accumulator ALU operation `g` (0=ADD 1=ADC 2=SUB 3=SBB 4=ANA 5=XRA 6=ORA
/// 7=CMP) applied to operand `v`. Does not touch PC.
pub open spec fn alu_app(st: CpuV, g: u8, v: u8) -> CpuV {
    if g == 0 {
        alu_add(st, v, 0)
    } else if g == 1 {
        alu_add(st, v, cy_in(st.cy))
    } else if g == 2 {
        alu_sub(st, v, 0)
    } else if g == 3 {
        alu_sub(st, v, cy_in(st.cy))
    } else if g == 4 {
        alu_and(st, v)
    } else if g == 5 {
        alu_xor(st, v)
    } else if g == 6 {
        alu_or(st, v)
    } else {
        alu_cmp(st, v)
    }
}

/// State after pushing the 16-bit value `v`: high byte at SP-1, low byte at
/// SP-2, SP decremented by 2. The writes go through the memory map.
pub open spec fn push16(st: CpuV, v: u16) -> CpuV {
    let m1 = mem_write(st.mem, wsub16(st.sp, 1), hi8(v));
    let m2 = mem_write(m1, wsub16(st.sp, 2), lo8(v));
    CpuV { sp: wsub16(st.sp, 2), mem: m2, ..st }
}

/// The 16-bit value a POP would return: low byte at SP, high byte at SP+1.
pub open spec fn pop_val(st: CpuV) -> u16 {
    pair16(mem_read(st.mem, wadd16(st.sp, 1)), mem_read(st.mem, st.sp))
}

/// Immediate operand byte (at PC+1).
pub open spec fn imm8(st: CpuV) -> u8 {
    mem_read(st.mem, wadd16(st.pc, 1))
}

/// Immediate 16-bit operand (little-endian at PC+1, PC+2).
pub open spec fn imm16(st: CpuV) -> u16 {
    pair16(mem_read(st.mem, wadd16(st.pc, 2)), imm8(st))
}

/// State after a CALL to `t`: the address of the following instruction
/// (PC+3) is pushed, and PC is set to the target.
pub open spec fn call_to(st: CpuV, t: u16) -> CpuV {
    CpuV { pc: t, ..push16(st, wadd16(st.pc, 3)) }
}

/// State after an unconditional RET: PC is popped from the stack.
pub open spec fn ret_from(st: CpuV) -> CpuV {
    CpuV { pc: pop_val(st), sp: wadd16(st.sp, 2), ..st }
}

/// Opcode at PC.
pub open spec fn cur_op(st: CpuV) -> u8 {
    mem_read(st.mem, st.pc)
}

/// A pending interrupt is acknowledged at a step boundary exactly when the
/// slot is valid and INTE is set.
pub open spec fn ack_ready(st: CpuV) -> bool {
    st.pending is Some && st.inte
}

/// Interrupt acknowledgment: the pending slot and INTE are cleared, the halt
/// latch is released, the current PC is pushed, and execution vectors to the
/// restart address encoded in the opcode (`op & 0x38`).
pub open spec fn ack_step(st: CpuV) -> CpuV {
    let op = st.pending.unwrap();
    CpuV {
        pc: (op & 0x38) as u16,
        inte: false,
        halt: false,
        pending: None,
        ..push16(st, st.pc)
    }
}

pub open spec fn is_mov(op: u8) -> bool {
    0x40 <= op && op < 0x80 && op != 0x76
}

pub open spec fn is_alu_reg(op: u8) -> bool {
    0x80 <= op && op < 0xC0
}

/// NOP (and the invalid opcodes, defined to behave as NOP): only PC moves.
pub open spec fn nop_step(st: CpuV) -> CpuV {
    CpuV { pc: wadd16(st.pc, 1), ..st }
}

/// MOV dst,src (with operand 6 standing for memory at HL).
pub open spec fn mov_step(st: CpuV, op: u8) -> CpuV {
    CpuV { pc: wadd16(st.pc, 1), ..with_reg8(st, (op >> 3) & 7, reg8(st, op & 7)) }
}

/// INR: 8-bit increment of operand `idx`; Z, S, P and AC are set from the
/// operation, CY is untouched.
pub open spec fn inr_step(st: CpuV, idx: u8) -> CpuV {
    let v = reg8(st, idx);
    let r = add_res(v, 1, 0);
    CpuV {
        ac: (v & 0xF) + 1 > 0xF,
        pc: wadd16(st.pc, 1),
        ..with_zsp(with_reg8(st, idx, r), r)
    }
}

/// DCR: 8-bit decrement; Z, S, P and AC are set, CY is untouched.
pub open spec fn dcr_step(st: CpuV, idx: u8) -> CpuV {
    let v = reg8(st, idx);
    let r = sub_res(v, 1, 0);
    CpuV {
        ac: ((v & 0xF) as int) < 1,
        pc: wadd16(st.pc, 1),
        ..with_zsp(with_reg8(st, idx, r), r)
    }
}

/// DAA decimal adjust, per the two-stage nibble rule; CY once set stays set.
pub open spec fn daa_step(st: CpuV) -> CpuV {
    let a0 = st.a;
    let low_adj = (a0 & 0x0F) > 9 || st.ac;
    let a1 = if low_adj {
        add_res(a0, 6, 0)
    } else {
        a0
    };
    let ac1 = if low_adj {
        (a0 & 0x0F) + 6 > 0x0F
    } else {
        false
    };
    let high_adj = (a1 >> 4) > 9 || st.cy;
    let a2 = if high_adj {
        add_res(a1, 0x60, 0)
    } else {
        a1
    };
    let cy2 = if high_adj {
        true
    } else {
        st.cy
    };
    CpuV { a: a2, ac: ac1, cy: cy2, pc: wadd16(st.pc, 1), ..with_zsp(st, a2) }
}

/// The instructions with opcodes below 0x40 (loads, increments, rotates,
/// the register-pair arithmetic, and the flag one-liners).
#[verifier::opaque]
pub open spec fn lo_step(st: CpuV, op: u8) -> CpuV {
    let pc1 = wadd16(st.pc, 1);
    let pc2 = wadd16(st.pc, 2);
    let pc3 = wadd16(st.pc, 3);
    if op == 0x07 {
        // RLC
        CpuV { a: ((st.a << 1) | (st.a >> 7)) as u8, cy: st.a & 0x80 != 0, pc: pc1, ..st }
    } else if op == 0x0F {
        // RRC
        CpuV { a: ((st.a >> 1) | (st.a << 7)) as u8, cy: st.a & 0x01 != 0, pc: pc1, ..st }
    } else if op == 0x17 {
        // RAL
        CpuV { a: ((st.a << 1) | cy_in(st.cy)) as u8, cy: st.a & 0x80 != 0, pc: pc1, ..st }
    } else if op == 0x1F {
        // RAR
        let hi = if st.cy {
            0x80u8
        } else {
            0u8
        };
        CpuV { a: ((st.a >> 1) | hi) as u8, cy: st.a & 0x01 != 0, pc: pc1, ..st }
    } else if op == 0x27 {
        // DAA
        daa_step(st)
    } else if op == 0x2F {
        // CMA
        CpuV { a: !st.a, pc: pc1, ..st }
    } else if op == 0x37 {
        // STC
        CpuV { cy: true, pc: pc1, ..st }
    } else if op == 0x3F {
        // CMC: complement the carry flag only
        CpuV { cy: !st.cy, pc: pc1, ..st }
    } else if op == 0x02 {
        // STAX B
        CpuV { mem: mem_write(st.mem, bc_of(st), st.a), pc: pc1, ..st }
    } else if op == 0x12 {
        // STAX D
        CpuV { mem: mem_write(st.mem, de_of(st), st.a), pc: pc1, ..st }
    } else if op == 0x0A {
        // LDAX B
        CpuV { a: mem_read(st.mem, bc_of(st)), pc: pc1, ..st }
    } else if op == 0x1A {
        // LDAX D
        CpuV { a: mem_read(st.mem, de_of(st)), pc: pc1, ..st }
    } else if op == 0x22 {
        // SHLD
        let t = imm16(st);
        let m1 = mem_write(st.mem, t, st.l);
        CpuV { mem: mem_write(m1, wadd16(t, 1), st.h), pc: pc3, ..st }
    } else if op == 0x2A {
        // LHLD
        let t = imm16(st);
        CpuV { l: mem_read(st.mem, t), h: mem_read(st.mem, wadd16(t, 1)), pc: pc3, ..st }
    } else if op == 0x32 {
        // STA
        CpuV { mem: mem_write(st.mem, imm16(st), st.a), pc: pc3, ..st }
    } else if op == 0x3A {
        // LDA
        CpuV { a: mem_read(st.mem, imm16(st)), pc: pc3, ..st }
    } else if op & 0xC7 == 0x06 {
        // MVI r,d8
        CpuV { pc: pc2, ..with_reg8(st, (op >> 3) & 7, imm8(st)) }
    } else if op & 0xC7 == 0x04 {
        // INR r
        inr_step(st, (op >> 3) & 7)
    } else if op & 0xC7 == 0x05 {
        // DCR r
        dcr_step(st, (op >> 3) & 7)
    } else if op & 0xCF == 0x01 {
        // LXI rp,d16
        CpuV { pc: pc3, ..with_rp16(st, (op >> 4) & 3, imm16(st)) }
    } else if op & 0xCF == 0x09 {
        // DAD rp
        let hl = hl_of(st);
        let v = rp16(st, (op >> 4) & 3);
        CpuV { cy: hl + v > 0xFFFF, pc: pc1, ..with_rp16(st, 2, wadd16(hl, v)) }
    } else if op & 0xCF == 0x03 {
        // INX rp
        let i = (op >> 4) & 3;
        CpuV { pc: pc1, ..with_rp16(st, i, wadd16(rp16(st, i), 1)) }
    } else if op & 0xCF == 0x0B {
        // DCX rp
        let i = (op >> 4) & 3;
        CpuV { pc: pc1, ..with_rp16(st, i, wsub16(rp16(st, i), 1)) }
    } else {
        // NOP and the invalid opcodes below 0x40
        nop_step(st)
    }
}

/// The instructions with opcodes 0xC0 and above (control transfer, stack,
/// I/O and the interrupt latch), plus HLT.
#[verifier::opaque]
pub open spec fn hi_step(st: CpuV, input: u8, op: u8) -> CpuV {
    let pc1 = wadd16(st.pc, 1);
    let pc2 = wadd16(st.pc, 2);
    let pc3 = wadd16(st.pc, 3);
    if op == 0x76 {
        // HLT: the halt latch is set; PC advances past the instruction
        CpuV { halt: true, pc: pc1, ..st }
    } else if op == 0xC3 {
        // JMP
        CpuV { pc: imm16(st), ..st }
    } else if op == 0xC9 {
        // RET
        ret_from(st)
    } else if op == 0xCD {
        // CALL
        call_to(st, imm16(st))
    } else if op == 0xD3 {
        // OUT: the bus takes the byte; the CPU itself only advances
        CpuV { pc: pc2, ..st }
    } else if op == 0xDB {
        // IN
        CpuV { a: input, pc: pc2, ..st }
    } else if op == 0xE3 {
        // XTHL
        let m1 = mem_write(st.mem, st.sp, st.l);
        let m2 = mem_write(m1, wadd16(st.sp, 1), st.h);
        CpuV {
            l: mem_read(st.mem, st.sp),
            h: mem_read(st.mem, wadd16(st.sp, 1)),
            mem: m2,
            pc: pc1,
            ..st
        }
    } else if op == 0xE9 {
        // PCHL
        CpuV { pc: hl_of(st), ..st }
    } else if op == 0xEB {
        // XCHG
        CpuV { d: st.h, e: st.l, h: st.d, l: st.e, pc: pc1, ..st }
    } else if op == 0xF3 {
        // DI
        CpuV { inte: false, pc: pc1, ..st }
    } else if op == 0xF9 {
        // SPHL
        CpuV { sp: hl_of(st), pc: pc1, ..st }
    } else if op == 0xFB {
        // EI
        CpuV { inte: true, pc: pc1, ..st }
    } else if op & 0xC7 == 0xC0 {
        // Rcc
        if cond(st, (op >> 3) & 7) {
            ret_from(st)
        } else {
            CpuV { pc: pc1, ..st }
        }
    } else if op & 0xC7 == 0xC2 {
        // Jcc
        if cond(st, (op >> 3) & 7) {
            CpuV { pc: imm16(st), ..st }
        } else {
            CpuV { pc: pc3, ..st }
        }
    } else if op & 0xC7 == 0xC4 {
        // Ccc
        if cond(st, (op >> 3) & 7) {
            call_to(st, imm16(st))
        } else {
            CpuV { pc: pc3, ..st }
        }
    } else if op & 0xC7 == 0xC6 {
        // ALU immediate
        CpuV { pc: pc2, ..alu_app(st, (op >> 3) & 7, imm8(st)) }
    } else if op & 0xC7 == 0xC7 {
        // RST n
        CpuV { pc: (op & 0x38) as u16, ..push16(st, pc1) }
    } else if op & 0xCF == 0xC5 {
        // PUSH rp / PUSH PSW
        let i = (op >> 4) & 3;
        let v = if i == 3 {
            pair16(st.a, psw_byte(st.z, st.s, st.p, st.cy, st.ac))
        } else {
            rp16(st, i)
        };
        CpuV { pc: pc1, ..push16(st, v) }
    } else if op & 0xCF == 0xC1 {
        // POP rp / POP PSW
        let i = (op >> 4) & 3;
        let v = pop_val(st);
        let sp2 = wadd16(st.sp, 2);
        if i == 3 {
            let f = lo8(v);
            CpuV {
                a: hi8(v),
                z: psw_z(f),
                s: psw_s(f),
                p: psw_p(f),
                cy: psw_cy(f),
                ac: psw_ac(f),
                sp: sp2,
                pc: pc1,
                ..st
            }
        } else {
            CpuV { sp: sp2, pc: pc1, ..with_rp16(st, i, v) }
        }
    } else {
        // the invalid opcodes, defined to behave as NOP
        nop_step(st)
    }
}

/// The remaining (non-MOV, non-register-ALU) instructions.
#[verifier::opaque]
pub open spec fn misc_step(st: CpuV, input: u8, op: u8) -> CpuV {
    if op < 0x40 {
        lo_step(st, op)
    } else {
        hi_step(st, input, op)
    }
}

/// One instruction executed at PC (no interrupt, not halted). `input` is the
/// byte the bus supplies for an IN instruction; every other instruction
/// ignores it.
#[verifier::opaque]
pub open spec fn exec_step(st: CpuV, input: u8) -> CpuV {
    let op = cur_op(st);
    if is_mov(op) {
        mov_step(st, op)
    } else if is_alu_reg(op) {
        CpuV { pc: wadd16(st.pc, 1), ..alu_app(st, (op >> 3) & 7, reg8(st, op & 7)) }
    } else {
        misc_step(st, input, op)
    }
}

/// One full CPU step: acknowledge a pending interrupt if INTE is set,
/// otherwise stay quiescent while halted, otherwise execute the instruction
/// at PC.
pub open spec fn step_spec(st: CpuV, input: u8) -> CpuV {
    if ack_ready(st) {
        ack_step(st)
    } else if st.halt {
        st
    } else {
        exec_step(st, input)
    }
}

/// Port operand of an IN/OUT instruction (the byte at PC+1).
pub open spec fn io_port(st: CpuV) -> u8 {
    imm8(st)
}

/// The step writes a byte to the bus exactly when it executes an OUT.
pub open spec fn does_out(st: CpuV) -> bool {
    !ack_ready(st) && !st.halt && cur_op(st) == 0xD3
}

} // verus!
