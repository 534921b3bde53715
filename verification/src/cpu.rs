//! The executable 8080 core. Every operation is proved against the
//! specification interpreter in `model`: `step` implements `step_spec`
//! exactly, for every opcode, every state and every bus.

use vstd::prelude::*;

use crate::bus::IoBus;
use crate::mem::{mem_read, mem_write, Mem, MEM_SIZE};
use crate::model::{
    ack_ready, ack_step, alu_add, alu_and, alu_app, alu_cmp, alu_or, alu_sub, alu_xor, bc_of,
    call_to, cond, cur_op, daa_step, dcr_step, de_of, does_out, exec_step, hi8, hi_step, hl_of,
    imm16, imm8, inr_step, io_port, lo8, lo_step, misc_step, mov_step, pair16, pop_val, push16,
    reg8, ret_from, rp16, step_spec, wadd16, with_reg8, with_rp16, with_zsp, wsub16, CpuV,
};
use crate::flags::{parity_even_exec, psw_byte, sign_exec};

verus! {

/// 16-bit add, wrapping modulo 2^16.
pub fn madd16(x: u16, k: u16) -> (r: u16)
    ensures
        r == wadd16(x, k),
{
    (((x as u32) + (k as u32)) % 0x10000) as u16
}

/// 16-bit subtract, wrapping modulo 2^16.
pub fn msub16(x: u16, k: u16) -> (r: u16)
    ensures
        r == wsub16(x, k),
{
    (((x as u32) + 0x10000 - (k as u32)) % 0x10000) as u16
}

/// The 8080 CPU with its memory. The registers, flags and latches are plain
/// fields; the abstract view gathers them into a `CpuV`.
pub struct Cpu8080 {
    pub a: u8,
    pub b: u8,
    pub c: u8,
    pub d: u8,
    pub e: u8,
    pub h: u8,
    pub l: u8,
    /// program counter
    pub pc: u16,
    /// stack pointer
    pub sp: u16,
    /// zero
    pub z: bool,
    /// sign
    pub s: bool,
    /// parity
    pub p: bool,
    /// carry
    pub cy: bool,
    /// auxiliary carry
    pub ac: bool,
    /// the INTE interrupt-enable latch
    pub interrupt: bool,
    /// the halt latch
    pub halt: bool,
    /// whether the pending-interrupt slot holds an opcode
    pub pending_valid: bool,
    /// the opcode in the pending-interrupt slot
    pub pending_op: u8,
    pub memory: Mem,
}

impl Cpu8080 {
    pub open spec fn view(&self) -> CpuV {
        CpuV {
            a: self.a,
            b: self.b,
            c: self.c,
            d: self.d,
            e: self.e,
            h: self.h,
            l: self.l,
            pc: self.pc,
            sp: self.sp,
            z: self.z,
            s: self.s,
            p: self.p,
            cy: self.cy,
            ac: self.ac,
            inte: self.interrupt,
            halt: self.halt,
            pending: if self.pending_valid {
                Some(self.pending_op)
            } else {
                None
            },
            mem: self.memory@,
        }
    }

    pub open spec fn wf(&self) -> bool {
        self.memory.wf()
    }

    /// Power-on state: everything zero, pending slot empty.
    pub fn new() -> (r: Cpu8080)
        ensures
            r.wf(),
            r@.a == 0 && r@.b == 0 && r@.c == 0 && r@.d == 0 && r@.e == 0 && r@.h == 0 && r@.l
                == 0,
            r@.pc == 0 && r@.sp == 0,
            !r@.z && !r@.s && !r@.p && !r@.cy && !r@.ac,
            !r@.inte && !r@.halt,
            r@.pending is None,
            forall|i: int| 0 <= i < MEM_SIZE ==> r@.mem[i] == 0u8,
    {
        Cpu8080 {
            a: 0,
            b: 0,
            c: 0,
            d: 0,
            e: 0,
            h: 0,
            l: 0,
            pc: 0,
            sp: 0,
            z: false,
            s: false,
            p: false,
            cy: false,
            ac: false,
            interrupt: false,
            halt: false,
            pending_valid: false,
            pending_op: 0,
            memory: Mem::new(),
        }
    }

    /// Overlays a ROM image at address 0; registers and latches keep their
    /// values.
    pub fn load(&mut self, rom: &Vec<u8>)
        requires
            old(self).wf(),
            rom@.len() <= 0x2000,
        ensures
            final(self).wf(),
            final(self)@ == (CpuV { mem: final(self)@.mem, ..old(self)@ }),
            forall|i: int| 0 <= i < rom@.len() ==> final(self)@.mem[i] == rom@[i],
            forall|i: int|
                rom@.len() <= i < MEM_SIZE ==> final(self)@.mem[i] == old(self)@.mem[i],
    {
        self.memory.load(rom);
    }

    /// Memory read through the address map.
    pub fn read(&self, addr: u16) -> (r: u8)
        requires
            self.wf(),
        ensures
            r == mem_read(self@.mem, addr),
    {
        self.memory.read(addr)
    }

    /// Memory write through the address map (ROM and unmapped space are
    /// protected).
    pub fn write(&mut self, addr: u16, val: u8)
        requires
            old(self).wf(),
        ensures
            final(self).wf(),
            final(self)@ == (CpuV { mem: mem_write(old(self)@.mem, addr, val), ..old(self)@ }),
    {
        self.memory.write(addr, val);
    }

    pub fn bc(&self) -> (r: u16)
        ensures
            r == bc_of(self@),
    {
        ((self.b as u16) << 8) | (self.c as u16)
    }

    pub fn de(&self) -> (r: u16)
        ensures
            r == de_of(self@),
    {
        ((self.d as u16) << 8) | (self.e as u16)
    }

    pub fn hl(&self) -> (r: u16)
        ensures
            r == hl_of(self@),
    {
        ((self.h as u16) << 8) | (self.l as u16)
    }

    pub fn set_bc(&mut self, v: u16)
        ensures
            final(self)@ == (CpuV { b: hi8(v), c: lo8(v), ..old(self)@ }),
            final(self).wf() == old(self).wf(),
    {
        self.b = (v >> 8) as u8;
        self.c = (v & 0xFF) as u8;
    }

    pub fn set_de(&mut self, v: u16)
        ensures
            final(self)@ == (CpuV { d: hi8(v), e: lo8(v), ..old(self)@ }),
            final(self).wf() == old(self).wf(),
    {
        self.d = (v >> 8) as u8;
        self.e = (v & 0xFF) as u8;
    }

    pub fn set_hl(&mut self, v: u16)
        ensures
            final(self)@ == (CpuV { h: hi8(v), l: lo8(v), ..old(self)@ }),
            final(self).wf() == old(self).wf(),
    {
        self.h = (v >> 8) as u8;
        self.l = (v & 0xFF) as u8;
    }

    /// Register operand read (0=B 1=C 2=D 3=E 4=H 5=L 6=M 7=A).
    fn get_reg(&self, idx: u8) -> (r: u8)
        requires
            self.wf(),
        ensures
            r == reg8(self@, idx),
    {
        if idx == 0 {
            self.b
        } else if idx == 1 {
            self.c
        } else if idx == 2 {
            self.d
        } else if idx == 3 {
            self.e
        } else if idx == 4 {
            self.h
        } else if idx == 5 {
            self.l
        } else if idx == 6 {
            let addr = self.hl();
            self.read(addr)
        } else {
            self.a
        }
    }

    /// Register operand write; operand 6 writes memory at HL.
    fn set_reg(&mut self, idx: u8, v: u8)
        requires
            old(self).wf(),
        ensures
            final(self).wf(),
            final(self)@ == with_reg8(old(self)@, idx, v),
    {
        if idx == 0 {
            self.b = v;
        } else if idx == 1 {
            self.c = v;
        } else if idx == 2 {
            self.d = v;
        } else if idx == 3 {
            self.e = v;
        } else if idx == 4 {
            self.h = v;
        } else if idx == 5 {
            self.l = v;
        } else if idx == 6 {
            let addr = self.hl();
            self.write(addr, v);
        } else {
            self.a = v;
        }
    }

    /// Register-pair read (0=BC 1=DE 2=HL 3=SP).
    fn get_rp(&self, idx: u8) -> (r: u16)
        ensures
            r == rp16(self@, idx),
    {
        if idx == 0 {
            self.bc()
        } else if idx == 1 {
            self.de()
        } else if idx == 2 {
            self.hl()
        } else {
            self.sp
        }
    }

    /// Register-pair write.
    fn set_rp(&mut self, idx: u8, v: u16)
        ensures
            final(self)@ == with_rp16(old(self)@, idx, v),
            final(self).wf() == old(self).wf(),
    {
        if idx == 0 {
            self.set_bc(v);
        } else if idx == 1 {
            self.set_de(v);
        } else if idx == 2 {
            self.set_hl(v);
        } else {
            self.sp = v;
        }
    }

    /// Z, S and P from an 8-bit result.
    fn set_zsp(&mut self, r: u8)
        ensures
            final(self)@ == with_zsp(old(self)@, r),
            final(self).wf() == old(self).wf(),
    {
        self.z = r == 0;
        self.s = sign_exec(r);
        self.p = parity_even_exec(r);
    }

    /// The condition encoded by `idx` (NZ Z NC C PO PE P M).
    fn test_cond(&self, idx: u8) -> (r: bool)
        ensures
            r == cond(self@, idx),
    {
        if idx == 0 {
            !self.z
        } else if idx == 1 {
            self.z
        } else if idx == 2 {
            !self.cy
        } else if idx == 3 {
            self.cy
        } else if idx == 4 {
            !self.p
        } else if idx == 5 {
            self.p
        } else if idx == 6 {
            !self.s
        } else {
            self.s
        }
    }

    /// The 16-bit operand at PC+1, PC+2 (little-endian).
    pub fn next_memory(&self) -> (r: u16)
        requires
            self.wf(),
        ensures
            r == imm16(self@),
    {
        let lo = self.read(madd16(self.pc, 1));
        let hi = self.read(madd16(self.pc, 2));
        ((hi as u16) << 8) | (lo as u16)
    }

    /// The 8-bit operand at PC+1.
    fn next_byte(&self) -> (r: u8)
        requires
            self.wf(),
        ensures
            r == imm8(self@),
    {
        self.read(madd16(self.pc, 1))
    }

    /// Pops a 16-bit value: low byte at SP, high byte at SP+1; SP += 2.
    pub fn pop(&mut self) -> (r: u16)
        requires
            old(self).wf(),
        ensures
            final(self).wf(),
            r == pop_val(old(self)@),
            final(self)@ == (CpuV { sp: wadd16(old(self)@.sp, 2), ..old(self)@ }),
    {
        let lo = self.read(self.sp);
        let hi = self.read(madd16(self.sp, 1));
        self.sp = madd16(self.sp, 2);
        ((hi as u16) << 8) | (lo as u16)
    }

    /// Pushes a 16-bit value: high byte to SP-1, low byte to SP-2; SP -= 2.
    pub fn push(&mut self, v: u16)
        requires
            old(self).wf(),
        ensures
            final(self).wf(),
            final(self)@ == push16(old(self)@, v),
    {
        let sp1 = msub16(self.sp, 1);
        let sp2 = msub16(self.sp, 2);
        self.write(sp1, (v >> 8) as u8);
        self.write(sp2, (v & 0xFF) as u8);
        self.sp = sp2;
    }

    /// CALL: pushes the address of the following instruction (PC+3) and
    /// transfers to `addr`.
    pub fn call(&mut self, addr: u16)
        requires
            old(self).wf(),
        ensures
            final(self).wf(),
            final(self)@ == call_to(old(self)@, addr),
    {
        let ret = madd16(self.pc, 3);
        self.push(ret);
        self.pc = addr;
    }

    /// Stores `op` in the pending-interrupt slot; only the most recent
    /// request is kept. The CPU honors it at the next step boundary when
    /// INTE is set.
    pub fn raise_interrupt(&mut self, op: u8)
        ensures
            final(self)@ == (CpuV { pending: Some(op), ..old(self)@ }),
            final(self).wf() == old(self).wf(),
    {
        self.pending_op = op;
        self.pending_valid = true;
    }

    /// ADD/ADC: `c` must be 0 or 1.
    fn ex_add(&mut self, v: u8, c: u8)
        requires
            old(self).wf(),
            c <= 1,
        ensures
            final(self).wf(),
            final(self)@ == alu_add(old(self)@, v, c),
    {
        let a = self.a;
        let sum: u32 = a as u32 + v as u32 + c as u32;
        let r = (sum % 256) as u8;
        self.set_zsp(r);
        self.a = r;
        self.cy = sum > 255;
        self.ac = (a & 0xF) as u32 + (v & 0xF) as u32 + c as u32 > 0xF;
    }

    /// SUB/SBB: `c` must be 0 or 1.
    fn ex_sub(&mut self, v: u8, c: u8)
        requires
            old(self).wf(),
            c <= 1,
        ensures
            final(self).wf(),
            final(self)@ == alu_sub(old(self)@, v, c),
    {
        let a = self.a;
        let r = ((a as u32 + 512 - v as u32 - c as u32) % 256) as u8;
        self.set_zsp(r);
        self.a = r;
        self.cy = (a as u32) < v as u32 + c as u32;
        self.ac = ((a & 0xF) as u32) < (v & 0xF) as u32 + c as u32;
    }

    fn ex_and(&mut self, v: u8)
        requires
            old(self).wf(),
        ensures
            final(self).wf(),
            final(self)@ == alu_and(old(self)@, v),
    {
        let a = self.a;
        let r = a & v;
        self.set_zsp(r);
        self.a = r;
        self.cy = false;
        self.ac = (a | v) & 0x08 != 0;
    }

    fn ex_xor(&mut self, v: u8)
        requires
            old(self).wf(),
        ensures
            final(self).wf(),
            final(self)@ == alu_xor(old(self)@, v),
    {
        let r = self.a ^ v;
        self.set_zsp(r);
        self.a = r;
        self.cy = false;
        self.ac = false;
    }

    fn ex_or(&mut self, v: u8)
        requires
            old(self).wf(),
        ensures
            final(self).wf(),
            final(self)@ == alu_or(old(self)@, v),
    {
        let r = self.a | v;
        self.set_zsp(r);
        self.a = r;
        self.cy = false;
        self.ac = false;
    }

    fn ex_cmp(&mut self, v: u8)
        requires
            old(self).wf(),
        ensures
            final(self).wf(),
            final(self)@ == alu_cmp(old(self)@, v),
    {
        let a = self.a;
        let r = ((a as u32 + 512 - v as u32) % 256) as u8;
        self.set_zsp(r);
        self.cy = (a as u32) < v as u32;
        self.ac = ((a & 0xF) as u32) < (v & 0xF) as u32;
    }

    /// Applies accumulator ALU group `g` to operand `v` (flags and A; PC is
    /// left alone).
    fn alu_apply(&mut self, g: u8, v: u8)
        requires
            old(self).wf(),
        ensures
            final(self).wf(),
            final(self)@ == alu_app(old(self)@, g, v),
    {
        let c: u8 = if self.cy {
            1
        } else {
            0
        };
        if g == 0 {
            self.ex_add(v, 0);
        } else if g == 1 {
            self.ex_add(v, c);
        } else if g == 2 {
            self.ex_sub(v, 0);
        } else if g == 3 {
            self.ex_sub(v, c);
        } else if g == 4 {
            self.ex_and(v);
        } else if g == 5 {
            self.ex_xor(v);
        } else if g == 6 {
            self.ex_or(v);
        } else {
            self.ex_cmp(v);
        }
    }

    /// MOV dst,src (operand 6 is memory at HL).
    fn exec_mov(&mut self, op: u8)
        requires
            old(self).wf(),
        ensures
            final(self).wf(),
            final(self)@ == mov_step(old(self)@, op),
    {
        let v = self.get_reg(op & 7);
        self.set_reg((op >> 3) & 7, v);
        self.pc = madd16(self.pc, 1);
    }

    /// The register forms of the eight accumulator ALU operations.
    fn exec_alu_reg(&mut self, op: u8)
        requires
            old(self).wf(),
        ensures
            final(self).wf(),
            final(self)@ == (CpuV {
                pc: wadd16(old(self)@.pc, 1),
                ..alu_app(old(self)@, (op >> 3) & 7, reg8(old(self)@, op & 7))
            }),
    {
        let v = self.get_reg(op & 7);
        self.alu_apply((op >> 3) & 7, v);
        self.pc = madd16(self.pc, 1);
    }

    /// The immediate forms (ADI ACI SUI SBI ANI XRI ORI CPI).
    fn exec_alu_imm(&mut self, op: u8)
        requires
            old(self).wf(),
        ensures
            final(self).wf(),
            final(self)@ == (CpuV {
                pc: wadd16(old(self)@.pc, 2),
                ..alu_app(old(self)@, (op >> 3) & 7, imm8(old(self)@))
            }),
    {
        let v = self.next_byte();
        self.alu_apply((op >> 3) & 7, v);
        self.pc = madd16(self.pc, 2);
    }

    /// INR r.
    fn exec_inr(&mut self, op: u8)
        requires
            old(self).wf(),
        ensures
            final(self).wf(),
            final(self)@ == inr_step(old(self)@, (op >> 3) & 7),
    {
        let idx = (op >> 3) & 7;
        let v = self.get_reg(idx);
        let r = ((v as u32 + 1) % 256) as u8;
        self.set_reg(idx, r);
        self.set_zsp(r);
        self.ac = (v & 0xF) as u32 + 1 > 0xF;
        self.pc = madd16(self.pc, 1);
    }

    /// DCR r.
    fn exec_dcr(&mut self, op: u8)
        requires
            old(self).wf(),
        ensures
            final(self).wf(),
            final(self)@ == dcr_step(old(self)@, (op >> 3) & 7),
    {
        let idx = (op >> 3) & 7;
        let v = self.get_reg(idx);
        let r = ((v as u32 + 511) % 256) as u8;
        self.set_reg(idx, r);
        self.set_zsp(r);
        self.ac = ((v & 0xF) as u32) < 1;
        self.pc = madd16(self.pc, 1);
    }

    /// DAA decimal adjust.
    fn exec_daa(&mut self)
        requires
            old(self).wf(),
        ensures
            final(self).wf(),
            final(self)@ == daa_step(old(self)@),
    {
        let a0 = self.a;
        let low_adj = (a0 & 0x0F) > 9 || self.ac;
        let a1: u8 = if low_adj {
            ((a0 as u32 + 6) % 256) as u8
        } else {
            a0
        };
        let ac1 = if low_adj {
            (a0 & 0x0F) as u32 + 6 > 0x0F
        } else {
            false
        };
        let high_adj = (a1 >> 4) > 9 || self.cy;
        let a2: u8 = if high_adj {
            ((a1 as u32 + 0x60) % 256) as u8
        } else {
            a1
        };
        if high_adj {
            self.cy = true;
        }
        self.set_zsp(a2);
        self.a = a2;
        self.ac = ac1;
        self.pc = madd16(self.pc, 1);
    }

    /// LXI rp,d16.
    fn exec_lxi(&mut self, op: u8)
        requires
            old(self).wf(),
        ensures
            final(self).wf(),
            final(self)@ == (CpuV {
                pc: wadd16(old(self)@.pc, 3),
                ..with_rp16(old(self)@, (op >> 4) & 3, imm16(old(self)@))
            }),
    {
        let v = self.next_memory();
        self.set_rp((op >> 4) & 3, v);
        self.pc = madd16(self.pc, 3);
    }

    /// DAD rp: 16-bit add into HL, CY from the carry out.
    fn exec_dad(&mut self, op: u8)
        requires
            old(self).wf(),
        ensures
            final(self).wf(),
            final(self)@ == (CpuV {
                cy: hl_of(old(self)@) + rp16(old(self)@, (op >> 4) & 3) > 0xFFFF,
                pc: wadd16(old(self)@.pc, 1),
                ..with_rp16(
                    old(self)@,
                    2,
                    wadd16(hl_of(old(self)@), rp16(old(self)@, (op >> 4) & 3)),
                )
            }),
    {
        let hl = self.hl();
        let v = self.get_rp((op >> 4) & 3);
        let sum: u32 = hl as u32 + v as u32;
        self.set_hl((sum % 0x10000) as u16);
        self.cy = sum > 0xFFFF;
        self.pc = madd16(self.pc, 1);
    }

    /// INX rp.
    fn exec_inx(&mut self, op: u8)
        ensures
            final(self).wf() == old(self).wf(),
            final(self)@ == (CpuV {
                pc: wadd16(old(self)@.pc, 1),
                ..with_rp16(
                    old(self)@,
                    (op >> 4) & 3,
                    wadd16(rp16(old(self)@, (op >> 4) & 3), 1),
                )
            }),
    {
        let i = (op >> 4) & 3;
        let v = self.get_rp(i);
        self.set_rp(i, madd16(v, 1));
        self.pc = madd16(self.pc, 1);
    }

    /// DCX rp.
    fn exec_dcx(&mut self, op: u8)
        ensures
            final(self).wf() == old(self).wf(),
            final(self)@ == (CpuV {
                pc: wadd16(old(self)@.pc, 1),
                ..with_rp16(
                    old(self)@,
                    (op >> 4) & 3,
                    wsub16(rp16(old(self)@, (op >> 4) & 3), 1),
                )
            }),
    {
        let i = (op >> 4) & 3;
        let v = self.get_rp(i);
        self.set_rp(i, msub16(v, 1));
        self.pc = madd16(self.pc, 1);
    }

    /// MVI r,d8.
    fn exec_mvi(&mut self, op: u8)
        requires
            old(self).wf(),
        ensures
            final(self).wf(),
            final(self)@ == (CpuV {
                pc: wadd16(old(self)@.pc, 2),
                ..with_reg8(old(self)@, (op >> 3) & 7, imm8(old(self)@))
            }),
    {
        let v = self.next_byte();
        self.set_reg((op >> 3) & 7, v);
        self.pc = madd16(self.pc, 2);
    }

    /// The instructions with opcodes below 0x40.
    #[verifier::rlimit(80)]
    fn exec_misc_lo(&mut self, op: u8)
        requires
            old(self).wf(),
        ensures
            final(self).wf(),
            final(self)@ == lo_step(old(self)@, op),
    {
        proof {
            reveal(lo_step);
        }
        if op == 0x07 {
            // RLC
            let a = self.a;
            self.a = (a << 1) | (a >> 7);
            self.cy = a & 0x80 != 0;
            self.pc = madd16(self.pc, 1);
        } else if op == 0x0F {
            // RRC
            let a = self.a;
            self.a = (a >> 1) | (a << 7);
            self.cy = a & 0x01 != 0;
            self.pc = madd16(self.pc, 1);
        } else if op == 0x17 {
            // RAL
            let a = self.a;
            let c: u8 = if self.cy {
                1
            } else {
                0
            };
            self.a = (a << 1) | c;
            self.cy = a & 0x80 != 0;
            self.pc = madd16(self.pc, 1);
        } else if op == 0x1F {
            // RAR
            let a = self.a;
            let hi: u8 = if self.cy {
                0x80
            } else {
                0
            };
            self.a = (a >> 1) | hi;
            self.cy = a & 0x01 != 0;
            self.pc = madd16(self.pc, 1);
        } else if op == 0x27 {
            self.exec_daa();
        } else if op == 0x2F {
            // CMA
            self.a = !self.a;
            self.pc = madd16(self.pc, 1);
        } else if op == 0x37 {
            // STC
            self.cy = true;
            self.pc = madd16(self.pc, 1);
        } else if op == 0x3F {
            // CMC
            self.cy = !self.cy;
            self.pc = madd16(self.pc, 1);
        } else if op == 0x02 {
            // STAX B
            let addr = self.bc();
            let a = self.a;
            self.write(addr, a);
            self.pc = madd16(self.pc, 1);
        } else if op == 0x12 {
            // STAX D
            let addr = self.de();
            let a = self.a;
            self.write(addr, a);
            self.pc = madd16(self.pc, 1);
        } else if op == 0x0A {
            // LDAX B
            let addr = self.bc();
            self.a = self.read(addr);
            self.pc = madd16(self.pc, 1);
        } else if op == 0x1A {
            // LDAX D
            let addr = self.de();
            self.a = self.read(addr);
            self.pc = madd16(self.pc, 1);
        } else if op == 0x22 {
            // SHLD
            let t = self.next_memory();
            let l0 = self.l;
            let h0 = self.h;
            self.write(t, l0);
            self.write(madd16(t, 1), h0);
            self.pc = madd16(self.pc, 3);
        } else if op == 0x2A {
            // LHLD
            let t = self.next_memory();
            let lo = self.read(t);
            let hi = self.read(madd16(t, 1));
            self.l = lo;
            self.h = hi;
            self.pc = madd16(self.pc, 3);
        } else if op == 0x32 {
            // STA
            let t = self.next_memory();
            let a = self.a;
            self.write(t, a);
            self.pc = madd16(self.pc, 3);
        } else if op == 0x3A {
            // LDA
            let t = self.next_memory();
            self.a = self.read(t);
            self.pc = madd16(self.pc, 3);
        } else if op & 0xC7 == 0x06 {
            self.exec_mvi(op);
        } else if op & 0xC7 == 0x04 {
            self.exec_inr(op);
        } else if op & 0xC7 == 0x05 {
            self.exec_dcr(op);
        } else if op & 0xCF == 0x01 {
            self.exec_lxi(op);
        } else if op & 0xCF == 0x09 {
            self.exec_dad(op);
        } else if op & 0xCF == 0x03 {
            self.exec_inx(op);
        } else if op & 0xCF == 0x0B {
            self.exec_dcx(op);
        } else {
            // NOP and the invalid opcodes below 0x40
            self.pc = madd16(self.pc, 1);
        }
    }

    /// Rcc: conditional return.
    fn exec_rcc(&mut self, op: u8)
        requires
            old(self).wf(),
        ensures
            final(self).wf(),
            final(self)@ == (if cond(old(self)@, (op >> 3) & 7) {
                ret_from(old(self)@)
            } else {
                CpuV { pc: wadd16(old(self)@.pc, 1), ..old(self)@ }
            }),
    {
        if self.test_cond((op >> 3) & 7) {
            let t = self.pop();
            self.pc = t;
        } else {
            self.pc = madd16(self.pc, 1);
        }
    }

    /// Jcc: conditional jump.
    fn exec_jcc(&mut self, op: u8)
        requires
            old(self).wf(),
        ensures
            final(self).wf(),
            final(self)@ == (if cond(old(self)@, (op >> 3) & 7) {
                CpuV { pc: imm16(old(self)@), ..old(self)@ }
            } else {
                CpuV { pc: wadd16(old(self)@.pc, 3), ..old(self)@ }
            }),
    {
        let t = self.next_memory();
        if self.test_cond((op >> 3) & 7) {
            self.pc = t;
        } else {
            self.pc = madd16(self.pc, 3);
        }
    }

    /// Ccc: conditional call.
    fn exec_ccc(&mut self, op: u8)
        requires
            old(self).wf(),
        ensures
            final(self).wf(),
            final(self)@ == (if cond(old(self)@, (op >> 3) & 7) {
                call_to(old(self)@, imm16(old(self)@))
            } else {
                CpuV { pc: wadd16(old(self)@.pc, 3), ..old(self)@ }
            }),
    {
        let t = self.next_memory();
        if self.test_cond((op >> 3) & 7) {
            self.call(t);
        } else {
            self.pc = madd16(self.pc, 3);
        }
    }

    /// RST n: one-byte call to the restart vector encoded in the opcode.
    fn exec_rst(&mut self, op: u8)
        requires
            old(self).wf(),
        ensures
            final(self).wf(),
            final(self)@ == (CpuV {
                pc: (op & 0x38) as u16,
                ..push16(old(self)@, wadd16(old(self)@.pc, 1))
            }),
    {
        let ret = madd16(self.pc, 1);
        self.push(ret);
        self.pc = (op & 0x38) as u16;
    }

    /// PUSH rp / PUSH PSW.
    fn exec_push(&mut self, op: u8)
        requires
            old(self).wf(),
        ensures
            final(self).wf(),
            final(self)@ == (CpuV {
                pc: wadd16(old(self)@.pc, 1),
                ..push16(
                    old(self)@,
                    if (op >> 4) & 3 == 3 {
                        pair16(
                            old(self)@.a,
                            psw_byte(
                                old(self)@.z,
                                old(self)@.s,
                                old(self)@.p,
                                old(self)@.cy,
                                old(self)@.ac,
                            ),
                        )
                    } else {
                        rp16(old(self)@, (op >> 4) & 3)
                    },
                )
            }),
    {
        let i = (op >> 4) & 3;
        let v: u16 = if i == 3 {
            let f: u8 = (if self.s {
                0x80u8
            } else {
                0u8
            }) | (if self.z {
                0x40u8
            } else {
                0u8
            }) | (if self.ac {
                0x10u8
            } else {
                0u8
            }) | (if self.p {
                0x04u8
            } else {
                0u8
            }) | 0x02u8 | (if self.cy {
                0x01u8
            } else {
                0u8
            });
            ((self.a as u16) << 8) | (f as u16)
        } else {
            self.get_rp(i)
        };
        self.push(v);
        self.pc = madd16(self.pc, 1);
    }

    /// POP rp / POP PSW.
    fn exec_pop(&mut self, op: u8)
        requires
            old(self).wf(),
        ensures
            final(self).wf(),
            final(self)@ == (if (op >> 4) & 3 == 3 {
                CpuV {
                    a: hi8(pop_val(old(self)@)),
                    z: crate::flags::psw_z(lo8(pop_val(old(self)@))),
                    s: crate::flags::psw_s(lo8(pop_val(old(self)@))),
                    p: crate::flags::psw_p(lo8(pop_val(old(self)@))),
                    cy: crate::flags::psw_cy(lo8(pop_val(old(self)@))),
                    ac: crate::flags::psw_ac(lo8(pop_val(old(self)@))),
                    sp: wadd16(old(self)@.sp, 2),
                    pc: wadd16(old(self)@.pc, 1),
                    ..old(self)@
                }
            } else {
                CpuV {
                    sp: wadd16(old(self)@.sp, 2),
                    pc: wadd16(old(self)@.pc, 1),
                    ..with_rp16(old(self)@, (op >> 4) & 3, pop_val(old(self)@))
                }
            }),
    {
        let i = (op >> 4) & 3;
        let v = self.pop();
        if i == 3 {
            self.a = (v >> 8) as u8;
            let f = (v & 0xFF) as u8;
            self.z = f & 0x40 != 0;
            self.s = f & 0x80 != 0;
            self.p = f & 0x04 != 0;
            self.cy = f & 0x01 != 0;
            self.ac = f & 0x10 != 0;
            self.pc = madd16(self.pc, 1);
            proof {
                assert(self@ =~= (CpuV {
                    a: hi8(pop_val(old(self)@)),
                    z: crate::flags::psw_z(lo8(pop_val(old(self)@))),
                    s: crate::flags::psw_s(lo8(pop_val(old(self)@))),
                    p: crate::flags::psw_p(lo8(pop_val(old(self)@))),
                    cy: crate::flags::psw_cy(lo8(pop_val(old(self)@))),
                    ac: crate::flags::psw_ac(lo8(pop_val(old(self)@))),
                    sp: wadd16(old(self)@.sp, 2),
                    pc: wadd16(old(self)@.pc, 1),
                    ..old(self)@
                }));
            }
        } else {
            proof {
                assert((op >> 4) & 3 < 4) by (bit_vector);
            }
            self.set_rp(i, v);
            self.pc = madd16(self.pc, 1);
        }
    }

    /// XTHL: exchange HL with the two stack bytes, SP unchanged.
    fn exec_xthl(&mut self)
        requires
            old(self).wf(),
        ensures
            final(self).wf(),
            final(self)@ == (CpuV {
                l: mem_read(old(self)@.mem, old(self)@.sp),
                h: mem_read(old(self)@.mem, wadd16(old(self)@.sp, 1)),
                mem: mem_write(
                    mem_write(old(self)@.mem, old(self)@.sp, old(self)@.l),
                    wadd16(old(self)@.sp, 1),
                    old(self)@.h,
                ),
                pc: wadd16(old(self)@.pc, 1),
                ..old(self)@
            }),
    {
        let sp = self.sp;
        let sp1 = madd16(sp, 1);
        let lo = self.read(sp);
        let hi = self.read(sp1);
        let l0 = self.l;
        let h0 = self.h;
        self.write(sp, l0);
        self.write(sp1, h0);
        self.l = lo;
        self.h = hi;
        self.pc = madd16(self.pc, 1);
    }

    /// The instructions with opcodes 0xC0 and above, plus HLT; IN and OUT
    /// talk to the bus.
    #[verifier::rlimit(80)]
    fn exec_misc_hi<B: IoBus>(&mut self, op: u8, bus: &mut B)
        requires
            old(self).wf(),
        ensures
            final(self).wf(),
            final(self)@ == hi_step(
                old(self)@,
                old(bus).in_val(io_port(old(self)@)),
                op,
            ),
            *final(bus) == (if op == 0xD3 {
                old(bus).after_out(io_port(old(self)@), old(self)@.a)
            } else {
                *old(bus)
            }),
    {
        proof {
            reveal(hi_step);
        }
        if op == 0x76 {
            // HLT
            self.halt = true;
            self.pc = madd16(self.pc, 1);
        } else if op == 0xC3 {
            // JMP
            let t = self.next_memory();
            self.pc = t;
        } else if op == 0xC9 {
            // RET
            let t = self.pop();
            self.pc = t;
        } else if op == 0xCD {
            // CALL
            let t = self.next_memory();
            self.call(t);
        } else if op == 0xD3 {
            // OUT
            let port = self.next_byte();
            let a = self.a;
            bus.port_out(port, a);
            self.pc = madd16(self.pc, 2);
        } else if op == 0xDB {
            // IN
            let port = self.next_byte();
            let v = bus.port_in(port);
            self.a = v;
            self.pc = madd16(self.pc, 2);
        } else if op == 0xE3 {
            self.exec_xthl();
        } else if op == 0xE9 {
            // PCHL
            let t = self.hl();
            self.pc = t;
        } else if op == 0xEB {
            // XCHG
            let d0 = self.d;
            let e0 = self.e;
            self.d = self.h;
            self.e = self.l;
            self.h = d0;
            self.l = e0;
            self.pc = madd16(self.pc, 1);
        } else if op == 0xF3 {
            // DI
            self.interrupt = false;
            self.pc = madd16(self.pc, 1);
        } else if op == 0xF9 {
            // SPHL
            let t = self.hl();
            self.sp = t;
            self.pc = madd16(self.pc, 1);
        } else if op == 0xFB {
            // EI
            self.interrupt = true;
            self.pc = madd16(self.pc, 1);
        } else if op & 0xC7 == 0xC0 {
            self.exec_rcc(op);
        } else if op & 0xC7 == 0xC2 {
            self.exec_jcc(op);
        } else if op & 0xC7 == 0xC4 {
            self.exec_ccc(op);
        } else if op & 0xC7 == 0xC6 {
            self.exec_alu_imm(op);
        } else if op & 0xC7 == 0xC7 {
            self.exec_rst(op);
        } else if op & 0xCF == 0xC5 {
            self.exec_push(op);
        } else if op & 0xCF == 0xC1 {
            self.exec_pop(op);
        } else {
            // the invalid opcodes, defined to behave as NOP
            self.pc = madd16(self.pc, 1);
        }
    }

    /// Fetch, decode and execute the instruction at PC (no interrupt
    /// handling; `step` deals with that first).
    fn exec_instr<B: IoBus>(&mut self, bus: &mut B)
        requires
            old(self).wf(),
        ensures
            final(self).wf(),
            final(self)@ == exec_step(old(self)@, old(bus).in_val(io_port(old(self)@))),
            *final(bus) == (if cur_op(old(self)@) == 0xD3 {
                old(bus).after_out(io_port(old(self)@), old(self)@.a)
            } else {
                *old(bus)
            }),
    {
        proof {
            reveal(exec_step);
            reveal(misc_step);
        }
        let op = self.read(self.pc);
        if 0x40 <= op && op < 0x80 && op != 0x76 {
            self.exec_mov(op);
        } else if 0x80 <= op && op < 0xC0 {
            self.exec_alu_reg(op);
        } else if op < 0x40 {
            self.exec_misc_lo(op);
        } else {
            self.exec_misc_hi(op, bus);
        }
    }

    /// Acknowledges the pending interrupt: clears the slot, INTE and the
    /// halt latch, pushes PC, and vectors to `opcode & 0x38`.
    fn do_ack(&mut self)
        requires
            old(self).wf(),
            ack_ready(old(self)@),
        ensures
            final(self).wf(),
            final(self)@ == ack_step(old(self)@),
    {
        let op = self.pending_op;
        self.pending_valid = false;
        self.interrupt = false;
        self.halt = false;
        let pc = self.pc;
        self.push(pc);
        self.pc = (op & 0x38) as u16;
    }

    /// One CPU step against the bus `bus`: acknowledge a pending interrupt
    /// if INTE is set, stay quiescent while halted, otherwise execute one
    /// instruction. Total and infallible; implements `step_spec` exactly.
    pub fn step<B: IoBus>(&mut self, bus: &mut B)
        requires
            old(self).wf(),
        ensures
            final(self).wf(),
            final(self)@ == step_spec(old(self)@, old(bus).in_val(io_port(old(self)@))),
            *final(bus) == (if does_out(old(self)@) {
                old(bus).after_out(io_port(old(self)@), old(self)@.a)
            } else {
                *old(bus)
            }),
    {
        if self.pending_valid && self.interrupt {
            self.do_ack();
        } else if self.halt {
        } else {
            self.exec_instr(bus);
        }
    }
}

} // verus!
