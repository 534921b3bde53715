//! The frame driver: time-slices CPU execution into two half-frame bursts
//! per display period and injects RST 1 (mid-screen) and RST 2 (vblank) in
//! alternation, which is the cadence the game firmware polls for.

use vstd::prelude::*;

use crate::bus::IoBus;
use crate::cabinet::{lemma_after_out_wf, Cabinet};
use crate::cpu::Cpu8080;
use crate::mem::MEM_SIZE;
use crate::model::{ack_ready, does_out, io_port, step_spec, CpuV};

verus! {

/// Cycles in one half-frame burst: ~2 MHz / 60 Hz / 2, with a fixed
/// 4-cycles-per-instruction approximation.
pub const CYCLES_PER_HALF_FRAME: u32 = 16667;

/// The RST 1 opcode, raised at mid-screen.
pub const VECTOR_MID: u8 = 0xCF;

/// The RST 2 opcode, raised at vblank.
pub const VECTOR_VBL: u8 = 0xD7;

/// One half-frame burst at the specification level: the CPU steps against
/// the cabinet, four cycles per iteration, until the budget reaches the
/// half-frame constant. A halted CPU burns budget without stepping, except
/// that a pending interrupt with INTE set still reaches the step boundary
/// that acknowledges it and releases the halt latch.
pub open spec fn burst(cpu: CpuV, cab: Cabinet, budget: u32) -> (CpuV, Cabinet, u32)
    decreases CYCLES_PER_HALF_FRAME + 3 - budget,
{
    if budget >= CYCLES_PER_HALF_FRAME {
        (cpu, cab, budget)
    } else if !cpu.halt || ack_ready(cpu) {
        let cpu2 = step_spec(cpu, cab.in_val(io_port(cpu)));
        let cab2 = if does_out(cpu) {
            cab.after_out(io_port(cpu), cpu.a)
        } else {
            cab
        };
        burst(cpu2, cab2, (budget + 4) as u32)
    } else {
        burst(cpu, cab, (budget + 4) as u32)
    }
}

/// The whole machine: CPU (with memory), cabinet device, and the frame
/// driver state (cycle budget and which interrupt comes next).
pub struct Machine {
    pub cpu: Cpu8080,
    pub cab: Cabinet,
    pub cycle_budget: u32,
    pub next_vector: u8,
}

impl Machine {
    pub open spec fn wf(&self) -> bool {
        self.cpu.wf() && self.cab.wf() && self.cycle_budget < CYCLES_PER_HALF_FRAME && (
        self.next_vector == VECTOR_MID || self.next_vector == VECTOR_VBL)
    }

    /// Power-on machine: zero-filled CPU state and memory, the cabinet with
    /// bit 3 of port 1 wired high and everything else zero, no budget spent,
    /// and the mid-screen interrupt up first.
    pub fn new() -> (r: Machine)
        ensures
            r.wf(),
            r.cpu@.a == 0 && r.cpu@.b == 0 && r.cpu@.c == 0 && r.cpu@.d == 0 && r.cpu@.e == 0
                && r.cpu@.h == 0 && r.cpu@.l == 0,
            r.cpu@.pc == 0 && r.cpu@.sp == 0,
            !r.cpu@.z && !r.cpu@.s && !r.cpu@.p && !r.cpu@.cy && !r.cpu@.ac,
            !r.cpu@.inte && !r.cpu@.halt && r.cpu@.pending is None,
            forall|i: int| 0 <= i < MEM_SIZE ==> r.cpu@.mem[i] == 0u8,
            r.cab.port1 == 0x08 && r.cab.port2 == 0,
            r.cab.shift_msb == 0 && r.cab.shift_lsb == 0 && r.cab.shift_offset == 0,
            r.cycle_budget == 0,
            r.next_vector == VECTOR_MID,
    {
        Machine { cpu: Cpu8080::new(), cab: Cabinet::new(), cycle_budget: 0, next_vector: VECTOR_MID }
    }

    /// Loads the ROM image at address 0. Everything else — the rest of
    /// memory, registers, flags, latches, cabinet and driver state — is
    /// untouched.
    pub fn load_rom(&mut self, rom: &Vec<u8>)
        requires
            old(self).wf(),
            rom@.len() <= 0x2000,
        ensures
            final(self).wf(),
            final(self).cpu@ == (CpuV { mem: final(self).cpu@.mem, ..old(self).cpu@ }),
            forall|i: int| 0 <= i < rom@.len() ==> final(self).cpu@.mem[i] == rom@[i],
            forall|i: int|
                rom@.len() <= i < MEM_SIZE ==> final(self).cpu@.mem[i] == old(self).cpu@.mem[i],
            final(self).cab == old(self).cab,
            final(self).cycle_budget == old(self).cycle_budget,
            final(self).next_vector == old(self).next_vector,
    {
        self.cpu.load(rom);
    }

    /// Reset: reconstructs CPU and cabinet state from scratch and reloads
    /// the ROM; nothing of the old run survives.
    pub fn reset(&mut self, rom: &Vec<u8>)
        requires
            rom@.len() <= 0x2000,
        ensures
            final(self).wf(),
            final(self).cpu@.a == 0 && final(self).cpu@.b == 0 && final(self).cpu@.c == 0
                && final(self).cpu@.d == 0 && final(self).cpu@.e == 0 && final(self).cpu@.h == 0
                && final(self).cpu@.l == 0,
            final(self).cpu@.pc == 0 && final(self).cpu@.sp == 0,
            !final(self).cpu@.z && !final(self).cpu@.s && !final(self).cpu@.p,
            !final(self).cpu@.cy && !final(self).cpu@.ac,
            !final(self).cpu@.inte && !final(self).cpu@.halt,
            final(self).cpu@.pending is None,
            forall|i: int| 0 <= i < rom@.len() ==> final(self).cpu@.mem[i] == rom@[i],
            forall|i: int| rom@.len() <= i < MEM_SIZE ==> final(self).cpu@.mem[i] == 0u8,
            final(self).cab.port1 == 0x08 && final(self).cab.port2 == 0,
            final(self).cab.shift_msb == 0 && final(self).cab.shift_lsb == 0,
            final(self).cab.shift_offset == 0,
            final(self).cycle_budget == 0,
            final(self).next_vector == VECTOR_MID,
    {
        *self = Machine::new();
        self.cpu.load(rom);
    }

    /// Refreshes the input latches from the keyboard snapshot; called once
    /// per host frame, before the burst runs. The CPU, the shift register
    /// and the driver state are untouched.
    pub fn update_inputs(&mut self, p1: u8, p2: u8)
        requires
            old(self).wf(),
        ensures
            final(self).wf(),
            final(self).cab.port1 == p1 | 0x08,
            final(self).cab.port2 == p2,
            final(self).cab.shift_msb == old(self).cab.shift_msb,
            final(self).cab.shift_lsb == old(self).cab.shift_lsb,
            final(self).cab.shift_offset == old(self).cab.shift_offset,
            final(self).cpu@ == old(self).cpu@,
            final(self).cycle_budget == old(self).cycle_budget,
            final(self).next_vector == old(self).next_vector,
    {
        self.cab.update_inputs(p1, p2);
    }

    /// One host frame tick: runs the half-frame burst (exactly `burst` of
    /// the incoming CPU, cabinet and budget), subtracts the spent budget,
    /// then raises the next display interrupt and flips the alternation.
    /// Returns true when the vblank interrupt was the one just raised, i.e.
    /// when the caller should draw the video RAM.
    pub fn frame_tick(&mut self) -> (draw: bool)
        requires
            old(self).wf(),
        ensures
            final(self).wf(),
            ({
                let t = burst(old(self).cpu@, old(self).cab, old(self).cycle_budget);
                &&& final(self).cpu@ == (CpuV { pending: Some(old(self).next_vector), ..t.0 })
                &&& final(self).cab == t.1
                &&& final(self).cycle_budget == t.2 - CYCLES_PER_HALF_FRAME
            }),
            final(self).cpu@.pending == Some(old(self).next_vector),
            final(self).next_vector == (if old(self).next_vector == VECTOR_MID {
                VECTOR_VBL
            } else {
                VECTOR_MID
            }),
            draw == (final(self).next_vector == VECTOR_MID),
    {
        while self.cycle_budget < CYCLES_PER_HALF_FRAME
            invariant
                self.cpu.wf(),
                self.cab.wf(),
                self.cycle_budget <= CYCLES_PER_HALF_FRAME + 3,
                self.next_vector == old(self).next_vector,
                burst(old(self).cpu@, old(self).cab, old(self).cycle_budget) == burst(
                    self.cpu@,
                    self.cab,
                    self.cycle_budget,
                ),
            decreases CYCLES_PER_HALF_FRAME + 3 - self.cycle_budget,
        {
            let ghost pre_cpu = self.cpu@;
            let ghost pre_cab = self.cab;
            let ghost pre_b = self.cycle_budget;
            // a halted CPU only burns budget, except that a pending
            // interrupt with INTE set must still reach the step boundary
            // that acknowledges it and releases the halt latch
            if !self.cpu.halt || (self.cpu.pending_valid && self.cpu.interrupt) {
                self.cpu.step(&mut self.cab);
                proof {
                    if does_out(pre_cpu) {
                        lemma_after_out_wf(pre_cab, io_port(pre_cpu), pre_cpu.a);
                    }
                }
            }
            self.cycle_budget = self.cycle_budget + 4;
            proof {
                assert(burst(pre_cpu, pre_cab, pre_b) == burst(
                    self.cpu@,
                    self.cab,
                    self.cycle_budget,
                ));
            }
        }
        self.cycle_budget = self.cycle_budget - CYCLES_PER_HALF_FRAME;
        let v = self.next_vector;
        self.cpu.raise_interrupt(v);
        self.next_vector = if v == VECTOR_MID {
            VECTOR_VBL
        } else {
            VECTOR_MID
        };
        v == VECTOR_VBL
    }
}

} // verus!
