//! A bounded ring of instruction-trace lines: only the most recent entries
//! are kept, so the trace cannot grow without limit during normal running.

use vstd::prelude::*;

use crate::cpu::{madd16, Cpu8080};
use crate::disasm::{disasm_text, disassembler, instr_len};
use crate::mem::mem_read;
use crate::model::{cur_op, imm8, wadd16, CpuV};

verus! {

/// The trace line for the instruction at PC: the disassembly of the three
/// bytes at PC, PC+1, PC+2 as read through the memory map.
pub open spec fn trace_line(st: CpuV) -> Seq<char> {
    disasm_text(seq![cur_op(st), imm8(st), mem_read(st.mem, wadd16(st.pc, 2))], 0)
}

/// Number of trace lines the ring keeps.
pub const TRACE_CAPACITY: usize = 100;

/// The ring; its view is the kept lines, oldest first.
pub struct TraceRing {
    entries: Vec<String>,
}

impl TraceRing {
    pub closed spec fn view(&self) -> Seq<Seq<char>> {
        Seq::new(self.entries@.len(), |i: int| self.entries@[i]@)
    }

    pub fn new() -> (r: TraceRing)
        ensures
            r@ == Seq::<Seq<char>>::empty(),
    {
        let r = TraceRing { entries: Vec::new() };
        proof {
            assert(r@ =~= Seq::<Seq<char>>::empty());
        }
        r
    }

    pub fn len(&self) -> (n: usize)
        ensures
            n == self@.len(),
    {
        self.entries.len()
    }

    /// The `i`-th kept line, oldest first.
    pub fn get(&self, i: usize) -> (r: &String)
        requires
            i < self@.len(),
        ensures
            r@ == self@[i as int],
    {
        &self.entries[i]
    }

    /// Records the instruction at the CPU's PC: disassembles it (invalid
    /// opcodes render as such) and appends the line, dropping the oldest
    /// line once the ring is full. Call it before a step to log what is
    /// about to execute.
    pub fn record(&mut self, cpu: &Cpu8080)
        requires
            cpu.wf(),
            old(self)@.len() <= TRACE_CAPACITY,
        ensures
            final(self)@ == (if old(self)@.len() < TRACE_CAPACITY {
                old(self)@.push(trace_line(cpu@))
            } else {
                old(self)@.subrange(1, TRACE_CAPACITY as int).push(trace_line(cpu@))
            }),
            final(self)@.len() <= TRACE_CAPACITY,
    {
        let mut window: Vec<u8> = Vec::new();
        window.push(cpu.read(cpu.pc));
        window.push(cpu.read(madd16(cpu.pc, 1)));
        window.push(cpu.read(madd16(cpu.pc, 2)));
        proof {
            assert(window@ =~= seq![
                cur_op(cpu@),
                imm8(cpu@),
                mem_read(cpu@.mem, wadd16(cpu@.pc, 2)),
            ]);
            assert(1 <= instr_len(window@[0]) && instr_len(window@[0]) <= 3);
        }
        let (line, _next) = disassembler(0, &window);
        self.push(line);
    }

    /// Appends a line; once the ring is full, the oldest line is dropped.
    pub fn push(&mut self, line: String)
        requires
            old(self)@.len() <= TRACE_CAPACITY,
        ensures
            final(self)@ == (if old(self)@.len() < TRACE_CAPACITY {
                old(self)@.push(line@)
            } else {
                old(self)@.subrange(1, TRACE_CAPACITY as int).push(line@)
            }),
            final(self)@.len() <= TRACE_CAPACITY,
    {
        let ghost pre = self@;
        let ghost lv = line@;
        self.entries.push(line);
        if self.entries.len() > TRACE_CAPACITY {
            self.entries.remove(0);
            proof {
                assert(self@ =~= pre.subrange(1, TRACE_CAPACITY as int).push(lv));
            }
        } else {
            proof {
                assert(self@ =~= pre.push(lv));
            }
        }
    }
}

} // verus!
