//! The Space Invaders cabinet hardware behind the I/O bus: the 16-bit
//! barrel-shift register, the two input-port latches and the DIP/sound/
//! watchdog sinks.

use vstd::prelude::*;

use crate::bus::IoBus;

verus! {

/// Cabinet state: the two shift-register bytes, the 3-bit shift offset and
/// the two input latches.
pub struct Cabinet {
    pub shift_msb: u8,
    pub shift_lsb: u8,
    pub shift_offset: u8,
    pub port1: u8,
    pub port2: u8,
}

/// The byte IN 3 returns: the 16-bit shift register shifted left by the
/// offset, top eight bits kept.
pub open spec fn shift_out(msb: u8, lsb: u8, off: u8) -> u8 {
    (((((msb as u16) << 8) | (lsb as u16)) << ((off & 7) as u16)) >> 8) as u8
}

impl Cabinet {
    /// The shift offset always stays in 0..8.
    pub open spec fn wf(&self) -> bool {
        self.shift_offset < 8
    }

    /// Power-on state: bit 3 of port 1 is wired high, everything else zero.
    pub fn new() -> (r: Cabinet)
        ensures
            r.wf(),
            r.shift_msb == 0 && r.shift_lsb == 0 && r.shift_offset == 0,
            r.port1 == 0x08 && r.port2 == 0,
    {
        Cabinet { shift_msb: 0, shift_lsb: 0, shift_offset: 0, port1: 0x08, port2: 0 }
    }

    /// Refreshes both input latches from the keyboard snapshot; bit 3 of
    /// port 1 is always forced high.
    pub fn update_inputs(&mut self, p1: u8, p2: u8)
        ensures
            final(self).port1 == p1 | 0x08,
            final(self).port2 == p2,
            final(self).shift_msb == old(self).shift_msb,
            final(self).shift_lsb == old(self).shift_lsb,
            final(self).shift_offset == old(self).shift_offset,
            final(self).wf() == old(self).wf(),
    {
        self.port1 = p1 | 0x08;
        self.port2 = p2;
    }
}

impl IoBus for Cabinet {
    /// Port reads: port 0 is the DIP constant, ports 1 and 2 the input
    /// latches, port 3 the shifted register; unknown ports read as 0.
    open spec fn in_val(&self, port: u8) -> u8 {
        if port == 0 {
            0x0Eu8
        } else if port == 1 {
            self.port1
        } else if port == 2 {
            self.port2
        } else if port == 3 {
            shift_out(self.shift_msb, self.shift_lsb, self.shift_offset)
        } else {
            0u8
        }
    }

    /// Port writes: port 2 sets the shift offset (low three bits), port 4
    /// shifts a new byte into the register; ports 3, 5 and 6 are sound and
    /// watchdog sinks, and unknown ports are discarded.
    open spec fn after_out(&self, port: u8, value: u8) -> Cabinet {
        if port == 2 {
            Cabinet { shift_offset: (value & 0x07) as u8, ..*self }
        } else if port == 4 {
            Cabinet { shift_lsb: self.shift_msb, shift_msb: value, ..*self }
        } else {
            *self
        }
    }

    fn port_in(&mut self, port: u8) -> (r: u8) {
        if port == 0 {
            0x0E
        } else if port == 1 {
            self.port1
        } else if port == 2 {
            self.port2
        } else if port == 3 {
            let v: u16 = ((self.shift_msb as u16) << 8) | (self.shift_lsb as u16);
            let off = self.shift_offset;
            proof {
                assert(off & 7 < 8) by (bit_vector);
            }
            let sh: u16 = (off & 7) as u16;
            ((v << sh) >> 8) as u8
        } else {
            0
        }
    }

    fn port_out(&mut self, port: u8, value: u8) {
        if port == 2 {
            self.shift_offset = value & 0x07;
        } else if port == 4 {
            self.shift_lsb = self.shift_msb;
            self.shift_msb = value;
        }
    }
}

/// Loading the shift register twice through port 4 leaves the newer byte in
/// the MSB and the older one in the LSB, and after setting the offset to
/// `k` through port 2, a read of port 3 returns the 16-bit register shifted
/// left by `k` with the top eight bits kept.
pub proof fn lemma_shift_register(cab: Cabinet, first: u8, second: u8, k: u8)
    requires
        k < 8,
    ensures
        ({
            let c2 = cab.after_out(4, first).after_out(4, second);
            let ck = c2.after_out(2, k);
            &&& c2.shift_msb == second
            &&& c2.shift_lsb == first
            &&& ck.in_val(3) == (((((second as u16) << 8) | (first as u16)) << (k as u16))
                >> 8) as u8
        }),
{
    assert((k & 0x07) & 7 == k && (k & 0x07) == k) by (bit_vector)
        requires
            k < 8,
    ;
}

/// A port write never drives the shift offset out of range.
pub proof fn lemma_after_out_wf(cab: Cabinet, port: u8, value: u8)
    requires
        cab.wf(),
    ensures
        cab.after_out(port, value).wf(),
{
    assert(value & 0x07 < 8) by (bit_vector);
}

} // verus!
