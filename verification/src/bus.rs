//! The I/O bus capability between the CPU and the cabinet hardware: two
//! total operations, port reads and port writes. The CPU knows nothing else
//! about the device behind it.

use vstd::prelude::*;

verus! {

/// A device that the CPU's IN and OUT instructions talk to. `in_val` is the
/// byte a port read yields in a given device state, and `after_out` the
/// device state after a port write; the two executable operations are bound
/// to those specifications, so a CPU step has a deterministic contract over
/// any bus.
pub trait IoBus: Sized {
    /// The byte returned when `port` is read in this device state.
    spec fn in_val(&self, port: u8) -> u8;

    /// The device state after one byte is written to `port`.
    spec fn after_out(&self, port: u8, value: u8) -> Self;

    /// Reads one byte from `port`. Total: unknown ports must yield 0, which
    /// the implementor states through `in_val`.
    fn port_in(&mut self, port: u8) -> (r: u8)
        ensures
            *final(self) == *old(self),
            r == old(self).in_val(port),
    ;

    /// Writes one byte to `port`. Total: writes to unknown ports are
    /// discarded, which the implementor states through `after_out`.
    fn port_out(&mut self, port: u8, value: u8)
        ensures
            *final(self) == old(self).after_out(port, value),
    ;
}

} // verus!
