//! Intel 8080 emulator core for the Space Invaders cabinet.
//!
//! The crate models the machine in three layers: a 64 KiB memory with ROM
//! write protection and the video-RAM mirror, a CPU core that interprets the
//! full 8080 instruction set against an abstract I/O bus, and the cabinet
//! device (shift register, input latches) together with the frame driver that
//! injects the two display interrupts.

pub mod bus;
pub mod cabinet;
pub mod cpu;
pub mod disasm;
pub mod flags;
pub mod laws;
pub mod machine;
pub mod mem;
pub mod model;
pub mod trace;
