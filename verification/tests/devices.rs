//! The memory map, the cabinet ports, the frame driver and the trace ring.

use emu8080::bus::IoBus;
use emu8080::cabinet::Cabinet;
use emu8080::cpu::Cpu8080;
use emu8080::machine::{Machine, CYCLES_PER_HALF_FRAME};
use emu8080::trace::TraceRing;

#[test]
fn rom_is_write_protected() {
    let mut cpu = Cpu8080::new();
    let rom = vec![0x11u8, 0x22, 0x33];
    cpu.load(&rom);
    cpu.write(0x0001, 0xFF);
    assert_eq!(cpu.read(0x0001), 0x22);
}

#[test]
fn unmapped_space_reads_zero() {
    let mut cpu = Cpu8080::new();
    cpu.write(0x7000, 0xFF);
    assert_eq!(cpu.read(0x7000), 0x00);
    assert_eq!(cpu.read(0xFFFF), 0x00);
}

#[test]
fn mirror_writes_land_in_ram() {
    let mut cpu = Cpu8080::new();
    cpu.write(0x4000, 0x9C);
    assert_eq!(cpu.read(0x2000), 0x9C);
    assert_eq!(cpu.read(0x4000), 0x9C);
}

#[test]
fn cabinet_constant_and_unknown_ports() {
    let mut cab = Cabinet::new();
    assert_eq!(cab.port_in(0), 0x0E);
    assert_eq!(cab.port_in(1), 0x08);
    assert_eq!(cab.port_in(2), 0x00);
    assert_eq!(cab.port_in(0x42), 0x00);
    cab.port_out(0x42, 0xFF);
    cab.port_out(3, 0xFF);
    cab.port_out(5, 0xFF);
    cab.port_out(6, 0xFF);
    assert_eq!(cab.shift_msb, 0);
    assert_eq!(cab.shift_lsb, 0);
}

#[test]
fn update_inputs_forces_bit3() {
    let mut cab = Cabinet::new();
    cab.update_inputs(0x00, 0x81);
    assert_eq!(cab.port_in(1), 0x08);
    assert_eq!(cab.port_in(2), 0x81);
}

#[test]
fn shift_offset_masked_to_three_bits() {
    let mut cab = Cabinet::new();
    cab.port_out(2, 0xFF);
    assert_eq!(cab.shift_offset, 0x07);
}

#[test]
fn frame_tick_alternates_vectors() {
    let mut m = Machine::new();
    // JMP 0x0000: a tight idle loop
    let rom = vec![0xC3u8, 0x00, 0x00];
    m.load_rom(&rom);
    let draw1 = m.frame_tick();
    assert!(!draw1);
    assert_eq!(m.next_vector, 0xD7);
    assert!(m.cpu.pending_valid);
    assert_eq!(m.cpu.pending_op, 0xCF);
    assert!(m.cycle_budget < CYCLES_PER_HALF_FRAME);
    let draw2 = m.frame_tick();
    assert!(draw2);
    assert_eq!(m.next_vector, 0xCF);
    assert_eq!(m.cpu.pending_op, 0xD7);
}

#[test]
fn frame_tick_runs_the_program() {
    let mut m = Machine::new();
    // MVI A, 0x01; STA 0x2000; JMP 0x0005 (spin)
    let rom = vec![0x3Eu8, 0x01, 0x32, 0x00, 0x20, 0xC3, 0x05, 0x00];
    m.load_rom(&rom);
    m.frame_tick();
    assert_eq!(m.cpu.read(0x2000), 0x01);
}

#[test]
fn frame_tick_wakes_halted_cpu() {
    let mut m = Machine::new();
    // EI; HLT at 0x0000, and EI; HLT again at the RST 1 vector 0x0008
    let rom = vec![0xFBu8, 0x76, 0x00, 0x00, 0x00, 0x00, 0x00, 0x00, 0xFB, 0x76];
    m.load_rom(&rom);
    m.frame_tick();
    // the CPU enabled interrupts, halted, and the mid-screen vector is pending
    assert!(m.cpu.halt);
    assert_eq!(m.cpu.pc, 0x0002);
    assert!(m.cpu.pending_valid);
    m.frame_tick();
    // the acknowledgment woke it at 0x0008, where it halted again
    assert!(m.cpu.halt);
    assert_eq!(m.cpu.pc, 0x000A);
}

#[test]
fn trace_ring_is_bounded() {
    let mut ring = TraceRing::new();
    assert_eq!(ring.len(), 0);
    let mut i: usize = 0;
    while i < 105 {
        ring.push(format!("line {}", i));
        i += 1;
    }
    assert_eq!(ring.len(), 100);
    assert_eq!(ring.get(0).as_str(), "line 5");
    assert_eq!(ring.get(99).as_str(), "line 104");
}

#[test]
fn reset_reconstructs_everything() {
    let mut m = Machine::new();
    let rom = vec![0xC3u8, 0x00, 0x00];
    m.load_rom(&rom);
    m.frame_tick();
    m.cab.port_out(4, 0x55);
    let rom2 = vec![0x76u8];
    m.reset(&rom2);
    assert_eq!(m.cpu.pc, 0);
    assert_eq!(m.cycle_budget, 0);
    assert_eq!(m.next_vector, 0xCF);
    assert!(!m.cpu.pending_valid);
    assert_eq!(m.cab.shift_msb, 0);
    assert_eq!(m.cpu.read(0x0000), 0x76);
}

#[test]
fn trace_records_disassembly() {
    let mut ring = TraceRing::new();
    let mut cab = Cabinet::new();
    let mut cpu = Cpu8080::new();
    let rom = vec![0x06u8, 0x3A, 0x08];
    cpu.load(&rom);
    ring.record(&cpu);
    cpu.step(&mut cab);
    ring.record(&cpu);
    assert_eq!(ring.len(), 2);
    assert_eq!(ring.get(0).as_str(), "MVI B, 0x3a");
    assert_eq!(ring.get(1).as_str(), "Invalid: 0x08");
}
