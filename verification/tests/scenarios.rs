//! End-to-end scenarios: call/return, arithmetic flags, interrupt
//! acknowledgment ordering, the shift register, the memory mirror, and
//! halt/resume.

use emu8080::bus::IoBus;
use emu8080::cabinet::Cabinet;
use emu8080::cpu::Cpu8080;

fn rom_with(bytes: &[(usize, u8)], len: usize) -> Vec<u8> {
    let mut rom = vec![0u8; len];
    for &(addr, b) in bytes {
        rom[addr] = b;
    }
    rom
}

#[test]
fn call_ret_round_trip() {
    let mut cpu = Cpu8080::new();
    let mut cab = Cabinet::new();
    let rom = rom_with(&[(0, 0xCD), (1, 0x34), (2, 0x12), (0x1234, 0xC9)], 0x1235);
    cpu.load(&rom);
    cpu.sp = 0x2400;
    cpu.step(&mut cab);
    assert_eq!(cpu.pc, 0x1234);
    assert_eq!(cpu.sp, 0x23FE);
    assert_eq!(cpu.read(0x23FE), 0x03);
    assert_eq!(cpu.read(0x23FF), 0x00);
    cpu.step(&mut cab);
    assert_eq!(cpu.pc, 0x0003);
    assert_eq!(cpu.sp, 0x2400);
}

#[test]
fn arithmetic_flags() {
    let mut cpu = Cpu8080::new();
    let mut cab = Cabinet::new();
    let rom = vec![0x80u8];
    cpu.load(&rom);
    cpu.a = 0x3A;
    cpu.b = 0xC6;
    cpu.step(&mut cab);
    assert_eq!(cpu.a, 0x00);
    assert!(cpu.z);
    assert!(!cpu.s);
    assert!(cpu.p);
    assert!(cpu.cy);
    assert!(cpu.ac);
}

#[test]
fn interrupt_acknowledgment_ordering() {
    let mut cpu = Cpu8080::new();
    let mut cab = Cabinet::new();
    // NOP at 0x0100, EI at 0x0101
    let rom = rom_with(&[(0x0100, 0x00), (0x0101, 0xFB)], 0x0102);
    cpu.load(&rom);
    cpu.pc = 0x0100;
    cpu.sp = 0x2400;
    cpu.raise_interrupt(0xD7);
    cpu.step(&mut cab);
    // INTE clear: no acknowledgment, the NOP ran
    assert_eq!(cpu.pc, 0x0101);
    assert!(cpu.pending_valid);
    cpu.step(&mut cab);
    // EI ran
    assert!(cpu.interrupt);
    assert_eq!(cpu.pc, 0x0102);
    cpu.step(&mut cab);
    // acknowledged: vector 0xD7 & 0x38 == 0x10
    assert_eq!(cpu.pc, 0x0010);
    assert_eq!(cpu.sp, 0x23FE);
    assert!(!cpu.interrupt);
    assert!(!cpu.pending_valid);
    assert_eq!(cpu.read(0x23FE), 0x02);
    assert_eq!(cpu.read(0x23FF), 0x01);
}

#[test]
fn shift_register() {
    let mut cab = Cabinet::new();
    cab.port_out(2, 0x00);
    cab.port_out(4, 0xAA);
    cab.port_out(4, 0xFF);
    assert_eq!(cab.port_in(3), 0xFF);
    cab.port_out(2, 0x04);
    assert_eq!(cab.port_in(3), 0xFA);
}

#[test]
fn memory_mirror() {
    let mut cpu = Cpu8080::new();
    cpu.write(0x2400, 0x55);
    assert_eq!(cpu.read(0x4400), 0x55);
    cpu.write(0x5000, 0xAA);
    assert_eq!(cpu.read(0x3000), 0xAA);
}

#[test]
fn halt_resumes_on_interrupt() {
    let mut cpu = Cpu8080::new();
    let mut cab = Cabinet::new();
    let rom = rom_with(&[(0x0100, 0x76)], 0x0101);
    cpu.load(&rom);
    cpu.pc = 0x0100;
    cpu.sp = 0x2400;
    cpu.interrupt = true;
    cpu.step(&mut cab);
    assert!(cpu.halt);
    assert_eq!(cpu.pc, 0x0101);
    cpu.step(&mut cab);
    // halted and nothing pending: quiescent
    assert_eq!(cpu.pc, 0x0101);
    cpu.raise_interrupt(0xCF);
    cpu.step(&mut cab);
    assert!(!cpu.halt);
    assert_eq!(cpu.pc, 0x0008);
    assert_eq!(cpu.read(0x23FE), 0x01);
    assert_eq!(cpu.read(0x23FF), 0x01);
}
