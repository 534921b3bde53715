//! Per-instruction behavior: moves, rotates, DAA, CMC, compares, the stack
//! discipline, register-pair arithmetic and the I/O instructions.

use emu8080::cabinet::Cabinet;
use emu8080::cpu::Cpu8080;

fn cpu_with(rom: &[u8]) -> Cpu8080 {
    let mut cpu = Cpu8080::new();
    let image = rom.to_vec();
    cpu.load(&image);
    cpu
}

#[test]
fn mov_keeps_flags_and_copies_source() {
    let mut cpu = cpu_with(&[0x41]);  // MOV B, C
    let mut cab = Cabinet::new();
    cpu.c = 0x7F;
    cpu.z = true;
    cpu.s = true;
    cpu.p = true;
    cpu.cy = true;
    cpu.ac = true;
    cpu.step(&mut cab);
    assert_eq!(cpu.b, 0x7F);
    assert_eq!(cpu.c, 0x7F);
    assert!(cpu.z && cpu.s && cpu.p && cpu.cy && cpu.ac);
    assert_eq!(cpu.pc, 1);
}

#[test]
fn mov_through_memory() {
    let mut cpu = cpu_with(&[0x77]);  // MOV M, A
    let mut cab = Cabinet::new();
    cpu.a = 0x5C;
    cpu.h = 0x20;
    cpu.l = 0x10;
    cpu.step(&mut cab);
    assert_eq!(cpu.read(0x2010), 0x5C);
}

#[test]
fn xra_a_clears_and_sets_parity() {
    let mut cpu = cpu_with(&[0xAF]);  // XRA A
    let mut cab = Cabinet::new();
    cpu.a = 0xFF;
    cpu.cy = true;
    cpu.step(&mut cab);
    assert_eq!(cpu.a, 0);
    assert!(cpu.z);
    assert!(!cpu.s);
    assert!(cpu.p);
    assert!(!cpu.cy);
}

#[test]
fn adc_carries_through() {
    let mut cpu = cpu_with(&[0x88]);  // ADC B
    let mut cab = Cabinet::new();
    cpu.a = 0x00;
    cpu.b = 0xFF;
    cpu.cy = true;
    cpu.step(&mut cab);
    // 0x00 + 0xFF + 1 = 0x100: result 0, carry out set
    assert_eq!(cpu.a, 0x00);
    assert!(cpu.cy);
    assert!(cpu.z);
}

#[test]
fn sbb_borrows() {
    let mut cpu = cpu_with(&[0x98]);  // SBB B
    let mut cab = Cabinet::new();
    cpu.a = 0x04;
    cpu.b = 0x02;
    cpu.cy = true;
    cpu.step(&mut cab);
    assert_eq!(cpu.a, 0x01);
    assert!(!cpu.cy);
}

#[test]
fn cmp_sets_borrow_and_keeps_a() {
    let mut cpu = cpu_with(&[0xB8]);  // CMP B
    let mut cab = Cabinet::new();
    cpu.a = 0x05;
    cpu.b = 0x0A;
    cpu.step(&mut cab);
    assert_eq!(cpu.a, 0x05);
    assert!(cpu.cy);
    assert!(!cpu.z);
}

#[test]
fn inr_sets_aux_carry_and_keeps_cy() {
    let mut cpu = cpu_with(&[0x04]);  // INR B
    let mut cab = Cabinet::new();
    cpu.b = 0x0F;
    cpu.cy = true;
    cpu.step(&mut cab);
    assert_eq!(cpu.b, 0x10);
    assert!(cpu.ac);
    assert!(cpu.cy);
    assert!(!cpu.z);
}

#[test]
fn dcr_memory_operand() {
    let mut cpu = cpu_with(&[0x35]);  // DCR M
    let mut cab = Cabinet::new();
    cpu.h = 0x20;
    cpu.l = 0x00;
    cpu.write(0x2000, 0x01);
    cpu.step(&mut cab);
    assert_eq!(cpu.read(0x2000), 0x00);
    assert!(cpu.z);
}

#[test]
fn rotates() {
    let mut cab = Cabinet::new();
    let mut cpu = cpu_with(&[0x07]);  // RLC
    cpu.a = 0x80;
    cpu.step(&mut cab);
    assert_eq!(cpu.a, 0x01);
    assert!(cpu.cy);

    let mut cpu = cpu_with(&[0x0F]);  // RRC
    cpu.a = 0x01;
    cpu.step(&mut cab);
    assert_eq!(cpu.a, 0x80);
    assert!(cpu.cy);

    let mut cpu = cpu_with(&[0x17]);  // RAL threads the carry in
    cpu.a = 0x80;
    cpu.cy = false;
    cpu.step(&mut cab);
    assert_eq!(cpu.a, 0x00);
    assert!(cpu.cy);

    let mut cpu = cpu_with(&[0x1F]);  // RAR threads the carry in
    cpu.a = 0x01;
    cpu.cy = true;
    cpu.step(&mut cab);
    assert_eq!(cpu.a, 0x80);
    assert!(cpu.cy);
}

#[test]
fn daa_adjusts_both_nibbles() {
    let mut cpu = cpu_with(&[0x27]);  // DAA
    let mut cab = Cabinet::new();
    cpu.a = 0x9B;
    cpu.cy = false;
    cpu.ac = false;
    cpu.step(&mut cab);
    assert_eq!(cpu.a, 0x01);
    assert!(cpu.cy);
    assert!(cpu.ac);
}

#[test]
fn cmc_complements_carry_only() {
    let mut cpu = cpu_with(&[0x3F]);  // CMC
    let mut cab = Cabinet::new();
    cpu.a = 0x5A;
    cpu.cy = true;
    cpu.step(&mut cab);
    assert_eq!(cpu.a, 0x5A);
    assert!(!cpu.cy);
}

#[test]
fn cma_complements_a_without_flags() {
    let mut cpu = cpu_with(&[0x2F]);  // CMA
    let mut cab = Cabinet::new();
    cpu.a = 0x0F;
    cpu.cy = true;
    cpu.step(&mut cab);
    assert_eq!(cpu.a, 0xF0);
    assert!(cpu.cy);
}

#[test]
fn dad_sets_carry_on_overflow() {
    let mut cpu = cpu_with(&[0x09]);  // DAD B
    let mut cab = Cabinet::new();
    cpu.h = 0xFF;
    cpu.l = 0xFF;
    cpu.b = 0x00;
    cpu.c = 0x01;
    cpu.step(&mut cab);
    assert_eq!(cpu.hl(), 0x0000);
    assert!(cpu.cy);
}

#[test]
fn inx_dcx_have_no_flag_effects() {
    let mut cab = Cabinet::new();
    let mut cpu = cpu_with(&[0x03]);  // INX B
    cpu.b = 0x00;
    cpu.c = 0xFF;
    cpu.z = true;
    cpu.step(&mut cab);
    assert_eq!(cpu.bc(), 0x0100);
    assert!(cpu.z);

    let mut cpu = cpu_with(&[0x0B]);  // DCX B
    cpu.b = 0x01;
    cpu.c = 0x00;
    cpu.step(&mut cab);
    assert_eq!(cpu.bc(), 0x00FF);
}

#[test]
fn stack_push_pop_round_trip() {
    let mut cpu = Cpu8080::new();
    cpu.sp = 0x2400;
    cpu.push(0xBEEF);
    assert_eq!(cpu.sp, 0x23FE);
    let v = cpu.pop();
    assert_eq!(v, 0xBEEF);
    assert_eq!(cpu.sp, 0x2400);
}

#[test]
fn push_pop_psw_preserves_flags() {
    // PUSH PSW; POP PSW
    let mut cpu = cpu_with(&[0xF5, 0xF1]);
    let mut cab = Cabinet::new();
    cpu.sp = 0x2400;
    cpu.a = 0x42;
    cpu.z = true;
    cpu.s = false;
    cpu.p = true;
    cpu.cy = true;
    cpu.ac = false;
    cpu.step(&mut cab);
    // scramble, then restore
    cpu.z = false;
    cpu.p = false;
    cpu.cy = false;
    cpu.a = 0;
    cpu.step(&mut cab);
    assert_eq!(cpu.a, 0x42);
    assert!(cpu.z);
    assert!(!cpu.s);
    assert!(cpu.p);
    assert!(cpu.cy);
    assert!(!cpu.ac);
}

#[test]
fn xthl_exchanges_with_stack() {
    let mut cpu = cpu_with(&[0xE3]);  // XTHL
    let mut cab = Cabinet::new();
    cpu.sp = 0x2400;
    cpu.write(0x2400, 0x34);
    cpu.write(0x2401, 0x12);
    cpu.h = 0xAB;
    cpu.l = 0xCD;
    cpu.step(&mut cab);
    assert_eq!(cpu.hl(), 0x1234);
    assert_eq!(cpu.read(0x2400), 0xCD);
    assert_eq!(cpu.read(0x2401), 0xAB);
    assert_eq!(cpu.sp, 0x2400);
}

#[test]
fn xchg_pchl_sphl() {
    let mut cab = Cabinet::new();
    let mut cpu = cpu_with(&[0xEB]);  // XCHG
    cpu.d = 0x11;
    cpu.e = 0x22;
    cpu.h = 0x33;
    cpu.l = 0x44;
    cpu.step(&mut cab);
    assert_eq!(cpu.de(), 0x3344);
    assert_eq!(cpu.hl(), 0x1122);

    let mut cpu = cpu_with(&[0xE9]);  // PCHL
    cpu.h = 0x12;
    cpu.l = 0x34;
    cpu.step(&mut cab);
    assert_eq!(cpu.pc, 0x1234);

    let mut cpu = cpu_with(&[0xF9]);  // SPHL
    cpu.h = 0x24;
    cpu.l = 0x00;
    cpu.step(&mut cab);
    assert_eq!(cpu.sp, 0x2400);
}

#[test]
fn conditional_jump_both_ways() {
    let mut cab = Cabinet::new();
    let mut cpu = cpu_with(&[0xC2, 0x00, 0x10]);  // JNZ 0x1000
    cpu.z = false;
    cpu.step(&mut cab);
    assert_eq!(cpu.pc, 0x1000);

    let mut cpu = cpu_with(&[0xC2, 0x00, 0x10]);
    cpu.z = true;
    cpu.step(&mut cab);
    assert_eq!(cpu.pc, 0x0003);
}

#[test]
fn rst_vectors() {
    let mut cpu = cpu_with(&[0xD7]);  // RST 2
    let mut cab = Cabinet::new();
    cpu.sp = 0x2400;
    cpu.step(&mut cab);
    assert_eq!(cpu.pc, 0x0010);
    assert_eq!(cpu.read(0x23FE), 0x01);
    assert_eq!(cpu.read(0x23FF), 0x00);
}

#[test]
fn in_reads_the_input_latch() {
    let mut cpu = cpu_with(&[0xDB, 0x01]);  // IN 1
    let mut cab = Cabinet::new();
    cab.update_inputs(0x45, 0x00);
    cpu.step(&mut cab);
    assert_eq!(cpu.a, 0x45 | 0x08);
    assert_eq!(cpu.pc, 2);
}

#[test]
fn out_drives_the_shift_register() {
    // MVI A, 0xAA; OUT 4
    let mut cpu = cpu_with(&[0x3E, 0xAA, 0xD3, 0x04]);
    let mut cab = Cabinet::new();
    cpu.step(&mut cab);
    cpu.step(&mut cab);
    assert_eq!(cab.shift_msb, 0xAA);
    assert_eq!(cab.shift_lsb, 0x00);
}

#[test]
fn lda_sta_lhld_shld() {
    let mut cab = Cabinet::new();
    let mut cpu = cpu_with(&[0x32, 0x00, 0x20]);  // STA 0x2000
    cpu.a = 0x77;
    cpu.step(&mut cab);
    assert_eq!(cpu.read(0x2000), 0x77);
    assert_eq!(cpu.pc, 3);

    let mut cpu = cpu_with(&[0x2A, 0x00, 0x20]);  // LHLD 0x2000
    cpu.write(0x2000, 0xCD);
    cpu.write(0x2001, 0xAB);
    cpu.step(&mut cab);
    assert_eq!(cpu.hl(), 0xABCD);

    let mut cpu = cpu_with(&[0x22, 0x00, 0x20]);  // SHLD 0x2000
    cpu.h = 0x12;
    cpu.l = 0x34;
    cpu.step(&mut cab);
    assert_eq!(cpu.read(0x2000), 0x34);
    assert_eq!(cpu.read(0x2001), 0x12);
}

#[test]
fn invalid_opcodes_are_nops() {
    let mut cpu = cpu_with(&[0x08]);
    let mut cab = Cabinet::new();
    cpu.a = 0x12;
    cpu.step(&mut cab);
    assert_eq!(cpu.pc, 1);
    assert_eq!(cpu.a, 0x12);
}

#[test]
fn pc_and_sp_wrap() {
    let mut cpu = Cpu8080::new();
    cpu.sp = 0x0001;
    // pushes at 0x0000 and 0xFFFF are in ROM/unmapped space: discarded,
    // but SP still wraps
    cpu.push(0x1234);
    assert_eq!(cpu.sp, 0xFFFF);
}

#[test]
fn conditional_call_and_return_both_ways() {
    let mut cab = Cabinet::new();
    // CC 0x1000 taken: carry set
    let mut cpu = cpu_with(&[0xDC, 0x00, 0x10]);
    cpu.sp = 0x2400;
    cpu.cy = true;
    cpu.step(&mut cab);
    assert_eq!(cpu.pc, 0x1000);
    assert_eq!(cpu.sp, 0x23FE);
    assert_eq!(cpu.read(0x23FE), 0x03);

    // CC 0x1000 untaken: carry clear
    let mut cpu = cpu_with(&[0xDC, 0x00, 0x10]);
    cpu.sp = 0x2400;
    cpu.cy = false;
    cpu.step(&mut cab);
    assert_eq!(cpu.pc, 0x0003);
    assert_eq!(cpu.sp, 0x2400);

    // RZ taken and untaken
    let mut cpu = cpu_with(&[0xC8]);
    cpu.sp = 0x2400;
    cpu.write(0x2400, 0x34);
    cpu.write(0x2401, 0x12);
    cpu.z = true;
    cpu.step(&mut cab);
    assert_eq!(cpu.pc, 0x1234);
    assert_eq!(cpu.sp, 0x2402);

    let mut cpu = cpu_with(&[0xC8]);
    cpu.sp = 0x2400;
    cpu.z = false;
    cpu.step(&mut cab);
    assert_eq!(cpu.pc, 0x0001);
    assert_eq!(cpu.sp, 0x2400);
}

#[test]
fn ldax_and_mvi_memory() {
    let mut cab = Cabinet::new();
    let mut cpu = cpu_with(&[0x0A]);  // LDAX B
    cpu.b = 0x20;
    cpu.c = 0x05;
    cpu.write(0x2005, 0x99);
    cpu.step(&mut cab);
    assert_eq!(cpu.a, 0x99);

    let mut cpu = cpu_with(&[0x36, 0x7E]);  // MVI M, 0x7E
    cpu.h = 0x25;
    cpu.l = 0x00;
    cpu.step(&mut cab);
    assert_eq!(cpu.read(0x2500), 0x7E);
    assert_eq!(cpu.pc, 2);
}
