//! The disassembler's mnemonic syntax and instruction lengths.

use emu8080::disasm::disassembler;

#[test]
fn zero_operand_forms() {
    let rom = vec![0x00u8, 0x76, 0xC9, 0xEB, 0x07];
    assert_eq!(disassembler(0, &rom), ("NOP".to_string(), 1));
    assert_eq!(disassembler(1, &rom), ("HLT".to_string(), 2));
    assert_eq!(disassembler(2, &rom), ("RET".to_string(), 3));
    assert_eq!(disassembler(3, &rom), ("XCHG".to_string(), 4));
    assert_eq!(disassembler(4, &rom), ("RLC".to_string(), 5));
}

#[test]
fn register_forms() {
    let rom = vec![0x41u8, 0x86, 0x3C, 0xF5, 0xC1, 0x7E];
    assert_eq!(disassembler(0, &rom).0, "MOV B, C");
    assert_eq!(disassembler(1, &rom).0, "ADD M");
    assert_eq!(disassembler(2, &rom).0, "INR A");
    assert_eq!(disassembler(3, &rom).0, "PUSH PSW");
    assert_eq!(disassembler(4, &rom).0, "POP B");
    assert_eq!(disassembler(5, &rom).0, "MOV A, M");
}

#[test]
fn immediate_forms() {
    let rom = vec![0x06u8, 0x3A, 0xE6, 0x0F, 0xDB, 0x01, 0xD3, 0x04];
    assert_eq!(disassembler(0, &rom), ("MVI B, 0x3a".to_string(), 2));
    assert_eq!(disassembler(2, &rom), ("ANI 0x0f".to_string(), 4));
    assert_eq!(disassembler(4, &rom), ("IN 0x01".to_string(), 6));
    assert_eq!(disassembler(6, &rom), ("OUT 0x04".to_string(), 8));
}

#[test]
fn address_forms() {
    let rom = vec![0x21u8, 0xEF, 0xBE, 0xC3, 0x34, 0x12, 0xCD, 0x00, 0x20, 0x32, 0x01, 0x24];
    assert_eq!(disassembler(0, &rom), ("LXI H, 0xbeef".to_string(), 3));
    assert_eq!(disassembler(3, &rom), ("JMP 0x1234".to_string(), 6));
    assert_eq!(disassembler(6, &rom), ("CALL 0x2000".to_string(), 9));
    assert_eq!(disassembler(9, &rom), ("STA 0x2401".to_string(), 12));
}

#[test]
fn conditional_forms() {
    let rom = vec![0xC2u8, 0xCD, 0xAB, 0xDC, 0x00, 0x10, 0xC0, 0xF8];
    assert_eq!(disassembler(0, &rom).0, "JNZ 0xabcd");
    assert_eq!(disassembler(3, &rom).0, "CC 0x1000");
    assert_eq!(disassembler(6, &rom).0, "RNZ");
    assert_eq!(disassembler(7, &rom).0, "RM");
}

#[test]
fn rst_and_pairs() {
    let rom = vec![0xD7u8, 0xFF, 0x09, 0x31, 0x00, 0x24];
    assert_eq!(disassembler(0, &rom).0, "RST 2");
    assert_eq!(disassembler(1, &rom).0, "RST 7");
    assert_eq!(disassembler(2, &rom).0, "DAD B");
    assert_eq!(disassembler(3, &rom), ("LXI SP, 0x2400".to_string(), 6));
}

#[test]
fn invalid_forms() {
    let rom = vec![0x08u8, 0xCB, 0xFD];
    assert_eq!(disassembler(0, &rom), ("Invalid: 0x08".to_string(), 1));
    assert_eq!(disassembler(1, &rom), ("Invalid: 0xcb".to_string(), 2));
    assert_eq!(disassembler(2, &rom), ("Invalid: 0xfd".to_string(), 3));
}
