//! The offline disassembler: one Intel 8080 mnemonic line per instruction,
//! together with the address of the next instruction. The text and the
//! instruction length are both specified exactly.

use vstd::prelude::*;

use crate::model::{is_alu_reg, is_mov};

verus! {

/// Total byte length of the instruction with opcode `op` (1, 2 or 3).
pub open spec fn instr_len(op: u8) -> int {
    if op & 0xCF == 0x01 {
        3  // LXI
    } else if op == 0x22 || op == 0x2A || op == 0x32 || op == 0x3A {
        3  // SHLD LHLD STA LDA
    } else if op == 0xC3 || op == 0xCD {
        3  // JMP CALL
    } else if !(op < 0xC0) && (op & 0xC7 == 0xC2 || op & 0xC7 == 0xC4) {
        3  // Jcc Ccc
    } else if op & 0xC7 == 0x06 {
        2  // MVI
    } else if !(op < 0xC0) && op & 0xC7 == 0xC6 {
        2  // ADI ACI SUI SBI ANI XRI ORI CPI
    } else if op == 0xD3 || op == 0xDB {
        2  // OUT IN
    } else {
        1
    }
}

/// Register-operand name (B C D E H L M A).
pub open spec fn reg_name(idx: u8) -> Seq<char> {
    if idx == 0 {
        "B"@
    } else if idx == 1 {
        "C"@
    } else if idx == 2 {
        "D"@
    } else if idx == 3 {
        "E"@
    } else if idx == 4 {
        "H"@
    } else if idx == 5 {
        "L"@
    } else if idx == 6 {
        "M"@
    } else {
        "A"@
    }
}

/// Register-pair name as written in LXI/DAD/INX/DCX/STAX/LDAX.
pub open spec fn rp_name(idx: u8) -> Seq<char> {
    if idx == 0 {
        "B"@
    } else if idx == 1 {
        "D"@
    } else if idx == 2 {
        "H"@
    } else {
        "SP"@
    }
}

/// Pair name as written in PUSH/POP, where index 3 is the PSW.
pub open spec fn stack_rp_name(idx: u8) -> Seq<char> {
    if idx == 3 {
        "PSW"@
    } else {
        rp_name(idx)
    }
}

/// Register-form ALU mnemonics by group.
pub open spec fn alu_name(g: u8) -> Seq<char> {
    if g == 0 {
        "ADD"@
    } else if g == 1 {
        "ADC"@
    } else if g == 2 {
        "SUB"@
    } else if g == 3 {
        "SBB"@
    } else if g == 4 {
        "ANA"@
    } else if g == 5 {
        "XRA"@
    } else if g == 6 {
        "ORA"@
    } else {
        "CMP"@
    }
}

/// Immediate-form ALU mnemonics by group.
pub open spec fn alu_imm_name(g: u8) -> Seq<char> {
    if g == 0 {
        "ADI"@
    } else if g == 1 {
        "ACI"@
    } else if g == 2 {
        "SUI"@
    } else if g == 3 {
        "SBI"@
    } else if g == 4 {
        "ANI"@
    } else if g == 5 {
        "XRI"@
    } else if g == 6 {
        "ORI"@
    } else {
        "CPI"@
    }
}

/// Conditional-jump mnemonics by condition code.
pub open spec fn jcc_name(c: u8) -> Seq<char> {
    if c == 0 {
        "JNZ"@
    } else if c == 1 {
        "JZ"@
    } else if c == 2 {
        "JNC"@
    } else if c == 3 {
        "JC"@
    } else if c == 4 {
        "JPO"@
    } else if c == 5 {
        "JPE"@
    } else if c == 6 {
        "JP"@
    } else {
        "JM"@
    }
}

/// Conditional-call mnemonics by condition code.
pub open spec fn ccc_name(c: u8) -> Seq<char> {
    if c == 0 {
        "CNZ"@
    } else if c == 1 {
        "CZ"@
    } else if c == 2 {
        "CNC"@
    } else if c == 3 {
        "CC"@
    } else if c == 4 {
        "CPO"@
    } else if c == 5 {
        "CPE"@
    } else if c == 6 {
        "CP"@
    } else {
        "CM"@
    }
}

/// Conditional-return mnemonics by condition code.
pub open spec fn rcc_name(c: u8) -> Seq<char> {
    if c == 0 {
        "RNZ"@
    } else if c == 1 {
        "RZ"@
    } else if c == 2 {
        "RNC"@
    } else if c == 3 {
        "RC"@
    } else if c == 4 {
        "RPO"@
    } else if c == 5 {
        "RPE"@
    } else if c == 6 {
        "RP"@
    } else {
        "RM"@
    }
}

/// The restart number of an RST opcode, as text.
pub open spec fn rst_digit(n: u8) -> Seq<char> {
    if n == 0 {
        "0"@
    } else if n == 1 {
        "1"@
    } else if n == 2 {
        "2"@
    } else if n == 3 {
        "3"@
    } else if n == 4 {
        "4"@
    } else if n == 5 {
        "5"@
    } else if n == 6 {
        "6"@
    } else {
        "7"@
    }
}

/// One lowercase hex digit.
pub open spec fn hex_digit(d: u8) -> Seq<char> {
    if d == 0 {
        "0"@
    } else if d == 1 {
        "1"@
    } else if d == 2 {
        "2"@
    } else if d == 3 {
        "3"@
    } else if d == 4 {
        "4"@
    } else if d == 5 {
        "5"@
    } else if d == 6 {
        "6"@
    } else if d == 7 {
        "7"@
    } else if d == 8 {
        "8"@
    } else if d == 9 {
        "9"@
    } else if d == 10 {
        "a"@
    } else if d == 11 {
        "b"@
    } else if d == 12 {
        "c"@
    } else if d == 13 {
        "d"@
    } else if d == 14 {
        "e"@
    } else {
        "f"@
    }
}

/// Two lowercase hex digits of one byte.
pub open spec fn hex2(v: u8) -> Seq<char> {
    hex_digit((v >> 4) & 0xF) + hex_digit(v & 0xF)
}

/// Text of the instructions with opcodes below 0x40.
pub open spec fn lo_text(code: Seq<u8>, pc: int, op: u8) -> Seq<char> {
    if op == 0x00 {
        "NOP"@
    } else if op == 0x07 {
        "RLC"@
    } else if op == 0x0F {
        "RRC"@
    } else if op == 0x17 {
        "RAL"@
    } else if op == 0x1F {
        "RAR"@
    } else if op == 0x27 {
        "DAA"@
    } else if op == 0x2F {
        "CMA"@
    } else if op == 0x37 {
        "STC"@
    } else if op == 0x3F {
        "CMC"@
    } else if op == 0x02 {
        "STAX B"@
    } else if op == 0x12 {
        "STAX D"@
    } else if op == 0x0A {
        "LDAX B"@
    } else if op == 0x1A {
        "LDAX D"@
    } else if op == 0x22 {
        "SHLD 0x"@ + hex2(code[pc + 2]) + hex2(code[pc + 1])
    } else if op == 0x2A {
        "LHLD 0x"@ + hex2(code[pc + 2]) + hex2(code[pc + 1])
    } else if op == 0x32 {
        "STA 0x"@ + hex2(code[pc + 2]) + hex2(code[pc + 1])
    } else if op == 0x3A {
        "LDA 0x"@ + hex2(code[pc + 2]) + hex2(code[pc + 1])
    } else if op & 0xCF == 0x01 {
        "LXI "@ + rp_name((op >> 4) & 3) + ", 0x"@ + hex2(code[pc + 2]) + hex2(code[pc + 1])
    } else if op & 0xC7 == 0x06 {
        "MVI "@ + reg_name((op >> 3) & 7) + ", 0x"@ + hex2(code[pc + 1])
    } else if op & 0xC7 == 0x04 {
        "INR "@ + reg_name((op >> 3) & 7)
    } else if op & 0xC7 == 0x05 {
        "DCR "@ + reg_name((op >> 3) & 7)
    } else if op & 0xCF == 0x09 {
        "DAD "@ + rp_name((op >> 4) & 3)
    } else if op & 0xCF == 0x03 {
        "INX "@ + rp_name((op >> 4) & 3)
    } else if op & 0xCF == 0x0B {
        "DCX "@ + rp_name((op >> 4) & 3)
    } else {
        "Invalid: 0x"@ + hex2(op)
    }
}

/// Text of the instructions with opcodes 0x40 and above that are neither
/// MOV nor register-ALU forms.
pub open spec fn hi_text(code: Seq<u8>, pc: int, op: u8) -> Seq<char> {
    if op == 0x76 {
        "HLT"@
    } else if op == 0xC3 {
        "JMP 0x"@ + hex2(code[pc + 2]) + hex2(code[pc + 1])
    } else if op == 0xC9 {
        "RET"@
    } else if op == 0xCD {
        "CALL 0x"@ + hex2(code[pc + 2]) + hex2(code[pc + 1])
    } else if op == 0xD3 {
        "OUT 0x"@ + hex2(code[pc + 1])
    } else if op == 0xDB {
        "IN 0x"@ + hex2(code[pc + 1])
    } else if op == 0xE3 {
        "XTHL"@
    } else if op == 0xE9 {
        "PCHL"@
    } else if op == 0xEB {
        "XCHG"@
    } else if op == 0xF3 {
        "DI"@
    } else if op == 0xF9 {
        "SPHL"@
    } else if op == 0xFB {
        "EI"@
    } else if op & 0xC7 == 0xC0 {
        rcc_name((op >> 3) & 7)
    } else if op & 0xC7 == 0xC2 {
        jcc_name((op >> 3) & 7) + " 0x"@ + hex2(code[pc + 2]) + hex2(code[pc + 1])
    } else if op & 0xC7 == 0xC4 {
        ccc_name((op >> 3) & 7) + " 0x"@ + hex2(code[pc + 2]) + hex2(code[pc + 1])
    } else if op & 0xC7 == 0xC6 {
        alu_imm_name((op >> 3) & 7) + " 0x"@ + hex2(code[pc + 1])
    } else if op & 0xC7 == 0xC7 {
        "RST "@ + rst_digit((op >> 3) & 7)
    } else if op & 0xCF == 0xC5 {
        "PUSH "@ + stack_rp_name((op >> 4) & 3)
    } else if op & 0xCF == 0xC1 {
        "POP "@ + stack_rp_name((op >> 4) & 3)
    } else {
        "Invalid: 0x"@ + hex2(op)
    }
}

/// Full text of the instruction at `pc`.
pub open spec fn disasm_text(code: Seq<u8>, pc: int) -> Seq<char> {
    let op = code[pc];
    if is_mov(op) {
        "MOV "@ + reg_name((op >> 3) & 7) + ", "@ + reg_name(op & 7)
    } else if is_alu_reg(op) {
        alu_name((op >> 3) & 7) + " "@ + reg_name(op & 7)
    } else if op < 0x40 {
        lo_text(code, pc, op)
    } else {
        hi_text(code, pc, op)
    }
}

fn reg_name_str(idx: u8) -> (r: &'static str)
    ensures
        r@ == reg_name(idx),
{
    if idx == 0 {
        "B"
    } else if idx == 1 {
        "C"
    } else if idx == 2 {
        "D"
    } else if idx == 3 {
        "E"
    } else if idx == 4 {
        "H"
    } else if idx == 5 {
        "L"
    } else if idx == 6 {
        "M"
    } else {
        "A"
    }
}

fn rp_name_str(idx: u8) -> (r: &'static str)
    ensures
        r@ == rp_name(idx),
{
    if idx == 0 {
        "B"
    } else if idx == 1 {
        "D"
    } else if idx == 2 {
        "H"
    } else {
        "SP"
    }
}

fn stack_rp_name_str(idx: u8) -> (r: &'static str)
    ensures
        r@ == stack_rp_name(idx),
{
    if idx == 3 {
        "PSW"
    } else {
        rp_name_str(idx)
    }
}

fn alu_name_str(g: u8) -> (r: &'static str)
    ensures
        r@ == alu_name(g),
{
    if g == 0 {
        "ADD"
    } else if g == 1 {
        "ADC"
    } else if g == 2 {
        "SUB"
    } else if g == 3 {
        "SBB"
    } else if g == 4 {
        "ANA"
    } else if g == 5 {
        "XRA"
    } else if g == 6 {
        "ORA"
    } else {
        "CMP"
    }
}

fn alu_imm_name_str(g: u8) -> (r: &'static str)
    ensures
        r@ == alu_imm_name(g),
{
    if g == 0 {
        "ADI"
    } else if g == 1 {
        "ACI"
    } else if g == 2 {
        "SUI"
    } else if g == 3 {
        "SBI"
    } else if g == 4 {
        "ANI"
    } else if g == 5 {
        "XRI"
    } else if g == 6 {
        "ORI"
    } else {
        "CPI"
    }
}

fn jcc_name_str(c: u8) -> (r: &'static str)
    ensures
        r@ == jcc_name(c),
{
    if c == 0 {
        "JNZ"
    } else if c == 1 {
        "JZ"
    } else if c == 2 {
        "JNC"
    } else if c == 3 {
        "JC"
    } else if c == 4 {
        "JPO"
    } else if c == 5 {
        "JPE"
    } else if c == 6 {
        "JP"
    } else {
        "JM"
    }
}

fn ccc_name_str(c: u8) -> (r: &'static str)
    ensures
        r@ == ccc_name(c),
{
    if c == 0 {
        "CNZ"
    } else if c == 1 {
        "CZ"
    } else if c == 2 {
        "CNC"
    } else if c == 3 {
        "CC"
    } else if c == 4 {
        "CPO"
    } else if c == 5 {
        "CPE"
    } else if c == 6 {
        "CP"
    } else {
        "CM"
    }
}

fn rcc_name_str(c: u8) -> (r: &'static str)
    ensures
        r@ == rcc_name(c),
{
    if c == 0 {
        "RNZ"
    } else if c == 1 {
        "RZ"
    } else if c == 2 {
        "RNC"
    } else if c == 3 {
        "RC"
    } else if c == 4 {
        "RPO"
    } else if c == 5 {
        "RPE"
    } else if c == 6 {
        "RP"
    } else {
        "RM"
    }
}

fn rst_digit_str(n: u8) -> (r: &'static str)
    ensures
        r@ == rst_digit(n),
{
    if n == 0 {
        "0"
    } else if n == 1 {
        "1"
    } else if n == 2 {
        "2"
    } else if n == 3 {
        "3"
    } else if n == 4 {
        "4"
    } else if n == 5 {
        "5"
    } else if n == 6 {
        "6"
    } else {
        "7"
    }
}

fn hex_digit_str(d: u8) -> (r: &'static str)
    ensures
        r@ == hex_digit(d),
{
    if d == 0 {
        "0"
    } else if d == 1 {
        "1"
    } else if d == 2 {
        "2"
    } else if d == 3 {
        "3"
    } else if d == 4 {
        "4"
    } else if d == 5 {
        "5"
    } else if d == 6 {
        "6"
    } else if d == 7 {
        "7"
    } else if d == 8 {
        "8"
    } else if d == 9 {
        "9"
    } else if d == 10 {
        "a"
    } else if d == 11 {
        "b"
    } else if d == 12 {
        "c"
    } else if d == 13 {
        "d"
    } else if d == 14 {
        "e"
    } else {
        "f"
    }
}

/// Appends the two hex digits of `v`.
fn push_hex2(s: &mut String, v: u8)
    ensures
        final(s)@ == old(s)@ + hex2(v),
{
    s.append(hex_digit_str((v >> 4) & 0xF));
    s.append(hex_digit_str(v & 0xF));
    proof {
        assert(s@ =~= old(s)@ + hex2(v));
    }
}

/// Byte length of the instruction with opcode `op`.
pub fn instr_len_exec(op: u8) -> (n: usize)
    ensures
        n == instr_len(op),
{
    if op & 0xCF == 0x01 {
        3
    } else if op == 0x22 || op == 0x2A || op == 0x32 || op == 0x3A {
        3
    } else if op == 0xC3 || op == 0xCD {
        3
    } else if !(op < 0xC0) && (op & 0xC7 == 0xC2 || op & 0xC7 == 0xC4) {
        3
    } else if op & 0xC7 == 0x06 {
        2
    } else if !(op < 0xC0) && op & 0xC7 == 0xC6 {
        2
    } else if op == 0xD3 || op == 0xDB {
        2
    } else {
        1
    }
}

/// Mnemonic text of an instruction below 0x40.
#[verifier::rlimit(80)]
fn lo_text_exec(rom: &Vec<u8>, pc: usize, op: u8) -> (s: String)
    requires
        pc < rom@.len(),
        op == rom@[pc as int],
        pc + instr_len(op) <= rom@.len(),
    ensures
        s@ == lo_text(rom@, pc as int, op),
{
    // binds the length as usize, so the operand index sums below cannot overflow
    let _len: usize = rom.len();
    if op == 0x00 {
        String::from_str("NOP")
    } else if op == 0x07 {
        String::from_str("RLC")
    } else if op == 0x0F {
        String::from_str("RRC")
    } else if op == 0x17 {
        String::from_str("RAL")
    } else if op == 0x1F {
        String::from_str("RAR")
    } else if op == 0x27 {
        String::from_str("DAA")
    } else if op == 0x2F {
        String::from_str("CMA")
    } else if op == 0x37 {
        String::from_str("STC")
    } else if op == 0x3F {
        String::from_str("CMC")
    } else if op == 0x02 {
        String::from_str("STAX B")
    } else if op == 0x12 {
        String::from_str("STAX D")
    } else if op == 0x0A {
        String::from_str("LDAX B")
    } else if op == 0x1A {
        String::from_str("LDAX D")
    } else if op == 0x22 || op == 0x2A || op == 0x32 || op == 0x3A {
        proof {
            assert(0x22u8 & 0xCF != 0x01 && 0x2Au8 & 0xCF != 0x01 && 0x32u8 & 0xCF != 0x01
                && 0x3Au8 & 0xCF != 0x01) by (bit_vector);
        }
        let mut s = if op == 0x22 {
            String::from_str("SHLD 0x")
        } else if op == 0x2A {
            String::from_str("LHLD 0x")
        } else if op == 0x32 {
            String::from_str("STA 0x")
        } else {
            String::from_str("LDA 0x")
        };
        push_hex2(&mut s, rom[pc + 2]);
        push_hex2(&mut s, rom[pc + 1]);
        s
    } else if op & 0xCF == 0x01 {
        let mut s = String::from_str("LXI ");
        s.append(rp_name_str((op >> 4) & 3));
        s.append(", 0x");
        push_hex2(&mut s, rom[pc + 2]);
        push_hex2(&mut s, rom[pc + 1]);
        s
    } else if op & 0xC7 == 0x06 {
        proof {
            assert(op & 0xC7 == 0x06 ==> op & 0xCF != 0x01 && op != 0x22 && op != 0x2A && op
                != 0x32 && op != 0x3A && op != 0xC3 && op != 0xCD) by (bit_vector);
        }
        let mut s = String::from_str("MVI ");
        s.append(reg_name_str((op >> 3) & 7));
        s.append(", 0x");
        push_hex2(&mut s, rom[pc + 1]);
        s
    } else if op & 0xC7 == 0x04 {
        let mut s = String::from_str("INR ");
        s.append(reg_name_str((op >> 3) & 7));
        s
    } else if op & 0xC7 == 0x05 {
        let mut s = String::from_str("DCR ");
        s.append(reg_name_str((op >> 3) & 7));
        s
    } else if op & 0xCF == 0x09 {
        let mut s = String::from_str("DAD ");
        s.append(rp_name_str((op >> 4) & 3));
        s
    } else if op & 0xCF == 0x03 {
        let mut s = String::from_str("INX ");
        s.append(rp_name_str((op >> 4) & 3));
        s
    } else if op & 0xCF == 0x0B {
        let mut s = String::from_str("DCX ");
        s.append(rp_name_str((op >> 4) & 3));
        s
    } else {
        let mut s = String::from_str("Invalid: 0x");
        push_hex2(&mut s, op);
        s
    }
}

/// Mnemonic text of an instruction at 0x40 and above that is neither MOV
/// nor a register-ALU form.
#[verifier::rlimit(80)]
fn hi_text_exec(rom: &Vec<u8>, pc: usize, op: u8) -> (s: String)
    requires
        pc < rom@.len(),
        op == rom@[pc as int],
        pc + instr_len(op) <= rom@.len(),
    ensures
        s@ == hi_text(rom@, pc as int, op),
{
    // binds the length as usize, so the operand index sums below cannot overflow
    let _len: usize = rom.len();
    if op == 0x76 {
        String::from_str("HLT")
    } else if op == 0xC3 || op == 0xCD {
        proof {
            assert(0xC3u8 & 0xCF != 0x01 && 0xCDu8 & 0xCF != 0x01) by (bit_vector);
        }
        let mut s = if op == 0xC3 {
            String::from_str("JMP 0x")
        } else {
            String::from_str("CALL 0x")
        };
        push_hex2(&mut s, rom[pc + 2]);
        push_hex2(&mut s, rom[pc + 1]);
        s
    } else if op == 0xC9 {
        String::from_str("RET")
    } else if op == 0xD3 || op == 0xDB {
        proof {
            assert(0xD3u8 & 0xCF != 0x01 && 0xDBu8 & 0xCF != 0x01 && 0xD3u8 & 0xC7 != 0xC2
                && 0xD3u8 & 0xC7 != 0xC4 && 0xDBu8 & 0xC7 != 0xC2 && 0xDBu8 & 0xC7 != 0xC4
                && 0xD3u8 & 0xC7 != 0x06 && 0xDBu8 & 0xC7 != 0x06 && 0xD3u8 & 0xC7 != 0xC6
                && 0xDBu8 & 0xC7 != 0xC6) by (bit_vector);
        }
        let mut s = if op == 0xD3 {
            String::from_str("OUT 0x")
        } else {
            String::from_str("IN 0x")
        };
        push_hex2(&mut s, rom[pc + 1]);
        s
    } else if op == 0xE3 {
        String::from_str("XTHL")
    } else if op == 0xE9 {
        String::from_str("PCHL")
    } else if op == 0xEB {
        String::from_str("XCHG")
    } else if op == 0xF3 {
        String::from_str("DI")
    } else if op == 0xF9 {
        String::from_str("SPHL")
    } else if op == 0xFB {
        String::from_str("EI")
    } else if op & 0xC7 == 0xC0 {
        String::from_str(rcc_name_str((op >> 3) & 7))
    } else if op & 0xC7 == 0xC2 || op & 0xC7 == 0xC4 {
        proof {
            assert((op & 0xC7 == 0xC2 || op & 0xC7 == 0xC4) ==> op & 0xCF != 0x01 && op != 0x22
                && op != 0x2A && op != 0x32 && op != 0x3A && op != 0xC3 && op != 0xCD && !(op
                < 0xC0)) by (bit_vector);
        }
        let mut s = if op & 0xC7 == 0xC2 {
            String::from_str(jcc_name_str((op >> 3) & 7))
        } else {
            String::from_str(ccc_name_str((op >> 3) & 7))
        };
        s.append(" 0x");
        push_hex2(&mut s, rom[pc + 2]);
        push_hex2(&mut s, rom[pc + 1]);
        s
    } else if op & 0xC7 == 0xC6 {
        proof {
            assert(op & 0xC7 == 0xC6 ==> op & 0xCF != 0x01 && op != 0x22 && op != 0x2A && op
                != 0x32 && op != 0x3A && op != 0xC3 && op != 0xCD && !(op < 0xC0)) by (bit_vector);
        }
        let mut s = String::from_str(alu_imm_name_str((op >> 3) & 7));
        s.append(" 0x");
        push_hex2(&mut s, rom[pc + 1]);
        s
    } else if op & 0xC7 == 0xC7 {
        let mut s = String::from_str("RST ");
        s.append(rst_digit_str((op >> 3) & 7));
        s
    } else if op & 0xCF == 0xC5 {
        let mut s = String::from_str("PUSH ");
        s.append(stack_rp_name_str((op >> 4) & 3));
        s
    } else if op & 0xCF == 0xC1 {
        let mut s = String::from_str("POP ");
        s.append(stack_rp_name_str((op >> 4) & 3));
        s
    } else {
        let mut s = String::from_str("Invalid: 0x");
        push_hex2(&mut s, op);
        s
    }
}

/// Disassembles the instruction at `pc`: returns its mnemonic line and the
/// address of the next instruction.
pub fn disassembler(pc: usize, rom: &Vec<u8>) -> (r: (String, usize))
    requires
        pc < rom@.len(),
        pc + instr_len(rom@[pc as int]) <= rom@.len(),
    ensures
        r.0@ == disasm_text(rom@, pc as int),
        r.1 == pc + instr_len(rom@[pc as int]),
{
    // binds the length as usize, so `pc + instr_len` cannot overflow
    let _len: usize = rom.len();
    let op = rom[pc];
    let next = pc + instr_len_exec(op);
    let text: String = if 0x40 <= op && op < 0x80 && op != 0x76 {
        let mut s = String::from_str("MOV ");
        s.append(reg_name_str((op >> 3) & 7));
        s.append(", ");
        s.append(reg_name_str(op & 7));
        s
    } else if 0x80 <= op && op < 0xC0 {
        let mut s = String::from_str(alu_name_str((op >> 3) & 7));
        s.append(" ");
        s.append(reg_name_str(op & 7));
        s
    } else if op < 0x40 {
        lo_text_exec(rom, pc, op)
    } else {
        hi_text_exec(rom, pc, op)
    };
    (text, next)
}

} // verus!
