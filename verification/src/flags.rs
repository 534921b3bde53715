//! Flag and ALU arithmetic at the specification level: parity, the exact
//! carry/borrow and auxiliary-carry rules, and the PSW flag byte layout.

use vstd::prelude::*;

verus! {

/// Number of set bits in a byte, written out bit by bit.
pub open spec fn popcount8(v: u8) -> int {
    (v & 1) + ((v >> 1) & 1) + ((v >> 2) & 1) + ((v >> 3) & 1) + ((v >> 4) & 1) + ((v >> 5) & 1)
        + ((v >> 6) & 1) + ((v >> 7) & 1)
}

/// The 8080 parity flag: set when the result has an even number of set bits.
pub open spec fn parity_even(v: u8) -> bool {
    popcount8(v) % 2 == 0
}

/// The sign flag mirrors bit 7 of the result.
pub open spec fn sign_of(v: u8) -> bool {
    (v >> 7) & 1 == 1
}

/// Executable parity check, proved equal to the specification.
pub fn parity_even_exec(v: u8) -> (r: bool)
    ensures
        r == parity_even(v),
{
    let n: u32 = (v & 1) as u32 + ((v >> 1) & 1) as u32 + ((v >> 2) & 1) as u32 + ((v >> 3)
        & 1) as u32 + ((v >> 4) & 1) as u32 + ((v >> 5) & 1) as u32 + ((v >> 6) & 1) as u32 + ((v
        >> 7) & 1) as u32;
    n % 2 == 0
}

/// Executable sign check, proved equal to the specification.
pub fn sign_exec(v: u8) -> (r: bool)
    ensures
        r == sign_of(v),
{
    (v >> 7) & 1 == 1
}

/// 1 when the carry flag is set, 0 otherwise.
pub open spec fn cy_in(cy: bool) -> u8 {
    if cy {
        1u8
    } else {
        0u8
    }
}

/// 8-bit addition result, wrapping modulo 256.
pub open spec fn add_res(a: u8, v: u8, c: u8) -> u8 {
    ((a + v + c) % 256) as u8
}

/// Carry out of an 8-bit addition: the natural unsigned sum overflows.
pub open spec fn add_carry(a: u8, v: u8, c: u8) -> bool {
    a + v + c > 255
}

/// Auxiliary carry of an addition: carry out of the low nibble.
pub open spec fn add_aux(a: u8, v: u8, c: u8) -> bool {
    (a & 0xF) + (v & 0xF) + c > 0xF
}

/// 8-bit subtraction result (`a - v - c`), wrapping modulo 256.
pub open spec fn sub_res(a: u8, v: u8, c: u8) -> u8 {
    ((a + 512 - v - c) % 256) as u8
}

/// Borrow of an 8-bit subtraction: set exactly when `a < v + c` unsigned.
pub open spec fn sub_borrow(a: u8, v: u8, c: u8) -> bool {
    (a as int) < v + c
}

/// Auxiliary borrow of a subtraction: borrow into the low nibble.
pub open spec fn sub_aux(a: u8, v: u8, c: u8) -> bool {
    ((a & 0xF) as int) < (v & 0xF) + c
}

/// Flag byte as pushed by PUSH PSW: bit 7 = S, bit 6 = Z, bit 4 = AC,
/// bit 2 = P, bit 0 = CY; bit 1 reads as 1, bits 3 and 5 as 0.
pub open spec fn psw_byte(z: bool, s: bool, p: bool, cy: bool, ac: bool) -> u8 {
    (if s {
        0x80u8
    } else {
        0u8
    }) | (if z {
        0x40u8
    } else {
        0u8
    }) | (if ac {
        0x10u8
    } else {
        0u8
    }) | (if p {
        0x04u8
    } else {
        0u8
    }) | 0x02u8 | (if cy {
        0x01u8
    } else {
        0u8
    })
}

/// The flag bits recovered from a flag byte, as POP PSW reads them.
pub open spec fn psw_z(f: u8) -> bool {
    f & 0x40 != 0
}

pub open spec fn psw_s(f: u8) -> bool {
    f & 0x80 != 0
}

pub open spec fn psw_p(f: u8) -> bool {
    f & 0x04 != 0
}

pub open spec fn psw_cy(f: u8) -> bool {
    f & 0x01 != 0
}

pub open spec fn psw_ac(f: u8) -> bool {
    f & 0x10 != 0
}

/// Encoding the five flags into the PSW byte and decoding it recovers
/// exactly the flags that were stored.
pub proof fn lemma_psw_round_trip(z: bool, s: bool, p: bool, cy: bool, ac: bool)
    by (bit_vector)
    ensures
        psw_z(psw_byte(z, s, p, cy, ac)) == z,
        psw_s(psw_byte(z, s, p, cy, ac)) == s,
        psw_p(psw_byte(z, s, p, cy, ac)) == p,
        psw_cy(psw_byte(z, s, p, cy, ac)) == cy,
        psw_ac(psw_byte(z, s, p, cy, ac)) == ac,
{
}

} // verus!
