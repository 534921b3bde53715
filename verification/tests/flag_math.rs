//! The flag formulas on concrete values.

use emu8080::flags::{parity_even_exec, sign_exec};

#[test]
fn parity_counts_set_bits() {
    assert!(parity_even_exec(0x00));
    assert!(!parity_even_exec(0x01));
    assert!(parity_even_exec(0x03));
    assert!(parity_even_exec(0x96));
    assert!(!parity_even_exec(0x97));
    assert!(parity_even_exec(0xFF));
}

#[test]
fn sign_is_bit_seven() {
    assert!(!sign_exec(0x7F));
    assert!(sign_exec(0x80));
    assert!(sign_exec(0xFF));
    assert!(!sign_exec(0x00));
}
