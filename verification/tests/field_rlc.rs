//! Field arithmetic, the accumulator engine, the tables and the word
//! packing, on concrete values.

use mpt_circuit::field::{fadd, finv, fmul, fpow, fsub, P};
use mpt_circuit::helpers::into_words;
use mpt_circuit::mpt::{fixed_table_contains, HashRelation, KeccakTable, MPTConfig};
use mpt_circuit::rlc::{bytes_into_rlc, compute_acc_and_mult, fold_window};

#[test]
fn test_fadd_wraps_at_modulus() {
    assert_eq!(fadd(P - 1, 5), 4);
    assert_eq!(fadd(0, 0), 0);
    assert_eq!(fadd(1, 2), 3);
}

#[test]
fn test_fsub_wraps_at_modulus() {
    assert_eq!(fsub(3, 5), P - 2);
    assert_eq!(fsub(5, 5), 0);
    assert_eq!(fsub(7, 2), 5);
}

#[test]
fn test_fmul_exact_reduction() {
    // 2^64 mod (2^64 - 2^32 + 1) = 2^32 - 1.
    assert_eq!(fmul(1 << 32, 1 << 32), (1 << 32) - 1);
    assert_eq!(fmul(3, 5), 15);
    assert_eq!(fmul(P - 1, 1), P - 1);
}

#[test]
fn test_fpow_exact_values() {
    assert_eq!(fpow(2, 10), 1024);
    assert_eq!(fpow(3, 0), 1);
    assert_eq!(fpow(0, 5), 0);
}

#[test]
fn test_inverse_is_inverse_for_nonzero() {
    for x in [1u64, 2, 7, 160, P - 1] {
        let inv = finv(x);
        assert_eq!(fmul(x, inv), 1, "inverse failed for {}", x);
    }
}

#[test]
fn test_no_inverse_of_zero() {
    // The candidate inverse of zero is zero, and no witness at all can
    // multiply zero into one.
    assert_eq!(finv(0), 0);
    for w in [0u64, 1, 2, 12345, P - 1] {
        assert_ne!(fmul(0, w), 1);
    }
}

#[test]
fn test_bytes_into_rlc_exact() {
    // 1 + 2*2 + 3*4 with randomness 2.
    assert_eq!(bytes_into_rlc(&vec![1, 2, 3], 2), 17);
    assert_eq!(bytes_into_rlc(&vec![], 2), 0);
    assert_eq!(bytes_into_rlc(&vec![0, 0, 9], 2), 36);
}

#[test]
fn test_compute_acc_and_mult_window() {
    let row: Vec<u8> = vec![9, 9, 4, 5, 9];
    let mut acc: u64 = 5;
    let mut mult: u64 = 3;
    compute_acc_and_mult(&row, &mut acc, &mut mult, 2, 2, 2);
    // 5 + 4*3 + 5*6 and 3 * 2^2.
    assert_eq!(acc, 47);
    assert_eq!(mult, 12);
}

#[test]
fn test_fold_window_advances_multiplier() {
    let row: Vec<u8> = vec![9, 9, 4, 5];
    let (acc, mult) = fold_window(&row, 0, 4, 0, 1, 2);
    assert_eq!(acc, 9 + 9 * 2 + 4 * 4 + 5 * 8);
    assert_eq!(mult, 16);
}

#[test]
fn test_fixed_table_contents() {
    let cfg = MPTConfig::configure(2);
    let t = cfg.load_fixed_table();
    assert_eq!(t.len(), 65 + 256 + 16);
    // Multiplier powers: tag 0, input is the length, output 2^length.
    assert!(fixed_table_contains(&t, 0, 0, 1));
    assert!(fixed_table_contains(&t, 0, 10, 1024));
    // 2^64 is already reduced: 2^64 mod P = 2^32 - 1.
    assert!(fixed_table_contains(&t, 0, 64, (1u64 << 32) - 1));
    assert!(!fixed_table_contains(&t, 0, 10, 1023));
    assert!(!fixed_table_contains(&t, 0, 65, 0));
    // Byte range: tag 2.
    assert!(fixed_table_contains(&t, 2, 0, 0));
    assert!(fixed_table_contains(&t, 2, 255, 0));
    assert!(!fixed_table_contains(&t, 2, 256, 0));
    // Nibble range: tag 1.
    assert!(fixed_table_contains(&t, 1, 15, 0));
    assert!(!fixed_table_contains(&t, 1, 16, 0));
}

#[test]
fn test_keccak_table_membership() {
    let mut k = KeccakTable::new();
    k.push(5, 7);
    k.push(100, 200);
    assert!(k.contains(5, 7));
    assert!(k.contains(100, 200));
    assert!(!k.contains(5, 8));
    assert!(!k.contains(7, 5));
}

#[test]
fn test_into_words_little_endian() {
    let hash: Vec<u8> = (0u8..32).collect();
    let words = into_words(&hash);
    assert_eq!(words.len(), 4);
    assert_eq!(words[0], 0x0706050403020100);
    assert_eq!(words[1], 0x0f0e0d0c0b0a0908);
    assert_eq!(words[3], 0x1f1e1d1c1b1a1918);
}

#[test]
fn test_load_both_tables() {
    let cfg = MPTConfig::configure(2);
    let rels = vec![
        HashRelation { input_rlc: 5, digest_rlc: 7 },
        HashRelation { input_rlc: 9, digest_rlc: 11 },
    ];
    let (keccak, fixed) = cfg.load(&rels);
    assert!(keccak.contains(5, 7));
    assert!(keccak.contains(9, 11));
    assert!(!keccak.contains(5, 11));
    assert_eq!(fixed.len(), 65 + 256 + 16);
}
