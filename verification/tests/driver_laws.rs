//! The witness-assignment driver end to end, and the library's stated
//! laws on concrete data: completeness of key accumulation, tamper
//! sensitivity of the modified-child index, the key round trip, the
//! nibble-count invariant, root continuity and placeholder consistency.

use mpt_circuit::account_leaf_nonce_balance::{AccountLeafNonceBalanceChip, NonceBalanceInput};
use mpt_circuit::branch_key::{key_rlc_branch_step, BranchKeyConfig, BranchKeyInput};
use mpt_circuit::field::{fadd, fmul};
use mpt_circuit::leaf_key::{LeafKeyChip, LeafKeyInput};
use mpt_circuit::mpt::{AssignedRow, MPTConfig};
use mpt_circuit::proof_chain::{ProofChainConfig, ProofRoots};
use mpt_circuit::rlc::{bytes_into_rlc, fold_window};
use mpt_circuit::witness_row::MptWitnessRow;

fn make_row(front: &[u8], nfl: u8, typ: u8) -> MptWitnessRow {
    let mut b = vec![0u8; 76];
    for (i, x) in front.iter().enumerate() {
        b[i] = *x;
    }
    b[74] = nfl;
    b[75] = typ;
    MptWitnessRow::new(b)
}

fn branch_init_row(modified: u8, s_placeholder: bool, c16: bool, nfl: u8) -> MptWitnessRow {
    let mut f = vec![0u8; 68];
    f[0] = 1;
    f[2] = 1;
    f[4] = 248;
    f[5] = 81;
    f[7] = 248;
    f[8] = 81;
    f[10] = modified;
    f[11] = if s_placeholder { 1 } else { 0 };
    f[19] = if c16 { 1 } else { 0 };
    f[20] = if c16 { 0 } else { 1 };
    make_row(&f, nfl, 0)
}

fn child_row(hash_seed: u8, nfl: u8) -> MptWitnessRow {
    let mut f = vec![0u8; 68];
    f[1] = 160;
    f[35] = 160;
    for i in 0..32 {
        f[2 + i] = hash_seed.wrapping_add(i as u8);
        f[36 + i] = hash_seed.wrapping_add(i as u8).wrapping_add(1);
    }
    make_row(&f, nfl, 1)
}

fn branch_rows(modified: u8, s_placeholder: bool, c16: bool, nfl: u8) -> Vec<MptWitnessRow> {
    let mut rows = vec![branch_init_row(modified, s_placeholder, c16, nfl)];
    for i in 0..16u8 {
        rows.push(child_row(i * 11 + 7, nfl));
    }
    rows
}

#[test]
fn test_assign_empty_witness() {
    let cfg = MPTConfig::configure(2);
    let trace = cfg.assign(&Vec::new());
    assert_eq!(trace.len(), 0);
}

#[test]
fn test_assign_skips_hash_rows() {
    let cfg = MPTConfig::configure(2);
    let rows = vec![make_row(&[1, 2, 3], 0, 5)];
    let trace = cfg.assign(&rows);
    assert_eq!(trace.len(), 1);
    assert_eq!(trace[0], AssignedRow::new());
}

#[test]
fn test_assign_first_level_branch() {
    let cfg = MPTConfig::configure(2);
    let rows = branch_rows(5, false, true, 0);
    let trace = cfg.assign(&rows);
    assert_eq!(trace.len(), 17);
    // In the first level the key RLC is the modified nibble weighted by 16.
    assert_eq!(trace[1].key_rlc, 80);
    assert_eq!(trace[1].key_rlc_mult, 1);
    // The branch accumulator folds the init meta bytes, then each child.
    let init_acc = 248 + 81 * 2;
    let (after_child0, _m) = fold_window(&rows[1].bytes, 1, 33, init_acc, 4, 2);
    assert_eq!(trace[1].acc_s, after_child0);
    // The modified child's folded hash is captured on its row.
    let mod_hash = fold_window(&rows[6].bytes, 2, 32, 0, 1, 2).0;
    assert_eq!(trace[6].s_mod_node_rlc, mod_hash);
}

#[test]
fn test_branch_key_checker_accepts_assignment() {
    // Completeness of key accumulation: the assignment's first-level key
    // values satisfy every key-accumulation assertion.
    let cfg = MPTConfig::configure(2);
    let rows = branch_rows(5, false, true, 0);
    let trace = cfg.assign(&rows);
    let bk = BranchKeyConfig::configure(2);
    let inp = BranchKeyInput {
        not_first_level: false,
        is_account_leaf_above: false,
        is_ext_short_c16: false,
        is_ext_short_c1: false,
        is_ext_long_even_c16: false,
        is_ext_long_even_c1: false,
        is_ext_long_odd_c16: false,
        is_ext_long_odd_c1: false,
        modified_node: 5,
        sel1_prev: 0,
        sel1_cur: 1,
        sel2_cur: 0,
        key_rlc_prev: 0,
        key_rlc_mult_prev: 1,
        key_rlc_cur: trace[1].key_rlc,
        key_rlc_mult_cur: trace[1].key_rlc_mult,
    };
    assert!(bk.check(&inp));
}

#[test]
fn test_tampered_modified_node_rejected() {
    // Tamper sensitivity: flipping one bit of the branch's modified-child
    // index makes the key-accumulation assertion fail against the
    // honestly assigned trace.
    let cfg = MPTConfig::configure(2);
    let rows = branch_rows(5, false, true, 0);
    let trace = cfg.assign(&rows);
    let bk = BranchKeyConfig::configure(2);
    let mut inp = BranchKeyInput {
        not_first_level: false,
        is_account_leaf_above: false,
        is_ext_short_c16: false,
        is_ext_short_c1: false,
        is_ext_long_even_c16: false,
        is_ext_long_even_c1: false,
        is_ext_long_odd_c16: false,
        is_ext_long_odd_c1: false,
        modified_node: 5 ^ 1,
        sel1_prev: 0,
        sel1_cur: 1,
        sel2_cur: 0,
        key_rlc_prev: 0,
        key_rlc_mult_prev: 1,
        key_rlc_cur: trace[1].key_rlc,
        key_rlc_mult_cur: trace[1].key_rlc_mult,
    };
    assert!(!bk.check(&inp));
    // The honest index is accepted again.
    inp.modified_node = 5;
    assert!(bk.check(&inp));
}

#[test]
fn test_second_level_key_accumulation() {
    let cfg = MPTConfig::configure(2);
    let mut rows = branch_rows(5, false, true, 0);
    rows.extend(branch_rows(9, false, false, 1));
    let trace = cfg.assign(&rows);
    assert_eq!(trace.len(), 34);
    // Second branch: the nibble is weighted by 1 and the multiplier
    // advances by the randomness.
    assert_eq!(trace[18].key_rlc, fadd(80, fmul(9, 1)));
    assert_eq!(trace[18].key_rlc_mult, 2);
    let bk = BranchKeyConfig::configure(2);
    let inp = BranchKeyInput {
        not_first_level: true,
        is_account_leaf_above: false,
        is_ext_short_c16: false,
        is_ext_short_c1: false,
        is_ext_long_even_c16: false,
        is_ext_long_even_c1: false,
        is_ext_long_odd_c16: false,
        is_ext_long_odd_c1: false,
        modified_node: 9,
        sel1_prev: 1,
        sel1_cur: 0,
        sel2_cur: 1,
        key_rlc_prev: trace[1].key_rlc,
        key_rlc_mult_prev: trace[1].key_rlc_mult,
        key_rlc_cur: trace[18].key_rlc,
        key_rlc_mult_cur: trace[18].key_rlc_mult,
    };
    assert!(bk.check(&inp));
}

#[test]
fn test_key_round_trip() {
    // Folding all 64 nibbles of a 32-byte key through the branch-key steps
    // yields the RLC of the raw key computed independently.
    let key: Vec<u8> = (0..32).map(|i| (i * 17 + 3) as u8).collect();
    let mut rlc: u64 = 0;
    let mut mult: u64 = 1;
    let mut sel = true;
    for b in &key {
        for nib in [b >> 4, b & 15] {
            let (nrlc, nmult, nsel) = key_rlc_branch_step(rlc, mult, sel, nib, 2);
            rlc = nrlc;
            mult = nmult;
            sel = nsel;
        }
    }
    assert_eq!(rlc, bytes_into_rlc(&key, 2));
}

#[test]
fn test_nibbles_total() {
    let chip = LeafKeyChip::construct(LeafKeyChip::configure(2, true));
    // Branch/extension nibbles plus leaf-resident nibbles must reach 64.
    assert!(chip.check_nibbles_total(64, 0));
    assert!(chip.check_nibbles_total(40, 24));
    assert!(chip.check_nibbles_total(0, 64));
    assert!(!chip.check_nibbles_total(63, 0));
    assert!(!chip.check_nibbles_total(64, 1));
    assert!(!chip.check_nibbles_total(200, 0));
}

#[test]
fn test_root_continuity() {
    let pc = ProofChainConfig::configure();
    let r0 = 111u64;
    let r1 = 222u64;
    let r2 = 333u64;
    let chain = vec![
        ProofRoots { start_root: r0, final_root: r1 },
        ProofRoots { start_root: r1, final_root: r2 },
    ];
    assert!(pc.check(&chain, r0, r2));
    // Corrupting either side of the shared root is rejected.
    let broken = vec![
        ProofRoots { start_root: r0, final_root: r1 },
        ProofRoots { start_root: r1 ^ 1, final_root: r2 },
    ];
    assert!(!pc.check(&broken, r0, r2));
    let broken2 = vec![
        ProofRoots { start_root: r0, final_root: r1 ^ 1 },
        ProofRoots { start_root: r1, final_root: r2 },
    ];
    assert!(!pc.check(&broken2, r0, r2));
    // The public commitments must match the outermost roots.
    assert!(!pc.check(&chain, r0 ^ 1, r2));
    assert!(!pc.check(&chain, r0, r2 ^ 1));
    // A single proof and an empty chain.
    let one = vec![ProofRoots { start_root: r0, final_root: r1 }];
    assert!(pc.check(&one, r0, r1));
    assert!(!pc.check(&Vec::new(), r0, r1));
}

fn placeholder_leaf_row() -> MptWitnessRow {
    // A storage leaf whose residual key starts mid-byte: 48 + first
    // nibble, then 31 key bytes.
    let mut f = vec![0u8; 68];
    f[0] = 225;
    f[1] = 160;
    f[2] = 52;
    for i in 3..34 {
        f[i] = (i * 3) as u8;
    }
    make_row(&f, 1, 2)
}

#[test]
fn test_placeholder_consistency() {
    // Placeholder consistency: the surviving leaf's key RLC resumes from
    // the snapshot of the level above the placeholder, and equals the key
    // RLC computed by skipping the placeholder level entirely.
    let cfg = MPTConfig::configure(2);
    let mut rows = branch_rows(3, false, true, 0);
    rows.extend(branch_rows(7, true, false, 1));
    rows.push(placeholder_leaf_row());
    let trace = cfg.assign(&rows);
    let leaf = 34;
    // The snapshot columns hold the key pair of the level above the
    // placeholder: after the first branch alone.
    assert_eq!(trace[leaf].key_rlc_prev, 48);
    assert_eq!(trace[leaf].key_rlc_mult_prev, 1);
    // The leaf's key RLC resumes from the snapshot: first the residual
    // nibble 52 - 48 = 4, then the remaining key bytes.
    let first = fadd(48, fmul(4, 1));
    let expected = fold_window(&rows[leaf].bytes, 3, 31, first, 2, 2).0;
    assert_eq!(trace[leaf].key_rlc, expected);
    // Skipping the placeholder level and folding from the level above it
    // gives the same value.
    let skipped = fold_window(&rows[leaf].bytes, 3, 31, fadd(48, fmul(4, 1)), 2, 2).0;
    assert_eq!(trace[leaf].key_rlc, skipped);
    // The leaf-key assertions accept the resumed key RLC.
    let chip = LeafKeyChip::construct(LeafKeyChip::configure(2, true));
    let fixed = cfg.load_fixed_table();
    let acc = fold_window(&rows[leaf].bytes, 0, 36, 0, 1, 2).0;
    let inp = LeafKeyInput {
        flag1: 0,
        flag2: 1,
        acc,
        acc_mult: trace[leaf].acc_mult_s,
        key_rlc: trace[leaf].key_rlc,
        key_rlc_prev_col: trace[leaf].key_rlc_prev,
        key_rlc_mult_prev_col: trace[leaf].key_rlc_mult_prev,
        is_leaf_in_first_level: false,
        is_first_storage_level: false,
        key_rlc_start: trace[18].key_rlc,
        key_mult_start: trace[18].key_rlc_mult,
        sel1: 0,
        sel2: 1,
        is_branch_placeholder: true,
        sel1_above: 1,
        sel2_above: 0,
        prev_branch_key_rlc: 48,
        prev_branch_key_mult: 1,
    };
    assert!(chip.check(&rows[leaf], &inp, &fixed));
}

fn account_leaf_key_row() -> MptWitnessRow {
    // Account leaf key: list prefix 248, stream length 102, key length 29:
    // the terminator 32 and 28 key bytes.
    let mut f = vec![0u8; 68];
    f[0] = 248;
    f[1] = 102;
    f[2] = 157;
    f[3] = 32;
    for i in 0..28 {
        f[4 + i] = (i as u8) + 50;
    }
    make_row(&f, 0, 6)
}

fn account_nonce_balance_row() -> MptWitnessRow {
    let mut f = vec![0u8; 68];
    f[0] = 184;
    f[1] = 70;
    f[2] = 128;
    f[34] = 248;
    f[35] = 68;
    f[36] = 128;
    make_row(&f, 0, 7)
}

fn account_codehash_row() -> MptWitnessRow {
    let mut f = vec![0u8; 68];
    f[1] = 160;
    f[35] = 160;
    for i in 0..32 {
        f[2 + i] = (i as u8) + 60;
        f[36 + i] = (i as u8) + 100;
    }
    make_row(&f, 0, 9)
}

#[test]
fn test_assign_account_leaf_block() {
    let cfg = MPTConfig::configure(2);
    let rows = vec![
        account_leaf_key_row(),
        account_nonce_balance_row(),
        account_codehash_row(),
    ];
    let trace = cfg.assign(&rows);
    // The address RLC folds the residual key bytes (even residual: the
    // terminator byte carries no nibble).
    assert_eq!(trace[0].key_rlc, fold_window(&rows[0].bytes, 4, 28, 0, 1, 2).0);
    // The leaf-encoding accumulator covers prefix, lengths and key.
    let (key_acc, key_mult) = fold_window(&rows[0].bytes, 0, 32, 0, 1, 2);
    assert_eq!(trace[0].acc_s, key_acc);
    assert_eq!(trace[0].acc_mult_s, key_mult);
    // The nonce and balance rows extend it; both values are short here.
    assert_eq!(trace[1].s_mod_node_rlc, 128);
    assert_eq!(trace[1].c_mod_node_rlc, 128);
    // The storage-codehash row captures both digests and closes the leaf.
    assert_eq!(trace[2].s_mod_node_rlc, fold_window(&rows[2].bytes, 2, 32, 0, 1, 2).0);
    assert_eq!(trace[2].c_mod_node_rlc, fold_window(&rows[2].bytes, 36, 32, 0, 1, 2).0);
    let (a1, m1) = fold_window(&rows[2].bytes, 1, 33, trace[1].acc_s, trace[1].acc_mult_s, 2);
    assert_eq!(trace[2].acc_s, fold_window(&rows[2].bytes, 35, 33, a1, m1, 2).0);
}

#[test]
fn test_nonce_balance_checker_accepts_assignment() {
    let cfg = MPTConfig::configure(2);
    let rows = vec![account_leaf_key_row(), account_nonce_balance_row()];
    let trace = cfg.assign(&rows);
    let fixed = cfg.load_fixed_table();
    let chip = AccountLeafNonceBalanceChip::construct(AccountLeafNonceBalanceChip::configure(
        2, true,
    ));
    let inp = NonceBalanceInput {
        acc_prev: trace[0].acc_s,
        acc_mult_prev: trace[0].acc_mult_s,
        key_row_rlp2: 102,
        key_row_len_byte: 157,
        is_nonce_long: 0,
        is_balance_long: 0,
        is_wrong_leaf: 0,
        is_non_existing_account_proof: false,
        nonce_stored: trace[1].s_mod_node_rlc,
        balance_stored: trace[1].c_mod_node_rlc,
        acc_mult_after_nonce: trace[1].acc_mult_c,
        mult_diff_nonce: trace[1].mult_diff,
        mult_diff_balance: trace[1].mult_diff2,
        acc: trace[1].acc_s,
        acc_mult_final: trace[1].acc_mult_s,
        nonce_s_from_prev: 0,
        nonce_s_from_cur: 0,
        balance_s_from_prev: 0,
        balance_s_from_cur: 0,
        is_storage_mod: false,
        is_nonce_mod: true,
        is_balance_mod: false,
        is_account_delete_mod: false,
    };
    assert!(chip.check(&rows[1], &inp, &fixed));
}

#[test]
fn test_assign_storage_leaf_value() {
    let cfg = MPTConfig::configure(2);
    let mut key = vec![0u8; 68];
    key[0] = 225;
    key[1] = 160;
    key[2] = 32;
    for i in 3..34 {
        key[i] = i as u8;
    }
    let mut value = vec![0u8; 68];
    value[0] = 65;
    let rows = vec![make_row(&key, 1, 2), make_row(&value, 1, 13)];
    let trace = cfg.assign(&rows);
    // A one-byte value is short: flags (0, 1), and the leaf accumulator
    // continues over it.
    assert_eq!(trace[1].s_mod_node_rlc, 0);
    assert_eq!(trace[1].c_mod_node_rlc, 1);
    let expected = fold_window(&rows[1].bytes, 0, 1, trace[0].acc_s, trace[0].acc_mult_s, 2).0;
    assert_eq!(trace[1].acc_s, expected);
}

#[test]
fn test_assign_resets_at_proof_boundary() {
    let cfg = MPTConfig::configure(2);
    // Two chained proofs: the second starts a fresh key RLC.
    let mut rows = branch_rows(5, false, true, 0);
    rows.extend(branch_rows(9, false, false, 1));
    rows.extend(branch_rows(2, false, true, 0));
    let trace = cfg.assign(&rows);
    assert_eq!(trace[1].key_rlc, 80);
    assert_eq!(trace[18].key_rlc, fadd(80, fmul(9, 1)));
    // After the boundary the accumulator state was re-created.
    assert_eq!(trace[35].key_rlc, 32);
    assert_eq!(trace[35].key_rlc_mult, 1);
}
