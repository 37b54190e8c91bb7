//! The per-node-kind assertion checkers on concrete rows: acceptance of
//! well-formed data and rejection of tampered data.

use mpt_circuit::account_leaf_nonce_balance::{AccountLeafNonceBalanceChip, NonceBalanceInput};
use mpt_circuit::account_non_existing::{AccountNonExistingConfig, NonExistingInput};
use mpt_circuit::extension_node::{ExtensionNodeChip, ExtensionNodeConfig};
use mpt_circuit::field::{fadd, fmul, fpow};
use mpt_circuit::helpers::{get_bool_constraint, get_is_extension_node, get_is_extension_node_one_nibble};
use mpt_circuit::leaf_key::{LeafKeyChip, LeafKeyInput};
use mpt_circuit::mpt::{fixed_table_contains, AssignedRow, KeccakTable, LeafShape, MPTConfig, ProofValues};
use mpt_circuit::rlc::fold_window;
use mpt_circuit::storage_root_in_account_leaf::{empty_trie_hash, StorageRootChip};
use mpt_circuit::witness_row::{row_type_from_byte, MptWitnessRow, MptWitnessRowType};

fn make_row(front: &[u8], nfl: u8, typ: u8) -> MptWitnessRow {
    let mut b = vec![0u8; 76];
    for (i, x) in front.iter().enumerate() {
        b[i] = *x;
    }
    b[74] = nfl;
    b[75] = typ;
    MptWitnessRow::new(b)
}

fn short_leaf_key_row() -> MptWitnessRow {
    // A storage leaf with a 32-byte key string: terminator 32, then 31 key
    // bytes.
    let mut f = vec![0u8; 68];
    f[0] = 225;
    f[1] = 160;
    f[2] = 32;
    for i in 3..34 {
        f[i] = i as u8;
    }
    make_row(&f, 1, 2)
}

fn base_leaf_input(row: &MptWitnessRow, key_rlc_start: u64) -> LeafKeyInput {
    let acc = fold_window(&row.bytes, 0, 36, 0, 1, 2).0;
    let key_rlc = fold_window(&row.bytes, 3, 32, key_rlc_start, 1, 2).0;
    LeafKeyInput {
        flag1: 0,
        flag2: 1,
        acc,
        acc_mult: fpow(2, 34),
        key_rlc,
        key_rlc_prev_col: 11,
        key_rlc_mult_prev_col: 1,
        is_leaf_in_first_level: false,
        is_first_storage_level: false,
        key_rlc_start,
        key_mult_start: 1,
        sel1: 0,
        sel2: 1,
        is_branch_placeholder: false,
        sel1_above: 0,
        sel2_above: 1,
        prev_branch_key_rlc: 11,
        prev_branch_key_mult: 1,
    }
}

#[test]
fn test_leaf_key_short_accepted() {
    let cfg = MPTConfig::configure(2);
    let fixed = cfg.load_fixed_table();
    let chip = LeafKeyChip::construct(LeafKeyChip::configure(2, true));
    let row = short_leaf_key_row();
    let inp = base_leaf_input(&row, 80);
    assert!(chip.check(&row, &inp, &fixed));
}

#[test]
fn test_leaf_key_tampered_key_byte_rejected() {
    let cfg = MPTConfig::configure(2);
    let fixed = cfg.load_fixed_table();
    let chip = LeafKeyChip::construct(LeafKeyChip::configure(2, true));
    let row = short_leaf_key_row();
    let inp = base_leaf_input(&row, 80);
    // Flip one key byte of the row after the claimed values were derived.
    let mut bytes = row.bytes.clone();
    bytes[10] ^= 1;
    let tampered = MptWitnessRow::new(bytes);
    assert!(!chip.check(&tampered, &inp, &fixed));
}

#[test]
fn test_leaf_key_bad_multiplier_rejected() {
    let cfg = MPTConfig::configure(2);
    let fixed = cfg.load_fixed_table();
    let chip = LeafKeyChip::construct(LeafKeyChip::configure(2, true));
    let row = short_leaf_key_row();
    let mut inp = base_leaf_input(&row, 80);
    // The claimed multiplier must be exactly 2^(key length + 2).
    inp.acc_mult = fpow(2, 33);
    assert!(!chip.check(&row, &inp, &fixed));
}

#[test]
fn test_leaf_key_last_level() {
    let cfg = MPTConfig::configure(2);
    let fixed = cfg.load_fixed_table();
    let chip = LeafKeyChip::construct(LeafKeyChip::configure(2, true));
    let row = make_row(&[194, 32], 1, 2);
    let mut inp = base_leaf_input(&row, 80);
    inp.flag1 = 1;
    inp.flag2 = 1;
    inp.acc = 194 + 32 * 2;
    // In the last level the key RLC is already complete.
    inp.key_rlc = 80;
    assert!(chip.check(&row, &inp, &fixed));
    inp.key_rlc = 81;
    assert!(!chip.check(&row, &inp, &fixed));
}

#[test]
fn test_leaf_key_in_first_level() {
    let cfg = MPTConfig::configure(2);
    let fixed = cfg.load_fixed_table();
    let chip = LeafKeyChip::construct(LeafKeyChip::configure(2, true));
    let row = short_leaf_key_row();
    let mut inp = base_leaf_input(&row, 0);
    inp.is_leaf_in_first_level = true;
    inp.key_rlc = fold_window(&row.bytes, 3, 32, 0, 1, 2).0;
    assert!(chip.check(&row, &inp, &fixed));
}

fn one_nibble_extension_rows() -> (MptWitnessRow, MptWitnessRow) {
    // Branch init row: one-nibble extension with weight-16 branch selector.
    let mut init = vec![0u8; 68];
    init[19] = 1;
    init[21] = 1;
    let init_row = make_row(&init, 1, 0);
    // Extension row: [226, 16+nibble, 0 ..., | 0, 160, branch hash].
    let mut s = vec![0u8; 68];
    s[0] = 226;
    s[1] = 19;
    s[35] = 160;
    for i in 0..32 {
        s[36 + i] = (i as u8) + 1;
    }
    (init_row, make_row(&s, 1, 16))
}

#[test]
fn test_extension_node_selectors_and_rlc() {
    let (init_row, s_row) = one_nibble_extension_rows();
    let cfg = ExtensionNodeConfig::configure(2, true);
    assert!(cfg.check_selectors_rlp(&init_row, &s_row, &s_row, 27, 29));
    let acc_s = 226 + 19 * 2;
    let acc_mult_s = 4;
    let acc_c = fold_window(&s_row.bytes, 35, 33, acc_s, acc_mult_s, 2).0;
    assert!(cfg.check_rlc(&s_row, &s_row, acc_s, acc_mult_s, acc_c));
    // A wrong extension RLC is rejected.
    assert!(!cfg.check_rlc(&s_row, &s_row, acc_s + 1, acc_mult_s, acc_c));
}

#[test]
fn test_extension_node_assign_matches_checker() {
    let (_init_row, s_row) = one_nibble_extension_rows();
    let mpt = MPTConfig::configure(2);
    let cfg = ExtensionNodeConfig::configure(2, true);
    let mut pv = ProofValues::new();
    pv.is_extension_node = true;
    let mut assigned = AssignedRow::new();
    cfg.assign(&mpt, &mut pv, &s_row, &mut assigned, true);
    assert_eq!(assigned.acc_s, 226 + 19 * 2);
    assert_eq!(assigned.acc_mult_s, 4);
    // The derived values satisfy the RLC assertions.
    assert!(cfg.check_rlc(&s_row, &s_row, assigned.acc_s, assigned.acc_mult_s, assigned.acc_c));
}

#[test]
fn test_extension_node_branch_hash_lookup() {
    let (_init_row, s_row) = one_nibble_extension_rows();
    let cfg = ExtensionNodeConfig::configure(2, true);
    let branch_acc = 100u64;
    let branch_mult = 8u64;
    let full_branch = fadd(branch_acc, fmul(128, branch_mult));
    let carried = fold_window(&s_row.bytes, 36, 32, 0, 1, 2).0;
    let mut keccak = KeccakTable::new();
    keccak.push(full_branch, carried);
    assert!(cfg.check_branch_hash_in_ext(&s_row, branch_acc, branch_mult, &keccak));
    // Without the relation entry the branch does not hash into the row.
    let empty = KeccakTable::new();
    assert!(!cfg.check_branch_hash_in_ext(&s_row, branch_acc, branch_mult, &empty));
}

#[test]
fn test_extension_node_parent_and_nibbles() {
    let (init_row, s_row) = one_nibble_extension_rows();
    let cfg = ExtensionNodeConfig::configure(2, true);
    let mut keccak = KeccakTable::new();
    keccak.push(777, 999);
    // First level: the extension must hash to the supplied root.
    assert!(cfg.check_parent(false, false, false, false, 777, 999, 0, 0, &keccak));
    assert!(!cfg.check_parent(false, false, false, false, 777, 998, 0, 0, &keccak));
    // Below the first level, to the parent's stored digest.
    assert!(cfg.check_parent(true, false, false, false, 777, 0, 0, 999, &keccak));
    // A placeholder branch suppresses the check.
    assert!(cfg.check_parent(true, false, true, false, 777, 0, 0, 123, &keccak));
    // One nibble plus the branch's own position: the counter grows by two.
    assert!(cfg.check_nibbles_count(&init_row, &s_row, 27, true, false, 2, 0));
    assert!(!cfg.check_nibbles_count(&init_row, &s_row, 27, true, false, 3, 0));
}

#[test]
fn test_extension_node_chip_construct() {
    let cfg = ExtensionNodeConfig::configure(2, false);
    let chip = ExtensionNodeChip::construct(cfg);
    assert_eq!(chip.config().acc_r, 2);
    assert!(!chip.config().is_s);
}

fn nonce_balance_row() -> MptWitnessRow {
    // Short nonce (128 = zero) and short balance (128 = zero).
    let mut f = vec![0u8; 68];
    f[0] = 184;
    f[1] = 70;
    f[2] = 128;
    f[34] = 248;
    f[35] = 68;
    f[36] = 128;
    make_row(&f, 1, 7)
}

fn nonce_balance_input() -> NonceBalanceInput {
    let acc_prev = 500u64;
    let acc_mult_prev = 4u64;
    let m5 = acc_mult_prev * 32;
    let expr = fadd(
        fadd(
            fadd(
                fadd(
                    fadd(fadd(acc_prev, 184 * acc_mult_prev), 70 * acc_mult_prev * 2),
                    248 * acc_mult_prev * 4,
                ),
                68 * acc_mult_prev * 8,
            ),
            128 * acc_mult_prev * 16,
        ),
        128 * m5,
    );
    NonceBalanceInput {
        acc_prev,
        acc_mult_prev,
        key_row_rlp2: 102,
        key_row_len_byte: 157,
        is_nonce_long: 0,
        is_balance_long: 0,
        is_wrong_leaf: 0,
        is_non_existing_account_proof: false,
        nonce_stored: 128,
        balance_stored: 128,
        acc_mult_after_nonce: m5,
        mult_diff_nonce: 2,
        mult_diff_balance: 2,
        acc: expr,
        acc_mult_final: m5 * 2,
        nonce_s_from_prev: 0,
        nonce_s_from_cur: 0,
        balance_s_from_prev: 0,
        balance_s_from_cur: 0,
        is_storage_mod: false,
        is_nonce_mod: true,
        is_balance_mod: false,
        is_account_delete_mod: false,
    }
}

#[test]
fn test_nonce_balance_short_accepted() {
    let cfg = MPTConfig::configure(2);
    let fixed = cfg.load_fixed_table();
    let chip = AccountLeafNonceBalanceChip::construct(AccountLeafNonceBalanceChip::configure(
        2, true,
    ));
    let row = nonce_balance_row();
    let inp = nonce_balance_input();
    assert!(chip.check(&row, &inp, &fixed));
}

#[test]
fn test_nonce_balance_rlp_length_rejected() {
    let cfg = MPTConfig::configure(2);
    let fixed = cfg.load_fixed_table();
    let chip = AccountLeafNonceBalanceChip::construct(AccountLeafNonceBalanceChip::configure(
        2, true,
    ));
    // Break the inner list length equation: 69 != 1 + 1 + 66.
    let mut f = nonce_balance_row().bytes.clone();
    f[35] = 69;
    let row = MptWitnessRow::new(f);
    let inp = nonce_balance_input();
    assert!(!chip.check(&row, &inp, &fixed));
}

#[test]
fn test_nonce_balance_after_side_equality() {
    let cfg = MPTConfig::configure(2);
    let fixed = cfg.load_fixed_table();
    let chip = AccountLeafNonceBalanceChip::construct(AccountLeafNonceBalanceChip::configure(
        2, false,
    ));
    let row = nonce_balance_row();
    let mut inp = nonce_balance_input();
    // A balance modification must keep the nonce equal across sides.
    inp.is_balance_mod = true;
    inp.is_nonce_mod = false;
    inp.nonce_s_from_prev = 128;
    inp.nonce_s_from_cur = 128;
    inp.balance_s_from_prev = 77;
    inp.balance_s_from_cur = 77;
    assert!(chip.check(&row, &inp, &fixed));
    // A changed nonce under a balance modification is rejected.
    inp.nonce_s_from_prev = 129;
    inp.nonce_s_from_cur = 129;
    assert!(!chip.check(&row, &inp, &fixed));
}

#[test]
fn test_storage_root_placeholder_leaf_needs_empty_trie() {
    let chip = StorageRootChip::construct(StorageRootChip::configure(2, true));
    let empty = empty_trie_hash();
    let mut f = vec![0u8; 68];
    f[1] = 160;
    for i in 0..32 {
        f[2 + i] = empty[i];
    }
    let row = make_row(&f, 1, 9);
    let keccak = KeccakTable::new();
    assert!(chip.check_leaf(&row, 0, true, &keccak));
    // Any other stored root is rejected for a placeholder leaf.
    let mut g = row.bytes.clone();
    g[2] ^= 1;
    let bad = MptWitnessRow::new(g);
    assert!(!chip.check_leaf(&bad, 0, true, &keccak));
}

#[test]
fn test_storage_root_lookups() {
    let chip = StorageRootChip::construct(StorageRootChip::configure(2, true));
    let mut f = vec![0u8; 68];
    f[1] = 160;
    for i in 0..32 {
        f[2 + i] = (i as u8) + 3;
    }
    let row = make_row(&f, 1, 9);
    let root_rlc = chip.storage_root_rlc(&row);
    let mut keccak = KeccakTable::new();
    // A lone leaf in the first storage level hashes to the storage root.
    keccak.push(77, root_rlc);
    assert!(chip.check_leaf(&row, 77, false, &keccak));
    assert!(!chip.check_leaf(&row, 78, false, &keccak));
    // A first-storage-level branch (with the trailing nil byte folded in).
    let full = fadd(10, fmul(128, 4));
    keccak.push(full, root_rlc);
    assert!(chip.check_branch(&row, 10, 4, false, &keccak));
    assert!(!chip.check_branch(&row, 11, 4, false, &keccak));
    // Placeholder branches are skipped.
    assert!(chip.check_branch(&row, 11, 4, true, &keccak));
    // An extension node in the first storage level.
    keccak.push(55, root_rlc);
    assert!(chip.check_extension(&row, 55, false, &keccak));
    assert!(!chip.check_extension(&row, 56, false, &keccak));
}

fn non_existing_rows(same_suffix: bool) -> (MptWitnessRow, MptWitnessRow) {
    // Account-leaf key row: key length 5, residual [32, 10, 20, 30, 40].
    let mut p = vec![0u8; 68];
    p[0] = 248;
    p[2] = 133;
    p[3] = 32;
    p[4] = 10;
    p[5] = 20;
    p[6] = 30;
    p[7] = 40;
    let prev = make_row(&p, 0, 6);
    // Non-existence row: the enquired residual, differing in the last
    // nibble unless asked for the identical one.
    let mut c = vec![0u8; 68];
    c[0] = 1;
    c[2] = 133;
    c[3] = 32;
    c[4] = 10;
    c[5] = 20;
    c[6] = 30;
    c[7] = if same_suffix { 40 } else { 41 };
    (make_row(&c, 0, 18), prev)
}

#[test]
fn test_non_existence_wrong_leaf_accepted() {
    let cfg = AccountNonExistingConfig::configure(2);
    let (cur, prev) = non_existing_rows(false);
    let mut assigned = AssignedRow::new();
    cfg.assign(&cur, &prev, &mut assigned);
    let inp = NonExistingInput {
        not_first_level: false,
        key_rlc_acc_start: 0,
        key_mult_start: 1,
        c16: 0,
        c1: 1,
        address_rlc: fold_window(&cur.bytes, 4, 32, 0, 1, 2).0,
        sum: assigned.key_rlc,
        sum_prev: assigned.key_rlc_mult,
        diff_inv: assigned.acc_s,
        is_nil_object: false,
    };
    assert!(cfg.check(&cur, &prev, &inp));
}

#[test]
fn test_non_existence_same_address_rejected() {
    let cfg = AccountNonExistingConfig::configure(2);
    let (cur, prev) = non_existing_rows(true);
    let mut assigned = AssignedRow::new();
    cfg.assign(&cur, &prev, &mut assigned);
    // The residuals coincide, so no inverse witness can be derived.
    assert_eq!(assigned.acc_s, 0);
    let mut inp = NonExistingInput {
        not_first_level: false,
        key_rlc_acc_start: 0,
        key_mult_start: 1,
        c16: 0,
        c1: 1,
        address_rlc: fold_window(&cur.bytes, 4, 32, 0, 1, 2).0,
        sum: assigned.key_rlc,
        sum_prev: assigned.key_rlc_mult,
        diff_inv: assigned.acc_s,
        is_nil_object: false,
    };
    assert!(!cfg.check(&cur, &prev, &inp));
    // And no fabricated inverse helps either.
    for w in [1u64, 2, 12345, 0xffff_ffff] {
        inp.diff_inv = w;
        assert!(!cfg.check(&cur, &prev, &inp));
    }
}

#[test]
fn test_non_existence_wrong_length_rejected() {
    let cfg = AccountNonExistingConfig::configure(2);
    let (cur, prev) = non_existing_rows(false);
    let mut assigned = AssignedRow::new();
    cfg.assign(&cur, &prev, &mut assigned);
    // An enquiry claiming a different residual length is rejected.
    let mut c = cur.bytes.clone();
    c[2] = 134;
    let bad = MptWitnessRow::new(c);
    let inp = NonExistingInput {
        not_first_level: false,
        key_rlc_acc_start: 0,
        key_mult_start: 1,
        c16: 0,
        c1: 1,
        address_rlc: fold_window(&bad.bytes, 4, 32, 0, 1, 2).0,
        sum: fold_window(&bad.bytes, 3, 33, 0, 2, 2).0,
        sum_prev: assigned.key_rlc_mult,
        diff_inv: assigned.acc_s,
        is_nil_object: false,
    };
    assert!(!cfg.check(&bad, &prev, &inp));
}

#[test]
fn test_non_existence_nil_marker() {
    let cfg = AccountNonExistingConfig::configure(2);
    let (cur, prev) = non_existing_rows(false);
    // No wrong leaf: the parent branch must hold a nil marker.
    let mut c = cur.bytes.clone();
    c[0] = 0;
    let nil_case = MptWitnessRow::new(c);
    let mut inp = NonExistingInput {
        not_first_level: true,
        key_rlc_acc_start: 0,
        key_mult_start: 1,
        c16: 0,
        c1: 1,
        address_rlc: 0,
        sum: 0,
        sum_prev: 0,
        diff_inv: 0,
        is_nil_object: true,
    };
    assert!(cfg.check(&nil_case, &prev, &inp));
    inp.is_nil_object = false;
    assert!(!cfg.check(&nil_case, &prev, &inp));
}

#[test]
fn test_helpers_extension_selectors() {
    let mut f = vec![0u8; 68];
    f[21] = 1;
    let one_nibble = make_row(&f, 1, 0);
    assert!(get_is_extension_node(&one_nibble));
    assert!(get_is_extension_node_one_nibble(&one_nibble));
    let mut g = vec![0u8; 68];
    g[23] = 1;
    let long_even = make_row(&g, 1, 0);
    assert!(get_is_extension_node(&long_even));
    assert!(!get_is_extension_node_one_nibble(&long_even));
    let plain = make_row(&vec![0u8; 68], 1, 0);
    assert!(!get_is_extension_node(&plain));
}

#[test]
fn test_compute_rlc_and_assign() {
    let cfg = MPTConfig::configure(2);
    let mut f = vec![0u8; 68];
    for i in 0..32 {
        f[2 + i] = (i as u8) + 1;
        f[36 + i] = (i as u8) + 2;
    }
    let row = make_row(&f, 1, 1);
    let mut pv = ProofValues::new();
    let mut assigned = AssignedRow::new();
    cfg.compute_rlc_and_assign(&mut assigned, &row, &mut pv, 2, 36, 32, 32);
    assert_eq!(assigned.s_mod_node_rlc, fold_window(&row.bytes, 2, 32, 0, 1, 2).0);
    assert_eq!(assigned.c_mod_node_rlc, fold_window(&row.bytes, 36, 32, 0, 1, 2).0);
}

#[test]
fn test_assign_acc_and_long_short() {
    let cfg = MPTConfig::configure(2);
    let mut assigned = AssignedRow::new();
    cfg.assign_acc(&mut assigned, 10, 20, 30, 40);
    assert_eq!(assigned.acc_s, 10);
    assert_eq!(assigned.acc_mult_s, 20);
    assert_eq!(assigned.acc_c, 30);
    assert_eq!(assigned.acc_mult_c, 40);
    cfg.assign_long_short(&mut assigned, LeafShape::LastLevel);
    assert_eq!(assigned.s_mod_node_rlc, 1);
    assert_eq!(assigned.c_mod_node_rlc, 1);
    cfg.assign_long_short(&mut assigned, LeafShape::Long);
    assert_eq!(assigned.s_mod_node_rlc, 1);
    assert_eq!(assigned.c_mod_node_rlc, 0);
    cfg.assign_long_short(&mut assigned, LeafShape::OneNibble);
    assert_eq!(assigned.s_mod_node_rlc, 0);
    assert_eq!(assigned.c_mod_node_rlc, 0);
}

#[test]
fn test_row_classifier() {
    assert_eq!(row_type_from_byte(0), Some(MptWitnessRowType::InitBranch));
    assert_eq!(row_type_from_byte(1), Some(MptWitnessRowType::BranchChild));
    assert_eq!(row_type_from_byte(5), Some(MptWitnessRowType::HashToBeComputed));
    assert_eq!(row_type_from_byte(16), Some(MptWitnessRowType::ExtensionNodeS));
    assert_eq!(row_type_from_byte(18), Some(MptWitnessRowType::AccountNonExisting));
    assert_eq!(row_type_from_byte(12), None);
    assert_eq!(row_type_from_byte(19), None);
    let row = make_row(&[7, 8, 9], 1, 2);
    assert_eq!(row.get_type(), MptWitnessRowType::StorageLeafSKey);
    assert_eq!(row.not_first_level(), 1);
    assert_eq!(row.get_byte(0), 7);
    assert_eq!(row.get_byte_rev(1), 2);
    assert_eq!(row.len(), 76);
}

#[test]
fn test_bool_constraint() {
    assert!(get_bool_constraint(0));
    assert!(get_bool_constraint(1));
    assert!(!get_bool_constraint(2));
}

#[test]
fn test_extension_node_long_even_shape() {
    // A two-byte (even) key segment: [228, 130, 0, 149, ...] with a hashed
    // branch.
    let mut init = vec![0u8; 68];
    init[19] = 1;
    init[23] = 1;
    let init_row = make_row(&init, 1, 0);
    let mut s = vec![0u8; 68];
    s[0] = 228;
    s[1] = 130;
    s[2] = 0;
    s[3] = 149;
    s[35] = 160;
    for i in 0..32 {
        s[36 + i] = (i as u8) + 9;
    }
    let s_row = make_row(&s, 1, 16);
    let cfg = ExtensionNodeConfig::configure(2, true);
    assert!(cfg.check_selectors_rlp(&init_row, &s_row, &s_row, 27, 29));
    // Two compressed nibbles plus the branch position.
    assert!(cfg.check_nibbles_count(&init_row, &s_row, 27, true, false, 3, 0));
    assert!(!cfg.check_nibbles_count(&init_row, &s_row, 27, true, false, 2, 0));
    // A nonzero third byte contradicts the even shape.
    let mut bad = s.clone();
    bad[2] = 16;
    let bad_row = make_row(&bad, 1, 16);
    assert!(!cfg.check_selectors_rlp(&init_row, &bad_row, &bad_row, 27, 29));
}

#[test]
fn test_extension_node_longer_than_55_shape() {
    // A long odd segment in an encoding over 55 bytes: the first byte is
    // 248 and the second carries the remaining stream length.
    let mut init = vec![0u8; 68];
    init[19] = 1;
    init[25] = 1;
    init[27] = 1;
    let init_row = make_row(&init, 1, 0);
    let mut s = vec![0u8; 68];
    s[0] = 248;
    s[1] = 56;
    s[2] = 150;
    s[35] = 160;
    for i in 0..32 {
        s[36 + i] = (i as u8) + 4;
    }
    let s_row = make_row(&s, 1, 16);
    let cfg = ExtensionNodeConfig::configure(2, true);
    assert!(cfg.check_selectors_rlp(&init_row, &s_row, &s_row, 27, 29));
    // (150 - 128) * 2 - 1 segment nibbles plus the branch position.
    assert!(cfg.check_nibbles_count(&init_row, &s_row, 27, true, false, 44, 0));
    // At a first level the previous count is forced to zero, whatever the
    // carried value claims.
    assert!(cfg.check_nibbles_count(&init_row, &s_row, 27, false, false, 44, 17));
    assert!(cfg.check_nibbles_count(&init_row, &s_row, 27, true, true, 44, 17));
    assert!(!cfg.check_nibbles_count(&init_row, &s_row, 27, true, false, 44, 17));
    // A wrong stream length is rejected.
    let mut bad = s.clone();
    bad[1] = 57;
    let bad_row = make_row(&bad, 1, 16);
    assert!(!cfg.check_selectors_rlp(&init_row, &bad_row, &bad_row, 27, 29));
}

#[test]
fn test_extension_node_two_shapes_at_once_rejected() {
    // The six shape selectors are mutually exclusive.
    let mut init = vec![0u8; 68];
    init[19] = 1;
    init[21] = 1;
    init[23] = 1;
    let init_row = make_row(&init, 1, 0);
    let (_unused, s_row) = one_nibble_extension_rows();
    let cfg = ExtensionNodeConfig::configure(2, true);
    assert!(!cfg.check_selectors_rlp(&init_row, &s_row, &s_row, 27, 29));
}

#[test]
fn test_extension_node_non_hashed_branch() {
    // A branch shorter than 32 bytes stands in the extension row verbatim:
    // the hash-length byte is 0 and the branch bytes follow.
    let mut s = vec![0u8; 68];
    s[0] = 226;
    s[1] = 19;
    for i in 0..26 {
        s[36 + i] = (i as u8) + 1;
    }
    let s_row = make_row(&s, 1, 16);
    let cfg = ExtensionNodeConfig::configure(2, true);
    let acc_s = 226 + 19 * 2;
    let acc_mult_s = 4;
    let acc_c = fold_window(&s_row.bytes, 36, 32, acc_s, acc_mult_s, 2).0;
    assert!(cfg.check_rlc(&s_row, &s_row, acc_s, acc_mult_s, acc_c));
    // The branch accumulator must equal the carried bytes directly, with
    // no hash relation involved.
    let carried = fold_window(&s_row.bytes, 36, 32, 0, 1, 2).0;
    let keccak = KeccakTable::new();
    assert!(cfg.check_branch_hash_in_ext(&s_row, carried, 0, &keccak));
    assert!(!cfg.check_branch_hash_in_ext(&s_row, carried ^ 1, 0, &keccak));
}

#[test]
fn test_driver_leaf_multiplier_in_fixed_table() {
    // The multiplier the assignment pass carries after a leaf key window
    // is answered by the multiplier-power lookup of the fixed table.
    let cfg = MPTConfig::configure(2);
    let fixed = cfg.load_fixed_table();
    let rows = vec![short_leaf_key_row()];
    let trace = cfg.assign(&rows);
    assert_eq!(trace[0].acc_mult_s, fpow(2, 34));
    assert!(fixed_table_contains(&fixed, 0, 34, trace[0].acc_mult_s));
}
