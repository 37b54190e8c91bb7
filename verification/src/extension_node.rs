//! The extension-node component: verifies a compressed key-segment node
//! layered above a branch.
//!
//! An extension node row holds the RLP prefix bytes and key-segment bytes in
//! its before-side half and, in its after-side half, either the 32-byte hash
//! of the underlying branch (preceded by the length byte 160) or, when the
//! branch encoding is shorter than 32 bytes, the branch bytes themselves.
//! The checks cover: the node-encoding RLC, the six mutually exclusive shape
//! selectors and the RLP length equations of each shape, the two
//! hash-relation checks (the branch inside the extension, and the extension
//! inside its parent), and the nibble-count bookkeeping.

use vstd::prelude::*;

verus! {

use crate::field::{fadd_spec, fmul_spec, is_felt};
use crate::mpt::{AssignedRow, KeccakTable, MPTConfig, ProofValues};
use crate::param::{
    C_RLP_START,
    C_START,
    HASH_WIDTH,
    IS_BRANCH_C16_POS,
    IS_BRANCH_C1_POS,
    IS_EXT_LONG_EVEN_C16_POS,
    IS_EXT_LONG_EVEN_C1_POS,
    IS_EXT_LONG_ODD_C16_POS,
    IS_EXT_LONG_ODD_C1_POS,
    IS_EXT_SHORT_C16_POS,
    IS_EXT_SHORT_C1_POS,
};
use crate::rlc::{bytes_rlc_spec, fold_window, rlc_acc_spec, rlc_mult_spec};
use crate::witness_row::MptWitnessRow;

/// Whether the branch below the extension node is hashed: its after-side
/// half then starts with the hash-length byte 160 at `C_RLP_START + 1`,
/// and with 0 otherwise.
pub open spec fn spec_branch_in_ext_hashed(c: Seq<u8>) -> bool {
    c[C_RLP_START + 1] != 0
}

/// The node-encoding RLC assertions of one extension node.
///
/// `s` is the before-side row (shared by both extension rows), `c` the row
/// being checked; `acc_s` must fold the 34 before-side bytes (the bytes
/// past the key segment are zero), and `acc_c` must extend it over the
/// branch-hash part, whose multiplier `acc_mult_s` accounts for the true
/// key-segment length.
pub open spec fn ext_rlc_ok(
    s: Seq<u8>,
    c: Seq<u8>,
    acc_s: u64,
    acc_mult_s: u64,
    acc_c: u64,
    r: int,
) -> bool {
    &&& acc_s == rlc_acc_spec(s.subrange(0, 34), 0, 1, r)
    &&& spec_branch_in_ext_hashed(c) ==> c[C_RLP_START + 1] == 160
    &&& spec_branch_in_ext_hashed(c) ==> acc_c == rlc_acc_spec(
        c.subrange(C_RLP_START + 1, 68),
        acc_s as int,
        acc_mult_s as int,
        r,
    )
    &&& !spec_branch_in_ext_hashed(c) ==> acc_c == rlc_acc_spec(
        c.subrange(C_START as int, 68),
        acc_s as int,
        acc_mult_s as int,
        r,
    )
}

/// The shape-selector and RLP-length assertions of one extension node.
///
/// `init` is the branch init row of the branch this extension belongs to;
/// `s` and `c` as in `ext_rlc_ok`. The before-side length equations are
/// checked once, on the before-side row.
pub open spec fn ext_selectors_rlp_ok(
    init: Seq<u8>,
    s: Seq<u8>,
    c: Seq<u8>,
    longer55_pos: int,
    non_hashed_pos: int,
    is_s: bool,
) -> bool {
    let short_c16 = init[IS_EXT_SHORT_C16_POS as int];
    let short_c1 = init[IS_EXT_SHORT_C1_POS as int];
    let even_c16 = init[IS_EXT_LONG_EVEN_C16_POS as int];
    let even_c1 = init[IS_EXT_LONG_EVEN_C1_POS as int];
    let odd_c16 = init[IS_EXT_LONG_ODD_C16_POS as int];
    let odd_c1 = init[IS_EXT_LONG_ODD_C1_POS as int];
    let longer55 = init[longer55_pos];
    let non_hashed = init[non_hashed_pos];
    let c16 = init[IS_BRANCH_C16_POS as int];
    let c1 = init[IS_BRANCH_C1_POS as int];
    let is_short = short_c16 == 1 || short_c1 == 1;
    let is_even = even_c16 == 1 || even_c1 == 1;
    let is_odd = odd_c16 == 1 || odd_c1 == 1;
    let hashed = spec_branch_in_ext_hashed(c);
    // Each selector is boolean, and at most one of the six is set.
    &&& short_c16 <= 1
    &&& short_c1 <= 1
    &&& even_c16 <= 1
    &&& even_c1 <= 1
    &&& odd_c16 <= 1
    &&& odd_c1 <= 1
    &&& longer55 <= 1
    &&& non_hashed <= 1
    &&& short_c16 + short_c1 + even_c16 + even_c1 + odd_c16 + odd_c1 <= 1
    // The c16/c1 weighting duplicated in the extension selectors matches
    // the branch's own weighting selectors.
    &&& short_c16 == 1 ==> c16 == 1
    &&& short_c1 == 1 ==> c1 == 1
    &&& even_c16 == 1 ==> c16 == 1
    &&& even_c1 == 1 ==> c1 == 1
    &&& odd_c16 == 1 ==> c16 == 1
    &&& odd_c1 == 1 ==> c1 == 1
    // Length equations, checked on the before-side row only (the after-side
    // row shares its before-side bytes).
    &&& (is_s && is_even) ==> s[2] == 0
    &&& (is_s && is_short && hashed) ==> s[0] as int - 192 == 33 + 1
    &&& (is_s && is_short && !hashed) ==> s[0] as int - 192 == 1 + (c[C_START as int] as int - 192)
        + 1
    &&& (is_s && (is_even || is_odd) && hashed && longer55 == 0) ==> s[0] as int - 192 == (
    s[1] as int - 128) + 1 + 33
    &&& (is_s && (is_even || is_odd) && !hashed && longer55 == 0) ==> s[0] as int - 192 == (
    s[1] as int - 128) + 1 + (c[C_START as int] as int - 192) + 1
    &&& (is_s && longer55 == 1) ==> s[0] == 248
    &&& (is_s && longer55 == 1 && hashed) ==> s[1] as int == (s[2] as int - 128) + 1 + 33
    &&& (is_s && longer55 == 1 && !hashed) ==> s[1] as int == (s[2] as int - 128) + 1 + (
    c[C_START as int] as int - 192) + 1
}

/// The branch-inside-extension assertion: the RLC of the whole underlying
/// branch (with the trailing nil value-node byte 128) must either hash to
/// the digest carried in the extension row, or equal the branch bytes
/// carried there verbatim.
pub open spec fn ext_branch_hash_ok(
    c: Seq<u8>,
    branch_acc: u64,
    branch_mult: u64,
    keccak: KeccakTable,
    r: int,
) -> bool {
    let full_branch = fadd_spec(branch_acc as int, fmul_spec(128, branch_mult as int));
    let carried = bytes_rlc_spec(c.subrange(C_START as int, 68), r);
    if spec_branch_in_ext_hashed(c) {
        keccak.spec_contains(full_branch as u64, carried as u64)
    } else {
        full_branch == carried
    }
}

/// The extension-inside-parent assertion: in the first level the extension
/// must hash to the supplied root; below it, to the digest stored at the
/// modified position of the parent branch (or equal it verbatim when the
/// extension is not hashed) — skipped entirely for a placeholder branch.
pub open spec fn ext_parent_ok(
    not_first_level: bool,
    is_account_leaf_above: bool,
    is_branch_placeholder: bool,
    ext_non_hashed: bool,
    acc_c: u64,
    root: u64,
    storage_root_digest: u64,
    mod_node_hash_rlc: u64,
    keccak: KeccakTable,
) -> bool {
    &&& !not_first_level ==> keccak.spec_contains(acc_c, root)
    &&& (not_first_level && is_account_leaf_above && !is_branch_placeholder)
        ==> keccak.spec_contains(acc_c, storage_root_digest)
    &&& (not_first_level && !is_account_leaf_above && !is_branch_placeholder && !ext_non_hashed)
        ==> keccak.spec_contains(acc_c, mod_node_hash_rlc)
    &&& (not_first_level && !is_account_leaf_above && !is_branch_placeholder && ext_non_hashed)
        ==> mod_node_hash_rlc == acc_c
}

/// The nibble-count bookkeeping of one extension node plus its branch: the
/// running counter must grow by the segment's nibble count plus one (the
/// branch's own modified-child nibble). At a first account or first
/// storage level the previous count is forced to zero.
pub open spec fn ext_nibbles_count_ok(
    init: Seq<u8>,
    s: Seq<u8>,
    longer55_pos: int,
    not_first_level: bool,
    is_first_storage_level: bool,
    nibbles_count_cur: int,
    nibbles_count_prev_raw: int,
) -> bool {
    let nibbles_count_prev = if !not_first_level || is_first_storage_level {
        0int
    } else {
        nibbles_count_prev_raw
    };
    let short_c16 = init[IS_EXT_SHORT_C16_POS as int];
    let short_c1 = init[IS_EXT_SHORT_C1_POS as int];
    let even_c16 = init[IS_EXT_LONG_EVEN_C16_POS as int];
    let even_c1 = init[IS_EXT_LONG_EVEN_C1_POS as int];
    let odd_c16 = init[IS_EXT_LONG_ODD_C16_POS as int];
    let odd_c1 = init[IS_EXT_LONG_ODD_C1_POS as int];
    let longer55 = init[longer55_pos];
    let is_short = short_c16 == 1 || short_c1 == 1;
    let is_even = even_c16 == 1 || even_c1 == 1;
    let is_odd = odd_c16 == 1 || odd_c1 == 1;
    &&& is_short ==> nibbles_count_cur == nibbles_count_prev + 2
    &&& (is_even && longer55 == 0) ==> nibbles_count_cur == nibbles_count_prev + (s[1] as int - 128
        - 1) * 2 + 1
    &&& (is_odd && longer55 == 0) ==> nibbles_count_cur == nibbles_count_prev + (s[1] as int - 128)
        * 2 - 1 + 1
    &&& (is_even && longer55 == 1) ==> nibbles_count_cur == nibbles_count_prev + (s[2] as int - 128
        - 1) * 2 + 1
    &&& (is_odd && longer55 == 1) ==> nibbles_count_cur == nibbles_count_prev + (s[2] as int - 128)
        * 2 - 1 + 1
}

/// The extension-node component for one side of the proof.
pub struct ExtensionNodeConfig {
    pub acc_r: u64,
    pub is_s: bool,
}

impl ExtensionNodeConfig {
    pub open spec fn wf(self) -> bool {
        is_felt(self.acc_r)
    }

    pub fn configure(acc_r: u64, is_s: bool) -> (c: ExtensionNodeConfig)
        requires
            is_felt(acc_r),
        ensures
            c.wf(),
            c.acc_r == acc_r,
            c.is_s == is_s,
    {
        ExtensionNodeConfig { acc_r, is_s }
    }

    /// Evaluates the node-encoding RLC assertions on one extension row.
    pub fn check_rlc(
        &self,
        s_row: &MptWitnessRow,
        c_row: &MptWitnessRow,
        acc_s: u64,
        acc_mult_s: u64,
        acc_c: u64,
    ) -> (ok: bool)
        requires
            self.wf(),
            s_row.well_formed(),
            c_row.well_formed(),
            is_felt(acc_s),
            is_felt(acc_mult_s),
        ensures
            ok == ext_rlc_ok(
                s_row.bytes@,
                c_row.bytes@,
                acc_s,
                acc_mult_s,
                acc_c,
                self.acc_r as int,
            ),
    {
        let (folded_s, _m) = fold_window(&s_row.bytes, 0, 34, 0, 1, self.acc_r);
        let c_rlp2 = c_row.get_byte(C_RLP_START + 1);
        let hashed = c_rlp2 != 0;
        let ok_s = acc_s == folded_s;
        let ok_c = if hashed {
            let (folded_c, _m2) = fold_window(
                &c_row.bytes,
                C_RLP_START + 1,
                HASH_WIDTH + 1,
                acc_s,
                acc_mult_s,
                self.acc_r,
            );
            c_rlp2 == 160 && acc_c == folded_c
        } else {
            let (folded_c, _m2) = fold_window(
                &c_row.bytes,
                C_START,
                HASH_WIDTH,
                acc_s,
                acc_mult_s,
                self.acc_r,
            );
            acc_c == folded_c
        };
        ok_s && ok_c
    }

    /// Evaluates the shape-selector and RLP-length assertions.
    pub fn check_selectors_rlp(
        &self,
        init_row: &MptWitnessRow,
        s_row: &MptWitnessRow,
        c_row: &MptWitnessRow,
        longer55_pos: usize,
        non_hashed_pos: usize,
    ) -> (ok: bool)
        requires
            self.wf(),
            init_row.well_formed(),
            s_row.well_formed(),
            c_row.well_formed(),
            longer55_pos < 68,
            non_hashed_pos < 68,
        ensures
            ok == ext_selectors_rlp_ok(
                init_row.bytes@,
                s_row.bytes@,
                c_row.bytes@,
                longer55_pos as int,
                non_hashed_pos as int,
                self.is_s,
            ),
    {
        let short_c16 = init_row.get_byte(IS_EXT_SHORT_C16_POS);
        let short_c1 = init_row.get_byte(IS_EXT_SHORT_C1_POS);
        let even_c16 = init_row.get_byte(IS_EXT_LONG_EVEN_C16_POS);
        let even_c1 = init_row.get_byte(IS_EXT_LONG_EVEN_C1_POS);
        let odd_c16 = init_row.get_byte(IS_EXT_LONG_ODD_C16_POS);
        let odd_c1 = init_row.get_byte(IS_EXT_LONG_ODD_C1_POS);
        let longer55 = init_row.get_byte(longer55_pos);
        let non_hashed = init_row.get_byte(non_hashed_pos);
        let c16 = init_row.get_byte(IS_BRANCH_C16_POS);
        let c1 = init_row.get_byte(IS_BRANCH_C1_POS);
        let is_short = short_c16 == 1 || short_c1 == 1;
        let is_even = even_c16 == 1 || even_c1 == 1;
        let is_odd = odd_c16 == 1 || odd_c1 == 1;
        let s0 = s_row.get_byte(0) as u64;
        let s1 = s_row.get_byte(1) as u64;
        let s2 = s_row.get_byte(2) as u64;
        let c_rlp2 = c_row.get_byte(C_RLP_START + 1);
        let c_bytes0 = c_row.get_byte(C_START) as u64;
        let hashed = c_rlp2 != 0;
        let sum = short_c16 as u64 + short_c1 as u64 + even_c16 as u64 + even_c1 as u64
            + odd_c16 as u64 + odd_c1 as u64;
        let ok = short_c16 <= 1 && short_c1 <= 1 && even_c16 <= 1 && even_c1 <= 1 && odd_c16 <= 1
            && odd_c1 <= 1 && longer55 <= 1 && non_hashed <= 1 && sum <= 1 && (!(short_c16 == 1)
            || c16 == 1) && (!(short_c1 == 1) || c1 == 1) && (!(even_c16 == 1) || c16 == 1) && (!(
        even_c1 == 1) || c1 == 1) && (!(odd_c16 == 1) || c16 == 1) && (!(odd_c1 == 1) || c1 == 1)
            && (!(self.is_s && is_even) || s2 == 0) && (!(self.is_s && is_short && hashed) || s0
            == 226) && (!(self.is_s && is_short && !hashed) || s0 == c_bytes0 + 2) && (!(self.is_s
            && (is_even || is_odd) && hashed && longer55 == 0) || s0 == s1 + 98) && (!(self.is_s
            && (is_even || is_odd) && !hashed && longer55 == 0) || s0 + 126 == s1 + c_bytes0) && (!(
        self.is_s && longer55 == 1) || s0 == 248) && (!(self.is_s && longer55 == 1 && hashed) || s1
            + 94 == s2) && (!(self.is_s && longer55 == 1 && !hashed) || s1 + 318 == s2 + c_bytes0);
        ok
    }

    /// Evaluates the branch-inside-extension assertion.
    pub fn check_branch_hash_in_ext(
        &self,
        c_row: &MptWitnessRow,
        branch_acc: u64,
        branch_mult: u64,
        keccak: &KeccakTable,
    ) -> (ok: bool)
        requires
            self.wf(),
            c_row.well_formed(),
            is_felt(branch_acc),
            is_felt(branch_mult),
        ensures
            ok == ext_branch_hash_ok(
                c_row.bytes@,
                branch_acc,
                branch_mult,
                *keccak,
                self.acc_r as int,
            ),
    {
        let full_branch = crate::field::fadd(
            branch_acc,
            crate::field::fmul(128, branch_mult),
        );
        let (carried, _m) = fold_window(&c_row.bytes, C_START, HASH_WIDTH, 0, 1, self.acc_r);
        let c_rlp2 = c_row.get_byte(C_RLP_START + 1);
        if c_rlp2 != 0 {
            keccak.contains(full_branch, carried)
        } else {
            full_branch == carried
        }
    }

    /// Evaluates the extension-inside-parent assertion.
    pub fn check_parent(
        &self,
        not_first_level: bool,
        is_account_leaf_above: bool,
        is_branch_placeholder: bool,
        ext_non_hashed: bool,
        acc_c: u64,
        root: u64,
        storage_root_digest: u64,
        mod_node_hash_rlc: u64,
        keccak: &KeccakTable,
    ) -> (ok: bool)
        ensures
            ok == ext_parent_ok(
                not_first_level,
                is_account_leaf_above,
                is_branch_placeholder,
                ext_non_hashed,
                acc_c,
                root,
                storage_root_digest,
                mod_node_hash_rlc,
                *keccak,
            ),
    {
        let ok_first = !(!not_first_level) || keccak.contains(acc_c, root);
        let ok_storage = !(not_first_level && is_account_leaf_above && !is_branch_placeholder)
            || keccak.contains(acc_c, storage_root_digest);
        let ok_hashed = !(not_first_level && !is_account_leaf_above && !is_branch_placeholder
            && !ext_non_hashed) || keccak.contains(acc_c, mod_node_hash_rlc);
        let ok_non_hashed = !(not_first_level && !is_account_leaf_above && !is_branch_placeholder
            && ext_non_hashed) || mod_node_hash_rlc == acc_c;
        ok_first && ok_storage && ok_hashed && ok_non_hashed
    }

    /// Evaluates the nibble-count bookkeeping for this extension plus its
    /// branch, forcing the previous count to zero at a first account or
    /// first storage level.
    pub fn check_nibbles_count(
        &self,
        init_row: &MptWitnessRow,
        s_row: &MptWitnessRow,
        longer55_pos: usize,
        not_first_level: bool,
        is_first_storage_level: bool,
        nibbles_count_cur: u64,
        nibbles_count_prev_raw: u64,
    ) -> (ok: bool)
        requires
            self.wf(),
            init_row.well_formed(),
            s_row.well_formed(),
            longer55_pos < 68,
            nibbles_count_cur <= 255,
            nibbles_count_prev_raw <= 255,
        ensures
            ok == ext_nibbles_count_ok(
                init_row.bytes@,
                s_row.bytes@,
                longer55_pos as int,
                not_first_level,
                is_first_storage_level,
                nibbles_count_cur as int,
                nibbles_count_prev_raw as int,
            ),
    {
        let short_c16 = init_row.get_byte(IS_EXT_SHORT_C16_POS);
        let short_c1 = init_row.get_byte(IS_EXT_SHORT_C1_POS);
        let even_c16 = init_row.get_byte(IS_EXT_LONG_EVEN_C16_POS);
        let even_c1 = init_row.get_byte(IS_EXT_LONG_EVEN_C1_POS);
        let odd_c16 = init_row.get_byte(IS_EXT_LONG_ODD_C16_POS);
        let odd_c1 = init_row.get_byte(IS_EXT_LONG_ODD_C1_POS);
        let longer55 = init_row.get_byte(longer55_pos);
        let is_short = short_c16 == 1 || short_c1 == 1;
        let is_even = even_c16 == 1 || even_c1 == 1;
        let is_odd = odd_c16 == 1 || odd_c1 == 1;
        let cur = nibbles_count_cur as i64;
        let prev: i64 = if !not_first_level || is_first_storage_level {
            0
        } else {
            nibbles_count_prev_raw as i64
        };
        let s1 = s_row.get_byte(1) as i64;
        let s2 = s_row.get_byte(2) as i64;
        let ok = (!is_short || cur == prev + 2) && (!(is_even && longer55 == 0) || cur == prev + (
        s1 - 128 - 1) * 2 + 1) && (!(is_odd && longer55 == 0) || cur == prev + (s1 - 128) * 2 - 1
            + 1) && (!(is_even && longer55 == 1) || cur == prev + (s2 - 128 - 1) * 2 + 1) && (!(
        is_odd && longer55 == 1) || cur == prev + (s2 - 128) * 2 - 1 + 1);
        ok
    }

    /// Derives and writes the accumulator fields of one extension row, as
    /// the assignment pass does: on the before side the key part is folded
    /// afresh and extended over the branch part; on the after side the key
    /// part is shared and only the branch part differs.
    pub fn assign(
        &self,
        mpt_config: &MPTConfig,
        pv: &mut ProofValues,
        row: &MptWitnessRow,
        assigned: &mut AssignedRow,
        is_s: bool,
    )
        requires
            mpt_config.wf(),
            row.well_formed(),
            old(pv).wf(),
            row.bytes@[1] > 32 ==> 128 <= row.bytes@[1] <= 160,
            row.bytes@[0] >= 248 ==> 128 <= row.bytes@[2] <= 159,
        ensures
            final(pv).wf(),
            !old(pv).is_extension_node ==> *final(pv) == *old(pv) && *final(assigned) == *old(
                assigned,
            ),
            (old(pv).is_extension_node && is_s) ==> ({
                let len = spec_ext_key_len(row.bytes@);
                let r = mpt_config.acc_r as int;
                let acc_s = rlc_acc_spec(row.bytes@.subrange(0, len), 0, 1, r);
                let acc_mult_s = rlc_mult_spec(len as nat, 1, r);
                &&& *final(pv) == (ProofValues {
                    acc_s: acc_s as u64,
                    acc_mult_s: acc_mult_s as u64,
                    acc_c: spec_ext_branch_fold(row.bytes@, acc_s, acc_mult_s, r) as u64,
                    acc_mult_c: spec_ext_branch_mult(row.bytes@, acc_mult_s, r) as u64,
                    ..*old(pv)
                })
                &&& final(pv).acc_s == acc_s
                &&& final(pv).acc_mult_s == acc_mult_s
                &&& final(pv).acc_c == spec_ext_branch_fold(row.bytes@, acc_s, acc_mult_s, r)
                &&& *final(assigned) == (AssignedRow {
                    acc_s: final(pv).acc_s,
                    acc_mult_s: final(pv).acc_mult_s,
                    acc_c: final(pv).acc_c,
                    acc_mult_c: 0,
                    key_rlc: old(pv).extension_node_rlc,
                    ..*old(assigned)
                })
            }),
            (old(pv).is_extension_node && !is_s) ==> ({
                let r = mpt_config.acc_r as int;
                &&& *final(pv) == (ProofValues {
                    acc_c: spec_ext_branch_fold(
                        row.bytes@,
                        old(pv).acc_s as int,
                        old(pv).acc_mult_s as int,
                        r,
                    ) as u64,
                    acc_mult_c: spec_ext_branch_mult(
                        row.bytes@,
                        old(pv).acc_mult_s as int,
                        r,
                    ) as u64,
                    ..*old(pv)
                })
                &&& final(pv).acc_s == old(pv).acc_s
                &&& final(pv).acc_mult_s == old(pv).acc_mult_s
                &&& final(pv).acc_c == spec_ext_branch_fold(
                    row.bytes@,
                    old(pv).acc_s as int,
                    old(pv).acc_mult_s as int,
                    r,
                )
                &&& *final(assigned) == (AssignedRow {
                    acc_s: final(pv).acc_s,
                    acc_mult_s: final(pv).acc_mult_s,
                    acc_c: final(pv).acc_c,
                    acc_mult_c: 0,
                    key_rlc: old(pv).extension_node_rlc,
                    ..*old(assigned)
                })
            }),
    {
        if pv.is_extension_node {
            if is_s {
                pv.acc_s = 0;
                pv.acc_mult_s = 1;
                let len: usize = if row.get_byte(1) <= 32 {
                    2
                } else if row.get_byte(0) < 248 {
                    (row.get_byte(1) - 128) as usize + 2
                } else {
                    (row.get_byte(2) - 128) as usize + 3
                };
                let mut acc = pv.acc_s;
                let mut mult = pv.acc_mult_s;
                mpt_config.compute_acc_and_mult(&row.bytes, &mut acc, &mut mult, 0, len);
                pv.acc_s = acc;
                pv.acc_mult_s = mult;
            }
            // The key part is shared by both extension rows, so the after
            // side reuses the before-side intermediate pair.
            pv.acc_c = pv.acc_s;
            pv.acc_mult_c = pv.acc_mult_s;
            let mut start: usize = C_RLP_START + 1;
            let mut len: usize = HASH_WIDTH + 1;
            if row.get_byte(C_RLP_START + 1) == 0 {
                start = C_START;
                len = HASH_WIDTH;
            }
            let mut acc = pv.acc_c;
            let mut mult = pv.acc_mult_c;
            mpt_config.compute_acc_and_mult(&row.bytes, &mut acc, &mut mult, start, len);
            pv.acc_c = acc;
            pv.acc_mult_c = mult;
            assigned.acc_s = pv.acc_s;
            assigned.acc_mult_s = pv.acc_mult_s;
            assigned.acc_c = pv.acc_c;
            assigned.acc_mult_c = 0;
            assigned.key_rlc = pv.extension_node_rlc;
        }
    }
}

/// How many leading bytes of an extension row carry RLP metadata and the
/// key segment.
pub open spec fn spec_ext_key_len(bytes: Seq<u8>) -> int {
    if bytes[1] <= 32 {
        2
    } else if bytes[0] < 248 {
        bytes[1] - 128 + 2
    } else {
        bytes[2] - 128 + 3
    }
}

/// The multiplier after folding the branch-hash part of an extension row.
pub open spec fn spec_ext_branch_mult(bytes: Seq<u8>, mult: int, r: int) -> int {
    if bytes[C_RLP_START + 1] == 0 {
        rlc_mult_spec(HASH_WIDTH as nat, mult, r)
    } else {
        rlc_mult_spec((HASH_WIDTH + 1) as nat, mult, r)
    }
}

/// The fold of the branch-hash part of an extension row onto the key-part
/// accumulator pair.
pub open spec fn spec_ext_branch_fold(bytes: Seq<u8>, acc: int, mult: int, r: int) -> int {
    if bytes[C_RLP_START + 1] == 0 {
        rlc_acc_spec(bytes.subrange(C_START as int, (C_START + HASH_WIDTH) as int), acc, mult, r)
    } else {
        rlc_acc_spec(
            bytes.subrange(C_RLP_START + 1, (C_RLP_START + 1 + HASH_WIDTH + 1) as int),
            acc,
            mult,
            r,
        )
    }
}

/// The extension-node chip: the component together with its configuration.
pub struct ExtensionNodeChip {
    pub config: ExtensionNodeConfig,
}

impl ExtensionNodeChip {
    pub fn construct(config: ExtensionNodeConfig) -> (chip: ExtensionNodeChip)
        ensures
            chip.config == config,
    {
        ExtensionNodeChip { config }
    }

    pub open spec fn spec_config(self) -> ExtensionNodeConfig {
        self.config
    }

    pub fn config(&self) -> (c: &ExtensionNodeConfig)
        ensures
            *c == self.spec_config(),
    {
        &self.config
    }
}

/// Completeness of the extension-node encoding RLC: the accumulator pair
/// the assignment pass derives — the key part folded over its true length,
/// then the branch part — satisfies the node-encoding RLC assertions,
/// because the bytes past the key segment of a well-formed extension row
/// are zero and do not move the fold.
pub proof fn lemma_ext_assign_satisfies_rlc(bytes: Seq<u8>, r: int)
    requires
        bytes.len() >= 68,
        1 <= spec_ext_key_len(bytes) <= 34,
        forall|i: int| spec_ext_key_len(bytes) <= i < 34 ==> bytes[i] == 0,
        bytes[C_RLP_START + 1] == 160 || bytes[C_RLP_START + 1] == 0,
        0 <= r < crate::field::P,
    ensures
        ({
            let len = spec_ext_key_len(bytes);
            let acc_s = rlc_acc_spec(bytes.subrange(0, len), 0, 1, r);
            let acc_mult_s = rlc_mult_spec(len as nat, 1, r);
            let acc_c = spec_ext_branch_fold(bytes, acc_s, acc_mult_s, r);
            ext_rlc_ok(bytes, bytes, acc_s as u64, acc_mult_s as u64, acc_c as u64, r)
        }),
{
    let len = spec_ext_key_len(bytes);
    let sub34 = bytes.subrange(0, 34);
    crate::rlc::lemma_rlc_acc_bound(bytes.subrange(0, len), 0, 1, r);
    crate::rlc::lemma_rlc_mult_bound(len as nat, 1, r);
    let acc_s = rlc_acc_spec(bytes.subrange(0, len), 0, 1, r);
    let acc_mult_s = rlc_mult_spec(len as nat, 1, r);
    assert(sub34.take(len) =~= bytes.subrange(0, len));
    crate::rlc::lemma_rlc_zero_extension(sub34, len, 0, 1, r);
    if bytes[C_RLP_START + 1] == 0 {
        crate::rlc::lemma_rlc_acc_bound(
            bytes.subrange(C_START as int, (C_START + HASH_WIDTH) as int),
            acc_s,
            acc_mult_s,
            r,
        );
    } else {
        crate::rlc::lemma_rlc_acc_bound(
            bytes.subrange(C_RLP_START + 1, (C_RLP_START + 1 + HASH_WIDTH + 1) as int),
            acc_s,
            acc_mult_s,
            r,
        );
    }
}

} // verus!
