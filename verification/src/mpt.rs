//! The table provider, the threaded accumulator state, and the
//! witness-assignment driver.
//!
//! With the before-side (S) columns the prover shows knowledge of a
//! key/value pair in the trie with the start root; with the after-side (C)
//! columns, of the same key with a different value in the trie with the
//! final root. A branch occupies 19 rows (init, 16 children, two extension
//! rows); an account leaf 8 rows; a storage leaf 5 rows.

use vstd::prelude::*;

verus! {

use crate::account_leaf_nonce_balance::{
    balance_value_long_rlc_spec,
    nonce_balance_acc_spec,
    nonce_value_long_rlc_spec,
    spec_value_is_long,
};
use crate::branch_key::key_rlc_branch_step;
use crate::field::{fadd, fadd_spec, fmul, fmul_spec, fpow, fpow_spec, fsub_spec, is_felt};
use crate::param::{
    BRANCH_0_KEY_POS,
    C_START,
    DRIFTED_POS,
    HASH_WIDTH,
    IS_BRANCH_C_PLACEHOLDER_POS,
    IS_BRANCH_S_PLACEHOLDER_POS,
    MIN_ROW_LEN,
    S_START,
};
use crate::rlc::{bytes_rlc_spec, compute_acc_and_mult, fold_window, rlc_acc_spec, rlc_mult_spec};
use crate::witness_row::{row_type_from_byte, MptWitnessRow, MptWitnessRowType};

/// Tags of the fixed membership table.
#[derive(Clone, Copy, PartialEq, Eq, Structural, Debug)]
pub enum FixedTableTag {
    RMult,
    Range16,
    Range256,
    RangeKeyLen256,
}

/// The numeric tag each fixed-table row carries.
pub open spec fn fixed_tag_value(t: FixedTableTag) -> u64 {
    match t {
        FixedTableTag::RMult => 0,
        FixedTableTag::Range16 => 1,
        FixedTableTag::Range256 => 2,
        FixedTableTag::RangeKeyLen256 => 3,
    }
}

pub fn fixed_tag_to_value(t: FixedTableTag) -> (v: u64)
    ensures
        v == fixed_tag_value(t),
{
    match t {
        FixedTableTag::RMult => 0,
        FixedTableTag::Range16 => 1,
        FixedTableTag::Range256 => 2,
        FixedTableTag::RangeKeyLen256 => 3,
    }
}

/// One row of the fixed membership table: (tag, input, optional output).
#[derive(Clone, Copy, PartialEq, Eq, Structural, Debug)]
pub struct FixedTableRow {
    pub tag: u64,
    pub value: u64,
    pub mult: u64,
}

/// What the loaded fixed table holds: the powers of the folding randomness
/// for lengths 0 ..= 64, the byte range and the nibble range.
pub open spec fn fixed_table_ok(t: Seq<FixedTableRow>, r: int) -> bool {
    &&& t.len() == 65 + 256 + 16
    &&& forall|i: int|
        0 <= i < 65 ==> (#[trigger] t[i]).tag == 0 && t[i].value == i && t[i].mult == fpow_spec(
            r,
            i as nat,
        )
    &&& forall|i: int|
        65 <= i < 65 + 256 ==> (#[trigger] t[i]).tag == 2 && t[i].value == i - 65 && t[i].mult == 0
    &&& forall|i: int|
        65 + 256 <= i < 65 + 256 + 16 ==> (#[trigger] t[i]).tag == 1 && t[i].value == i - (65
            + 256) && t[i].mult == 0
}

/// Whether the fixed table holds the given row.
pub open spec fn fixed_table_contains_spec(
    t: Seq<FixedTableRow>,
    tag: u64,
    value: u64,
    mult: u64,
) -> bool {
    exists|i: int|
        0 <= i < t.len() && t[i] == (FixedTableRow { tag, value, mult })
}

pub fn fixed_table_contains(t: &Vec<FixedTableRow>, tag: u64, value: u64, mult: u64) -> (r: bool)
    ensures
        r == fixed_table_contains_spec(t@, tag, value, mult),
{
    let mut i: usize = 0;
    while i < t.len()
        invariant
            i <= t@.len(),
            forall|j: int| 0 <= j < i ==> t@[j] != (FixedTableRow { tag, value, mult }),
        decreases t@.len() - i,
    {
        let row = t[i];
        if row.tag == tag && row.value == value && row.mult == mult {
            return true;
        }
        i = i + 1;
    }
    false
}

/// A multiplier-power row can only be found in a well-loaded fixed table
/// when its output is the true power of the randomness for its length: the
/// length-to-multiplier lookups of the leaf components therefore pin the
/// carried multipliers down exactly.
pub proof fn lemma_fixed_table_rmult(t: Seq<FixedTableRow>, r: int, len: u64, mult: u64)
    requires
        fixed_table_ok(t, r),
        fixed_table_contains_spec(t, 0, len, mult),
    ensures
        len < 65,
        mult == fpow_spec(r, len as nat),
{
    let i = choose|i: int| 0 <= i < t.len() && t[i] == (FixedTableRow { tag: 0, value: len, mult });
    assert(t[i].tag == 0 && t[i].value == len && t[i].mult == mult);
    if i >= 65 {
        assert(t[i].tag != 0);
    }
}

/// A well-loaded fixed table answers every multiplier-power lookup the
/// assignment pass gives rise to: the multiplier carried after a window of
/// `len` bytes, starting from one, stands at entry `len`.
pub proof fn lemma_fixed_table_rmult_complete(t: Seq<FixedTableRow>, r: int, len: u64)
    requires
        fixed_table_ok(t, r),
        len < 65,
        0 <= r < crate::field::P,
    ensures
        fixed_table_contains_spec(t, 0, len, rlc_mult_spec(len as nat, 1, r) as u64),
{
    crate::rlc::lemma_rlc_mult_pow(len as nat, 1, r);
    crate::field::lemma_fpow_bound(r, len as nat);
    vstd::arithmetic::div_mod::lemma_small_mod(
        fpow_spec(r, len as nat) as nat,
        crate::field::P as nat,
    );
    assert(fmul_spec(1, fpow_spec(r, len as nat)) == fpow_spec(r, len as nat));
    assert(t[len as int] == (FixedTableRow {
        tag: 0,
        value: len,
        mult: fpow_spec(r, len as nat) as u64,
    }));
}

/// One hash-relation entry: the folded bytes of a node blob and the folded
/// digest the external hashing subsystem computed for it.
#[derive(Clone, Copy, PartialEq, Eq, Structural, Debug)]
pub struct HashRelation {
    pub input_rlc: u64,
    pub digest_rlc: u64,
}

/// The per-run membership table of hash relations. It must be fully
/// populated, by the external hashing subsystem, before assignment or
/// checking begins.
pub struct KeccakTable {
    pub rows: Vec<HashRelation>,
}

impl KeccakTable {
    pub open spec fn spec_contains(self, input_rlc: u64, digest_rlc: u64) -> bool {
        exists|i: int|
            0 <= i < self.rows@.len() && self.rows@[i] == (HashRelation { input_rlc, digest_rlc })
    }

    pub fn new() -> (t: KeccakTable)
        ensures
            t.rows@.len() == 0,
    {
        KeccakTable { rows: Vec::new() }
    }

    pub fn push(&mut self, input_rlc: u64, digest_rlc: u64)
        ensures
            final(self).rows@ == old(self).rows@.push(HashRelation { input_rlc, digest_rlc }),
    {
        self.rows.push(HashRelation { input_rlc, digest_rlc });
    }

    /// The membership oracle every hash-matching assertion goes through.
    pub fn contains(&self, input_rlc: u64, digest_rlc: u64) -> (r: bool)
        ensures
            r == self.spec_contains(input_rlc, digest_rlc),
    {
        let mut i: usize = 0;
        while i < self.rows.len()
            invariant
                i <= self.rows@.len(),
                forall|j: int|
                    0 <= j < i ==> self.rows@[j] != (HashRelation { input_rlc, digest_rlc }),
            decreases self.rows@.len() - i,
        {
            let row = self.rows[i];
            if row.input_rlc == input_rlc && row.digest_rlc == digest_rlc {
                return true;
            }
            i = i + 1;
        }
        false
    }
}

/// The process-wide configuration: the folding randomness shared by every
/// accumulator.
pub struct MPTConfig {
    pub acc_r: u64,
}

impl MPTConfig {
    pub open spec fn wf(self) -> bool {
        is_felt(self.acc_r)
    }

    pub fn configure(acc_r: u64) -> (c: MPTConfig)
        requires
            is_felt(acc_r),
        ensures
            c.wf(),
            c.acc_r == acc_r,
    {
        MPTConfig { acc_r }
    }

    /// Folds `row[start .. start + len]` into the accumulator pair.
    pub fn compute_acc_and_mult(
        &self,
        row: &Vec<u8>,
        acc: &mut u64,
        mult: &mut u64,
        start: usize,
        len: usize,
    )
        requires
            self.wf(),
            start + len <= row.len(),
            is_felt(*old(acc)),
            is_felt(*old(mult)),
        ensures
            *final(acc) == rlc_acc_spec(
                row@.subrange(start as int, (start + len) as int),
                *old(acc) as int,
                *old(mult) as int,
                self.acc_r as int,
            ),
            *final(mult) == rlc_mult_spec(len as nat, *old(mult) as int, self.acc_r as int),
            is_felt(*final(acc)),
            is_felt(*final(mult)),
    {
        compute_acc_and_mult(row, acc, mult, start, len, self.acc_r);
    }

    /// Folds the key bytes of a leaf-key window into the running key RLC.
    ///
    /// At `row[start]` stands the key-length byte (128 + number of key
    /// bytes); at `row[start + 1]` either the terminator 32 (even number of
    /// residual nibbles) or 48 + first nibble (odd number).
    pub fn compute_key_rlc(
        &self,
        row: &Vec<u8>,
        key_rlc: &mut u64,
        key_rlc_mult: &mut u64,
        start: usize,
    )
        requires
            self.wf(),
            start + 1 < row.len(),
            row@[start as int] >= 129,
            start + 1 + (row@[start as int] - 128) <= row.len(),
            row@[start + 1] != 32 ==> row@[start + 1] >= 48,
            is_felt(*old(key_rlc)),
            is_felt(*old(key_rlc_mult)),
        ensures
            is_felt(*final(key_rlc)),
            is_felt(*final(key_rlc_mult)),
            ({
                let len = row@[start as int] - 128;
                let window = row@.subrange(start + 2, start + 1 + len);
                if row@[start + 1] == 32 {
                    &&& *final(key_rlc) == rlc_acc_spec(
                        window,
                        *old(key_rlc) as int,
                        *old(key_rlc_mult) as int,
                        self.acc_r as int,
                    )
                    &&& *final(key_rlc_mult) == rlc_mult_spec(
                        (len - 1) as nat,
                        *old(key_rlc_mult) as int,
                        self.acc_r as int,
                    )
                } else {
                    &&& *final(key_rlc) == rlc_acc_spec(
                        window,
                        fadd_spec(
                            *old(key_rlc) as int,
                            fmul_spec((row@[start + 1] - 48) as int, *old(key_rlc_mult) as int),
                        ),
                        fmul_spec(*old(key_rlc_mult) as int, self.acc_r as int),
                        self.acc_r as int,
                    )
                    &&& *final(key_rlc_mult) == rlc_mult_spec(
                        (len - 1) as nat,
                        fmul_spec(*old(key_rlc_mult) as int, self.acc_r as int),
                        self.acc_r as int,
                    )
                }
            }),
    {
        let even_num_of_nibbles = row[start + 1] == 32;
        let len = (row[start] - 128) as usize;
        if !even_num_of_nibbles {
            // With an odd number of nibbles the first nibble shares the
            // terminator byte: fold it on its own, then the remaining bytes.
            *key_rlc = fadd(*key_rlc, fmul((row[start + 1] - 48) as u64, *key_rlc_mult));
            *key_rlc_mult = fmul(*key_rlc_mult, self.acc_r);
            self.compute_acc_and_mult(row, key_rlc, key_rlc_mult, start + 2, len - 1);
        } else {
            self.compute_acc_and_mult(row, key_rlc, key_rlc_mult, start + 2, len - 1);
        }
    }

    /// Loads both membership tables: the per-run hash-relation table from
    /// the externally computed (folded bytes, folded digest) pairs, and the
    /// fixed table of ranges and multiplier powers.
    pub fn load(&self, hash_relations: &Vec<HashRelation>) -> (res: (KeccakTable, Vec<
        FixedTableRow,
    >))
        requires
            self.wf(),
        ensures
            res.0.rows@ == hash_relations@,
            fixed_table_ok(res.1@, self.acc_r as int),
    {
        let mut keccak = KeccakTable::new();
        let mut i: usize = 0;
        while i < hash_relations.len()
            invariant
                i <= hash_relations@.len(),
                keccak.rows@ == hash_relations@.subrange(0, i as int),
            decreases hash_relations@.len() - i,
        {
            let rel = hash_relations[i];
            keccak.push(rel.input_rlc, rel.digest_rlc);
            proof {
                assert(keccak.rows@ =~= hash_relations@.subrange(0, i + 1));
            }
            i = i + 1;
        }
        proof {
            assert(hash_relations@.subrange(0, hash_relations@.len() as int) =~= hash_relations@);
        }
        (keccak, self.load_fixed_table())
    }

    /// Loads the fixed membership table: multiplier powers for lengths
    /// 0 ..= 64, the byte range and the nibble range.
    pub fn load_fixed_table(&self) -> (t: Vec<FixedTableRow>)
        requires
            self.wf(),
        ensures
            fixed_table_ok(t@, self.acc_r as int),
    {
        let mut t: Vec<FixedTableRow> = Vec::new();
        let mut mult: u64 = 1;
        let mut ind: usize = 0;
        while ind < 65
            invariant
                self.wf(),
                ind <= 65,
                t@.len() == ind,
                is_felt(mult),
                mult == fpow_spec(self.acc_r as int, ind as nat),
                forall|i: int|
                    0 <= i < ind ==> (#[trigger] t@[i]).tag == 0 && t@[i].value == i
                        && t@[i].mult == fpow_spec(self.acc_r as int, i as nat),
            decreases 65 - ind,
        {
            t.push(FixedTableRow { tag: 0, value: ind as u64, mult });
            proof {
                assert(fpow_spec(self.acc_r as int, (ind + 1) as nat) == fmul_spec(
                    self.acc_r as int,
                    fpow_spec(self.acc_r as int, ind as nat),
                ));
            }
            mult = fmul(mult, self.acc_r);
            ind = ind + 1;
        }
        let mut ind: usize = 0;
        while ind < 256
            invariant
                ind <= 256,
                t@.len() == 65 + ind,
                forall|i: int|
                    0 <= i < 65 ==> (#[trigger] t@[i]).tag == 0 && t@[i].value == i
                        && t@[i].mult == fpow_spec(self.acc_r as int, i as nat),
                forall|i: int|
                    65 <= i < 65 + ind ==> (#[trigger] t@[i]).tag == 2 && t@[i].value == i - 65
                        && t@[i].mult == 0,
            decreases 256 - ind,
        {
            t.push(FixedTableRow { tag: 2, value: ind as u64, mult: 0 });
            ind = ind + 1;
        }
        let mut ind: usize = 0;
        while ind < 16
            invariant
                ind <= 16,
                t@.len() == 65 + 256 + ind,
                forall|i: int|
                    0 <= i < 65 ==> (#[trigger] t@[i]).tag == 0 && t@[i].value == i
                        && t@[i].mult == fpow_spec(self.acc_r as int, i as nat),
                forall|i: int|
                    65 <= i < 65 + 256 ==> (#[trigger] t@[i]).tag == 2 && t@[i].value == i - 65
                        && t@[i].mult == 0,
                forall|i: int|
                    65 + 256 <= i < 65 + 256 + ind ==> (#[trigger] t@[i]).tag == 1
                        && t@[i].value == i - (65 + 256) && t@[i].mult == 0,
            decreases 16 - ind,
        {
            t.push(FixedTableRow { tag: 1, value: ind as u64, mult: 0 });
            ind = ind + 1;
        }
        t
    }
}

/// The accumulator state threaded through the witness-assignment fold,
/// re-created at every detected first-level boundary.
pub struct ProofValues {
    /// Branch child being changed; the same in all children rows.
    pub modified_node: u8,
    /// Folded hash of the modified child, before side.
    pub s_mod_node_hash_rlc: u64,
    /// Folded hash of the modified child, after side.
    pub c_mod_node_hash_rlc: u64,
    /// Branch child index.
    pub node_index: u8,
    /// Node-encoding accumulator for the before side.
    pub acc_s: u64,
    pub acc_mult_s: u64,
    pub acc_account_s: u64,
    pub acc_mult_account_s: u64,
    pub acc_account_c: u64,
    pub acc_mult_account_c: u64,
    pub acc_nonce_balance_s: u64,
    pub acc_mult_nonce_balance_s: u64,
    pub acc_nonce_balance_c: u64,
    pub acc_mult_nonce_balance_c: u64,
    /// Node-encoding accumulator for the after side.
    pub acc_c: u64,
    pub acc_mult_c: u64,
    /// Running key RLC: first the account address, then the storage key.
    pub key_rlc: u64,
    pub key_rlc_mult: u64,
    /// Accumulator for the extension-node key part.
    pub extension_node_rlc: u64,
    /// Snapshot of the key RLC one level above, used to resume past a
    /// placeholder branch.
    pub key_rlc_prev: u64,
    pub key_rlc_mult_prev: u64,
    /// Power of the randomness bridging the previous multiplier to the
    /// current one.
    pub mult_diff: u64,
    /// True when the next branch nibble is weighted by 16, false for 1.
    pub key_rlc_sel: bool,
    pub is_branch_s_placeholder: bool,
    pub is_branch_c_placeholder: bool,
    /// Position the displaced leaf drifted to in a newly added branch.
    pub drifted_pos: u8,
    /// Branch RLP length remainder, before side.
    pub rlp_len_rem_s: i32,
    pub rlp_len_rem_c: i32,
    pub is_extension_node: bool,
    pub is_even: bool,
    pub is_odd: bool,
    pub is_short: bool,
    pub is_long: bool,
    pub rlc1: u64,
    pub rlc2: u64,
    pub nonce_value_s: u64,
    pub balance_value_s: u64,
    pub before_account_leaf: bool,
    /// Running count of the key nibbles the path has consumed: one per
    /// branch and the segment length per extension node. The assertions
    /// check the witness's own counter bytes against the per-level update
    /// equations and force the total, with the leaf's residual nibbles, to
    /// reach exactly 64.
    pub nibbles_num: usize,
}

/// The fresh accumulator state: what the fold starts from and what every
/// detected first-level boundary re-creates.
pub open spec fn fresh_proof_values() -> ProofValues {
    ProofValues {
        modified_node: 0,
        s_mod_node_hash_rlc: 0,
        c_mod_node_hash_rlc: 0,
        node_index: 0,
        acc_s: 0,
        acc_mult_s: 0,
        acc_account_s: 0,
        acc_mult_account_s: 0,
        acc_account_c: 0,
        acc_mult_account_c: 0,
        acc_nonce_balance_s: 0,
        acc_mult_nonce_balance_s: 0,
        acc_nonce_balance_c: 0,
        acc_mult_nonce_balance_c: 0,
        acc_c: 0,
        acc_mult_c: 0,
        key_rlc: 0,
        key_rlc_mult: 1,
        extension_node_rlc: 0,
        key_rlc_prev: 0,
        key_rlc_mult_prev: 1,
        mult_diff: 1,
        key_rlc_sel: true,
        is_branch_s_placeholder: false,
        is_branch_c_placeholder: false,
        drifted_pos: 0,
        rlp_len_rem_s: 0,
        rlp_len_rem_c: 0,
        is_extension_node: false,
        is_even: false,
        is_odd: false,
        is_short: false,
        is_long: false,
        rlc1: 0,
        rlc2: 0,
        nonce_value_s: 0,
        balance_value_s: 0,
        before_account_leaf: true,
        nibbles_num: 0,
    }
}

impl ProofValues {
    pub open spec fn wf(self) -> bool {
        &&& is_felt(self.s_mod_node_hash_rlc)
        &&& is_felt(self.c_mod_node_hash_rlc)
        &&& is_felt(self.acc_s)
        &&& is_felt(self.acc_mult_s)
        &&& is_felt(self.acc_c)
        &&& is_felt(self.acc_mult_c)
        &&& is_felt(self.key_rlc)
        &&& is_felt(self.key_rlc_mult)
        &&& is_felt(self.extension_node_rlc)
        &&& is_felt(self.key_rlc_prev)
        &&& is_felt(self.key_rlc_mult_prev)
        &&& is_felt(self.mult_diff)
        &&& is_felt(self.acc_account_s)
        &&& is_felt(self.acc_mult_account_s)
        &&& is_felt(self.acc_account_c)
        &&& is_felt(self.acc_mult_account_c)
        &&& is_felt(self.acc_nonce_balance_s)
        &&& is_felt(self.acc_mult_nonce_balance_s)
        &&& is_felt(self.acc_nonce_balance_c)
        &&& is_felt(self.acc_mult_nonce_balance_c)
        &&& is_felt(self.rlc1)
        &&& is_felt(self.rlc2)
        &&& is_felt(self.nonce_value_s)
        &&& is_felt(self.balance_value_s)
    }

    pub fn new() -> (pv: ProofValues)
        ensures
            pv.wf(),
            pv == fresh_proof_values(),
    {
        ProofValues {
            modified_node: 0,
            s_mod_node_hash_rlc: 0,
            c_mod_node_hash_rlc: 0,
            node_index: 0,
            acc_s: 0,
            acc_mult_s: 0,
            acc_account_s: 0,
            acc_mult_account_s: 0,
            acc_account_c: 0,
            acc_mult_account_c: 0,
            acc_nonce_balance_s: 0,
            acc_mult_nonce_balance_s: 0,
            acc_nonce_balance_c: 0,
            acc_mult_nonce_balance_c: 0,
            acc_c: 0,
            acc_mult_c: 0,
            key_rlc: 0,
            key_rlc_mult: 1,
            extension_node_rlc: 0,
            key_rlc_prev: 0,
            key_rlc_mult_prev: 1,
            mult_diff: 1,
            key_rlc_sel: true,
            is_branch_s_placeholder: false,
            is_branch_c_placeholder: false,
            drifted_pos: 0,
            rlp_len_rem_s: 0,
            rlp_len_rem_c: 0,
            is_extension_node: false,
            is_even: false,
            is_odd: false,
            is_short: false,
            is_long: false,
            rlc1: 0,
            rlc2: 0,
            nonce_value_s: 0,
            balance_value_s: 0,
            before_account_leaf: true,
            nibbles_num: 0,
        }
    }
}

/// The derived columns of one assigned row: what the registered assertions
/// read besides the raw bytes.
#[derive(Clone, Copy, PartialEq, Eq, Structural, Debug)]
pub struct AssignedRow {
    pub acc_s: u64,
    pub acc_mult_s: u64,
    pub acc_c: u64,
    pub acc_mult_c: u64,
    /// Folded hash of the modified child (before side); reused as a shape
    /// flag on storage-leaf rows.
    pub s_mod_node_rlc: u64,
    /// Folded hash of the modified child (after side); reused as a shape
    /// flag on storage-leaf rows.
    pub c_mod_node_rlc: u64,
    pub key_rlc: u64,
    pub key_rlc_mult: u64,
    pub key_rlc_prev: u64,
    pub key_rlc_mult_prev: u64,
    pub mult_diff: u64,
    /// Second length-to-multiplier bridge of a row that needs two (the
    /// balance part of a nonce/balance row).
    pub mult_diff2: u64,
    /// Nil-at-modified-position indicator (before side).
    pub sel1: u64,
    pub sel2: u64,
}

/// The RLP shape of a storage leaf key or value row: a two-byte prefix
/// (long), a one-byte prefix (short), no residual nibbles (last level), or
/// a single residual nibble.
#[derive(Clone, Copy, PartialEq, Eq, Structural, Debug)]
pub enum LeafShape {
    Long,
    Short,
    LastLevel,
    OneNibble,
}

/// The shape of a storage leaf key row, read from its first bytes.
pub open spec fn spec_storage_leaf_shape(bytes: Seq<u8>) -> LeafShape {
    if bytes[0] == 248 {
        LeafShape::Long
    } else if bytes[1] == 32 {
        LeafShape::LastLevel
    } else if bytes[1] < 128 {
        LeafShape::OneNibble
    } else {
        LeafShape::Short
    }
}

/// How many leading bytes of a storage leaf key row carry RLP metadata and
/// the key (zero when the length byte is out of range).
pub open spec fn spec_storage_leaf_key_len(bytes: Seq<u8>) -> int {
    match spec_storage_leaf_shape(bytes) {
        LeafShape::Long => if 129 <= bytes[2] <= 161 {
            3 + bytes[2] - 128
        } else {
            0
        },
        LeafShape::Short => if 129 <= bytes[1] <= 162 {
            2 + bytes[1] - 128
        } else {
            0
        },
        LeafShape::LastLevel => 2,
        LeafShape::OneNibble => 2,
    }
}

/// How many RLP meta bytes the branch init row carries for one side.
pub open spec fn spec_branch_meta_count(bytes: Seq<u8>, is_s: bool) -> int {
    if is_s {
        if bytes[0] == 1 {
            2
        } else if bytes[1] == 1 {
            3
        } else {
            1
        }
    } else {
        if bytes[2] == 1 {
            2
        } else if bytes[3] == 1 {
            3
        } else {
            1
        }
    }
}

/// The window of a branch child row that the before-side node encoding
/// contributes: a lone nil marker, the 33-byte hashed-child reference, or
/// an embedded non-hashed child.
pub open spec fn spec_child_window_s(bytes: Seq<u8>) -> (int, int) {
    if bytes[1] == 0 && bytes[2] == 128 {
        (2int, 1int)
    } else if bytes[1] == 160 {
        (1int, 33int)
    } else if 192 <= bytes[2] <= 223 {
        (2int, bytes[2] - 192 + 1)
    } else {
        (2int, 0int)
    }
}

/// The after-side counterpart of `spec_child_window_s`.
pub open spec fn spec_child_window_c(bytes: Seq<u8>) -> (int, int) {
    if bytes[35] == 0 && bytes[36] == 128 {
        (36int, 1int)
    } else if bytes[35] == 160 {
        (35int, 33int)
    } else if 192 <= bytes[36] <= 223 {
        (36int, bytes[36] - 192 + 1)
    } else {
        (36int, 0int)
    }
}

/// The all-zero assignment, given to rows the driver does not process.
pub open spec fn assigned_row_zero() -> AssignedRow {
    AssignedRow {
        acc_s: 0,
        acc_mult_s: 0,
        acc_c: 0,
        acc_mult_c: 0,
        s_mod_node_rlc: 0,
        c_mod_node_rlc: 0,
        key_rlc: 0,
        key_rlc_mult: 0,
        key_rlc_prev: 0,
        key_rlc_mult_prev: 0,
        mult_diff: 0,
        mult_diff2: 0,
        sel1: 0,
        sel2: 0,
    }
}

impl AssignedRow {
    pub fn new() -> (row: AssignedRow)
        ensures
            row == assigned_row_zero(),
            row == (AssignedRow {
                acc_s: 0,
                acc_mult_s: 0,
                acc_c: 0,
                acc_mult_c: 0,
                s_mod_node_rlc: 0,
                c_mod_node_rlc: 0,
                key_rlc: 0,
                key_rlc_mult: 0,
                key_rlc_prev: 0,
                key_rlc_mult_prev: 0,
                mult_diff: 0,
                mult_diff2: 0,
                sel1: 0,
                sel2: 0,
            }),
    {
        AssignedRow {
            acc_s: 0,
            acc_mult_s: 0,
            acc_c: 0,
            acc_mult_c: 0,
            s_mod_node_rlc: 0,
            c_mod_node_rlc: 0,
            key_rlc: 0,
            key_rlc_mult: 0,
            key_rlc_prev: 0,
            key_rlc_mult_prev: 0,
            mult_diff: 0,
            mult_diff2: 0,
            sel1: 0,
            sel2: 0,
        }
    }
}

impl MPTConfig {
    /// Writes the four node-encoding accumulator columns of one row.
    pub fn assign_acc(
        &self,
        assigned: &mut AssignedRow,
        acc_s: u64,
        acc_mult_s: u64,
        acc_c: u64,
        acc_mult_c: u64,
    )
        ensures
            *final(assigned) == (AssignedRow {
                acc_s,
                acc_mult_s,
                acc_c,
                acc_mult_c,
                ..*old(assigned)
            }),
    {
        assigned.acc_s = acc_s;
        assigned.acc_mult_s = acc_mult_s;
        assigned.acc_c = acc_c;
        assigned.acc_mult_c = acc_mult_c;
    }

    /// Writes the two shape flags of a storage leaf or value row into the
    /// modified-node columns.
    pub fn assign_long_short(&self, assigned: &mut AssignedRow, typ: LeafShape)
        ensures
            *final(assigned) == (AssignedRow {
                s_mod_node_rlc: (match typ {
                    LeafShape::Long => 1u64,
                    LeafShape::Short => 0u64,
                    LeafShape::LastLevel => 1u64,
                    LeafShape::OneNibble => 0u64,
                }),
                c_mod_node_rlc: (match typ {
                    LeafShape::Long => 0u64,
                    LeafShape::Short => 1u64,
                    LeafShape::LastLevel => 1u64,
                    LeafShape::OneNibble => 0u64,
                }),
                ..*old(assigned)
            }),
    {
        let (flag1, flag2): (u64, u64) = match typ {
            LeafShape::Long => (1, 0),
            LeafShape::Short => (0, 1),
            LeafShape::LastLevel => (1, 1),
            LeafShape::OneNibble => (0, 0),
        };
        assigned.s_mod_node_rlc = flag1;
        assigned.c_mod_node_rlc = flag2;
    }

    /// Folds one window of each half of a row into the running pair of
    /// modified-node RLCs and writes them into the row's columns.
    pub fn compute_rlc_and_assign(
        &self,
        assigned: &mut AssignedRow,
        row: &MptWitnessRow,
        pv: &mut ProofValues,
        s_start: usize,
        c_start: usize,
        len_s: usize,
        len_c: usize,
    )
        requires
            self.wf(),
            old(pv).wf(),
            s_start + len_s <= row.bytes@.len(),
            c_start + len_c <= row.bytes@.len(),
        ensures
            final(pv).wf(),
            *final(pv) == (ProofValues {
                rlc1: rlc_acc_spec(
                    row.bytes@.subrange(s_start as int, (s_start + len_s) as int),
                    old(pv).rlc1 as int,
                    1,
                    self.acc_r as int,
                ) as u64,
                rlc2: rlc_acc_spec(
                    row.bytes@.subrange(c_start as int, (c_start + len_c) as int),
                    old(pv).rlc2 as int,
                    1,
                    self.acc_r as int,
                ) as u64,
                ..*old(pv)
            }),
            *final(assigned) == (AssignedRow {
                s_mod_node_rlc: final(pv).rlc1,
                c_mod_node_rlc: final(pv).rlc2,
                ..*old(assigned)
            }),
    {
        let (r1, _m1) = fold_window(&row.bytes, s_start, len_s, pv.rlc1, 1, self.acc_r);
        pv.rlc1 = r1;
        assigned.s_mod_node_rlc = r1;
        let (r2, _m2) = fold_window(&row.bytes, c_start, len_c, pv.rlc2, 1, self.acc_r);
        pv.rlc2 = r2;
        assigned.c_mod_node_rlc = r2;
    }

    /// Resets the per-branch accumulator state from a branch init row:
    /// classifier flags, the snapshot of the key RLC pair one level above,
    /// and the RLP meta bytes of both sides' node encodings.
    pub fn assign_branch_init(
        &self,
        pv: &mut ProofValues,
        row: &MptWitnessRow,
        assigned: &mut AssignedRow,
    )
        requires
            self.wf(),
            row.well_formed(),
            old(pv).wf(),
        ensures
            final(pv).wf(),
            *final(pv) == (ProofValues {
                modified_node: row.bytes@[BRANCH_0_KEY_POS as int],
                is_branch_s_placeholder: row.bytes@[IS_BRANCH_S_PLACEHOLDER_POS as int] == 1,
                is_branch_c_placeholder: row.bytes@[IS_BRANCH_C_PLACEHOLDER_POS as int] == 1,
                drifted_pos: row.bytes@[DRIFTED_POS as int],
                is_extension_node: crate::helpers::spec_is_extension_node(row.bytes@),
                is_even: row.bytes@[23] == 1 || row.bytes@[24] == 1,
                is_odd: row.bytes@[25] == 1 || row.bytes@[26] == 1 || row.bytes@[21] == 1
                    || row.bytes@[22] == 1,
                node_index: 0,
                rlc1: 0,
                rlc2: 0,
                key_rlc_prev: old(pv).key_rlc,
                key_rlc_mult_prev: old(pv).key_rlc_mult,
                acc_s: rlc_acc_spec(
                    row.bytes@.subrange(4, 4 + spec_branch_meta_count(row.bytes@, true)),
                    0,
                    1,
                    self.acc_r as int,
                ) as u64,
                acc_mult_s: rlc_mult_spec(
                    spec_branch_meta_count(row.bytes@, true) as nat,
                    1,
                    self.acc_r as int,
                ) as u64,
                acc_c: rlc_acc_spec(
                    row.bytes@.subrange(7, 7 + spec_branch_meta_count(row.bytes@, false)),
                    0,
                    1,
                    self.acc_r as int,
                ) as u64,
                acc_mult_c: rlc_mult_spec(
                    spec_branch_meta_count(row.bytes@, false) as nat,
                    1,
                    self.acc_r as int,
                ) as u64,
                nibbles_num: (if old(pv).nibbles_num + 1 <= usize::MAX {
                    old(pv).nibbles_num + 1
                } else {
                    usize::MAX as int
                }) as usize,
                ..*old(pv)
            }),
            *final(assigned) == (AssignedRow {
                acc_s: final(pv).acc_s,
                acc_mult_s: final(pv).acc_mult_s,
                acc_c: final(pv).acc_c,
                acc_mult_c: final(pv).acc_mult_c,
                ..*old(assigned)
            }),
    {
        pv.modified_node = row.get_byte(BRANCH_0_KEY_POS);
        pv.is_branch_s_placeholder = row.get_byte(IS_BRANCH_S_PLACEHOLDER_POS) == 1;
        pv.is_branch_c_placeholder = row.get_byte(IS_BRANCH_C_PLACEHOLDER_POS) == 1;
        pv.drifted_pos = row.get_byte(DRIFTED_POS);
        pv.is_extension_node = crate::helpers::get_is_extension_node(row);
        pv.is_even = row.get_byte(23) == 1 || row.get_byte(24) == 1;
        pv.is_odd = row.get_byte(25) == 1 || row.get_byte(26) == 1 || row.get_byte(21) == 1
            || row.get_byte(22) == 1;
        pv.node_index = 0;
        pv.rlc1 = 0;
        pv.rlc2 = 0;
        pv.key_rlc_prev = pv.key_rlc;
        pv.key_rlc_mult_prev = pv.key_rlc_mult;
        let s_count: usize = if row.get_byte(0) == 1 {
            2
        } else if row.get_byte(1) == 1 {
            3
        } else {
            1
        };
        let c_count: usize = if row.get_byte(2) == 1 {
            2
        } else if row.get_byte(3) == 1 {
            3
        } else {
            1
        };
        let (acc_s, acc_mult_s) = fold_window(&row.bytes, 4, s_count, 0, 1, self.acc_r);
        let (acc_c, acc_mult_c) = fold_window(&row.bytes, 7, c_count, 0, 1, self.acc_r);
        pv.acc_s = acc_s;
        pv.acc_mult_s = acc_mult_s;
        pv.acc_c = acc_c;
        pv.acc_mult_c = acc_mult_c;
        pv.nibbles_num = pv.nibbles_num.saturating_add(1);
        self.assign_acc(assigned, acc_s, acc_mult_s, acc_c, acc_mult_c);
    }

    /// Folds one branch child row: extends both node-encoding accumulators
    /// over the child's window, captures the modified child's folded hash
    /// and the nil marker, applies the key-accumulation step on the first
    /// child, and advances the child index.
    #[verifier::rlimit(100)]
    pub fn assign_branch_child(
        &self,
        pv: &mut ProofValues,
        row: &MptWitnessRow,
        assigned: &mut AssignedRow,
    )
        requires
            self.wf(),
            row.well_formed(),
            old(pv).wf(),
        ensures
            final(pv).wf(),
            ({
                let r = self.acc_r as int;
                let ws = spec_child_window_s(row.bytes@);
                let wc = spec_child_window_c(row.bytes@);
                let stepped = old(pv).node_index == 0 && !old(pv).is_extension_node;
                let captured = old(pv).node_index == old(pv).modified_node;
                let nib16 = fmul_spec(
                    16 * old(pv).modified_node as int,
                    old(pv).key_rlc_mult as int,
                );
                let nib1 = fmul_spec(old(pv).modified_node as int, old(pv).key_rlc_mult as int);
                &&& final(pv).acc_s == rlc_acc_spec(
                    row.bytes@.subrange(ws.0, ws.0 + ws.1),
                    old(pv).acc_s as int,
                    old(pv).acc_mult_s as int,
                    r,
                )
                &&& final(pv).acc_mult_s == rlc_mult_spec(
                    ws.1 as nat,
                    old(pv).acc_mult_s as int,
                    r,
                )
                &&& final(pv).acc_c == rlc_acc_spec(
                    row.bytes@.subrange(wc.0, wc.0 + wc.1),
                    old(pv).acc_c as int,
                    old(pv).acc_mult_c as int,
                    r,
                )
                &&& final(pv).acc_mult_c == rlc_mult_spec(
                    wc.1 as nat,
                    old(pv).acc_mult_c as int,
                    r,
                )
                &&& final(pv).rlc1 == if captured {
                    rlc_acc_spec(row.bytes@.subrange(2, 34), old(pv).rlc1 as int, 1, r)
                } else {
                    old(pv).rlc1 as int
                }
                &&& final(pv).rlc2 == if captured {
                    rlc_acc_spec(row.bytes@.subrange(36, 68), old(pv).rlc2 as int, 1, r)
                } else {
                    old(pv).rlc2 as int
                }
                &&& final(pv).key_rlc == if stepped {
                    if old(pv).key_rlc_sel {
                        fadd_spec(old(pv).key_rlc as int, nib16)
                    } else {
                        fadd_spec(old(pv).key_rlc as int, nib1)
                    }
                } else {
                    old(pv).key_rlc as int
                }
                &&& final(pv).key_rlc_mult == if stepped {
                    if old(pv).key_rlc_sel {
                        old(pv).key_rlc_mult as int
                    } else {
                        fmul_spec(old(pv).key_rlc_mult as int, r)
                    }
                } else {
                    old(pv).key_rlc_mult as int
                }
                &&& final(pv).key_rlc_sel == if stepped {
                    !old(pv).key_rlc_sel
                } else {
                    old(pv).key_rlc_sel
                }
                &&& final(pv).node_index == if old(pv).node_index < 255 {
                    old(pv).node_index + 1
                } else {
                    old(pv).node_index as int
                }
                &&& final(pv).modified_node == old(pv).modified_node
                &&& final(pv).is_extension_node == old(pv).is_extension_node
                &&& final(pv).is_branch_s_placeholder == old(pv).is_branch_s_placeholder
                &&& final(pv).is_branch_c_placeholder == old(pv).is_branch_c_placeholder
                &&& final(pv).key_rlc_prev == old(pv).key_rlc_prev
                &&& final(pv).key_rlc_mult_prev == old(pv).key_rlc_mult_prev
                &&& final(pv).nibbles_num == old(pv).nibbles_num
                &&& final(pv).s_mod_node_hash_rlc == old(pv).s_mod_node_hash_rlc
                &&& final(pv).c_mod_node_hash_rlc == old(pv).c_mod_node_hash_rlc
                &&& final(pv).acc_account_s == old(pv).acc_account_s
                &&& final(pv).acc_mult_account_s == old(pv).acc_mult_account_s
                &&& final(pv).acc_account_c == old(pv).acc_account_c
                &&& final(pv).acc_mult_account_c == old(pv).acc_mult_account_c
                &&& final(pv).acc_nonce_balance_s == old(pv).acc_nonce_balance_s
                &&& final(pv).acc_mult_nonce_balance_s == old(pv).acc_mult_nonce_balance_s
                &&& final(pv).acc_nonce_balance_c == old(pv).acc_nonce_balance_c
                &&& final(pv).acc_mult_nonce_balance_c == old(pv).acc_mult_nonce_balance_c
                &&& final(pv).extension_node_rlc == old(pv).extension_node_rlc
                &&& final(pv).mult_diff == old(pv).mult_diff
                &&& final(pv).drifted_pos == old(pv).drifted_pos
                &&& final(pv).rlp_len_rem_s == old(pv).rlp_len_rem_s
                &&& final(pv).rlp_len_rem_c == old(pv).rlp_len_rem_c
                &&& final(pv).is_even == old(pv).is_even
                &&& final(pv).is_odd == old(pv).is_odd
                &&& final(pv).is_short == old(pv).is_short
                &&& final(pv).is_long == old(pv).is_long
                &&& final(pv).nonce_value_s == old(pv).nonce_value_s
                &&& final(pv).balance_value_s == old(pv).balance_value_s
                &&& final(pv).before_account_leaf == old(pv).before_account_leaf
                &&& final(assigned).acc_s == final(pv).acc_s
                &&& final(assigned).acc_mult_s == final(pv).acc_mult_s
                &&& final(assigned).acc_c == final(pv).acc_c
                &&& final(assigned).acc_mult_c == final(pv).acc_mult_c
                &&& final(assigned).s_mod_node_rlc == if captured {
                    final(pv).rlc1
                } else {
                    old(assigned).s_mod_node_rlc
                }
                &&& final(assigned).c_mod_node_rlc == if captured {
                    final(pv).rlc2
                } else {
                    old(assigned).c_mod_node_rlc
                }
                &&& final(assigned).key_rlc == final(pv).key_rlc
                &&& final(assigned).key_rlc_mult == final(pv).key_rlc_mult
                &&& final(assigned).sel1 == if captured && row.bytes@[1] == 0 && row.bytes@[2]
                    == 128 {
                    1u64
                } else {
                    old(assigned).sel1
                }
                &&& final(assigned).sel2 == if captured && row.bytes@[35] == 0 && row.bytes@[36]
                    == 128 {
                    1u64
                } else {
                    old(assigned).sel2
                }
                &&& final(assigned).key_rlc_prev == old(assigned).key_rlc_prev
                &&& final(assigned).key_rlc_mult_prev == old(assigned).key_rlc_mult_prev
                &&& final(assigned).mult_diff == old(assigned).mult_diff
                &&& final(assigned).mult_diff2 == old(assigned).mult_diff2
            }),
    {
        let b1 = row.get_byte(1);
        let b2 = row.get_byte(2);
        let b35 = row.get_byte(35);
        let b36 = row.get_byte(36);
        let captured = pv.node_index == pv.modified_node;
        if captured {
            let (r1, _m1) = fold_window(&row.bytes, S_START, HASH_WIDTH, pv.rlc1, 1, self.acc_r);
            let (r2, _m2) = fold_window(&row.bytes, C_START, HASH_WIDTH, pv.rlc2, 1, self.acc_r);
            pv.rlc1 = r1;
            pv.rlc2 = r2;
            assigned.s_mod_node_rlc = r1;
            assigned.c_mod_node_rlc = r2;
            if b1 == 0 && b2 == 128 {
                assigned.sel1 = 1;
            }
            if b35 == 0 && b36 == 128 {
                assigned.sel2 = 1;
            }
        }
        let (start_s, len_s): (usize, usize) = if b1 == 0 && b2 == 128 {
            (2, 1)
        } else if b1 == 160 {
            (1, 33)
        } else if b2 >= 192 && b2 <= 223 {
            (2, (b2 - 192) as usize + 1)
        } else {
            (2, 0)
        };
        let (start_c, len_c): (usize, usize) = if b35 == 0 && b36 == 128 {
            (36, 1)
        } else if b35 == 160 {
            (35, 33)
        } else if b36 >= 192 && b36 <= 223 {
            (36, (b36 - 192) as usize + 1)
        } else {
            (36, 0)
        };
        let (acc_s, acc_mult_s) = fold_window(
            &row.bytes,
            start_s,
            len_s,
            pv.acc_s,
            pv.acc_mult_s,
            self.acc_r,
        );
        let (acc_c, acc_mult_c) = fold_window(
            &row.bytes,
            start_c,
            len_c,
            pv.acc_c,
            pv.acc_mult_c,
            self.acc_r,
        );
        pv.acc_s = acc_s;
        pv.acc_mult_s = acc_mult_s;
        pv.acc_c = acc_c;
        pv.acc_mult_c = acc_mult_c;
        if pv.node_index == 0 && !pv.is_extension_node {
            let (krlc, kmult, ksel) = key_rlc_branch_step(
                pv.key_rlc,
                pv.key_rlc_mult,
                pv.key_rlc_sel,
                pv.modified_node,
                self.acc_r,
            );
            pv.key_rlc = krlc;
            pv.key_rlc_mult = kmult;
            pv.key_rlc_sel = ksel;
        }
        assigned.acc_s = acc_s;
        assigned.acc_mult_s = acc_mult_s;
        assigned.acc_c = acc_c;
        assigned.acc_mult_c = acc_mult_c;
        assigned.key_rlc = pv.key_rlc;
        assigned.key_rlc_mult = pv.key_rlc_mult;
        if pv.node_index < 255 {
            pv.node_index = pv.node_index + 1;
        }
    }

    /// Derives the accumulator and key columns of a storage leaf key row:
    /// shape flags, the leaf-encoding fold, the snapshot columns, and the
    /// key RLC the leaf completes.
    pub fn assign_storage_leaf_key(
        &self,
        pv: &mut ProofValues,
        row: &MptWitnessRow,
        assigned: &mut AssignedRow,
        is_s: bool,
    )
        requires
            self.wf(),
            row.well_formed(),
            old(pv).wf(),
        ensures
            final(pv).wf(),
            *final(pv) == (ProofValues {
                acc_s: final(pv).acc_s,
                acc_mult_s: final(pv).acc_mult_s,
                ..*old(pv)
            }),
            ({
                let r = self.acc_r as int;
                let shape = spec_storage_leaf_shape(row.bytes@);
                let len = spec_storage_leaf_key_len(row.bytes@);
                // A leaf under a placeholder branch resumes its key fold
                // from the snapshot of the level above the placeholder.
                let under_placeholder = if is_s {
                    old(pv).is_branch_s_placeholder
                } else {
                    old(pv).is_branch_c_placeholder
                };
                let k0 = if under_placeholder {
                    old(pv).key_rlc_prev
                } else {
                    old(pv).key_rlc
                };
                let m0 = if under_placeholder {
                    old(pv).key_rlc_mult_prev
                } else {
                    old(pv).key_rlc_mult
                };
                &&& final(pv).acc_s == rlc_acc_spec(row.bytes@.subrange(0, len), 0, 1, r)
                &&& final(pv).acc_mult_s == rlc_mult_spec(len as nat, 1, r)
                &&& final(assigned).acc_s == final(pv).acc_s
                &&& final(assigned).acc_mult_s == final(pv).acc_mult_s
                &&& final(assigned).s_mod_node_rlc == (match shape {
                    LeafShape::Long => 1u64,
                    LeafShape::Short => 0u64,
                    LeafShape::LastLevel => 1u64,
                    LeafShape::OneNibble => 0u64,
                })
                &&& final(assigned).c_mod_node_rlc == (match shape {
                    LeafShape::Long => 0u64,
                    LeafShape::Short => 1u64,
                    LeafShape::LastLevel => 1u64,
                    LeafShape::OneNibble => 0u64,
                })
                &&& final(assigned).key_rlc_prev == old(pv).key_rlc_prev
                &&& final(assigned).key_rlc_mult_prev == old(pv).key_rlc_mult_prev
                &&& shape == LeafShape::LastLevel ==> final(assigned).key_rlc == k0
                &&& shape == LeafShape::OneNibble ==> final(assigned).key_rlc == fadd_spec(
                    k0 as int,
                    fmul_spec(fsub_spec(row.bytes@[1] as int, 48), m0 as int),
                )
                &&& (shape == LeafShape::Long && len > 0 && (row.bytes@[3] == 32 || row.bytes@[3]
                    >= 48)) ==> final(assigned).key_rlc == spec_leaf_key_fold(
                    row.bytes@,
                    2,
                    k0 as int,
                    m0 as int,
                    r,
                )
                &&& (shape == LeafShape::Short && len > 0 && (row.bytes@[2] == 32 || row.bytes@[2]
                    >= 48)) ==> final(assigned).key_rlc == spec_leaf_key_fold(
                    row.bytes@,
                    1,
                    k0 as int,
                    m0 as int,
                    r,
                )
                &&& (shape == LeafShape::Long && !(len > 0 && (row.bytes@[3] == 32
                    || row.bytes@[3] >= 48))) ==> final(assigned).key_rlc == old(assigned).key_rlc
                &&& (shape == LeafShape::Short && !(len > 0 && (row.bytes@[2] == 32
                    || row.bytes@[2] >= 48))) ==> final(assigned).key_rlc == old(assigned).key_rlc
                &&& final(assigned).acc_c == old(assigned).acc_c
                &&& final(assigned).acc_mult_c == old(assigned).acc_mult_c
                &&& final(assigned).key_rlc_mult == old(assigned).key_rlc_mult
                &&& final(assigned).mult_diff == old(assigned).mult_diff
                &&& final(assigned).mult_diff2 == old(assigned).mult_diff2
                &&& final(assigned).sel1 == old(assigned).sel1
                &&& final(assigned).sel2 == old(assigned).sel2
            }),
    {
        let b1 = row.get_byte(1);
        let b2 = row.get_byte(2);
        let b3 = row.get_byte(3);
        let shape: LeafShape = if row.get_byte(0) == 248 {
            LeafShape::Long
        } else if b1 == 32 {
            LeafShape::LastLevel
        } else if b1 < 128 {
            LeafShape::OneNibble
        } else {
            LeafShape::Short
        };
        let len: usize = match shape {
            LeafShape::Long => if 129 <= b2 && b2 <= 161 {
                3 + (b2 - 128) as usize
            } else {
                0
            },
            LeafShape::Short => if 129 <= b1 && b1 <= 162 {
                2 + (b1 - 128) as usize
            } else {
                0
            },
            LeafShape::LastLevel => 2,
            LeafShape::OneNibble => 2,
        };
        let (acc, mult) = fold_window(&row.bytes, 0, len, 0, 1, self.acc_r);
        pv.acc_s = acc;
        pv.acc_mult_s = mult;
        self.assign_long_short(assigned, shape);
        assigned.acc_s = acc;
        assigned.acc_mult_s = mult;
        assigned.key_rlc_prev = pv.key_rlc_prev;
        assigned.key_rlc_mult_prev = pv.key_rlc_mult_prev;
        let under_placeholder = if is_s {
            pv.is_branch_s_placeholder
        } else {
            pv.is_branch_c_placeholder
        };
        let k0: u64 = if under_placeholder {
            pv.key_rlc_prev
        } else {
            pv.key_rlc
        };
        let m0: u64 = if under_placeholder {
            pv.key_rlc_mult_prev
        } else {
            pv.key_rlc_mult
        };
        match shape {
            LeafShape::LastLevel => {
                assigned.key_rlc = k0;
            },
            LeafShape::OneNibble => {
                assigned.key_rlc = fadd(k0, fmul(crate::field::fsub(b1 as u64, 48), m0));
            },
            LeafShape::Long => {
                if len > 0 && (b3 == 32 || b3 >= 48) {
                    let mut krlc = k0;
                    let mut kmult = m0;
                    self.compute_key_rlc(&row.bytes, &mut krlc, &mut kmult, 2);
                    assigned.key_rlc = krlc;
                }
            },
            LeafShape::Short => {
                if len > 0 && (b2 == 32 || b2 >= 48) {
                    let mut krlc = k0;
                    let mut kmult = m0;
                    self.compute_key_rlc(&row.bytes, &mut krlc, &mut kmult, 1);
                    assigned.key_rlc = krlc;
                }
            },
        }
    }

    /// Derives the accumulator and shape columns of a drifted (relocated)
    /// leaf row; the key column of such a row is re-derived at its new
    /// position by the companion assertions, not here.
    pub fn assign_drifted_leaf(&self, row: &MptWitnessRow, assigned: &mut AssignedRow)
        requires
            self.wf(),
            row.well_formed(),
        ensures
            ({
                let r = self.acc_r as int;
                let len = spec_storage_leaf_key_len(row.bytes@);
                &&& final(assigned).acc_s == rlc_acc_spec(row.bytes@.subrange(0, len), 0, 1, r)
                &&& final(assigned).acc_mult_s == rlc_mult_spec(len as nat, 1, r)
                &&& *final(assigned) == (AssignedRow {
                    acc_s: final(assigned).acc_s,
                    acc_mult_s: final(assigned).acc_mult_s,
                    ..*old(assigned)
                })
            }),
    {
        let b1 = row.get_byte(1);
        let b2 = row.get_byte(2);
        let shape: LeafShape = if row.get_byte(0) == 248 {
            LeafShape::Long
        } else if b1 == 32 {
            LeafShape::LastLevel
        } else if b1 < 128 {
            LeafShape::OneNibble
        } else {
            LeafShape::Short
        };
        let len: usize = match shape {
            LeafShape::Long => if 129 <= b2 && b2 <= 161 {
                3 + (b2 - 128) as usize
            } else {
                0
            },
            LeafShape::Short => if 129 <= b1 && b1 <= 162 {
                2 + (b1 - 128) as usize
            } else {
                0
            },
            LeafShape::LastLevel => 2,
            LeafShape::OneNibble => 2,
        };
        let (acc, mult) = fold_window(&row.bytes, 0, len, 0, 1, self.acc_r);
        assigned.acc_s = acc;
        assigned.acc_mult_s = mult;
    }

    /// Derives the columns of an account leaf key row: the leaf-encoding
    /// fold into the account accumulator pair and the address RLC the leaf
    /// completes.
    pub fn assign_account_leaf_key(
        &self,
        pv: &mut ProofValues,
        row: &MptWitnessRow,
        assigned: &mut AssignedRow,
        is_s: bool,
    )
        requires
            self.wf(),
            row.well_formed(),
            old(pv).wf(),
        ensures
            final(pv).wf(),
            ({
                let r = self.acc_r as int;
                let b2 = row.bytes@[2];
                let ok_shape = 129 <= b2 <= 161 && (row.bytes@[3] == 32 || row.bytes@[3] >= 48);
                let len = 3 + b2 - 128;
                &&& !ok_shape ==> *final(pv) == *old(pv) && *final(assigned) == *old(assigned)
                &&& ok_shape ==> ({
                    let acc = rlc_acc_spec(row.bytes@.subrange(0, len), 0, 1, r);
                    let mult = rlc_mult_spec(len as nat, 1, r);
                    &&& *final(pv) == (ProofValues {
                        acc_account_s: if is_s {
                            acc as u64
                        } else {
                            old(pv).acc_account_s
                        },
                        acc_mult_account_s: if is_s {
                            mult as u64
                        } else {
                            old(pv).acc_mult_account_s
                        },
                        acc_account_c: if is_s {
                            old(pv).acc_account_c
                        } else {
                            acc as u64
                        },
                        acc_mult_account_c: if is_s {
                            old(pv).acc_mult_account_c
                        } else {
                            mult as u64
                        },
                        ..*old(pv)
                    })
                    &&& final(assigned).acc_s == acc
                    &&& final(assigned).acc_mult_s == mult
                    &&& final(assigned).key_rlc == spec_leaf_key_fold(
                        row.bytes@,
                        2,
                        old(pv).key_rlc as int,
                        old(pv).key_rlc_mult as int,
                        r,
                    )
                    &&& *final(assigned) == (AssignedRow {
                        acc_s: final(assigned).acc_s,
                        acc_mult_s: final(assigned).acc_mult_s,
                        key_rlc: final(assigned).key_rlc,
                        ..*old(assigned)
                    })
                })
            }),
    {
        let b2 = row.get_byte(2);
        let b3 = row.get_byte(3);
        if 129 <= b2 && b2 <= 161 && (b3 == 32 || b3 >= 48) {
            let len: usize = 3 + (b2 - 128) as usize;
            let (acc, mult) = fold_window(&row.bytes, 0, len, 0, 1, self.acc_r);
            if is_s {
                pv.acc_account_s = acc;
                pv.acc_mult_account_s = mult;
            } else {
                pv.acc_account_c = acc;
                pv.acc_mult_account_c = mult;
            }
            let mut krlc = pv.key_rlc;
            let mut kmult = pv.key_rlc_mult;
            self.compute_key_rlc(&row.bytes, &mut krlc, &mut kmult, 2);
            assigned.acc_s = acc;
            assigned.acc_mult_s = mult;
            assigned.key_rlc = krlc;
        }
    }

    /// Derives the columns of an account nonce/balance row: the stored
    /// nonce and balance RLCs, the two length-to-multiplier bridges, and
    /// the whole-leaf accumulator extended over this row.
    #[verifier::rlimit(100)]
    pub fn assign_nonce_balance(
        &self,
        pv: &mut ProofValues,
        row: &MptWitnessRow,
        assigned: &mut AssignedRow,
        is_s: bool,
    )
        requires
            self.wf(),
            row.well_formed(),
            old(pv).wf(),
        ensures
            final(pv).wf(),
            ({
                let r = self.acc_r as int;
                let bytes = row.bytes@;
                let nonce_long = spec_value_is_long(bytes[2]);
                let balance_long = spec_value_is_long(bytes[36]);
                let acc_prev = if is_s {
                    old(pv).acc_account_s as int
                } else {
                    old(pv).acc_account_c as int
                };
                let mult_prev = if is_s {
                    old(pv).acc_mult_account_s as int
                } else {
                    old(pv).acc_mult_account_c as int
                };
                let m5 = fmul_spec(
                    fmul_spec(fmul_spec(fmul_spec(fmul_spec(mult_prev, r), r), r), r),
                    r,
                );
                let mdn = if nonce_long {
                    fpow_spec(r, (bytes[2] - 128 + 5) as nat)
                } else {
                    self.acc_r as int
                };
                let after = if nonce_long {
                    fmul_spec(mult_prev, mdn)
                } else {
                    m5
                };
                let mdb = if balance_long {
                    fpow_spec(r, (bytes[36] - 128 + 1) as nat)
                } else {
                    self.acc_r as int
                };
                let fin = fmul_spec(after, mdb);
                let nst = if nonce_long {
                    nonce_value_long_rlc_spec(bytes, r)
                } else {
                    bytes[2] as int
                };
                let bst = if balance_long {
                    balance_value_long_rlc_spec(bytes, r)
                } else {
                    bytes[36] as int
                };
                let acc = nonce_balance_acc_spec(
                    bytes,
                    acc_prev,
                    mult_prev,
                    after,
                    nonce_long,
                    balance_long,
                    r,
                );
                &&& final(assigned).s_mod_node_rlc == nst
                &&& final(assigned).c_mod_node_rlc == bst
                &&& final(assigned).acc_s == acc
                &&& final(assigned).acc_mult_s == fin
                &&& final(assigned).acc_mult_c == after
                &&& final(assigned).mult_diff == mdn
                &&& final(assigned).mult_diff2 == mdb
                &&& !is_s ==> final(assigned).sel1 == old(pv).nonce_value_s
                &&& !is_s ==> final(assigned).sel2 == old(pv).balance_value_s
                &&& is_s ==> final(assigned).sel1 == old(assigned).sel1
                &&& is_s ==> final(assigned).sel2 == old(assigned).sel2
                &&& final(assigned).acc_c == old(assigned).acc_c
                &&& final(assigned).key_rlc == old(assigned).key_rlc
                &&& final(assigned).key_rlc_mult == old(assigned).key_rlc_mult
                &&& final(assigned).key_rlc_prev == old(assigned).key_rlc_prev
                &&& final(assigned).key_rlc_mult_prev == old(assigned).key_rlc_mult_prev
                &&& *final(pv) == (ProofValues {
                    acc_nonce_balance_s: if is_s {
                        acc as u64
                    } else {
                        old(pv).acc_nonce_balance_s
                    },
                    acc_mult_nonce_balance_s: if is_s {
                        fin as u64
                    } else {
                        old(pv).acc_mult_nonce_balance_s
                    },
                    acc_nonce_balance_c: if is_s {
                        old(pv).acc_nonce_balance_c
                    } else {
                        acc as u64
                    },
                    acc_mult_nonce_balance_c: if is_s {
                        old(pv).acc_mult_nonce_balance_c
                    } else {
                        fin as u64
                    },
                    nonce_value_s: if is_s {
                        nst as u64
                    } else {
                        old(pv).nonce_value_s
                    },
                    balance_value_s: if is_s {
                        bst as u64
                    } else {
                        old(pv).balance_value_s
                    },
                    ..*old(pv)
                })
            }),
    {
        let r = self.acc_r;
        let b2 = row.get_byte(2);
        let b36 = row.get_byte(36);
        let nonce_long = b2 > 128;
        let balance_long = b36 > 128;
        let (nonce_vl, _m1) = fold_window(&row.bytes, 3, 31, 0, 1, r);
        let (balance_vl, _m2) = fold_window(&row.bytes, 37, 31, 0, 1, r);
        let nonce_stored: u64 = if nonce_long {
            nonce_vl
        } else {
            b2 as u64
        };
        let balance_stored: u64 = if balance_long {
            balance_vl
        } else {
            b36 as u64
        };
        let acc_prev: u64 = if is_s {
            pv.acc_account_s
        } else {
            pv.acc_account_c
        };
        let mult_prev: u64 = if is_s {
            pv.acc_mult_account_s
        } else {
            pv.acc_mult_account_c
        };
        let m1 = fmul(mult_prev, r);
        let m2 = fmul(m1, r);
        let m3 = fmul(m2, r);
        let m4 = fmul(m3, r);
        let m5 = fmul(m4, r);
        let mult_diff_nonce: u64 = if nonce_long {
            fpow(r, (b2 - 128) as u64 + 5)
        } else {
            r
        };
        let acc_mult_after_nonce: u64 = if nonce_long {
            fmul(mult_prev, mult_diff_nonce)
        } else {
            m5
        };
        let mult_diff_balance: u64 = if balance_long {
            fpow(r, (b36 - 128) as u64 + 1)
        } else {
            r
        };
        let acc_mult_final = fmul(acc_mult_after_nonce, mult_diff_balance);
        let nonce_rlc: u64 = if nonce_long {
            fadd(b2 as u64, fmul(nonce_vl, r))
        } else {
            b2 as u64
        };
        let balance_rlc: u64 = if balance_long {
            fadd(b36 as u64, fmul(balance_vl, r))
        } else {
            b36 as u64
        };
        let acc = fadd(
            fadd(
                fadd(
                    fadd(
                        fadd(
                            fadd(acc_prev, fmul(row.get_byte(0) as u64, mult_prev)),
                            fmul(row.get_byte(1) as u64, m1),
                        ),
                        fmul(row.get_byte(34) as u64, m2),
                    ),
                    fmul(row.get_byte(35) as u64, m3),
                ),
                fmul(nonce_rlc, m4),
            ),
            fmul(balance_rlc, acc_mult_after_nonce),
        );
        if !is_s {
            assigned.sel1 = pv.nonce_value_s;
            assigned.sel2 = pv.balance_value_s;
        }
        if is_s {
            pv.acc_nonce_balance_s = acc;
            pv.acc_mult_nonce_balance_s = acc_mult_final;
            pv.nonce_value_s = nonce_stored;
            pv.balance_value_s = balance_stored;
        } else {
            pv.acc_nonce_balance_c = acc;
            pv.acc_mult_nonce_balance_c = acc_mult_final;
        }
        assigned.s_mod_node_rlc = nonce_stored;
        assigned.c_mod_node_rlc = balance_stored;
        assigned.acc_s = acc;
        assigned.acc_mult_s = acc_mult_final;
        assigned.acc_mult_c = acc_mult_after_nonce;
        assigned.mult_diff = mult_diff_nonce;
        assigned.mult_diff2 = mult_diff_balance;
    }

    /// Derives the columns of an account storage-root/codehash row: the
    /// folded storage root and code hash, and the whole-leaf accumulator
    /// extended over this row.
    pub fn assign_storage_codehash(
        &self,
        pv: &mut ProofValues,
        row: &MptWitnessRow,
        assigned: &mut AssignedRow,
        is_s: bool,
    )
        requires
            self.wf(),
            row.well_formed(),
            old(pv).wf(),
        ensures
            final(pv).wf(),
            *final(pv) == *old(pv),
            ({
                let r = self.acc_r as int;
                let acc_prev = if is_s {
                    old(pv).acc_nonce_balance_s as int
                } else {
                    old(pv).acc_nonce_balance_c as int
                };
                let mult_prev = if is_s {
                    old(pv).acc_mult_nonce_balance_s as int
                } else {
                    old(pv).acc_mult_nonce_balance_c as int
                };
                let acc1 = rlc_acc_spec(row.bytes@.subrange(1, 34), acc_prev, mult_prev, r);
                let mult1 = rlc_mult_spec(33, mult_prev, r);
                &&& final(assigned).s_mod_node_rlc == bytes_rlc_spec(
                    row.bytes@.subrange(2, 34),
                    r,
                )
                &&& final(assigned).c_mod_node_rlc == bytes_rlc_spec(
                    row.bytes@.subrange(36, 68),
                    r,
                )
                &&& final(assigned).acc_s == rlc_acc_spec(
                    row.bytes@.subrange(35, 68),
                    acc1,
                    mult1,
                    r,
                )
                &&& final(assigned).acc_mult_s == rlc_mult_spec(33, mult1, r)
                &&& *final(assigned) == (AssignedRow {
                    s_mod_node_rlc: final(assigned).s_mod_node_rlc,
                    c_mod_node_rlc: final(assigned).c_mod_node_rlc,
                    acc_s: final(assigned).acc_s,
                    acc_mult_s: final(assigned).acc_mult_s,
                    ..*old(assigned)
                })
            }),
    {
        let (root_rlc, _m1) = fold_window(&row.bytes, 2, 32, 0, 1, self.acc_r);
        let (codehash_rlc, _m2) = fold_window(&row.bytes, 36, 32, 0, 1, self.acc_r);
        let acc_prev: u64 = if is_s {
            pv.acc_nonce_balance_s
        } else {
            pv.acc_nonce_balance_c
        };
        let mult_prev: u64 = if is_s {
            pv.acc_mult_nonce_balance_s
        } else {
            pv.acc_mult_nonce_balance_c
        };
        let (acc1, mult1) = fold_window(&row.bytes, 1, 33, acc_prev, mult_prev, self.acc_r);
        let (acc2, mult2) = fold_window(&row.bytes, 35, 33, acc1, mult1, self.acc_r);
        assigned.s_mod_node_rlc = root_rlc;
        assigned.c_mod_node_rlc = codehash_rlc;
        assigned.acc_s = acc2;
        assigned.acc_mult_s = mult2;
    }

    /// Derives the columns of a storage leaf value row: the value's shape
    /// flags and the leaf-encoding accumulator extended over the value
    /// bytes.
    pub fn assign_leaf_value(
        &self,
        pv: &mut ProofValues,
        row: &MptWitnessRow,
        assigned: &mut AssignedRow,
    )
        requires
            self.wf(),
            row.well_formed(),
            old(pv).wf(),
        ensures
            final(pv).wf(),
            *final(pv) == *old(pv),
            ({
                let r = self.acc_r as int;
                let long = spec_value_is_long(row.bytes@[0]) && row.bytes@[0] < 184;
                let len = if long {
                    1 + row.bytes@[0] - 128
                } else {
                    1int
                };
                &&& final(assigned).s_mod_node_rlc == (if long {
                    1u64
                } else {
                    0u64
                })
                &&& final(assigned).c_mod_node_rlc == (if long {
                    0u64
                } else {
                    1u64
                })
                &&& final(assigned).acc_s == rlc_acc_spec(
                    row.bytes@.subrange(0, len),
                    old(pv).acc_s as int,
                    old(pv).acc_mult_s as int,
                    r,
                )
                &&& final(assigned).acc_mult_s == rlc_mult_spec(
                    len as nat,
                    old(pv).acc_mult_s as int,
                    r,
                )
                &&& *final(assigned) == (AssignedRow {
                    s_mod_node_rlc: final(assigned).s_mod_node_rlc,
                    c_mod_node_rlc: final(assigned).c_mod_node_rlc,
                    acc_s: final(assigned).acc_s,
                    acc_mult_s: final(assigned).acc_mult_s,
                    ..*old(assigned)
                })
            }),
    {
        let b0 = row.get_byte(0);
        let long = b0 > 128 && b0 < 184;
        let len: usize = if long {
            1 + (b0 - 128) as usize
        } else {
            1
        };
        let (acc, mult) = fold_window(&row.bytes, 0, len, pv.acc_s, pv.acc_mult_s, self.acc_r);
        self.assign_long_short(
            assigned,
            if long {
                LeafShape::Long
            } else {
                LeafShape::Short
            },
        );
        assigned.acc_s = acc;
        assigned.acc_mult_s = mult;
    }

    /// Assigns one classified row: the executable mirror of one
    /// `spec_assign_step` of the fold.
    #[verifier::rlimit(100)]
    /// Assigns a branch-family row (init, child or extension).
    #[verifier::rlimit(100)]
    fn assign_row_kind_branchish(
        &self,
        witness: &Vec<MptWitnessRow>,
        ind: usize,
        pv: &mut ProofValues,
    ) -> (a: AssignedRow)
        requires
            self.wf(),
            old(pv).wf(),
            ind < witness@.len(),
            witness@[ind as int].well_formed(),
            ({
                let t = witness@[ind as int].spec_type();
                ||| t == MptWitnessRowType::InitBranch
                ||| t == MptWitnessRowType::BranchChild
                ||| t == MptWitnessRowType::ExtensionNodeS
                ||| t == MptWitnessRowType::ExtensionNodeC
            }),
        ensures
            final(pv).wf(),
            ({
                let t = spec_assign_dispatch(witness@, self.acc_r as int, ind as int, *old(pv));
                &&& *final(pv) == t.0
                &&& a == t.1
            }),
    {
        let row = &witness[ind];
        let mut assigned = AssignedRow::new();
        let typ = row.get_type();
        if typ == MptWitnessRowType::InitBranch {
            proof {
                reveal(spec_step_branch_init);
            }
            self.assign_branch_init(pv, row, &mut assigned);
        } else if typ == MptWitnessRowType::BranchChild {
            proof {
                reveal(spec_step_branch_child);
            }
            self.assign_branch_child(pv, row, &mut assigned);
        } else if typ == MptWitnessRowType::ExtensionNodeS || typ
            == MptWitnessRowType::ExtensionNodeC {
            proof {
                reveal(spec_step_extension);
            }
            let b0 = row.get_byte(0);
            let b1 = row.get_byte(1);
            let b2 = row.get_byte(2);
            let is_s = typ == MptWitnessRowType::ExtensionNodeS;
            if is_s && pv.is_extension_node {
                // The nibbles this extension segment consumes;
                // in an encoding over 55 bytes the segment
                // length stands one byte later.
                let len_byte: u8 = if b0 < 248 {
                    b1
                } else {
                    b2
                };
                let delta: usize = if b1 <= 32 {
                    1
                } else if pv.is_even && len_byte >= 129 && len_byte <= 160 {
                    ((len_byte - 129) as usize) * 2
                } else if pv.is_odd && len_byte >= 129 && len_byte <= 160 {
                    ((len_byte - 128) as usize) * 2 - 1
                } else {
                    0
                };
                pv.nibbles_num = pv.nibbles_num.saturating_add(delta);
            }
            if (b1 <= 32 || (b1 >= 128 && b1 <= 160)) && (b0 < 248 || (b2 >= 128 && b2
                <= 159)) {
                let ext = crate::extension_node::ExtensionNodeConfig::configure(
                    self.acc_r,
                    is_s,
                );
                ext.assign(self, pv, row, &mut assigned, is_s);
            }
        }
        assigned
    }

    /// Assigns a storage-leaf-family row.
    #[verifier::rlimit(100)]
    fn assign_row_kind_storage_leaf(
        &self,
        witness: &Vec<MptWitnessRow>,
        ind: usize,
        pv: &mut ProofValues,
    ) -> (a: AssignedRow)
        requires
            self.wf(),
            old(pv).wf(),
            ind < witness@.len(),
            witness@[ind as int].well_formed(),
            ({
                let t = witness@[ind as int].spec_type();
                ||| t == MptWitnessRowType::StorageLeafSKey
                ||| t == MptWitnessRowType::StorageLeafCKey
                ||| t == MptWitnessRowType::StorageLeafSValue
                ||| t == MptWitnessRowType::StorageLeafCValue
                ||| t == MptWitnessRowType::NeighbouringStorageLeaf
            }),
        ensures
            final(pv).wf(),
            ({
                let t = spec_assign_dispatch(witness@, self.acc_r as int, ind as int, *old(pv));
                &&& *final(pv) == t.0
                &&& a == t.1
            }),
    {
        let row = &witness[ind];
        let mut assigned = AssignedRow::new();
        let typ = row.get_type();
        if typ == MptWitnessRowType::StorageLeafSKey || typ
            == MptWitnessRowType::StorageLeafCKey {
            proof {
                reveal(spec_step_storage_leaf_key);
            }
            let is_s = typ == MptWitnessRowType::StorageLeafSKey;
            self.assign_storage_leaf_key(pv, row, &mut assigned, is_s);
        } else if typ == MptWitnessRowType::StorageLeafSValue || typ
            == MptWitnessRowType::StorageLeafCValue {
            proof {
                reveal(spec_step_leaf_value);
            }
            self.assign_leaf_value(pv, row, &mut assigned);
        } else if typ == MptWitnessRowType::NeighbouringStorageLeaf {
            proof {
                reveal(spec_drifted_assigned);
            }
            self.assign_drifted_leaf(row, &mut assigned);
        }
        assigned
    }

    /// Assigns an account-family row.
    #[verifier::rlimit(100)]
    fn assign_row_kind_account(
        &self,
        witness: &Vec<MptWitnessRow>,
        ind: usize,
        pv: &mut ProofValues,
    ) -> (a: AssignedRow)
        requires
            self.wf(),
            old(pv).wf(),
            ind < witness@.len(),
            witness@[ind as int].well_formed(),
            ({
                let t = witness@[ind as int].spec_type();
                ||| t == MptWitnessRowType::AccountLeafKeyS
                ||| t == MptWitnessRowType::AccountLeafKeyC
                ||| t == MptWitnessRowType::AccountLeafNonceBalanceS
                ||| t == MptWitnessRowType::AccountLeafNonceBalanceC
                ||| t == MptWitnessRowType::AccountLeafRootCodehashS
                ||| t == MptWitnessRowType::AccountLeafRootCodehashC
                ||| t == MptWitnessRowType::AccountLeafNeighbouringLeaf
                ||| t == MptWitnessRowType::AccountNonExisting
            }),
        ensures
            final(pv).wf(),
            ({
                let t = spec_assign_dispatch(witness@, self.acc_r as int, ind as int, *old(pv));
                &&& *final(pv) == t.0
                &&& a == t.1
            }),
    {
        let row = &witness[ind];
        let mut assigned = AssignedRow::new();
        let typ = row.get_type();
        if typ == MptWitnessRowType::AccountLeafKeyS {
            proof {
                reveal(spec_step_account_leaf_key);
            }
            pv.before_account_leaf = false;
            self.assign_account_leaf_key(pv, row, &mut assigned, true);
        } else if typ == MptWitnessRowType::AccountLeafKeyC {
            proof {
                reveal(spec_step_account_leaf_key);
            }
            self.assign_account_leaf_key(pv, row, &mut assigned, false);
        } else if typ == MptWitnessRowType::AccountLeafNonceBalanceS {
            proof {
                reveal(spec_step_nonce_balance);
            }
            self.assign_nonce_balance(pv, row, &mut assigned, true);
        } else if typ == MptWitnessRowType::AccountLeafNonceBalanceC {
            proof {
                reveal(spec_step_nonce_balance);
            }
            self.assign_nonce_balance(pv, row, &mut assigned, false);
        } else if typ == MptWitnessRowType::AccountLeafRootCodehashS {
            proof {
                reveal(spec_codehash_assigned);
            }
            self.assign_storage_codehash(pv, row, &mut assigned, true);
        } else if typ == MptWitnessRowType::AccountLeafRootCodehashC {
            proof {
                reveal(spec_codehash_assigned);
            }
            self.assign_storage_codehash(pv, row, &mut assigned, false);
        } else if typ == MptWitnessRowType::AccountLeafNeighbouringLeaf {
            proof {
                reveal(spec_drifted_assigned);
            }
            // The account address ends here: the key state is
            // reset for the storage part of the proof.
            pv.key_rlc = 0;
            pv.key_rlc_mult = 1;
            pv.key_rlc_prev = 0;
            pv.key_rlc_mult_prev = 1;
            pv.key_rlc_sel = true;
            pv.nibbles_num = 0;
            if row.get_byte(1) != 0 {
                self.assign_drifted_leaf(row, &mut assigned);
            }
        } else if typ == MptWitnessRowType::AccountNonExisting {
            proof {
                reveal(spec_ane_assigned);
            }
            if ind > 0 {
                let row_prev = &witness[ind - 1];
                let np = row_prev.bytes.len();
                if np >= MIN_ROW_LEN && row_type_from_byte(
                    row_prev.bytes[np - 1],
                ).is_some() {
                    let pb2 = row_prev.get_byte(2);
                    if pb2 >= 128 && pb2 <= 193 {
                        let ane =
                            crate::account_non_existing::AccountNonExistingConfig::configure(
                            self.acc_r,
                        );
                        ane.assign(row, row_prev, &mut assigned);
                    }
                }
            }
        }
        assigned
    }

    /// Assigns one processed row by its kind: the executable mirror of
    /// `spec_assign_dispatch`.
    fn assign_row_kind(
        &self,
        witness: &Vec<MptWitnessRow>,
        ind: usize,
        pv: &mut ProofValues,
    ) -> (a: AssignedRow)
        requires
            self.wf(),
            old(pv).wf(),
            ind < witness@.len(),
            witness@[ind as int].well_formed(),
            witness@[ind as int].spec_type() != MptWitnessRowType::HashToBeComputed,
        ensures
            final(pv).wf(),
            ({
                let t = spec_assign_dispatch(witness@, self.acc_r as int, ind as int, *old(pv));
                &&& *final(pv) == t.0
                &&& a == t.1
            }),
    {
        let row = &witness[ind];
        let typ = row.get_type();
        if typ == MptWitnessRowType::InitBranch || typ == MptWitnessRowType::BranchChild || typ
            == MptWitnessRowType::ExtensionNodeS || typ == MptWitnessRowType::ExtensionNodeC {
            self.assign_row_kind_branchish(witness, ind, pv)
        } else if typ == MptWitnessRowType::StorageLeafSKey || typ
            == MptWitnessRowType::StorageLeafCKey || typ == MptWitnessRowType::StorageLeafSValue
            || typ == MptWitnessRowType::StorageLeafCValue || typ
            == MptWitnessRowType::NeighbouringStorageLeaf {
            self.assign_row_kind_storage_leaf(witness, ind, pv)
        } else {
            self.assign_row_kind_account(witness, ind, pv)
        }
    }

    /// Assigns one classified row: the executable mirror of one
    /// `spec_assign_step` of the fold.
    fn assign_row(
        &self,
        witness: &Vec<MptWitnessRow>,
        ind: usize,
        pv: &mut ProofValues,
        prev_nfl: &mut u8,
    ) -> (a: AssignedRow)
        requires
            self.wf(),
            old(pv).wf(),
            ind < witness@.len(),
        ensures
            final(pv).wf(),
            ({
                let t = spec_assign_step(
                    witness@,
                    self.acc_r as int,
                    ind as int,
                    *old(pv),
                    *old(prev_nfl),
                );
                &&& *final(pv) == t.0
                &&& *final(prev_nfl) == t.1
                &&& a == t.2
            }),
    {
        let row = &witness[ind];
        let n = row.bytes.len();
        if n >= MIN_ROW_LEN && row_type_from_byte(row.bytes[n - 1]).is_some() {
            let typ = row.get_type();
            if typ != MptWitnessRowType::HashToBeComputed {
                let nfl = row.not_first_level();
                if ind > 0 && nfl == 0 && *prev_nfl == 1 {
                    // A new chained proof starts here: the accumulator
                    // state is re-created.
                    *pv = ProofValues::new();
                }
                *prev_nfl = nfl;
                return self.assign_row_kind(witness, ind, pv);
            }
        }
        AssignedRow::new()
    }

    /// The witness-assignment driver: a single sequential fold over the
    /// classified rows, threading the accumulator state forward and
    /// re-creating it at every detected first-level boundary. Rows that
    /// exist only to be hashed, and rows too short or unclassifiable, get
    /// an empty assignment.
    #[verifier::rlimit(100)]
    pub fn assign(&self, witness: &Vec<MptWitnessRow>) -> (trace: Vec<AssignedRow>)
        requires
            self.wf(),
        ensures
            trace@.len() == witness@.len(),
            trace@ == spec_assign(witness@, self.acc_r as int),
            forall|i: int|
                0 <= i < witness@.len() && (!(#[trigger] witness@[i]).well_formed()
                    || witness@[i].spec_type() == MptWitnessRowType::HashToBeComputed)
                    ==> trace@[i] == assigned_row_zero(),
    {
        let ghost racc = self.acc_r as int;
        let mut trace: Vec<AssignedRow> = Vec::new();
        let mut pv = ProofValues::new();
        let mut prev_nfl: u8 = 0;
        let mut ind: usize = 0;
        while ind < witness.len()
            invariant
                self.wf(),
                pv.wf(),
                racc == self.acc_r as int,
                trace@.len() == ind,
                ind <= witness@.len(),
                pv == spec_assign_state(witness@, racc, ind as int).0,
                prev_nfl == spec_assign_state(witness@, racc, ind as int).1,
                forall|j: int| 0 <= j < ind ==> trace@[j] == spec_assign_at(witness@, racc, j),
                forall|i: int|
                    0 <= i < ind && (!(#[trigger] witness@[i]).well_formed()
                        || witness@[i].spec_type() == MptWitnessRowType::HashToBeComputed)
                        ==> trace@[i] == assigned_row_zero(),
            decreases witness@.len() - ind,
        {
            let ghost pv_in = pv;
            let ghost nfl_in = prev_nfl;
            let assigned = self.assign_row(witness, ind, &mut pv, &mut prev_nfl);
            proof {
                let t = spec_assign_step(witness@, racc, ind as int, pv_in, nfl_in);
                assert(spec_assign_state(witness@, racc, ind + 1) == (t.0, t.1));
                assert(spec_assign_at(witness@, racc, ind as int) == t.2);
            }
            trace.push(assigned);
            ind = ind + 1;
        }
        proof {
            assert(trace@ =~= spec_assign(witness@, self.acc_r as int));
        }
        trace
    }
}


/// The nibble counter after a saturating bump, as the assignment pass
/// performs it.
pub open spec fn spec_nibbles_add(n: usize, d: int) -> usize {
    if n + d <= usize::MAX {
        (n + d) as usize
    } else {
        usize::MAX
    }
}

/// What a branch init row assigns: the classifier flags, the snapshot of
/// the key pair one level above, and the RLP meta folds of both sides.
#[verifier::opaque]
pub open spec fn spec_step_branch_init(pv: ProofValues, b: Seq<u8>, r: int) -> (
    ProofValues,
    AssignedRow,
) {
    let acc_s = rlc_acc_spec(b.subrange(4, 4 + spec_branch_meta_count(b, true)), 0, 1, r);
    let acc_mult_s = rlc_mult_spec(spec_branch_meta_count(b, true) as nat, 1, r);
    let acc_c = rlc_acc_spec(b.subrange(7, 7 + spec_branch_meta_count(b, false)), 0, 1, r);
    let acc_mult_c = rlc_mult_spec(spec_branch_meta_count(b, false) as nat, 1, r);
    let pv2 = ProofValues {
        modified_node: b[BRANCH_0_KEY_POS as int],
        is_branch_s_placeholder: b[IS_BRANCH_S_PLACEHOLDER_POS as int] == 1,
        is_branch_c_placeholder: b[IS_BRANCH_C_PLACEHOLDER_POS as int] == 1,
        drifted_pos: b[DRIFTED_POS as int],
        is_extension_node: crate::helpers::spec_is_extension_node(b),
        is_even: b[23] == 1 || b[24] == 1,
        is_odd: b[25] == 1 || b[26] == 1 || b[21] == 1 || b[22] == 1,
        node_index: 0,
        rlc1: 0,
        rlc2: 0,
        key_rlc_prev: pv.key_rlc,
        key_rlc_mult_prev: pv.key_rlc_mult,
        acc_s: acc_s as u64,
        acc_mult_s: acc_mult_s as u64,
        acc_c: acc_c as u64,
        acc_mult_c: acc_mult_c as u64,
        nibbles_num: spec_nibbles_add(pv.nibbles_num, 1),
        ..pv
    };
    let a = AssignedRow {
        acc_s: pv2.acc_s,
        acc_mult_s: pv2.acc_mult_s,
        acc_c: pv2.acc_c,
        acc_mult_c: pv2.acc_mult_c,
        ..assigned_row_zero()
    };
    (pv2, a)
}

/// What a branch child row assigns: the child window folds, the modified
/// child's captured hashes and nil markers, and the key step on the first
/// child.
#[verifier::opaque]
pub open spec fn spec_step_branch_child(pv: ProofValues, b: Seq<u8>, r: int) -> (
    ProofValues,
    AssignedRow,
) {
    let ws = spec_child_window_s(b);
    let wc = spec_child_window_c(b);
    let stepped = pv.node_index == 0 && !pv.is_extension_node;
    let captured = pv.node_index == pv.modified_node;
    let nib16 = fmul_spec(16 * pv.modified_node as int, pv.key_rlc_mult as int);
    let nib1 = fmul_spec(pv.modified_node as int, pv.key_rlc_mult as int);
    let rlc1 = if captured {
        rlc_acc_spec(b.subrange(2, 34), pv.rlc1 as int, 1, r) as u64
    } else {
        pv.rlc1
    };
    let rlc2 = if captured {
        rlc_acc_spec(b.subrange(36, 68), pv.rlc2 as int, 1, r) as u64
    } else {
        pv.rlc2
    };
    let key_rlc = if stepped {
        (if pv.key_rlc_sel {
            fadd_spec(pv.key_rlc as int, nib16)
        } else {
            fadd_spec(pv.key_rlc as int, nib1)
        }) as u64
    } else {
        pv.key_rlc
    };
    let key_rlc_mult = if stepped {
        (if pv.key_rlc_sel {
            pv.key_rlc_mult as int
        } else {
            fmul_spec(pv.key_rlc_mult as int, r)
        }) as u64
    } else {
        pv.key_rlc_mult
    };
    let pv2 = ProofValues {
        acc_s: rlc_acc_spec(
            b.subrange(ws.0, ws.0 + ws.1),
            pv.acc_s as int,
            pv.acc_mult_s as int,
            r,
        ) as u64,
        acc_mult_s: rlc_mult_spec(ws.1 as nat, pv.acc_mult_s as int, r) as u64,
        acc_c: rlc_acc_spec(
            b.subrange(wc.0, wc.0 + wc.1),
            pv.acc_c as int,
            pv.acc_mult_c as int,
            r,
        ) as u64,
        acc_mult_c: rlc_mult_spec(wc.1 as nat, pv.acc_mult_c as int, r) as u64,
        rlc1,
        rlc2,
        key_rlc,
        key_rlc_mult,
        key_rlc_sel: if stepped {
            !pv.key_rlc_sel
        } else {
            pv.key_rlc_sel
        },
        node_index: if pv.node_index < 255 {
            (pv.node_index + 1) as u8
        } else {
            pv.node_index
        },
        ..pv
    };
    let a = AssignedRow {
        acc_s: pv2.acc_s,
        acc_mult_s: pv2.acc_mult_s,
        acc_c: pv2.acc_c,
        acc_mult_c: pv2.acc_mult_c,
        s_mod_node_rlc: if captured {
            rlc1
        } else {
            0u64
        },
        c_mod_node_rlc: if captured {
            rlc2
        } else {
            0u64
        },
        key_rlc: pv2.key_rlc,
        key_rlc_mult: pv2.key_rlc_mult,
        sel1: if captured && b[1] == 0 && b[2] == 128 {
            1u64
        } else {
            0u64
        },
        sel2: if captured && b[35] == 0 && b[36] == 128 {
            1u64
        } else {
            0u64
        },
        ..assigned_row_zero()
    };
    (pv2, a)
}

/// What an extension row assigns: the nibble bump of the segment (before
/// side), then — when the row is shaped well and the branch is marked as
/// lying under an extension — the key-part and branch-part folds.
#[verifier::opaque]
pub open spec fn spec_step_extension(pv: ProofValues, b: Seq<u8>, r: int, is_s: bool) -> (
    ProofValues,
    AssignedRow,
) {
    let len_byte = if b[0] < 248 {
        b[1]
    } else {
        b[2]
    };
    let delta: int = if b[1] <= 32 {
        1
    } else if pv.is_even && 129 <= len_byte <= 160 {
        (len_byte - 129) * 2
    } else if pv.is_odd && 129 <= len_byte <= 160 {
        (len_byte - 128) * 2 - 1
    } else {
        0
    };
    let pv0 = if is_s && pv.is_extension_node {
        ProofValues { nibbles_num: spec_nibbles_add(pv.nibbles_num, delta), ..pv }
    } else {
        pv
    };
    let shaped = (b[1] <= 32 || (128 <= b[1] && b[1] <= 160)) && (b[0] < 248 || (128 <= b[2]
        && b[2] <= 159));
    if shaped && pv0.is_extension_node {
        let acc_s = if is_s {
            rlc_acc_spec(b.subrange(0, crate::extension_node::spec_ext_key_len(b)), 0, 1, r)
        } else {
            pv0.acc_s as int
        };
        let acc_mult_s = if is_s {
            rlc_mult_spec(crate::extension_node::spec_ext_key_len(b) as nat, 1, r)
        } else {
            pv0.acc_mult_s as int
        };
        let pv2 = ProofValues {
            acc_s: acc_s as u64,
            acc_mult_s: acc_mult_s as u64,
            acc_c: crate::extension_node::spec_ext_branch_fold(b, acc_s, acc_mult_s, r) as u64,
            acc_mult_c: crate::extension_node::spec_ext_branch_mult(b, acc_mult_s, r) as u64,
            ..pv0
        };
        let a = AssignedRow {
            acc_s: pv2.acc_s,
            acc_mult_s: pv2.acc_mult_s,
            acc_c: pv2.acc_c,
            acc_mult_c: 0,
            key_rlc: pv0.extension_node_rlc,
            ..assigned_row_zero()
        };
        (pv2, a)
    } else {
        (pv0, assigned_row_zero())
    }
}

/// What a storage leaf key row assigns: the shape flags, the leaf fold,
/// the snapshot columns, and the key RLC resumed from the snapshot when
/// the leaf stands under a placeholder branch.
#[verifier::opaque]
pub open spec fn spec_step_storage_leaf_key(pv: ProofValues, b: Seq<u8>, r: int, is_s: bool) -> (
    ProofValues,
    AssignedRow,
) {
    let shape = spec_storage_leaf_shape(b);
    let len = spec_storage_leaf_key_len(b);
    let under_placeholder = if is_s {
        pv.is_branch_s_placeholder
    } else {
        pv.is_branch_c_placeholder
    };
    let k0 = if under_placeholder {
        pv.key_rlc_prev
    } else {
        pv.key_rlc
    };
    let m0 = if under_placeholder {
        pv.key_rlc_mult_prev
    } else {
        pv.key_rlc_mult
    };
    let acc = rlc_acc_spec(b.subrange(0, len), 0, 1, r);
    let mult = rlc_mult_spec(len as nat, 1, r);
    let key_col = (match shape {
        LeafShape::LastLevel => k0 as int,
        LeafShape::OneNibble => fadd_spec(
            k0 as int,
            fmul_spec(fsub_spec(b[1] as int, 48), m0 as int),
        ),
        LeafShape::Long => if len > 0 && (b[3] == 32 || b[3] >= 48) {
            spec_leaf_key_fold(b, 2, k0 as int, m0 as int, r)
        } else {
            0int
        },
        LeafShape::Short => if len > 0 && (b[2] == 32 || b[2] >= 48) {
            spec_leaf_key_fold(b, 1, k0 as int, m0 as int, r)
        } else {
            0int
        },
    }) as u64;
    let pv2 = ProofValues { acc_s: acc as u64, acc_mult_s: mult as u64, ..pv };
    let a = AssignedRow {
        acc_s: acc as u64,
        acc_mult_s: mult as u64,
        s_mod_node_rlc: (match shape {
            LeafShape::Long => 1u64,
            LeafShape::Short => 0u64,
            LeafShape::LastLevel => 1u64,
            LeafShape::OneNibble => 0u64,
        }),
        c_mod_node_rlc: (match shape {
            LeafShape::Long => 0u64,
            LeafShape::Short => 1u64,
            LeafShape::LastLevel => 1u64,
            LeafShape::OneNibble => 0u64,
        }),
        key_rlc: key_col,
        key_rlc_prev: pv.key_rlc_prev,
        key_rlc_mult_prev: pv.key_rlc_mult_prev,
        ..assigned_row_zero()
    };
    (pv2, a)
}

/// What a drifted leaf row assigns: its leaf-encoding fold alone.
#[verifier::opaque]
pub open spec fn spec_drifted_assigned(b: Seq<u8>, r: int) -> AssignedRow {
    AssignedRow {
        acc_s: rlc_acc_spec(b.subrange(0, spec_storage_leaf_key_len(b)), 0, 1, r) as u64,
        acc_mult_s: rlc_mult_spec(spec_storage_leaf_key_len(b) as nat, 1, r) as u64,
        ..assigned_row_zero()
    }
}

/// What an account leaf key row assigns, when shaped well: the leaf fold
/// into the account pair and the completed address RLC.
#[verifier::opaque]
pub open spec fn spec_step_account_leaf_key(pv: ProofValues, b: Seq<u8>, r: int, is_s: bool) -> (
    ProofValues,
    AssignedRow,
) {
    let ok_shape = 129 <= b[2] <= 161 && (b[3] == 32 || b[3] >= 48);
    if ok_shape {
        let len = 3 + b[2] - 128;
        let acc = rlc_acc_spec(b.subrange(0, len), 0, 1, r);
        let mult = rlc_mult_spec(len as nat, 1, r);
        let pv2 = ProofValues {
            acc_account_s: if is_s {
                acc as u64
            } else {
                pv.acc_account_s
            },
            acc_mult_account_s: if is_s {
                mult as u64
            } else {
                pv.acc_mult_account_s
            },
            acc_account_c: if is_s {
                pv.acc_account_c
            } else {
                acc as u64
            },
            acc_mult_account_c: if is_s {
                pv.acc_mult_account_c
            } else {
                mult as u64
            },
            ..pv
        };
        let a = AssignedRow {
            acc_s: acc as u64,
            acc_mult_s: mult as u64,
            key_rlc: spec_leaf_key_fold(b, 2, pv.key_rlc as int, pv.key_rlc_mult as int, r) as u64,
            ..assigned_row_zero()
        };
        (pv2, a)
    } else {
        (pv, assigned_row_zero())
    }
}

/// What a nonce/balance row assigns: the stored value RLCs, the two
/// multiplier bridges, and the whole-leaf fold.
#[verifier::opaque]
pub open spec fn spec_step_nonce_balance(pv: ProofValues, b: Seq<u8>, r: int, is_s: bool) -> (
    ProofValues,
    AssignedRow,
) {
    let nonce_long = spec_value_is_long(b[2]);
    let balance_long = spec_value_is_long(b[36]);
    let acc_prev = if is_s {
        pv.acc_account_s as int
    } else {
        pv.acc_account_c as int
    };
    let mult_prev = if is_s {
        pv.acc_mult_account_s as int
    } else {
        pv.acc_mult_account_c as int
    };
    let m5 = fmul_spec(fmul_spec(fmul_spec(fmul_spec(fmul_spec(mult_prev, r), r), r), r), r);
    let mdn = if nonce_long {
        fpow_spec(r, (b[2] - 128 + 5) as nat)
    } else {
        r
    };
    let after = if nonce_long {
        fmul_spec(mult_prev, mdn)
    } else {
        m5
    };
    let mdb = if balance_long {
        fpow_spec(r, (b[36] - 128 + 1) as nat)
    } else {
        r
    };
    let fin = fmul_spec(after, mdb);
    let nst = if nonce_long {
        nonce_value_long_rlc_spec(b, r)
    } else {
        b[2] as int
    };
    let bst = if balance_long {
        balance_value_long_rlc_spec(b, r)
    } else {
        b[36] as int
    };
    let acc = nonce_balance_acc_spec(b, acc_prev, mult_prev, after, nonce_long, balance_long, r);
    let pv2 = ProofValues {
        acc_nonce_balance_s: if is_s {
            acc as u64
        } else {
            pv.acc_nonce_balance_s
        },
        acc_mult_nonce_balance_s: if is_s {
            fin as u64
        } else {
            pv.acc_mult_nonce_balance_s
        },
        acc_nonce_balance_c: if is_s {
            pv.acc_nonce_balance_c
        } else {
            acc as u64
        },
        acc_mult_nonce_balance_c: if is_s {
            pv.acc_mult_nonce_balance_c
        } else {
            fin as u64
        },
        nonce_value_s: if is_s {
            nst as u64
        } else {
            pv.nonce_value_s
        },
        balance_value_s: if is_s {
            bst as u64
        } else {
            pv.balance_value_s
        },
        ..pv
    };
    let a = AssignedRow {
        s_mod_node_rlc: nst as u64,
        c_mod_node_rlc: bst as u64,
        acc_s: acc as u64,
        acc_mult_s: fin as u64,
        acc_mult_c: after as u64,
        mult_diff: mdn as u64,
        mult_diff2: mdb as u64,
        sel1: if is_s {
            0u64
        } else {
            pv.nonce_value_s
        },
        sel2: if is_s {
            0u64
        } else {
            pv.balance_value_s
        },
        ..assigned_row_zero()
    };
    (pv2, a)
}

/// What a storage-root/codehash row assigns: both captured digests and the
/// closing whole-leaf fold.
#[verifier::opaque]
pub open spec fn spec_codehash_assigned(pv: ProofValues, b: Seq<u8>, r: int, is_s: bool)
    -> AssignedRow {
    let acc_prev = if is_s {
        pv.acc_nonce_balance_s as int
    } else {
        pv.acc_nonce_balance_c as int
    };
    let mult_prev = if is_s {
        pv.acc_mult_nonce_balance_s as int
    } else {
        pv.acc_mult_nonce_balance_c as int
    };
    let acc1 = rlc_acc_spec(b.subrange(1, 34), acc_prev, mult_prev, r);
    let mult1 = rlc_mult_spec(33, mult_prev, r);
    AssignedRow {
        s_mod_node_rlc: bytes_rlc_spec(b.subrange(2, 34), r) as u64,
        c_mod_node_rlc: bytes_rlc_spec(b.subrange(36, 68), r) as u64,
        acc_s: rlc_acc_spec(b.subrange(35, 68), acc1, mult1, r) as u64,
        acc_mult_s: rlc_mult_spec(33, mult1, r) as u64,
        ..assigned_row_zero()
    }
}

/// What a storage leaf value row assigns: the value's shape flags and the
/// leaf fold extended over the value bytes.
#[verifier::opaque]
pub open spec fn spec_step_leaf_value(pv: ProofValues, b: Seq<u8>, r: int) -> (
    ProofValues,
    AssignedRow,
) {
    let long = spec_value_is_long(b[0]) && b[0] < 184;
    let len = if long {
        1 + b[0] - 128
    } else {
        1int
    };
    let a = AssignedRow {
        s_mod_node_rlc: if long {
            1u64
        } else {
            0u64
        },
        c_mod_node_rlc: if long {
            0u64
        } else {
            1u64
        },
        acc_s: rlc_acc_spec(b.subrange(0, len), pv.acc_s as int, pv.acc_mult_s as int, r) as u64,
        acc_mult_s: rlc_mult_spec(len as nat, pv.acc_mult_s as int, r) as u64,
        ..assigned_row_zero()
    };
    (pv, a)
}

/// What a non-existence row assigns, when the leaf-key row above it is
/// shaped well: the two residual-key RLCs and the inverse witness.
#[verifier::opaque]
pub open spec fn spec_ane_assigned(rows: Seq<MptWitnessRow>, r: int, i: int) -> AssignedRow {
    if i > 0 && rows[i - 1].well_formed() && 128 <= rows[i - 1].bytes@[2] <= 193 {
        let key_len = rows[i - 1].bytes@[2] - 128;
        let sum = rlc_acc_spec(rows[i].bytes@.subrange(3, 3 + key_len), 0, r, r);
        let sum_prev = rlc_acc_spec(rows[i - 1].bytes@.subrange(3, 3 + key_len), 0, r, r);
        let diff_inv = if sum != sum_prev {
            fpow_spec(fsub_spec(sum, sum_prev), (crate::field::P - 2) as nat)
        } else {
            0int
        };
        AssignedRow {
            key_rlc: sum as u64,
            key_rlc_mult: sum_prev as u64,
            acc_s: diff_inv as u64,
            ..assigned_row_zero()
        }
    } else {
        assigned_row_zero()
    }
}

/// The per-kind dispatch of one fold step, on the state after any boundary
/// reset.
pub open spec fn spec_assign_dispatch(rows: Seq<MptWitnessRow>, r: int, i: int, pv0: ProofValues)
    -> (ProofValues, AssignedRow) {
    let row = rows[i];
    let typ = row.spec_type();
    let b = row.bytes@;
    if typ == MptWitnessRowType::InitBranch {
        spec_step_branch_init(pv0, b, r)
    } else if typ == MptWitnessRowType::BranchChild {
        spec_step_branch_child(pv0, b, r)
    } else if typ == MptWitnessRowType::ExtensionNodeS {
        spec_step_extension(pv0, b, r, true)
    } else if typ == MptWitnessRowType::ExtensionNodeC {
        spec_step_extension(pv0, b, r, false)
    } else if typ == MptWitnessRowType::StorageLeafSKey {
        spec_step_storage_leaf_key(pv0, b, r, true)
    } else if typ == MptWitnessRowType::StorageLeafCKey {
        spec_step_storage_leaf_key(pv0, b, r, false)
    } else if typ == MptWitnessRowType::StorageLeafSValue || typ
            == MptWitnessRowType::StorageLeafCValue {
        spec_step_leaf_value(pv0, b, r)
    } else if typ == MptWitnessRowType::NeighbouringStorageLeaf {
        (pv0, spec_drifted_assigned(b, r))
    } else if typ == MptWitnessRowType::AccountLeafKeyS {
        spec_step_account_leaf_key(
            ProofValues { before_account_leaf: false, ..pv0 },
            b,
            r,
            true,
        )
    } else if typ == MptWitnessRowType::AccountLeafKeyC {
        spec_step_account_leaf_key(pv0, b, r, false)
    } else if typ == MptWitnessRowType::AccountLeafNonceBalanceS {
        spec_step_nonce_balance(pv0, b, r, true)
    } else if typ == MptWitnessRowType::AccountLeafNonceBalanceC {
        spec_step_nonce_balance(pv0, b, r, false)
    } else if typ == MptWitnessRowType::AccountLeafRootCodehashS {
        (pv0, spec_codehash_assigned(pv0, b, r, true))
    } else if typ == MptWitnessRowType::AccountLeafRootCodehashC {
        (pv0, spec_codehash_assigned(pv0, b, r, false))
    } else if typ == MptWitnessRowType::AccountLeafNeighbouringLeaf {
        (
            ProofValues {
                key_rlc: 0,
                key_rlc_mult: 1,
                key_rlc_prev: 0,
                key_rlc_mult_prev: 1,
                key_rlc_sel: true,
                nibbles_num: 0,
                ..pv0
            },
            if b[1] != 0 {
                spec_drifted_assigned(b, r)
            } else {
                assigned_row_zero()
            },
        )
    } else {
        (pv0, spec_ane_assigned(rows, r, i))
    }
}

/// One step of the witness-assignment fold at row `i`: the state after the
/// row, the first-level flag it leaves behind, and the row it assigns.
pub open spec fn spec_assign_step(
    rows: Seq<MptWitnessRow>,
    r: int,
    i: int,
    pv: ProofValues,
    prev_nfl: u8,
) -> (ProofValues, u8, AssignedRow) {
    let row = rows[i];
    if !row.well_formed() || row.spec_type() == MptWitnessRowType::HashToBeComputed {
        (pv, prev_nfl, assigned_row_zero())
    } else {
        let nfl = row.spec_not_first_level();
        let pv0 = if i > 0 && nfl == 0 && prev_nfl == 1 {
            fresh_proof_values()
        } else {
            pv
        };
        let st = spec_assign_dispatch(rows, r, i, pv0);
        (st.0, nfl, st.1)
    }
}

/// The accumulator state and boundary flag before row `i` of the fold.
pub open spec fn spec_assign_state(rows: Seq<MptWitnessRow>, r: int, i: int) -> (ProofValues, u8)
    decreases i,
{
    if i <= 0 {
        (fresh_proof_values(), 0u8)
    } else {
        let s = spec_assign_state(rows, r, i - 1);
        let t = spec_assign_step(rows, r, i - 1, s.0, s.1);
        (t.0, t.1)
    }
}

/// The row the fold assigns at position `i`.
pub open spec fn spec_assign_at(rows: Seq<MptWitnessRow>, r: int, i: int) -> AssignedRow {
    let s = spec_assign_state(rows, r, i);
    spec_assign_step(rows, r, i, s.0, s.1).2
}

/// The whole assigned trace: the sequential fold of `spec_assign_step`
/// over the classified rows.
pub open spec fn spec_assign(rows: Seq<MptWitnessRow>, r: int) -> Seq<AssignedRow> {
    Seq::new(rows.len(), |i: int| spec_assign_at(rows, r, i))
}

/// The key RLC completed by a leaf-key window starting at `start`: the
/// residual key bytes folded onto the running pair, the first residual
/// nibble (odd case) taken from the terminator byte.
pub open spec fn spec_leaf_key_fold(
    bytes: Seq<u8>,
    start: int,
    key_rlc: int,
    key_mult: int,
    r: int,
) -> int {
    let len = bytes[start] - 128;
    let window = bytes.subrange(start + 2, start + 1 + len);
    if bytes[start + 1] == 32 {
        rlc_acc_spec(window, key_rlc, key_mult, r)
    } else {
        rlc_acc_spec(
            window,
            fadd_spec(key_rlc, fmul_spec((bytes[start + 1] - 48) as int, key_mult)),
            fmul_spec(key_mult, r),
            r,
        )
    }
}

} // verus!
