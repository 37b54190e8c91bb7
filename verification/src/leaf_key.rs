//! The storage leaf-key component: verifies the RLC of the leaf's RLP
//! prefix and key bytes, and the key RLC the leaf completes.
//!
//! A storage leaf key row is one of three RLP shapes, chosen by two flags
//! stored in the modified-node columns of the row: *short* (one length
//! byte), *long* (two length bytes) or *last level* (no residual nibbles).
//! The key RLC accumulated through the branches above is extended over the
//! leaf's residual key bytes; for a leaf under a placeholder branch the
//! fold resumes from the snapshot of the level above the placeholder.

use vstd::prelude::*;

verus! {

use crate::field::{fadd, fadd_spec, fmul, fmul_spec, fsub, fsub_spec, is_felt, P};
use crate::mpt::{fixed_table_contains, fixed_table_contains_spec, FixedTableRow};
use crate::rlc::{fold_window, rlc_acc_spec};
use crate::witness_row::MptWitnessRow;
use vstd::arithmetic::div_mod::lemma_small_mod;

/// What the storage leaf-key assertions read besides the leaf row itself.
#[derive(Clone, Copy, PartialEq, Eq, Structural, Debug)]
pub struct LeafKeyInput {
    /// Shape flags, stored in the modified-node columns of the leaf row:
    /// (1,0) long, (0,1) short, (1,1) last level.
    pub flag1: u64,
    pub flag2: u64,
    /// The claimed leaf-encoding RLC and its multiplier.
    pub acc: u64,
    pub acc_mult: u64,
    /// The claimed key RLC completed by this leaf.
    pub key_rlc: u64,
    /// Snapshot columns of the key RLC pair one level above the leaf's
    /// branch, carried in the leaf row.
    pub key_rlc_prev_col: u64,
    pub key_rlc_mult_prev_col: u64,
    /// No branch stands above this leaf (account leaf directly above).
    pub is_leaf_in_first_level: bool,
    /// The leaf's branch is the first level of the storage trie.
    pub is_first_storage_level: bool,
    /// Key RLC pair of the branch right above the leaf.
    pub key_rlc_start: u64,
    pub key_mult_start: u64,
    /// Weighting selectors from that branch's init row.
    pub sel1: u8,
    pub sel2: u8,
    /// That branch is a placeholder.
    pub is_branch_placeholder: bool,
    /// Weighting selectors of the branch above the placeholder.
    pub sel1_above: u8,
    pub sel2_above: u8,
    /// Key RLC pair of the branch one more level up, which the snapshot
    /// columns must copy.
    pub prev_branch_key_rlc: u64,
    pub prev_branch_key_mult: u64,
}

impl LeafKeyInput {
    pub open spec fn wf(self) -> bool {
        &&& is_felt(self.flag1)
        &&& is_felt(self.flag2)
        &&& is_felt(self.acc)
        &&& is_felt(self.acc_mult)
        &&& is_felt(self.key_rlc)
        &&& is_felt(self.key_rlc_prev_col)
        &&& is_felt(self.key_rlc_mult_prev_col)
        &&& is_felt(self.key_rlc_start)
        &&& is_felt(self.key_mult_start)
        &&& is_felt(self.prev_branch_key_rlc)
        &&& is_felt(self.prev_branch_key_mult)
    }
}

/// The key RLC reached after the leaf's residual key bytes, for a window
/// starting at `start` in the row (3 for the short shape, 4 for the long
/// one): the first residual nibble (if the weight-16 selector is set) is
/// folded from the leading byte minus 48, then the remaining bytes.
pub open spec fn leaf_key_rlc_fold(
    bytes: Seq<u8>,
    start: int,
    rlc0: int,
    mult0: int,
    sel1: u8,
    r: int,
) -> int {
    let first = if sel1 == 1 {
        fadd_spec(rlc0, fmul_spec(fsub_spec(bytes[start - 1] as int, 48), mult0))
    } else {
        rlc0
    };
    let mult = if sel1 == 1 {
        fmul_spec(mult0, r)
    } else {
        mult0
    };
    rlc_acc_spec(bytes.subrange(start, start + 32), first, mult, r)
}

/// Every storage leaf-key assertion, as one predicate over the leaf row
/// and its surroundings.
pub open spec fn leaf_key_ok(
    bytes: Seq<u8>,
    inp: LeafKeyInput,
    fixed: Seq<FixedTableRow>,
    r: int,
) -> bool {
    let last_level = inp.flag1 == 1 && inp.flag2 == 1;
    let is_long = inp.flag1 == 1 && inp.flag2 == 0;
    let is_short = inp.flag1 == 0 && inp.flag2 == 1;
    let ordinary = !inp.is_branch_placeholder && !inp.is_leaf_in_first_level;
    let after_placeholder = inp.is_branch_placeholder && !inp.is_leaf_in_first_level;
    // The start pair for a leaf after a placeholder branch: the snapshot of
    // the level above the placeholder, or fresh values in the first
    // storage level.
    let ph_rlc0 = if inp.is_first_storage_level {
        0int
    } else {
        inp.key_rlc_prev_col as int
    };
    let ph_mult0 = if inp.is_first_storage_level {
        1int
    } else {
        inp.key_rlc_mult_prev_col as int
    };
    let ph_sel1 = if inp.is_first_storage_level {
        0u8
    } else {
        inp.sel1_above
    };
    let ph_sel2 = if inp.is_first_storage_level {
        1u8
    } else {
        inp.sel2_above
    };
    // Shape flags are boolean and not both clear.
    &&& inp.flag1 <= 1
    &&& inp.flag2 <= 1
    &&& !(inp.flag1 == 0 && inp.flag2 == 0)
    &&& is_long ==> bytes[0] == 248
    &&& last_level ==> bytes[1] == 32
    // The leaf-encoding RLC folds the whole 36-byte window (for the last
    // level only the two RLP bytes; the rest are zero).
    &&& (is_short || is_long) ==> inp.acc == rlc_acc_spec(bytes.subrange(0, 36), 0, 1, r)
    &&& last_level ==> inp.acc == rlc_acc_spec(bytes.subrange(0, 2), 0, 1, r)
    // The encoding multiplier matches the key length through the
    // multiplier-power table.
    &&& is_short ==> fixed_table_contains_spec(
        fixed,
        0,
        fadd_spec(fsub_spec(bytes[1] as int, 128), 2) as u64,
        inp.acc_mult,
    )
    &&& is_long ==> fixed_table_contains_spec(
        fixed,
        0,
        fadd_spec(fsub_spec(bytes[2] as int, 128), 3) as u64,
        inp.acc_mult,
    )
    // Ordinary leaf below a real branch: the residual key bytes complete
    // the key RLC accumulated above.
    &&& (ordinary && is_short && inp.sel2 == 1) ==> bytes[2] == 32
    &&& (ordinary && is_short) ==> inp.key_rlc == leaf_key_rlc_fold(
        bytes,
        3,
        inp.key_rlc_start as int,
        inp.key_mult_start as int,
        inp.sel1,
        r,
    )
    &&& (ordinary && is_long && inp.sel2 == 1) ==> bytes[3] == 32
    &&& (ordinary && is_long) ==> inp.key_rlc == leaf_key_rlc_fold(
        bytes,
        4,
        inp.key_rlc_start as int,
        inp.key_mult_start as int,
        inp.sel1,
        r,
    )
    &&& (ordinary && last_level) ==> inp.key_rlc == inp.key_rlc_start
    // Leaf with no branch above it: the key holds all 32 key bytes.
    &&& (inp.is_leaf_in_first_level && is_short) ==> bytes[2] == 32
    &&& (inp.is_leaf_in_first_level && is_short) ==> inp.key_rlc == rlc_acc_spec(
        bytes.subrange(3, 35),
        0,
        1,
        r,
    )
    &&& (inp.is_leaf_in_first_level && is_long) ==> bytes[3] == 32
    &&& (inp.is_leaf_in_first_level && is_long) ==> inp.key_rlc == rlc_acc_spec(
        bytes.subrange(4, 36),
        0,
        1,
        r,
    )
    // The snapshot columns copy the key RLC pair of the level above the
    // leaf's branch.
    &&& !inp.is_leaf_in_first_level ==> inp.key_rlc_prev_col == (if inp.is_first_storage_level {
        0int
    } else {
        inp.prev_branch_key_rlc as int
    })
    &&& !inp.is_leaf_in_first_level ==> inp.key_rlc_mult_prev_col == (if inp.is_first_storage_level {
        1int
    } else {
        inp.prev_branch_key_mult as int
    })
    // Leaf after a placeholder branch: the key RLC resumes from the
    // snapshot, skipping the placeholder level.
    &&& (after_placeholder && is_short && ph_sel2 == 1) ==> bytes[2] == 32
    &&& (after_placeholder && is_short) ==> inp.key_rlc == leaf_key_rlc_fold(
        bytes,
        3,
        ph_rlc0,
        ph_mult0,
        ph_sel1,
        r,
    )
    &&& (after_placeholder && is_long && ph_sel2 == 1) ==> bytes[3] == 32
    &&& (after_placeholder && is_long) ==> inp.key_rlc == leaf_key_rlc_fold(
        bytes,
        4,
        ph_rlc0,
        ph_mult0,
        ph_sel1,
        r,
    )
}

/// The storage leaf-key component for one side of the proof.
pub struct LeafKeyConfig {
    pub acc_r: u64,
    pub is_s: bool,
}

/// The storage leaf-key chip: the component together with its
/// configuration.
pub struct LeafKeyChip {
    pub config: LeafKeyConfig,
}

impl LeafKeyChip {
    pub fn configure(acc_r: u64, is_s: bool) -> (c: LeafKeyConfig)
        requires
            is_felt(acc_r),
        ensures
            c.acc_r == acc_r,
            c.is_s == is_s,
    {
        LeafKeyConfig { acc_r, is_s }
    }

    pub fn construct(config: LeafKeyConfig) -> (chip: LeafKeyChip)
        ensures
            chip.config == config,
    {
        LeafKeyChip { config }
    }

    /// Evaluates every storage leaf-key assertion on one leaf key row.
    pub fn check(&self, row: &MptWitnessRow, inp: &LeafKeyInput, fixed: &Vec<FixedTableRow>) -> (ok:
        bool)
        requires
            is_felt(self.config.acc_r),
            row.well_formed(),
            inp.wf(),
        ensures
            ok == leaf_key_ok(row.bytes@, *inp, fixed@, self.config.acc_r as int),
    {
        let r = self.config.acc_r;
        let last_level = inp.flag1 == 1 && inp.flag2 == 1;
        let is_long = inp.flag1 == 1 && inp.flag2 == 0;
        let is_short = inp.flag1 == 0 && inp.flag2 == 1;
        let ordinary = !inp.is_branch_placeholder && !inp.is_leaf_in_first_level;
        let after_placeholder = inp.is_branch_placeholder && !inp.is_leaf_in_first_level;
        let b0 = row.get_byte(0);
        let b1 = row.get_byte(1);
        let b2 = row.get_byte(2);
        let b3 = row.get_byte(3);
        let ph_rlc0: u64 = if inp.is_first_storage_level {
            0
        } else {
            inp.key_rlc_prev_col
        };
        let ph_mult0: u64 = if inp.is_first_storage_level {
            1
        } else {
            inp.key_rlc_mult_prev_col
        };
        let ph_sel1: u8 = if inp.is_first_storage_level {
            0
        } else {
            inp.sel1_above
        };
        let ph_sel2: u8 = if inp.is_first_storage_level {
            1
        } else {
            inp.sel2_above
        };
        let mut ok = inp.flag1 <= 1 && inp.flag2 <= 1 && !(inp.flag1 == 0 && inp.flag2 == 0);
        ok = ok && (!is_long || b0 == 248) && (!last_level || b1 == 32);
        if is_short || is_long {
            let (folded, _m) = fold_window(&row.bytes, 0, 36, 0, 1, r);
            ok = ok && inp.acc == folded;
        }
        if last_level {
            let (folded, _m) = fold_window(&row.bytes, 0, 2, 0, 1, r);
            ok = ok && inp.acc == folded;
        }
        if is_short {
            ok = ok && fixed_table_contains(
                fixed,
                0,
                fadd(fsub(b1 as u64, 128), 2),
                inp.acc_mult,
            );
        }
        if is_long {
            ok = ok && fixed_table_contains(
                fixed,
                0,
                fadd(fsub(b2 as u64, 128), 3),
                inp.acc_mult,
            );
        }
        ok = ok && (!(ordinary && is_short && inp.sel2 == 1) || b2 == 32);
        if ordinary && is_short {
            ok = ok && inp.key_rlc == self.leaf_key_rlc_fold_exec(
                row,
                3,
                inp.key_rlc_start,
                inp.key_mult_start,
                inp.sel1,
            );
        }
        ok = ok && (!(ordinary && is_long && inp.sel2 == 1) || b3 == 32);
        if ordinary && is_long {
            ok = ok && inp.key_rlc == self.leaf_key_rlc_fold_exec(
                row,
                4,
                inp.key_rlc_start,
                inp.key_mult_start,
                inp.sel1,
            );
        }
        ok = ok && (!(ordinary && last_level) || inp.key_rlc == inp.key_rlc_start);
        ok = ok && (!(inp.is_leaf_in_first_level && is_short) || b2 == 32);
        if inp.is_leaf_in_first_level && is_short {
            let (folded, _m) = fold_window(&row.bytes, 3, 32, 0, 1, r);
            ok = ok && inp.key_rlc == folded;
        }
        ok = ok && (!(inp.is_leaf_in_first_level && is_long) || b3 == 32);
        if inp.is_leaf_in_first_level && is_long {
            let (folded, _m) = fold_window(&row.bytes, 4, 32, 0, 1, r);
            ok = ok && inp.key_rlc == folded;
        }
        if !inp.is_leaf_in_first_level {
            let want_rlc: u64 = if inp.is_first_storage_level {
                0
            } else {
                inp.prev_branch_key_rlc
            };
            let want_mult: u64 = if inp.is_first_storage_level {
                1
            } else {
                inp.prev_branch_key_mult
            };
            ok = ok && inp.key_rlc_prev_col == want_rlc && inp.key_rlc_mult_prev_col == want_mult;
        }
        ok = ok && (!(after_placeholder && is_short && ph_sel2 == 1) || b2 == 32);
        if after_placeholder && is_short {
            ok = ok && inp.key_rlc == self.leaf_key_rlc_fold_exec(row, 3, ph_rlc0, ph_mult0, ph_sel1);
        }
        ok = ok && (!(after_placeholder && is_long && ph_sel2 == 1) || b3 == 32);
        if after_placeholder && is_long {
            ok = ok && inp.key_rlc == self.leaf_key_rlc_fold_exec(row, 4, ph_rlc0, ph_mult0, ph_sel1);
        }
        ok
    }

    /// The terminal nibble-count assertion: the nibbles consumed by the
    /// branches and extension segments above the leaf, plus the residual
    /// nibbles the leaf itself carries, must reach exactly 64 — the nibble
    /// length of a 32-byte key.
    pub fn check_nibbles_total(&self, nibbles_count: u64, leaf_nibbles: u64) -> (ok: bool)
        ensures
            ok == (nibbles_count + leaf_nibbles == 64),
    {
        nibbles_count <= 64 && leaf_nibbles <= 64 && nibbles_count + leaf_nibbles == 64
    }

    /// Folds the residual key window of a leaf row, exactly as
    /// `leaf_key_rlc_fold` states it.
    fn leaf_key_rlc_fold_exec(
        &self,
        row: &MptWitnessRow,
        start: usize,
        rlc0: u64,
        mult0: u64,
        sel1: u8,
    ) -> (res: u64)
        requires
            is_felt(self.config.acc_r),
            row.well_formed(),
            1 <= start,
            start + 32 <= row.bytes@.len(),
            is_felt(rlc0),
            is_felt(mult0),
        ensures
            res == leaf_key_rlc_fold(
                row.bytes@,
                start as int,
                rlc0 as int,
                mult0 as int,
                sel1,
                self.config.acc_r as int,
            ),
    {
        let r = self.config.acc_r;
        let lead = row.get_byte(start - 1);
        let first: u64 = if sel1 == 1 {
            fadd(rlc0, fmul(fsub(lead as u64, 48), mult0))
        } else {
            rlc0
        };
        let mult: u64 = if sel1 == 1 {
            fmul(mult0, r)
        } else {
            mult0
        };
        let (folded, _m) = fold_window(&row.bytes, start, 32, first, mult, r);
        folded
    }
}

/// Completeness of the leaf key fold: the key RLC the assignment pass
/// derives for a leaf-key window — folding only the window's true length —
/// satisfies the leaf-key assertion, which folds the whole fixed window,
/// because a well-formed row is zero past the key bytes and the weight
/// selector agrees with the terminator byte.
pub proof fn lemma_leaf_key_assign_satisfies(
    bytes: Seq<u8>,
    start: int,
    k0: u64,
    m0: u64,
    sel1: u8,
    r: int,
)
    requires
        0 <= start,
        start + 34 <= bytes.len(),
        129 <= bytes[start] <= 161,
        (sel1 == 1) <==> (bytes[start + 1] != 32),
        bytes[start + 1] != 32 ==> bytes[start + 1] >= 48,
        forall|i: int| start + 1 + (bytes[start] - 128) <= i < start + 34 ==> bytes[i] == 0,
        is_felt(k0),
        is_felt(m0),
        0 <= r < P,
    ensures
        crate::mpt::spec_leaf_key_fold(bytes, start, k0 as int, m0 as int, r)
            == leaf_key_rlc_fold(bytes, start + 2, k0 as int, m0 as int, sel1, r),
{
    let len = bytes[start] - 128;
    let window = bytes.subrange(start + 2, start + 34);
    assert(window.take(len - 1) =~= bytes.subrange(start + 2, start + 1 + len));
    if sel1 == 1 {
        lemma_small_mod((bytes[start + 1] - 48) as nat, P as nat);
        assert(fsub_spec(bytes[start + 1] as int, 48) == bytes[start + 1] - 48);
        let first = fadd_spec(
            k0 as int,
            fmul_spec((bytes[start + 1] - 48) as int, m0 as int),
        );
        let mult = fmul_spec(m0 as int, r);
        crate::rlc::lemma_rlc_zero_extension(window, len - 1, first, mult, r);
    } else {
        crate::rlc::lemma_rlc_zero_extension(window, len - 1, k0 as int, m0 as int, r);
    }
}

/// Placeholder consistency: when the leaf-key assertions accept a leaf
/// under a placeholder branch (below the first account and first storage
/// levels), the snapshot columns are forced equal to the key RLC pair of
/// the branch above the placeholder, and the accepted key RLC is exactly
/// the residual-key fold resumed from that pair — that is, the key RLC
/// obtained by skipping the placeholder level entirely.
pub proof fn lemma_placeholder_resume(
    bytes: Seq<u8>,
    inp: LeafKeyInput,
    fixed: Seq<FixedTableRow>,
    r: int,
)
    requires
        leaf_key_ok(bytes, inp, fixed, r),
        inp.is_branch_placeholder,
        !inp.is_leaf_in_first_level,
        !inp.is_first_storage_level,
    ensures
        inp.key_rlc_prev_col == inp.prev_branch_key_rlc,
        inp.key_rlc_mult_prev_col == inp.prev_branch_key_mult,
        (inp.flag1 == 0 && inp.flag2 == 1) ==> inp.key_rlc == leaf_key_rlc_fold(
            bytes,
            3,
            inp.prev_branch_key_rlc as int,
            inp.prev_branch_key_mult as int,
            inp.sel1_above,
            r,
        ),
        (inp.flag1 == 1 && inp.flag2 == 0) ==> inp.key_rlc == leaf_key_rlc_fold(
            bytes,
            4,
            inp.prev_branch_key_rlc as int,
            inp.prev_branch_key_mult as int,
            inp.sel1_above,
            r,
        ),
{
}

/// The total of a sequence of per-level nibble consumptions.
pub open spec fn sum_of(deltas: Seq<int>) -> int
    decreases deltas.len(),
{
    if deltas.len() == 0 {
        0
    } else {
        sum_of(deltas.drop_last()) + deltas.last()
    }
}

/// A running counter that satisfies every per-level update equation holds
/// the sum of the consumptions so far.
proof fn lemma_counter_is_sum(counters: Seq<int>, deltas: Seq<int>)
    requires
        counters.len() == deltas.len() + 1,
        counters[0] == 0,
        forall|i: int| 0 <= i < deltas.len() ==> counters[i + 1] == counters[i] + deltas[i],
    ensures
        counters[counters.len() - 1] == sum_of(deltas),
    decreases deltas.len(),
{
    if deltas.len() > 0 {
        lemma_counter_is_sum(counters.drop_last(), deltas.drop_last());
    }
}

/// Nibble-count invariant: when the running counter starts at zero, obeys
/// every per-level update (one nibble per ordinary branch, segment length
/// plus one per extension node with its branch), and the terminal leaf
/// assertion accepts, the nibbles consumed by all levels and the leaf's
/// residual nibbles sum to exactly 64.
pub proof fn lemma_nibble_count_total(counters: Seq<int>, deltas: Seq<int>, leaf_nibbles: int)
    requires
        counters.len() == deltas.len() + 1,
        counters[0] == 0,
        forall|i: int| 0 <= i < deltas.len() ==> counters[i + 1] == counters[i] + deltas[i],
        counters[counters.len() - 1] + leaf_nibbles == 64,
    ensures
        sum_of(deltas) + leaf_nibbles == 64,
{
    lemma_counter_is_sum(counters, deltas);
}

} // verus!
