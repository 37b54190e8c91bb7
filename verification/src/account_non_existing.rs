//! The account non-existence component.
//!
//! Absence of an account is shown either by a *wrong leaf* — a real leaf
//! whose key shares the traversed prefix with the enquired address but
//! differs in the remaining nibbles — or by a *nil marker* in the parent
//! branch at the enquired position. For a wrong leaf the row carries the
//! enquired address's residual key bytes; the checks tie their RLC to the
//! enquired address RLC, force the residual lengths of leaf and enquiry to
//! agree, and demand a multiplicative inverse of the difference of the two
//! residual-key RLCs — which exists exactly when they differ.

use vstd::prelude::*;

verus! {

use crate::field::{
    fmul,
    fmul_spec,
    fpow_spec,
    fsub,
    fsub_spec,
    is_felt,
    lemma_fmul_zero,
    P,
};
use crate::mpt::AssignedRow;
use crate::rlc::{fold_window, rlc_acc_spec};
use crate::witness_row::MptWitnessRow;
use crate::leaf_key::leaf_key_rlc_fold;
use vstd::arithmetic::div_mod::lemma_small_mod;

/// What the non-existence assertions read besides the two rows.
#[derive(Clone, Copy, PartialEq, Eq, Structural, Debug)]
pub struct NonExistingInput {
    /// The row stands below the first level of its proof.
    pub not_first_level: bool,
    /// Key RLC pair of the branch right above the leaf.
    pub key_rlc_acc_start: u64,
    pub key_mult_start: u64,
    /// Weighting selectors from that branch's init row.
    pub c16: u8,
    pub c1: u8,
    /// The enquired address RLC.
    pub address_rlc: u64,
    /// The residual-key RLCs of the enquired address and of the wrong
    /// leaf, and the claimed inverse of their difference.
    pub sum: u64,
    pub sum_prev: u64,
    pub diff_inv: u64,
    /// The parent branch holds a nil marker at the enquired position.
    pub is_nil_object: bool,
}

impl NonExistingInput {
    pub open spec fn wf(self) -> bool {
        &&& is_felt(self.key_rlc_acc_start)
        &&& is_felt(self.key_mult_start)
        &&& is_felt(self.address_rlc)
        &&& is_felt(self.sum)
        &&& is_felt(self.sum_prev)
        &&& is_felt(self.diff_inv)
    }
}

/// The RLC of the residual key bytes of a row of this block, weighted from
/// `r` upward, over the fixed window the assertions read.
pub open spec fn residual_key_rlc_spec(bytes: Seq<u8>, r: int) -> int {
    rlc_acc_spec(bytes.subrange(3, 36), 0, r, r)
}

/// Every non-existence assertion over the non-existence row `cur` and the
/// account-leaf key row `prev`.
pub open spec fn account_non_existing_ok(
    cur: Seq<u8>,
    prev: Seq<u8>,
    inp: NonExistingInput,
    r: int,
) -> bool {
    let is_wrong_leaf = cur[0] == 1;
    let first_level = !inp.not_first_level;
    // The enquired address folds from the key accumulated above the leaf
    // over the residual key bytes of this row.
    &&& (!first_level && is_wrong_leaf && inp.c1 == 1) ==> cur[3] == 32
    &&& (!first_level && is_wrong_leaf) ==> inp.address_rlc == leaf_key_rlc_fold(
        cur,
        4,
        inp.key_rlc_acc_start as int,
        inp.key_mult_start as int,
        inp.c16,
        r,
    )
    // With the leaf in the first level the whole address is in the row.
    &&& (first_level && is_wrong_leaf) ==> cur[3] == 32
    &&& (first_level && is_wrong_leaf) ==> inp.address_rlc == rlc_acc_spec(
        cur.subrange(4, 36),
        0,
        1,
        r,
    )
    // The two residual-key RLCs are the stored ones, and their difference
    // has the claimed multiplicative inverse — impossible when the
    // residuals are identical.
    &&& is_wrong_leaf ==> inp.sum == residual_key_rlc_spec(cur, r)
    &&& is_wrong_leaf ==> inp.sum_prev == residual_key_rlc_spec(prev, r)
    &&& is_wrong_leaf ==> fmul_spec(
        fsub_spec(inp.sum as int, inp.sum_prev as int),
        inp.diff_inv as int,
    ) == 1
    // The residual lengths of the wrong leaf and of the enquiry agree, so
    // an attacker cannot pick an artificial nibble count to manufacture a
    // desired RLC.
    &&& is_wrong_leaf ==> cur[2] == prev[2]
    // Without a wrong leaf, the parent branch must hold a nil marker at
    // the enquired position.
    &&& (!first_level && !is_wrong_leaf) ==> inp.is_nil_object
}

/// The account non-existence component.
pub struct AccountNonExistingConfig {
    pub acc_r: u64,
}

impl AccountNonExistingConfig {
    pub open spec fn wf(self) -> bool {
        is_felt(self.acc_r)
    }

    pub fn configure(acc_r: u64) -> (c: AccountNonExistingConfig)
        requires
            is_felt(acc_r),
        ensures
            c.wf(),
            c.acc_r == acc_r,
    {
        AccountNonExistingConfig { acc_r }
    }

    /// Evaluates every non-existence assertion on one block.
    pub fn check(&self, cur: &MptWitnessRow, prev: &MptWitnessRow, inp: &NonExistingInput) -> (ok:
        bool)
        requires
            self.wf(),
            cur.well_formed(),
            prev.well_formed(),
            inp.wf(),
        ensures
            ok == account_non_existing_ok(cur.bytes@, prev.bytes@, *inp, self.acc_r as int),
    {
        let r = self.acc_r;
        let is_wrong_leaf = cur.get_byte(0) == 1;
        let first_level = !inp.not_first_level;
        let mut ok = true;
        ok = ok && (!(!first_level && is_wrong_leaf && inp.c1 == 1) || cur.get_byte(3) == 32);
        if !first_level && is_wrong_leaf {
            let lead = cur.get_byte(3);
            let first: u64 = if inp.c16 == 1 {
                crate::field::fadd(
                    inp.key_rlc_acc_start,
                    fmul(fsub(lead as u64, 48), inp.key_mult_start),
                )
            } else {
                inp.key_rlc_acc_start
            };
            let mult: u64 = if inp.c16 == 1 {
                fmul(inp.key_mult_start, r)
            } else {
                inp.key_mult_start
            };
            let (folded, _m) = fold_window(&cur.bytes, 4, 32, first, mult, r);
            ok = ok && inp.address_rlc == folded;
        }
        if first_level && is_wrong_leaf {
            ok = ok && cur.get_byte(3) == 32;
            let (folded, _m) = fold_window(&cur.bytes, 4, 32, 0, 1, r);
            ok = ok && inp.address_rlc == folded;
        }
        if is_wrong_leaf {
            let (sum_check, _m) = fold_window(&cur.bytes, 3, 33, 0, r, r);
            let (sum_prev_check, _m2) = fold_window(&prev.bytes, 3, 33, 0, r, r);
            ok = ok && inp.sum == sum_check && inp.sum_prev == sum_prev_check;
            ok = ok && fmul(fsub(inp.sum, inp.sum_prev), inp.diff_inv) == 1;
            ok = ok && cur.get_byte(2) == prev.get_byte(2);
        }
        ok = ok && (!(!first_level && !is_wrong_leaf) || inp.is_nil_object);
        ok
    }

    /// Derives and writes the residual-key RLCs and the inverse witness,
    /// as the assignment pass does. The key length is read from the
    /// account-leaf key row above; when the two residuals coincide no
    /// inverse exists and zero is written instead.
    pub fn assign(
        &self,
        row: &MptWitnessRow,
        row_prev: &MptWitnessRow,
        assigned: &mut AssignedRow,
    )
        requires
            self.wf(),
            row.well_formed(),
            row_prev.well_formed(),
            row_prev.bytes@[2] >= 128,
            3 + (row_prev.bytes@[2] - 128) <= 68,
        ensures
            ({
                let key_len = row_prev.bytes@[2] - 128;
                let r = self.acc_r as int;
                let sum = rlc_acc_spec(row.bytes@.subrange(3, 3 + key_len), 0, r, r);
                let sum_prev = rlc_acc_spec(row_prev.bytes@.subrange(3, 3 + key_len), 0, r, r);
                let diff_inv = if sum != sum_prev {
                    fpow_spec(fsub_spec(sum, sum_prev), (P - 2) as nat)
                } else {
                    0int
                };
                *final(assigned) == (AssignedRow {
                    key_rlc: sum as u64,
                    key_rlc_mult: sum_prev as u64,
                    acc_s: diff_inv as u64,
                    ..*old(assigned)
                })
            }),
    {
        let key_len = (row_prev.get_byte(2) - 128) as usize;
        let (sum, _m) = fold_window(&row.bytes, 3, key_len, 0, self.acc_r, self.acc_r);
        let (sum_prev, _m2) = fold_window(&row_prev.bytes, 3, key_len, 0, self.acc_r, self.acc_r);
        let diff_inv: u64 = if sum != sum_prev {
            crate::field::finv(fsub(sum, sum_prev))
        } else {
            0
        };
        proof {
            lemma_small_mod(sum as nat, P as nat);
            lemma_small_mod(sum_prev as nat, P as nat);
        }
        assigned.key_rlc = sum;
        assigned.key_rlc_mult = sum_prev;
        assigned.acc_s = diff_inv;
    }
}

/// Non-existence needs a genuinely different residual: when the residual
/// key bytes of the non-existence row are byte-identical to those of the
/// leaf-key row, no inverse witness can make the wrong-leaf assertions
/// hold, because the difference of the two residual RLCs is zero and zero
/// times anything is zero.
pub proof fn lemma_same_address_rejected(
    cur: Seq<u8>,
    prev: Seq<u8>,
    inp: NonExistingInput,
    r: int,
)
    requires
        cur.len() >= 36,
        prev.len() >= 36,
        cur[0] == 1,
        cur.subrange(3, 36) == prev.subrange(3, 36),
    ensures
        !account_non_existing_ok(cur, prev, inp, r),
{
    if account_non_existing_ok(cur, prev, inp, r) {
        assert(residual_key_rlc_spec(cur, r) == residual_key_rlc_spec(prev, r));
        assert(inp.sum == inp.sum_prev);
        assert(fsub_spec(inp.sum as int, inp.sum_prev as int) == 0) by {
            assert((inp.sum - inp.sum_prev + P) % (P as int) == 0);
        }
        lemma_fmul_zero(inp.diff_inv as int);
        assert(false);
    }
}

} // verus!
