//! The key-accumulation component: checks that the running key RLC is
//! extended correctly by the modified-child nibble of each branch.
//!
//! Key nibbles `n0 n1 n2 ...` fold into
//! `(n0*16 + n1) + (n2*16 + n3)*r + ...`: at each branch the nibble is
//! weighted by 16 or by 1 according to an alternating selector, and the
//! multiplier advances by `r` every second nibble. When an extension node
//! stands above the branch, the parity of its segment decides whether the
//! selector flips.

use vstd::prelude::*;

verus! {

use crate::field::{fadd, fadd_spec, fmul, fmul_spec, is_felt, P};
use crate::rlc::rlc_acc_spec;
use vstd::arithmetic::div_mod::{lemma_add_mod_noop, lemma_small_mod};

/// What the key-accumulation assertions read on the first child row of a
/// branch: values of the current branch, of the branch one level above, and
/// the shape selectors of the extension node (if any) above this branch.
#[derive(Clone, Copy, PartialEq, Eq, Structural, Debug)]
pub struct BranchKeyInput {
    /// The row stands below the first level of its proof.
    pub not_first_level: bool,
    /// An account leaf ends right above this branch: first storage level.
    pub is_account_leaf_above: bool,
    /// The six extension-node shape selectors from the branch init row.
    pub is_ext_short_c16: bool,
    pub is_ext_short_c1: bool,
    pub is_ext_long_even_c16: bool,
    pub is_ext_long_even_c1: bool,
    pub is_ext_long_odd_c16: bool,
    pub is_ext_long_odd_c1: bool,
    /// The modified-child index of this branch: one key nibble.
    pub modified_node: u8,
    /// Weight-16 selector of the previous branch (init row one branch up).
    pub sel1_prev: u8,
    /// Weight-16 and weight-1 selectors of this branch (init row).
    pub sel1_cur: u8,
    pub sel2_cur: u8,
    /// Key RLC pair of the branch one level above.
    pub key_rlc_prev: u64,
    pub key_rlc_mult_prev: u64,
    /// Key RLC pair claimed for this branch.
    pub key_rlc_cur: u64,
    pub key_rlc_mult_cur: u64,
}

impl BranchKeyInput {
    pub open spec fn wf(self) -> bool {
        &&& is_felt(self.key_rlc_prev)
        &&& is_felt(self.key_rlc_mult_prev)
        &&& is_felt(self.key_rlc_cur)
        &&& is_felt(self.key_rlc_mult_cur)
    }

    /// The extension above this branch carries an even number of nibbles.
    pub open spec fn is_extension_key_even(self) -> bool {
        self.is_ext_long_even_c16 || self.is_ext_long_even_c1
    }

    /// The extension above this branch carries an odd number of nibbles.
    pub open spec fn is_extension_key_odd(self) -> bool {
        self.is_ext_long_odd_c16 || self.is_ext_long_odd_c1 || self.is_ext_short_c16
            || self.is_ext_short_c1
    }

    pub open spec fn is_extension_node(self) -> bool {
        self.is_extension_key_even() || self.is_extension_key_odd()
    }
}

/// Every key-accumulation assertion of one branch, as one predicate.
pub open spec fn branch_key_ok(inp: BranchKeyInput, r: int) -> bool {
    let continuing = inp.not_first_level && !inp.is_account_leaf_above;
    let first_account = !inp.not_first_level;
    let first_storage = inp.is_account_leaf_above;
    let ext = inp.is_extension_node();
    // The selectors are boolean and complementary.
    &&& inp.sel1_cur <= 1
    &&& inp.sel2_cur <= 1
    &&& inp.sel1_cur + inp.sel2_cur == 1
    // Below the first level, an ordinary branch extends the key RLC with
    // its modified-child nibble, weighted by 16 (selector 1) or by 1
    // (selector 2); the multiplier stays put for weight 16 and advances by
    // `r` for weight 1.
    &&& (continuing && !ext && inp.sel1_cur == 1) ==> inp.key_rlc_cur == fadd_spec(
        inp.key_rlc_prev as int,
        fmul_spec(16 * inp.modified_node as int, inp.key_rlc_mult_prev as int),
    )
    &&& (continuing && !ext && inp.sel1_cur == 1) ==> inp.key_rlc_mult_cur
        == inp.key_rlc_mult_prev
    &&& (continuing && !ext && inp.sel2_cur == 1) ==> inp.key_rlc_cur == fadd_spec(
        inp.key_rlc_prev as int,
        fmul_spec(inp.modified_node as int, inp.key_rlc_mult_prev as int),
    )
    &&& (continuing && !ext && inp.sel2_cur == 1) ==> inp.key_rlc_mult_cur == fmul_spec(
        inp.key_rlc_mult_prev as int,
        r,
    )
    // In the first account level the key RLC starts from nothing: the
    // nibble weighted by 16, multiplier 1, weight-16 selector forced.
    &&& (first_account && !ext) ==> inp.key_rlc_cur == 16 * inp.modified_node as int
    &&& (first_account && !ext) ==> inp.key_rlc_mult_cur == 1
    &&& (first_account && !ext) ==> inp.sel1_cur == 1
    &&& (first_account && inp.is_extension_key_even()) ==> inp.sel1_cur == 1
    &&& (first_account && inp.is_extension_key_odd()) ==> inp.sel1_cur == 0
    // The first storage level restarts the key RLC in the same way.
    &&& (first_storage && !ext) ==> inp.key_rlc_cur == 16 * inp.modified_node as int
    &&& (first_storage && !ext) ==> inp.key_rlc_mult_cur == 1
    &&& (first_storage && !ext) ==> inp.sel1_cur == 1
    &&& (first_storage && inp.is_extension_key_even()) ==> inp.sel1_cur == 1
    &&& (first_storage && inp.is_extension_key_odd()) ==> inp.sel1_cur == 0
    // The weight selector alternates across ordinary branches and across
    // extension nodes with an even segment, and stays put across extension
    // nodes with an odd segment.
    &&& (continuing && (!ext || inp.is_extension_key_even())) ==> inp.sel1_cur + inp.sel1_prev
        == 1
    &&& (continuing && inp.is_extension_key_odd()) ==> inp.sel1_cur == inp.sel1_prev
}

/// The key-accumulation component. Its checks apply to the first child row
/// of every branch.
#[derive(Clone, Copy, PartialEq, Eq, Structural, Debug)]
pub struct BranchKeyConfig {
    pub acc_r: u64,
}

impl BranchKeyConfig {
    pub open spec fn wf(self) -> bool {
        is_felt(self.acc_r)
    }

    pub fn configure(acc_r: u64) -> (c: BranchKeyConfig)
        requires
            is_felt(acc_r),
        ensures
            c.wf(),
            c.acc_r == acc_r,
    {
        BranchKeyConfig { acc_r }
    }

    /// Evaluates every key-accumulation assertion on one branch.
    pub fn check(&self, inp: &BranchKeyInput) -> (ok: bool)
        requires
            self.wf(),
            inp.wf(),
        ensures
            ok == branch_key_ok(*inp, self.acc_r as int),
    {
        let continuing = inp.not_first_level && !inp.is_account_leaf_above;
        let first_account = !inp.not_first_level;
        let first_storage = inp.is_account_leaf_above;
        let ext_even = inp.is_ext_long_even_c16 || inp.is_ext_long_even_c1;
        let ext_odd = inp.is_ext_long_odd_c16 || inp.is_ext_long_odd_c1 || inp.is_ext_short_c16
            || inp.is_ext_short_c1;
        let ext = ext_even || ext_odd;
        let nib16 = fmul(16 * inp.modified_node as u64, inp.key_rlc_mult_prev);
        let nib1 = fmul(inp.modified_node as u64, inp.key_rlc_mult_prev);
        let ok = (inp.sel1_cur <= 1) && (inp.sel2_cur <= 1) && (inp.sel1_cur as u64 + inp.sel2_cur as u64 == 1)
            && (!(continuing && !ext && inp.sel1_cur == 1) || (inp.key_rlc_cur == fadd(
            inp.key_rlc_prev,
            nib16,
        ) && inp.key_rlc_mult_cur == inp.key_rlc_mult_prev)) && (!(continuing && !ext
            && inp.sel2_cur == 1) || (inp.key_rlc_cur == fadd(inp.key_rlc_prev, nib1)
            && inp.key_rlc_mult_cur == fmul(inp.key_rlc_mult_prev, self.acc_r))) && (!(first_account
            && !ext) || (inp.key_rlc_cur == 16 * inp.modified_node as u64
            && inp.key_rlc_mult_cur == 1 && inp.sel1_cur == 1)) && (!(first_account && ext_even)
            || inp.sel1_cur == 1) && (!(first_account && ext_odd) || inp.sel1_cur == 0) && (!(
        first_storage && !ext) || (inp.key_rlc_cur == 16 * inp.modified_node as u64
            && inp.key_rlc_mult_cur == 1 && inp.sel1_cur == 1)) && (!(first_storage && ext_even)
            || inp.sel1_cur == 1) && (!(first_storage && ext_odd) || inp.sel1_cur == 0) && (!(
        continuing && (!ext || ext_even)) || inp.sel1_cur as u64 + inp.sel1_prev as u64 == 1) && (!(continuing
            && ext_odd) || inp.sel1_cur == inp.sel1_prev);
        ok
    }
}

/// The key RLC reached after folding a whole nibble sequence, starting from
/// the given accumulator, multiplier and weight selector (true: weight 16).
pub open spec fn key_rlc_of_nibbles(nibs: Seq<u8>, acc: int, mult: int, sel: bool, r: int) -> int
    decreases nibs.len(),
{
    if nibs.len() == 0 {
        acc
    } else if sel {
        key_rlc_of_nibbles(
            nibs.drop_first(),
            fadd_spec(acc, fmul_spec(16 * nibs[0] as int, mult)),
            mult,
            false,
            r,
        )
    } else {
        key_rlc_of_nibbles(
            nibs.drop_first(),
            fadd_spec(acc, fmul_spec(nibs[0] as int, mult)),
            fmul_spec(mult, r),
            true,
            r,
        )
    }
}

/// One branch level of key accumulation, as the assignment pass performs it.
///
/// The returned triple is the new key RLC, the new multiplier and the new
/// weight selector; the step agrees with one unfolding of
/// `key_rlc_of_nibbles`, and its outputs satisfy the key-accumulation
/// assertions of an ordinary continuing branch (`branch_key_ok`).
pub fn key_rlc_branch_step(key_rlc: u64, key_rlc_mult: u64, sel: bool, nibble: u8, r: u64) -> (res:
    (u64, u64, bool))
    requires
        is_felt(key_rlc),
        is_felt(key_rlc_mult),
        is_felt(r),
    ensures
        is_felt(res.0),
        is_felt(res.1),
        res.2 == !sel,
        sel ==> res.0 == fadd_spec(
            key_rlc as int,
            fmul_spec(16 * nibble as int, key_rlc_mult as int),
        ) && res.1 == key_rlc_mult,
        !sel ==> res.0 == fadd_spec(key_rlc as int, fmul_spec(nibble as int, key_rlc_mult as int))
            && res.1 == fmul_spec(key_rlc_mult as int, r as int),
        forall|nibs: Seq<u8>|
            nibs.len() > 0 && nibs[0] == nibble ==> key_rlc_of_nibbles(
                nibs,
                key_rlc as int,
                key_rlc_mult as int,
                sel,
                r as int,
            ) == key_rlc_of_nibbles(nibs.drop_first(), res.0 as int, res.1 as int, res.2, r as int),
{
    if sel {
        let rlc = fadd(key_rlc, fmul(16 * nibble as u64, key_rlc_mult));
        (rlc, key_rlc_mult, false)
    } else {
        let rlc = fadd(key_rlc, fmul(nibble as u64, key_rlc_mult));
        (rlc, fmul(key_rlc_mult, r), true)
    }
}

/// Folding two nibbles one after the other under the same multiplier is the
/// same as folding the byte they pack into.
proof fn lemma_fold_two_nibbles(acc: int, a: int, b: int, m: int)
    requires
        0 <= acc < P,
    ensures
        fadd_spec(fadd_spec(acc, fmul_spec(a, m)), fmul_spec(b, m)) == fadd_spec(
            acc,
            fmul_spec(a + b, m),
        ),
{
    let p = P as int;
    lemma_small_mod(acc as nat, P as nat);
    lemma_add_mod_noop(acc, a * m, p);
    lemma_add_mod_noop(acc + a * m, b * m, p);
    lemma_add_mod_noop(acc, (a + b) * m, p);
    assert((a + b) * m == a * m + b * m) by (nonlinear_arith);
}

/// The bytes a nibble sequence packs into, two nibbles per byte.
pub open spec fn pack_nibbles(nibs: Seq<u8>) -> Seq<u8> {
    Seq::new(nibs.len() / 2, |i: int| (nibs[2 * i] * 16 + nibs[2 * i + 1]) as u8)
}

/// Key round-trip: folding a full even-length nibble path through the
/// branch-key steps, starting with weight 16, yields exactly the RLC of the
/// packed key bytes computed independently with the same randomness.
pub proof fn lemma_key_rlc_round_trip(nibs: Seq<u8>, acc: int, mult: int, r: int)
    requires
        nibs.len() % 2 == 0,
        forall|i: int| 0 <= i < nibs.len() ==> nibs[i] < 16,
        0 <= acc < P,
        0 <= mult < P,
    ensures
        key_rlc_of_nibbles(nibs, acc, mult, true, r) == rlc_acc_spec(
            pack_nibbles(nibs),
            acc,
            mult,
            r,
        ),
    decreases nibs.len(),
{
    if nibs.len() == 0 {
        assert(pack_nibbles(nibs) =~= Seq::<u8>::empty());
    } else {
        let n0 = nibs[0] as int;
        let n1 = nibs[1] as int;
        let acc1 = fadd_spec(acc, fmul_spec(16 * n0, mult));
        let acc2 = fadd_spec(acc1, fmul_spec(n1, mult));
        let mult2 = fmul_spec(mult, r);
        assert(key_rlc_of_nibbles(nibs, acc, mult, true, r) == key_rlc_of_nibbles(
            nibs.drop_first(),
            acc1,
            mult,
            false,
            r,
        ));
        assert(nibs.drop_first()[0] == nibs[1]);
        assert(key_rlc_of_nibbles(nibs.drop_first(), acc1, mult, false, r) == key_rlc_of_nibbles(
            nibs.drop_first().drop_first(),
            acc2,
            mult2,
            true,
            r,
        ));
        assert(nibs.drop_first().drop_first() =~= nibs.skip(2));
        lemma_key_rlc_round_trip(nibs.skip(2), acc2, mult2, r);
        let packed = pack_nibbles(nibs);
        assert(packed[0] == (nibs[0] * 16 + nibs[1]) as u8);
        assert(packed[0] as int == 16 * n0 + n1);
        assert(rlc_acc_spec(packed, acc, mult, r) == rlc_acc_spec(
            packed.drop_first(),
            fadd_spec(acc, fmul_spec(packed[0] as int, mult)),
            mult2,
            r,
        ));
        assert(packed.drop_first() =~= pack_nibbles(nibs.skip(2)));
        lemma_fold_two_nibbles(acc, 16 * n0, n1, mult);
    }
}

/// Completeness of key accumulation: the values one assignment step
/// produces for an ordinary branch below the first level satisfy every
/// key-accumulation assertion of that branch.
pub proof fn lemma_branch_key_step_satisfies(
    key_rlc: u64,
    key_rlc_mult: u64,
    sel: bool,
    nibble: u8,
    new_rlc: u64,
    new_mult: u64,
    r: int,
    inp: BranchKeyInput,
)
    requires
        is_felt(key_rlc),
        is_felt(key_rlc_mult),
        is_felt(new_rlc),
        is_felt(new_mult),
        sel ==> new_rlc == fadd_spec(
            key_rlc as int,
            fmul_spec(16 * nibble as int, key_rlc_mult as int),
        ) && new_mult == key_rlc_mult,
        !sel ==> new_rlc == fadd_spec(key_rlc as int, fmul_spec(nibble as int, key_rlc_mult as int))
            && new_mult == fmul_spec(key_rlc_mult as int, r),
        inp == (BranchKeyInput {
            not_first_level: true,
            is_account_leaf_above: false,
            is_ext_short_c16: false,
            is_ext_short_c1: false,
            is_ext_long_even_c16: false,
            is_ext_long_even_c1: false,
            is_ext_long_odd_c16: false,
            is_ext_long_odd_c1: false,
            modified_node: nibble,
            sel1_prev: if sel { 0u8 } else { 1u8 },
            sel1_cur: if sel { 1u8 } else { 0u8 },
            sel2_cur: if sel { 0u8 } else { 1u8 },
            key_rlc_prev: key_rlc,
            key_rlc_mult_prev: key_rlc_mult,
            key_rlc_cur: new_rlc,
            key_rlc_mult_cur: new_mult,
        }),
    ensures
        branch_key_ok(inp, r),
{
}

} // verus!
