//! The accumulator engine: folds a window of bytes into a running
//! random-linear-combination scalar with a carried multiplier.
//!
//! For a window `b_0, ..., b_{n-1}`, starting accumulator `acc` and
//! multiplier `mult`, the fold computes
//! `acc + b_0*mult + b_1*mult*r + ... + b_{n-1}*mult*r^(n-1)` in the field,
//! and advances the multiplier to `mult * r^n`. The same fold is used for
//! node-encoding RLCs, key RLCs and digest RLCs.

use vstd::prelude::*;

verus! {

use crate::field::{
    fadd,
    fadd_spec,
    fmul,
    fmul_spec,
    fpow_spec,
    is_felt,
    lemma_fmul_assoc,
    P,
};
use vstd::arithmetic::div_mod::{lemma_fundamental_div_mod, lemma_small_mod};

/// The accumulator after folding `bytes` into `acc` with multiplier `mult`
/// and randomness `r`.
pub open spec fn rlc_acc_spec(bytes: Seq<u8>, acc: int, mult: int, r: int) -> int
    decreases bytes.len(),
{
    if bytes.len() == 0 {
        acc
    } else {
        rlc_acc_spec(
            bytes.drop_first(),
            fadd_spec(acc, fmul_spec(bytes[0] as int, mult)),
            fmul_spec(mult, r),
            r,
        )
    }
}

/// The multiplier after folding a window of `len` bytes: `mult * r^len`.
pub open spec fn rlc_mult_spec(len: nat, mult: int, r: int) -> int
    decreases len,
{
    if len == 0 {
        mult
    } else {
        rlc_mult_spec((len - 1) as nat, fmul_spec(mult, r), r)
    }
}

/// The RLC of a whole byte sequence, from a zero accumulator and unit
/// multiplier.
pub open spec fn bytes_rlc_spec(bytes: Seq<u8>, r: int) -> int {
    rlc_acc_spec(bytes, 0, 1, r)
}

/// The carried multiplier is exactly the starting one times `r^len`.
pub proof fn lemma_rlc_mult_pow(len: nat, mult: int, r: int)
    requires
        0 <= mult < P,
    ensures
        rlc_mult_spec(len, mult, r) == fmul_spec(mult, fpow_spec(r, len)),
    decreases len,
{
    if len == 0 {
        lemma_small_mod(mult as nat, P as nat);
    } else {
        lemma_rlc_mult_pow((len - 1) as nat, fmul_spec(mult, r), r);
        lemma_fmul_assoc(mult, r, fpow_spec(r, (len - 1) as nat));
    }
}

/// Folds `row[start .. start + len]` into the accumulator pair, exactly as
/// the specification fold does.
pub fn compute_acc_and_mult(
    row: &Vec<u8>,
    acc: &mut u64,
    mult: &mut u64,
    start: usize,
    len: usize,
    r: u64,
)
    requires
        start + len <= row.len(),
        is_felt(*old(acc)),
        is_felt(*old(mult)),
        is_felt(r),
    ensures
        *final(acc) == rlc_acc_spec(
            row@.subrange(start as int, (start + len) as int),
            *old(acc) as int,
            *old(mult) as int,
            r as int,
        ),
        *final(mult) == rlc_mult_spec(len as nat, *old(mult) as int, r as int),
        is_felt(*final(acc)),
        is_felt(*final(mult)),
{
    let ghost window = row@.subrange(start as int, (start + len) as int);
    proof {
        assert(window.skip(0) =~= window);
    }
    let mut i: usize = 0;
    while i < len
        invariant
            i <= len,
            start + len <= row.len(),
            is_felt(*acc),
            is_felt(*mult),
            is_felt(r),
            window == row@.subrange(start as int, (start + len) as int),
            rlc_acc_spec(window.skip(i as int), *acc as int, *mult as int, r as int)
                == rlc_acc_spec(window, *old(acc) as int, *old(mult) as int, r as int),
            rlc_mult_spec((len - i) as nat, *mult as int, r as int) == rlc_mult_spec(
                len as nat,
                *old(mult) as int,
                r as int,
            ),
        decreases len - i,
    {
        proof {
            assert(window.skip(i as int).drop_first() =~= window.skip(i + 1));
            assert(window.skip(i as int)[0] == row@[start + i]);
        }
        let byte = row[start + i];
        *acc = fadd(*acc, fmul(byte as u64, *mult));
        *mult = fmul(*mult, r);
        i = i + 1;
    }
    proof {
        assert(window.skip(len as int) =~= Seq::<u8>::empty());
    }
}

/// Zero bytes at the end of a window do not change the accumulator: the
/// fold over the whole window equals the fold over its nonzero prefix.
pub proof fn lemma_rlc_zero_extension(bytes: Seq<u8>, k: int, acc: int, mult: int, r: int)
    requires
        0 <= k <= bytes.len(),
        forall|i: int| k <= i < bytes.len() ==> bytes[i] == 0,
        0 <= acc < P,
        0 <= mult < P,
        0 <= r < P,
    ensures
        rlc_acc_spec(bytes, acc, mult, r) == rlc_acc_spec(bytes.take(k), acc, mult, r),
    decreases bytes.len(),
{
    if k == 0 {
        assert(bytes.take(0) =~= Seq::<u8>::empty());
        lemma_rlc_all_zero(bytes, acc, mult, r);
    } else {
        assert(bytes.take(k).drop_first() =~= bytes.drop_first().take(k - 1));
        lemma_rlc_zero_extension(
            bytes.drop_first(),
            k - 1,
            fadd_spec(acc, fmul_spec(bytes[0] as int, mult)),
            fmul_spec(mult, r),
            r,
        );
    }
}

/// Folding a window of zero bytes leaves the accumulator unchanged.
proof fn lemma_rlc_all_zero(bytes: Seq<u8>, acc: int, mult: int, r: int)
    requires
        forall|i: int| 0 <= i < bytes.len() ==> bytes[i] == 0,
        0 <= acc < P,
        0 <= mult < P,
        0 <= r < P,
    ensures
        rlc_acc_spec(bytes, acc, mult, r) == acc,
    decreases bytes.len(),
{
    if bytes.len() > 0 {
        assert(fmul_spec(0, mult) == 0) by {
            assert(0 * mult == 0) by (nonlinear_arith);
        }
        lemma_small_mod(acc as nat, P as nat);
        assert(fadd_spec(acc, 0) == acc);
        lemma_rlc_all_zero(bytes.drop_first(), acc, fmul_spec(mult, r), r);
    }
}

/// Folds `row[start .. start + len]` starting from the given pair and
/// returns the new accumulator and multiplier.
pub fn fold_window(row: &Vec<u8>, start: usize, len: usize, acc0: u64, mult0: u64, r: u64) -> (res:
    (u64, u64))
    requires
        start + len <= row.len(),
        is_felt(acc0),
        is_felt(mult0),
        is_felt(r),
    ensures
        res.0 == rlc_acc_spec(
            row@.subrange(start as int, (start + len) as int),
            acc0 as int,
            mult0 as int,
            r as int,
        ),
        res.1 == rlc_mult_spec(len as nat, mult0 as int, r as int),
        is_felt(res.0),
        is_felt(res.1),
{
    let mut acc = acc0;
    let mut mult = mult0;
    compute_acc_and_mult(row, &mut acc, &mut mult, start, len, r);
    (acc, mult)
}

/// The RLC of a whole byte vector, as used for digests and roots.
pub fn bytes_into_rlc(message: &Vec<u8>, r: u64) -> (rlc: u64)
    requires
        is_felt(r),
    ensures
        rlc == bytes_rlc_spec(message@, r as int),
        is_felt(rlc),
{
    let mut acc: u64 = 0;
    let mut mult: u64 = 1;
    compute_acc_and_mult(message, &mut acc, &mut mult, 0, message.len(), r);
    proof {
        assert(message@.subrange(0, message@.len() as int) =~= message@);
    }
    acc
}

/// The fold keeps a reduced accumulator reduced.
pub proof fn lemma_rlc_acc_bound(bytes: Seq<u8>, acc: int, mult: int, r: int)
    requires
        0 <= acc < P,
    ensures
        0 <= rlc_acc_spec(bytes, acc, mult, r) < P,
    decreases bytes.len(),
{
    if bytes.len() > 0 {
        lemma_rlc_acc_bound(
            bytes.drop_first(),
            fadd_spec(acc, fmul_spec(bytes[0] as int, mult)),
            fmul_spec(mult, r),
            r,
        );
    }
}

/// The fold keeps a reduced multiplier reduced.
pub proof fn lemma_rlc_mult_bound(len: nat, mult: int, r: int)
    requires
        0 <= mult < P,
    ensures
        0 <= rlc_mult_spec(len, mult, r) < P,
    decreases len,
{
    if len > 0 {
        lemma_rlc_mult_bound((len - 1) as nat, fmul_spec(mult, r), r);
    }
}

/// Adding the same summand to two different reduced values keeps them
/// different modulo `P`.
proof fn lemma_mod_add_injective(a1: int, a2: int, c: int)
    requires
        0 <= a1 < P,
        0 <= a2 < P,
        a1 != a2,
        0 <= c,
    ensures
        (a1 + c) % (P as int) != (a2 + c) % (P as int),
{
    let p = P as int;
    if (a1 + c) % p == (a2 + c) % p {
        lemma_fundamental_div_mod(a1 + c, p);
        lemma_fundamental_div_mod(a2 + c, p);
        let q1 = (a1 + c) / p;
        let q2 = (a2 + c) / p;
        assert(a1 - a2 == p * (q1 - q2));
        if q1 == q2 {
            assert(p * (q1 - q2) == 0) by (nonlinear_arith)
                requires
                    q1 == q2,
            ;
        } else {
            assert(p * (q1 - q2) >= p || p * (q1 - q2) <= -p) by (nonlinear_arith)
                requires
                    p > 0,
                    q1 != q2,
            ;
        }
        assert(false);
    }
}

/// The fold is injective in its running accumulator: a disagreement
/// between two reduced accumulators survives folding any common window.
/// A tampered byte that perturbs the accumulator at its position therefore
/// perturbs the final RLC.
pub proof fn lemma_rlc_acc_injective(bytes: Seq<u8>, a1: int, a2: int, mult: int, r: int)
    requires
        0 <= a1 < P,
        0 <= a2 < P,
        a1 != a2,
        0 <= mult,
    ensures
        rlc_acc_spec(bytes, a1, mult, r) != rlc_acc_spec(bytes, a2, mult, r),
    decreases bytes.len(),
{
    if bytes.len() > 0 {
        let c = fmul_spec(bytes[0] as int, mult);
        vstd::arithmetic::div_mod::lemma_mod_bound(bytes[0] as int * mult, P as int);
        lemma_mod_add_injective(a1, a2, c);
        lemma_rlc_acc_injective(
            bytes.drop_first(),
            fadd_spec(a1, c),
            fadd_spec(a2, c),
            fmul_spec(mult, r),
            r,
        );
    }
}

/// Tamper sensitivity at the head of a window: two windows that agree
/// everywhere but in their leading byte, folded under a unit multiplier,
/// reach different accumulators — whatever the folding randomness.
pub proof fn lemma_rlc_leading_byte_flip(b1: Seq<u8>, b2: Seq<u8>, acc: int, r: int)
    requires
        b1.len() == b2.len(),
        b1.len() > 0,
        b1[0] != b2[0],
        b1.drop_first() == b2.drop_first(),
        0 <= acc < P,
    ensures
        rlc_acc_spec(b1, acc, 1, r) != rlc_acc_spec(b2, acc, 1, r),
{
    let p = P as int;
    lemma_small_mod(b1[0] as nat, P as nat);
    lemma_small_mod(b2[0] as nat, P as nat);
    assert(fmul_spec(b1[0] as int, 1) == b1[0] as int);
    assert(fmul_spec(b2[0] as int, 1) == b2[0] as int);
    lemma_mod_add_injective(b1[0] as int, b2[0] as int, acc);
    vstd::arithmetic::div_mod::lemma_mod_bound(acc + b1[0] as int, p);
    vstd::arithmetic::div_mod::lemma_mod_bound(acc + b2[0] as int, p);
    lemma_rlc_acc_injective(
        b1.drop_first(),
        fadd_spec(acc, b1[0] as int),
        fadd_spec(acc, b2[0] as int),
        fmul_spec(1, r),
        r,
    );
}

} // verus!
