//! Arithmetic in the prime scalar field used by every accumulator.
//!
//! All folded values (node-encoding RLCs, key RLCs, digests RLCs) live in the
//! field of integers modulo `P`, a 64-bit prime. Choosing a modulus below
//! `2^64` lets every field operation be carried out exactly in machine
//! integers and verified against its mathematical definition.

use vstd::prelude::*;

verus! {

use vstd::arithmetic::div_mod::{lemma_mul_mod_noop_general, lemma_small_mod};

/// The prime modulus: 2^64 - 2^32 + 1.
pub const P: u64 = 0xffff_ffff_0000_0001;

/// Addition in the field, as a mathematical definition.
pub open spec fn fadd_spec(a: int, b: int) -> int {
    (a + b) % (P as int)
}

/// Subtraction in the field, for operands already reduced below `P`.
pub open spec fn fsub_spec(a: int, b: int) -> int {
    (a - b + P) % (P as int)
}

/// Multiplication in the field, as a mathematical definition.
pub open spec fn fmul_spec(a: int, b: int) -> int {
    (a * b) % (P as int)
}

/// Exponentiation in the field: `b^e mod P`.
pub open spec fn fpow_spec(b: int, e: nat) -> int
    decreases e,
{
    if e == 0 {
        1int
    } else {
        fmul_spec(b, fpow_spec(b, (e - 1) as nat))
    }
}

/// A value is a reduced field element when it lies below the modulus.
pub open spec fn is_felt(a: u64) -> bool {
    a < P
}

pub fn fadd(a: u64, b: u64) -> (r: u64)
    requires
        is_felt(a),
        is_felt(b),
    ensures
        r == fadd_spec(a as int, b as int),
        is_felt(r),
{
    let s: u128 = a as u128 + b as u128;
    (s % (P as u128)) as u64
}

pub fn fsub(a: u64, b: u64) -> (r: u64)
    requires
        is_felt(a),
        is_felt(b),
    ensures
        r == fsub_spec(a as int, b as int),
        is_felt(r),
{
    let s: u128 = a as u128 + P as u128 - b as u128;
    (s % (P as u128)) as u64
}

pub fn fmul(a: u64, b: u64) -> (r: u64)
    requires
        is_felt(a),
        is_felt(b),
    ensures
        r == fmul_spec(a as int, b as int),
        is_felt(r),
{
    proof {
        assert((a as int) * (b as int) <= (P - 1) as int * (P - 1) as int) by (nonlinear_arith)
            requires
                a < P,
                b < P,
        ;
    }
    let prod: u128 = (a as u128) * (b as u128);
    (prod % (P as u128)) as u64
}

/// Every result of `fpow_spec` is a reduced field element.
pub proof fn lemma_fpow_bound(b: int, e: nat)
    ensures
        0 <= fpow_spec(b, e) < P,
    decreases e,
{
    if e > 0 {
        lemma_fpow_bound(b, (e - 1) as nat);
    }
}

/// Field multiplication is associative.
pub proof fn lemma_fmul_assoc(x: int, y: int, z: int)
    ensures
        fmul_spec(fmul_spec(x, y), z) == fmul_spec(x, fmul_spec(y, z)),
{
    lemma_mul_mod_noop_general(x * y, z, P as int);
    lemma_mul_mod_noop_general(x, y * z, P as int);
    assert((x * y) * z == x * (y * z)) by (nonlinear_arith);
}

/// Squaring the base halves the exponent: `b^(2k) = (b*b)^k` in the field.
pub proof fn lemma_fpow_square(b: int, k: nat)
    ensures
        fpow_spec(b, 2 * k) == fpow_spec(fmul_spec(b, b), k),
    decreases k,
{
    if k > 0 {
        lemma_fpow_square(b, (k - 1) as nat);
        let x = fpow_spec(b, (2 * k - 2) as nat);
        let bb = fmul_spec(b, b);
        assert(fpow_spec(b, 2 * k) == fmul_spec(b, fpow_spec(b, (2 * k - 1) as nat)));
        assert(fpow_spec(b, (2 * k - 1) as nat) == fmul_spec(b, x));
        assert(fpow_spec(bb, k) == fmul_spec(bb, fpow_spec(bb, (k - 1) as nat)));
        assert(fpow_spec(bb, (k - 1) as nat) == x);
        lemma_fmul_assoc(b, b, x);
    }
}

pub fn fpow(base: u64, exp: u64) -> (r: u64)
    requires
        is_felt(base),
    ensures
        r == fpow_spec(base as int, exp as nat),
        is_felt(r),
{
    let mut result: u64 = 1;
    let mut b: u64 = base;
    let mut e: u64 = exp;
    proof {
        lemma_fpow_bound(base as int, exp as nat);
        lemma_small_mod(fpow_spec(base as int, exp as nat) as nat, P as nat);
    }
    while e > 0
        invariant
            is_felt(b),
            is_felt(result),
            fmul_spec(result as int, fpow_spec(b as int, e as nat)) == fpow_spec(
                base as int,
                exp as nat,
            ),
        decreases e,
    {
        let ghost b0 = b as int;
        let ghost e0 = e as nat;
        let ghost res0 = result as int;
        if e % 2 == 1 {
            result = fmul(result, b);
        }
        b = fmul(b, b);
        e = e / 2;
        proof {
            let k = e as nat;
            let bb = fmul_spec(b0, b0);
            lemma_fpow_square(b0, k);
            if e0 % 2 == 1 {
                assert(e0 == 2 * k + 1);
                lemma_fmul_assoc(res0, b0, fpow_spec(bb, k));
            } else {
                assert(e0 == 2 * k);
            }
        }
    }
    proof {
        lemma_small_mod(result as nat, P as nat);
    }
    result
}

/// The candidate multiplicative inverse of `a`, computed as `a^(P-2)`.
///
/// For nonzero `a` this is the inverse by Fermat's little theorem; the
/// assertion logic never relies on that here — it only ever checks the
/// product `a * finv(a)` against 1, and for `a = 0` no value can pass that
/// check (`lemma_fmul_zero`).
pub fn finv(a: u64) -> (r: u64)
    requires
        is_felt(a),
    ensures
        r == fpow_spec(a as int, (P - 2) as nat),
        is_felt(r),
{
    fpow(a, P - 2)
}

/// Zero times anything is zero in the field, so no witness can exhibit an
/// inverse of zero.
pub proof fn lemma_fmul_zero(x: int)
    ensures
        fmul_spec(0, x) == 0,
{
    assert(0 * x == 0) by (nonlinear_arith);
}

} // verus!
