//! The account nonce/balance component.
//!
//! An account leaf row of this kind holds the nonce in its before-side
//! payload and the balance in its after-side payload, each either *short*
//! (a single literal byte) or *long* (a length byte followed by the value
//! bytes). The checks cover the stored nonce and balance RLCs, the
//! whole-leaf encoding RLC, the RLP length equations, the
//! length-to-multiplier lookups, and — on the after side — that a
//! modification of one field leaves the other fields equal across sides.

use vstd::prelude::*;

verus! {

use crate::field::{fadd, fadd_spec, fmul, fmul_spec, fsub, fsub_spec, is_felt};
use crate::mpt::{fixed_table_contains, fixed_table_contains_spec, FixedTableRow};
use crate::rlc::{fold_window, rlc_acc_spec};
use crate::witness_row::{bytes_all_zero, MptWitnessRow};

/// What the nonce/balance assertions read besides the row itself.
#[derive(Clone, Copy, PartialEq, Eq, Structural, Debug)]
pub struct NonceBalanceInput {
    /// Leaf-encoding accumulator pair reached at the account-leaf key row.
    pub acc_prev: u64,
    pub acc_mult_prev: u64,
    /// The second RLP byte of the key row (the remaining stream length).
    pub key_row_rlp2: u8,
    /// The key-length byte of the key row (128 + key length).
    pub key_row_len_byte: u8,
    /// Sub-encoding flags stored at the key row: long nonce, long balance.
    pub is_nonce_long: u64,
    pub is_balance_long: u64,
    /// The wrong-leaf flag from the non-existence row.
    pub is_wrong_leaf: u64,
    pub is_non_existing_account_proof: bool,
    /// The stored nonce and balance RLCs of this row.
    pub nonce_stored: u64,
    pub balance_stored: u64,
    /// The multiplier after the nonce, and the two length-to-multiplier
    /// bridges.
    pub acc_mult_after_nonce: u64,
    pub mult_diff_nonce: u64,
    pub mult_diff_balance: u64,
    /// The claimed whole-leaf accumulator pair of this row.
    pub acc: u64,
    pub acc_mult_final: u64,
    /// After side only: the before-side nonce and balance, from the row
    /// above and as copied into this row.
    pub nonce_s_from_prev: u64,
    pub nonce_s_from_cur: u64,
    pub balance_s_from_prev: u64,
    pub balance_s_from_cur: u64,
    /// Modification-type flags of the proof.
    pub is_storage_mod: bool,
    pub is_nonce_mod: bool,
    pub is_balance_mod: bool,
    pub is_account_delete_mod: bool,
}

impl NonceBalanceInput {
    pub open spec fn wf(self) -> bool {
        &&& is_felt(self.acc_prev)
        &&& is_felt(self.acc_mult_prev)
        &&& is_felt(self.is_nonce_long)
        &&& is_felt(self.is_balance_long)
        &&& is_felt(self.is_wrong_leaf)
        &&& is_felt(self.nonce_stored)
        &&& is_felt(self.balance_stored)
        &&& is_felt(self.acc_mult_after_nonce)
        &&& is_felt(self.mult_diff_nonce)
        &&& is_felt(self.mult_diff_balance)
        &&& is_felt(self.acc)
        &&& is_felt(self.acc_mult_final)
    }
}

/// The RLC of a long nonce's value bytes: everything after the length byte.
pub open spec fn nonce_value_long_rlc_spec(bytes: Seq<u8>, r: int) -> int {
    rlc_acc_spec(bytes.subrange(3, 34), 0, 1, r)
}

/// The RLC of a long balance's value bytes.
pub open spec fn balance_value_long_rlc_spec(bytes: Seq<u8>, r: int) -> int {
    rlc_acc_spec(bytes.subrange(37, 68), 0, 1, r)
}

/// Whether the nonce (or, over the after-side payload, the balance) is
/// length-prefixed rather than a single literal byte.
pub open spec fn spec_value_is_long(first_byte: u8) -> bool {
    first_byte > 128
}

/// The whole-leaf accumulator after the nonce/balance row: the key-row
/// accumulator extended over the four RLP bytes, the nonce and the
/// balance.
pub open spec fn nonce_balance_acc_spec(
    bytes: Seq<u8>,
    acc_prev: int,
    acc_mult_prev: int,
    acc_mult_after_nonce: int,
    nonce_long: bool,
    balance_long: bool,
    r: int,
) -> int {
    let nonce_vl = nonce_value_long_rlc_spec(bytes, r);
    let balance_vl = balance_value_long_rlc_spec(bytes, r);
    let nonce_rlc = if nonce_long {
        fadd_spec(bytes[2] as int, fmul_spec(nonce_vl, r))
    } else {
        bytes[2] as int
    };
    let balance_rlc = if balance_long {
        fadd_spec(bytes[36] as int, fmul_spec(balance_vl, r))
    } else {
        bytes[36] as int
    };
    let m1 = fmul_spec(acc_mult_prev, r);
    let m2 = fmul_spec(m1, r);
    let m3 = fmul_spec(m2, r);
    let m4 = fmul_spec(m3, r);
    fadd_spec(
        fadd_spec(
            fadd_spec(
                fadd_spec(
                    fadd_spec(
                        fadd_spec(acc_prev, fmul_spec(bytes[0] as int, acc_mult_prev)),
                        fmul_spec(bytes[1] as int, m1),
                    ),
                    fmul_spec(bytes[34] as int, m2),
                ),
                fmul_spec(bytes[35] as int, m3),
            ),
            fmul_spec(nonce_rlc, m4),
        ),
        fmul_spec(balance_rlc, acc_mult_after_nonce),
    )
}

/// Every nonce/balance assertion of one account-leaf row.
pub open spec fn nonce_balance_ok(
    bytes: Seq<u8>,
    inp: NonceBalanceInput,
    fixed: Seq<FixedTableRow>,
    is_s: bool,
    r: int,
) -> bool {
    let nonce_long = inp.is_nonce_long == 1;
    let balance_long = inp.is_balance_long == 1;
    // The RLP shape constraints apply except in the nil case of a
    // non-existence proof, where the leaf is only a placeholder.
    let rlp_checked = !(inp.is_non_existing_account_proof && inp.is_wrong_leaf == 0);
    let nonce_vl = nonce_value_long_rlc_spec(bytes, r);
    let balance_vl = balance_value_long_rlc_spec(bytes, r);
    let m1 = fmul_spec(inp.acc_mult_prev as int, r);
    let m2 = fmul_spec(m1, r);
    let m3 = fmul_spec(m2, r);
    let m4 = fmul_spec(m3, r);
    let m5 = fmul_spec(m4, r);
    let expr = nonce_balance_acc_spec(
        bytes,
        inp.acc_prev as int,
        inp.acc_mult_prev as int,
        inp.acc_mult_after_nonce as int,
        nonce_long,
        balance_long,
        r,
    );
    let nonce_len = if nonce_long {
        bytes[2] as int - 128 + 1
    } else {
        1int
    };
    let balance_len = if balance_long {
        bytes[36] as int - 128 + 1
    } else {
        1int
    };
    // The two sub-encoding flags and the wrong-leaf flag are boolean.
    &&& inp.is_nonce_long <= 1
    &&& inp.is_balance_long <= 1
    &&& inp.is_wrong_leaf <= 1
    // A short value occupies only its first payload byte.
    &&& !nonce_long ==> (forall|i: int| 3 <= i < 34 ==> bytes[i] == 0)
    &&& !balance_long ==> (forall|i: int| 37 <= i < 68 ==> bytes[i] == 0)
    // The stored nonce and balance RLCs match the payload bytes.
    &&& nonce_long ==> inp.nonce_stored == nonce_vl
    &&& !nonce_long ==> inp.nonce_stored == bytes[2] as int
    &&& balance_long ==> inp.balance_stored == balance_vl
    &&& !balance_long ==> inp.balance_stored == bytes[36] as int
    // The whole-leaf accumulator extends the key-row accumulator over the
    // RLP bytes, the nonce and the balance.
    &&& inp.acc == expr
    // The multiplier after the nonce, and the final multiplier, advance by
    // the length-dependent powers of the randomness.
    &&& nonce_long ==> inp.acc_mult_after_nonce == fmul_spec(
        inp.acc_mult_prev as int,
        inp.mult_diff_nonce as int,
    )
    &&& !nonce_long ==> inp.acc_mult_after_nonce == m5
    &&& inp.acc_mult_final == fmul_spec(
        inp.acc_mult_after_nonce as int,
        inp.mult_diff_balance as int,
    )
    &&& nonce_long ==> fixed_table_contains_spec(
        fixed,
        0,
        fadd_spec(fsub_spec(bytes[2] as int, 128), 5) as u64,
        inp.mult_diff_nonce,
    )
    &&& balance_long ==> fixed_table_contains_spec(
        fixed,
        0,
        fadd_spec(fsub_spec(bytes[36] as int, 128), 1) as u64,
        inp.mult_diff_balance,
    )
    // RLP length equations of the leaf.
    &&& rlp_checked ==> bytes[0] == 184
    &&& rlp_checked ==> bytes[34] == 248
    &&& rlp_checked ==> bytes[1] as int == bytes[35] as int + 2
    &&& rlp_checked ==> bytes[35] as int == nonce_len + balance_len + 66
    &&& rlp_checked ==> inp.key_row_rlp2 as int == (inp.key_row_len_byte as int - 128) + 1
        + bytes[1] as int + 2
    // After side: the before-side values are carried over, and only the
    // modified field may change.
    &&& !is_s ==> inp.nonce_s_from_prev == inp.nonce_s_from_cur
    &&& !is_s ==> inp.balance_s_from_prev == inp.balance_s_from_cur
    &&& (!is_s && (inp.is_storage_mod || inp.is_balance_mod) && !inp.is_account_delete_mod)
        ==> inp.nonce_s_from_cur == inp.nonce_stored
    &&& (!is_s && (inp.is_storage_mod || inp.is_nonce_mod) && !inp.is_account_delete_mod)
        ==> inp.balance_s_from_cur == inp.balance_stored
}

/// The nonce/balance component for one side of the proof.
pub struct AccountLeafNonceBalanceConfig {
    pub acc_r: u64,
    pub is_s: bool,
}

/// The nonce/balance chip: the component together with its configuration.
pub struct AccountLeafNonceBalanceChip {
    pub config: AccountLeafNonceBalanceConfig,
}

impl AccountLeafNonceBalanceChip {
    pub fn configure(acc_r: u64, is_s: bool) -> (c: AccountLeafNonceBalanceConfig)
        requires
            is_felt(acc_r),
        ensures
            c.acc_r == acc_r,
            c.is_s == is_s,
    {
        AccountLeafNonceBalanceConfig { acc_r, is_s }
    }

    pub fn construct(config: AccountLeafNonceBalanceConfig) -> (chip: AccountLeafNonceBalanceChip)
        ensures
            chip.config == config,
    {
        AccountLeafNonceBalanceChip { config }
    }

    /// Evaluates every nonce/balance assertion on one row.
    pub fn check(&self, row: &MptWitnessRow, inp: &NonceBalanceInput, fixed: &Vec<FixedTableRow>)
        -> (ok: bool)
        requires
            is_felt(self.config.acc_r),
            row.well_formed(),
            inp.wf(),
        ensures
            ok == nonce_balance_ok(
                row.bytes@,
                *inp,
                fixed@,
                self.config.is_s,
                self.config.acc_r as int,
            ),
    {
        let r = self.config.acc_r;
        let is_s = self.config.is_s;
        let nonce_long = inp.is_nonce_long == 1;
        let balance_long = inp.is_balance_long == 1;
        let rlp_checked = !(inp.is_non_existing_account_proof && inp.is_wrong_leaf == 0);
        let b0 = row.get_byte(0) as u64;
        let b1 = row.get_byte(1) as u64;
        let b2 = row.get_byte(2) as u64;
        let b34 = row.get_byte(34) as u64;
        let b35 = row.get_byte(35) as u64;
        let b36 = row.get_byte(36) as u64;
        let (nonce_vl, _m) = fold_window(&row.bytes, 3, 31, 0, 1, r);
        let (balance_vl, _m2) = fold_window(&row.bytes, 37, 31, 0, 1, r);
        let nonce_rlc = if nonce_long {
            fadd(b2, fmul(nonce_vl, r))
        } else {
            b2
        };
        let balance_rlc = if balance_long {
            fadd(b36, fmul(balance_vl, r))
        } else {
            b36
        };
        let m1 = fmul(inp.acc_mult_prev, r);
        let m2 = fmul(m1, r);
        let m3 = fmul(m2, r);
        let m4 = fmul(m3, r);
        let m5 = fmul(m4, r);
        let expr = fadd(
            fadd(
                fadd(
                    fadd(
                        fadd(fadd(inp.acc_prev, fmul(b0, inp.acc_mult_prev)), fmul(b1, m1)),
                        fmul(b34, m2),
                    ),
                    fmul(b35, m3),
                ),
                fmul(nonce_rlc, m4),
            ),
            fmul(balance_rlc, inp.acc_mult_after_nonce),
        );
        // The nonce and balance lengths, each offset by 128 so the length
        // equation can be compared without underflow.
        let nonce_len_p128: u64 = if nonce_long {
            b2 + 1
        } else {
            1 + 128
        };
        let balance_len_p128: u64 = if balance_long {
            b36 + 1
        } else {
            1 + 128
        };
        let mut ok = inp.is_nonce_long <= 1 && inp.is_balance_long <= 1 && inp.is_wrong_leaf <= 1;
        ok = ok && (nonce_long || bytes_all_zero(&row.bytes, 3, 31));
        ok = ok && (balance_long || bytes_all_zero(&row.bytes, 37, 31));
        ok = ok && (if nonce_long {
            inp.nonce_stored == nonce_vl
        } else {
            inp.nonce_stored == b2
        });
        ok = ok && (if balance_long {
            inp.balance_stored == balance_vl
        } else {
            inp.balance_stored == b36
        });
        ok = ok && inp.acc == expr;
        ok = ok && (if nonce_long {
            inp.acc_mult_after_nonce == fmul(inp.acc_mult_prev, inp.mult_diff_nonce)
        } else {
            inp.acc_mult_after_nonce == m5
        });
        ok = ok && inp.acc_mult_final == fmul(inp.acc_mult_after_nonce, inp.mult_diff_balance);
        ok = ok && (!nonce_long || fixed_table_contains(
            fixed,
            0,
            fadd(fsub(b2, 128), 5),
            inp.mult_diff_nonce,
        ));
        ok = ok && (!balance_long || fixed_table_contains(
            fixed,
            0,
            fadd(fsub(b36, 128), 1),
            inp.mult_diff_balance,
        ));
        ok = ok && (!rlp_checked || (b0 == 184 && b34 == 248 && b1 == b35 + 2 && b35 + 256
            == nonce_len_p128 + balance_len_p128 + 66 && inp.key_row_rlp2 as u64 + 128
            == inp.key_row_len_byte as u64 + 1 + b1 + 2));
        if !is_s {
            ok = ok && inp.nonce_s_from_prev == inp.nonce_s_from_cur && inp.balance_s_from_prev
                == inp.balance_s_from_cur;
            ok = ok && (!((inp.is_storage_mod || inp.is_balance_mod)
                && !inp.is_account_delete_mod) || inp.nonce_s_from_cur == inp.nonce_stored);
            ok = ok && (!((inp.is_storage_mod || inp.is_nonce_mod) && !inp.is_account_delete_mod)
                || inp.balance_s_from_cur == inp.balance_stored);
        }
        ok
    }
}

} // verus!
