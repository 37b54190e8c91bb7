//! Layout constants of the witness-row format and of the branch-init
//! selector bytes.

use vstd::prelude::*;

verus! {

/// Number of columns used for a hash output.
pub const HASH_WIDTH: usize = 32;

/// How many RLP-specific bytes stand before the hash bytes of a branch child.
pub const RLP_NUM: usize = 2;

pub const S_RLP_START: usize = 0;

/// Where the hash of a child starts in the before-side half of a row.
pub const S_START: usize = 2;

/// Where the after-side RLP bytes start.
pub const C_RLP_START: usize = 34;

/// Where the hash of a child starts in the after-side half of a row.
pub const C_START: usize = 36;

/// Number of content bytes of a row (both halves, RLP bytes included).
pub const WITNESS_ROW_WIDTH: usize = 68;

/// Rows a branch occupies: 1 init + 16 children + 2 extension rows.
pub const BRANCH_ROWS_NUM: usize = 19;

pub const EXTENSION_ROWS_NUM: usize = 2;

/// How many powers of the folding randomness the multiplier table carries.
pub const R_TABLE_LEN: usize = 32;

// Branch init row: the first 4 bytes select how many RLP-specific bytes the
// before/after branch encodings have; the RLP bytes themselves follow.
pub const BRANCH_0_S_START: usize = 4;

pub const BRANCH_0_C_START: usize = 7;

/// Which branch child is being modified.
pub const BRANCH_0_KEY_POS: usize = 10;

pub const IS_BRANCH_S_PLACEHOLDER_POS: usize = 11;

pub const IS_BRANCH_C_PLACEHOLDER_POS: usize = 12;

/// To which position in a newly added branch the displaced leaf drifted.
pub const DRIFTED_POS: usize = 13;

/// Whether the modified child's nibble is weighted by 16 at this branch.
pub const IS_BRANCH_C16_POS: usize = 19;

/// Whether the modified child's nibble is weighted by 1 at this branch.
pub const IS_BRANCH_C1_POS: usize = 20;

// The six mutually exclusive extension-node shape selectors: one nibble
// (short) or more (long), even or odd nibble count, combined with the c16/c1
// weighting of the underlying branch's modified child.
pub const IS_EXT_SHORT_C16_POS: usize = 21;

pub const IS_EXT_SHORT_C1_POS: usize = 22;

pub const IS_EXT_LONG_EVEN_C16_POS: usize = 23;

pub const IS_EXT_LONG_EVEN_C1_POS: usize = 24;

pub const IS_EXT_LONG_ODD_C16_POS: usize = 25;

pub const IS_EXT_LONG_ODD_C1_POS: usize = 26;

/// Whether the whole extension-node encoding is longer than 55 bytes.
pub const IS_S_EXT_LONGER_THAN_55_POS: usize = 27;

pub const IS_C_EXT_LONGER_THAN_55_POS: usize = 28;

/// Whether the extension node itself is shorter than 32 bytes and therefore
/// stands unhashed in its parent.
pub const IS_S_EXT_NODE_NON_HASHED_POS: usize = 29;

pub const IS_C_EXT_NODE_NON_HASHED_POS: usize = 30;

/// Running count of key nibbles consumed up to and including this branch.
pub const NIBBLES_COUNTER_POS: usize = 33;

// Trailing tag bytes, addressed from the end of a row:
// `row[len - POS]`.
pub const NOT_FIRST_LEVEL_POS: usize = 2;

pub const IS_STORAGE_MOD_POS: usize = 3;

pub const IS_NONCE_MOD_POS: usize = 4;

pub const IS_BALANCE_MOD_POS: usize = 5;

pub const IS_CODEHASH_MOD_POS: usize = 6;

pub const IS_ACCOUNT_DELETE_MOD_POS: usize = 7;

pub const IS_NON_EXISTING_ACCOUNT_POS: usize = 8;

// Row offsets within the storage-leaf block.
pub const LEAF_KEY_S_IND: usize = 0;

pub const LEAF_VALUE_S_IND: usize = 1;

pub const LEAF_KEY_C_IND: usize = 2;

pub const LEAF_VALUE_C_IND: usize = 3;

pub const LEAF_DRIFTED_IND: usize = 4;

// Row offsets within the account-leaf block.
pub const ACCOUNT_LEAF_KEY_S_IND: usize = 0;

pub const ACCOUNT_LEAF_KEY_C_IND: usize = 1;

pub const ACCOUNT_NON_EXISTING_IND: usize = 2;

pub const ACCOUNT_LEAF_NONCE_BALANCE_S_IND: usize = 3;

pub const ACCOUNT_LEAF_NONCE_BALANCE_C_IND: usize = 4;

pub const ACCOUNT_LEAF_STORAGE_CODEHASH_S_IND: usize = 5;

pub const ACCOUNT_LEAF_STORAGE_CODEHASH_C_IND: usize = 6;

pub const ACCOUNT_DRIFTED_LEAF_IND: usize = 7;

pub const ACCOUNT_LEAF_ROWS: usize = 8;

/// The shortest row this library accepts: all content bytes plus the trailing
/// tag bytes addressed from the end.
pub const MIN_ROW_LEN: usize = 76;

} // verus!
