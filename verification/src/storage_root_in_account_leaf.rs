//! The root-continuity component between an account leaf and its storage
//! trie: whatever node stands in the first level of the storage trie must
//! hash to the storage root stored in the account leaf.
//!
//! Four placements are covered: an ordinary branch, an extension node, a
//! lone storage leaf, and a lone storage leaf after a placeholder branch.
//! A placeholder leaf in the first level instead requires the stored
//! storage root to be the hash of the empty trie.

use vstd::prelude::*;

verus! {

use crate::field::{fadd, fadd_spec, fmul, fmul_spec, is_felt};
use crate::mpt::KeccakTable;
use crate::param::{HASH_WIDTH, S_START};
use crate::rlc::{bytes_rlc_spec, fold_window};
use crate::witness_row::MptWitnessRow;

/// The 32-byte digest of the empty trie.
pub open spec fn empty_trie_hash_spec() -> Seq<u8> {
    seq![
        86u8,
        232,
        31,
        23,
        27,
        204,
        85,
        166,
        255,
        131,
        69,
        230,
        146,
        192,
        248,
        110,
        91,
        72,
        224,
        27,
        153,
        108,
        173,
        192,
        1,
        98,
        47,
        181,
        227,
        99,
        180,
        33,
    ]
}

pub fn empty_trie_hash() -> (h: Vec<u8>)
    ensures
        h@ == empty_trie_hash_spec(),
{
    let h: Vec<u8> = vec![
        86u8,
        232,
        31,
        23,
        27,
        204,
        85,
        166,
        255,
        131,
        69,
        230,
        146,
        192,
        248,
        110,
        91,
        72,
        224,
        27,
        153,
        108,
        173,
        192,
        1,
        98,
        47,
        181,
        227,
        99,
        180,
        33,
    ];
    proof {
        assert(h@ =~= empty_trie_hash_spec());
    }
    h
}

/// The folded storage root carried in an account storage-codehash row: it
/// always stands in the before-side payload bytes.
pub open spec fn storage_root_rlc_spec(codehash_row: Seq<u8>, r: int) -> int {
    bytes_rlc_spec(codehash_row.subrange(S_START as int, (S_START + HASH_WIDTH) as int), r)
}

/// A first-storage-level branch must hash to the account's storage root.
pub open spec fn storage_root_branch_ok(
    codehash_row: Seq<u8>,
    branch_acc: u64,
    branch_mult: u64,
    is_branch_placeholder: bool,
    keccak: KeccakTable,
    r: int,
) -> bool {
    let full_branch = fadd_spec(branch_acc as int, fmul_spec(128, branch_mult as int));
    !is_branch_placeholder ==> keccak.spec_contains(
        full_branch as u64,
        storage_root_rlc_spec(codehash_row, r) as u64,
    )
}

/// A first-storage-level extension node must hash to the storage root.
pub open spec fn storage_root_ext_ok(
    codehash_row: Seq<u8>,
    ext_acc: u64,
    is_branch_placeholder: bool,
    keccak: KeccakTable,
    r: int,
) -> bool {
    !is_branch_placeholder ==> keccak.spec_contains(
        ext_acc,
        storage_root_rlc_spec(codehash_row, r) as u64,
    )
}

/// A lone first-storage-level leaf must hash to the storage root — unless
/// it is a placeholder, in which case the storage root must be the empty
/// trie's digest.
pub open spec fn storage_root_leaf_ok(
    codehash_row: Seq<u8>,
    leaf_acc: u64,
    is_placeholder_leaf: bool,
    keccak: KeccakTable,
    r: int,
) -> bool {
    &&& !is_placeholder_leaf ==> keccak.spec_contains(
        leaf_acc,
        storage_root_rlc_spec(codehash_row, r) as u64,
    )
    &&& is_placeholder_leaf ==> codehash_row.subrange(
        S_START as int,
        (S_START + HASH_WIDTH) as int,
    ) == empty_trie_hash_spec()
}

/// The storage-root component for one side of the proof.
pub struct StorageRootConfig {
    pub acc_r: u64,
    pub is_s: bool,
}

/// The storage-root chip: the component together with its configuration.
pub struct StorageRootChip {
    pub config: StorageRootConfig,
}

impl StorageRootChip {
    pub fn configure(acc_r: u64, is_s: bool) -> (c: StorageRootConfig)
        requires
            is_felt(acc_r),
        ensures
            c.acc_r == acc_r,
            c.is_s == is_s,
    {
        StorageRootConfig { acc_r, is_s }
    }

    pub fn construct(config: StorageRootConfig) -> (chip: StorageRootChip)
        ensures
            chip.config == config,
    {
        StorageRootChip { config }
    }

    /// The folded storage root of an account storage-codehash row.
    pub fn storage_root_rlc(&self, codehash_row: &MptWitnessRow) -> (rlc: u64)
        requires
            is_felt(self.config.acc_r),
            codehash_row.well_formed(),
        ensures
            rlc == storage_root_rlc_spec(codehash_row.bytes@, self.config.acc_r as int),
            is_felt(rlc),
    {
        let (rlc, _m) = fold_window(
            &codehash_row.bytes,
            S_START,
            HASH_WIDTH,
            0,
            1,
            self.config.acc_r,
        );
        rlc
    }

    /// Checks a first-storage-level branch against the storage root.
    pub fn check_branch(
        &self,
        codehash_row: &MptWitnessRow,
        branch_acc: u64,
        branch_mult: u64,
        is_branch_placeholder: bool,
        keccak: &KeccakTable,
    ) -> (ok: bool)
        requires
            is_felt(self.config.acc_r),
            codehash_row.well_formed(),
            is_felt(branch_acc),
            is_felt(branch_mult),
        ensures
            ok == storage_root_branch_ok(
                codehash_row.bytes@,
                branch_acc,
                branch_mult,
                is_branch_placeholder,
                *keccak,
                self.config.acc_r as int,
            ),
    {
        if is_branch_placeholder {
            true
        } else {
            let full_branch = fadd(branch_acc, fmul(128, branch_mult));
            let root = self.storage_root_rlc(codehash_row);
            keccak.contains(full_branch, root)
        }
    }

    /// Checks a first-storage-level extension node against the storage
    /// root.
    pub fn check_extension(
        &self,
        codehash_row: &MptWitnessRow,
        ext_acc: u64,
        is_branch_placeholder: bool,
        keccak: &KeccakTable,
    ) -> (ok: bool)
        requires
            is_felt(self.config.acc_r),
            codehash_row.well_formed(),
        ensures
            ok == storage_root_ext_ok(
                codehash_row.bytes@,
                ext_acc,
                is_branch_placeholder,
                *keccak,
                self.config.acc_r as int,
            ),
    {
        if is_branch_placeholder {
            true
        } else {
            let root = self.storage_root_rlc(codehash_row);
            keccak.contains(ext_acc, root)
        }
    }

    /// Checks a lone first-storage-level leaf against the storage root.
    pub fn check_leaf(
        &self,
        codehash_row: &MptWitnessRow,
        leaf_acc: u64,
        is_placeholder_leaf: bool,
        keccak: &KeccakTable,
    ) -> (ok: bool)
        requires
            is_felt(self.config.acc_r),
            codehash_row.well_formed(),
        ensures
            ok == storage_root_leaf_ok(
                codehash_row.bytes@,
                leaf_acc,
                is_placeholder_leaf,
                *keccak,
                self.config.acc_r as int,
            ),
    {
        if is_placeholder_leaf {
            let expected = empty_trie_hash();
            let mut i: usize = 0;
            let mut same = true;
            while i < HASH_WIDTH
                invariant
                    i <= HASH_WIDTH,
                    expected@ == empty_trie_hash_spec(),
                    codehash_row.well_formed(),
                    same == (forall|j: int|
                        0 <= j < i ==> codehash_row.bytes@[S_START + j] == expected@[j]),
                decreases HASH_WIDTH - i,
            {
                if codehash_row.get_byte(S_START + i) != expected[i] {
                    same = false;
                }
                i = i + 1;
            }
            proof {
                if same {
                    assert(codehash_row.bytes@.subrange(S_START as int, (S_START + HASH_WIDTH) as int)
                        =~= empty_trie_hash_spec());
                } else {
                    assert(codehash_row.bytes@.subrange(S_START as int, (S_START + HASH_WIDTH) as int)
                        != empty_trie_hash_spec()) by {
                        let sub = codehash_row.bytes@.subrange(
                            S_START as int,
                            (S_START + HASH_WIDTH) as int,
                        );
                        let k = choose|j: int|
                            0 <= j < HASH_WIDTH && codehash_row.bytes@[S_START + j]
                                != empty_trie_hash_spec()[j];
                        assert(sub[k] != empty_trie_hash_spec()[k]);
                    }
                }
            }
            same
        } else {
            let root = self.storage_root_rlc(codehash_row);
            keccak.contains(leaf_acc, root)
        }
    }
}

} // verus!
