//! Witness rows and the row classifier.
//!
//! A witness row is a fixed-width byte record: two parallel halves (before
//! and after side), each holding RLP prefix bytes and up to 32 payload
//! bytes, followed by trailing tag bytes addressed from the end of the row
//! (first-level flag, modification-type flags) and, last, the row-kind
//! discriminant.

use vstd::prelude::*;

verus! {

use crate::param::{MIN_ROW_LEN, NOT_FIRST_LEVEL_POS};

/// The kind of a witness row, read from its last byte.
#[derive(Clone, Copy, PartialEq, Eq, Structural, Debug)]
pub enum MptWitnessRowType {
    InitBranch,
    BranchChild,
    StorageLeafSKey,
    StorageLeafCKey,
    HashToBeComputed,
    AccountLeafKeyS,
    AccountLeafKeyC,
    AccountLeafNonceBalanceS,
    AccountLeafNonceBalanceC,
    AccountLeafRootCodehashS,
    AccountLeafNeighbouringLeaf,
    AccountLeafRootCodehashC,
    StorageLeafSValue,
    StorageLeafCValue,
    NeighbouringStorageLeaf,
    ExtensionNodeS,
    ExtensionNodeC,
    AccountNonExisting,
}

/// The discriminant byte each row kind is stored as.
pub open spec fn row_type_tag(t: MptWitnessRowType) -> u8 {
    match t {
        MptWitnessRowType::InitBranch => 0,
        MptWitnessRowType::BranchChild => 1,
        MptWitnessRowType::StorageLeafSKey => 2,
        MptWitnessRowType::StorageLeafCKey => 3,
        MptWitnessRowType::HashToBeComputed => 5,
        MptWitnessRowType::AccountLeafKeyS => 6,
        MptWitnessRowType::AccountLeafKeyC => 4,
        MptWitnessRowType::AccountLeafNonceBalanceS => 7,
        MptWitnessRowType::AccountLeafNonceBalanceC => 8,
        MptWitnessRowType::AccountLeafRootCodehashS => 9,
        MptWitnessRowType::AccountLeafNeighbouringLeaf => 10,
        MptWitnessRowType::AccountLeafRootCodehashC => 11,
        MptWitnessRowType::StorageLeafSValue => 13,
        MptWitnessRowType::StorageLeafCValue => 14,
        MptWitnessRowType::NeighbouringStorageLeaf => 15,
        MptWitnessRowType::ExtensionNodeS => 16,
        MptWitnessRowType::ExtensionNodeC => 17,
        MptWitnessRowType::AccountNonExisting => 18,
    }
}

/// The row kind a discriminant byte stands for, if any.
pub open spec fn row_type_of_byte(b: u8) -> Option<MptWitnessRowType> {
    if b == 0 {
        Some(MptWitnessRowType::InitBranch)
    } else if b == 1 {
        Some(MptWitnessRowType::BranchChild)
    } else if b == 2 {
        Some(MptWitnessRowType::StorageLeafSKey)
    } else if b == 3 {
        Some(MptWitnessRowType::StorageLeafCKey)
    } else if b == 5 {
        Some(MptWitnessRowType::HashToBeComputed)
    } else if b == 6 {
        Some(MptWitnessRowType::AccountLeafKeyS)
    } else if b == 4 {
        Some(MptWitnessRowType::AccountLeafKeyC)
    } else if b == 7 {
        Some(MptWitnessRowType::AccountLeafNonceBalanceS)
    } else if b == 8 {
        Some(MptWitnessRowType::AccountLeafNonceBalanceC)
    } else if b == 9 {
        Some(MptWitnessRowType::AccountLeafRootCodehashS)
    } else if b == 10 {
        Some(MptWitnessRowType::AccountLeafNeighbouringLeaf)
    } else if b == 11 {
        Some(MptWitnessRowType::AccountLeafRootCodehashC)
    } else if b == 13 {
        Some(MptWitnessRowType::StorageLeafSValue)
    } else if b == 14 {
        Some(MptWitnessRowType::StorageLeafCValue)
    } else if b == 15 {
        Some(MptWitnessRowType::NeighbouringStorageLeaf)
    } else if b == 16 {
        Some(MptWitnessRowType::ExtensionNodeS)
    } else if b == 17 {
        Some(MptWitnessRowType::ExtensionNodeC)
    } else if b == 18 {
        Some(MptWitnessRowType::AccountNonExisting)
    } else {
        None
    }
}

/// One raw witness row.
pub struct MptWitnessRow {
    pub bytes: Vec<u8>,
}

impl MptWitnessRow {
    /// A row is well formed when it is wide enough for every content and
    /// trailing-tag access and its discriminant byte names a row kind.
    pub open spec fn well_formed(self) -> bool {
        &&& self.bytes@.len() >= MIN_ROW_LEN
        &&& row_type_of_byte(self.bytes@[self.bytes@.len() - 1]) is Some
    }

    pub open spec fn spec_type(self) -> MptWitnessRowType
        recommends
            self.well_formed(),
    {
        row_type_of_byte(self.bytes@[self.bytes@.len() - 1]).unwrap()
    }

    /// Whether this row stands below the first level of its proof.
    pub open spec fn spec_not_first_level(self) -> u8
        recommends
            self.well_formed(),
    {
        self.bytes@[self.bytes@.len() - NOT_FIRST_LEVEL_POS]
    }

    pub fn new(bytes: Vec<u8>) -> (row: MptWitnessRow)
        ensures
            row.bytes@ == bytes@,
    {
        MptWitnessRow { bytes }
    }

    pub fn get_byte(&self, ind: usize) -> (b: u8)
        requires
            ind < self.bytes@.len(),
        ensures
            b == self.bytes@[ind as int],
    {
        self.bytes[ind]
    }

    /// A trailing tag byte, addressed from the end of the row.
    pub fn get_byte_rev(&self, rev_ind: usize) -> (b: u8)
        requires
            0 < rev_ind <= self.bytes@.len(),
        ensures
            b == self.bytes@[self.bytes@.len() - rev_ind],
    {
        self.bytes[self.bytes.len() - rev_ind]
    }

    pub fn get_type(&self) -> (t: MptWitnessRowType)
        requires
            self.well_formed(),
        ensures
            t == self.spec_type(),
    {
        let b = self.get_byte_rev(1);
        match row_type_from_byte(b) {
            Some(t) => t,
            None => MptWitnessRowType::HashToBeComputed,
        }
    }

    pub fn not_first_level(&self) -> (b: u8)
        requires
            self.well_formed(),
        ensures
            b == self.spec_not_first_level(),
    {
        self.get_byte_rev(NOT_FIRST_LEVEL_POS)
    }

    pub fn len(&self) -> (n: usize)
        ensures
            n == self.bytes@.len(),
    {
        self.bytes.len()
    }
}

/// Whether every byte of `row[start .. start + len]` is zero, as the
/// assertions demand of the columns past a short value.
pub fn bytes_all_zero(row: &Vec<u8>, start: usize, len: usize) -> (r: bool)
    requires
        start + len <= row@.len(),
    ensures
        r == (forall|i: int| start <= i < start + len ==> row@[i] == 0),
{
    let n = row.len();
    let mut i: usize = start;
    while i < start + len
        invariant
            start <= i <= start + len,
            start + len <= n == row@.len(),
            forall|j: int| start <= j < i ==> row@[j] == 0,
        decreases start + len - i,
    {
        if row[i] != 0 {
            return false;
        }
        i = i + 1;
    }
    true
}

/// Classifies a discriminant byte.
pub fn row_type_from_byte(b: u8) -> (t: Option<MptWitnessRowType>)
    ensures
        t == row_type_of_byte(b),
{
    if b == 0 {
        Some(MptWitnessRowType::InitBranch)
    } else if b == 1 {
        Some(MptWitnessRowType::BranchChild)
    } else if b == 2 {
        Some(MptWitnessRowType::StorageLeafSKey)
    } else if b == 3 {
        Some(MptWitnessRowType::StorageLeafCKey)
    } else if b == 5 {
        Some(MptWitnessRowType::HashToBeComputed)
    } else if b == 6 {
        Some(MptWitnessRowType::AccountLeafKeyS)
    } else if b == 4 {
        Some(MptWitnessRowType::AccountLeafKeyC)
    } else if b == 7 {
        Some(MptWitnessRowType::AccountLeafNonceBalanceS)
    } else if b == 8 {
        Some(MptWitnessRowType::AccountLeafNonceBalanceC)
    } else if b == 9 {
        Some(MptWitnessRowType::AccountLeafRootCodehashS)
    } else if b == 10 {
        Some(MptWitnessRowType::AccountLeafNeighbouringLeaf)
    } else if b == 11 {
        Some(MptWitnessRowType::AccountLeafRootCodehashC)
    } else if b == 13 {
        Some(MptWitnessRowType::StorageLeafSValue)
    } else if b == 14 {
        Some(MptWitnessRowType::StorageLeafCValue)
    } else if b == 15 {
        Some(MptWitnessRowType::NeighbouringStorageLeaf)
    } else if b == 16 {
        Some(MptWitnessRowType::ExtensionNodeS)
    } else if b == 17 {
        Some(MptWitnessRowType::ExtensionNodeC)
    } else if b == 18 {
        Some(MptWitnessRowType::AccountNonExisting)
    } else {
        None
    }
}

} // verus!
