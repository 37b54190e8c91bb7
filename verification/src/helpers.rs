//! Small helpers shared by the components: the extension-node selectors
//! read from a branch init row, the boolean-value predicate, and the
//! packing of a 32-byte digest into four little-endian machine words.

use vstd::prelude::*;

verus! {

use crate::param::{
    IS_EXT_LONG_EVEN_C16_POS,
    IS_EXT_LONG_EVEN_C1_POS,
    IS_EXT_LONG_ODD_C16_POS,
    IS_EXT_LONG_ODD_C1_POS,
    IS_EXT_SHORT_C16_POS,
    IS_EXT_SHORT_C1_POS,
};
use crate::witness_row::MptWitnessRow;

/// A value the assertions treat as a selector: zero or one.
pub open spec fn is_bool_value(v: u64) -> bool {
    v == 0 || v == 1
}

/// The boolean-value assertion on one selector.
pub fn get_bool_constraint(v: u64) -> (ok: bool)
    ensures
        ok == is_bool_value(v),
{
    v <= 1
}

/// Whether a branch init row marks its branch as lying under an extension
/// node: the sum of the six shape selectors.
pub open spec fn spec_is_extension_node(init: Seq<u8>) -> bool {
    init[IS_EXT_SHORT_C16_POS as int] == 1 || init[IS_EXT_SHORT_C1_POS as int] == 1
        || init[IS_EXT_LONG_EVEN_C16_POS as int] == 1 || init[IS_EXT_LONG_EVEN_C1_POS as int] == 1
        || init[IS_EXT_LONG_ODD_C16_POS as int] == 1 || init[IS_EXT_LONG_ODD_C1_POS as int] == 1
}

pub fn get_is_extension_node(init_row: &MptWitnessRow) -> (r: bool)
    requires
        init_row.well_formed(),
    ensures
        r == spec_is_extension_node(init_row.bytes@),
{
    init_row.get_byte(IS_EXT_SHORT_C16_POS) == 1 || init_row.get_byte(IS_EXT_SHORT_C1_POS) == 1
        || init_row.get_byte(IS_EXT_LONG_EVEN_C16_POS) == 1 || init_row.get_byte(
        IS_EXT_LONG_EVEN_C1_POS,
    ) == 1 || init_row.get_byte(IS_EXT_LONG_ODD_C16_POS) == 1 || init_row.get_byte(
        IS_EXT_LONG_ODD_C1_POS,
    ) == 1
}

/// Whether a branch init row marks a one-nibble extension node.
pub open spec fn spec_is_extension_node_one_nibble(init: Seq<u8>) -> bool {
    init[IS_EXT_SHORT_C16_POS as int] == 1 || init[IS_EXT_SHORT_C1_POS as int] == 1
}

pub fn get_is_extension_node_one_nibble(init_row: &MptWitnessRow) -> (r: bool)
    requires
        init_row.well_formed(),
    ensures
        r == spec_is_extension_node_one_nibble(init_row.bytes@),
{
    init_row.get_byte(IS_EXT_SHORT_C16_POS) == 1 || init_row.get_byte(IS_EXT_SHORT_C1_POS) == 1
}

/// The little-endian machine word packed from 8 digest bytes starting at
/// `start`.
pub open spec fn spec_word_of(hash: Seq<u8>, start: int) -> int {
    hash[start] + hash[start + 1] * 0x100 + hash[start + 2] * 0x1_0000 + hash[start + 3]
        * 0x100_0000 + hash[start + 4] * 0x1_0000_0000 + hash[start + 5] * 0x100_0000_0000 + hash[
        start + 6] * 0x1_0000_0000_0000 + hash[start + 7] * 0x100_0000_0000_0000
}

/// Packs 32 digest bytes into 4 little-endian 64-bit words.
pub fn into_words(hash: &Vec<u8>) -> (words: Vec<u64>)
    requires
        hash@.len() == 32,
    ensures
        words@.len() == 4,
        forall|i: int| 0 <= i < 4 ==> words@[i] == spec_word_of(hash@, 8 * i),
{
    let mut words: Vec<u64> = Vec::new();
    let mut i: usize = 0;
    while i < 4
        invariant
            i <= 4,
            hash@.len() == 32,
            words@.len() == i,
            forall|k: int| 0 <= k < i ==> words@[k] == spec_word_of(hash@, 8 * k),
        decreases 4 - i,
    {
        let o = 8 * i;
        let word: u64 = hash[o] as u64 + hash[o + 1] as u64 * 0x100 + hash[o + 2] as u64
            * 0x1_0000 + hash[o + 3] as u64 * 0x100_0000 + hash[o + 4] as u64 * 0x1_0000_0000
            + hash[o + 5] as u64 * 0x100_0000_0000 + hash[o + 6] as u64 * 0x1_0000_0000_0000
            + hash[o + 7] as u64 * 0x100_0000_0000_0000;
        words.push(word);
        i = i + 1;
    }
    words
}

} // verus!
