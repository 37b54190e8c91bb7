//! Verified encoding of a Merkle-Patricia-trie modification proof as a flat
//! table of rows with per-row algebraic assertions.
//!
//! The library models the verification algorithm for a path of trie nodes
//! (the witness) as:
//!  - an accumulator engine folding byte windows into random-linear-combination
//!    (RLC) scalars over a 64-bit prime field (`field`, `rlc`),
//!  - a row classifier over fixed-width witness rows (`witness_row`),
//!  - per-node-kind assertion checkers (branch key, extension node, leaf key,
//!    account nonce/balance, storage root, non-existence, root continuity),
//!  - the sequential witness-assignment pass that derives the accumulator
//!    columns the assertions validate (`mpt`).
//!
//! The generic proving backend that would turn a satisfied table into a
//! succinct proof, and the hash function itself, are outside collaborators:
//! hashes enter only through a relation table of (folded bytes, folded digest)
//! pairs supplied by the caller.

pub mod account_leaf_nonce_balance;
pub mod account_non_existing;
pub mod branch_key;
pub mod extension_node;
pub mod field;
pub mod helpers;
pub mod leaf_key;
pub mod mpt;
pub mod param;
pub mod proof_chain;
pub mod rlc;
pub mod storage_root_in_account_leaf;
pub mod witness_row;
