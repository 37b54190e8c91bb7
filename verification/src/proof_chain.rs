//! The root-continuity component across chained proofs: the after-root of
//! each proof must equal the before-root of the next, and the outermost
//! roots must equal the externally supplied public commitments.

use vstd::prelude::*;

verus! {

/// The folded start and final root of one proof in a chain.
#[derive(Clone, Copy, PartialEq, Eq, Structural, Debug)]
pub struct ProofRoots {
    pub start_root: u64,
    pub final_root: u64,
}

/// Root continuity over a whole chain: consecutive proofs agree on their
/// shared root, and the ends match the public commitments.
pub open spec fn proof_chain_ok(chain: Seq<ProofRoots>, pub_start: u64, pub_final: u64) -> bool {
    &&& chain.len() > 0
    &&& chain[0].start_root == pub_start
    &&& chain[chain.len() - 1].final_root == pub_final
    &&& forall|i: int|
        0 <= i < chain.len() - 1 ==> (#[trigger] chain[i]).final_root == chain[i + 1].start_root
}

/// The root-continuity component.
pub struct ProofChainConfig {}

impl ProofChainConfig {
    pub fn configure() -> (c: ProofChainConfig) {
        ProofChainConfig {}
    }

    /// Evaluates root continuity over a chain of proofs.
    pub fn check(&self, chain: &Vec<ProofRoots>, pub_start: u64, pub_final: u64) -> (ok: bool)
        ensures
            ok == proof_chain_ok(chain@, pub_start, pub_final),
    {
        if chain.len() == 0 {
            return false;
        }
        if chain[0].start_root != pub_start {
            return false;
        }
        if chain[chain.len() - 1].final_root != pub_final {
            return false;
        }
        let n = chain.len();
        let mut i: usize = 0;
        while i + 1 < n
            invariant
                i < n == chain@.len(),
                forall|j: int|
                    0 <= j < i ==> (#[trigger] chain@[j]).final_root == chain@[j + 1].start_root,
        decreases chain@.len() - i,
        {
            if chain[i].final_root != chain[i + 1].start_root {
                return false;
            }
            i = i + 1;
        }
        true
    }
}

/// Root continuity: in an accepted chain, the after-root of each proof is
/// the before-root of the one that follows it.
pub proof fn lemma_chained_roots_agree(
    chain: Seq<ProofRoots>,
    pub_start: u64,
    pub_final: u64,
    i: int,
)
    requires
        proof_chain_ok(chain, pub_start, pub_final),
        0 <= i < chain.len() - 1,
    ensures
        chain[i].final_root == chain[i + 1].start_root,
{
}

} // verus!
