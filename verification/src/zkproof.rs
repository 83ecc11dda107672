//! The proof-acceptance predicate.
//!
//! A proof artifact is an opaque byte buffer.  The acceptance rule of this
//! prototype is a stand-in for a real zero-knowledge proof check: a proof is
//! accepted exactly when it is 64 bytes long.  The state machine in
//! [`crate::sensor`] depends only on this boolean predicate, so a real
//! checker can be substituted without touching it.

use vstd::prelude::*;

verus! {

/// The length a proof artifact must have to be accepted.
pub const PROOF_LEN: usize = 64;

/// A proof is accepted iff it is exactly [`PROOF_LEN`] bytes long.
pub open spec fn proof_accepted(proof: Seq<u8>) -> bool {
    proof.len() == PROOF_LEN
}

/// Decide whether a claimed proof is acceptable.
///
/// Total over all byte sequences, including the empty one; no side effects.
pub fn verify_zk_proof(proof: &[u8]) -> (accepted: bool)
    ensures
        accepted == proof_accepted(proof@),
{
    proof.len() == PROOF_LEN
}

} // verus!
