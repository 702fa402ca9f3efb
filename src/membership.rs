//! When a membership proof may be made, and when one is accepted.
//!
//! A proof is bound to the tree as it stood when the proof was requested:
//! it carries the number of leaves the tree held then, and it is accepted
//! only while the tree still holds exactly that many. Once a leaf has been
//! added, every earlier proof is refused.
use crate::encoding::{point_error, scalar_error, Blind, DeserializationError, Point};
use crate::tree::TreeState;
use vstd::prelude::*;

verus! {

/// Why a proof could not be requested.
#[derive(Clone, Copy, Debug, PartialEq, Eq, Structural)]
pub enum ProveError {
    /// The blind is not a canonical scalar encoding.
    MalformedBlind(DeserializationError),
    /// The leaf is not a valid point encoding.
    MalformedLeaf(DeserializationError),
    /// The leaf is a valid point that the tree does not hold.
    LeafNotInTree,
}

/// The error a proof request is refused with, if any: the blind is read
/// first, then the leaf, then the leaf is looked up in the tree.
pub open spec fn prove_error(leaves: Seq<Seq<u8>>, blind: Seq<u8>, leaf: Seq<u8>) -> Option<
    ProveError,
> {
    if let Some(e) = scalar_error(blind) {
        Some(ProveError::MalformedBlind(e))
    } else if let Some(e) = point_error(leaf) {
        Some(ProveError::MalformedLeaf(e))
    } else if !leaves.contains(leaf) {
        Some(ProveError::LeafNotInTree)
    } else {
        None
    }
}

/// Whether a proof made against a tree of `tree_size` leaves is accepted
/// against the tree `leaves`, given the verdict of the proof system.
pub open spec fn verify_outcome(leaves: Seq<Seq<u8>>, tree_size: nat, proof_system_accepts: bool) -> bool {
    tree_size == leaves.len() && proof_system_accepts
}

/// What the proof system is asked to prove: that `leaf`, blinded by
/// `blind`, is a leaf of the tree of `tree_size` leaves.
#[derive(Clone, Copy, Debug)]
pub struct ProofRequest {
    pub blind: Blind,
    pub leaf: Point,
    pub tree_size: usize,
}

/// A blinded point and a proof that it opens to a leaf of a tree, together
/// with the number of leaves of the tree the proof was made against.
///
/// The proof is held as the proof system hands it out.
pub struct BlindedPointAndProof<P> {
    pub blinded_point: Point,
    pub proof: P,
    pub tree_size: usize,
}

impl<P> BlindedPointAndProof<P> {
    /// Reads a blinded point and pairs it with a proof made against a tree
    /// of `tree_size` leaves.
    pub fn new(blinded_point: &[u8], proof: P, tree_size: usize) -> (r: Result<
        BlindedPointAndProof<P>,
        DeserializationError,
    >)
        ensures
            point_error(blinded_point@) is None <==> r is Ok,
            r matches Ok(x) ==> x.blinded_point@ == blinded_point@ && x.proof == proof
                && x.tree_size == tree_size,
            r matches Err(e) ==> point_error(blinded_point@) == Some(e),
    {
        match Point::from_bytes(blinded_point) {
            Ok(p) => Ok(BlindedPointAndProof { blinded_point: p, proof, tree_size }),
            Err(e) => Err(e),
        }
    }
}

/// Checks a request for a membership proof of `squashed_enote` under `blind`.
///
/// The request is granted exactly when the blind is a canonical scalar, the
/// leaf is a valid point and the tree holds it; a leaf that was never
/// inserted is refused here, before any proof is made.
pub fn prove(state: &TreeState, blind: &[u8], squashed_enote: &[u8]) -> (r: Result<
    ProofRequest,
    ProveError,
>)
    ensures
        prove_error(state@, blind@, squashed_enote@) is None <==> r is Ok,
        r matches Ok(q) ==> q.blind@ == blind@ && q.leaf@ == squashed_enote@ && q.tree_size
            == state@.len(),
        r matches Err(e) ==> prove_error(state@, blind@, squashed_enote@) == Some(e),
{
    let blind = match Blind::from_bytes(blind) {
        Ok(s) => s,
        Err(e) => {
            return Err(ProveError::MalformedBlind(e));
        },
    };
    let leaf = match Point::from_bytes(squashed_enote) {
        Ok(p) => p,
        Err(e) => {
            return Err(ProveError::MalformedLeaf(e));
        },
    };
    if !state.contains(squashed_enote) {
        return Err(ProveError::LeafNotInTree);
    }
    Ok(ProofRequest { blind, leaf, tree_size: state.len() })
}

/// Whether a proof was made against the tree as it stands now, so that the
/// proof system is to be asked about it.
pub fn is_bound_to<P>(state: &TreeState, proof_res: &BlindedPointAndProof<P>) -> (r: bool)
    ensures
        r == (proof_res.tree_size == state@.len()),
{
    proof_res.tree_size == state.len()
}

/// Decides whether a proof is accepted against the tree as it stands now,
/// given the verdict of the proof system on the blinded point and the proof.
pub fn verify<P>(state: &TreeState, proof_res: &BlindedPointAndProof<P>, proof_system_accepts: bool) -> (r: bool)
    ensures
        r == verify_outcome(state@, proof_res.tree_size as nat, proof_system_accepts),
{
    is_bound_to(state, proof_res) && proof_system_accepts
}

} // verus!
