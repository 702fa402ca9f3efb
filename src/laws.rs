//! Laws relating insertion, proof requests and verification.
use crate::encoding::{is_point_encoding, point_error, scalar_error, DeserializationError};
use crate::membership::{prove_error, verify_outcome, ProveError};
use crate::tree::leaves_wf;
use vstd::prelude::*;

verus! {

/// A leaf that was inserted can then be proved under any canonical blind,
/// and a proof made against the tree as it stands is accepted exactly when
/// the proof system accepts it.
pub proof fn lemma_inserted_leaf_round_trip(
    before: Seq<Seq<u8>>,
    leaf: Seq<u8>,
    blind: Seq<u8>,
    proof_system_accepts: bool,
)
    requires
        point_error(leaf) is None,
        scalar_error(blind) is None,
    ensures
        prove_error(before.push(leaf), blind, leaf) is None,
        verify_outcome(before.push(leaf), before.push(leaf).len(), proof_system_accepts)
            == proof_system_accepts,
{
    assert(before.push(leaf)[before.len() as int] == leaf);
}

/// Every leaf that a well-formed tree holds can be proved under any
/// canonical blind.
pub proof fn lemma_held_leaf_is_provable(leaves: Seq<Seq<u8>>, blind: Seq<u8>, leaf: Seq<u8>)
    requires
        leaves_wf(leaves),
        leaves.contains(leaf),
        scalar_error(blind) is None,
    ensures
        prove_error(leaves, blind, leaf) is None,
{
    let i = choose|i: int| 0 <= i < leaves.len() && leaves[i] == leaf;
    assert(point_error(leaves[i]) is None);
}

/// A proof is never requested for a leaf that the tree does not hold.
pub proof fn lemma_absent_leaf_refused(leaves: Seq<Seq<u8>>, blind: Seq<u8>, leaf: Seq<u8>)
    requires
        !leaves.contains(leaf),
    ensures
        prove_error(leaves, blind, leaf) is Some,
{
}

/// Once a leaf has been inserted, a proof made against the tree before the
/// insertion is refused, whatever the proof system says of it.
pub proof fn lemma_grown_tree_refuses_old_proof(
    before: Seq<Seq<u8>>,
    leaf: Seq<u8>,
    proof_system_accepts: bool,
)
    ensures
        !verify_outcome(before.push(leaf), before.len(), proof_system_accepts),
{
}

/// A blind or a leaf of the wrong length, or a leaf that is not a point of
/// the prime-order subgroup, is refused with a deserialization error.
pub proof fn lemma_malformed_input_refused(leaves: Seq<Seq<u8>>, blind: Seq<u8>, leaf: Seq<u8>)
    ensures
        blind.len() != 32 ==> prove_error(leaves, blind, leaf) == Some(
            ProveError::MalformedBlind(DeserializationError::WrongLength),
        ),
        scalar_error(blind) is None && leaf.len() != 32 ==> prove_error(leaves, blind, leaf)
            == Some(ProveError::MalformedLeaf(DeserializationError::WrongLength)),
        scalar_error(blind) is None && leaf.len() == 32 && !is_point_encoding(leaf)
            ==> prove_error(leaves, blind, leaf) == Some(
            ProveError::MalformedLeaf(DeserializationError::InvalidPoint),
        ),
        leaf.len() != 32 ==> point_error(leaf) == Some(DeserializationError::WrongLength),
        leaf.len() == 32 && !is_point_encoding(leaf) ==> point_error(leaf) == Some(
            DeserializationError::InvalidPoint,
        ),
{
}

} // verus!
