//! Membership bookkeeping for a curve tree of Ed25519 points.
//!
//! The library owns the decisions around a curve-tree membership proof:
//! which byte strings are accepted as leaves, blinds and blinded points,
//! which leaves the tree holds and in what order, when a proof may be
//! requested, and which tree a proof is bound to. The proof system itself
//! is driven by the host from the values this library hands out.
use vstd::prelude::*;

pub mod encoding;
pub mod tree;
pub mod membership;
pub mod laws;

verus! {

} // verus!
