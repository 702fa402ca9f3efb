//! The append-only sequence of leaves held by a curve tree.
use crate::encoding::{point_error, DeserializationError, Point};
use vstd::prelude::*;

verus! {

/// The leaves of a curve tree, in the order in which they were inserted.
///
/// Leaves are never removed or reordered: the position of a leaf is the
/// number of leaves inserted before it.
pub struct TreeState {
    leaves: Vec<Point>,
}

impl View for TreeState {
    type V = Seq<Seq<u8>>;

    closed spec fn view(&self) -> Seq<Seq<u8>> {
        self.leaves@.map_values(|p: Point| p@)
    }
}

/// Every leaf of the sequence is a valid point encoding.
pub open spec fn leaves_wf(leaves: Seq<Seq<u8>>) -> bool {
    forall|i: int| 0 <= i < leaves.len() ==> #[trigger] point_error(leaves[i]) is None
}

impl TreeState {
    /// Every leaf that the tree holds is a valid point encoding.
    pub open spec fn wf(&self) -> bool {
        leaves_wf(self@)
    }

    /// An empty tree.
    pub fn new() -> (r: TreeState)
        ensures
            r@ == Seq::<Seq<u8>>::empty(),
            r.wf(),
    {
        let r = TreeState { leaves: Vec::new() };
        assert(r@ =~= Seq::<Seq<u8>>::empty());
        r
    }

    /// The number of leaves in the tree.
    pub fn len(&self) -> (r: usize)
        ensures
            r == self@.len(),
    {
        self.leaves.len()
    }

    /// Whether the tree holds no leaf.
    pub fn is_empty(&self) -> (r: bool)
        ensures
            r == (self@.len() == 0),
    {
        self.leaves.len() == 0
    }

    /// The leaf at position `i`.
    pub fn leaf(&self, i: usize) -> (r: Point)
        requires
            i < self@.len(),
        ensures
            r@ == self@[i as int],
    {
        self.leaves[i]
    }

    /// Whether some leaf of the tree is encoded by the given bytes.
    pub fn contains(&self, b: &[u8]) -> (r: bool)
        ensures
            r == self@.contains(b@),
    {
        let mut i: usize = 0;
        while i < self.leaves.len()
            invariant
                0 <= i <= self.leaves@.len(),
                self@.len() == self.leaves@.len(),
                forall|j: int| 0 <= j < i ==> self@[j] != b@,
            decreases self.leaves@.len() - i,
        {
            if self.leaves[i].is_encoded_by(b) {
                assert(self@[i as int] == b@);
                return true;
            }
            i = i + 1;
        }
        false
    }

    /// Appends a leaf that has already been read.
    fn push(&mut self, p: Point)
        requires
            old(self).wf(),
            p.wf(),
        ensures
            final(self)@ == old(self)@.push(p@),
            final(self).wf(),
    {
        self.leaves.push(p);
        assert(self@ =~= old(self)@.push(p@));
    }
}

/// Reads a squashed enote and appends it to the tree as its last leaf.
///
/// Bytes that are not the canonical encoding of a point of the prime-order
/// subgroup are refused, and the tree is then left as it was.
pub fn add_squashed_enote_to_tree(state: &mut TreeState, squashed_enote: &[u8]) -> (r: Result<
    Point,
    DeserializationError,
>)
    requires
        old(state).wf(),
    ensures
        final(state).wf(),
        point_error(squashed_enote@) is None <==> r is Ok,
        r matches Ok(p) ==> p@ == squashed_enote@ && final(state)@ == old(state)@.push(
            squashed_enote@,
        ),
        r matches Err(e) ==> point_error(squashed_enote@) == Some(e) && final(state)@ == old(
            state,
        )@,
{
    match Point::from_bytes(squashed_enote) {
        Ok(p) => {
            state.push(p);
            Ok(p)
        },
        Err(e) => Err(e),
    }
}

} // verus!
