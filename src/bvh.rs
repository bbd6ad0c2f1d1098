use vstd::prelude::*;

verus! {

/// The position of a node in a binary tree laid out as an implicit heap: the
/// root at 0, and the children of node `i` at `2i + 1` and `2i + 2`.
#[derive(Clone, Copy, Debug, PartialEq, Eq, Structural)]
pub struct BvhIndex(pub usize);

impl BvhIndex {
    /// The left child of this node.
    pub fn left(self) -> (r: Self)
        requires
            2 * self.0 + 1 <= usize::MAX,
        ensures
            r.0 == 2 * self.0 + 1,
    {
        BvhIndex((2 * self.0) + 1)
    }

    /// The right child of this node.
    pub fn right(self) -> (r: Self)
        requires
            2 * self.0 + 2 <= usize::MAX,
        ensures
            r.0 == 2 * self.0 + 2,
    {
        BvhIndex((2 * self.0) + 2)
    }
}

} // verus!
