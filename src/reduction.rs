//! A model of an ordered parallel reduction by concatenation: the shape in
//! which a work-splitting runtime may combine partial results.

use vstd::prelude::*;
use vstd::seq_lib::lemma_flatten_concat;

verus! {

/// One way of combining a sequence of pieces: each leaf is a piece or an
/// inserted empty identity value, and each inner node concatenates the result
/// of its left subtree with that of its right subtree.
pub enum ReductionTree {
    Piece(Seq<char>),
    Identity,
    Join(Box<ReductionTree>, Box<ReductionTree>),
}

impl ReductionTree {
    /// The pieces at the leaves, left to right (identity leaves hold none).
    pub open spec fn pieces(self) -> Seq<Seq<char>>
        decreases self,
    {
        match self {
            ReductionTree::Piece(p) => seq![p],
            ReductionTree::Identity => Seq::empty(),
            ReductionTree::Join(l, r) => l.pieces() + r.pieces(),
        }
    }

    /// What combining along this tree produces.
    pub open spec fn value(self) -> Seq<char>
        decreases self,
    {
        match self {
            ReductionTree::Piece(p) => p,
            ReductionTree::Identity => Seq::empty(),
            ReductionTree::Join(l, r) => l.value() + r.value(),
        }
    }
}

/// `r` is what some order-keeping reduction of `pieces` by concatenation,
/// seeded with empty identity values, produces.
pub open spec fn is_ordered_reduction(pieces: Seq<Seq<char>>, r: Seq<char>) -> bool {
    exists|t: ReductionTree| t.pieces() == pieces && #[trigger] t.value() == r
}

/// Combining along any tree gives the concatenation of its pieces.
pub proof fn lemma_tree_value(t: ReductionTree)
    ensures
        t.value() == t.pieces().flatten(),
    decreases t,
{
    match t {
        ReductionTree::Piece(p) => {
            assert(seq![p].drop_first() =~= Seq::<Seq<char>>::empty());
            assert(seq![p].flatten() == p + Seq::<Seq<char>>::empty().flatten());
            assert(p + Seq::<char>::empty() =~= p);
        },
        ReductionTree::Identity => {},
        ReductionTree::Join(l, r) => {
            lemma_tree_value(*l);
            lemma_tree_value(*r);
            lemma_flatten_concat(l.pieces(), r.pieces());
        },
    }
}

/// However an ordered reduction by concatenation splits its work, and however
/// many empty identity values it inserts, its result is the pieces
/// concatenated in their original order.
pub proof fn lemma_ordered_reduction_is_concatenation(pieces: Seq<Seq<char>>, r: Seq<char>)
    requires
        is_ordered_reduction(pieces, r),
    ensures
        r == pieces.flatten(),
{
    let t = choose|t: ReductionTree| t.pieces() == pieces && #[trigger] t.value() == r;
    lemma_tree_value(t);
}

} // verus!
