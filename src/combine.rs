//! The three combiners: sequential fold, per-item formatting then
//! concatenation, and a parallel map-reduce.

use vstd::prelude::*;
use rayon::iter::IntoParallelRefIterator;
use rayon::iter::ParallelIterator;
use crate::markup::{combined, folded, tag, tagged, tagged_all};
use crate::reduction::{is_ordered_reduction, lemma_ordered_reduction_is_concatenation};

verus! {

/// Combines the items by appending each one, wrapped, to a single output
/// buffer, visiting them in order.
pub fn combine_via_fold(items: &Vec<String>) -> (r: String)
    ensures
        r@ == folded(items.deep_view()),
{
    let ghost all = items.deep_view();
    let mut output = String::new();
    let mut i: usize = 0;
    while i < items.len()
        invariant
            i <= items.len(),
            all == items.deep_view(),
            output@ == folded(all.take(i as int)),
        decreases items.len() - i,
    {
        let ghost before = output@;
        output.append("<p>");
        output.append(items[i].as_str());
        output.append("</p>\n");
        proof {
            assert(all.take(i + 1).drop_last() =~= all.take(i as int));
            assert(output@ =~= before + tagged(all[i as int]));
        }
        i += 1;
    }
    assert(all.take(items.len() as int) =~= all);
    output
}

/// Concatenates the pieces in their order.
fn concat_pieces(pieces: &Vec<String>) -> (r: String)
    ensures
        r@ == pieces.deep_view().flatten(),
{
    let ghost all = pieces.deep_view();
    let mut r = String::new();
    let mut k: usize = 0;
    while k < pieces.len()
        invariant
            k <= pieces.len(),
            all == pieces.deep_view(),
            r@ == all.take(k as int).flatten(),
        decreases pieces.len() - k,
    {
        r.append(pieces[k].as_str());
        proof {
            assert(all.take(k + 1) =~= all.take(k as int).push(all[k as int]));
            all.take(k as int).lemma_flatten_push(all[k as int]);
        }
        k += 1;
    }
    assert(all.take(pieces.len() as int) =~= all);
    r
}

/// Combines the items by wrapping each one into a string of its own, then
/// concatenating all of those in their original order.
pub fn combine_via_collect(items: &Vec<String>) -> (r: String)
    ensures
        r@ == combined(items.deep_view()),
{
    let mut pieces: Vec<String> = Vec::new();
    let mut i: usize = 0;
    while i < items.len()
        invariant
            i <= items.len(),
            pieces.len() == i,
            forall|j: int| 0 <= j < i ==> #[trigger] pieces[j]@ == tagged(items[j]@),
        decreases items.len() - i,
    {
        pieces.push(tag(&items[i]));
        i += 1;
    }
    assert(pieces.deep_view() =~= tagged_all(items.deep_view()));
    concat_pieces(&pieces)
}

/// An empty piece: the identity value of the parallel reduction.
fn empty_piece() -> (r: String)
    ensures
        r@ == Seq::<char>::empty(),
{
    String::new()
}

/// Concatenates two partial results, left before right.
fn join_pieces(a: String, b: String) -> (r: String)
    ensures
        r@ == a@ + b@,
{
    let mut r = a;
    r.append(b.as_str());
    r
}

/// Relies on rayon's `par_iter().map(..).reduce(..)` over a slice: every item
/// is mapped once, by `tag`, and the mapped items are combined by `join_pieces`
/// along a split of the slice into contiguous runs, each run folded from
/// `empty_piece()` and adjacent results joined left before right.
#[verifier::external_body]
fn par_tag_and_reduce(items: &Vec<String>) -> (r: String)
    ensures
        is_ordered_reduction(tagged_all(items.deep_view()), r@),
{
    items.par_iter().map(|item| tag(item)).reduce(empty_piece, join_pieces)
}

/// Combines the items by tagging them in parallel and reducing the tagged
/// pieces pairwise by concatenation, keeping their order.
pub fn combine_via_rayon(items: &Vec<String>) -> (r: String)
    ensures
        r@ == combined(items.deep_view()),
{
    let r = par_tag_and_reduce(items);
    proof {
        lemma_ordered_reduction_is_concatenation(tagged_all(items.deep_view()), r@);
    }
    r
}

} // verus!
