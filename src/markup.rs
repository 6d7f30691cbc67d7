//! The markup that every combiner produces, as a mathematical model.

use vstd::prelude::*;

verus! {

/// `item` wrapped as one paragraph: `<p>`, the item, `</p>` and a newline.
pub open spec fn tagged(item: Seq<char>) -> Seq<char> {
    "<p>"@ + item + "</p>\n"@
}

/// Each item of `items` wrapped as a paragraph, in the same order.
pub open spec fn tagged_all(items: Seq<Seq<char>>) -> Seq<Seq<char>> {
    items.map_values(|item: Seq<char>| tagged(item))
}

/// The combined output: the wrapped items concatenated in their original order.
pub open spec fn combined(items: Seq<Seq<char>>) -> Seq<char> {
    tagged_all(items).flatten()
}

/// The output built by visiting the items in order and appending each
/// wrapped item to one growing buffer.
pub open spec fn folded(items: Seq<Seq<char>>) -> Seq<char> {
    items.fold_left(Seq::empty(), |acc: Seq<char>, item: Seq<char>| acc + tagged(item))
}

/// Appending the wrapped items one by one to a growing buffer gives the same
/// output as wrapping each item on its own and concatenating the results in
/// order, so the fold combiner agrees with the collect and parallel ones.
pub proof fn lemma_combiners_agree(items: Seq<Seq<char>>)
    ensures
        folded(items) == combined(items),
    decreases items.len(),
{
    if items.len() == 0 {
        assert(tagged_all(items) =~= Seq::<Seq<char>>::empty());
    } else {
        let rest = items.drop_last();
        lemma_combiners_agree(rest);
        assert(tagged_all(items) =~= tagged_all(rest).push(tagged(items.last())));
        tagged_all(rest).lemma_flatten_push(tagged(items.last()));
    }
}

/// Wraps one item as a paragraph.
pub fn tag(item: &String) -> (r: String)
    ensures
        r@ == tagged(item@),
{
    let mut r = String::from_str("<p>");
    r.append(item.as_str());
    r.append("</p>\n");
    r
}

} // verus!
