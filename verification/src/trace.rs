//! Counting over sequences of actions.

use vstd::prelude::*;

verus! {

/// How many items of `items` satisfy `wanted`.
pub open spec fn count_where<A>(items: Seq<A>, wanted: spec_fn(A) -> bool) -> nat
    decreases items.len(),
{
    if items.len() == 0 {
        0
    } else {
        count_where(items.drop_last(), wanted) + if wanted(items.last()) {
            1nat
        } else {
            0nat
        }
    }
}

/// Counting distributes over concatenation.
pub proof fn lemma_count_where_concat<A>(left: Seq<A>, right: Seq<A>, wanted: spec_fn(A) -> bool)
    ensures
        count_where(left + right, wanted) == count_where(left, wanted) + count_where(
            right,
            wanted,
        ),
    decreases right.len(),
{
    if right.len() == 0 {
        assert(left + right =~= left);
    } else {
        assert((left + right).drop_last() =~= left + right.drop_last());
        assert((left + right).last() == right.last());
        lemma_count_where_concat(left, right.drop_last(), wanted);
    }
}

/// The last four items of a sequence, as `drop_last` reaches them one
/// after the other.
pub proof fn lemma_drop_last_chain<A>(items: Seq<A>)
    ensures
        items.len() >= 1 ==> items.drop_last().len() == items.len() - 1 && items.last()
            == items[items.len() - 1],
        items.len() >= 2 ==> items.drop_last().drop_last().len() == items.len() - 2
            && items.drop_last().last() == items[items.len() - 2],
        items.len() >= 3 ==> items.drop_last().drop_last().drop_last().len() == items.len() - 3
            && items.drop_last().drop_last().last() == items[items.len() - 3],
        items.len() >= 4 ==> items.drop_last().drop_last().drop_last().drop_last().len()
            == items.len() - 4 && items.drop_last().drop_last().drop_last().last()
            == items[items.len() - 4],
{
}

} // verus!
