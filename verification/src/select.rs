//! Choosing among items by answers that were given for each of them: the
//! plain part of every query that asks, item by item, whether a version lies
//! in a range.

use vstd::prelude::*;

verus! {

/// The items whose answer is yes, in their order. An item without an answer
/// is left out.
pub open spec fn flagged<T>(items: Seq<T>, flags: Seq<bool>) -> Seq<T>
    decreases items.len(),
{
    if items.len() == 0 {
        Seq::empty()
    } else {
        let before = flagged(items.drop_last(), flags);
        if items.len() <= flags.len() && flags[items.len() - 1] {
            before.push(items.last())
        } else {
            before
        }
    }
}

/// The position of the first yes among `flags`, or their number where there
/// is none.
pub open spec fn first_yes(flags: Seq<bool>) -> int
    decreases flags.len(),
{
    if flags.len() == 0 || flags[0] {
        0
    } else {
        1 + first_yes(flags.drop_first())
    }
}

/// Keeping by answers that say for each item whether `keep` holds of it is
/// filtering by `keep`.
pub proof fn lemma_flagged_is_filter<T>(items: Seq<T>, flags: Seq<bool>, keep: spec_fn(T) -> bool)
    requires
        flags.len() >= items.len(),
        forall|i: int| 0 <= i < items.len() ==> flags[i] == keep(#[trigger] items[i]),
    ensures
        flagged(items, flags) == items.filter(keep),
    decreases items.len(),
{
    reveal(Seq::filter);
    if items.len() > 0 {
        let front = items.drop_last();
        assert forall|i: int| 0 <= i < front.len() implies flags[i] == keep(#[trigger] front[i]) by {
            assert(front[i] == items[i]);
        }
        lemma_flagged_is_filter(front, flags, keep);
        assert(flags[items.len() - 1] == keep(items[items.len() - 1]));
    }
}

/// Keeps the items whose answer is yes, in their order.
pub fn keep_flagged<T>(items: Vec<T>, flags: &Vec<bool>) -> (kept: Vec<T>)
    ensures
        kept@ == flagged(items@, flags@),
{
    let ghost all = items@;
    let count = items.len();
    let mut kept: Vec<T> = Vec::new();
    let mut i: usize = 0;
    proof {
        assert(all.take(0) =~= Seq::<T>::empty());
    }
    for item in it: items.into_iter()
        invariant
            it.seq() == all,
            all.len() == count,
            i == it.index(),
            kept@ == flagged(all.take(it.index() as int), flags@),
    {
        proof {
            let next = all.take(i + 1);
            assert(next.drop_last() =~= all.take(i as int));
            assert(next.last() == item);
        }
        if i < flags.len() && flags[i] {
            kept.push(item);
        }
        i = i + 1;
    }
    proof {
        assert(all.take(all.len() as int) =~= all);
    }
    kept
}

/// The position of the first yes among `flags`.
pub fn first_flagged(flags: &Vec<bool>) -> (found: Option<usize>)
    ensures
        match found {
            Some(at) => at == first_yes(flags@) && at < flags.len(),
            None => first_yes(flags@) == flags.len(),
        },
{
    let mut i: usize = 0;
    proof {
        assert(flags@.skip(0) =~= flags@);
    }
    while i < flags.len()
        invariant
            i <= flags.len(),
            first_yes(flags@) == i + first_yes(flags@.skip(i as int)),
        decreases flags.len() - i,
    {
        proof {
            assert(flags@.skip(i as int).drop_first() =~= flags@.skip(i + 1));
            assert(flags@.skip(i as int)[0] == flags@[i as int]);
        }
        if flags[i] {
            return Some(i);
        }
        i = i + 1;
    }
    None
}

} // verus!
