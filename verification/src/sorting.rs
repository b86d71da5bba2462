//! Sorting versions from the highest to the lowest.

use vstd::prelude::*;
use crate::order::Precedence;
use crate::version::{
    at_least, lemma_at_least_transitive, lemma_precedence_flip, Version, VersionView,
};

verus! {

/// The models of a sequence of versions.
pub open spec fn version_views(versions: Seq<Version>) -> Seq<VersionView> {
    versions.map_values(|v: Version| v@)
}

/// No version of `s` sorts before a later one.
pub open spec fn is_descending(s: Seq<VersionView>) -> bool {
    forall|i: int, j: int| 0 <= i < j < s.len() ==> at_least(#[trigger] s[i], #[trigger] s[j])
}

/// `v` put into the descending sequence `sorted`, before the first version
/// that does not sort after it.
pub open spec fn insert_descending(sorted: Seq<VersionView>, v: VersionView) -> Seq<VersionView>
    decreases sorted.len(),
{
    if sorted.len() == 0 {
        seq![v]
    } else if at_least(v, sorted[0]) {
        seq![v] + sorted
    } else {
        seq![sorted[0]] + insert_descending(sorted.drop_first(), v)
    }
}

/// The versions of `s` from the highest to the lowest. Of two versions with
/// the same precedence, the one that comes later in `s` comes first.
pub open spec fn sort_descending(s: Seq<VersionView>) -> Seq<VersionView>
    decreases s.len(),
{
    if s.len() == 0 {
        s
    } else {
        insert_descending(sort_descending(s.drop_last()), s.last())
    }
}

/// The place where `insert_descending` puts `v`: behind every version that
/// sorts after it, and before the first that does not.
pub proof fn lemma_insert_position(sorted: Seq<VersionView>, v: VersionView, k: int)
    requires
        0 <= k <= sorted.len(),
        forall|j: int| 0 <= j < k ==> !at_least(v, #[trigger] sorted[j]),
        k < sorted.len() ==> at_least(v, sorted[k]),
    ensures
        insert_descending(sorted, v) == sorted.insert(k, v),
    decreases k,
{
    if k == 0 {
        assert(insert_descending(sorted, v) =~= sorted.insert(0, v));
    } else {
        assert(!at_least(v, sorted[0]));
        let rest = sorted.drop_first();
        assert forall|j: int| 0 <= j < k - 1 implies !at_least(v, #[trigger] rest[j]) by {
            assert(rest[j] == sorted[j + 1]);
        }
        lemma_insert_position(rest, v, k - 1);
        assert(seq![sorted[0]] + rest.insert(k - 1, v) =~= sorted.insert(k, v));
    }
}

/// The place where `insert_descending` puts `v`.
pub open spec fn insert_place(sorted: Seq<VersionView>, v: VersionView) -> int
    decreases sorted.len(),
{
    if sorted.len() == 0 || at_least(v, sorted[0]) {
        0
    } else {
        1 + insert_place(sorted.drop_first(), v)
    }
}

/// `insert_place` is behind every version that sorts after `v`, and before
/// the first that does not.
pub proof fn lemma_insert_place(sorted: Seq<VersionView>, v: VersionView)
    ensures
        0 <= insert_place(sorted, v) <= sorted.len(),
        forall|j: int| 0 <= j < insert_place(sorted, v) ==> !at_least(v, #[trigger] sorted[j]),
        insert_place(sorted, v) < sorted.len() ==> at_least(v, sorted[insert_place(sorted, v)]),
    decreases sorted.len(),
{
    if sorted.len() == 0 || at_least(v, sorted[0]) {
    } else {
        let rest = sorted.drop_first();
        lemma_insert_place(rest, v);
        assert forall|j: int| 0 <= j < insert_place(sorted, v) implies !at_least(
            v,
            #[trigger] sorted[j],
        ) by {
            if j > 0 {
                assert(sorted[j] == rest[j - 1]);
            }
        }
    }
}

/// Inserting keeps a descending sequence descending, and adds `v` to what it
/// holds and nothing else.
pub proof fn lemma_insert_descending(sorted: Seq<VersionView>, v: VersionView)
    requires
        is_descending(sorted),
    ensures
        is_descending(insert_descending(sorted, v)),
        insert_descending(sorted, v).to_multiset() == sorted.to_multiset().insert(v),
        insert_descending(sorted, v).len() == sorted.len() + 1,
{
    let k = insert_place(sorted, v);
    lemma_insert_place(sorted, v);
    lemma_insert_position(sorted, v, k);
    let out = sorted.insert(k, v);
    vstd::seq_lib::to_multiset_insert(sorted, k, v);
    assert forall|i: int, j: int| 0 <= i < j < out.len() implies at_least(
        #[trigger] out[i],
        #[trigger] out[j],
    ) by {
        if j < k {
            assert(at_least(sorted[i], sorted[j]));
        } else if j == k {
            lemma_precedence_flip(v, sorted[i]);
        } else if i < k {
            assert(at_least(sorted[i], sorted[j - 1]));
        } else if i == k {
            if j - 1 > k {
                assert(at_least(sorted[k], sorted[j - 1]));
                lemma_at_least_transitive(v, sorted[k], sorted[j - 1]);
            }
        } else {
            assert(at_least(sorted[i - 1], sorted[j - 1]));
        }
    }
}

/// Sorting yields a descending sequence that holds what the input holds.
pub proof fn lemma_sort_descending(s: Seq<VersionView>)
    ensures
        is_descending(sort_descending(s)),
        sort_descending(s).to_multiset() == s.to_multiset(),
        sort_descending(s).len() == s.len(),
    decreases s.len(),
{
    broadcast use vstd::seq_lib::group_to_multiset_ensures;

    if s.len() > 0 {
        lemma_sort_descending(s.drop_last());
        lemma_insert_descending(sort_descending(s.drop_last()), s.last());
        assert(s =~= s.drop_last().push(s.last()));
    }
}

/// Sorts the versions from the highest to the lowest.
pub fn sort_versions_descending(versions: Vec<Version>) -> (sorted: Vec<Version>)
    ensures
        version_views(sorted@) == sort_descending(version_views(versions@)),
        is_descending(version_views(sorted@)),
        version_views(sorted@).to_multiset() == version_views(versions@).to_multiset(),
{
    let ghost all = version_views(versions@);
    proof {
        lemma_sort_descending(all);
    }
    let ghost given = versions@;
    let mut sorted: Vec<Version> = Vec::new();
    proof {
        assert(version_views(sorted@) =~= sort_descending(all.take(0)));
    }
    for version in it: versions.into_iter()
        invariant
            it.seq() == given,
            all == version_views(given),
            version_views(sorted@) == sort_descending(all.take(it.index() as int)),
    {
        let ghost before = version_views(sorted@);
        let mut k: usize = 0;
        while k < sorted.len() && matches!(version.compare(&sorted[k]), Precedence::Lower)
            invariant
                k <= sorted.len(),
                before == version_views(sorted@),
                forall|j: int| 0 <= j < k ==> !at_least(version@, #[trigger] before[j]),
            decreases sorted.len() - k,
        {
            k = k + 1;
        }
        proof {
            lemma_insert_position(before, version@, k as int);
            let next = all.take(it.index() + 1);
            assert(next.drop_last() =~= all.take(it.index() as int));
            assert(next.last() == version@);
            assert(version_views(sorted@.insert(k as int, version)) =~= before.insert(
                k as int,
                version@,
            ));
        }
        sorted.insert(k, version);
    }
    proof {
        assert(all.take(all.len() as int) =~= all);
    }
    sorted
}

} // verus!
