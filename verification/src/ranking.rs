//! The order in which candidate signatures are tried.
//!
//! Selectors collide, and a directory lists every signature it has seen for
//! one. Candidates that start with the name of a common operation are tried
//! first; within the two groups the directory's order is kept.

use crate::signatures::{has_well_known_name, is_well_known};
use crate::text::texts;
use vstd::prelude::*;

verus! {

/// The test for candidates of the first group.
pub open spec fn common() -> spec_fn(Seq<char>) -> bool {
    |text: Seq<char>| is_well_known(text)
}

/// The test for candidates of the second group.
pub open spec fn uncommon() -> spec_fn(Seq<char>) -> bool {
    |text: Seq<char>| !is_well_known(text)
}

/// The candidates in the order of trial: those with a well-known name in
/// the order of the directory, then the others in the order of the directory.
pub open spec fn ranked(candidates: Seq<Seq<char>>) -> Seq<Seq<char>> {
    candidates.filter(common()) + candidates.filter(uncommon())
}

/// Orders the candidates for trial.
pub fn rank_candidates(candidates: &Vec<String>) -> (order: Vec<String>)
    ensures
        texts(order@) == ranked(texts(candidates@)),
{
    let mut first: Vec<String> = Vec::new();
    let mut rest: Vec<String> = Vec::new();
    let ghost all = texts(candidates@);
    let mut i: usize = 0;
    while i < candidates.len()
        invariant
            i <= candidates.len(),
            all == texts(candidates@),
            texts(first@) == all.subrange(0, i as int).filter(common()),
            texts(rest@) == all.subrange(0, i as int).filter(uncommon()),
        decreases candidates.len() - i,
    {
        let candidate = &candidates[i];
        proof {
            reveal(Seq::filter);
            let next = all.subrange(0, i + 1);
            assert(next.drop_last() =~= all.subrange(0, i as int));
            assert(next.last() == candidate@);
        }
        if has_well_known_name(candidate.as_str()) {
            first.push(candidate.clone());
            assert(texts(first@) =~= all.subrange(0, i as int).filter(common()).push(candidate@));
        } else {
            rest.push(candidate.clone());
            assert(texts(rest@) =~= all.subrange(0, i as int).filter(uncommon()).push(
                candidate@,
            ));
        }
        i = i + 1;
    }
    assert(all.subrange(0, i as int) =~= all);
    let ghost head = first@;
    let ghost tail = rest@;
    first.append(&mut rest);
    assert(texts(first@) =~= texts(head) + texts(tail));
    first
}

/// A filter keeps a sequence whole when every item passes.
proof fn filter_keeps_all(s: Seq<Seq<char>>, test: spec_fn(Seq<char>) -> bool)
    requires
        forall|i: int| 0 <= i < s.len() ==> test(#[trigger] s[i]),
    ensures
        s.filter(test) == s,
    decreases s.len(),
{
    reveal(Seq::filter);
    if s.len() > 0 {
        filter_keeps_all(s.drop_last(), test);
        assert(s.drop_last().push(s.last()) =~= s);
    }
}

/// A filter leaves nothing when no item passes.
proof fn filter_drops_all(s: Seq<Seq<char>>, test: spec_fn(Seq<char>) -> bool)
    requires
        forall|i: int| 0 <= i < s.len() ==> !test(#[trigger] s[i]),
    ensures
        s.filter(test) == Seq::<Seq<char>>::empty(),
    decreases s.len(),
{
    reveal(Seq::filter);
    if s.len() > 0 {
        filter_drops_all(s.drop_last(), test);
    } else {
        assert(s =~= Seq::<Seq<char>>::empty());
    }
}

/// Ranking neither adds nor loses a candidate: the order of trial holds
/// each candidate as often as the directory's answer does.
pub proof fn ranking_is_a_reordering(candidates: Seq<Seq<char>>)
    ensures
        ranked(candidates).to_multiset() == candidates.to_multiset(),
        ranked(candidates).len() == candidates.len(),
    decreases candidates.len(),
{
    broadcast use vstd::multiset::group_multiset_axioms;

    reveal(Seq::filter);
    let first = candidates.filter(common());
    let rest = candidates.filter(uncommon());
    vstd::seq_lib::lemma_multiset_commutative(first, rest);
    if candidates.len() == 0 {
        assert(ranked(candidates) =~= candidates);
    } else {
        let before = candidates.drop_last();
        let last = candidates.last();
        ranking_is_a_reordering(before);
        vstd::seq_lib::lemma_multiset_commutative(before.filter(common()), before.filter(uncommon()));
        vstd::seq_lib::to_multiset_build(before, last);
        vstd::seq_lib::to_multiset_build(before.filter(common()), last);
        vstd::seq_lib::to_multiset_build(before.filter(uncommon()), last);
        assert(before.push(last) =~= candidates);
        assert(ranked(candidates).to_multiset() =~= candidates.to_multiset());
    }
    vstd::seq_lib::to_multiset_len(ranked(candidates));
    vstd::seq_lib::to_multiset_len(candidates);
}

/// In the order of trial no other candidate comes before one with a
/// well-known name.
pub proof fn ranking_puts_common_first(candidates: Seq<Seq<char>>, i: int, j: int)
    requires
        0 <= i < j < ranked(candidates).len(),
        is_well_known(ranked(candidates)[j]),
    ensures
        is_well_known(ranked(candidates)[i]),
{
    let first = candidates.filter(common());
    let rest = candidates.filter(uncommon());
    if j >= first.len() {
        candidates.lemma_filter_pred(uncommon(), j - first.len());
        assert(rest[j - first.len()] == ranked(candidates)[j]);
    } else {
        candidates.lemma_filter_pred(common(), i);
    }
}

/// Ranking keeps the directory's order within each of the two groups.
pub proof fn ranking_is_stable(candidates: Seq<Seq<char>>)
    ensures
        ranked(candidates).filter(common()) == candidates.filter(common()),
        ranked(candidates).filter(uncommon()) == candidates.filter(uncommon()),
{
    let first = candidates.filter(common());
    let rest = candidates.filter(uncommon());
    assert forall|i: int| 0 <= i < first.len() implies common()(#[trigger] first[i]) by {
        candidates.lemma_filter_pred(common(), i);
    }
    assert forall|i: int| 0 <= i < rest.len() implies uncommon()(#[trigger] rest[i]) by {
        candidates.lemma_filter_pred(uncommon(), i);
    }
    filter_keeps_all(first, common());
    filter_drops_all(first, uncommon());
    filter_keeps_all(rest, uncommon());
    filter_drops_all(rest, common());
    Seq::filter_distributes_over_add(first, rest, common());
    Seq::filter_distributes_over_add(first, rest, uncommon());
    assert(first + Seq::<Seq<char>>::empty() =~= first);
    assert(Seq::<Seq<char>>::empty() + rest =~= rest);
}

/// Ranking a ranked list changes nothing.
pub proof fn ranking_is_idempotent(candidates: Seq<Seq<char>>)
    ensures
        ranked(ranked(candidates)) == ranked(candidates),
{
    ranking_is_stable(candidates);
}

} // verus!
