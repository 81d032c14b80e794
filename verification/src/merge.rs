//! Merging a freshly fetched page of pulls into the stored history.
use vstd::prelude::*;
use crate::record::{contains_record, GachaData, GachaDataView};

verus! {

/// How many leading records of `fresh` are new: the position of the first
/// record of `fresh` that `existing` already holds, or the length of `fresh`
/// when there is none.
pub open spec fn unseen_len(existing: Seq<GachaDataView>, fresh: Seq<GachaDataView>) -> nat
    decreases fresh.len(),
{
    if fresh.len() == 0 || existing.contains(fresh[0]) {
        0
    } else {
        1 + unseen_len(existing, fresh.drop_first())
    }
}

/// The history after a fetch: the stored records, followed by the unseen
/// leading records of the newest-first page, turned into chronological order.
pub open spec fn merged(existing: Seq<GachaDataView>, fresh: Seq<GachaDataView>) -> Seq<
    GachaDataView,
> {
    existing + fresh.take(unseen_len(existing, fresh) as int).reverse()
}

/// `unseen_len` is the one position that splits the page into records the
/// history lacks and, right behind them, a record it already holds.
pub proof fn lemma_unseen_len(existing: Seq<GachaDataView>, fresh: Seq<GachaDataView>)
    ensures
        unseen_len(existing, fresh) <= fresh.len(),
        forall|i: int|
            0 <= i < unseen_len(existing, fresh) ==> !existing.contains(#[trigger] fresh[i]),
        unseen_len(existing, fresh) < fresh.len() ==> existing.contains(
            fresh[unseen_len(existing, fresh) as int],
        ),
    decreases fresh.len(),
{
    if fresh.len() == 0 || existing.contains(fresh[0]) {
    } else {
        let rest = fresh.drop_first();
        lemma_unseen_len(existing, rest);
        assert forall|i: int| 0 <= i < unseen_len(existing, fresh) implies !existing.contains(
            #[trigger] fresh[i],
        ) by {
            if i > 0 {
                assert(fresh[i] == rest[i - 1]);
            }
        }
    }
}

/// A position that splits the page as `lemma_unseen_len` describes is
/// `unseen_len`.
pub proof fn lemma_unseen_len_is(existing: Seq<GachaDataView>, fresh: Seq<GachaDataView>, n: int)
    requires
        0 <= n <= fresh.len(),
        forall|i: int| 0 <= i < n ==> !existing.contains(#[trigger] fresh[i]),
        n < fresh.len() ==> existing.contains(fresh[n]),
    ensures
        unseen_len(existing, fresh) == n,
    decreases fresh.len(),
{
    if fresh.len() == 0 {
    } else if existing.contains(fresh[0]) {
        if n > 0 {
            assert(!existing.contains(fresh[0]));
        }
    } else {
        let rest = fresh.drop_first();
        assert forall|i: int| 0 <= i < n - 1 implies !existing.contains(#[trigger] rest[i]) by {
            assert(rest[i] == fresh[i + 1]);
        }
        lemma_unseen_len_is(existing, rest, n - 1);
    }
}

/// Merges a page fetched newest-first into a history kept oldest-first.
///
/// The page is read from its newest record until one is met that the history
/// already holds; the records read before that point are appended to the
/// history in chronological order. The stored records are never touched.
///
/// Nothing else is compared. Where more pulls were made since the last fetch
/// than the page holds, no record of the page is known, the whole page is
/// appended, and the pulls that fell between are missing without a sign of
/// it; a record that equals a stored one by chance ends the reading early.
pub fn merge(existing: &Vec<GachaData>, fresh: &Vec<GachaData>) -> (result: Vec<GachaData>)
    ensures
        result.deep_view() == merged(existing.deep_view(), fresh.deep_view()),
{
    let mut stop: usize = 0;
    while stop < fresh.len()
        invariant
            stop <= fresh.len(),
            forall|i: int|
                0 <= i < stop ==> !existing.deep_view().contains(#[trigger] fresh.deep_view()[i]),
        ensures
            stop <= fresh.len(),
            forall|i: int|
                0 <= i < stop ==> !existing.deep_view().contains(#[trigger] fresh.deep_view()[i]),
            stop < fresh.len() ==> existing.deep_view().contains(fresh.deep_view()[stop as int]),
        decreases fresh.len() - stop,
    {
        if contains_record(existing, &fresh[stop]) {
            break ;
        }
        stop += 1;
    }
    proof {
        lemma_unseen_len_is(existing.deep_view(), fresh.deep_view(), stop as int);
    }
    let mut result: Vec<GachaData> = Vec::new();
    let mut i: usize = 0;
    while i < existing.len()
        invariant
            i <= existing.len(),
            result.len() == i,
            forall|j: int| 0 <= j < i ==> result[j]@ == existing[j]@,
        decreases existing.len() - i,
    {
        result.push(existing[i].clone());
        i += 1;
    }
    let mut left: usize = stop;
    while left > 0
        invariant
            left <= stop <= fresh.len(),
            result.len() == existing.len() + (stop - left),
            forall|j: int| 0 <= j < existing.len() ==> result[j]@ == existing[j]@,
            forall|j: int|
                existing.len() <= j < result.len() ==> (#[trigger] result[j])@ == fresh[stop - 1
                    - (j - existing.len())]@,
        decreases left,
    {
        left -= 1;
        result.push(fresh[left].clone());
    }
    assert(result.deep_view() =~= merged(existing.deep_view(), fresh.deep_view())) by {
        let unseen = fresh.deep_view().take(stop as int).reverse();
        assert forall|j: int| 0 <= j < result.len() implies result.deep_view()[j] == (
        existing.deep_view() + unseen)[j] by {
            if j >= existing.len() {
                assert(result[j]@ == fresh[stop - 1 - (j - existing.len())]@);
            }
        }
    }
    result
}

/// A fetch that returns nothing leaves the history as it is.
pub proof fn lemma_merge_empty_page(existing: Seq<GachaDataView>)
    ensures
        merged(existing, Seq::empty()) == existing,
{
    assert(merged(existing, Seq::empty()) =~= existing);
}

/// A page whose newest record is already stored leaves the history as it is,
/// whatever follows that record.
pub proof fn lemma_merge_known_head(existing: Seq<GachaDataView>, fresh: Seq<GachaDataView>)
    requires
        fresh.len() > 0,
        existing.contains(fresh[0]),
    ensures
        merged(existing, fresh) == existing,
{
    assert(merged(existing, fresh) =~= existing);
}

/// A page that repeats the newest stored records, newest first, leaves the
/// history as it is.
pub proof fn lemma_merge_full_overlap(existing: Seq<GachaDataView>, fresh: Seq<GachaDataView>)
    requires
        fresh.len() <= existing.len(),
        forall|i: int| 0 <= i < fresh.len() ==> fresh[i] == existing.reverse()[i],
    ensures
        merged(existing, fresh) == existing,
{
    if fresh.len() == 0 {
        assert(fresh =~= Seq::empty());
        lemma_merge_empty_page(existing);
    } else {
        assert(existing.reverse()[0] == existing[existing.len() - 1]);
        lemma_merge_known_head(existing, fresh);
    }
}

/// Merging never loses or reorders a stored record: the old history is the
/// leading part of the new one, which is longer by the unseen records only.
pub proof fn lemma_merge_keeps_existing(existing: Seq<GachaDataView>, fresh: Seq<GachaDataView>)
    ensures
        merged(existing, fresh).len() == existing.len() + unseen_len(existing, fresh),
        merged(existing, fresh).len() >= existing.len(),
        merged(existing, fresh).len() <= existing.len() + fresh.len(),
        merged(existing, fresh).take(existing.len() as int) == existing,
        forall|i: int| 0 <= i < existing.len() ==> merged(existing, fresh)[i] == existing[i],
{
    lemma_unseen_len(existing, fresh);
    assert(merged(existing, fresh).take(existing.len() as int) =~= existing);
}

/// Every record that a merge adds was missing from the history before, and
/// the added records stand in the reverse of their order on the page.
pub proof fn lemma_merge_adds_unseen(existing: Seq<GachaDataView>, fresh: Seq<GachaDataView>)
    ensures
        forall|i: int|
            existing.len() <= i < merged(existing, fresh).len() ==> {
                &&& !existing.contains(#[trigger] merged(existing, fresh)[i])
                &&& merged(existing, fresh)[i] == fresh[merged(existing, fresh).len() - 1 - i]
            },
{
    lemma_unseen_len(existing, fresh);
    let n = unseen_len(existing, fresh) as int;
    assert forall|i: int| existing.len() <= i < merged(existing, fresh).len() implies {
        &&& !existing.contains(#[trigger] merged(existing, fresh)[i])
        &&& merged(existing, fresh)[i] == fresh[merged(existing, fresh).len() - 1 - i]
    } by {
        let k = i - existing.len();
        assert(merged(existing, fresh)[i] == fresh.take(n).reverse()[k]);
        assert(fresh.take(n).reverse()[k] == fresh[n - 1 - k]);
    }
}

/// A history without repeated records stays without them, as long as the
/// unseen part of the page repeats none itself.
pub proof fn lemma_merge_keeps_distinct(existing: Seq<GachaDataView>, fresh: Seq<GachaDataView>)
    requires
        existing.no_duplicates(),
        fresh.take(unseen_len(existing, fresh) as int).no_duplicates(),
    ensures
        merged(existing, fresh).no_duplicates(),
{
    lemma_unseen_len(existing, fresh);
    lemma_merge_adds_unseen(existing, fresh);
    let n = unseen_len(existing, fresh) as int;
    let unseen = fresh.take(n);
    let result = merged(existing, fresh);
    assert forall|i: int, j: int| 0 <= i < j < result.len() implies result[i] != result[j] by {
        if j < existing.len() {
            assert(result[i] == existing[i] && result[j] == existing[j]);
        } else if i < existing.len() {
            assert(result[i] == existing[i]);
            assert(!existing.contains(result[j]));
        } else {
            let a = result.len() - 1 - i;
            let b = result.len() - 1 - j;
            assert(result[i] == unseen[a]);
            assert(result[j] == unseen[b]);
        }
    }
}

} // verus!
