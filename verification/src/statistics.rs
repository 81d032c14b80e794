//! Pity statistics derived from a stored history.
use std::collections::BTreeMap;
use vstd::prelude::*;
use vstd::std_specs::btree::{
    axiom_increasing_seq_meaning, axiom_spec_keys_iter, spec_btree_map_iter, spec_keys_iter,
};
use vstd::std_specs::cmp::OrdSpec;
use vstd::std_specs::iter::IteratorSpec;
use crate::record::{history_view, GachaData, GachaDataView, SavedGachaData};

verus! {

/// The rarity that resets the pity counter.
pub const TOP_QUALITY: i32 = 5;

/// One top-rarity reward and the number of pulls it took to get it.
#[derive(Debug, PartialEq)]
pub struct GachaStatisticsDataItem {
    pub name: String,
    /// Pulls made since the previous top-rarity reward, this one included.
    pub count: i32,
    pub resource_id: i32,
    pub resource_type: String,
}

/// The mathematical value of a [`GachaStatisticsDataItem`].
pub struct GachaStatisticsDataItemView {
    pub name: Seq<char>,
    pub count: int,
    pub resource_id: i32,
    pub resource_type: Seq<char>,
}

impl View for GachaStatisticsDataItem {
    type V = GachaStatisticsDataItemView;

    open spec fn view(&self) -> GachaStatisticsDataItemView {
        GachaStatisticsDataItemView {
            name: self.name@,
            count: self.count as int,
            resource_id: self.resource_id,
            resource_type: self.resource_type@,
        }
    }
}

impl DeepView for GachaStatisticsDataItem {
    type V = GachaStatisticsDataItemView;

    open spec fn deep_view(&self) -> GachaStatisticsDataItemView {
        self@
    }
}

impl Clone for GachaStatisticsDataItem {
    fn clone(&self) -> (copy: Self)
        ensures
            copy == *self,
    {
        GachaStatisticsDataItem {
            name: self.name.clone(),
            count: self.count,
            resource_id: self.resource_id,
            resource_type: self.resource_type.clone(),
        }
    }
}

/// The statistics of one pool.
#[derive(Debug, PartialEq)]
pub struct GachaStatisticsData {
    pub card_pool_type: i32,
    /// All pulls made on the pool.
    pub total: i32,
    pub five_count: i32,
    pub four_count: i32,
    pub three_count: i32,
    /// Pulls made since the latest top-rarity reward: the current pity.
    pub pull_count: i32,
    /// The top-rarity rewards, oldest first.
    pub detail: Vec<GachaStatisticsDataItem>,
}

/// The mathematical value of a [`GachaStatisticsData`].
pub struct GachaStatisticsDataView {
    pub card_pool_type: i32,
    pub total: int,
    pub five_count: int,
    pub four_count: int,
    pub three_count: int,
    pub pull_count: int,
    pub detail: Seq<GachaStatisticsDataItemView>,
}

impl View for GachaStatisticsData {
    type V = GachaStatisticsDataView;

    open spec fn view(&self) -> GachaStatisticsDataView {
        GachaStatisticsDataView {
            card_pool_type: self.card_pool_type,
            total: self.total as int,
            five_count: self.five_count as int,
            four_count: self.four_count as int,
            three_count: self.three_count as int,
            pull_count: self.pull_count as int,
            detail: self.detail.deep_view(),
        }
    }
}

impl Clone for GachaStatisticsData {
    fn clone(&self) -> (copy: Self)
        ensures
            copy@ == self@,
    {
        let mut detail: Vec<GachaStatisticsDataItem> = Vec::new();
        let mut i: usize = 0;
        while i < self.detail.len()
            invariant
                i <= self.detail.len(),
                detail.len() == i,
                forall|j: int| 0 <= j < i ==> detail[j] == self.detail[j],
            decreases self.detail.len() - i,
        {
            detail.push(self.detail[i].clone());
            i += 1;
        }
        assert(detail.deep_view() =~= self.detail.deep_view());
        GachaStatisticsData {
            card_pool_type: self.card_pool_type,
            total: self.total,
            five_count: self.five_count,
            four_count: self.four_count,
            three_count: self.three_count,
            pull_count: self.pull_count,
            detail,
        }
    }
}

/// Pulls made since the latest top-rarity reward of a chronological history,
/// or since its start when it holds none.
pub open spec fn pity(history: Seq<GachaDataView>) -> nat
    decreases history.len(),
{
    if history.len() == 0 {
        0
    } else if history.last().quality_level == TOP_QUALITY {
        0
    } else {
        pity(history.drop_last()) + 1
    }
}

/// The number of records of the given rarity.
pub open spec fn tally(history: Seq<GachaDataView>, quality_level: i32) -> nat
    decreases history.len(),
{
    if history.len() == 0 {
        0
    } else if history.last().quality_level == quality_level {
        tally(history.drop_last(), quality_level) + 1
    } else {
        tally(history.drop_last(), quality_level)
    }
}

/// The top-rarity rewards of a chronological history, oldest first, each with
/// the pity counter as it stood when the reward came.
pub open spec fn top_hits(history: Seq<GachaDataView>) -> Seq<GachaStatisticsDataItemView>
    decreases history.len(),
{
    if history.len() == 0 {
        Seq::empty()
    } else if history.last().quality_level == TOP_QUALITY {
        top_hits(history.drop_last()).push(
            GachaStatisticsDataItemView {
                name: history.last().name,
                count: pity(history.drop_last()) as int + 1,
                resource_id: history.last().resource_id,
                resource_type: history.last().resource_type,
            },
        )
    } else {
        top_hits(history.drop_last())
    }
}

/// The pulls that the listed rewards took, all together.
pub open spec fn spent(hits: Seq<GachaStatisticsDataItemView>) -> int
    decreases hits.len(),
{
    if hits.len() == 0 {
        0
    } else {
        spent(hits.drop_last()) + hits.last().count
    }
}

/// The statistics of one pool, given its chronological history.
pub open spec fn pool_statistics(
    card_pool_type: i32,
    history: Seq<GachaDataView>,
) -> GachaStatisticsDataView {
    GachaStatisticsDataView {
        card_pool_type,
        total: history.len() as int,
        five_count: tally(history, 5) as int,
        four_count: tally(history, 4) as int,
        three_count: tally(history, 3) as int,
        pull_count: pity(history) as int,
        detail: top_hits(history),
    }
}

/// The counters never exceed the number of records counted.
pub proof fn lemma_counters_bounded(history: Seq<GachaDataView>, quality_level: i32)
    ensures
        pity(history) <= history.len(),
        tally(history, quality_level) <= history.len(),
        top_hits(history).len() == tally(history, TOP_QUALITY),
    decreases history.len(),
{
    if history.len() > 0 {
        lemma_counters_bounded(history.drop_last(), quality_level);
    }
}

/// What one more pull does to the statistics: a top-rarity pull is listed
/// with the pity it ended and resets the counter to zero; any other pull
/// raises the counter by one and leaves the list alone.
pub proof fn lemma_next_pull(history: Seq<GachaDataView>, pull: GachaDataView)
    ensures
        pull.quality_level == TOP_QUALITY ==> {
            &&& pity(history.push(pull)) == 0
            &&& top_hits(history.push(pull)) == top_hits(history).push(
                GachaStatisticsDataItemView {
                    name: pull.name,
                    count: pity(history) as int + 1,
                    resource_id: pull.resource_id,
                    resource_type: pull.resource_type,
                },
            )
        },
        pull.quality_level != TOP_QUALITY ==> {
            &&& pity(history.push(pull)) == pity(history) + 1
            &&& top_hits(history.push(pull)) == top_hits(history)
        },
        forall|level: i32|
            tally(history.push(pull), level) == tally(history, level) + if pull.quality_level
                == level {
                1int
            } else {
                0int
            },
{
    let longer = history.push(pull);
    assert(longer.drop_last() =~= history);
    assert(longer.last() == pull);
    assert forall|level: i32|
        tally(longer, level) == tally(history, level) + if pull.quality_level == level {
            1int
        } else {
            0int
        } by {}
}

/// At every point of a history the pity counter is the number of pulls made
/// less the pulls that the top-rarity rewards so far have taken.
pub proof fn lemma_pity_is_total_less_spent(history: Seq<GachaDataView>)
    ensures
        pity(history) == history.len() - spent(top_hits(history)),
    decreases history.len(),
{
    if history.len() > 0 {
        let earlier = history.drop_last();
        lemma_pity_is_total_less_spent(earlier);
        if history.last().quality_level == TOP_QUALITY {
            assert(top_hits(history).drop_last() =~= top_hits(earlier));
        }
    }
}

/// The statistics of every pool, by its number.
pub type GachaStatistics = BTreeMap<i32, GachaStatisticsData>;

/// The mathematical value of a [`GachaStatistics`].
pub open spec fn statistics_view(statistics: Map<i32, GachaStatisticsData>) -> Map<
    i32,
    GachaStatisticsDataView,
> {
    statistics.map_values(|pool: GachaStatisticsData| pool@)
}

/// The statistics of a stored history: one entry for each pool on which at
/// least one pull was made.
pub open spec fn statistics_of(history: Map<i32, Seq<GachaDataView>>) -> Map<
    i32,
    GachaStatisticsDataView,
> {
    Map::new(
        |pool: i32| history.contains_key(pool) && history[pool].len() > 0,
        |pool: i32| pool_statistics(pool, history[pool]),
    )
}

/// Computes the statistics of one pool from its chronological history.
pub fn pool_statistics_of(card_pool_type: i32, history: &Vec<GachaData>) -> (result:
    GachaStatisticsData)
    requires
        history.len() <= i32::MAX,
    ensures
        result@ == pool_statistics(card_pool_type, history.deep_view()),
{
    let mut total: i32 = 0;
    let mut five_count: i32 = 0;
    let mut four_count: i32 = 0;
    let mut three_count: i32 = 0;
    let mut detail: Vec<GachaStatisticsDataItem> = Vec::new();
    // pulls since the latest top-rarity reward
    let mut since_top: i32 = 0;
    // pulls that the listed rewards took
    let mut spent_on_top: i32 = 0;
    let ghost all = history.deep_view();
    let mut i: usize = 0;
    while i < history.len()
        invariant
            i <= history.len() <= i32::MAX,
            all == history.deep_view(),
            total == i,
            since_top == pity(all.take(i as int)),
            five_count == tally(all.take(i as int), 5),
            four_count == tally(all.take(i as int), 4),
            three_count == tally(all.take(i as int), 3),
            detail.deep_view() == top_hits(all.take(i as int)),
            spent_on_top == spent(top_hits(all.take(i as int))),
        decreases history.len() - i,
    {
        let item = &history[i];
        proof {
            let seen = all.take(i as int);
            assert(all.take(i + 1) =~= seen.push(item@));
            lemma_next_pull(seen, item@);
            lemma_counters_bounded(seen, 5);
            lemma_counters_bounded(seen, 4);
            lemma_counters_bounded(seen, 3);
            lemma_pity_is_total_less_spent(seen);
        }
        since_top += 1;
        total += 1;
        if item.quality_level == 5 {
            five_count += 1;
            let ghost listed = detail.deep_view();
            let ghost kept = detail@;
            detail.push(
                GachaStatisticsDataItem {
                    name: item.name.clone(),
                    count: since_top,
                    resource_id: item.resource_id,
                    resource_type: item.resource_type.clone(),
                },
            );
            assert(detail.deep_view() =~= top_hits(all.take(i + 1))) by {
                assert forall|j: int| 0 <= j < kept.len() implies detail.deep_view()[j]
                    == listed[j] by {
                    assert(detail@[j] == kept[j]);
                }
                assert(detail.deep_view() =~= listed.push(detail@.last()@));
            }
            assert(top_hits(all.take(i + 1)).drop_last() =~= top_hits(all.take(i as int)));
            spent_on_top += since_top;
            since_top = 0;
        } else if item.quality_level == 4 {
            four_count += 1;
        } else if item.quality_level == 3 {
            three_count += 1;
        }
        i += 1;
    }
    proof {
        assert(all.take(i as int) =~= all);
        lemma_pity_is_total_less_spent(all);
    }
    GachaStatisticsData {
        card_pool_type,
        total,
        five_count,
        four_count,
        three_count,
        pull_count: total - spent_on_top,
        detail,
    }
}

/// Whether the statistics can count every pool of a history.
pub open spec fn countable(history: Map<i32, Seq<GachaDataView>>) -> bool {
    forall|pool: i32| #[trigger] history.contains_key(pool) ==> history[pool].len() <= i32::MAX
}

/// Whether every pool of a history is short enough for the statistics.
pub fn is_countable(history: &SavedGachaData) -> (fits: bool)
    ensures
        fits == countable(history_view(history@)),
{
    broadcast use vstd::std_specs::btree::group_btree_axioms;
    broadcast use vstd::laws_cmp::group_laws_cmp;

    let ghost all = spec_btree_map_iter(history).remaining();
    let ghost mut seen: int = 0;
    for entry in it: history.iter()
        invariant
            it.seq() == all,
            seen == it.index(),
            forall|j: int| 0 <= j < seen ==> (#[trigger] all[j]).1.len() <= i32::MAX,
    {
        let (pool, pulls) = entry;
        proof {
            assert(entry == all[seen]);
            assert(history@.contains_key(*all[seen].0));
            seen = seen + 1;
        }
        if pulls.len() > 0x7fff_ffff {
            assert(history_view(history@).contains_key(*pool));
            return false;
        }
    }
    proof {
        assert forall|pool: i32| #[trigger] history_view(history@).contains_key(pool) implies
            history_view(history@)[pool].len() <= i32::MAX by {
            assert(history@.contains_key(pool));
            let j = all.index_of((&pool, &history@[pool]));
            assert(all[j].1.len() <= i32::MAX);
        }
    }
    true
}

/// Computes the statistics of every pool of a stored history.
///
/// A pool without pulls gets no entry.
pub fn gacha_statistics(history: &SavedGachaData) -> (result: GachaStatistics)
    requires
        countable(history_view(history@)),
    ensures
        statistics_view(result@) == statistics_of(history_view(history@)),
{
    broadcast use vstd::std_specs::btree::group_btree_axioms;
    broadcast use vstd::laws_cmp::group_laws_cmp;

    let mut statistics: GachaStatistics = BTreeMap::new();
    for entry in it: history.iter()
        invariant
            countable(history_view(history@)),
            forall|pool: i32| #[trigger]
                statistics@.contains_key(pool) <==> exists|j: int|
                    0 <= j < it.index() && *it.seq()[j].0 == pool && it.seq()[j].1.len() > 0,
            forall|pool: i32| #[trigger]
                statistics@.contains_key(pool) ==> statistics@[pool]@ == pool_statistics(
                    pool,
                    history@[pool].deep_view(),
                ),
    {
        let (pool, pulls) = entry;
        proof {
            let all = spec_btree_map_iter(history).remaining();
            assert(it.seq() == all);
            assert(entry == all[it.index()]);
            assert(history@.contains_key(*all[it.index()].0));
            assert(history_view(history@).contains_key(*pool));
        }
        if pulls.len() > 0 {
            let pool_data = pool_statistics_of(*pool, pulls);
            statistics.insert(*pool, pool_data);
        }
    }
    assert(statistics_view(statistics@) =~= statistics_of(history_view(history@)));
    statistics
}

/// Computes the statistics of a stored history where every pool is short
/// enough to be counted, and returns `None` where one is not.
pub fn checked_gacha_statistics(history: &SavedGachaData) -> (result: Option<GachaStatistics>)
    ensures
        match result {
            Some(statistics) => countable(history_view(history@)) && statistics_view(statistics@)
                == statistics_of(history_view(history@)),
            None => !countable(history_view(history@)),
        },
{
    if is_countable(history) {
        Some(gacha_statistics(history))
    } else {
        None
    }
}

/// The pools that have statistics, in the order in which they are shown:
/// by ascending number.
pub fn pools_in_order(statistics: &GachaStatistics) -> (pools: Vec<i32>)
    ensures
        forall|pool: i32| pools@.contains(pool) <==> statistics@.contains_key(pool),
        forall|i: int, j: int| 0 <= i < j < pools.len() ==> pools[i] < pools[j],
{
    broadcast use vstd::std_specs::btree::group_btree_axioms;
    broadcast use vstd::laws_cmp::group_laws_cmp;

    let ghost all = spec_keys_iter(statistics).remaining();
    let mut pools: Vec<i32> = Vec::new();
    for pool in it: statistics.keys()
        invariant
            it.seq() == all,
            pools.len() == it.index(),
            forall|j: int| 0 <= j < pools.len() ==> pools[j] == *(#[trigger] all[j]),
    {
        pools.push(*pool);
    }
    proof {
        axiom_spec_keys_iter(statistics);
        axiom_increasing_seq_meaning(all);
        assert forall|i: int, j: int| 0 <= i < j < pools.len() implies pools[i] < pools[j] by {
            assert((&all[i]).cmp_spec(&all[j]) is Less);
        }
        assert forall|pool: i32| pools@.contains(pool) <==> statistics@.contains_key(pool) by {
            if pools@.contains(pool) {
                let j = pools@.index_of(pool);
                assert(*all[j] == pool);
                assert(all.unref()[j] == pool);
                assert(all.unref().to_set().contains(pool));
            }
            if statistics@.contains_key(pool) {
                assert(all.unref().to_set().contains(pool));
                let j = all.unref().index_of(pool);
                assert(pools[j] == pool);
            }
        }
    }
    pools
}

} // verus!
