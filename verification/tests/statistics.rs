use std::collections::BTreeMap;

use gacha_record::merge::merge;
use gacha_record::record::GachaData;
use gacha_record::statistics::{
    checked_gacha_statistics, gacha_statistics, pool_statistics_of, pools_in_order,
    GachaStatisticsDataItem,
};

fn pull(name: &str, time: &str, quality_level: i32) -> GachaData {
    GachaData {
        card_pool_type: "角色精准调谐".to_string(),
        resource_id: 1000 + quality_level,
        quality_level,
        resource_type: "角色".to_string(),
        name: name.to_string(),
        count: 1,
        time: time.to_string(),
    }
}

fn item(name: &str, count: i32) -> GachaStatisticsDataItem {
    GachaStatisticsDataItem {
        name: name.to_string(),
        count,
        resource_id: 1005,
        resource_type: "角色".to_string(),
    }
}

#[test]
fn pity_counts_the_pulls_since_the_last_top_reward() {
    let existing = vec![pull("A", "2024-07-05 07:40:58", 3), pull("B", "2024-07-05 07:41:58", 5)];
    let fresh = vec![
        pull("D", "2024-07-05 07:43:58", 4),
        pull("C", "2024-07-05 07:42:58", 3),
        pull("B", "2024-07-05 07:41:58", 5),
    ];
    let history = merge(&existing, &fresh);
    let statistics = pool_statistics_of(1, &history);
    assert_eq!(statistics.card_pool_type, 1);
    assert_eq!(statistics.total, 4);
    assert_eq!(statistics.five_count, 1);
    assert_eq!(statistics.four_count, 1);
    assert_eq!(statistics.three_count, 2);
    assert_eq!(statistics.pull_count, 2);
    assert_eq!(statistics.detail, vec![item("B", 2)]);
}

#[test]
fn a_top_reward_resets_the_pity() {
    let history = vec![
        pull("a", "2024-07-05 07:40:01", 3),
        pull("b", "2024-07-05 07:40:02", 4),
        pull("c", "2024-07-05 07:40:03", 5),
    ];
    let statistics = pool_statistics_of(2, &history);
    assert_eq!(statistics.pull_count, 0);
    assert_eq!(statistics.detail, vec![item("c", 3)]);
}

#[test]
fn pity_is_the_total_less_the_pulls_spent_on_top_rewards() {
    let history = vec![
        pull("a", "2024-07-05 07:40:01", 5),
        pull("b", "2024-07-05 07:40:02", 4),
        pull("c", "2024-07-05 07:40:03", 3),
        pull("d", "2024-07-05 07:40:04", 5),
        pull("e", "2024-07-05 07:40:05", 2),
        pull("f", "2024-07-05 07:40:06", 5),
        pull("g", "2024-07-05 07:40:07", 4),
    ];
    for end in 0..=history.len() {
        let statistics = pool_statistics_of(3, &history[..end].to_vec());
        let spent: i32 = statistics.detail.iter().map(|hit| hit.count).sum();
        assert_eq!(statistics.total, end as i32);
        assert_eq!(statistics.pull_count, statistics.total - spent);
    }
    let statistics = pool_statistics_of(3, &history);
    assert_eq!(statistics.detail, vec![item("a", 1), item("d", 3), item("f", 2)]);
    assert_eq!(statistics.total, 7);
    assert_eq!(statistics.five_count, 3);
    assert_eq!(statistics.four_count, 2);
    assert_eq!(statistics.three_count, 1);
    assert_eq!(statistics.pull_count, 1);
}

#[test]
fn an_empty_pool_has_empty_statistics() {
    let statistics = pool_statistics_of(7, &Vec::new());
    assert_eq!(statistics.card_pool_type, 7);
    assert_eq!(statistics.total, 0);
    assert_eq!(statistics.five_count, 0);
    assert_eq!(statistics.four_count, 0);
    assert_eq!(statistics.three_count, 0);
    assert_eq!(statistics.pull_count, 0);
    assert!(statistics.detail.is_empty());
}

#[test]
fn statistics_cover_the_pools_with_pulls_in_ascending_order() {
    let mut history = BTreeMap::new();
    history.insert(3, vec![pull("x", "2024-07-05 07:40:01", 4)]);
    history.insert(1, vec![pull("a", "2024-07-05 07:40:01", 3), pull("b", "2024-07-05 07:40:02", 5)]);
    history.insert(2, Vec::new());
    let statistics = gacha_statistics(&history);
    assert_eq!(statistics.keys().copied().collect::<Vec<i32>>(), vec![1, 3]);
    assert_eq!(pools_in_order(&statistics), vec![1, 3]);
    assert!(pools_in_order(&BTreeMap::new()).is_empty());
    assert_eq!(statistics[&1], pool_statistics_of(1, &history[&1]));
    assert_eq!(statistics[&3], pool_statistics_of(3, &history[&3]));
    assert_eq!(statistics[&1].pull_count, 0);
    assert_eq!(statistics[&3].pull_count, 1);
    assert_eq!(statistics[&3].card_pool_type, 3);
}

#[test]
fn statistics_of_an_empty_history_are_empty() {
    let statistics = gacha_statistics(&BTreeMap::new());
    assert!(statistics.is_empty());
    assert_eq!(checked_gacha_statistics(&BTreeMap::new()), Some(BTreeMap::new()));
}

#[test]
fn a_history_that_can_be_counted_is_counted() {
    let mut history = BTreeMap::new();
    history.insert(4, vec![pull("x", "2024-07-05 07:40:01", 5), pull("y", "2024-07-05 07:40:02", 3)]);
    let statistics = checked_gacha_statistics(&history).unwrap();
    assert_eq!(statistics, gacha_statistics(&history));
    assert_eq!(statistics[&4].total, 2);
    assert_eq!(statistics[&4].pull_count, 1);
    assert_eq!(statistics[&4].detail, vec![item("x", 1)]);
    assert_eq!(statistics[&4].clone(), statistics[&4]);
}
