use gacha_record::merge::merge;
use gacha_record::record::{contains_record, GachaData};

fn pull(name: &str, time: &str, quality_level: i32) -> GachaData {
    GachaData {
        card_pool_type: "角色精准调谐".to_string(),
        resource_id: 21010043,
        quality_level,
        resource_type: "武器".to_string(),
        name: name.to_string(),
        count: 1,
        time: time.to_string(),
    }
}

fn names(history: &[GachaData]) -> Vec<String> {
    history.iter().map(|record| record.name.clone()).collect()
}

#[test]
fn merge_stops_at_the_first_known_record() {
    let existing = vec![pull("A", "2024-07-05 07:40:58", 3), pull("B", "2024-07-05 07:41:58", 5)];
    let fresh = vec![
        pull("D", "2024-07-05 07:43:58", 4),
        pull("C", "2024-07-05 07:42:58", 3),
        pull("B", "2024-07-05 07:41:58", 5),
    ];
    let result = merge(&existing, &fresh);
    assert_eq!(names(&result), vec!["A", "B", "C", "D"]);
    assert_eq!(result[2], pull("C", "2024-07-05 07:42:58", 3));
    assert_eq!(result[3], pull("D", "2024-07-05 07:43:58", 4));
}

#[test]
fn merge_with_an_empty_page_changes_nothing() {
    let existing = vec![pull("A", "2024-07-05 07:40:58", 3), pull("B", "2024-07-05 07:41:58", 5)];
    let result = merge(&existing, &Vec::new());
    assert_eq!(result, existing);
}

#[test]
fn merge_into_an_empty_history_reverses_the_page() {
    let fresh = vec![pull("C", "2024-07-05 07:42:58", 3), pull("B", "2024-07-05 07:41:58", 5)];
    let result = merge(&Vec::new(), &fresh);
    assert_eq!(names(&result), vec!["B", "C"]);
}

#[test]
fn merge_with_a_fully_known_page_changes_nothing() {
    let existing = vec![
        pull("A", "2024-07-05 07:40:58", 3),
        pull("B", "2024-07-05 07:41:58", 5),
        pull("C", "2024-07-05 07:42:58", 4),
    ];
    let fresh = vec![pull("C", "2024-07-05 07:42:58", 4), pull("B", "2024-07-05 07:41:58", 5)];
    let result = merge(&existing, &fresh);
    assert_eq!(result, existing);
}

#[test]
fn merge_ignores_what_follows_a_known_record() {
    let existing = vec![pull("A", "2024-07-05 07:40:58", 3)];
    let fresh = vec![
        pull("C", "2024-07-05 07:42:58", 3),
        pull("A", "2024-07-05 07:40:58", 3),
        pull("Z", "2024-07-01 00:00:00", 4),
    ];
    let result = merge(&existing, &fresh);
    assert_eq!(names(&result), vec!["A", "C"]);
}

#[test]
fn merge_without_overlap_appends_the_whole_page() {
    let existing = vec![pull("A", "2024-07-05 07:40:58", 3)];
    let fresh = vec![pull("D", "2024-07-05 07:43:58", 4), pull("C", "2024-07-05 07:42:58", 3)];
    let result = merge(&existing, &fresh);
    assert_eq!(names(&result), vec!["A", "C", "D"]);
    assert!(result.len() >= existing.len());
    assert_eq!(&result[..existing.len()], &existing[..]);
}

#[test]
fn records_differ_when_any_field_differs() {
    let base = pull("A", "2024-07-05 07:40:58", 3);
    assert_eq!(base, base.clone());
    let mut other = base.clone();
    other.count = 2;
    assert_ne!(base, other);
    let mut other = base.clone();
    other.time = "2024-07-05 07:40:59".to_string();
    assert_ne!(base, other);
    let mut other = base.clone();
    other.card_pool_type = "武器精准调谐".to_string();
    assert_ne!(base, other);
    let mut other = base.clone();
    other.resource_id = 1;
    assert_ne!(base, other);
    let mut other = base.clone();
    other.resource_type = "角色".to_string();
    assert_ne!(base, other);
    let mut other = base.clone();
    other.quality_level = 4;
    assert_ne!(base, other);
    assert!(contains_record(&vec![other.clone(), base.clone()], &base));
    assert!(!contains_record(&vec![other], &base));
}

#[test]
fn the_default_record_is_empty() {
    let record = GachaData::default();
    assert_eq!(record.name, "");
    assert_eq!(record.resource_id, 0);
    assert_eq!(record.quality_level, 0);
    assert_eq!(record.count, 0);
    assert_eq!(record.time, "");
}
