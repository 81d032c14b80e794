use std::collections::BTreeMap;

use gacha_record::display::{
    find_latest_newcomer, knows_player, pool_label, pool_rows, DisplayState, Message, Page,
};
use gacha_record::message::MessageType;
use gacha_record::record::GachaData;
use gacha_record::statistics::{gacha_statistics, GachaStatistics};
use gacha_record::update::Release;

fn statistics() -> GachaStatistics {
    let mut history = BTreeMap::new();
    history.insert(
        2,
        vec![GachaData {
            card_pool_type: "武器活动唤取".to_string(),
            resource_id: 1,
            quality_level: 4,
            resource_type: "武器".to_string(),
            name: "A".to_string(),
            count: 1,
            time: "2024-07-05 07:40:58".to_string(),
        }],
    );
    gacha_statistics(&history)
}

fn list(names: &[&str]) -> Vec<String> {
    names.iter().map(|name| name.to_string()).collect()
}

#[test]
fn a_new_display_shows_nothing() {
    let display = DisplayState::new("12".to_string());
    assert!(display.gacha_statistics.is_empty());
    assert!(display.player_id_vec.is_empty());
    assert_eq!(display.player_id_selected, "12");
    assert_eq!(display.player_id_last_selected, "");
    assert!(!display.message.success);
    assert_eq!(display.message.message, "");
    assert!(display.update_info.is_none());
    assert_eq!(display.view, Page::Home);
    let status = Message::default();
    assert!(!status.success);
    assert_eq!(status.message, "");
}

#[test]
fn status_texts_replace_the_status_line() {
    let mut display = DisplayState::new(String::new());
    display.receive(MessageType::Normal("fine".to_string()));
    assert!(display.message.success);
    assert_eq!(display.message.message, "fine");
    display.receive(MessageType::Warning("careful".to_string()));
    assert!(!display.message.success);
    assert_eq!(display.message.message, "careful");
}

#[test]
fn statistics_come_with_their_player() {
    let mut display = DisplayState::new("1".to_string());
    display.receive(MessageType::Gacha(("2".to_string(), statistics())));
    assert_eq!(display.player_id_selected, "2");
    assert_eq!(display.player_id_last_selected, "2");
    assert_eq!(display.gacha_statistics, statistics());
    assert!(display.selection_changed().is_none());
}

#[test]
fn a_player_new_in_the_list_is_chosen() {
    let mut display = DisplayState::new(String::new());
    display.receive(MessageType::Player(list(&["a", "b"])));
    assert_eq!(display.player_id_vec, list(&["a", "b"]));
    assert_eq!(display.player_id_selected, "b");
    assert_eq!(display.player_id_last_selected, "b");
    display.receive(MessageType::Player(list(&["a", "c", "b"])));
    assert_eq!(display.player_id_vec, list(&["a", "c", "b"]));
    assert_eq!(display.player_id_selected, "c");
    display.receive(MessageType::Player(list(&["b", "a"])));
    assert_eq!(display.player_id_vec, list(&["b", "a"]));
    assert_eq!(display.player_id_selected, "c");
    display.receive(MessageType::Player(Vec::new()));
    assert!(display.player_id_vec.is_empty());
    assert_eq!(display.player_id_selected, "c");
}

#[test]
fn the_last_newcomer_is_found() {
    assert_eq!(find_latest_newcomer(&list(&["a"]), &list(&["x", "a", "y", "a"])), Some("y".to_string()));
    assert_eq!(find_latest_newcomer(&list(&["a"]), &list(&["a"])), None);
    assert_eq!(find_latest_newcomer(&list(&[]), &list(&[])), None);
    assert!(knows_player(&list(&["a", "b"]), &"b".to_string()));
    assert!(!knows_player(&list(&["a", "b"]), &"c".to_string()));
}

#[test]
fn a_release_is_remembered() {
    let mut display = DisplayState::new(String::new());
    display.receive(MessageType::NeedUpdate(Release {
        name: "n".to_string(),
        tag_name: "v9".to_string(),
        body: "b".to_string(),
        assets: Vec::new(),
    }));
    assert_eq!(display.update_info.as_ref().unwrap().tag_name, "v9");
}

#[test]
fn commands_meant_for_the_worker_change_nothing() {
    let mut display = DisplayState::new("1".to_string());
    display.receive(MessageType::CheckUpdate);
    display.receive(MessageType::UpdateData(true, "9".to_string()));
    assert_eq!(display.player_id_selected, "1");
    assert_eq!(display.message.message, "");
    assert!(display.player_id_vec.is_empty());
}

#[test]
fn a_changed_choice_asks_for_the_cached_statistics() {
    let mut display = DisplayState::new("1".to_string());
    match display.selection_changed() {
        Some(MessageType::UpdateData(cache, player_id)) => {
            assert!(cache);
            assert_eq!(player_id, "1");
        }
        other => panic!("unexpected command {:?}", other),
    }
    assert_eq!(display.player_id_last_selected, "1");
    assert!(display.selection_changed().is_none());
    match display.refresh_command() {
        MessageType::UpdateData(cache, player_id) => {
            assert!(!cache);
            assert_eq!(player_id, "1");
        }
        other => panic!("unexpected command {:?}", other),
    }
    match DisplayState::new_player_command() {
        MessageType::UpdateData(cache, player_id) => {
            assert!(!cache);
            assert_eq!(player_id, "");
        }
        other => panic!("unexpected command {:?}", other),
    }
}

#[test]
fn pools_have_names() {
    assert_eq!(pool_label(1), "角色活动唤取");
    assert_eq!(pool_label(2), "武器活动唤取");
    assert_eq!(pool_label(3), "角色常驻唤取");
    assert_eq!(pool_label(4), "武器常驻唤取");
    assert_eq!(pool_label(5), "新手唤取");
    assert_eq!(pool_label(6), "新手自选唤取");
    assert_eq!(pool_label(7), "新手自选唤取（感恩定向唤取）");
    assert_eq!(pool_label(8), "新卡池");
    assert_eq!(pool_label(0), "新卡池");
    assert_eq!(pool_label(-1), "新卡池");
}

#[test]
fn pools_are_shown_three_to_a_row() {
    assert_eq!(pool_rows(0), 0);
    assert_eq!(pool_rows(1), 1);
    assert_eq!(pool_rows(3), 1);
    assert_eq!(pool_rows(4), 2);
    assert_eq!(pool_rows(7), 3);
}
