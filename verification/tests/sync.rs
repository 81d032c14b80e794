use std::collections::BTreeMap;

use gacha_record::descriptor::RequestParam;
use gacha_record::error::SyncError;
use gacha_record::record::{GachaData, SavedGachaData};
use gacha_record::statistics::{gacha_statistics, is_countable};
use gacha_record::sync::{
    record_api, SyncAction, SyncEvent, SyncPass, SyncPhase, FIRST_POOL, HOME_RECORD_API,
    LAST_POOL, OVERSEA_RECORD_API,
};

fn pull(name: &str, time: &str, quality_level: i32) -> GachaData {
    GachaData {
        card_pool_type: "角色活动唤取".to_string(),
        resource_id: 1402,
        quality_level,
        resource_type: "角色".to_string(),
        name: name.to_string(),
        count: 1,
        time: time.to_string(),
    }
}

fn param() -> RequestParam {
    RequestParam::init(
        "pool".to_string(),
        "zh-Hans".to_string(),
        "100200300".to_string(),
        "record".to_string(),
        "server".to_string(),
    )
}

fn stored() -> SavedGachaData {
    let mut history = BTreeMap::new();
    history.insert(1, vec![pull("A", "2024-07-05 07:40:58", 3), pull("B", "2024-07-05 07:41:58", 5)]);
    history
}

fn page() -> Vec<GachaData> {
    vec![
        pull("D", "2024-07-05 07:43:58", 4),
        pull("C", "2024-07-05 07:42:58", 3),
        pull("B", "2024-07-05 07:41:58", 5),
    ]
}

/// Runs a pass up to the point where it waits for the page of the first pool.
fn fetching(oversea: bool, history: SavedGachaData) -> SyncPass {
    let (mut pass, action) = SyncPass::start(oversea, param());
    match action {
        SyncAction::Load { player_id } => assert_eq!(player_id, "100200300"),
        other => panic!("unexpected action {:?}", other),
    }
    assert_eq!(pass.phase(), SyncPhase::Loading);
    match pass.step(SyncEvent::Loaded(history)) {
        SyncAction::Fetch { url, param } => {
            assert_eq!(url, record_api(oversea));
            assert_eq!(param.card_pool_type, 1);
            assert_eq!(param.player_id, "100200300");
            assert_eq!(param.card_pool_id, "pool");
            assert_eq!(param.language_code, "zh-Hans");
            assert_eq!(param.record_id, "record");
            assert_eq!(param.server_id, "server");
        }
        other => panic!("unexpected action {:?}", other),
    }
    assert_eq!(pass.phase(), SyncPhase::Fetching);
    pass
}

/// Runs a pass up to the point where it waits for the backup.
fn backing_up() -> SyncPass {
    let mut pass = fetching(false, stored());
    for pool in FIRST_POOL..=LAST_POOL {
        assert_eq!(pass.pool(), pool);
        let data = if pool == 1 { page() } else { Vec::new() };
        let action = pass.step(SyncEvent::Page { code: 0, data });
        if pool < LAST_POOL {
            match action {
                SyncAction::Fetch { url, param } => {
                    assert_eq!(url, HOME_RECORD_API);
                    assert_eq!(param.card_pool_type, pool + 1);
                }
                other => panic!("unexpected action {:?}", other),
            }
        } else {
            match action {
                SyncAction::Backup { player_id } => assert_eq!(player_id, "100200300"),
                other => panic!("unexpected action {:?}", other),
            }
        }
    }
    assert_eq!(pass.phase(), SyncPhase::BackingUp);
    pass
}

#[test]
fn a_pass_merges_saves_and_reports() {
    let mut pass = backing_up();
    let names: Vec<&str> = pass.history()[&1].iter().map(|record| record.name.as_str()).collect();
    assert_eq!(names, vec!["A", "B", "C", "D"]);
    for pool in 2..=7 {
        assert!(pass.history()[&pool].is_empty());
    }
    let saved = match pass.step(SyncEvent::BackedUp) {
        SyncAction::Save { player_id, history } => {
            assert_eq!(player_id, "100200300");
            history
        }
        other => panic!("unexpected action {:?}", other),
    };
    assert_eq!(&saved, pass.history());
    assert_eq!(pass.phase(), SyncPhase::Saving);
    let cached = match pass.step(SyncEvent::Saved) {
        SyncAction::Cache { statistics } => statistics,
        other => panic!("unexpected action {:?}", other),
    };
    assert_eq!(cached, gacha_statistics(&saved));
    assert_eq!(cached.keys().copied().collect::<Vec<i32>>(), vec![1]);
    assert_eq!(cached[&1].pull_count, 2);
    assert_eq!(cached[&1].total, 4);
    assert_eq!(pass.phase(), SyncPhase::Caching);
    assert!(!pass.is_over());
    match pass.step(SyncEvent::Cached) {
        SyncAction::Finish { player_id, statistics } => {
            assert_eq!(player_id, "100200300");
            assert_eq!(statistics, cached);
        }
        other => panic!("unexpected action {:?}", other),
    }
    assert_eq!(pass.phase(), SyncPhase::Done);
    assert!(pass.is_over());
}

#[test]
fn the_region_chooses_the_service() {
    assert_eq!(record_api(false), "https://gmserver-api.aki-game2.com/gacha/record/query");
    assert_eq!(record_api(true), "https://gmserver-api.aki-game2.net/gacha/record/query");
    assert_eq!(record_api(true), OVERSEA_RECORD_API);
    let mut pass = fetching(true, BTreeMap::new());
    match pass.step(SyncEvent::Page { code: 0, data: Vec::new() }) {
        SyncAction::Fetch { url, param } => {
            assert_eq!(url, OVERSEA_RECORD_API);
            assert_eq!(param.card_pool_type, 2);
        }
        other => panic!("unexpected action {:?}", other),
    }
}

#[test]
fn a_rejected_credential_removes_the_cache_and_ends_the_pass() {
    let mut pass = fetching(false, stored());
    match pass.step(SyncEvent::Page { code: 1, data: page() }) {
        SyncAction::RemoveCache { player_id } => assert_eq!(player_id, "100200300"),
        other => panic!("unexpected action {:?}", other),
    }
    assert_eq!(pass.phase(), SyncPhase::Invalidating);
    assert_eq!(pass.history(), &stored());
    match pass.step(SyncEvent::CacheRemoved) {
        SyncAction::Fail(error) => {
            assert_eq!(error, SyncError::CredentialRejected);
            assert_eq!(error.message(), "抽卡链接可能已经失效，请打开抽卡页面后重新获取。");
        }
        other => panic!("unexpected action {:?}", other),
    }
    assert_eq!(pass.phase(), SyncPhase::Failed);
    assert_eq!(pass.history(), &stored());
    // Nothing is written after the failure.
    match pass.step(SyncEvent::BackedUp) {
        SyncAction::Fail(error) => assert_eq!(error, SyncError::OutOfTurn),
        other => panic!("unexpected action {:?}", other),
    }
    assert_eq!(pass.phase(), SyncPhase::Failed);
}

#[test]
fn a_rejection_on_a_later_pool_ends_the_pass_too() {
    let mut pass = fetching(false, stored());
    pass.step(SyncEvent::Page { code: 0, data: page() });
    pass.step(SyncEvent::Page { code: 0, data: Vec::new() });
    assert_eq!(pass.pool(), 3);
    match pass.step(SyncEvent::Page { code: -1, data: Vec::new() }) {
        SyncAction::RemoveCache { player_id } => assert_eq!(player_id, "100200300"),
        other => panic!("unexpected action {:?}", other),
    }
}

#[test]
fn a_failed_backup_stops_the_save() {
    let mut pass = backing_up();
    match pass.step(SyncEvent::BackupFailed("No space left on device".to_string())) {
        SyncAction::Fail(error) => {
            assert_eq!(error, SyncError::PersistenceFailure("No space left on device".to_string()));
            assert_eq!(error.message(), "No space left on device");
        }
        other => panic!("unexpected action {:?}", other),
    }
    assert_eq!(pass.phase(), SyncPhase::Failed);
    match pass.step(SyncEvent::Saved) {
        SyncAction::Fail(error) => assert_eq!(error, SyncError::OutOfTurn),
        other => panic!("unexpected action {:?}", other),
    }
}

#[test]
fn a_network_failure_ends_the_pass_with_its_cause() {
    let mut pass = fetching(false, stored());
    match pass.step(SyncEvent::Unreachable("connection refused".to_string())) {
        SyncAction::Fail(error) => {
            assert_eq!(error, SyncError::NetworkFailure("connection refused".to_string()));
            assert_eq!(error.message(), "网络连接异常：connection refused");
        }
        other => panic!("unexpected action {:?}", other),
    }
    assert!(pass.is_over());
    let mut pass = fetching(false, stored());
    match pass.step(SyncEvent::Unreadable("expected value".to_string())) {
        SyncAction::Fail(error) => {
            assert_eq!(error, SyncError::MalformedResponse("expected value".to_string()));
            assert_eq!(error.message(), "expected value");
        }
        other => panic!("unexpected action {:?}", other),
    }
}

#[test]
fn failures_of_the_disk_end_the_pass() {
    let (mut pass, _) = SyncPass::start(false, param());
    match pass.step(SyncEvent::LoadFailed("denied".to_string())) {
        SyncAction::Fail(error) => {
            assert_eq!(error, SyncError::PersistenceFailure("denied".to_string()))
        }
        other => panic!("unexpected action {:?}", other),
    }
    let mut pass = backing_up();
    pass.step(SyncEvent::BackedUp);
    match pass.step(SyncEvent::SaveFailed("full".to_string())) {
        SyncAction::Fail(error) => {
            assert_eq!(error, SyncError::PersistenceFailure("full".to_string()))
        }
        other => panic!("unexpected action {:?}", other),
    }
    let mut pass = backing_up();
    pass.step(SyncEvent::BackedUp);
    pass.step(SyncEvent::Saved);
    match pass.step(SyncEvent::CacheFailed("gone".to_string())) {
        SyncAction::Fail(error) => {
            assert_eq!(error, SyncError::PersistenceFailure("gone".to_string()))
        }
        other => panic!("unexpected action {:?}", other),
    }
    assert_eq!(pass.phase(), SyncPhase::Failed);
}

#[test]
fn an_event_out_of_turn_fails_the_pass() {
    let (mut pass, _) = SyncPass::start(false, param());
    match pass.step(SyncEvent::Saved) {
        SyncAction::Fail(error) => assert_eq!(error, SyncError::OutOfTurn),
        other => panic!("unexpected action {:?}", other),
    }
    assert_eq!(pass.phase(), SyncPhase::Failed);
    let mut pass = fetching(false, stored());
    match pass.step(SyncEvent::CacheRemoved) {
        SyncAction::Fail(error) => assert_eq!(error, SyncError::OutOfTurn),
        other => panic!("unexpected action {:?}", other),
    }
}

#[test]
fn a_pool_that_was_not_stored_starts_empty() {
    let mut pass = fetching(false, BTreeMap::new());
    pass.step(SyncEvent::Page { code: 0, data: page() });
    let names: Vec<&str> = pass.history()[&1].iter().map(|record| record.name.as_str()).collect();
    assert_eq!(names, vec!["B", "C", "D"]);
}

#[test]
fn pools_outside_the_fetched_range_are_kept() {
    let mut history = stored();
    history.insert(9, vec![pull("X", "2024-01-01 00:00:00", 4)]);
    let mut pass = fetching(false, history);
    for _ in FIRST_POOL..=LAST_POOL {
        pass.step(SyncEvent::Page { code: 0, data: Vec::new() });
    }
    assert_eq!(pass.history()[&9], vec![pull("X", "2024-01-01 00:00:00", 4)]);
    assert_eq!(pass.history()[&1], stored()[&1]);
    assert_eq!(pass.history().len(), 8);
}

#[test]
fn every_history_that_fits_in_memory_is_countable() {
    assert!(is_countable(&stored()));
    assert!(is_countable(&BTreeMap::new()));
}
