use gacha_record::error::SyncError;
use gacha_record::resolver::{
    credential_from_cache, ResolveAction, ResolveEvent, ResolvePhase, Resolver,
};

fn record_url(player_id: &str, record_id: &str, area: &str) -> String {
    format!(
        "https://aki-gm-resources.aki-game.com/aki/gacha/index.html#/record?svr_id=s1&player_id={}&lang=zh-Hans&gacha_id=100003&gacha_type=1&svr_area={}&record_id={}&resources_id=r1",
        player_id, area, record_id
    )
}

fn expect_fail(action: ResolveAction) -> SyncError {
    match action {
        ResolveAction::Fail(error) => error,
        other => panic!("unexpected action {:?}", other),
    }
}

/// Runs a search up to the point where it waits for the list of logs.
fn listing(player_id: &str) -> Resolver {
    let (mut resolver, action) = Resolver::start(player_id.to_string());
    match action {
        ResolveAction::ReadCache { player_id: asked } => assert_eq!(asked, player_id),
        other => panic!("unexpected action {:?}", other),
    }
    assert_eq!(resolver.phase(), ResolvePhase::ReadingCache);
    match resolver.step(ResolveEvent::Cache(String::new())) {
        ResolveAction::ListLogs => {}
        other => panic!("unexpected action {:?}", other),
    }
    assert_eq!(resolver.phase(), ResolvePhase::ListingLogs);
    resolver
}

#[test]
fn a_cached_address_is_used_without_reading_a_log() {
    let (mut resolver, _) = Resolver::start("777".to_string());
    match resolver.step(ResolveEvent::Cache(record_url("777", "rec", "global"))) {
        ResolveAction::Resolved { oversea, param } => {
            assert!(oversea);
            assert_eq!(param.player_id, "777");
            assert_eq!(param.record_id, "rec");
            assert_eq!(param.card_pool_type, 0);
        }
        other => panic!("unexpected action {:?}", other),
    }
    assert_eq!(resolver.phase(), ResolvePhase::Done);
    assert!(resolver.is_over());
}

#[test]
fn a_cache_that_is_no_address_fails_the_search() {
    let (mut resolver, _) = Resolver::start("777".to_string());
    let error = expect_fail(resolver.step(ResolveEvent::Cache("garbage".to_string())));
    assert!(matches!(error, SyncError::InvalidUrl(_)));
    assert_eq!(resolver.phase(), ResolvePhase::Failed);
    let (mut resolver, _) = Resolver::start("777".to_string());
    let error = expect_fail(resolver.step(ResolveEvent::CacheUnreadable("denied".to_string())));
    assert_eq!(error, SyncError::PersistenceFailure("denied".to_string()));
    assert!(matches!(
        credential_from_cache("garbage".to_string()),
        Err(SyncError::InvalidUrl(_))
    ));
    let found = credential_from_cache(record_url("1", "r", "cn")).unwrap().unwrap();
    assert_eq!(found.url, record_url("1", "r", "cn"));
    assert!(!found.oversea);
}

#[test]
fn the_logs_are_read_newest_first_until_one_holds_the_address() {
    let mut resolver = listing("555");
    let logs = vec!["C:\\g\\Client.log".to_string(), "C:\\g\\Client-backup.log".to_string()];
    match resolver.step(ResolveEvent::LogFiles(logs)) {
        ResolveAction::ReadLog { path } => assert_eq!(path, "C:\\g\\Client.log"),
        other => panic!("unexpected action {:?}", other),
    }
    assert_eq!(resolver.phase(), ResolvePhase::ReadingLog);
    let other_player = format!("x {} y", record_url("444", "a", "cn"));
    match resolver.step(ResolveEvent::LogText(other_player)) {
        ResolveAction::ReadLog { path } => assert_eq!(path, "C:\\g\\Client-backup.log"),
        other => panic!("unexpected action {:?}", other),
    }
    let text = format!(
        "{}\n{}\n",
        record_url("555", "older", "cn"),
        record_url("555", "newer", "cn")
    );
    match resolver.step(ResolveEvent::LogText(text)) {
        ResolveAction::StoreCache { player_id, url } => {
            assert_eq!(player_id, "555");
            assert_eq!(url, record_url("555", "newer", "cn"));
        }
        other => panic!("unexpected action {:?}", other),
    }
    assert_eq!(resolver.phase(), ResolvePhase::StoringCache);
    match resolver.step(ResolveEvent::CacheStored) {
        ResolveAction::Resolved { oversea, param } => {
            assert!(!oversea);
            assert_eq!(param.player_id, "555");
            assert_eq!(param.record_id, "newer");
        }
        other => panic!("unexpected action {:?}", other),
    }
    assert_eq!(resolver.phase(), ResolvePhase::Done);
}

#[test]
fn without_a_player_the_address_found_names_the_cache() {
    let mut resolver = listing("");
    resolver.step(ResolveEvent::LogFiles(vec!["a.log".to_string()]));
    match resolver.step(ResolveEvent::LogText(record_url("909", "r", "cn"))) {
        ResolveAction::StoreCache { player_id, url } => {
            assert_eq!(player_id, "909");
            assert_eq!(url, record_url("909", "r", "cn"));
        }
        other => panic!("unexpected action {:?}", other),
    }
}

#[test]
fn logs_without_the_address_fail_the_search() {
    let mut resolver = listing("555");
    resolver.step(ResolveEvent::LogFiles(vec!["a.log".to_string(), "b.log".to_string()]));
    resolver.step(ResolveEvent::LogText("nothing".to_string()));
    let error = expect_fail(resolver.step(ResolveEvent::LogText(record_url("1", "r", "cn"))));
    assert_eq!(error, SyncError::CredentialNotFound);
    assert_eq!(error.message(), "未打开过抽卡页面");
    assert_eq!(resolver.phase(), ResolvePhase::Failed);
}

#[test]
fn no_log_file_fails_the_search() {
    let mut resolver = listing("555");
    let error = expect_fail(resolver.step(ResolveEvent::LogFiles(Vec::new())));
    assert_eq!(error, SyncError::NoLogFile);
    let mut resolver = listing("555");
    let error = expect_fail(resolver.step(ResolveEvent::NoLogFiles));
    assert_eq!(error, SyncError::NoLogFile);
    assert_eq!(error.message(), "未找到游戏进程");
    let mut resolver = listing("555");
    let error = expect_fail(resolver.step(ResolveEvent::LogFilesUnreadable("denied".to_string())));
    assert_eq!(error, SyncError::PersistenceFailure("denied".to_string()));
}

#[test]
fn failures_of_the_disk_fail_the_search() {
    let mut resolver = listing("555");
    resolver.step(ResolveEvent::LogFiles(vec!["a.log".to_string()]));
    let error = expect_fail(resolver.step(ResolveEvent::LogUnreadable("locked".to_string())));
    assert_eq!(error, SyncError::PersistenceFailure("locked".to_string()));
    let mut resolver = listing("555");
    resolver.step(ResolveEvent::LogFiles(vec!["a.log".to_string()]));
    resolver.step(ResolveEvent::LogText(record_url("555", "r", "cn")));
    let error = expect_fail(resolver.step(ResolveEvent::CacheStoreFailed("full".to_string())));
    assert_eq!(error, SyncError::PersistenceFailure("full".to_string()));
    assert!(resolver.is_over());
}

#[test]
fn an_event_out_of_turn_fails_the_search() {
    let (mut resolver, _) = Resolver::start("1".to_string());
    let error = expect_fail(resolver.step(ResolveEvent::CacheStored));
    assert_eq!(error, SyncError::OutOfTurn);
    assert_eq!(resolver.phase(), ResolvePhase::Failed);
    let error = expect_fail(resolver.step(ResolveEvent::Cache(String::new())));
    assert_eq!(error, SyncError::OutOfTurn);
}

#[test]
fn an_outcome_can_be_handed_to_the_search_directly() {
    let mut resolver = listing("");
    resolver.step(ResolveEvent::LogFiles(vec!["a.log".to_string(), "b.log".to_string()]));
    match resolver.take_log(Ok(None)) {
        ResolveAction::ReadLog { path } => assert_eq!(path, "b.log"),
        other => panic!("unexpected action {:?}", other),
    }
    let error = expect_fail(resolver.take_log(Err(SyncError::BadPattern("bad".to_string()))));
    assert_eq!(error, SyncError::BadPattern("bad".to_string()));
    let (mut resolver, _) = Resolver::start(String::new());
    match resolver.take_cache(Ok(None)) {
        ResolveAction::ListLogs => {}
        other => panic!("unexpected action {:?}", other),
    }
    let (mut resolver, _) = Resolver::start(String::new());
    let found = credential_from_cache(record_url("3", "r", "global")).unwrap();
    match resolver.take_cache(Ok(found)) {
        ResolveAction::Resolved { oversea, param } => {
            assert!(oversea);
            assert_eq!(param.player_id, "3");
        }
        other => panic!("unexpected action {:?}", other),
    }
}
