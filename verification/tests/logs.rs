use gacha_record::logs::{
    choose_log_dir, find_last_existing, game_log_dir, launcher_log_dir, newest_first, shown_name,
    Candidate, LogFile, GAME_PROCESS, LAUNCHER_PROCESS,
};
use gacha_record::notice::{decimal, fetch_notice, log_notice};
use gacha_record::persistence::{
    backup_dir, backup_path, cached_statistics_text, history_path, player_dir, url_cache_path,
    BACKUP_STAMP_LAYOUT, CONFIG_PATH, DATA_DIR, STATISTICS_CACHE_PATH,
};
use gacha_record::error::SyncError;

fn file(path: &str, modified: u128) -> LogFile {
    LogFile { path: path.to_string(), modified }
}

fn candidate(path: &str, exists: bool) -> Candidate {
    Candidate { path: path.to_string(), exists }
}

#[test]
fn get_wuthering_waves_progress_path_test() {
    let files = vec![file("Client-old.log", 10), file("Client.log", 30), file("Client-mid.log", 20)];
    let path = newest_first(&files);
    println!("{:?}", path);
    assert_eq!(path, vec!["Client.log", "Client-mid.log", "Client-old.log"]);
}

#[test]
fn files_modified_at_the_same_time_keep_their_order() {
    let files = vec![file("a", 5), file("b", 9), file("c", 5), file("d", 9), file("e", 0)];
    assert_eq!(newest_first(&files), vec!["b", "d", "a", "c", "e"]);
    assert!(newest_first(&Vec::new()).is_empty());
    assert_eq!(newest_first(&vec![file("only", 1)]), vec!["only"]);
}

#[test]
fn the_log_directory_lies_below_the_program() {
    assert_eq!(LAUNCHER_PROCESS, "launcher.exe");
    assert_eq!(GAME_PROCESS, "Wuthering Waves.exe");
    assert_eq!(
        launcher_log_dir("D:\\Games\\WW"),
        "D:\\Games\\WW\\Wuthering Waves Game\\Client\\Saved\\Logs"
    );
    assert_eq!(game_log_dir("D:\\Games\\WW\\Game"), "D:\\Games\\WW\\Game\\Client\\Saved\\Logs");
}

#[test]
fn the_launcher_comes_before_the_game() {
    let by_launcher = vec![candidate("l1", true), candidate("l2", true), candidate("l3", false)];
    let by_game = vec![candidate("g1", true)];
    assert_eq!(choose_log_dir(&by_launcher, &by_game), Some("l2".to_string()));
    let by_launcher = vec![candidate("l1", false)];
    assert_eq!(choose_log_dir(&by_launcher, &by_game), Some("g1".to_string()));
    assert_eq!(choose_log_dir(&by_launcher, &Vec::new()), None);
    assert_eq!(find_last_existing(&Vec::new()), None);
}

#[test]
fn the_name_shown_follows_the_last_backslash() {
    assert_eq!(shown_name("C:\\Logs\\Client.log"), "Client.log");
    assert_eq!(shown_name("C:\\Logs\\"), "");
    assert_eq!(shown_name("Client.log"), "lient.log");
    assert_eq!(shown_name(""), "");
    assert_eq!(shown_name("x"), "");
    assert_eq!(shown_name("\\日志.log"), "日志.log");
    assert_eq!(log_notice("C:\\Logs\\Client.log"), "正在从日志文件中获取卡池地址：Client.log");
}

#[test]
fn numbers_are_written_in_decimal() {
    assert_eq!(decimal(0), "0");
    assert_eq!(decimal(7), "7");
    assert_eq!(decimal(10), "10");
    assert_eq!(decimal(1234567890), "1234567890");
    assert_eq!(decimal(-45), "-45");
    assert_eq!(decimal(i32::MAX), "2147483647");
    assert_eq!(decimal(i32::MIN), "-2147483648");
    assert_eq!(fetch_notice(3), "正在获取卡池 3 的数据");
}

#[test]
fn the_files_of_a_player_lie_in_one_directory() {
    assert_eq!(DATA_DIR, "./data");
    assert_eq!(STATISTICS_CACHE_PATH, "./data/gacha_statistic_cache.json");
    assert_eq!(CONFIG_PATH, "./data/config.toml");
    assert_eq!(player_dir("100"), "./data/100");
    assert_eq!(history_path("100"), "./data/100/gacha_data.json");
    assert_eq!(url_cache_path("100"), "./data/100/url_cache.txt");
    assert_eq!(backup_dir("100"), "./data/100/backup");
    assert_eq!(
        backup_path("100", "2024-07-05-07-40-58-123456"),
        "./data/100/backup/gacha_data.json.2024-07-05-07-40-58-123456.backup"
    );
}

#[test]
fn the_stamp_of_a_backup_goes_down_to_the_microsecond() {
    assert_eq!(BACKUP_STAMP_LAYOUT, "%Y-%m-%d-%H-%M-%S-%6f");
    let moment = chrono::NaiveDate::from_ymd_opt(2024, 7, 5)
        .unwrap()
        .and_hms_micro_opt(7, 40, 58, 123)
        .unwrap();
    let stamp = moment.format(BACKUP_STAMP_LAYOUT).to_string();
    assert_eq!(stamp, "2024-07-05-07-40-58-000123");
    assert_eq!(
        backup_path("100", &stamp),
        "./data/100/backup/gacha_data.json.2024-07-05-07-40-58-000123.backup"
    );
    let next = moment + chrono::Duration::microseconds(1);
    assert_ne!(
        backup_path("100", &next.format(BACKUP_STAMP_LAYOUT).to_string()),
        backup_path("100", &stamp)
    );
}

#[test]
fn an_empty_cache_text_is_no_cache() {
    assert_eq!(cached_statistics_text(String::new()), Err(SyncError::NoCacheAvailable));
    assert_eq!(cached_statistics_text("{}".to_string()), Ok("{}".to_string()));
    assert_eq!(SyncError::NoCacheAvailable.message(), "无缓存");
    assert_eq!(SyncError::NoCacheAvailable.clone(), SyncError::NoCacheAvailable);
    assert_eq!(
        SyncError::InvalidUrl("x".to_string()).clone(),
        SyncError::InvalidUrl("x".to_string())
    );
    assert_eq!(SyncError::InvalidUrl("why".to_string()).message(), "why");
    assert_eq!(SyncError::BadPattern("why".to_string()).message(), "why");
}
