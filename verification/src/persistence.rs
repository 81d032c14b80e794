//! Where the files of a player lie, and how a backup is named.
use vstd::prelude::*;
use vstd::string::StringExecFns;
use crate::error::SyncError;

verus! {

/// The directory under which everything is stored.
pub const DATA_DIR: &'static str = "./data";

/// The file that holds the statistics shown last, for a quick first screen.
pub const STATISTICS_CACHE_PATH: &'static str = "./data/gacha_statistic_cache.json";

/// The file that holds the settings of the display.
pub const CONFIG_PATH: &'static str = "./data/config.toml";

/// The layout in which the moment of a backup is written into its name:
/// date and local time down to the microsecond, so that every pass leaves a
/// backup of its own.
pub const BACKUP_STAMP_LAYOUT: &'static str = "%Y-%m-%d-%H-%M-%S-%6f";

/// The directory of a player.
pub open spec fn player_dir_of(player_id: Seq<char>) -> Seq<char> {
    "./data/"@ + player_id
}

/// The file that holds the history of a player.
pub open spec fn history_path_of(player_id: Seq<char>) -> Seq<char> {
    player_dir_of(player_id) + "/gacha_data.json"@
}

/// The file that holds the cached record page address of a player.
pub open spec fn url_cache_path_of(player_id: Seq<char>) -> Seq<char> {
    player_dir_of(player_id) + "/url_cache.txt"@
}

/// The directory that holds the backups of a player.
pub open spec fn backup_dir_of(player_id: Seq<char>) -> Seq<char> {
    player_dir_of(player_id) + "/backup"@
}

/// The backup of the history of a player made at the time that `stamp`
/// names.
pub open spec fn backup_path_of(player_id: Seq<char>, stamp: Seq<char>) -> Seq<char> {
    backup_dir_of(player_id) + "/gacha_data.json."@ + stamp + ".backup"@
}

/// The directory of a player.
pub fn player_dir(player_id: &str) -> (path: String)
    ensures
        path@ == player_dir_of(player_id@),
{
    "./data/".to_owned().concat(player_id)
}

/// The file that holds the history of a player.
pub fn history_path(player_id: &str) -> (path: String)
    ensures
        path@ == history_path_of(player_id@),
{
    player_dir(player_id).concat("/gacha_data.json")
}

/// The file that holds the cached record page address of a player.
pub fn url_cache_path(player_id: &str) -> (path: String)
    ensures
        path@ == url_cache_path_of(player_id@),
{
    player_dir(player_id).concat("/url_cache.txt")
}

/// The directory that holds the backups of a player.
pub fn backup_dir(player_id: &str) -> (path: String)
    ensures
        path@ == backup_dir_of(player_id@),
{
    player_dir(player_id).concat("/backup")
}

/// The backup of the history of a player made at the time that `stamp`
/// names. Whoever makes the backup reads the clock and writes the moment in
/// [`BACKUP_STAMP_LAYOUT`].
pub fn backup_path(player_id: &str, stamp: &str) -> (path: String)
    ensures
        path@ == backup_path_of(player_id@, stamp@),
{
    backup_dir(player_id).concat("/gacha_data.json.").concat(stamp).concat(".backup")
}

/// Takes the text of the statistics cache: an empty text is no cache.
pub fn cached_statistics_text(text: String) -> (result: Result<String, SyncError>)
    ensures
        text@.len() == 0 ==> result == Err::<String, SyncError>(SyncError::NoCacheAvailable),
        text@.len() > 0 ==> result == Ok::<String, SyncError>(text),
{
    if text.as_str().is_empty() {
        Err(SyncError::NoCacheAvailable)
    } else {
        Ok(text)
    }
}

} // verus!
