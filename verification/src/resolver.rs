//! Finding the record page address of a player in the text of a game log.
use vstd::prelude::*;
use crate::descriptor::{
    get_request_param, is_oversea, request_param_of, request_param_result, without_hash,
    RequestParam, RequestParamView,
};
use crate::error::{SyncError, SyncErrorView};
use crate::trusted::{find_matches, query_pairs_of, regex_error_text, regex_matches};

verus! {

/// The shape of a record page address in a log: scheme, the fixed path of the
/// record page, and its query.
pub const RECORD_URL_PATTERN: &'static str = "https.*/aki/gacha/index.html#/record[?=&\\w\\-]+";

/// A record page address found for a player, with what was read from it.
#[derive(Debug)]
pub struct Credential {
    /// The address as it stands in the log.
    pub url: String,
    /// Whether the address belongs to the oversea service.
    pub oversea: bool,
    pub param: RequestParam,
}

/// The mathematical value of a [`Credential`].
pub struct CredentialView {
    pub url: Seq<char>,
    pub oversea: bool,
    pub param: RequestParamView,
}

impl View for Credential {
    type V = CredentialView;

    open spec fn view(&self) -> CredentialView {
        CredentialView { url: self.url@, oversea: self.oversea, param: self.param@ }
    }
}

/// Whether an address with the given query, if it has one, serves the
/// requested player. With no player requested every address does.
pub open spec fn serves(player_id: Seq<char>, pairs: Option<Seq<(Seq<char>, Seq<char>)>>) -> bool {
    player_id.len() == 0 || (pairs matches Some(pairs) && request_param_of(pairs).player_id
        == player_id)
}

/// Whether what was read from an address serves the requested player.
pub fn is_wanted(player_id: &str, parsed: &Result<(bool, RequestParam), SyncError>) -> (wanted:
    bool)
    ensures
        wanted == (player_id@.len() == 0 || (parsed matches Ok(found) && found.1@.player_id
            == player_id@)),
{
    if player_id.is_empty() {
        return true;
    }
    match parsed {
        Ok(found) => found.1.player_id == player_id.to_owned(),
        Err(_) => false,
    }
}

/// The position of the last address, in the order of the log, that serves the
/// requested player.
pub open spec fn latest_wanted(player_id: Seq<char>, urls: Seq<Seq<char>>) -> Option<int>
    decreases urls.len(),
{
    if urls.len() == 0 {
        None
    } else if serves(player_id, query_pairs_of(without_hash(urls.last()))) {
        Some(urls.len() - 1)
    } else {
        latest_wanted(player_id, urls.drop_last())
    }
}

/// `latest_wanted` is the last position that serves the player.
pub proof fn lemma_latest_wanted(player_id: Seq<char>, urls: Seq<Seq<char>>)
    ensures
        match latest_wanted(player_id, urls) {
            Some(at) => {
                &&& 0 <= at < urls.len()
                &&& serves(player_id, query_pairs_of(without_hash(urls[at])))
                &&& forall|later: int|
                    at < later < urls.len() ==> !serves(
                        player_id,
                        query_pairs_of(without_hash(#[trigger] urls[later])),
                    )
            },
            None => forall|at: int|
                0 <= at < urls.len() ==> !serves(
                    player_id,
                    query_pairs_of(without_hash(#[trigger] urls[at])),
                ),
        },
    decreases urls.len(),
{
    if urls.len() > 0 && !serves(player_id, query_pairs_of(without_hash(urls.last()))) {
        lemma_latest_wanted(player_id, urls.drop_last());
        match latest_wanted(player_id, urls) {
            Some(at) => {
                assert forall|later: int| at < later < urls.len() implies !serves(
                    player_id,
                    query_pairs_of(without_hash(#[trigger] urls[later])),
                ) by {
                    if later < urls.len() - 1 {
                        assert(urls[later] == urls.drop_last()[later]);
                    }
                }
            },
            None => {
                assert forall|at: int| 0 <= at < urls.len() implies !serves(
                    player_id,
                    query_pairs_of(without_hash(#[trigger] urls[at])),
                ) by {
                    if at < urls.len() - 1 {
                        assert(urls[at] == urls.drop_last()[at]);
                    }
                }
            },
        }
    }
}

/// Picks, among the addresses found in a log, the most recent one that serves
/// the requested player, and returns its position with what was read from it.
///
/// The addresses are tried from the last to the first. With no player
/// requested the last address is picked whether it can be read or not.
pub fn select_record_url(urls: &Vec<String>, player_id: &str) -> (picked: Option<
    (usize, Result<(bool, RequestParam), SyncError>),
>)
    ensures
        match latest_wanted(player_id@, urls.deep_view()) {
            Some(at) => {
                &&& picked matches Some(pick)
                &&& pick.0 == at
                &&& request_param_result(query_pairs_of(without_hash(urls[at]@)), pick.1)
            },
            None => picked is None,
        },
{
    let mut i: usize = urls.len();
    assert(urls.deep_view().take(i as int) =~= urls.deep_view());
    while i > 0
        invariant
            i <= urls.len(),
            latest_wanted(player_id@, urls.deep_view()) == latest_wanted(
                player_id@,
                urls.deep_view().take(i as int),
            ),
        decreases i,
    {
        i -= 1;
        proof {
            let seen = urls.deep_view().take(i + 1);
            assert(seen.drop_last() =~= urls.deep_view().take(i as int));
            assert(seen.last() == urls[i as int]@);
        }
        let parsed = get_request_param(urls[i].clone());
        if is_wanted(player_id, &parsed) {
            return Some((i, parsed));
        }
    }
    None
}

/// What a search for the address of a player comes to.
pub enum Search {
    /// The address that serves the player, with what was read from it.
    Found(CredentialView),
    /// There is no address that serves the player.
    Nothing,
    /// The address picked cannot be read as an address.
    Unreadable,
    /// The pattern that finds addresses was refused.
    Refused,
}

/// What reading a single address comes to.
pub open spec fn read_address(url: Seq<char>) -> Search {
    match query_pairs_of(without_hash(url)) {
        Some(pairs) => Search::Found(
            CredentialView { url, oversea: is_oversea(pairs), param: request_param_of(pairs) },
        ),
        None => Search::Unreadable,
    }
}

/// What the search among the addresses found in a log comes to: the last
/// address that serves the player is the one that is read.
pub open spec fn search(player_id: Seq<char>, urls: Option<Seq<Seq<char>>>) -> Search {
    match urls {
        None => Search::Refused,
        Some(urls) => match latest_wanted(player_id, urls) {
            None => Search::Nothing,
            Some(at) => read_address(urls[at]),
        },
    }
}

/// The mathematical value of what a search returns.
pub open spec fn result_view(result: Result<Option<Credential>, SyncError>) -> Result<
    Option<CredentialView>,
    SyncErrorView,
> {
    match result {
        Ok(Some(found)) => Ok(Some(found@)),
        Ok(None) => Ok(None),
        Err(error) => Err(error@),
    }
}

/// Whether a returned value tells of the given outcome of a search. The
/// wording of a failure is left open.
pub open spec fn tells(
    value: Result<Option<CredentialView>, SyncErrorView>,
    outcome: Search,
) -> bool {
    match outcome {
        Search::Found(credential) => value == Ok::<Option<CredentialView>, SyncErrorView>(
            Some(credential),
        ),
        Search::Nothing => value == Ok::<Option<CredentialView>, SyncErrorView>(None),
        Search::Unreadable => value matches Err(SyncErrorView::InvalidUrl(_)),
        Search::Refused => value matches Err(SyncErrorView::BadPattern(_)),
    }
}

/// Whether a result reports the given outcome of a search.
pub open spec fn reports(result: Result<Option<Credential>, SyncError>, outcome: Search) -> bool {
    tells(result_view(result), outcome)
}

/// Chooses among addresses already found in a log: the most recent one that
/// serves the requested player, read into a credential.
pub fn credential_from_urls(urls: &Vec<String>, player_id: &str) -> (result: Result<
    Option<Credential>,
    SyncError,
>)
    ensures
        reports(result, search(player_id@, Some(urls.deep_view()))),
{
    proof {
        lemma_latest_wanted(player_id@, urls.deep_view());
    }
    match select_record_url(urls, player_id) {
        None => Ok(None),
        Some((at, Ok((oversea, param)))) => Ok(
            Some(Credential { url: urls[at].clone(), oversea, param }),
        ),
        Some((_, Err(error))) => Err(error),
    }
}

/// Searches a text for the address of a player: among the pieces of the
/// text that match the pattern, the last one that serves the player is read.
///
/// Returns `Ok(None)` when no piece serves the player, and fails with
/// `BadPattern` exactly when the pattern is refused.
pub fn search_text(pattern: &str, text: &str, player_id: &str) -> (result: Result<
    Option<Credential>,
    SyncError,
>)
    ensures
        reports(result, search(player_id@, regex_matches(pattern@, text@))),
{
    match find_matches(pattern, text) {
        Ok(urls) => credential_from_urls(&urls, player_id),
        Err(error) => Err(SyncError::BadPattern(regex_error_text(&error))),
    }
}

/// Searches the text of one log for the record page address of a player.
///
/// Returns `Ok(None)` when the log holds no address that serves the player.
pub fn scan_log(text: &str, player_id: &str) -> (result: Result<Option<Credential>, SyncError>)
    ensures
        reports(result, search(player_id@, regex_matches(RECORD_URL_PATTERN@, text@))),
{
    search_text(RECORD_URL_PATTERN, text, player_id)
}

/// Reads a cached address into a credential.
pub fn credential_from_cache(url: String) -> (result: Result<Option<Credential>, SyncError>)
    ensures
        reports(result, read_address(url@)),
{
    match get_request_param(url.clone()) {
        Ok((oversea, param)) => Ok(Some(Credential { url, oversea, param })),
        Err(error) => Err(error),
    }
}

/// An address found for a requested player is that player's, and it can be
/// read: a search for a given player never ends on an unreadable address.
pub proof fn lemma_found_is_requested(player_id: Seq<char>, urls: Seq<Seq<char>>)
    requires
        player_id.len() > 0,
    ensures
        search(player_id, Some(urls)) matches Search::Found(found) ==> found.param.player_id
            == player_id,
        !(search(player_id, Some(urls)) is Unreadable),
        !(search(player_id, Some(urls)) is Refused),
{
    lemma_latest_wanted(player_id, urls);
}

/// Whatever is found was written in the log: the address of a credential is
/// one of the addresses searched.
pub proof fn lemma_found_is_from_the_log(player_id: Seq<char>, urls: Seq<Seq<char>>)
    ensures
        search(player_id, Some(urls)) matches Search::Found(found) ==> urls.contains(found.url),
{
    lemma_latest_wanted(player_id, urls);
}

/// What a resolver is waiting for.
#[derive(Debug, Clone, Copy, PartialEq, Eq, Structural)]
pub enum ResolvePhase {
    /// The text of the cached address.
    ReadingCache,
    /// The list of log files.
    ListingLogs,
    /// The text of the log file whose turn it is.
    ReadingLog,
    /// The write of the address found to the cache.
    StoringCache,
    /// Nothing: the descriptor has been delivered.
    Done,
    /// Nothing: the search has failed.
    Failed,
}

/// The outcome of the action that a resolver asked for.
#[derive(Debug)]
pub enum ResolveEvent {
    /// The text of the cached address; empty where there is no cache.
    Cache(String),
    CacheUnreadable(String),
    /// The paths of the log files, the most recently modified first.
    LogFiles(Vec<String>),
    /// The game, and with it its logs, could not be found.
    NoLogFiles,
    LogFilesUnreadable(String),
    /// The text of the log file asked for.
    LogText(String),
    LogUnreadable(String),
    CacheStored,
    CacheStoreFailed(String),
}

/// The mathematical value of a [`ResolveEvent`].
pub enum ResolveEventView {
    Cache(Seq<char>),
    CacheUnreadable(Seq<char>),
    LogFiles(Seq<Seq<char>>),
    NoLogFiles,
    LogFilesUnreadable(Seq<char>),
    LogText(Seq<char>),
    LogUnreadable(Seq<char>),
    CacheStored,
    CacheStoreFailed(Seq<char>),
}

impl View for ResolveEvent {
    type V = ResolveEventView;

    open spec fn view(&self) -> ResolveEventView {
        match *self {
            ResolveEvent::Cache(text) => ResolveEventView::Cache(text@),
            ResolveEvent::CacheUnreadable(cause) => ResolveEventView::CacheUnreadable(cause@),
            ResolveEvent::LogFiles(paths) => ResolveEventView::LogFiles(paths.deep_view()),
            ResolveEvent::NoLogFiles => ResolveEventView::NoLogFiles,
            ResolveEvent::LogFilesUnreadable(cause) => ResolveEventView::LogFilesUnreadable(
                cause@,
            ),
            ResolveEvent::LogText(text) => ResolveEventView::LogText(text@),
            ResolveEvent::LogUnreadable(cause) => ResolveEventView::LogUnreadable(cause@),
            ResolveEvent::CacheStored => ResolveEventView::CacheStored,
            ResolveEvent::CacheStoreFailed(cause) => ResolveEventView::CacheStoreFailed(cause@),
        }
    }
}

/// What a resolver asks its driver to do.
#[derive(Debug)]
pub enum ResolveAction {
    /// Read the cached address of the player; with no player named, of any
    /// player.
    ReadCache { player_id: String },
    /// List the log files of the game, the most recently modified first.
    ListLogs,
    /// Read the log file at `path`.
    ReadLog { path: String },
    /// Write `url` to the cache of the player.
    StoreCache { player_id: String, url: String },
    /// Deliver the descriptor; the search is over.
    Resolved { oversea: bool, param: RequestParam },
    /// Report the failure; the search is over.
    Fail(SyncError),
}

/// The mathematical value of a [`ResolveAction`].
pub enum ResolveActionView {
    ReadCache { player_id: Seq<char> },
    ListLogs,
    ReadLog { path: Seq<char> },
    StoreCache { player_id: Seq<char>, url: Seq<char> },
    Resolved { oversea: bool, param: RequestParamView },
    Fail(SyncErrorView),
}

impl View for ResolveAction {
    type V = ResolveActionView;

    open spec fn view(&self) -> ResolveActionView {
        match *self {
            ResolveAction::ReadCache { player_id } => ResolveActionView::ReadCache {
                player_id: player_id@,
            },
            ResolveAction::ListLogs => ResolveActionView::ListLogs,
            ResolveAction::ReadLog { path } => ResolveActionView::ReadLog { path: path@ },
            ResolveAction::StoreCache { player_id, url } => ResolveActionView::StoreCache {
                player_id: player_id@,
                url: url@,
            },
            ResolveAction::Resolved { oversea, param } => ResolveActionView::Resolved {
                oversea,
                param: param@,
            },
            ResolveAction::Fail(error) => ResolveActionView::Fail(error@),
        }
    }
}

/// The search for the descriptor of a player: first in the cache, then in
/// the log files, the most recently modified first.
pub struct Resolver {
    phase: ResolvePhase,
    player_id: String,
    logs: Vec<String>,
    turn: usize,
    found: Option<Credential>,
}

/// The mathematical value of a [`Resolver`].
pub struct ResolverView {
    pub phase: ResolvePhase,
    /// The player asked for; empty where any player will do.
    pub player_id: Seq<char>,
    /// The log files, the most recently modified first.
    pub logs: Seq<Seq<char>>,
    /// The position in `logs` of the file being read.
    pub turn: int,
    /// The address found in a log, while it is being stored.
    pub found: Option<CredentialView>,
}

impl Resolver {
    /// While a log is being read it is one of the logs listed, and while an
    /// address is being stored there is one.
    #[verifier::type_invariant]
    spec fn well_formed(self) -> bool {
        &&& self.phase == ResolvePhase::ReadingLog ==> self.turn < self.logs.len()
        &&& self.phase == ResolvePhase::StoringCache ==> self.found is Some
    }
}

impl View for Resolver {
    type V = ResolverView;

    closed spec fn view(&self) -> ResolverView {
        ResolverView {
            phase: self.phase,
            player_id: self.player_id@,
            logs: self.logs.deep_view(),
            turn: self.turn as int,
            found: match self.found {
                Some(found) => Some(found@),
                None => None,
            },
        }
    }
}

/// The first state of a search and its first action: read the cache.
pub open spec fn resolve_start(player_id: Seq<char>) -> (ResolverView, ResolveActionView) {
    (
        ResolverView {
            phase: ResolvePhase::ReadingCache,
            player_id,
            logs: Seq::empty(),
            turn: 0,
            found: None,
        },
        ResolveActionView::ReadCache { player_id },
    )
}

/// A search that has failed.
pub open spec fn given_up(resolver: ResolverView) -> ResolverView {
    ResolverView { phase: ResolvePhase::Failed, ..resolver }
}

/// What follows the reading of the cached address: an address read
/// settles the search, no address sends it to the logs, and a failure ends
/// it.
pub open spec fn taken_cache(
    resolver: ResolverView,
    read: Result<Option<CredentialView>, SyncErrorView>,
) -> (ResolverView, ResolveActionView) {
    match read {
        Ok(Some(found)) => (
            ResolverView { phase: ResolvePhase::Done, ..resolver },
            ResolveActionView::Resolved { oversea: found.oversea, param: found.param },
        ),
        Ok(None) => (
            ResolverView { phase: ResolvePhase::ListingLogs, ..resolver },
            ResolveActionView::ListLogs,
        ),
        Err(error) => (given_up(resolver), ResolveActionView::Fail(error)),
    }
}

/// What follows the search of the log file whose turn it is: an address
/// found is stored under the player it names; after a log without one the
/// next log is read, and after the last log the search fails.
pub open spec fn taken_log(
    resolver: ResolverView,
    searched: Result<Option<CredentialView>, SyncErrorView>,
) -> (ResolverView, ResolveActionView) {
    match searched {
        Ok(Some(found)) => (
            ResolverView { phase: ResolvePhase::StoringCache, found: Some(found), ..resolver },
            ResolveActionView::StoreCache { player_id: found.param.player_id, url: found.url },
        ),
        Ok(None) => if resolver.turn + 1 < resolver.logs.len() {
            (
                ResolverView { turn: resolver.turn + 1, ..resolver },
                ResolveActionView::ReadLog { path: resolver.logs[resolver.turn + 1] },
            )
        } else {
            (
                given_up(resolver),
                ResolveActionView::Fail(SyncErrorView::CredentialNotFound),
            )
        },
        Err(error) => (given_up(resolver), ResolveActionView::Fail(error)),
    }
}

/// Whether `next` and `action` follow the reading of the cached address,
/// given what the reading came to.
pub open spec fn after_cache(
    resolver: ResolverView,
    outcome: Search,
    next: ResolverView,
    action: ResolveActionView,
) -> bool {
    exists|read: Result<Option<CredentialView>, SyncErrorView>| #[trigger]
        tells(read, outcome) && (next, action) == taken_cache(resolver, read)
}

/// Whether `next` and `action` follow the search of the log whose turn it
/// is, given what the search came to.
pub open spec fn after_log(
    resolver: ResolverView,
    outcome: Search,
    next: ResolverView,
    action: ResolveActionView,
) -> bool {
    exists|searched: Result<Option<CredentialView>, SyncErrorView>| #[trigger]
        tells(searched, outcome) && (next, action) == taken_log(resolver, searched)
}

/// The search in a cache text: an empty text holds nothing, any other text
/// is read as one address.
pub open spec fn search_cache(text: Seq<char>) -> Search {
    if text.len() == 0 {
        Search::Nothing
    } else {
        read_address(text)
    }
}

/// Whether `next` and `action` are the state of a search after an event and
/// the action it asks for.
///
/// An event that the search is not waiting for fails it.
pub open spec fn resolve_step(
    resolver: ResolverView,
    event: ResolveEventView,
    next: ResolverView,
    action: ResolveActionView,
) -> bool {
    match (resolver.phase, event) {
        (ResolvePhase::ReadingCache, ResolveEventView::Cache(text)) => after_cache(
            resolver,
            search_cache(text),
            next,
            action,
        ),
        (ResolvePhase::ReadingCache, ResolveEventView::CacheUnreadable(cause)) => {
            &&& next == given_up(resolver)
            &&& action == ResolveActionView::Fail(SyncErrorView::PersistenceFailure(cause))
        },
        (ResolvePhase::ListingLogs, ResolveEventView::LogFiles(paths)) => if paths.len() == 0 {
            &&& next == given_up(resolver)
            &&& action == ResolveActionView::Fail(SyncErrorView::NoLogFile)
        } else {
            &&& next == ResolverView {
                phase: ResolvePhase::ReadingLog,
                logs: paths,
                turn: 0,
                ..resolver
            }
            &&& action == ResolveActionView::ReadLog { path: paths[0] }
        },
        (ResolvePhase::ListingLogs, ResolveEventView::NoLogFiles) => {
            &&& next == given_up(resolver)
            &&& action == ResolveActionView::Fail(SyncErrorView::NoLogFile)
        },
        (ResolvePhase::ListingLogs, ResolveEventView::LogFilesUnreadable(cause)) => {
            &&& next == given_up(resolver)
            &&& action == ResolveActionView::Fail(SyncErrorView::PersistenceFailure(cause))
        },
        (ResolvePhase::ReadingLog, ResolveEventView::LogText(text)) => after_log(
            resolver,
            search(resolver.player_id, regex_matches(RECORD_URL_PATTERN@, text)),
            next,
            action,
        ),
        (ResolvePhase::ReadingLog, ResolveEventView::LogUnreadable(cause)) => {
            &&& next == given_up(resolver)
            &&& action == ResolveActionView::Fail(SyncErrorView::PersistenceFailure(cause))
        },
        (ResolvePhase::StoringCache, ResolveEventView::CacheStored) => match resolver.found {
            Some(found) => {
                &&& next == ResolverView { phase: ResolvePhase::Done, ..resolver }
                &&& action == ResolveActionView::Resolved {
                    oversea: found.oversea,
                    param: found.param,
                }
            },
            None => {
                &&& next == given_up(resolver)
                &&& action == ResolveActionView::Fail(SyncErrorView::OutOfTurn)
            },
        },
        (ResolvePhase::StoringCache, ResolveEventView::CacheStoreFailed(cause)) => {
            &&& next == given_up(resolver)
            &&& action == ResolveActionView::Fail(SyncErrorView::PersistenceFailure(cause))
        },
        _ => {
            &&& next == given_up(resolver)
            &&& action == ResolveActionView::Fail(SyncErrorView::OutOfTurn)
        },
    }
}

/// The cache is written only under the player whom the address written
/// names, and where a player was asked for, only under that player: the
/// cache of another player is never touched.
pub proof fn lemma_store_names_the_player(
    resolver: ResolverView,
    event: ResolveEventView,
    next: ResolverView,
    action: ResolveActionView,
)
    requires
        resolve_step(resolver, event, next, action),
        action is StoreCache,
    ensures
        read_address(action->url) matches Search::Found(found) && found.param.player_id
            == action->StoreCache_player_id,
        resolver.player_id.len() > 0 ==> action->StoreCache_player_id == resolver.player_id,
        resolver.phase == ResolvePhase::ReadingLog,
        event is LogText,
{
    let urls = regex_matches(RECORD_URL_PATTERN@, event->LogText_0);
    lemma_latest_wanted(resolver.player_id, urls->0);
    if resolver.player_id.len() > 0 {
        lemma_found_is_requested(resolver.player_id, urls->0);
    }
}

/// A cache that can be read settles the search at once: no log is listed
/// or read.
pub proof fn lemma_cache_comes_first(
    resolver: ResolverView,
    text: Seq<char>,
    next: ResolverView,
    action: ResolveActionView,
)
    requires
        resolver.phase == ResolvePhase::ReadingCache,
        resolve_step(resolver, ResolveEventView::Cache(text), next, action),
        text.len() > 0,
    ensures
        action is Resolved || action is Fail,
        action is Resolved <==> query_pairs_of(without_hash(text)) is Some,
        next.phase == ResolvePhase::Done || next.phase == ResolvePhase::Failed,
{
}

/// A search that is over stays over.
pub proof fn lemma_resolved_is_final(
    resolver: ResolverView,
    event: ResolveEventView,
    next: ResolverView,
    action: ResolveActionView,
)
    requires
        resolver.phase == ResolvePhase::Done || resolver.phase == ResolvePhase::Failed,
        resolve_step(resolver, event, next, action),
    ensures
        next == given_up(resolver),
        action == ResolveActionView::Fail(SyncErrorView::OutOfTurn),
{
}

impl Resolver {
    /// Begins the search for the descriptor of a player, or of any player
    /// where `player_id` is empty, and asks for the cached address.
    pub fn start(player_id: String) -> (begun: (Resolver, ResolveAction))
        ensures
            (begun.0@, begun.1@) == resolve_start(player_id@),
    {
        let resolver = Resolver {
            phase: ResolvePhase::ReadingCache,
            player_id: player_id.clone(),
            logs: Vec::new(),
            turn: 0,
            found: None,
        };
        assert(resolver.logs.deep_view() =~= Seq::empty());
        (resolver, ResolveAction::ReadCache { player_id })
    }

    /// What the search is waiting for.
    pub fn phase(&self) -> (phase: ResolvePhase)
        ensures
            phase == self@.phase,
    {
        self.phase
    }

    /// Whether the search is over.
    pub fn is_over(&self) -> (over: bool)
        ensures
            over == (self@.phase == ResolvePhase::Done || self@.phase == ResolvePhase::Failed),
    {
        self.phase == ResolvePhase::Done || self.phase == ResolvePhase::Failed
    }

    fn fail(&mut self, error: SyncError) -> (action: ResolveAction)
        ensures
            final(self)@ == given_up(old(self)@),
            action@ == ResolveActionView::Fail(error@),
    {
        self.phase = ResolvePhase::Failed;
        ResolveAction::Fail(error)
    }

    /// Takes what the reading of the cached address came to and answers
    /// with the next action.
    pub fn take_cache(&mut self, read: Result<Option<Credential>, SyncError>) -> (action:
        ResolveAction)
        ensures
            (final(self)@, action@) == taken_cache(old(self)@, result_view(read)),
    {
        proof {
            use_type_invariant(&*self);
        }
        match read {
            Ok(Some(found)) => {
                self.phase = ResolvePhase::Done;
                ResolveAction::Resolved { oversea: found.oversea, param: found.param }
            },
            Ok(None) => {
                self.phase = ResolvePhase::ListingLogs;
                ResolveAction::ListLogs
            },
            Err(error) => self.fail(error),
        }
    }

    /// Takes what the search of the log whose turn it is came to and answers
    /// with the next action.
    pub fn take_log(&mut self, searched: Result<Option<Credential>, SyncError>) -> (action:
        ResolveAction)
        ensures
            (final(self)@, action@) == taken_log(old(self)@, result_view(searched)),
    {
        proof {
            use_type_invariant(&*self);
            assert(self.logs.deep_view().len() == self.logs.len());
        }
        match searched {
            Ok(Some(found)) => {
                let action = ResolveAction::StoreCache {
                    player_id: found.param.player_id.clone(),
                    url: found.url.clone(),
                };
                self.found = Some(found);
                self.phase = ResolvePhase::StoringCache;
                action
            },
            Ok(None) => {
                if self.logs.len() > 0 && self.turn < self.logs.len() - 1 {
                    self.turn = self.turn + 1;
                    ResolveAction::ReadLog { path: self.logs[self.turn].clone() }
                } else {
                    self.fail(SyncError::CredentialNotFound)
                }
            },
            Err(error) => self.fail(error),
        }
    }

    /// Takes the outcome of the action asked for last and answers with the
    /// next action.
    pub fn step(&mut self, event: ResolveEvent) -> (action: ResolveAction)
        ensures
            resolve_step(old(self)@, event@, final(self)@, action@),
    {
        proof {
            use_type_invariant(&*self);
            assert(self.logs.deep_view().len() == self.logs.len());
        }
        match (self.phase, event) {
            (ResolvePhase::ReadingCache, ResolveEvent::Cache(text)) => {
                let read = if text.as_str().is_empty() {
                    Ok(None)
                } else {
                    credential_from_cache(text)
                };
                assert(reports(read, search_cache(text@)));
                self.take_cache(read)
            },
            (ResolvePhase::ReadingCache, ResolveEvent::CacheUnreadable(cause)) => self.fail(
                SyncError::PersistenceFailure(cause),
            ),
            (ResolvePhase::ListingLogs, ResolveEvent::LogFiles(paths)) => {
                if paths.len() == 0 {
                    self.fail(SyncError::NoLogFile)
                } else {
                    self.logs = paths;
                    self.turn = 0;
                    self.phase = ResolvePhase::ReadingLog;
                    ResolveAction::ReadLog { path: self.logs[0].clone() }
                }
            },
            (ResolvePhase::ListingLogs, ResolveEvent::NoLogFiles) => self.fail(
                SyncError::NoLogFile,
            ),
            (ResolvePhase::ListingLogs, ResolveEvent::LogFilesUnreadable(cause)) => self.fail(
                SyncError::PersistenceFailure(cause),
            ),
            (ResolvePhase::ReadingLog, ResolveEvent::LogText(text)) => {
                let searched = scan_log(text.as_str(), self.player_id.as_str());
                assert(reports(
                    searched,
                    search(self.player_id@, regex_matches(RECORD_URL_PATTERN@, text@)),
                ));
                self.take_log(searched)
            },
            (ResolvePhase::ReadingLog, ResolveEvent::LogUnreadable(cause)) => self.fail(
                SyncError::PersistenceFailure(cause),
            ),
            (ResolvePhase::StoringCache, ResolveEvent::CacheStored) => {
                self.phase = ResolvePhase::Done;
                match &self.found {
                    Some(found) => ResolveAction::Resolved {
                        oversea: found.oversea,
                        param: found.param.clone(),
                    },
                    None => self.fail(SyncError::OutOfTurn),
                }
            },
            (ResolvePhase::StoringCache, ResolveEvent::CacheStoreFailed(cause)) => self.fail(
                SyncError::PersistenceFailure(cause),
            ),
            _ => self.fail(SyncError::OutOfTurn),
        }
    }
}

} // verus!
