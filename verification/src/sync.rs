//! One synchronisation pass, as a machine that is told what happened and
//! answers what to do next.
//!
//! The pass itself touches neither the network nor the disk. Whoever drives
//! it performs each [`SyncAction`] and reports the outcome as a
//! [`SyncEvent`]; the pass decides what follows.
use std::collections::BTreeMap;
use vstd::prelude::*;
use crate::descriptor::{RequestParam, RequestParamView};
use crate::error::{SyncError, SyncErrorView};
use crate::merge::{merge, merged};
use crate::record::{history_view, GachaData, GachaDataView, SavedGachaData};
use crate::statistics::{
    checked_gacha_statistics, countable, statistics_of, statistics_view, GachaStatistics,
    GachaStatisticsDataView,
};

verus! {

/// The first pool that a pass fetches.
pub const FIRST_POOL: i32 = 1;

/// The last pool that a pass fetches.
pub const LAST_POOL: i32 = 7;

/// Where the record service of the home region answers.
pub const HOME_RECORD_API: &'static str = "https://gmserver-api.aki-game2.com/gacha/record/query";

/// Where the record service of the oversea region answers.
pub const OVERSEA_RECORD_API: &'static str =
    "https://gmserver-api.aki-game2.net/gacha/record/query";

/// The address of the record service for a region.
pub open spec fn record_api_of(oversea: bool) -> Seq<char> {
    if oversea {
        OVERSEA_RECORD_API@
    } else {
        HOME_RECORD_API@
    }
}

/// The address of the record service for a region.
pub fn record_api(oversea: bool) -> (url: &'static str)
    ensures
        url@ == record_api_of(oversea),
{
    if oversea {
        OVERSEA_RECORD_API
    } else {
        HOME_RECORD_API
    }
}

/// What a pass is waiting for.
#[derive(Debug, Clone, Copy, PartialEq, Eq, Structural)]
pub enum SyncPhase {
    /// The stored history of the player.
    Loading,
    /// The page of the pool that the descriptor names.
    Fetching,
    /// The removal of the cached address, after the service rejected it.
    Invalidating,
    /// The backup copy of the stored history.
    BackingUp,
    /// The write of the merged history.
    Saving,
    /// The write of the statistics cache.
    Caching,
    /// Nothing: the pass has delivered its statistics.
    Done,
    /// Nothing: the pass has failed.
    Failed,
}

/// The outcome of the action that a pass asked for.
#[derive(Debug)]
pub enum SyncEvent {
    /// The stored history was read; it is empty where nothing was stored.
    Loaded(SavedGachaData),
    LoadFailed(String),
    /// The service answered with a status and a page, newest pull first.
    Page { code: i32, data: Vec<GachaData> },
    /// The service could not be reached.
    Unreachable(String),
    /// The service answered with something that is no page.
    Unreadable(String),
    /// The cached address is gone, or could not be removed.
    CacheRemoved,
    BackedUp,
    BackupFailed(String),
    Saved,
    SaveFailed(String),
    Cached,
    CacheFailed(String),
}

/// The mathematical value of a [`SyncEvent`].
pub enum SyncEventView {
    Loaded(Map<i32, Seq<GachaDataView>>),
    LoadFailed(Seq<char>),
    Page { code: i32, data: Seq<GachaDataView> },
    Unreachable(Seq<char>),
    Unreadable(Seq<char>),
    CacheRemoved,
    BackedUp,
    BackupFailed(Seq<char>),
    Saved,
    SaveFailed(Seq<char>),
    Cached,
    CacheFailed(Seq<char>),
}

impl View for SyncEvent {
    type V = SyncEventView;

    open spec fn view(&self) -> SyncEventView {
        match *self {
            SyncEvent::Loaded(history) => SyncEventView::Loaded(history_view(history@)),
            SyncEvent::LoadFailed(cause) => SyncEventView::LoadFailed(cause@),
            SyncEvent::Page { code, data } => SyncEventView::Page { code, data: data.deep_view() },
            SyncEvent::Unreachable(cause) => SyncEventView::Unreachable(cause@),
            SyncEvent::Unreadable(cause) => SyncEventView::Unreadable(cause@),
            SyncEvent::CacheRemoved => SyncEventView::CacheRemoved,
            SyncEvent::BackedUp => SyncEventView::BackedUp,
            SyncEvent::BackupFailed(cause) => SyncEventView::BackupFailed(cause@),
            SyncEvent::Saved => SyncEventView::Saved,
            SyncEvent::SaveFailed(cause) => SyncEventView::SaveFailed(cause@),
            SyncEvent::Cached => SyncEventView::Cached,
            SyncEvent::CacheFailed(cause) => SyncEventView::CacheFailed(cause@),
        }
    }
}

/// What a pass asks its driver to do.
#[derive(Debug)]
pub enum SyncAction {
    /// Read the stored history of the player.
    Load { player_id: String },
    /// Send the descriptor to the record service at `url`.
    Fetch { url: String, param: RequestParam },
    /// Remove the cached address of the player.
    RemoveCache { player_id: String },
    /// Copy the stored history of the player to a fresh backup.
    Backup { player_id: String },
    /// Replace the stored history of the player.
    Save { player_id: String, history: SavedGachaData },
    /// Replace the statistics cache.
    Cache { statistics: GachaStatistics },
    /// Deliver the statistics; the pass is over.
    Finish { player_id: String, statistics: GachaStatistics },
    /// Report the failure; the pass is over.
    Fail(SyncError),
}

/// The mathematical value of a [`SyncAction`].
pub enum SyncActionView {
    Load { player_id: Seq<char> },
    Fetch { url: Seq<char>, param: RequestParamView },
    RemoveCache { player_id: Seq<char> },
    Backup { player_id: Seq<char> },
    Save { player_id: Seq<char>, history: Map<i32, Seq<GachaDataView>> },
    Cache { statistics: Map<i32, GachaStatisticsDataView> },
    Finish { player_id: Seq<char>, statistics: Map<i32, GachaStatisticsDataView> },
    Fail(SyncErrorView),
}

impl View for SyncAction {
    type V = SyncActionView;

    open spec fn view(&self) -> SyncActionView {
        match *self {
            SyncAction::Load { player_id } => SyncActionView::Load { player_id: player_id@ },
            SyncAction::Fetch { url, param } => SyncActionView::Fetch { url: url@, param: param@ },
            SyncAction::RemoveCache { player_id } => SyncActionView::RemoveCache {
                player_id: player_id@,
            },
            SyncAction::Backup { player_id } => SyncActionView::Backup { player_id: player_id@ },
            SyncAction::Save { player_id, history } => SyncActionView::Save {
                player_id: player_id@,
                history: history_view(history@),
            },
            SyncAction::Cache { statistics } => SyncActionView::Cache {
                statistics: statistics_view(statistics@),
            },
            SyncAction::Finish { player_id, statistics } => SyncActionView::Finish {
                player_id: player_id@,
                statistics: statistics_view(statistics@),
            },
            SyncAction::Fail(error) => SyncActionView::Fail(error@),
        }
    }
}

/// A synchronisation pass for one player.
pub struct SyncPass {
    phase: SyncPhase,
    oversea: bool,
    param: RequestParam,
    history: SavedGachaData,
    statistics: GachaStatistics,
}

/// The mathematical value of a [`SyncPass`].
pub struct SyncPassView {
    pub phase: SyncPhase,
    pub oversea: bool,
    /// The descriptor; its pool is the one being fetched.
    pub param: RequestParamView,
    /// The history as merged so far.
    pub history: Map<i32, Seq<GachaDataView>>,
    /// The statistics of the saved history, once it is saved.
    pub statistics: Map<i32, GachaStatisticsDataView>,
}

impl View for SyncPass {
    type V = SyncPassView;

    closed spec fn view(&self) -> SyncPassView {
        SyncPassView {
            phase: self.phase,
            oversea: self.oversea,
            param: self.param@,
            history: history_view(self.history@),
            statistics: statistics_view(self.statistics@),
        }
    }
}

/// The pulls stored for a pool; none where the history has no entry for it.
pub open spec fn stored_pulls(history: Map<i32, Seq<GachaDataView>>, pool: i32) -> Seq<
    GachaDataView,
> {
    if history.contains_key(pool) {
        history[pool]
    } else {
        Seq::empty()
    }
}

/// A pass that has failed, and the report of the failure.
pub open spec fn failed(pass: SyncPassView, error: SyncErrorView) -> (SyncPassView, SyncActionView) {
    (SyncPassView { phase: SyncPhase::Failed, ..pass }, SyncActionView::Fail(error))
}

/// The first state of a pass and its first action: read the stored history.
pub open spec fn sync_start(oversea: bool, param: RequestParamView) -> (
    SyncPassView,
    SyncActionView,
) {
    (
        SyncPassView {
            phase: SyncPhase::Loading,
            oversea,
            param,
            history: Map::empty(),
            statistics: Map::empty(),
        },
        SyncActionView::Load { player_id: param.player_id },
    )
}

/// The request for the page of a pool.
pub open spec fn fetch_of(pass: SyncPassView, pool: i32) -> SyncActionView {
    SyncActionView::Fetch {
        url: record_api_of(pass.oversea),
        param: RequestParamView { card_pool_type: pool, ..pass.param },
    }
}

/// What an accepted page does to a pass: the page is merged into the history
/// of its pool, and the next pool is fetched or, after the last pool, the
/// stored history is backed up.
pub open spec fn after_page(pass: SyncPassView, data: Seq<GachaDataView>) -> (
    SyncPassView,
    SyncActionView,
) {
    let pool = pass.param.card_pool_type;
    let history = pass.history.insert(pool, merged(stored_pulls(pass.history, pool), data));
    if pool < LAST_POOL {
        let next = SyncPassView {
            param: RequestParamView { card_pool_type: (pool + 1) as i32, ..pass.param },
            history,
            ..pass
        };
        (next, fetch_of(next, (pool + 1) as i32))
    } else {
        (
            SyncPassView { phase: SyncPhase::BackingUp, history, ..pass },
            SyncActionView::Backup { player_id: pass.param.player_id },
        )
    }
}

/// The state of a pass after an event, and the action it asks for.
///
/// An event that the pass is not waiting for fails it.
pub open spec fn sync_step(pass: SyncPassView, event: SyncEventView) -> (
    SyncPassView,
    SyncActionView,
) {
    match (pass.phase, event) {
        (SyncPhase::Loading, SyncEventView::Loaded(history)) => {
            let next = SyncPassView {
                phase: SyncPhase::Fetching,
                param: RequestParamView { card_pool_type: FIRST_POOL, ..pass.param },
                history,
                ..pass
            };
            (next, fetch_of(next, FIRST_POOL))
        },
        (SyncPhase::Loading, SyncEventView::LoadFailed(cause)) => failed(
            pass,
            SyncErrorView::PersistenceFailure(cause),
        ),
        (SyncPhase::Fetching, SyncEventView::Page { code, data }) => if code != 0 {
            (
                SyncPassView { phase: SyncPhase::Invalidating, ..pass },
                SyncActionView::RemoveCache { player_id: pass.param.player_id },
            )
        } else {
            after_page(pass, data)
        },
        (SyncPhase::Fetching, SyncEventView::Unreachable(cause)) => failed(
            pass,
            SyncErrorView::NetworkFailure(cause),
        ),
        (SyncPhase::Fetching, SyncEventView::Unreadable(cause)) => failed(
            pass,
            SyncErrorView::MalformedResponse(cause),
        ),
        (SyncPhase::Invalidating, SyncEventView::CacheRemoved) => failed(
            pass,
            SyncErrorView::CredentialRejected,
        ),
        (SyncPhase::BackingUp, SyncEventView::BackedUp) => (
            SyncPassView { phase: SyncPhase::Saving, ..pass },
            SyncActionView::Save { player_id: pass.param.player_id, history: pass.history },
        ),
        (SyncPhase::BackingUp, SyncEventView::BackupFailed(cause)) => failed(
            pass,
            SyncErrorView::PersistenceFailure(cause),
        ),
        (SyncPhase::Saving, SyncEventView::Saved) => if countable(pass.history) {
            let statistics = statistics_of(pass.history);
            (
                SyncPassView { phase: SyncPhase::Caching, statistics, ..pass },
                SyncActionView::Cache { statistics },
            )
        } else {
            failed(pass, SyncErrorView::HistoryTooLong)
        },
        (SyncPhase::Saving, SyncEventView::SaveFailed(cause)) => failed(
            pass,
            SyncErrorView::PersistenceFailure(cause),
        ),
        (SyncPhase::Caching, SyncEventView::Cached) => (
            SyncPassView { phase: SyncPhase::Done, ..pass },
            SyncActionView::Finish {
                player_id: pass.param.player_id,
                statistics: pass.statistics,
            },
        ),
        (SyncPhase::Caching, SyncEventView::CacheFailed(cause)) => failed(
            pass,
            SyncErrorView::PersistenceFailure(cause),
        ),
        _ => failed(pass, SyncErrorView::OutOfTurn),
    }
}

/// The merged history is written only right after its backup was made: a
/// failed backup ends the pass, and the stored history stays as it was.
pub proof fn lemma_save_follows_backup(pass: SyncPassView, event: SyncEventView)
    ensures
        sync_step(pass, event).1 is Save ==> pass.phase == SyncPhase::BackingUp && event
            == SyncEventView::BackedUp,
        pass.phase == SyncPhase::BackingUp && event is BackupFailed ==> sync_step(pass, event)
            == failed(pass, SyncErrorView::PersistenceFailure(event->BackupFailed_0)),
{
}

/// A status other than zero has the cached address of the player removed
/// and then ends the pass as rejected; the history is left as it was.
pub proof fn lemma_rejection_ends_the_pass(pass: SyncPassView, code: i32, data: Seq<GachaDataView>)
    requires
        pass.phase == SyncPhase::Fetching,
        code != 0,
    ensures
        ({
            let (rejected, action) = sync_step(pass, SyncEventView::Page { code, data });
            let (ended, report) = sync_step(rejected, SyncEventView::CacheRemoved);
            &&& action == SyncActionView::RemoveCache { player_id: pass.param.player_id }
            &&& rejected.history == pass.history
            &&& report == SyncActionView::Fail(SyncErrorView::CredentialRejected)
            &&& ended.phase == SyncPhase::Failed
            &&& ended.history == pass.history
        }),
{
}

/// A pass that is over stays over: whatever is reported to it, it asks for
/// nothing but answers that the report came out of turn.
pub proof fn lemma_over_is_final(pass: SyncPassView, event: SyncEventView)
    requires
        pass.phase == SyncPhase::Done || pass.phase == SyncPhase::Failed,
    ensures
        sync_step(pass, event) == failed(pass, SyncErrorView::OutOfTurn),
{
}

/// Every failure ends the pass.
pub proof fn lemma_failure_ends_the_pass(pass: SyncPassView, event: SyncEventView)
    ensures
        sync_step(pass, event).1 is Fail <==> sync_step(pass, event).0.phase == SyncPhase::Failed,
{
}

/// The pools are fetched one by one in ascending order, each with the
/// descriptor of the pass, at the service of its region.
pub proof fn lemma_pools_in_order(pass: SyncPassView, data: Seq<GachaDataView>)
    requires
        pass.phase == SyncPhase::Fetching,
    ensures
        ({
            let (next, action) = sync_step(pass, SyncEventView::Page { code: 0, data });
            if pass.param.card_pool_type < LAST_POOL {
                &&& next.phase == SyncPhase::Fetching
                &&& next.param.card_pool_type == pass.param.card_pool_type + 1
                &&& action == fetch_of(pass, (pass.param.card_pool_type + 1) as i32)
            } else {
                &&& next.phase == SyncPhase::BackingUp
                &&& action is Backup
            }
        }),
{
}

/// Once the stored history is loaded, no step loses or reorders a stored
/// pull: every pool keeps its pulls as the leading part of what it holds
/// after the step.
pub proof fn lemma_step_keeps_history(pass: SyncPassView, event: SyncEventView, pool: i32)
    requires
        pass.phase != SyncPhase::Loading,
        pass.history.contains_key(pool),
    ensures
        ({
            let after = sync_step(pass, event).0.history;
            &&& after.contains_key(pool)
            &&& after[pool].len() >= pass.history[pool].len()
            &&& after[pool].take(pass.history[pool].len() as int) == pass.history[pool]
        }),
{
    let after = sync_step(pass, event).0.history;
    if pass.phase == SyncPhase::Fetching && event is Page && event->code == 0 && pool
        == pass.param.card_pool_type {
        crate::merge::lemma_merge_keeps_existing(pass.history[pool], event->data);
    } else {
        assert(after[pool] == pass.history[pool]);
        assert(after[pool].take(pass.history[pool].len() as int) =~= pass.history[pool]);
    }
}

/// Whether a history has an entry for the pool that holds exactly the
/// pulls given.
pub open spec fn holds(
    history: Map<i32, Seq<GachaDataView>>,
    pool: i32,
    pulls: Seq<GachaDataView>,
) -> bool {
    history.contains_key(pool) && history[pool] == pulls
}

/// The pass after the pages given were accepted one after the other.
pub open spec fn after_pages(pass: SyncPassView, pages: Seq<Seq<GachaDataView>>) -> SyncPassView
    decreases pages.len(),
{
    if pages.len() == 0 {
        pass
    } else {
        sync_step(
            after_pages(pass, pages.drop_last()),
            SyncEventView::Page { code: 0, data: pages.last() },
        ).0
    }
}

/// While fewer pages than pools have been accepted, the pass is fetching
/// the pool that comes next, and each pool fetched so far holds its stored
/// pulls merged with its page; every other pool is as it was.
pub proof fn lemma_pages_in_turn(pass: SyncPassView, pages: Seq<Seq<GachaDataView>>)
    requires
        pass.phase == SyncPhase::Fetching,
        pass.param.card_pool_type == FIRST_POOL,
        pages.len() <= LAST_POOL,
    ensures
        ({
            let reached = after_pages(pass, pages);
            &&& pages.len() < LAST_POOL ==> reached.phase == SyncPhase::Fetching
                && reached.param.card_pool_type == FIRST_POOL + pages.len()
            &&& pages.len() == LAST_POOL ==> reached.phase == SyncPhase::BackingUp
            &&& forall|pool: i32|
                FIRST_POOL <= pool < FIRST_POOL + pages.len() ==> holds(
                    reached.history,
                    pool,
                    merged(#[trigger] stored_pulls(pass.history, pool), pages[pool - FIRST_POOL]),
                )
            &&& forall|pool: i32|
                !(FIRST_POOL <= pool < FIRST_POOL + pages.len()) ==> #[trigger] stored_pulls(
                    reached.history,
                    pool,
                ) == stored_pulls(pass.history, pool) && (reached.history.contains_key(pool)
                    <==> pass.history.contains_key(pool))
        }),
    decreases pages.len(),
{
    if pages.len() > 0 {
        let earlier = pages.drop_last();
        lemma_pages_in_turn(pass, earlier);
        let before = after_pages(pass, earlier);
        let reached = after_pages(pass, pages);
        let turn = before.param.card_pool_type;
        assert(turn == FIRST_POOL + pages.len() - 1);
        assert(stored_pulls(before.history, turn) == stored_pulls(pass.history, turn));
        assert(reached.history == before.history.insert(
            turn,
            merged(stored_pulls(pass.history, turn), pages.last()),
        ));
        assert forall|pool: i32|
            FIRST_POOL <= pool < FIRST_POOL + pages.len() implies holds(
            reached.history,
            pool,
            merged(#[trigger] stored_pulls(pass.history, pool), pages[pool - FIRST_POOL]),
        ) by {
            if pool < turn {
                assert(holds(
                    before.history,
                    pool,
                    merged(stored_pulls(pass.history, pool), earlier[pool - FIRST_POOL]),
                ));
            }
        }
        assert forall|pool: i32|
            !(FIRST_POOL <= pool < FIRST_POOL + pages.len()) implies #[trigger] stored_pulls(
            reached.history,
            pool,
        ) == stored_pulls(pass.history, pool) && (reached.history.contains_key(pool)
            <==> pass.history.contains_key(pool)) by {
            assert(stored_pulls(before.history, pool) == stored_pulls(pass.history, pool));
        }
    }
}

impl SyncPass {
    /// Begins a pass for the player of the descriptor and asks for the
    /// stored history.
    pub fn start(oversea: bool, param: RequestParam) -> (begun: (SyncPass, SyncAction))
        ensures
            (begun.0@, begun.1@) == sync_start(oversea, param@),
    {
        let player_id = param.player_id.clone();
        let pass = SyncPass {
            phase: SyncPhase::Loading,
            oversea,
            param,
            history: BTreeMap::new(),
            statistics: BTreeMap::new(),
        };
        assert(history_view(pass.history@) =~= Map::empty());
        assert(statistics_view(pass.statistics@) =~= Map::empty());
        (pass, SyncAction::Load { player_id })
    }

    /// What the pass is waiting for.
    pub fn phase(&self) -> (phase: SyncPhase)
        ensures
            phase == self@.phase,
    {
        self.phase
    }

    /// Whether the pass is over.
    pub fn is_over(&self) -> (over: bool)
        ensures
            over == (self@.phase == SyncPhase::Done || self@.phase == SyncPhase::Failed),
    {
        self.phase == SyncPhase::Done || self.phase == SyncPhase::Failed
    }

    /// The pool being fetched, while the pass is fetching.
    pub fn pool(&self) -> (pool: i32)
        ensures
            pool == self@.param.card_pool_type,
    {
        self.param.card_pool_type
    }

    /// The history as merged so far.
    pub fn history(&self) -> (history: &SavedGachaData)
        ensures
            history_view(history@) == self@.history,
    {
        &self.history
    }

    fn fail(&mut self, error: SyncError) -> (action: SyncAction)
        ensures
            (final(self)@, action@) == failed(old(self)@, error@),
    {
        self.phase = SyncPhase::Failed;
        SyncAction::Fail(error)
    }

    fn fetch(&self) -> (action: SyncAction)
        ensures
            action@ == fetch_of(self@, self@.param.card_pool_type),
    {
        SyncAction::Fetch { url: record_api(self.oversea).to_owned(), param: self.param.clone() }
    }

    fn accept_page(&mut self, data: Vec<GachaData>) -> (action: SyncAction)
        ensures
            (final(self)@, action@) == after_page(old(self)@, data.deep_view()),
    {
        broadcast use vstd::std_specs::btree::group_btree_axioms;
        broadcast use vstd::laws_cmp::group_laws_cmp;

        let pool = self.param.card_pool_type;
        let pulls = match self.history.get(&pool) {
            Some(stored) => merge(stored, &data),
            None => {
                let stored: Vec<GachaData> = Vec::new();
                assert(stored.deep_view() =~= Seq::empty());
                merge(&stored, &data)
            },
        };
        let ghost before = self.history@;
        self.history.insert(pool, pulls);
        assert(history_view(self.history@) =~= history_view(before).insert(
            pool,
            pulls.deep_view(),
        ));
        if pool < LAST_POOL {
            self.param.card_pool_type = pool + 1;
            self.fetch()
        } else {
            self.phase = SyncPhase::BackingUp;
            SyncAction::Backup { player_id: self.param.player_id.clone() }
        }
    }

    /// Takes the outcome of the action asked for last and answers with the
    /// next action.
    pub fn step(&mut self, event: SyncEvent) -> (action: SyncAction)
        ensures
            (final(self)@, action@) == sync_step(old(self)@, event@),
    {
        match (self.phase, event) {
            (SyncPhase::Loading, SyncEvent::Loaded(history)) => {
                self.phase = SyncPhase::Fetching;
                self.param.card_pool_type = FIRST_POOL;
                self.history = history;
                self.fetch()
            },
            (SyncPhase::Loading, SyncEvent::LoadFailed(cause)) => self.fail(
                SyncError::PersistenceFailure(cause),
            ),
            (SyncPhase::Fetching, SyncEvent::Page { code, data }) => {
                if code != 0 {
                    self.phase = SyncPhase::Invalidating;
                    SyncAction::RemoveCache { player_id: self.param.player_id.clone() }
                } else {
                    self.accept_page(data)
                }
            },
            (SyncPhase::Fetching, SyncEvent::Unreachable(cause)) => self.fail(
                SyncError::NetworkFailure(cause),
            ),
            (SyncPhase::Fetching, SyncEvent::Unreadable(cause)) => self.fail(
                SyncError::MalformedResponse(cause),
            ),
            (SyncPhase::Invalidating, SyncEvent::CacheRemoved) => self.fail(
                SyncError::CredentialRejected,
            ),
            (SyncPhase::BackingUp, SyncEvent::BackedUp) => {
                self.phase = SyncPhase::Saving;
                SyncAction::Save {
                    player_id: self.param.player_id.clone(),
                    history: self.history.clone(),
                }
            },
            (SyncPhase::BackingUp, SyncEvent::BackupFailed(cause)) => self.fail(
                SyncError::PersistenceFailure(cause),
            ),
            (SyncPhase::Saving, SyncEvent::Saved) => {
                match checked_gacha_statistics(&self.history) {
                    Some(statistics) => {
                        self.statistics = statistics;
                        self.phase = SyncPhase::Caching;
                        SyncAction::Cache { statistics: self.statistics.clone() }
                    },
                    None => self.fail(SyncError::HistoryTooLong),
                }
            },
            (SyncPhase::Saving, SyncEvent::SaveFailed(cause)) => self.fail(
                SyncError::PersistenceFailure(cause),
            ),
            (SyncPhase::Caching, SyncEvent::Cached) => {
                self.phase = SyncPhase::Done;
                SyncAction::Finish {
                    player_id: self.param.player_id.clone(),
                    statistics: self.statistics.clone(),
                }
            },
            (SyncPhase::Caching, SyncEvent::CacheFailed(cause)) => self.fail(
                SyncError::PersistenceFailure(cause),
            ),
            _ => self.fail(SyncError::OutOfTurn),
        }
    }
}

} // verus!
