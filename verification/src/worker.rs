//! The background worker, as a machine that is told what happened and
//! answers what to tell the display and what to do next.
//!
//! The worker waits for a command of the display, works on it one outside
//! task at a time, and goes back to waiting. It never works on two commands
//! at once.
use vstd::prelude::*;
use vstd::string::StringExecFns;
use crate::error::{message_of, SyncError, SyncErrorView};
use crate::message::{MessageType, MessageView};
use crate::statistics::{statistics_view, GachaStatistics, GachaStatisticsDataView};
use crate::update::{is_update, tag_of, Release, ReleaseView};

verus! {

/// What a worker is waiting for.
#[derive(Debug, Clone, Copy, PartialEq, Eq, Structural)]
pub enum WorkerPhase {
    /// The next command of the display.
    Idle,
    /// The list of players, before the cached statistics are tried.
    ListingPlayers,
    /// The cached statistics.
    ReadingCache,
    /// The end of a synchronisation pass.
    Synchronising,
    /// The list of players, after a pass.
    RefreshingPlayers,
    /// The latest release.
    CheckingUpdate,
    /// The end of a download.
    Downloading,
}

/// What happened outside the worker.
#[derive(Debug)]
pub enum WorkerEvent {
    /// The display sent a command.
    Command(MessageType),
    /// The players of whom a history is stored.
    Players(Vec<String>),
    /// The players could not be listed.
    PlayersUnknown,
    /// The statistics found in the cache.
    CachedStatistics(GachaStatistics),
    /// There are no cached statistics, or they cannot be read.
    NoCachedStatistics,
    /// A pass ended with the statistics of the player.
    Synchronised(String, GachaStatistics),
    /// A pass failed.
    SyncFailed(SyncError),
    /// The latest release, as the release service describes it.
    LatestRelease(Release),
    /// The release service gave no answer that can be read.
    NoRelease,
    Downloaded,
    DownloadFailed(String),
}

/// The mathematical value of a [`WorkerEvent`].
pub enum WorkerEventView {
    Command(MessageView),
    Players(Seq<Seq<char>>),
    PlayersUnknown,
    CachedStatistics(Map<i32, GachaStatisticsDataView>),
    NoCachedStatistics,
    Synchronised(Seq<char>, Map<i32, GachaStatisticsDataView>),
    SyncFailed(SyncErrorView),
    LatestRelease(ReleaseView),
    NoRelease,
    Downloaded,
    DownloadFailed(Seq<char>),
}

impl View for WorkerEvent {
    type V = WorkerEventView;

    open spec fn view(&self) -> WorkerEventView {
        match *self {
            WorkerEvent::Command(command) => WorkerEventView::Command(command@),
            WorkerEvent::Players(players) => WorkerEventView::Players(players.deep_view()),
            WorkerEvent::PlayersUnknown => WorkerEventView::PlayersUnknown,
            WorkerEvent::CachedStatistics(statistics) => WorkerEventView::CachedStatistics(
                statistics_view(statistics@),
            ),
            WorkerEvent::NoCachedStatistics => WorkerEventView::NoCachedStatistics,
            WorkerEvent::Synchronised(player_id, statistics) => WorkerEventView::Synchronised(
                player_id@,
                statistics_view(statistics@),
            ),
            WorkerEvent::SyncFailed(error) => WorkerEventView::SyncFailed(error@),
            WorkerEvent::LatestRelease(release) => WorkerEventView::LatestRelease(release@),
            WorkerEvent::NoRelease => WorkerEventView::NoRelease,
            WorkerEvent::Downloaded => WorkerEventView::Downloaded,
            WorkerEvent::DownloadFailed(cause) => WorkerEventView::DownloadFailed(cause@),
        }
    }
}

/// The outside work that a worker asks for.
#[derive(Debug)]
pub enum WorkerTask {
    /// Wait for the next command of the display.
    Await,
    /// List the players of whom a history is stored.
    ListPlayers,
    /// Read the cached statistics of the player.
    ReadStatisticsCache { player_id: String },
    /// Run a synchronisation pass for the player; for any player, where
    /// `player_id` is empty.
    Synchronise { player_id: String },
    /// Ask the release service for the latest release.
    FetchLatestRelease,
    /// Download the file at `url` into `directory` under `name`.
    Download { url: String, directory: String, name: String },
}

/// The mathematical value of a [`WorkerTask`].
pub enum WorkerTaskView {
    Await,
    ListPlayers,
    ReadStatisticsCache { player_id: Seq<char> },
    Synchronise { player_id: Seq<char> },
    FetchLatestRelease,
    Download { url: Seq<char>, directory: Seq<char>, name: Seq<char> },
}

impl View for WorkerTask {
    type V = WorkerTaskView;

    open spec fn view(&self) -> WorkerTaskView {
        match *self {
            WorkerTask::Await => WorkerTaskView::Await,
            WorkerTask::ListPlayers => WorkerTaskView::ListPlayers,
            WorkerTask::ReadStatisticsCache { player_id } => WorkerTaskView::ReadStatisticsCache {
                player_id: player_id@,
            },
            WorkerTask::Synchronise { player_id } => WorkerTaskView::Synchronise {
                player_id: player_id@,
            },
            WorkerTask::FetchLatestRelease => WorkerTaskView::FetchLatestRelease,
            WorkerTask::Download { url, directory, name } => WorkerTaskView::Download {
                url: url@,
                directory: directory@,
                name: name@,
            },
        }
    }
}

/// What a worker answers: the messages for the display, in the order they
/// are to be sent, and the outside work to do next.
#[derive(Debug)]
pub struct WorkerReply {
    pub notices: Vec<MessageType>,
    pub task: WorkerTask,
}

/// The mathematical value of a [`WorkerReply`].
pub struct WorkerReplyView {
    pub notices: Seq<MessageView>,
    pub task: WorkerTaskView,
}

impl View for WorkerReply {
    type V = WorkerReplyView;

    open spec fn view(&self) -> WorkerReplyView {
        WorkerReplyView { notices: self.notices.deep_view(), task: self.task@ }
    }
}

/// The background worker.
pub struct Worker {
    phase: WorkerPhase,
    version: String,
    player_id: String,
}

/// The mathematical value of a [`Worker`].
pub struct WorkerView {
    pub phase: WorkerPhase,
    /// The version of the running program.
    pub version: Seq<char>,
    /// The player of the command being worked on.
    pub player_id: Seq<char>,
}

impl View for Worker {
    type V = WorkerView;

    closed spec fn view(&self) -> WorkerView {
        WorkerView { phase: self.phase, version: self.version@, player_id: self.player_id@ }
    }
}

/// A worker that waits for the next command, and its answer.
pub open spec fn back_to_idle(worker: WorkerView, notices: Seq<MessageView>) -> (
    WorkerView,
    WorkerReplyView,
) {
    (
        WorkerView { phase: WorkerPhase::Idle, ..worker },
        WorkerReplyView { notices, task: WorkerTaskView::Await },
    )
}

/// A worker that starts a synchronisation pass for its player, and its
/// answer.
pub open spec fn to_the_service(worker: WorkerView, notices: Seq<MessageView>) -> (
    WorkerView,
    WorkerReplyView,
) {
    (
        WorkerView { phase: WorkerPhase::Synchronising, ..worker },
        WorkerReplyView {
            notices,
            task: WorkerTaskView::Synchronise { player_id: worker.player_id },
        },
    )
}

/// What a waiting worker does with a command.
pub open spec fn on_command(worker: WorkerView, command: MessageView) -> (
    WorkerView,
    WorkerReplyView,
) {
    match command {
        MessageView::CheckUpdate => (
            WorkerView { phase: WorkerPhase::CheckingUpdate, ..worker },
            WorkerReplyView { notices: seq![], task: WorkerTaskView::FetchLatestRelease },
        ),
        MessageView::DownloadFile(release, directory) => if release.assets.len() > 0 {
            (
                WorkerView { phase: WorkerPhase::Downloading, ..worker },
                WorkerReplyView {
                    notices: seq![MessageView::Normal("正在连接服务器..."@)],
                    task: WorkerTaskView::Download {
                        url: release.assets[0].browser_download_url,
                        directory,
                        name: release.assets[0].name,
                    },
                },
            )
        } else {
            back_to_idle(
                worker,
                seq![
                    MessageView::Normal("正在连接服务器..."@),
                    MessageView::Warning("下载失败："@ + "获取更新包失败，请重试"@),
                ],
            )
        },
        MessageView::UpdateData(cache, player_id) => {
            let busy = WorkerView { player_id, ..worker };
            let notices = seq![MessageView::Normal("加载中..."@)];
            if cache {
                (
                    WorkerView { phase: WorkerPhase::ListingPlayers, ..busy },
                    WorkerReplyView { notices, task: WorkerTaskView::ListPlayers },
                )
            } else {
                to_the_service(busy, notices)
            }
        },
        _ => back_to_idle(worker, seq![]),
    }
}

/// What a worker does once the players are listed for a command that may be
/// served from the cache: it picks the first player where none was named,
/// and tries the cache; without any player it turns to the service.
pub open spec fn on_players(worker: WorkerView, players: Option<Seq<Seq<char>>>) -> (
    WorkerView,
    WorkerReplyView,
) {
    match players {
        Some(players) if players.len() > 0 => {
            let unnamed = worker.player_id.len() == 0;
            let player_id = if unnamed {
                players[0]
            } else {
                worker.player_id
            };
            (
                WorkerView { phase: WorkerPhase::ReadingCache, player_id, ..worker },
                WorkerReplyView {
                    notices: if unnamed {
                        seq![MessageView::Player(players)]
                    } else {
                        seq![]
                    },
                    task: WorkerTaskView::ReadStatisticsCache { player_id },
                },
            )
        },
        _ => to_the_service(worker, seq![MessageView::Warning("首次使用，正在尝试从服务器获取"@)]),
    }
}

/// The state of a worker after an event, and its answer.
///
/// An event that the worker is not waiting for sends it back to waiting for
/// a command, with nothing said to the display.
pub open spec fn worker_step(worker: WorkerView, event: WorkerEventView) -> (
    WorkerView,
    WorkerReplyView,
) {
    match (worker.phase, event) {
        (WorkerPhase::Idle, WorkerEventView::Command(command)) => on_command(worker, command),
        (WorkerPhase::ListingPlayers, WorkerEventView::Players(players)) => on_players(
            worker,
            Some(players),
        ),
        (WorkerPhase::ListingPlayers, WorkerEventView::PlayersUnknown) => on_players(worker, None),
        (WorkerPhase::ReadingCache, WorkerEventView::CachedStatistics(statistics)) => back_to_idle(
            worker,
            seq![
                MessageView::Gacha(worker.player_id, statistics),
                MessageView::Normal("当前展示的是该用户最后一次获取的数据"@),
            ],
        ),
        (WorkerPhase::ReadingCache, WorkerEventView::NoCachedStatistics) => to_the_service(
            worker,
            seq![
                MessageView::Warning("无缓存，正在尝试从服务器获取"@),
                MessageView::Warning("首次使用，正在尝试从服务器获取"@),
            ],
        ),
        (WorkerPhase::Synchronising, WorkerEventView::Synchronised(player_id, statistics)) => (
            WorkerView { phase: WorkerPhase::RefreshingPlayers, ..worker },
            WorkerReplyView {
                notices: seq![
                    MessageView::Gacha(player_id, statistics),
                    MessageView::Normal("获取完毕"@),
                ],
                task: WorkerTaskView::ListPlayers,
            },
        ),
        (WorkerPhase::Synchronising, WorkerEventView::SyncFailed(error)) => back_to_idle(
            worker,
            seq![MessageView::Warning("抽卡数据统计失败，失败原因："@ + message_of(error))],
        ),
        (WorkerPhase::RefreshingPlayers, WorkerEventView::Players(players)) => back_to_idle(
            worker,
            seq![MessageView::Player(players)],
        ),
        (WorkerPhase::CheckingUpdate, WorkerEventView::LatestRelease(release)) => back_to_idle(
            worker,
            if release.tag_name != tag_of(worker.version) {
                seq![MessageView::NeedUpdate(release)]
            } else {
                seq![]
            },
        ),
        (WorkerPhase::Downloading, WorkerEventView::Downloaded) => back_to_idle(
            worker,
            seq![MessageView::Normal("下载完毕 100%"@)],
        ),
        (WorkerPhase::Downloading, WorkerEventView::DownloadFailed(cause)) => back_to_idle(
            worker,
            seq![MessageView::Warning("下载失败："@ + cause)],
        ),
        _ => back_to_idle(worker, seq![]),
    }
}

/// The worker asks for nothing more exactly when it goes back to waiting
/// for a command.
pub proof fn lemma_idle_awaits(worker: WorkerView, event: WorkerEventView)
    ensures
        worker_step(worker, event).1.task is Await <==> worker_step(worker, event).0.phase
            == WorkerPhase::Idle,
{
}

/// One pass at a time: a worker that waits for the end of a pass starts no
/// other, and a pass is started only for the player of the command being
/// worked on.
pub proof fn lemma_one_pass_at_a_time(worker: WorkerView, event: WorkerEventView)
    ensures
        worker.phase == WorkerPhase::Synchronising ==> !(worker_step(worker, event).1.task
            is Synchronise),
        worker_step(worker, event).1.task is Synchronise ==> {
            &&& worker_step(worker, event).0.phase == WorkerPhase::Synchronising
            &&& worker_step(worker, event).1.task->Synchronise_player_id == worker_step(
                worker,
                event,
            ).0.player_id
        },
{
}

/// A command is taken up only by a waiting worker; whatever else reaches a
/// waiting worker is passed over in silence.
pub proof fn lemma_idle_takes_commands_only(worker: WorkerView, event: WorkerEventView)
    requires
        worker.phase == WorkerPhase::Idle,
        !(event is Command),
    ensures
        worker_step(worker, event) == back_to_idle(worker, seq![]),
{
}

impl Worker {
    /// A worker of the program of the given version, waiting for its first
    /// command.
    pub fn new(version: String) -> (worker: Worker)
        ensures
            worker@ == (WorkerView {
                phase: WorkerPhase::Idle,
                version: version@,
                player_id: Seq::empty(),
            }),
    {
        Worker { phase: WorkerPhase::Idle, version, player_id: String::new() }
    }

    /// What the worker is waiting for.
    pub fn phase(&self) -> (phase: WorkerPhase)
        ensures
            phase == self@.phase,
    {
        self.phase
    }

    fn idle(&mut self, notices: Vec<MessageType>) -> (reply: WorkerReply)
        ensures
            (final(self)@, reply@) == back_to_idle(old(self)@, notices.deep_view()),
    {
        self.phase = WorkerPhase::Idle;
        WorkerReply { notices, task: WorkerTask::Await }
    }

    fn synchronise(&mut self, notices: Vec<MessageType>) -> (reply: WorkerReply)
        ensures
            (final(self)@, reply@) == to_the_service(old(self)@, notices.deep_view()),
    {
        self.phase = WorkerPhase::Synchronising;
        WorkerReply { notices, task: WorkerTask::Synchronise { player_id: self.player_id.clone() } }
    }

    fn command(&mut self, command: MessageType) -> (reply: WorkerReply)
        ensures
            (final(self)@, reply@) == on_command(old(self)@, command@),
    {
        match command {
            MessageType::CheckUpdate => {
                self.phase = WorkerPhase::CheckingUpdate;
                let notices: Vec<MessageType> = Vec::new();
                assert(notices.deep_view() =~= seq![]);
                WorkerReply { notices, task: WorkerTask::FetchLatestRelease }
            },
            MessageType::DownloadFile(release, directory) => {
                let connecting = MessageType::Normal("正在连接服务器...".to_owned());
                if release.assets.len() > 0 {
                    self.phase = WorkerPhase::Downloading;
                    let notices = vec![connecting];
                    assert(notices.deep_view() =~= seq![connecting@]);
                    WorkerReply {
                        notices,
                        task: WorkerTask::Download {
                            url: release.assets[0].browser_download_url.clone(),
                            directory,
                            name: release.assets[0].name.clone(),
                        },
                    }
                } else {
                    let failed = MessageType::Warning(
                        "下载失败：".to_owned().concat("获取更新包失败，请重试"),
                    );
                    let notices = vec![connecting, failed];
                    assert(notices.deep_view() =~= seq![connecting@, failed@]);
                    self.idle(notices)
                }
            },
            MessageType::UpdateData(cache, player_id) => {
                self.player_id = player_id;
                let loading = MessageType::Normal("加载中...".to_owned());
                let notices = vec![loading];
                assert(notices.deep_view() =~= seq![loading@]);
                if cache {
                    self.phase = WorkerPhase::ListingPlayers;
                    WorkerReply { notices, task: WorkerTask::ListPlayers }
                } else {
                    self.synchronise(notices)
                }
            },
            _ => {
                let notices: Vec<MessageType> = Vec::new();
                assert(notices.deep_view() =~= seq![]);
                self.idle(notices)
            },
        }
    }

    fn players(&mut self, players: Option<Vec<String>>) -> (reply: WorkerReply)
        ensures
            (final(self)@, reply@) == on_players(
                old(self)@,
                match players {
                    Some(players) => Some(players.deep_view()),
                    None => None,
                },
            ),
    {
        match players {
            Some(players) if players.len() > 0 => {
                let mut notices: Vec<MessageType> = Vec::new();
                if self.player_id.as_str().is_empty() {
                    self.player_id = players[0].clone();
                    let listed = MessageType::Player(players);
                    notices.push(listed);
                    assert(notices.deep_view() =~= seq![listed@]);
                } else {
                    assert(notices.deep_view() =~= seq![]);
                }
                self.phase = WorkerPhase::ReadingCache;
                WorkerReply {
                    notices,
                    task: WorkerTask::ReadStatisticsCache { player_id: self.player_id.clone() },
                }
            },
            _ => {
                let first_use = MessageType::Warning("首次使用，正在尝试从服务器获取".to_owned());
                let notices = vec![first_use];
                assert(notices.deep_view() =~= seq![first_use@]);
                self.synchronise(notices)
            },
        }
    }

    /// Takes what happened and answers with the messages for the display
    /// and the next outside task.
    pub fn step(&mut self, event: WorkerEvent) -> (reply: WorkerReply)
        ensures
            (final(self)@, reply@) == worker_step(old(self)@, event@),
    {
        match (self.phase, event) {
            (WorkerPhase::Idle, WorkerEvent::Command(command)) => self.command(command),
            (WorkerPhase::ListingPlayers, WorkerEvent::Players(players)) => self.players(
                Some(players),
            ),
            (WorkerPhase::ListingPlayers, WorkerEvent::PlayersUnknown) => self.players(None),
            (WorkerPhase::ReadingCache, WorkerEvent::CachedStatistics(statistics)) => {
                let shown = MessageType::Gacha((self.player_id.clone(), statistics));
                let note = MessageType::Normal("当前展示的是该用户最后一次获取的数据".to_owned());
                let notices = vec![shown, note];
                assert(notices.deep_view() =~= seq![shown@, note@]);
                self.idle(notices)
            },
            (WorkerPhase::ReadingCache, WorkerEvent::NoCachedStatistics) => {
                let no_cache = MessageType::Warning("无缓存，正在尝试从服务器获取".to_owned());
                let first_use = MessageType::Warning("首次使用，正在尝试从服务器获取".to_owned());
                let notices = vec![no_cache, first_use];
                assert(notices.deep_view() =~= seq![no_cache@, first_use@]);
                self.synchronise(notices)
            },
            (WorkerPhase::Synchronising, WorkerEvent::Synchronised(player_id, statistics)) => {
                let shown = MessageType::Gacha((player_id, statistics));
                let note = MessageType::Normal("获取完毕".to_owned());
                let notices = vec![shown, note];
                assert(notices.deep_view() =~= seq![shown@, note@]);
                self.phase = WorkerPhase::RefreshingPlayers;
                WorkerReply { notices, task: WorkerTask::ListPlayers }
            },
            (WorkerPhase::Synchronising, WorkerEvent::SyncFailed(error)) => {
                let cause = error.message();
                let failed = MessageType::Warning(
                    "抽卡数据统计失败，失败原因：".to_owned().concat(cause.as_str()),
                );
                let notices = vec![failed];
                assert(notices.deep_view() =~= seq![failed@]);
                self.idle(notices)
            },
            (WorkerPhase::RefreshingPlayers, WorkerEvent::Players(players)) => {
                let listed = MessageType::Player(players);
                let notices = vec![listed];
                assert(notices.deep_view() =~= seq![listed@]);
                self.idle(notices)
            },
            (WorkerPhase::CheckingUpdate, WorkerEvent::LatestRelease(release)) => {
                let mut notices: Vec<MessageType> = Vec::new();
                if is_update(&release, self.version.as_str()) {
                    let found = MessageType::NeedUpdate(release);
                    notices.push(found);
                    assert(notices.deep_view() =~= seq![found@]);
                } else {
                    assert(notices.deep_view() =~= seq![]);
                }
                self.idle(notices)
            },
            (WorkerPhase::Downloading, WorkerEvent::Downloaded) => {
                let done = MessageType::Normal("下载完毕 100%".to_owned());
                let notices = vec![done];
                assert(notices.deep_view() =~= seq![done@]);
                self.idle(notices)
            },
            (WorkerPhase::Downloading, WorkerEvent::DownloadFailed(cause)) => {
                let failed = MessageType::Warning("下载失败：".to_owned().concat(cause.as_str()));
                let notices = vec![failed];
                assert(notices.deep_view() =~= seq![failed@]);
                self.idle(notices)
            },
            _ => {
                let notices: Vec<MessageType> = Vec::new();
                assert(notices.deep_view() =~= seq![]);
                self.idle(notices)
            },
        }
    }
}

} // verus!
