//! What the display and the background worker tell each other.
use vstd::prelude::*;
use crate::statistics::{statistics_view, GachaStatistics, GachaStatisticsDataView};
use crate::update::{Release, ReleaseView};

verus! {

/// A message on the channel between the display and the worker.
#[derive(Debug)]
pub enum MessageType {
    /// To the worker: look for a newer release.
    CheckUpdate,
    /// To the display: a newer release exists.
    NeedUpdate(Release),
    /// To the worker: download the release into the directory.
    DownloadFile(Release, String),
    /// To the display: a status text.
    Normal(String),
    /// To the display: a text that tells of something amiss.
    Warning(String),
    /// To the display: the statistics of the player.
    Gacha((String, GachaStatistics)),
    /// To the display: the players of whom a history is stored.
    Player(Vec<String>),
    /// To the worker: bring the statistics of the player, from the cache
    /// where the flag is set and there is one, else from the service.
    UpdateData(bool, String),
}

/// The mathematical value of a [`MessageType`].
pub enum MessageView {
    CheckUpdate,
    NeedUpdate(ReleaseView),
    DownloadFile(ReleaseView, Seq<char>),
    Normal(Seq<char>),
    Warning(Seq<char>),
    Gacha(Seq<char>, Map<i32, GachaStatisticsDataView>),
    Player(Seq<Seq<char>>),
    UpdateData(bool, Seq<char>),
}

impl View for MessageType {
    type V = MessageView;

    open spec fn view(&self) -> MessageView {
        match *self {
            MessageType::CheckUpdate => MessageView::CheckUpdate,
            MessageType::NeedUpdate(release) => MessageView::NeedUpdate(release@),
            MessageType::DownloadFile(release, directory) => MessageView::DownloadFile(
                release@,
                directory@,
            ),
            MessageType::Normal(text) => MessageView::Normal(text@),
            MessageType::Warning(text) => MessageView::Warning(text@),
            MessageType::Gacha(payload) => MessageView::Gacha(
                payload.0@,
                statistics_view(payload.1@),
            ),
            MessageType::Player(players) => MessageView::Player(players.deep_view()),
            MessageType::UpdateData(cache, player_id) => MessageView::UpdateData(
                cache,
                player_id@,
            ),
        }
    }
}

impl DeepView for MessageType {
    type V = MessageView;

    open spec fn deep_view(&self) -> MessageView {
        self@
    }
}

} // verus!
