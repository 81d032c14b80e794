//! What the display shows, and how the messages of the worker change it.
use vstd::prelude::*;
use crate::message::{MessageType, MessageView};
use crate::statistics::{statistics_view, GachaStatistics, GachaStatisticsDataView};
use crate::update::{Release, ReleaseView};

verus! {

/// The status line.
#[derive(Debug)]
pub struct Message {
    /// Whether the text tells of something that went well.
    pub success: bool,
    pub message: String,
}

/// The mathematical value of a [`Message`].
pub struct StatusView {
    pub success: bool,
    pub message: Seq<char>,
}

impl View for Message {
    type V = StatusView;

    open spec fn view(&self) -> StatusView {
        StatusView { success: self.success, message: self.message@ }
    }
}

impl Default for Message {
    fn default() -> (empty: Self)
        ensures
            empty@ == (StatusView { success: false, message: Seq::empty() }),
    {
        Message { success: false, message: String::new() }
    }
}

/// The page that the display is on.
#[derive(Debug, Clone, Copy, PartialEq, Eq, Structural)]
pub enum Page {
    Home,
    Update,
}

/// Everything the display shows.
#[derive(Debug)]
pub struct DisplayState {
    pub gacha_statistics: GachaStatistics,
    /// The players that can be chosen.
    pub player_id_vec: Vec<String>,
    /// The player chosen.
    pub player_id_selected: String,
    /// The player for whom statistics were last asked.
    pub player_id_last_selected: String,
    pub message: Message,
    /// The newer release, once one is known.
    pub update_info: Option<Release>,
    pub view: Page,
}

/// The mathematical value of a [`DisplayState`].
pub struct DisplayView {
    pub gacha_statistics: Map<i32, GachaStatisticsDataView>,
    pub player_id_vec: Seq<Seq<char>>,
    pub player_id_selected: Seq<char>,
    pub player_id_last_selected: Seq<char>,
    pub message: StatusView,
    pub update_info: Option<ReleaseView>,
    pub view: Page,
}

impl View for DisplayState {
    type V = DisplayView;

    open spec fn view(&self) -> DisplayView {
        DisplayView {
            gacha_statistics: statistics_view(self.gacha_statistics@),
            player_id_vec: self.player_id_vec.deep_view(),
            player_id_selected: self.player_id_selected@,
            player_id_last_selected: self.player_id_last_selected@,
            message: self.message@,
            update_info: match self.update_info {
                Some(release) => Some(release@),
                None => None,
            },
            view: self.view,
        }
    }
}

/// The last of the listed players who is not among the known ones.
pub open spec fn latest_newcomer(known: Seq<Seq<char>>, listed: Seq<Seq<char>>) -> Option<
    Seq<char>,
>
    decreases listed.len(),
{
    if listed.len() == 0 {
        None
    } else if !known.contains(listed.last()) {
        Some(listed.last())
    } else {
        latest_newcomer(known, listed.drop_last())
    }
}

/// `latest_newcomer` is the listed player of the highest position who is not
/// known; there is none exactly when every listed player is known.
pub proof fn lemma_latest_newcomer(known: Seq<Seq<char>>, listed: Seq<Seq<char>>)
    ensures
        match latest_newcomer(known, listed) {
            Some(player_id) => exists|at: int|
                {
                    &&& 0 <= at < listed.len()
                    &&& #[trigger] listed[at] == player_id
                    &&& !known.contains(player_id)
                    &&& forall|later: int|
                        at < later < listed.len() ==> known.contains(#[trigger] listed[later])
                },
            None => forall|at: int| 0 <= at < listed.len() ==> known.contains(#[trigger] listed[at]),
        },
    decreases listed.len(),
{
    if listed.len() > 0 {
        let last = listed.len() - 1;
        if !known.contains(listed.last()) {
            assert(listed[last] == listed.last());
        } else {
            let earlier = listed.drop_last();
            lemma_latest_newcomer(known, earlier);
            match latest_newcomer(known, earlier) {
                Some(player_id) => {
                    let at = choose|at: int|
                        {
                            &&& 0 <= at < earlier.len()
                            &&& #[trigger] earlier[at] == player_id
                            &&& !known.contains(player_id)
                            &&& forall|later: int|
                                at < later < earlier.len() ==> known.contains(
                                    #[trigger] earlier[later],
                                )
                        };
                    assert(listed[at] == player_id);
                    assert forall|later: int| at < later < listed.len() implies known.contains(
                        #[trigger] listed[later],
                    ) by {
                        if later < last {
                            assert(listed[later] == earlier[later]);
                        }
                    }
                },
                None => {
                    assert forall|at: int| 0 <= at < listed.len() implies known.contains(
                        #[trigger] listed[at],
                    ) by {
                        if at < last {
                            assert(listed[at] == earlier[at]);
                        }
                    }
                },
            }
        }
    }
}

/// The display after a message of the worker.
///
/// A status text replaces the status line; statistics come with their
/// player, who becomes the one chosen; a list of players replaces the
/// known one, and a player new in it becomes the one chosen. A message
/// that is meant for the worker changes nothing.
pub open spec fn received(display: DisplayView, message: MessageView) -> DisplayView {
    match message {
        MessageView::Normal(text) => DisplayView {
            message: StatusView { success: true, message: text },
            ..display
        },
        MessageView::Warning(text) => DisplayView {
            message: StatusView { success: false, message: text },
            ..display
        },
        MessageView::Gacha(player_id, statistics) => DisplayView {
            player_id_selected: player_id,
            player_id_last_selected: player_id,
            gacha_statistics: statistics,
            ..display
        },
        MessageView::Player(listed) => match latest_newcomer(display.player_id_vec, listed) {
            Some(player_id) => DisplayView {
                player_id_selected: player_id,
                player_id_last_selected: player_id,
                player_id_vec: listed,
                ..display
            },
            None => DisplayView { player_id_vec: listed, ..display },
        },
        MessageView::NeedUpdate(release) => DisplayView { update_info: Some(release), ..display },
        _ => display,
    }
}

/// Whether a player is among the known ones.
pub fn knows_player(known: &Vec<String>, player_id: &String) -> (found: bool)
    ensures
        found == known.deep_view().contains(player_id@),
{
    let mut i: usize = 0;
    while i < known.len()
        invariant
            i <= known.len(),
            forall|j: int| 0 <= j < i ==> known.deep_view()[j] != player_id@,
        decreases known.len() - i,
    {
        if known[i] == *player_id {
            assert(known.deep_view()[i as int] == player_id@);
            return true;
        }
        i += 1;
    }
    false
}

/// Finds the last of the listed players who is not among the known ones.
pub fn find_latest_newcomer(known: &Vec<String>, listed: &Vec<String>) -> (found: Option<String>)
    ensures
        match latest_newcomer(known.deep_view(), listed.deep_view()) {
            Some(player_id) => found matches Some(name) && name@ == player_id,
            None => found is None,
        },
{
    let mut i: usize = listed.len();
    assert(listed.deep_view().take(i as int) =~= listed.deep_view());
    while i > 0
        invariant
            i <= listed.len(),
            latest_newcomer(known.deep_view(), listed.deep_view()) == latest_newcomer(
                known.deep_view(),
                listed.deep_view().take(i as int),
            ),
        decreases i,
    {
        i -= 1;
        proof {
            let seen = listed.deep_view().take(i + 1);
            assert(seen.drop_last() =~= listed.deep_view().take(i as int));
            assert(seen.last() == listed[i as int]@);
        }
        if !knows_player(known, &listed[i]) {
            return Some(listed[i].clone());
        }
    }
    None
}

impl DisplayState {
    /// The display before anything was received.
    pub fn new(player_id_selected: String) -> (display: DisplayState)
        ensures
            display@ == (DisplayView {
                gacha_statistics: Map::empty(),
                player_id_vec: Seq::empty(),
                player_id_selected: player_id_selected@,
                player_id_last_selected: Seq::empty(),
                message: StatusView { success: false, message: Seq::empty() },
                update_info: None,
                view: Page::Home,
            }),
    {
        let display = DisplayState {
            gacha_statistics: std::collections::BTreeMap::new(),
            player_id_vec: Vec::new(),
            player_id_selected,
            player_id_last_selected: String::new(),
            message: Message::default(),
            update_info: None,
            view: Page::Home,
        };
        assert(display@.gacha_statistics =~= Map::empty());
        assert(display@.player_id_vec =~= Seq::empty());
        display
    }

    /// Takes a message of the worker.
    pub fn receive(&mut self, message: MessageType)
        ensures
            final(self)@ == received(old(self)@, message@),
    {
        match message {
            MessageType::Normal(text) => {
                self.message = Message { success: true, message: text };
            },
            MessageType::Warning(text) => {
                self.message = Message { success: false, message: text };
            },
            MessageType::Gacha(payload) => {
                let (player_id, statistics) = payload;
                self.player_id_selected = player_id.clone();
                self.player_id_last_selected = player_id;
                self.gacha_statistics = statistics;
            },
            MessageType::Player(listed) => {
                match find_latest_newcomer(&self.player_id_vec, &listed) {
                    Some(player_id) => {
                        self.player_id_selected = player_id.clone();
                        self.player_id_last_selected = player_id;
                    },
                    None => {},
                }
                self.player_id_vec = listed;
            },
            MessageType::NeedUpdate(release) => {
                self.update_info = Some(release);
            },
            _ => {},
        }
    }

    /// Notes that the player chosen has changed, if it has, and answers
    /// with the command that brings the statistics of the new choice.
    pub fn selection_changed(&mut self) -> (command: Option<MessageType>)
        ensures
            final(self)@ == (DisplayView {
                player_id_last_selected: old(self)@.player_id_selected,
                ..old(self)@
            }),
            match command {
                Some(sent) => {
                    &&& old(self)@.player_id_selected != old(self)@.player_id_last_selected
                    &&& sent@ == MessageView::UpdateData(true, old(self)@.player_id_selected)
                },
                None => old(self)@.player_id_selected == old(self)@.player_id_last_selected,
            },
    {
        if self.player_id_last_selected == self.player_id_selected {
            None
        } else {
            self.player_id_last_selected = self.player_id_selected.clone();
            Some(MessageType::UpdateData(true, self.player_id_selected.clone()))
        }
    }

    /// The command that brings fresh statistics of the player chosen from
    /// the service.
    pub fn refresh_command(&self) -> (command: MessageType)
        ensures
            command@ == MessageView::UpdateData(false, self@.player_id_selected),
    {
        MessageType::UpdateData(false, self.player_id_selected.clone())
    }

    /// The command that looks for a player not yet known.
    pub fn new_player_command() -> (command: MessageType)
        ensures
            command@ == MessageView::UpdateData(false, Seq::empty()),
    {
        MessageType::UpdateData(false, String::new())
    }
}

/// The name under which a pool is shown.
pub open spec fn pool_label_of(card_pool_type: i32) -> Seq<char> {
    if card_pool_type == 1 {
        "角色活动唤取"@
    } else if card_pool_type == 2 {
        "武器活动唤取"@
    } else if card_pool_type == 3 {
        "角色常驻唤取"@
    } else if card_pool_type == 4 {
        "武器常驻唤取"@
    } else if card_pool_type == 5 {
        "新手唤取"@
    } else if card_pool_type == 6 {
        "新手自选唤取"@
    } else if card_pool_type == 7 {
        "新手自选唤取（感恩定向唤取）"@
    } else {
        "新卡池"@
    }
}

/// The name under which a pool is shown.
pub fn pool_label(card_pool_type: i32) -> (label: &'static str)
    ensures
        label@ == pool_label_of(card_pool_type),
{
    match card_pool_type {
        1 => "角色活动唤取",
        2 => "武器活动唤取",
        3 => "角色常驻唤取",
        4 => "武器常驻唤取",
        5 => "新手唤取",
        6 => "新手自选唤取",
        7 => "新手自选唤取（感恩定向唤取）",
        _ => "新卡池",
    }
}

/// The pools are shown three to a row.
pub const POOLS_PER_ROW: usize = 3;

/// The number of rows that the given number of pools takes.
pub fn pool_rows(pools: usize) -> (rows: usize)
    ensures
        rows * POOLS_PER_ROW >= pools,
        pools > 0 ==> (rows - 1) * POOLS_PER_ROW < pools,
        pools == 0 ==> rows == 0,
{
    pools / POOLS_PER_ROW + if pools % POOLS_PER_ROW == 0 {
        0
    } else {
        1
    }
}

} // verus!
