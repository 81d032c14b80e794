//! One pull as the record service reports it.
use std::collections::BTreeMap;
use vstd::prelude::*;
use vstd::std_specs::cmp::PartialEqSpecImpl;

verus! {

/// A single reward event.
///
/// Two values describe the same pull exactly when all seven fields agree.
#[derive(Debug)]
pub struct GachaData {
    /// Display label of the pool the pull was made on.
    pub card_pool_type: String,
    pub resource_id: i32,
    /// Rarity of the reward; 5 is the top tier.
    pub quality_level: i32,
    /// Kind of the reward (weapon or character), free text.
    pub resource_type: String,
    pub name: String,
    pub count: i32,
    /// Server-local time, `YYYY-MM-DD HH:MM:SS`.
    pub time: String,
}

/// The mathematical value of a [`GachaData`].
pub struct GachaDataView {
    pub card_pool_type: Seq<char>,
    pub resource_id: i32,
    pub quality_level: i32,
    pub resource_type: Seq<char>,
    pub name: Seq<char>,
    pub count: i32,
    pub time: Seq<char>,
}

impl View for GachaData {
    type V = GachaDataView;

    open spec fn view(&self) -> GachaDataView {
        GachaDataView {
            card_pool_type: self.card_pool_type@,
            resource_id: self.resource_id,
            quality_level: self.quality_level,
            resource_type: self.resource_type@,
            name: self.name@,
            count: self.count,
            time: self.time@,
        }
    }
}

impl DeepView for GachaData {
    type V = GachaDataView;

    open spec fn deep_view(&self) -> GachaDataView {
        self@
    }
}

impl Clone for GachaData {
    fn clone(&self) -> (copy: Self)
        ensures
            copy == *self,
    {
        GachaData {
            card_pool_type: self.card_pool_type.clone(),
            resource_id: self.resource_id,
            quality_level: self.quality_level,
            resource_type: self.resource_type.clone(),
            name: self.name.clone(),
            count: self.count,
            time: self.time.clone(),
        }
    }
}

impl PartialEq for GachaData {
    fn eq(&self, other: &Self) -> (same: bool) {
        self.card_pool_type == other.card_pool_type
            && self.resource_id == other.resource_id
            && self.quality_level == other.quality_level
            && self.resource_type == other.resource_type
            && self.name == other.name
            && self.count == other.count
            && self.time == other.time
    }
}

impl PartialEqSpecImpl for GachaData {
    open spec fn obeys_eq_spec() -> bool {
        true
    }

    open spec fn eq_spec(&self, other: &Self) -> bool {
        self@ == other@
    }
}

impl Default for GachaData {
    fn default() -> (empty: Self)
        ensures
            empty@ == (GachaDataView {
                card_pool_type: Seq::empty(),
                resource_id: 0,
                quality_level: 0,
                resource_type: Seq::empty(),
                name: Seq::empty(),
                count: 0,
                time: Seq::empty(),
            }),
    {
        GachaData {
            card_pool_type: String::new(),
            resource_id: 0,
            quality_level: 0,
            resource_type: String::new(),
            name: String::new(),
            count: 0,
            time: String::new(),
        }
    }
}

/// The stored history of one player: for each pool, by its number, the pulls
/// made on it, oldest first.
pub type SavedGachaData = BTreeMap<i32, Vec<GachaData>>;

/// The mathematical value of a stored history.
pub open spec fn history_view(history: Map<i32, Vec<GachaData>>) -> Map<i32, Seq<GachaDataView>> {
    history.map_values(|pulls: Vec<GachaData>| pulls.deep_view())
}

/// Whether `record` occurs in `history`, compared field by field.
pub fn contains_record(history: &Vec<GachaData>, record: &GachaData) -> (found: bool)
    ensures
        found == history.deep_view().contains(record@),
{
    let mut i: usize = 0;
    while i < history.len()
        invariant
            i <= history.len(),
            forall|j: int| 0 <= j < i ==> history.deep_view()[j] != record@,
        decreases history.len() - i,
    {
        if history[i] == *record {
            assert(history.deep_view()[i as int] == record@);
            return true;
        }
        i += 1;
    }
    false
}

} // verus!
