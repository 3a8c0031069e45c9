use crate::buff::{BuffSlot, BuffState, updated};
use vstd::prelude::*;

verus! {

/// Identity of a tracked player.
#[derive(Debug, Clone)]
pub struct Player {
    /// Agent id, the roster key.
    pub id: usize,
    /// Character name.
    pub character: String,
    /// Account name, used to match out-of-band squad updates.
    pub account: String,
    /// Profession, where zero means none.
    pub profession: u32,
    /// Elite specialization.
    pub elite: u32,
    /// Squad subgroup.
    pub subgroup: usize,
    /// Whether this is the local player.
    pub is_self: bool,
}

/// Two player identities are equal when all their fields are.
pub open spec fn same_player(a: Player, b: Player) -> bool {
    a.id == b.id && a.character@ == b.character@ && a.account@ == b.account@ && a.profession
        == b.profession && a.elite == b.elite && a.subgroup == b.subgroup && a.is_self == b.is_self
}

impl PartialEq for Player {
    fn eq(&self, other: &Player) -> (r: bool) {
        self.id == other.id && self.character == other.character && self.account == other.account
            && self.profession == other.profession && self.elite == other.elite && self.subgroup
            == other.subgroup && self.is_self == other.is_self
    }
}

impl vstd::std_specs::cmp::PartialEqSpecImpl for Player {
    open spec fn obeys_eq_spec() -> bool {
        true
    }

    open spec fn eq_spec(&self, other: &Player) -> bool {
        same_player(*self, *other)
    }
}

/// A tracked player with its food and utility buff slots.
#[derive(Debug, Clone)]
pub struct Entry {
    /// Player this entry corresponds to.
    pub player: Player,
    /// Current food buff applied to the player.
    pub food: BuffSlot,
    /// Current utility buff applied to the player.
    pub util: BuffSlot,
}

/// Whether a removal of `removed` (`None` for a buff without definition) may
/// clear a slot in the given state.
pub open spec fn removal_matches(removed: Option<u32>, state: BuffState) -> bool {
    match (removed, state) {
        (_, BuffState::Unset) => true,
        (None, BuffState::Unknown(_)) => true,
        (Some(r), BuffState::Known(a)) => r == a,
        _ => false,
    }
}

/// The slot after a removal attempt.
pub open spec fn removed(slot: BuffSlot, id: Option<u32>, time: u64, event_id: u64) -> BuffSlot {
    if removal_matches(id, slot.state) {
        updated(slot, BuffState::Absent, time, event_id)
    } else {
        slot
    }
}

/// The slot after turning an unset state into absence.
pub open spec fn unset_cleared(slot: BuffSlot, time: u64, event_id: u64) -> BuffSlot {
    if slot.state is Unset {
        updated(slot, BuffState::Absent, time, event_id)
    } else {
        slot
    }
}

fn remove_from(slot: &mut BuffSlot, id: Option<u32>, time: u64, event_id: u64) -> (r: bool)
    ensures
        *final(slot) == removed(*old(slot), id, time, event_id),
        r == (removal_matches(id, old(slot).state) && crate::buff::accepts(
            *old(slot),
            time,
            event_id,
        )),
{
    let matches = match (id, slot.state) {
        (_, BuffState::Unset) => true,
        (None, BuffState::Unknown(_)) => true,
        (Some(r), BuffState::Known(a)) => r == a,
        _ => false,
    };
    if matches {
        slot.update(BuffState::Absent, time, event_id)
    } else {
        false
    }
}

impl Entry {
    pub open spec fn wf(&self) -> bool {
        self.food.wf() && self.util.wf()
    }

    /// A new entry for the player, with both buffs unset.
    pub open spec fn fresh(player: Player) -> Entry {
        Entry { player, food: BuffSlot::unset_spec(), util: BuffSlot::unset_spec() }
    }

    /// The entry after turning its unset buffs into absence.
    pub open spec fn cleared(self, time: u64, event_id: u64) -> Entry {
        Entry {
            player: self.player,
            food: unset_cleared(self.food, time, event_id),
            util: unset_cleared(self.util, time, event_id),
        }
    }

    /// Creates a new entry with both buffs unset.
    pub fn new(player: Player) -> (r: Self)
        ensures
            r == Entry::fresh(player),
            r.wf(),
    {
        Entry { player, food: BuffSlot::unset(), util: BuffSlot::unset() }
    }

    /// Sets all unset buffs to none.
    pub fn unset_to_none(&mut self, time: u64, event_id: u64)
        ensures
            *final(self) == old(self).cleared(time, event_id),
    {
        if self.food.state == BuffState::Unset {
            self.food.update(BuffState::Absent, time, event_id);
        }
        if self.util.state == BuffState::Unset {
            self.util.update(BuffState::Absent, time, event_id);
        }
    }

    /// Applies a known food buff to the player.
    ///
    /// Returns `true` if this update changed the buff state.
    pub fn apply_food(&mut self, food: u32, time: u64, event_id: u64) -> (r: bool)
        ensures
            r == crate::buff::accepts(old(self).food, time, event_id),
            final(self).food == updated(old(self).food, BuffState::Known(food), time, event_id),
            final(self).util == old(self).util,
            final(self).player == old(self).player,
    {
        self.food.update(BuffState::Known(food), time, event_id)
    }

    /// Applies an unknown food buff to the player.
    ///
    /// Returns `false` if this update was ignored.
    pub fn apply_unknown_food(&mut self, id: u32, time: u64, event_id: u64) -> (r: bool)
        ensures
            r == crate::buff::accepts(old(self).food, time, event_id),
            final(self).food == updated(old(self).food, BuffState::Unknown(id), time, event_id),
            final(self).util == old(self).util,
            final(self).player == old(self).player,
    {
        self.food.update(BuffState::Unknown(id), time, event_id)
    }

    /// Removes the current food buff from the player.
    ///
    /// Has no effect if the current buff is different from the passed one;
    /// `None` stands for a buff without definition. An unset buff is always
    /// removed. Returns `false` if this update was ignored.
    pub fn remove_food(&mut self, food: Option<u32>, time: u64, event_id: u64) -> (r: bool)
        ensures
            r == (removal_matches(food, old(self).food.state) && crate::buff::accepts(
                old(self).food,
                time,
                event_id,
            )),
            final(self).food == removed(old(self).food, food, time, event_id),
            final(self).util == old(self).util,
            final(self).player == old(self).player,
    {
        remove_from(&mut self.food, food, time, event_id)
    }

    /// Applies a known utility buff to the player.
    ///
    /// Returns `false` if this update was ignored.
    pub fn apply_util(&mut self, util: u32, time: u64, event_id: u64) -> (r: bool)
        ensures
            r == crate::buff::accepts(old(self).util, time, event_id),
            final(self).util == updated(old(self).util, BuffState::Known(util), time, event_id),
            final(self).food == old(self).food,
            final(self).player == old(self).player,
    {
        self.util.update(BuffState::Known(util), time, event_id)
    }

    /// Applies an unknown utility buff to the player.
    ///
    /// Returns `false` if this update was ignored.
    pub fn apply_unknown_util(&mut self, id: u32, time: u64, event_id: u64) -> (r: bool)
        ensures
            r == crate::buff::accepts(old(self).util, time, event_id),
            final(self).util == updated(old(self).util, BuffState::Unknown(id), time, event_id),
            final(self).food == old(self).food,
            final(self).player == old(self).player,
    {
        self.util.update(BuffState::Unknown(id), time, event_id)
    }

    /// Removes the current utility buff from the player.
    ///
    /// Has no effect if the current buff is different from the passed one;
    /// `None` stands for a buff without definition. An unset buff is always
    /// removed. Returns `false` if this update was ignored.
    pub fn remove_util(&mut self, util: Option<u32>, time: u64, event_id: u64) -> (r: bool)
        ensures
            r == (removal_matches(util, old(self).util.state) && crate::buff::accepts(
                old(self).util,
                time,
                event_id,
            )),
            final(self).util == removed(old(self).util, util, time, event_id),
            final(self).food == old(self).food,
            final(self).player == old(self).player,
    {
        remove_from(&mut self.util, util, time, event_id)
    }
}

impl From<Player> for Entry {
    fn from(player: Player) -> (r: Entry) {
        Entry::new(player)
    }
}

impl vstd::std_specs::convert::FromSpecImpl<Player> for Entry {
    open spec fn obeys_from_spec() -> bool {
        true
    }

    open spec fn from_spec(player: Player) -> Entry {
        Entry::fresh(player)
    }
}

impl PartialEq for Entry {
    fn eq(&self, other: &Entry) -> (r: bool) {
        self.player == other.player
    }
}

impl vstd::std_specs::cmp::PartialEqSpecImpl for Entry {
    open spec fn obeys_eq_spec() -> bool {
        true
    }

    open spec fn eq_spec(&self, other: &Entry) -> bool {
        same_player(self.player, other.player)
    }
}

/// A new entry has both slots unset, so neither reports a buff or its absence.
pub proof fn lemma_new_entry_unset(player: Player)
    ensures
        ({
            let e = Entry::fresh(player);
            e.food.state is Unset && e.util.state is Unset && !(e.util.state is Unknown
                || e.util.state is Absent || e.util.state is Known) && e.wf()
        }),
{
}

/// Clearing unset buffs turns every unset slot into absence and leaves every
/// slot that holds a buff as it was.
pub proof fn lemma_cleared_entry(e: Entry, time: u64, event_id: u64)
    requires
        e.wf(),
        time > 0 || event_id > 0,
    ensures
        e.food.state is Unset ==> e.cleared(time, event_id).food.state is Absent,
        e.util.state is Unset ==> e.cleared(time, event_id).util.state is Absent,
        !(e.food.state is Unset) ==> e.cleared(time, event_id).food == e.food,
        !(e.util.state is Unset) ==> e.cleared(time, event_id).util == e.util,
        e.cleared(time, event_id).player == e.player,
        e.cleared(time, event_id).wf(),
{
}

/// A known buff only clears on a removal of that same buff; an unset one clears
/// on any removal that is newer than the slot's markers, and becomes absent.
pub proof fn lemma_removal_identity(slot: BuffSlot, id: Option<u32>, time: u64, event_id: u64)
    requires
        slot.wf(),
    ensures
        slot.state matches BuffState::Known(a) && (id != Some(a)) ==> removed(
            slot,
            id,
            time,
            event_id,
        ) == slot,
        slot.state is Unset && (time > 0 || event_id > 0) ==> removed(
            slot,
            id,
            time,
            event_id,
        ).state is Absent,
{
}

} // verus!
