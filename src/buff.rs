use vstd::prelude::*;

verus! {

/// State of a single tracked buff.
#[derive(Debug, Clone, Copy, PartialEq, Eq, Structural)]
pub enum BuffState {
    /// No event has been observed yet.
    Unset,
    /// Confirmed absence of any buff.
    Absent,
    /// A buff with the given id is applied, but it has no known definition.
    Unknown(u32),
    /// A buff with the given id is applied and resolved to a known definition.
    Known(u32),
}

/// A buff tracking cell: the current state together with the markers of the
/// update that produced it.
#[derive(Debug, Clone, Copy, PartialEq, Eq, Structural)]
pub struct BuffSlot {
    pub state: BuffState,
    pub last_time: u64,
    pub last_event_id: u64,
}

/// Whether an update with the given markers is newer than the slot's last one.
pub open spec fn accepts(slot: BuffSlot, time: u64, event_id: u64) -> bool {
    event_id > slot.last_event_id || time > slot.last_time
}

/// The slot after an update attempt.
pub open spec fn updated(slot: BuffSlot, state: BuffState, time: u64, event_id: u64) -> BuffSlot {
    if accepts(slot, time, event_id) {
        BuffSlot { state, last_time: time, last_event_id: event_id }
    } else {
        slot
    }
}

impl BuffSlot {
    /// An unset slot never saw an update, so its markers are still zero.
    pub open spec fn wf(&self) -> bool {
        self.state is Unset ==> self.last_time == 0 && self.last_event_id == 0
    }

    /// Creates a new slot.
    pub fn new(state: BuffState, time: u64, event_id: u64) -> (r: Self)
        ensures
            r == (BuffSlot { state, last_time: time, last_event_id: event_id }),
    {
        BuffSlot { state, last_time: time, last_event_id: event_id }
    }

    /// The slot in which nothing has been observed yet.
    pub open spec fn unset_spec() -> BuffSlot {
        BuffSlot { state: BuffState::Unset, last_time: 0, last_event_id: 0 }
    }

    /// Creates a slot in which nothing has been observed yet.
    pub fn unset() -> (r: Self)
        ensures
            r == Self::unset_spec(),
            r.wf(),
    {
        BuffSlot { state: BuffState::Unset, last_time: 0, last_event_id: 0 }
    }

    /// Replaces the state if the update is newer than the last accepted one.
    ///
    /// Returns `true` if the update was accepted.
    pub fn update(&mut self, state: BuffState, time: u64, event_id: u64) -> (r: bool)
        ensures
            r == accepts(*old(self), time, event_id),
            *final(self) == updated(*old(self), state, time, event_id),
    {
        if event_id > self.last_event_id || time > self.last_time {
            self.state = state;
            self.last_time = time;
            self.last_event_id = event_id;
            true
        } else {
            false
        }
    }
}

/// Replaying an update that was just accepted is rejected and changes nothing.
pub proof fn lemma_update_idempotent(slot: BuffSlot, state: BuffState, time: u64, event_id: u64)
    requires
        accepts(slot, time, event_id),
    ensures
        !accepts(updated(slot, state, time, event_id), time, event_id),
        updated(updated(slot, state, time, event_id), state, time, event_id) == updated(
            slot,
            state,
            time,
            event_id,
        ),
{
}

/// An accepted update whose event id does not grow must carry a later time:
/// the event ids of accepted updates strictly increase, unless time moves ahead
/// while the event id falls behind.
pub proof fn lemma_update_event_id_increases(
    slot: BuffSlot,
    state: BuffState,
    time: u64,
    event_id: u64,
)
    requires
        event_id <= slot.last_event_id ==> time <= slot.last_time,
    ensures
        accepts(slot, time, event_id) ==> updated(slot, state, time, event_id).last_event_id
            > slot.last_event_id,
        !accepts(slot, time, event_id) ==> updated(slot, state, time, event_id) == slot,
{
}

} // verus!
