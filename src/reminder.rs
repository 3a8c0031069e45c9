use crate::buff::BuffState;
use crate::entry::Entry;
use vstd::prelude::*;

verus! {

/// Default duration of a reminder, in milliseconds.
pub const DEFAULT_DURATION: u64 = 5000;

/// Id of the malnourished debuff, which takes the place of a food buff.
pub const MALNOURISHED: u32 = 46587;

/// Id of the diminished debuff, which takes the place of a utility buff.
pub const DIMINISHED: u32 = 46668;

/// Options of the reminder.
#[derive(Debug, Clone, Copy, PartialEq, Eq, Structural)]
pub struct ReminderSettings {
    /// How long a reminder stays visible, in milliseconds.
    pub duration: u64,
    /// Only remind during encounters.
    pub only_bosses: bool,
    /// Remind at the start of an encounter.
    pub encounter_start: bool,
    /// Remind at the end of an encounter.
    pub encounter_end: bool,
    /// Remind when a buff runs out during an encounter.
    pub during_encounter: bool,
    /// Treat malnourished and diminished like a missing buff.
    pub always_mal_dim: bool,
}

impl ReminderSettings {
    /// The default settings: every reminder on, for the default duration.
    pub open spec fn defaults() -> ReminderSettings {
        ReminderSettings {
            duration: DEFAULT_DURATION,
            only_bosses: true,
            encounter_start: true,
            encounter_end: true,
            during_encounter: true,
            always_mal_dim: true,
        }
    }

    /// Creates new reminder settings with the defaults.
    pub fn new() -> (r: Self)
        ensures
            r == ReminderSettings::defaults(),
    {
        ReminderSettings {
            duration: DEFAULT_DURATION,
            only_bosses: true,
            encounter_start: true,
            encounter_end: true,
            during_encounter: true,
            always_mal_dim: true,
        }
    }
}

/// The current encounter.
#[derive(Debug, Clone, Copy, PartialEq, Eq, Structural)]
pub struct Encounter {
    /// Agent id of the encounter's target.
    pub target_id: usize,
    /// Time at which the encounter started.
    pub started_at: u64,
}

/// Time-boxed reminders for the local player's food and utility buffs, and the
/// encounter state that decides when they are armed.
#[derive(Debug)]
pub struct Reminder {
    pub settings: ReminderSettings,
    /// Time at which the food reminder was armed.
    pub food_trigger: Option<u64>,
    /// Time at which the utility reminder was armed.
    pub util_trigger: Option<u64>,
    /// The active encounter, if any.
    pub encounter: Option<Encounter>,
    /// Whether the local player's buffs are still to be checked for the
    /// encounter that started last.
    pub pending_check: bool,
}

/// Whether a trigger armed at `armed` is still active at `now`.
pub open spec fn active_at(armed: u64, duration: u64, now: u64) -> bool {
    (if now >= armed {
        now - armed
    } else {
        0
    }) <= duration
}

/// Whether a slot in this state counts as missing its buff, for the debuff
/// id that stands in for it.
pub open spec fn missing(state: BuffState, debuff: u32, mal_dim: bool) -> bool {
    match state {
        BuffState::Unset => true,
        BuffState::Absent => true,
        BuffState::Known(id) => mal_dim && id == debuff,
        BuffState::Unknown(_) => false,
    }
}

/// Whether the food of this entry counts as missing.
pub open spec fn food_missing(e: Entry, s: ReminderSettings) -> bool {
    missing(e.food.state, MALNOURISHED, s.always_mal_dim)
}

/// Whether the utility of this entry counts as missing.
pub open spec fn util_missing(e: Entry, s: ReminderSettings) -> bool {
    missing(e.util.state, DIMINISHED, s.always_mal_dim)
}

/// Whether an entry of the local player is in the sequence, and `i` is the first.
pub open spec fn is_first_self(players: Seq<Entry>, i: int) -> bool {
    0 <= i < players.len() && players[i].player.is_self && forall|k: int|
        0 <= k < i ==> !(#[trigger] players[k]).player.is_self
}

/// Whether the sequence holds no entry of the local player.
pub open spec fn no_self(players: Seq<Entry>) -> bool {
    forall|k: int| 0 <= k < players.len() ==> !(#[trigger] players[k]).player.is_self
}

fn missing_exec(state: BuffState, debuff: u32, mal_dim: bool) -> (r: bool)
    ensures
        r == missing(state, debuff, mal_dim),
{
    match state {
        BuffState::Unset => true,
        BuffState::Absent => true,
        BuffState::Known(id) => mal_dim && id == debuff,
        BuffState::Unknown(_) => false,
    }
}

/// Returns the position of the first entry of the local player.
pub fn find_self(players: &Vec<Entry>) -> (r: Option<usize>)
    ensures
        r matches Some(i) ==> is_first_self(players@, i as int),
        r is None ==> no_self(players@),
{
    let mut i: usize = 0;
    while i < players.len()
        invariant
            i <= players@.len(),
            forall|k: int| 0 <= k < i ==> !(#[trigger] players@[k]).player.is_self,
        decreases players.len() - i,
    {
        if players[i].player.is_self {
            return Some(i);
        }
        i = i + 1;
    }
    None
}

impl Reminder {
    /// The reminder after checking the entry at a boundary: each category that
    /// counts as missing is armed at `now`.
    pub open spec fn checked(self, e: Entry, now: u64) -> Reminder {
        Reminder {
            food_trigger: if food_missing(e, self.settings) {
                Some(now)
            } else {
                self.food_trigger
            },
            util_trigger: if util_missing(e, self.settings) {
                Some(now)
            } else {
                self.util_trigger
            },
            ..self
        }
    }

    /// The reminder after checking the local player's entry among `players`,
    /// if there is one.
    pub open spec fn checked_self(self, players: Seq<Entry>, now: u64) -> Reminder {
        if exists|i: int| is_first_self(players, i) {
            let i = choose|i: int| is_first_self(players, i);
            self.checked(players[i], now)
        } else {
            self
        }
    }

    /// Whether the start check of the current encounter is due at an event of
    /// the given time.
    pub open spec fn start_check_due(self, time: u64) -> bool {
        self.pending_check && match self.encounter {
            Some(enc) => time > enc.started_at,
            None => false,
        }
    }

    /// The reminder after an encounter on `target_id` started at `time`; the
    /// start check is pending if reminders at encounter start are on.
    pub open spec fn started(self, target_id: usize, time: u64) -> Reminder {
        Reminder {
            encounter: Some(Encounter { target_id, started_at: time }),
            pending_check: self.settings.encounter_start,
            ..self
        }
    }

    /// The reminder after the current encounter's target changed.
    pub open spec fn retargeted(self, target_id: usize) -> Reminder {
        Reminder {
            encounter: match self.encounter {
                Some(enc) => Some(Encounter { target_id, ..enc }),
                None => None,
            },
            ..self
        }
    }

    /// The reminder after the encounter ended: the local player's buffs are
    /// checked if reminders at encounter end are on and the encounter counts.
    pub open spec fn ended(self, players: Seq<Entry>, now: u64) -> Reminder {
        let base = if self.settings.encounter_end && (!self.settings.only_bosses
            || self.encounter is Some) {
            self.checked_self(players, now)
        } else {
            self
        };
        Reminder { encounter: None, pending_check: false, ..base }
    }

    /// The reminder after an event of the given time: the pending start check
    /// runs once an event later than the encounter's start arrives.
    pub open spec fn pending_checked(self, players: Seq<Entry>, time: u64, now: u64) -> Reminder {
        if self.start_check_due(time) {
            Reminder { pending_check: false, ..self.checked_self(players, now) }
        } else {
            self
        }
    }

    /// The reminder after a food buff was applied to the local player.
    pub open spec fn food_applied(self, buff_id: u32, now: u64) -> Reminder {
        Reminder {
            food_trigger: if self.settings.always_mal_dim && buff_id == MALNOURISHED {
                if self.settings.during_encounter && self.encounter is Some {
                    Some(now)
                } else {
                    self.food_trigger
                }
            } else {
                None
            },
            ..self
        }
    }

    /// The reminder after a utility buff was applied to the local player.
    pub open spec fn util_applied(self, buff_id: u32, now: u64) -> Reminder {
        Reminder {
            util_trigger: if self.settings.always_mal_dim && buff_id == DIMINISHED {
                if self.settings.during_encounter && self.encounter is Some {
                    Some(now)
                } else {
                    self.util_trigger
                }
            } else {
                None
            },
            ..self
        }
    }

    /// The reminder after a food buff was removed from the local player,
    /// whose entry is now `e`.
    pub open spec fn food_removed(self, e: Entry, now: u64) -> Reminder {
        if self.settings.during_encounter && self.encounter is Some && food_missing(e, self.settings) {
            Reminder { food_trigger: Some(now), ..self }
        } else {
            self
        }
    }

    /// The reminder after a utility buff was removed from the local player,
    /// whose entry is now `e`.
    pub open spec fn util_removed(self, e: Entry, now: u64) -> Reminder {
        if self.settings.during_encounter && self.encounter is Some && util_missing(e, self.settings) {
            Reminder { util_trigger: Some(now), ..self }
        } else {
            self
        }
    }

    /// A new reminder: default settings, nothing armed, no encounter.
    pub open spec fn new_spec() -> Reminder {
        Reminder {
            settings: ReminderSettings::defaults(),
            food_trigger: None,
            util_trigger: None,
            encounter: None,
            pending_check: false,
        }
    }

    /// Creates a new reminder with the default settings.
    pub fn new() -> (r: Self)
        ensures
            r == Reminder::new_spec(),
    {
        Reminder {
            settings: ReminderSettings::new(),
            food_trigger: None,
            util_trigger: None,
            encounter: None,
            pending_check: false,
        }
    }

    /// Triggers the food reminder at time `now`.
    pub fn trigger_food(&mut self, now: u64)
        ensures
            *final(self) == (Reminder { food_trigger: Some(now), ..*old(self) }),
    {
        self.food_trigger = Some(now);
    }

    /// Triggers the utility reminder at time `now`.
    pub fn trigger_util(&mut self, now: u64)
        ensures
            *final(self) == (Reminder { util_trigger: Some(now), ..*old(self) }),
    {
        self.util_trigger = Some(now);
    }

    /// Checks if a trigger is currently active and resets it if it expired.
    pub fn check_trigger(trigger: &mut Option<u64>, duration: u64, now: u64) -> (r: bool)
        ensures
            r == (*old(trigger) matches Some(t) && active_at(t, duration, now)),
            *final(trigger) == if r {
                *old(trigger)
            } else {
                None
            },
    {
        match *trigger {
            Some(time) => {
                if now.saturating_sub(time) <= duration {
                    true
                } else {
                    *trigger = None;
                    false
                }
            },
            None => false,
        }
    }

    /// Whether the food reminder is showing at `now`; disarms it once expired.
    pub fn poll_food(&mut self, now: u64) -> (r: bool)
        ensures
            r == (old(self).food_trigger matches Some(t) && active_at(
                t,
                old(self).settings.duration,
                now,
            )),
            *final(self) == (Reminder {
                food_trigger: if r {
                    old(self).food_trigger
                } else {
                    None
                },
                ..*old(self)
            }),
    {
        let duration = self.settings.duration;
        Self::check_trigger(&mut self.food_trigger, duration, now)
    }

    /// Whether the utility reminder is showing at `now`; disarms it once expired.
    pub fn poll_util(&mut self, now: u64) -> (r: bool)
        ensures
            r == (old(self).util_trigger matches Some(t) && active_at(
                t,
                old(self).settings.duration,
                now,
            )),
            *final(self) == (Reminder {
                util_trigger: if r {
                    old(self).util_trigger
                } else {
                    None
                },
                ..*old(self)
            }),
    {
        let duration = self.settings.duration;
        Self::check_trigger(&mut self.util_trigger, duration, now)
    }

    /// Returns the target of the current encounter.
    pub fn current_encounter(&self) -> (r: Option<usize>)
        ensures
            r == (match self.encounter {
                Some(enc) => Some(enc.target_id),
                None => None,
            }),
    {
        match self.encounter {
            Some(enc) => Some(enc.target_id),
            None => None,
        }
    }

    /// Starts an encounter; its start check runs at the first later event.
    pub fn start_encounter(&mut self, target_id: usize, time: u64)
        ensures
            *final(self) == old(self).started(target_id, time),
    {
        self.encounter = Some(Encounter { target_id, started_at: time });
        self.pending_check = self.settings.encounter_start;
    }

    /// Replaces the target of the current encounter, keeping its start time.
    pub fn change_encounter(&mut self, target_id: usize)
        ensures
            *final(self) == old(self).retargeted(target_id),
    {
        if let Some(enc) = self.encounter {
            self.encounter = Some(Encounter { target_id, started_at: enc.started_at });
        }
    }

    fn check_entry(&mut self, entry: &Entry, now: u64)
        ensures
            *final(self) == old(self).checked(*entry, now),
    {
        if missing_exec(entry.food.state, MALNOURISHED, self.settings.always_mal_dim) {
            self.trigger_food(now);
        }
        if missing_exec(entry.util.state, DIMINISHED, self.settings.always_mal_dim) {
            self.trigger_util(now);
        }
    }

    fn check_self(&mut self, players: &Vec<Entry>, now: u64)
        ensures
            *final(self) == old(self).checked_self(players@, now),
    {
        match find_self(players) {
            Some(i) => {
                proof {
                    assert(is_first_self(players@, i as int));
                    let j = choose|j: int| is_first_self(players@, j);
                    if j < i {
                        assert(!players@[j].player.is_self);
                    }
                    if i < j {
                        assert(!players@[i as int].player.is_self);
                    }
                }
                self.check_entry(&players[i], now);
            },
            None => {},
        }
    }

    /// Ends the current encounter, first checking the local player's buffs if
    /// reminders at the end of encounters are on.
    pub fn end_encounter(&mut self, players: &Vec<Entry>, now: u64)
        ensures
            *final(self) == old(self).ended(players@, now),
    {
        if self.settings.encounter_end && (!self.settings.only_bosses || self.encounter.is_some()) {
            self.check_self(players, now);
        }
        self.encounter = None;
        self.pending_check = false;
    }

    /// Runs the start check of the current encounter once an event later than
    /// its start arrives.
    pub fn update_pending_check(&mut self, players: &Vec<Entry>, time: u64, now: u64)
        ensures
            *final(self) == old(self).pending_checked(players@, time, now),
    {
        if self.pending_check {
            if let Some(enc) = self.encounter {
                if time > enc.started_at {
                    self.pending_check = false;
                    self.check_self(players, now);
                }
            }
        }
    }

    /// Notes a food buff applied to the local player: a debuff that counts as
    /// missing food arms the reminder during an encounter, any other buff
    /// clears it.
    pub fn self_food_apply(&mut self, buff_id: u32, now: u64)
        ensures
            *final(self) == old(self).food_applied(buff_id, now),
    {
        if self.settings.always_mal_dim && buff_id == MALNOURISHED {
            if self.settings.during_encounter && self.encounter.is_some() {
                self.trigger_food(now);
            }
        } else {
            self.food_trigger = None;
        }
    }

    /// Notes a utility buff applied to the local player: a debuff that counts as
    /// missing utility arms the reminder during an encounter, any other buff
    /// clears it.
    pub fn self_util_apply(&mut self, buff_id: u32, now: u64)
        ensures
            *final(self) == old(self).util_applied(buff_id, now),
    {
        if self.settings.always_mal_dim && buff_id == DIMINISHED {
            if self.settings.during_encounter && self.encounter.is_some() {
                self.trigger_util(now);
            }
        } else {
            self.util_trigger = None;
        }
    }

    /// Notes a food buff removed from the local player: arms the reminder if
    /// the food now counts as missing during an encounter.
    pub fn self_food_remove(&mut self, entry: &Entry, now: u64)
        ensures
            *final(self) == old(self).food_removed(*entry, now),
    {
        if self.settings.during_encounter && self.encounter.is_some() && missing_exec(
            entry.food.state,
            MALNOURISHED,
            self.settings.always_mal_dim,
        ) {
            self.trigger_food(now);
        }
    }

    /// Notes a utility buff removed from the local player: arms the reminder if
    /// the utility now counts as missing during an encounter.
    pub fn self_util_remove(&mut self, entry: &Entry, now: u64)
        ensures
            *final(self) == old(self).util_removed(*entry, now),
    {
        if self.settings.during_encounter && self.encounter.is_some() && missing_exec(
            entry.util.state,
            DIMINISHED,
            self.settings.always_mal_dim,
        ) {
            self.trigger_util(now);
        }
    }
}

/// A food reminder armed when the local player's food runs out during an
/// encounter shows right away, and is gone once more than the configured
/// duration has passed.
pub proof fn lemma_reminder_arming(r: Reminder, e: Entry, now: u64, later: u64)
    requires
        r.settings.during_encounter,
        !r.settings.only_bosses,
        r.encounter is Some,
        e.food.state is Absent,
        later > now + r.settings.duration,
    ensures
        r.food_removed(e, now).food_trigger == Some(now),
        active_at(now, r.settings.duration, now),
        !active_at(now, r.settings.duration, later),
{
}

} // verus!
