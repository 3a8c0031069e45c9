use crate::buff::{BuffState, accepts, updated};
use crate::entry::{Entry, Player, removal_matches, removed};
use crate::event::{
    Agent, BuffKind, CombatEvent, SquadMember, StateChange, UserRole, state_change_of,
    tracked_from,
};
use crate::reminder::Reminder;
use crate::tracker::{
    Sorting, Tracker, entries_wf, has_id, index_of, lemma_index_of, lemma_update_keeps_wf,
    resorted,
};
use vstd::prelude::*;

verus! {

/// Whether the squad data source was found.
#[derive(Debug, Clone, Copy, PartialEq, Eq, Structural)]
pub enum ExtrasState {
    /// Nothing was heard from it yet.
    Missing,
    Found,
    Incompatible,
}

/// Tracks buffs on squad members from combat events and reminds the local
/// player of missing ones.
#[derive(Debug)]
pub struct Plugin {
    pub tracker: Tracker,
    pub reminder: Reminder,
    pub extras: ExtrasState,
}

/// The buff id that a removal names: `None` for a buff without definition.
pub open spec fn removal_id(known: bool, buff: u32) -> Option<u32> {
    if known {
        Some(buff)
    } else {
        None
    }
}

/// The state that an applied buff puts its slot in.
pub open spec fn applied_state(known: bool, buff: u32) -> BuffState {
    if known {
        BuffState::Known(buff)
    } else {
        BuffState::Unknown(buff)
    }
}

/// The sort key that a change of a buff of this kind affects.
pub open spec fn sort_key_of(kind: BuffKind) -> Sorting {
    match kind {
        BuffKind::Food(_) => Sorting::Food,
        BuffKind::Util(_) => Sorting::Util,
        _ => Sorting::Unsorted,
    }
}

/// Whether applying (or, with `removal`, removing) the buff changes the entry.
pub open spec fn buff_accepted(
    e: Entry,
    kind: BuffKind,
    buff: u32,
    removal: bool,
    time: u64,
    event_id: u64,
) -> bool {
    match kind {
        BuffKind::Food(known) => (removal ==> removal_matches(removal_id(known, buff), e.food.state))
            && accepts(e.food, time, event_id),
        BuffKind::Util(known) => (removal ==> removal_matches(removal_id(known, buff), e.util.state))
            && accepts(e.util, time, event_id),
        _ => false,
    }
}

/// The entry after applying (or, with `removal`, removing) the buff.
pub open spec fn buff_entry(
    e: Entry,
    kind: BuffKind,
    buff: u32,
    removal: bool,
    time: u64,
    event_id: u64,
) -> Entry {
    match kind {
        BuffKind::Food(known) => Entry {
            food: if removal {
                removed(e.food, removal_id(known, buff), time, event_id)
            } else {
                updated(e.food, applied_state(known, buff), time, event_id)
            },
            ..e
        },
        BuffKind::Util(known) => Entry {
            util: if removal {
                removed(e.util, removal_id(known, buff), time, event_id)
            } else {
                updated(e.util, applied_state(known, buff), time, event_id)
            },
            ..e
        },
        _ => e,
    }
}

/// The reminder after an accepted buff change on the local player, whose
/// entry is now `e`.
pub open spec fn buff_reminder(
    r: Reminder,
    kind: BuffKind,
    buff: u32,
    removal: bool,
    e: Entry,
    now: u64,
) -> Reminder {
    match kind {
        BuffKind::Food(_) => if removal {
            r.food_removed(e, now)
        } else {
            r.food_applied(buff, now)
        },
        BuffKind::Util(_) => if removal {
            r.util_removed(e, now)
        } else {
            r.util_applied(buff, now)
        },
        _ => r,
    }
}

/// Whether a member in this role is placed in a subgroup.
pub open spec fn in_squad(role: UserRole) -> bool {
    role is SquadLeader || role is Lieutenant || role is Member
}

/// Whether `i` is the first entry with the account name.
pub open spec fn is_first_account(v: Seq<Entry>, name: Seq<char>, i: int) -> bool {
    0 <= i < v.len() && v[i].player.account@ == name && forall|k: int|
        0 <= k < i ==> (#[trigger] v[k]).player.account@ != name
}

/// The entry moved to a one-based subgroup.
pub open spec fn with_subgroup(e: Entry, subgroup: usize) -> Entry {
    Entry { player: Player { subgroup, ..e.player }, ..e }
}

/// The entries after one squad member's update: the first entry with the
/// member's account moves to the member's subgroup.
pub open spec fn synced_one(v: Seq<Entry>, m: SquadMember) -> Seq<Entry> {
    match m.account_name {
        Some(name) => if in_squad(m.role) && exists|i: int| is_first_account(v, name@, i) {
            let i = choose|i: int| is_first_account(v, name@, i);
            v.update(i, with_subgroup(v[i], (m.subgroup + 1) as usize))
        } else {
            v
        },
        None => v,
    }
}

/// The entries after the squad members' updates, in order.
pub open spec fn synced(v: Seq<Entry>, users: Seq<SquadMember>) -> Seq<Entry>
    decreases users.len(),
{
    if users.len() == 0 {
        v
    } else {
        synced_one(synced(v, users.drop_last()), users.last())
    }
}

fn find_account(players: &Vec<Entry>, name: &String) -> (r: Option<usize>)
    ensures
        r matches Some(j) ==> is_first_account(players@, name@, j as int),
        r is None ==> !exists|i: int| is_first_account(players@, name@, i),
{
    let mut j: usize = 0;
    while j < players.len()
        invariant
            j <= players@.len(),
            forall|q: int| 0 <= q < j ==> (#[trigger] players@[q]).player.account@ != name@,
        decreases players.len() - j,
    {
        if players[j].player.account == *name {
            return Some(j);
        }
        j = j + 1;
    }
    None
}

fn in_squad_exec(role: UserRole) -> (r: bool)
    ensures
        r == in_squad(role),
{
    match role {
        UserRole::SquadLeader | UserRole::Lieutenant | UserRole::Member => true,
        _ => false,
    }
}

impl Plugin {
    pub open spec fn wf(&self) -> bool {
        self.tracker.wf()
    }

    /// Whether `new` is `self` after a buff change on the player with agent id
    /// `pid`: nothing happens for an untracked player; otherwise the entry
    /// changes, and if the change was accepted the matching sort refreshes and
    /// the reminder hears of it if the player is local.
    pub open spec fn buff_step(
        self,
        new: Plugin,
        pid: usize,
        buff: u32,
        kind: BuffKind,
        removal: bool,
        time: u64,
        event_id: u64,
        now: u64,
    ) -> bool {
        let v = self.tracker.players@;
        if !has_id(v, pid) {
            new == self
        } else {
            let i = index_of(v, pid);
            let e = v[i];
            let acc = buff_accepted(e, kind, buff, removal, time, event_id);
            let e2 = buff_entry(e, kind, buff, removal, time, event_id);
            &&& new.reminder == if acc && e.player.is_self {
                buff_reminder(self.reminder, kind, buff, removal, e2, now)
            } else {
                self.reminder
            }
            &&& new.extras == self.extras
            &&& new.tracker.sorting == self.tracker.sorting
            &&& new.tracker.reverse == self.tracker.reverse
            &&& resorted(
                v.update(i, e2),
                new.tracker.players@,
                self.tracker.sorting,
                self.tracker.reverse,
                acc && self.tracker.sorting == sort_key_of(kind),
            )
        }
    }

    /// Whether `new` is `self` after a roster change reported by the agents:
    /// a source with a profession adds the player, one without removes it.
    pub open spec fn roster_step(self, new: Plugin, src: Agent, dst: Option<Agent>) -> bool {
        let v = self.tracker.players@;
        if src.elite != 0 {
            new == self
        } else if src.prof != 0 {
            match dst {
                Some(d) => if src.name is Some && d.name is Some {
                    exists|p: Player|
                        #![trigger tracked_from(p, src, d)]
                        tracked_from(p, src, d) && new.reminder == self.reminder && new.extras
                            == self.extras && new.tracker.sorting == self.tracker.sorting
                            && new.tracker.reverse == self.tracker.reverse && if has_id(v, p.id) {
                            new.tracker.players@ == v
                        } else {
                            resorted(
                                v.push(Entry::fresh(p)),
                                new.tracker.players@,
                                self.tracker.sorting,
                                self.tracker.reverse,
                                true,
                            )
                        }
                } else {
                    new == self
                },
                None => new == self,
            }
        } else {
            &&& new.reminder == self.reminder
            &&& new.extras == self.extras
            &&& new.tracker.sorting == self.tracker.sorting
            &&& new.tracker.reverse == self.tracker.reverse
            &&& !has_id(v, src.id) ==> new.tracker.players@ == v
            &&& has_id(v, src.id) ==> new.tracker.players@ == v.remove(index_of(v, src.id))
        }
    }

    /// Whether `new` is `self` after the combat event itself, before the
    /// pending reminder check.
    pub open spec fn dispatch_step(
        self,
        new: Plugin,
        ev: CombatEvent,
        src: Agent,
        dst: Option<Agent>,
        kind: BuffKind,
        event_id: u64,
        now: u64,
    ) -> bool {
        let v = self.tracker.players@;
        let same_tracker = new.tracker.players@ == v && new.tracker.sorting == self.tracker.sorting
            && new.tracker.reverse == self.tracker.reverse && new.extras == self.extras;
        match state_change_of(ev.is_statechange) {
            StateChange::LogStart => {
                &&& new.reminder == self.reminder.started(ev.src_agent, ev.time)
                &&& new.extras == self.extras
                &&& new.tracker.sorting == self.tracker.sorting
                &&& new.tracker.reverse == self.tracker.reverse
                &&& resorted(
                    v.map_values(|e: Entry| e.cleared(ev.time, event_id)),
                    new.tracker.players@,
                    self.tracker.sorting,
                    self.tracker.reverse,
                    self.tracker.sorting == Sorting::Food || self.tracker.sorting == Sorting::Util,
                )
            },
            StateChange::LogNPCUpdate => same_tracker && new.reminder
                == self.reminder.retargeted(ev.src_agent),
            StateChange::LogEnd => same_tracker && new.reminder == self.reminder.ended(v, now),
            StateChange::Normal | StateChange::ApiDelayed | StateChange::BuffInitial => {
                if ev.is_buff_remove == 0 {
                    if ev.buff != 0 && ev.buff_dmg == 0 && dst is Some {
                        self.buff_step(
                            new,
                            dst->Some_0.id,
                            ev.skill_id,
                            kind,
                            false,
                            ev.time,
                            event_id,
                            now,
                        )
                    } else {
                        new == self
                    }
                } else {
                    self.buff_step(new, src.id, ev.skill_id, kind, true, ev.time, event_id, now)
                }
            },
            StateChange::Other => new == self,
        }
    }

    /// Creates the plugin state with nothing tracked, sorted by subgroup.
    pub fn new() -> (r: Self)
        ensures
            r.wf(),
            r.tracker.players@.len() == 0,
            r.tracker.sorting == Sorting::Sub,
            !r.tracker.reverse,
            r.reminder == Reminder::new_spec(),
            r.extras == ExtrasState::Missing,
    {
        Plugin {
            tracker: Tracker::new(Sorting::Sub, false),
            reminder: Reminder::new(),
            extras: ExtrasState::Missing,
        }
    }

    /// Handles a buff apply or remove event on the player with agent id
    /// `player_id`.
    fn buff_change(
        &mut self,
        player_id: usize,
        buff_id: u32,
        kind: BuffKind,
        removal: bool,
        event_id: u64,
        time: u64,
        now: u64,
    )
        requires
            old(self).wf(),
        ensures
            final(self).wf(),
            old(self).buff_step(*final(self), player_id, buff_id, kind, removal, time, event_id, now),
    {
        match self.tracker.find_index(player_id) {
            None => {},
            Some(i) => {
                proof {
                    lemma_index_of(self.tracker.players@, i as int);
                }
                let ghost v = self.tracker.players@;
                let mut e = self.tracker.players.remove(i);
                let accepted = match kind {
                    BuffKind::Food(known) => {
                        if removal {
                            e.remove_food(
                                if known {
                                    Some(buff_id)
                                } else {
                                    None
                                },
                                time,
                                event_id,
                            )
                        } else if known {
                            e.apply_food(buff_id, time, event_id)
                        } else {
                            e.apply_unknown_food(buff_id, time, event_id)
                        }
                    },
                    BuffKind::Util(known) => {
                        if removal {
                            e.remove_util(
                                if known {
                                    Some(buff_id)
                                } else {
                                    None
                                },
                                time,
                                event_id,
                            )
                        } else if known {
                            e.apply_util(buff_id, time, event_id)
                        } else {
                            e.apply_unknown_util(buff_id, time, event_id)
                        }
                    },
                    _ => false,
                };
                let is_self = e.player.is_self;
                if accepted && is_self {
                    match kind {
                        BuffKind::Food(_) => {
                            if removal {
                                self.reminder.self_food_remove(&e, now);
                            } else {
                                self.reminder.self_food_apply(buff_id, now);
                            }
                        },
                        BuffKind::Util(_) => {
                            if removal {
                                self.reminder.self_util_remove(&e, now);
                            } else {
                                self.reminder.self_util_apply(buff_id, now);
                            }
                        },
                        _ => {},
                    }
                }
                self.tracker.players.insert(i, e);
                proof {
                    assert(self.tracker.players@ =~= v.update(i as int, e));
                    lemma_update_keeps_wf(v, i as int, e);
                }
                if accepted {
                    match kind {
                        BuffKind::Food(_) => self.tracker.refresh_sort_if(Sorting::Food),
                        BuffKind::Util(_) => self.tracker.refresh_sort_if(Sorting::Util),
                        _ => {},
                    }
                }
            },
        }
    }

    /// Whether `new` is `self` after the event: a combat event is dispatched,
    /// then, unless it is an initial buff report, the pending reminder check
    /// runs against the roster; without a combat event, the agents report a
    /// roster change; without a source agent nothing happens.
    pub open spec fn event_step(
        self,
        new: Plugin,
        event: Option<CombatEvent>,
        src: Option<Agent>,
        dst: Option<Agent>,
        kind: BuffKind,
        event_id: u64,
        now: u64,
    ) -> bool {
        match src {
            None => new == self,
            Some(s) => match event {
                None => self.roster_step(new, s, dst),
                Some(ev) => exists|mid: Plugin|
                    #![trigger self.dispatch_step(mid, ev, s, dst, kind, event_id, now)]
                    self.dispatch_step(mid, ev, s, dst, kind, event_id, now) && new == if state_change_of(
                        ev.is_statechange,
                    ) is BuffInitial {
                        mid
                    } else {
                        Plugin {
                            reminder: mid.reminder.pending_checked(mid.tracker.players@, ev.time, now),
                            ..mid
                        }
                    },
            },
        }
    }

    /// Handles a combat event from area stats. `kind` classifies the event's
    /// skill id; `now` is the current time of the clock that polls reminders.
    pub fn area_event(
        &mut self,
        event: Option<CombatEvent>,
        src: Option<Agent>,
        dst: Option<Agent>,
        kind: BuffKind,
        event_id: u64,
        now: u64,
    )
        requires
            old(self).wf(),
        ensures
            final(self).wf(),
            old(self).event_step(*final(self), event, src, dst, kind, event_id, now),
    {
        match src {
            None => {},
            Some(src) => {
                match event {
                    Some(ev) => {
                        let sc = StateChange::from_code(ev.is_statechange);
                        match sc {
                            StateChange::LogStart => {
                                self.log_start(ev.time, event_id);
                                self.reminder.start_encounter(ev.src_agent, ev.time);
                            },
                            StateChange::LogNPCUpdate => {
                                self.reminder.change_encounter(ev.src_agent);
                            },
                            StateChange::LogEnd => {
                                self.reminder.end_encounter(&self.tracker.players, now);
                            },
                            StateChange::Normal
                            | StateChange::ApiDelayed
                            | StateChange::BuffInitial => {
                                if ev.is_buff_remove == 0 {
                                    if ev.buff != 0 && ev.buff_dmg == 0 {
                                        match dst {
                                            Some(d) => {
                                                self.buff_change(
                                                    d.id,
                                                    ev.skill_id,
                                                    kind,
                                                    false,
                                                    event_id,
                                                    ev.time,
                                                    now,
                                                );
                                            },
                                            None => {},
                                        }
                                    }
                                } else {
                                    self.buff_change(
                                        src.id,
                                        ev.skill_id,
                                        kind,
                                        true,
                                        event_id,
                                        ev.time,
                                        now,
                                    );
                                }
                            },
                            StateChange::Other => {},
                        }
                        let ghost mid = *self;
                        if sc != StateChange::BuffInitial {
                            self.reminder.update_pending_check(&self.tracker.players, ev.time, now);
                        }
                        proof {
                            assert(old(self).dispatch_step(mid, ev, src, dst, kind, event_id, now));
                        }
                    },
                    None => {
                        self.roster_change(&src, &dst);
                    },
                }
            },
        }
    }

    /// Sets every unset buff to none and refreshes a sort by food or utility.
    fn log_start(&mut self, time: u64, event_id: u64)
        requires
            old(self).wf(),
        ensures
            final(self).wf(),
            final(self).reminder == old(self).reminder,
            final(self).extras == old(self).extras,
            final(self).tracker.sorting == old(self).tracker.sorting,
            final(self).tracker.reverse == old(self).tracker.reverse,
            resorted(
                old(self).tracker.players@.map_values(|e: Entry| e.cleared(time, event_id)),
                final(self).tracker.players@,
                old(self).tracker.sorting,
                old(self).tracker.reverse,
                old(self).tracker.sorting == Sorting::Food || old(self).tracker.sorting
                    == Sorting::Util,
            ),
    {
        let ghost v0 = self.tracker.players@;
        let mut players: Vec<Entry> = Vec::new();
        std::mem::swap(&mut players, &mut self.tracker.players);
        let n = players.len();
        let mut i: usize = 0;
        while i < n
            invariant
                n == players@.len(),
                v0.len() == n,
                i <= n,
                forall|k: int| 0 <= k < i ==> players@[k] == v0[k].cleared(time, event_id),
                forall|k: int| i <= k < n ==> players@[k] == v0[k],
            decreases n - i,
        {
            let mut e = players.remove(i);
            e.unset_to_none(time, event_id);
            players.insert(i, e);
            i = i + 1;
        }
        proof {
            let m = v0.map_values(|e: Entry| e.cleared(time, event_id));
            assert(players@ =~= m);
            assert forall|a: int, b: int| 0 <= a < b < m.len() implies (#[trigger] m[a]).player.id
                != (#[trigger] m[b]).player.id by {
                assert(v0[a].player.id != v0[b].player.id);
            }
            assert forall|a: int| 0 <= a < m.len() implies (#[trigger] m[a]).wf() by {
                assert(v0[a].wf());
            }
        }
        self.tracker.players = players;
        self.tracker.refresh_sort_if(Sorting::Food);
        self.tracker.refresh_sort_if(Sorting::Util);
    }

    /// Adds or removes a player on a roster change signal.
    fn roster_change(&mut self, src: &Agent, dst: &Option<Agent>)
        requires
            old(self).wf(),
        ensures
            final(self).wf(),
            old(self).roster_step(*final(self), *src, *dst),
    {
        if src.elite == 0 {
            if src.prof != 0 {
                match dst {
                    Some(d) => {
                        match Player::from_tracking_change(src, d) {
                            Some(p) => {
                                let ghost gp = p;
                                self.tracker.add_player(p);
                                proof {
                                    assert(tracked_from(gp, *src, *d));
                                }
                            },
                            None => {},
                        }
                    },
                    None => {},
                }
            } else {
                let ghost v = self.tracker.players@;
                let removed = self.tracker.remove_player(src.id);
                proof {
                    if removed {
                        let i = choose|i: int|
                            0 <= i < v.len() && v[i].player.id == src.id
                                && self.tracker.players@ == v.remove(i);
                        lemma_index_of(v, i);
                    }
                }
            }
        }
    }

    /// Records whether the squad data source is compatible.
    pub fn extras_init(&mut self, compatible: bool)
        ensures
            final(self).tracker == old(self).tracker,
            final(self).reminder == old(self).reminder,
            final(self).extras == if compatible {
                ExtrasState::Found
            } else {
                ExtrasState::Incompatible
            },
    {
        self.extras = if compatible {
            ExtrasState::Found
        } else {
            ExtrasState::Incompatible
        };
    }

    /// Handles a squad update: each member in the squad moves the entry of
    /// its account to its subgroup, then a sort by subgroup refreshes.
    pub fn extras_squad_update(&mut self, users: Vec<SquadMember>)
        requires
            old(self).wf(),
        ensures
            final(self).wf(),
            final(self).reminder == old(self).reminder,
            final(self).extras == old(self).extras,
            final(self).tracker.sorting == old(self).tracker.sorting,
            final(self).tracker.reverse == old(self).tracker.reverse,
            resorted(
                synced(old(self).tracker.players@, users@),
                final(self).tracker.players@,
                old(self).tracker.sorting,
                old(self).tracker.reverse,
                old(self).tracker.sorting == Sorting::Sub,
            ),
    {
        let ghost v0 = self.tracker.players@;
        let mut k: usize = 0;
        while k < users.len()
            invariant
                k <= users@.len(),
                self.tracker.players@ == synced(v0, users@.take(k as int)),
                self.wf(),
                self.reminder == old(self).reminder,
                self.extras == old(self).extras,
                self.tracker.sorting == old(self).tracker.sorting,
                self.tracker.reverse == old(self).tracker.reverse,
            decreases users.len() - k,
        {
            let m = &users[k];
            let ghost v = self.tracker.players@;
            proof {
                assert(users@.take(k + 1).drop_last() =~= users@.take(k as int));
                assert(users@.take(k + 1).last() == *m);
                assert(synced(v0, users@.take(k + 1)) == synced_one(v, *m));
            }
            match &m.account_name {
                Some(name) => {
                    if in_squad_exec(m.role) {
                        let found = find_account(&self.tracker.players, name);
                        if let Some(j) = found {
                            proof {
                                assert(is_first_account(v, name@, j as int));
                                let c = choose|c: int| is_first_account(v, name@, c);
                                if c < j {
                                    assert(v[c].player.account@ != name@);
                                }
                                if j < c {
                                    assert(v[j as int].player.account@ != name@);
                                }
                            }
                            let mut e = self.tracker.players.remove(j);
                            e.player.subgroup = m.subgroup as usize + 1;
                            self.tracker.players.insert(j, e);
                            proof {
                                assert(self.tracker.players@ =~= v.update(j as int, e));
                                lemma_update_keeps_wf(v, j as int, e);
                            }
                        }
                    }
                },
                None => {},
            }
            k = k + 1;
        }
        proof {
            assert(users@.take(users@.len() as int) =~= users@);
        }
        self.tracker.refresh_sort_if(Sorting::Sub);
    }
}

/// Whether `b` is entry `a` after a log start: an unset slot is absent,
/// any other slot is as it was.
pub open spec fn reset_of(a: Entry, b: Entry) -> bool {
    &&& b.player == a.player
    &&& a.food.state is Unset ==> b.food.state is Absent
    &&& !(a.food.state is Unset) ==> b.food == a.food
    &&& a.util.state is Unset ==> b.util.state is Absent
    &&& !(a.util.state is Unset) ==> b.util == a.util
}

/// Whether every entry of `v` has its reset in `w`, and every entry of `w` is
/// the reset of one in `v`.
pub open spec fn all_reset(v: Seq<Entry>, w: Seq<Entry>) -> bool {
    &&& forall|i: int| 0 <= i < v.len() ==> #[trigger] has_reset_in(v[i], w)
    &&& forall|j: int| 0 <= j < w.len() ==> #[trigger] is_reset_from(v, w[j])
}

/// Whether some entry of `w` is the reset of `a`.
pub open spec fn has_reset_in(a: Entry, w: Seq<Entry>) -> bool {
    exists|j: int| 0 <= j < w.len() && reset_of(a, #[trigger] w[j])
}

/// Whether `b` is the reset of some entry of `v`.
pub open spec fn is_reset_from(v: Seq<Entry>, b: Entry) -> bool {
    exists|i: int| 0 <= i < v.len() && reset_of(#[trigger] v[i], b)
}

/// After a log start, every entry that was tracked is tracked with its unset
/// buffs turned absent and its other buffs kept, and nothing else is tracked.
pub proof fn lemma_log_start_reset(
    before: Plugin,
    after: Plugin,
    ev: CombatEvent,
    src: Agent,
    dst: Option<Agent>,
    kind: BuffKind,
    event_id: u64,
    now: u64,
)
    requires
        before.wf(),
        state_change_of(ev.is_statechange) is LogStart,
        ev.time > 0 || event_id > 0,
        before.event_step(after, Some(ev), Some(src), dst, kind, event_id, now),
    ensures
        after.tracker.players@.len() == before.tracker.players@.len(),
        all_reset(before.tracker.players@, after.tracker.players@),
{
    broadcast use vstd::seq_lib::group_to_multiset_ensures;

    let mid = choose|mid: Plugin|
        before.dispatch_step(mid, ev, src, dst, kind, event_id, now) && after == Plugin {
            reminder: mid.reminder.pending_checked(mid.tracker.players@, ev.time, now),
            ..mid
        };
    let m = before.tracker.players@.map_values(|e: Entry| e.cleared(ev.time, event_id));
    assert(after.tracker.players@ == mid.tracker.players@);
    assert(after.tracker.players@.to_multiset() == m.to_multiset());
    assert(after.tracker.players@.to_multiset().len() == after.tracker.players@.len());
    assert(m.to_multiset().len() == m.len());
    assert(after.tracker.players@.len() == before.tracker.players@.len());
    assert forall|i: int| 0 <= i < before.tracker.players@.len() implies #[trigger] has_reset_in(
        before.tracker.players@[i],
        after.tracker.players@,
    ) by {
        crate::entry::lemma_cleared_entry(before.tracker.players@[i], ev.time, event_id);
        assert(m[i] == before.tracker.players@[i].cleared(ev.time, event_id));
        assert(m.contains(m[i]));
        assert(m.to_multiset().count(m[i]) > 0);
        assert(after.tracker.players@.to_multiset().count(m[i]) > 0);
        assert(after.tracker.players@.contains(m[i]));
        let j = choose|j: int| 0 <= j < after.tracker.players@.len() && after.tracker.players@[j] == m[i];
        assert(reset_of(before.tracker.players@[i], after.tracker.players@[j]));
    }
    assert forall|j: int| 0 <= j < after.tracker.players@.len() implies #[trigger] is_reset_from(
        before.tracker.players@,
        after.tracker.players@[j],
    ) by {
        assert(after.tracker.players@.contains(after.tracker.players@[j]));
        assert(after.tracker.players@.to_multiset().count(after.tracker.players@[j]) > 0);
        assert(m.to_multiset().count(after.tracker.players@[j]) > 0);
        assert(m.contains(after.tracker.players@[j]));
        let i = choose|i: int| 0 <= i < m.len() && m[i] == after.tracker.players@[j];
        crate::entry::lemma_cleared_entry(before.tracker.players@[i], ev.time, event_id);
        assert(reset_of(before.tracker.players@[i], after.tracker.players@[j]));
    }
    assert(all_reset(before.tracker.players@, after.tracker.players@));
}

} // verus!
