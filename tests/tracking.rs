use food_reminder::buff::{BuffSlot, BuffState};
use food_reminder::entry::{Entry, Player};
use food_reminder::event::{
    Agent, BuffKind, CombatEvent, SquadMember, StateChange, UserRole, CODE_API_DELAYED,
    CODE_BUFF_INITIAL, CODE_LOG_END, CODE_LOG_NPC_UPDATE, CODE_LOG_START,
};
use food_reminder::log::DebugLog;
use food_reminder::plugin::{ExtrasState, Plugin};
use food_reminder::reminder::{
    Encounter, Reminder, ReminderSettings, DEFAULT_DURATION, DIMINISHED, MALNOURISHED,
};
use food_reminder::tracker::{Sorting, Tracker};

const FOOD: u32 = 57100;
const OTHER_FOOD: u32 = 57244;
const UTIL: u32 = 9963;

fn player(id: usize, name: &str, account: &str, subgroup: usize, is_self: bool) -> Player {
    Player {
        id,
        character: name.to_string(),
        account: account.to_string(),
        profession: 1,
        elite: 0,
        subgroup,
        is_self,
    }
}

fn agent(name: Option<&str>, id: usize, prof: u32, elite: u32, self_: u32, team: u16) -> Agent {
    Agent {
        name: name.map(|n| n.to_string()),
        id,
        prof,
        elite,
        self_,
        team,
    }
}

fn buff_event(time: u64, skill_id: u32, remove: u8) -> CombatEvent {
    CombatEvent {
        time,
        src_agent: 0,
        buff_dmg: 0,
        skill_id,
        buff: 1,
        is_buff_remove: remove,
        is_statechange: 0,
    }
}

fn marker(code: u8, time: u64, src_agent: usize) -> CombatEvent {
    CombatEvent {
        time,
        src_agent,
        buff_dmg: 0,
        skill_id: 0,
        buff: 0,
        is_buff_remove: 0,
        is_statechange: code,
    }
}

fn ids(tracker: &Tracker) -> Vec<usize> {
    tracker.players.iter().map(|e| e.player.id).collect()
}

fn add(plugin: &mut Plugin, id: usize, name: &str, account: &str, team: u16, is_self: bool) {
    plugin.area_event(
        None,
        Some(agent(Some(name), id, 1, 0, 0, 0)),
        Some(agent(Some(account), 0, 1, 0, is_self as u32, team)),
        BuffKind::Unknown,
        0,
        0,
    );
}

#[test]
fn slot_replay_is_rejected() {
    let mut slot = BuffSlot::unset();
    assert!(slot.update(BuffState::Known(FOOD), 100, 1));
    let after = slot;
    assert!(!slot.update(BuffState::Known(FOOD), 100, 1));
    assert_eq!(slot, after);
    assert_eq!(slot.state, BuffState::Known(FOOD));
}

#[test]
fn slot_event_ids_increase() {
    let mut slot = BuffSlot::new(BuffState::Absent, 100, 5);
    assert!(!slot.update(BuffState::Known(FOOD), 100, 5));
    assert!(!slot.update(BuffState::Known(FOOD), 90, 4));
    assert_eq!(slot.last_event_id, 5);
    assert!(slot.update(BuffState::Known(FOOD), 100, 6));
    assert_eq!(slot.last_event_id, 6);
    assert_eq!(slot.last_time, 100);
}

#[test]
fn slot_accepts_later_time_with_older_id() {
    let mut slot = BuffSlot::new(BuffState::Absent, 10, 5);
    assert!(slot.update(BuffState::Unknown(FOOD), 20, 3));
    assert_eq!(slot.state, BuffState::Unknown(FOOD));
    assert_eq!(slot.last_event_id, 3);
}

#[test]
fn new_entry_is_unset() {
    let e = Entry::new(player(1, "A", "a.1234", 1, false));
    assert_eq!(e.food.state, BuffState::Unset);
    assert_eq!(e.util.state, BuffState::Unset);
    assert_eq!(e.food.last_time, 0);
    assert_eq!(e.food.last_event_id, 0);
    let from: Entry = player(2, "B", "b.1234", 1, false).into();
    assert_eq!(from.util.state, BuffState::Unset);
}

#[test]
fn unset_to_none_keeps_known() {
    let mut e = Entry::new(player(1, "A", "a.1234", 1, false));
    assert!(e.apply_util(UTIL, 10, 1));
    e.unset_to_none(20, 2);
    assert_eq!(e.food.state, BuffState::Absent);
    assert_eq!(e.util.state, BuffState::Known(UTIL));
}

#[test]
fn removal_identity_check() {
    let mut e = Entry::new(player(1, "A", "a.1234", 1, false));
    assert!(e.apply_food(FOOD, 10, 1));
    assert!(!e.remove_food(Some(MALNOURISHED), 20, 2));
    assert_eq!(e.food.state, BuffState::Known(FOOD));
    assert!(!e.remove_food(None, 20, 2));
    assert_eq!(e.food.state, BuffState::Known(FOOD));
    assert!(e.remove_food(Some(FOOD), 20, 2));
    assert_eq!(e.food.state, BuffState::Absent);

    let mut unset = Entry::new(player(2, "B", "b.1234", 1, false));
    assert!(unset.remove_food(Some(MALNOURISHED), 5, 1));
    assert_eq!(unset.food.state, BuffState::Absent);
    assert!(unset.remove_util(None, 5, 1));
    assert_eq!(unset.util.state, BuffState::Absent);
}

#[test]
fn removal_of_unknown_needs_unknown() {
    let mut e = Entry::new(player(1, "A", "a.1234", 1, false));
    assert!(e.apply_unknown_util(UTIL, 10, 1));
    assert_eq!(e.util.state, BuffState::Unknown(UTIL));
    assert!(!e.remove_util(Some(UTIL), 20, 2));
    assert_eq!(e.util.state, BuffState::Unknown(UTIL));
    assert!(e.remove_util(None, 20, 2));
    assert_eq!(e.util.state, BuffState::Absent);
    assert!(e.apply_unknown_food(FOOD, 30, 3));
    assert_eq!(e.food.state, BuffState::Unknown(FOOD));
}

#[test]
fn reminder_arms_when_food_runs_out() {
    let mut reminder = Reminder::new();
    reminder.settings.only_bosses = false;
    reminder.settings.during_encounter = true;
    reminder.start_encounter(7, 0);
    let mut e = Entry::new(player(1, "A", "a.1234", 1, true));
    assert!(e.apply_food(FOOD, 10, 1));
    assert!(e.remove_food(Some(FOOD), 20, 2));
    reminder.self_food_remove(&e, 1000);
    assert!(reminder.poll_food(1000));
    assert!(reminder.poll_food(1000 + DEFAULT_DURATION));
    assert!(!reminder.poll_food(1001 + DEFAULT_DURATION));
    assert_eq!(reminder.food_trigger, None);
    assert!(!reminder.poll_food(1000));
}

#[test]
fn reminder_not_armed_outside_encounter() {
    let mut reminder = Reminder::new();
    let e = Entry::new(player(1, "A", "a.1234", 1, true));
    reminder.self_food_remove(&e, 1000);
    reminder.self_util_remove(&e, 1000);
    assert!(!reminder.poll_food(1000));
    assert!(!reminder.poll_util(1000));
}

#[test]
fn reminder_defaults() {
    let settings = ReminderSettings::new();
    assert_eq!(settings.duration, 5000);
    assert!(settings.only_bosses);
    assert!(settings.encounter_start);
    assert!(settings.encounter_end);
    assert!(settings.during_encounter);
    assert!(settings.always_mal_dim);
    let reminder = Reminder::new();
    assert_eq!(reminder.food_trigger, None);
    assert_eq!(reminder.util_trigger, None);
    assert_eq!(reminder.current_encounter(), None);
}

#[test]
fn check_trigger_expires() {
    let mut trigger = Some(100);
    assert!(Reminder::check_trigger(&mut trigger, 50, 150));
    assert_eq!(trigger, Some(100));
    assert!(Reminder::check_trigger(&mut trigger, 50, 20));
    assert!(!Reminder::check_trigger(&mut trigger, 50, 151));
    assert_eq!(trigger, None);
    let mut none: Option<u64> = None;
    assert!(!Reminder::check_trigger(&mut none, 50, 100));
}

#[test]
fn triggers_arm_at_given_time() {
    let mut reminder = Reminder::new();
    reminder.trigger_food(30);
    reminder.trigger_util(40);
    assert_eq!(reminder.food_trigger, Some(30));
    assert_eq!(reminder.util_trigger, Some(40));
    assert!(reminder.poll_util(40 + DEFAULT_DURATION));
    assert!(!reminder.poll_util(41 + DEFAULT_DURATION));
}

#[test]
fn debuffs_count_as_missing() {
    let mut reminder = Reminder::new();
    reminder.start_encounter(7, 0);
    reminder.self_food_apply(MALNOURISHED, 500);
    assert_eq!(reminder.food_trigger, Some(500));
    reminder.self_util_apply(DIMINISHED, 600);
    assert_eq!(reminder.util_trigger, Some(600));
    reminder.self_food_apply(FOOD, 700);
    assert_eq!(reminder.food_trigger, None);
    reminder.settings.always_mal_dim = false;
    reminder.self_util_apply(DIMINISHED, 800);
    assert_eq!(reminder.util_trigger, None);
}

#[test]
fn encounter_end_checks_local_player() {
    let mut reminder = Reminder::new();
    reminder.start_encounter(7, 0);
    let mut players = vec![
        Entry::new(player(2, "B", "b.1234", 1, false)),
        Entry::new(player(1, "A", "a.1234", 1, true)),
    ];
    assert!(players[1].apply_util(UTIL, 10, 1));
    reminder.end_encounter(&players, 900);
    assert_eq!(reminder.food_trigger, Some(900));
    assert_eq!(reminder.util_trigger, None);
    assert_eq!(reminder.encounter, None);
    players[1].unset_to_none(20, 2);
}

#[test]
fn encounter_end_without_encounter_only_bosses() {
    let mut reminder = Reminder::new();
    let players = vec![Entry::new(player(1, "A", "a.1234", 1, true))];
    reminder.end_encounter(&players, 900);
    assert_eq!(reminder.food_trigger, None);
    reminder.settings.only_bosses = false;
    reminder.end_encounter(&players, 900);
    assert_eq!(reminder.food_trigger, Some(900));
    assert_eq!(reminder.util_trigger, Some(900));
}

#[test]
fn pending_start_check_waits_for_later_event() {
    let mut reminder = Reminder::new();
    let players = vec![Entry::new(player(1, "A", "a.1234", 1, true))];
    reminder.start_encounter(7, 100);
    assert!(reminder.pending_check);
    reminder.update_pending_check(&players, 100, 5);
    assert_eq!(reminder.food_trigger, None);
    reminder.update_pending_check(&players, 101, 6);
    assert_eq!(reminder.food_trigger, Some(6));
    assert_eq!(reminder.util_trigger, Some(6));
    assert!(!reminder.pending_check);
    reminder.change_encounter(8);
    assert_eq!(reminder.current_encounter(), Some(8));
    assert_eq!(reminder.encounter.unwrap().started_at, 100);
}

#[test]
fn refresh_sort_if_other_key_keeps_order() {
    let mut tracker = Tracker::new(Sorting::Unsorted, false);
    tracker.add_player(player(3, "C", "c.1", 2, false));
    tracker.add_player(player(1, "A", "a.1", 3, false));
    tracker.add_player(player(2, "B", "b.1", 1, false));
    assert_eq!(ids(&tracker), vec![3, 1, 2]);
    tracker.sorting = Sorting::Sub;
    tracker.players[0].food.update(BuffState::Known(FOOD), 10, 1);
    tracker.refresh_sort_if(Sorting::Food);
    assert_eq!(ids(&tracker), vec![3, 1, 2]);
    tracker.refresh_sort_if(Sorting::Sub);
    assert_eq!(ids(&tracker), vec![2, 3, 1]);
}

#[test]
fn sort_by_name_and_reverse() {
    let mut tracker = Tracker::new(Sorting::Name, false);
    tracker.add_player(player(1, "Zed", "z.1", 1, false));
    tracker.add_player(player(2, "Amy", "a.1", 1, false));
    tracker.add_player(player(3, "Amelia", "m.1", 1, false));
    tracker.add_player(player(4, "Amy", "b.1", 1, false));
    assert_eq!(ids(&tracker), vec![3, 2, 4, 1]);
    tracker.reverse = true;
    tracker.refresh_sort();
    assert_eq!(ids(&tracker), vec![1, 4, 2, 3]);
}

#[test]
fn sort_by_food_state() {
    let mut tracker = Tracker::new(Sorting::Food, false);
    tracker.add_player(player(1, "A", "a.1", 1, false));
    tracker.add_player(player(2, "B", "b.1", 1, false));
    tracker.add_player(player(3, "C", "c.1", 1, false));
    tracker.players[0].food.update(BuffState::Known(FOOD), 10, 1);
    tracker.players[1].food.update(BuffState::Unknown(FOOD), 10, 1);
    tracker.players[2].food.update(BuffState::Absent, 10, 1);
    tracker.refresh_sort();
    assert_eq!(ids(&tracker), vec![3, 2, 1]);
    tracker.sorting = Sorting::Util;
    tracker.refresh_sort();
    assert_eq!(ids(&tracker), vec![1, 2, 3]);
}

#[test]
fn add_and_remove_players() {
    let mut tracker = Tracker::new(Sorting::Sub, false);
    assert!(tracker.add_player(player(1, "A", "a.1", 2, false)));
    assert!(!tracker.add_player(player(1, "Other", "o.1", 1, false)));
    assert_eq!(tracker.players.len(), 1);
    assert_eq!(tracker.players[0].player.character, "A");
    assert!(tracker.add_player(player(2, "B", "b.1", 1, false)));
    assert_eq!(ids(&tracker), vec![2, 1]);
    assert_eq!(tracker.find_index(1), Some(1));
    assert!(!tracker.remove_player(5));
    assert!(tracker.remove_player(2));
    assert_eq!(ids(&tracker), vec![1]);
    assert_eq!(tracker.find_index(2), None);
}

#[test]
fn state_change_codes() {
    assert_eq!(StateChange::from_code(0), StateChange::Normal);
    assert_eq!(StateChange::from_code(CODE_LOG_START), StateChange::LogStart);
    assert_eq!(StateChange::from_code(CODE_LOG_END), StateChange::LogEnd);
    assert_eq!(StateChange::from_code(CODE_BUFF_INITIAL), StateChange::BuffInitial);
    assert_eq!(StateChange::from_code(CODE_API_DELAYED), StateChange::ApiDelayed);
    assert_eq!(StateChange::from_code(CODE_LOG_NPC_UPDATE), StateChange::LogNPCUpdate);
    assert_eq!(StateChange::from_code(1), StateChange::Other);
}

#[test]
fn tracking_change_player() {
    let src = agent(Some("Char"), 42, 1, 0, 0, 0);
    let dst = agent(Some(":acc.1234"), 0, 4, 55, 1, 3);
    let p = Player::from_tracking_change(&src, &dst).unwrap();
    assert_eq!(p.id, 42);
    assert_eq!(p.character, "Char");
    assert_eq!(p.account, "acc.1234");
    assert_eq!(p.profession, 4);
    assert_eq!(p.elite, 55);
    assert_eq!(p.subgroup, 3);
    assert!(p.is_self);
    let plain = agent(Some("acc.5678"), 0, 4, 55, 0, 3);
    assert_eq!(Player::from_tracking_change(&src, &plain).unwrap().account, "acc.5678");
    assert!(Player::from_tracking_change(&agent(None, 42, 1, 0, 0, 0), &dst).is_none());
}

#[test]
fn roster_change_signals() {
    let mut plugin = Plugin::new();
    add(&mut plugin, 1, "A", ":a.1", 1, false);
    add(&mut plugin, 1, "A", ":a.1", 1, false);
    assert_eq!(plugin.tracker.players.len(), 1);
    plugin.area_event(None, Some(agent(Some("B"), 2, 1, 7, 0, 0)), None, BuffKind::Unknown, 0, 0);
    assert_eq!(plugin.tracker.players.len(), 1);
    plugin.area_event(None, Some(agent(None, 1, 0, 0, 0, 0)), None, BuffKind::Unknown, 0, 0);
    assert_eq!(plugin.tracker.players.len(), 0);
    plugin.area_event(None, None, None, BuffKind::Unknown, 0, 0);
    assert_eq!(plugin.tracker.players.len(), 0);
}

#[test]
fn log_start_resets_unset_slots() {
    let mut plugin = Plugin::new();
    add(&mut plugin, 1, "A", ":a.1", 1, false);
    add(&mut plugin, 2, "B", ":b.1", 1, false);
    plugin.area_event(
        Some(buff_event(10, FOOD, 0)),
        Some(agent(None, 9, 0, 0, 0, 0)),
        Some(agent(None, 2, 0, 0, 0, 0)),
        BuffKind::Food(true),
        1,
        0,
    );
    plugin.area_event(
        Some(marker(CODE_LOG_START, 50, 77)),
        Some(agent(None, 77, 0, 0, 0, 0)),
        None,
        BuffKind::Unknown,
        2,
        0,
    );
    let a = &plugin.tracker.players[plugin.tracker.find_index(1).unwrap()];
    let b = &plugin.tracker.players[plugin.tracker.find_index(2).unwrap()];
    assert_eq!(a.food.state, BuffState::Absent);
    assert_eq!(a.util.state, BuffState::Absent);
    assert_eq!(b.food.state, BuffState::Known(FOOD));
    assert_eq!(b.util.state, BuffState::Absent);
    assert_eq!(plugin.reminder.current_encounter(), Some(77));
    assert_eq!(plugin.reminder.encounter.unwrap().started_at, 50);
}

#[test]
fn encounter_retarget_and_end() {
    let mut plugin = Plugin::new();
    let src = Some(agent(None, 77, 0, 0, 0, 0));
    plugin.area_event(Some(marker(CODE_LOG_START, 50, 77)), src.clone(), None, BuffKind::Unknown, 1, 0);
    plugin.area_event(Some(marker(CODE_LOG_NPC_UPDATE, 60, 78)), src.clone(), None, BuffKind::Unknown, 2, 0);
    assert_eq!(plugin.reminder.current_encounter(), Some(78));
    assert_eq!(plugin.reminder.encounter.unwrap().started_at, 50);
    plugin.area_event(Some(marker(CODE_LOG_END, 70, 78)), src, None, BuffKind::Unknown, 3, 0);
    assert_eq!(plugin.reminder.current_encounter(), None);
}

#[test]
fn non_buff_events_are_ignored() {
    let mut plugin = Plugin::new();
    add(&mut plugin, 1, "A", ":a.1", 1, false);
    let dst = Some(agent(None, 1, 0, 0, 0, 0));
    let src = Some(agent(None, 9, 0, 0, 0, 0));
    let mut damage = buff_event(10, FOOD, 0);
    damage.buff_dmg = 100;
    plugin.area_event(Some(damage), src.clone(), dst.clone(), BuffKind::Food(true), 1, 0);
    let mut direct = buff_event(10, FOOD, 0);
    direct.buff = 0;
    plugin.area_event(Some(direct), src.clone(), dst.clone(), BuffKind::Food(true), 2, 0);
    plugin.area_event(Some(buff_event(10, FOOD, 0)), src.clone(), dst.clone(), BuffKind::Ignore, 3, 0);
    plugin.area_event(Some(buff_event(10, FOOD, 0)), src.clone(), dst.clone(), BuffKind::Unknown, 4, 0);
    plugin.area_event(Some(buff_event(10, FOOD, 0)), src, None, BuffKind::Food(true), 5, 0);
    assert_eq!(plugin.tracker.players[0].food.state, BuffState::Unset);
}

#[test]
fn utility_apply_and_unknown_food() {
    let mut plugin = Plugin::new();
    add(&mut plugin, 1, "A", ":a.1", 1, false);
    let dst = Some(agent(None, 1, 0, 0, 0, 0));
    let src = Some(agent(None, 9, 0, 0, 0, 0));
    plugin.area_event(Some(buff_event(10, UTIL, 0)), src.clone(), dst.clone(), BuffKind::Util(true), 1, 0);
    plugin.area_event(Some(buff_event(10, OTHER_FOOD, 0)), src, dst, BuffKind::Food(false), 2, 0);
    assert_eq!(plugin.tracker.players[0].util.state, BuffState::Known(UTIL));
    assert_eq!(plugin.tracker.players[0].food.state, BuffState::Unknown(OTHER_FOOD));
    let remove_src = Some(agent(None, 1, 0, 0, 0, 0));
    plugin.area_event(Some(buff_event(20, OTHER_FOOD, 1)), remove_src, None, BuffKind::Food(false), 3, 0);
    assert_eq!(plugin.tracker.players[0].food.state, BuffState::Absent);
}

#[test]
fn squad_update_moves_subgroups() {
    let mut plugin = Plugin::new();
    add(&mut plugin, 1, "A", ":a.1", 1, false);
    add(&mut plugin, 2, "B", ":b.1", 2, false);
    assert_eq!(ids(&plugin.tracker), vec![1, 2]);
    plugin.extras_squad_update(vec![
        SquadMember { account_name: Some("a.1".to_string()), role: UserRole::Member, subgroup: 4 },
        SquadMember { account_name: Some("b.1".to_string()), role: UserRole::Invited, subgroup: 0 },
        SquadMember { account_name: None, role: UserRole::Member, subgroup: 0 },
    ]);
    assert_eq!(ids(&plugin.tracker), vec![2, 1]);
    let a = &plugin.tracker.players[1];
    assert_eq!(a.player.subgroup, 5);
    assert_eq!(plugin.tracker.players[0].player.subgroup, 2);
}

#[test]
fn extras_init_records_compatibility() {
    let mut plugin = Plugin::new();
    assert_eq!(plugin.extras, ExtrasState::Missing);
    plugin.extras_init(true);
    assert_eq!(plugin.extras, ExtrasState::Found);
    plugin.extras_init(false);
    assert_eq!(plugin.extras, ExtrasState::Incompatible);
}

#[test]
fn end_to_end_food_cycle() {
    let mut plugin = Plugin::new();
    plugin.reminder.settings.only_bosses = false;
    plugin.reminder.settings.during_encounter = true;
    plugin.tracker.sorting = Sorting::Food;
    add(&mut plugin, 2, "B", ":b.1", 1, false);
    add(&mut plugin, 1, "A", ":a.1", 1, true);
    assert_eq!(ids(&plugin.tracker), vec![1, 2]);
    plugin.reminder.encounter = Some(Encounter { target_id: 77, started_at: 0 });

    let a = plugin.tracker.find_index(1).unwrap();
    assert_eq!(plugin.tracker.players[a].food.state, BuffState::Unset);

    plugin.area_event(
        Some(buff_event(100, FOOD, 0)),
        Some(agent(None, 9, 0, 0, 0, 0)),
        Some(agent(None, 1, 0, 0, 0, 0)),
        BuffKind::Food(true),
        1,
        1000,
    );
    assert_eq!(ids(&plugin.tracker), vec![2, 1]);
    let a = plugin.tracker.find_index(1).unwrap();
    assert_eq!(plugin.tracker.players[a].food.state, BuffState::Known(FOOD));
    assert_eq!(plugin.reminder.food_trigger, None);

    plugin.area_event(
        Some(buff_event(200, FOOD, 1)),
        Some(agent(None, 1, 0, 0, 0, 0)),
        None,
        BuffKind::Food(true),
        2,
        2000,
    );
    let a = plugin.tracker.find_index(1).unwrap();
    assert_eq!(plugin.tracker.players[a].food.state, BuffState::Absent);
    assert_eq!(ids(&plugin.tracker), vec![2, 1]);
    assert_eq!(plugin.reminder.food_trigger, Some(2000));
    assert_eq!(plugin.reminder.util_trigger, None);
    assert!(plugin.reminder.poll_food(2000));
    assert!(plugin.reminder.poll_food(2000 + DEFAULT_DURATION));
    assert!(!plugin.reminder.poll_food(2001 + DEFAULT_DURATION));
}

#[test]
fn debug_log_appends_and_clears() {
    let mut log = DebugLog::new();
    assert!(log.active);
    assert_eq!(log.size, 1);
    log.log("first\n");
    log.log("second\n");
    assert_eq!(log.contents, "first\nsecond\n");
    assert_eq!(log.size, 14);
    log.clear();
    assert_eq!(log.contents, "");
    assert_eq!(log.size, 1);
    log.active = false;
    log.log("ignored\n");
    assert_eq!(log.contents, "");
}

#[test]
fn debug_log_clears_on_overflow() {
    let mut log = DebugLog::new();
    log.log("old\n");
    log.size = usize::MAX - 1;
    log.log("new\n");
    assert_eq!(log.contents, "new\n");
    assert_eq!(log.size, 1);
}
