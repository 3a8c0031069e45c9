use crate::entry::Player;
use vstd::prelude::*;
use vstd::string::StrSliceExecFns;

verus! {

/// An agent as reported alongside a combat event.
#[derive(Debug, Clone)]
pub struct Agent {
    pub name: Option<String>,
    pub id: usize,
    pub prof: u32,
    pub elite: u32,
    pub self_: u32,
    pub team: u16,
}

/// The fields of a combat event that buff tracking reads.
#[derive(Debug, Clone, Copy, PartialEq, Eq, Structural)]
pub struct CombatEvent {
    pub time: u64,
    pub src_agent: usize,
    pub buff_dmg: i32,
    pub skill_id: u32,
    pub buff: u8,
    pub is_buff_remove: u8,
    pub is_statechange: u8,
}

/// Kinds of state change markers that buff tracking tells apart.
#[derive(Debug, Clone, Copy, PartialEq, Eq, Structural)]
pub enum StateChange {
    /// Not a state change: an ordinary combat event.
    Normal,
    LogStart,
    LogEnd,
    BuffInitial,
    ApiDelayed,
    LogNPCUpdate,
    /// Any other state change.
    Other,
}

/// Wire code of the log start marker.
pub const CODE_LOG_START: u8 = 9;

/// Wire code of the log end marker.
pub const CODE_LOG_END: u8 = 10;

/// Wire code of the initial buff marker.
pub const CODE_BUFF_INITIAL: u8 = 18;

/// Wire code of the delayed api marker.
pub const CODE_API_DELAYED: u8 = 41;

/// Wire code of the log target change marker.
pub const CODE_LOG_NPC_UPDATE: u8 = 47;

/// The state change that a wire code stands for.
pub open spec fn state_change_of(code: u8) -> StateChange {
    if code == 0 {
        StateChange::Normal
    } else if code == CODE_LOG_START {
        StateChange::LogStart
    } else if code == CODE_LOG_END {
        StateChange::LogEnd
    } else if code == CODE_BUFF_INITIAL {
        StateChange::BuffInitial
    } else if code == CODE_API_DELAYED {
        StateChange::ApiDelayed
    } else if code == CODE_LOG_NPC_UPDATE {
        StateChange::LogNPCUpdate
    } else {
        StateChange::Other
    }
}

impl StateChange {
    /// Decodes a state change from its wire code.
    pub fn from_code(code: u8) -> (r: StateChange)
        ensures
            r == state_change_of(code),
    {
        if code == 0 {
            StateChange::Normal
        } else if code == CODE_LOG_START {
            StateChange::LogStart
        } else if code == CODE_LOG_END {
            StateChange::LogEnd
        } else if code == CODE_BUFF_INITIAL {
            StateChange::BuffInitial
        } else if code == CODE_API_DELAYED {
            StateChange::ApiDelayed
        } else if code == CODE_LOG_NPC_UPDATE {
            StateChange::LogNPCUpdate
        } else {
            StateChange::Other
        }
    }
}

/// Category of a buff, as the buff definitions classify it. `true` in `Food`
/// and `Util` means that a definition was found for the buff id.
#[derive(Debug, Clone, Copy, PartialEq, Eq, Structural)]
pub enum BuffKind {
    Food(bool),
    Util(bool),
    /// A buff that is never tracked.
    Ignore,
    /// A buff that is neither food nor utility.
    Unknown,
}

/// Role of a member in the squad.
#[derive(Debug, Clone, Copy, PartialEq, Eq, Structural)]
pub enum UserRole {
    SquadLeader,
    Lieutenant,
    Member,
    Invited,
    Applied,
    /// The user left the squad.
    Removed,
    Invalid,
}

/// A squad member as reported by the squad data source.
#[derive(Debug, Clone)]
pub struct SquadMember {
    /// Account name, without leading colon.
    pub account_name: Option<String>,
    pub role: UserRole,
    /// Zero-based subgroup.
    pub subgroup: u8,
}

/// An account name without its leading colon, if it has one.
pub open spec fn account_of(name: Seq<char>) -> Seq<char> {
    if name.len() > 0 && name[0] == ':' {
        name.drop_first()
    } else {
        name
    }
}

/// Whether `p` is the player that a tracking change adds: the source agent
/// names the character and gives the agent id, the destination names the
/// account and gives profession, specialization, subgroup and whether it is
/// the local player.
pub open spec fn tracked_from(p: Player, src: Agent, dst: Agent) -> bool {
    &&& src.name matches Some(c) && p.character@ == c@
    &&& dst.name matches Some(a) && p.account@ == account_of(a@)
    &&& p.id == src.id
    &&& p.profession == dst.prof
    &&& p.elite == dst.elite
    &&& p.subgroup == dst.team as usize
    &&& p.is_self == (dst.self_ != 0)
}

fn strip_colon(name: &String) -> (r: String)
    ensures
        r@ == account_of(name@),
{
    let s = name.as_str();
    let len = s.unicode_len();
    if len > 0 && s.get_char(0) == ':' {
        let rest = s.substring_char(1, len);
        proof {
            assert(rest@ =~= name@.drop_first());
        }
        rest.to_owned()
    } else {
        s.to_owned()
    }
}

impl Player {
    /// Creates a player from the agents of a tracking change. Returns `None`
    /// if a name is missing.
    pub fn from_tracking_change(src: &Agent, dst: &Agent) -> (r: Option<Player>)
        ensures
            r is Some <==> (src.name is Some && dst.name is Some),
            r matches Some(p) ==> tracked_from(p, *src, *dst),
    {
        match (&src.name, &dst.name) {
            (Some(c), Some(a)) => Some(
                Player {
                    id: src.id,
                    character: c.clone(),
                    account: strip_colon(a),
                    profession: dst.prof,
                    elite: dst.elite,
                    subgroup: dst.team as usize,
                    is_self: dst.self_ != 0,
                },
            ),
            _ => None,
        }
    }
}

} // verus!
