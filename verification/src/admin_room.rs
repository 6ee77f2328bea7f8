//! Finding the private room in which the primary identity talks to one user,
//! or deciding that a new one has to be made.
use vstd::prelude::*;
use vstd::string::*;
use crate::text::{matches_range, to_chars};

verus! {

/// Largest membership of a room that can serve: the primary identity and its
/// counterparty.
pub const MAX_MEMBERS: usize = 2;

/// One room that the primary identity has joined, as far as resolution
/// reads it.
#[derive(Debug, Clone, PartialEq, Eq)]
pub struct AdminRoomCandidate {
    pub room_id: String,
    /// Whether anyone may join.
    pub is_public: bool,
    /// The joined members; `None` where they could not be fetched.
    pub member_user_ids: Option<Vec<String>>,
}

/// How a new room is set up.
#[derive(Debug, Clone, Copy, PartialEq, Eq, Structural)]
pub enum RoomPreset {
    PrivateChat,
}

/// What resolution decides.
#[derive(Debug, Clone, PartialEq, Eq)]
pub enum AdminRoomPlan {
    /// Use the joined room of this id.
    Use { room_id: String },
    /// Create a room with these invites and this preset.
    Create { invite: Vec<String>, preset: RoomPreset },
}

/// Whether `user` is among `members`.
pub open spec fn has_member(members: Seq<String>, user: Seq<char>) -> bool {
    exists|i: int| 0 <= i < members.len() && (#[trigger] members[i])@ == user
}

/// Whether a room can serve as the admin room for `counterparty`: it is
/// private, its members are known and at most two, and `counterparty` is one
/// of them.
pub open spec fn qualifies(room: AdminRoomCandidate, counterparty: Seq<char>) -> bool {
    &&& !room.is_public
    &&& room.member_user_ids is Some
    &&& room.member_user_ids.unwrap()@.len() <= MAX_MEMBERS
    &&& has_member(room.member_user_ids.unwrap()@, counterparty)
}

/// Whether room `i` is the first of `rooms` that qualifies.
pub open spec fn is_first_match(
    rooms: Seq<AdminRoomCandidate>,
    counterparty: Seq<char>,
    i: int,
) -> bool {
    &&& 0 <= i < rooms.len()
    &&& qualifies(rooms[i], counterparty)
    &&& forall|j: int| 0 <= j < i ==> !qualifies(#[trigger] rooms[j], counterparty)
}

/// Whether no room of `rooms` qualifies.
pub open spec fn no_match(rooms: Seq<AdminRoomCandidate>, counterparty: Seq<char>) -> bool {
    forall|j: int| 0 <= j < rooms.len() ==> !qualifies(#[trigger] rooms[j], counterparty)
}

/// Whether `plan` is the decision for `rooms` and `counterparty`: the id of
/// the first room that qualifies, or, where none does, a new private room
/// with `counterparty` as its one invite.
pub open spec fn plan_fits(
    plan: AdminRoomPlan,
    rooms: Seq<AdminRoomCandidate>,
    counterparty: Seq<char>,
) -> bool {
    match plan {
        AdminRoomPlan::Use { room_id } => exists|i: int|
            is_first_match(rooms, counterparty, i) && room_id@ == (#[trigger] rooms[i]).room_id@,
        AdminRoomPlan::Create { invite, preset } => {
            &&& no_match(rooms, counterparty)
            &&& invite@.len() == 1
            &&& invite@[0]@ == counterparty
            &&& preset == RoomPreset::PrivateChat
        },
    }
}

/// Whether `user` is one of `members`.
fn contains_user(members: &Vec<String>, user: &Vec<char>) -> (found: bool)
    ensures
        found == has_member(members@, user@),
{
    let mut i: usize = 0;
    while i < members.len()
        invariant
            i <= members.len(),
            forall|k: int| 0 <= k < i ==> (#[trigger] members@[k])@ != user@,
        decreases members.len() - i,
    {
        assert(user@.subrange(0, user@.len() as int) =~= user@);
        if matches_range(members[i].as_str(), user, 0, user.len()) {
            return true;
        }
        i += 1;
    }
    false
}

impl AdminRoomCandidate {
    /// Number of joined members, where they are known.
    pub fn member_count(&self) -> (count: Option<usize>)
        ensures
            match count {
                Some(n) => self.member_user_ids is Some && n == self.member_user_ids.unwrap()@.len(),
                None => self.member_user_ids is None,
            },
    {
        match &self.member_user_ids {
            Some(members) => Some(members.len()),
            None => None,
        }
    }

    /// Whether this room can serve as the admin room for `counterparty`. A
    /// public room cannot, nor one whose members could not be fetched, nor one
    /// with more than two members, nor one without `counterparty`.
    pub fn is_admin_room(&self, counterparty: &str) -> (fits: bool)
        ensures
            fits == qualifies(*self, counterparty@),
    {
        if self.is_public {
            return false;
        }
        match &self.member_user_ids {
            None => false,
            Some(members) => {
                if members.len() > MAX_MEMBERS {
                    false
                } else {
                    let user = to_chars(counterparty);
                    contains_user(members, &user)
                }
            },
        }
    }
}

/// Decides on the admin room for `counterparty` among the joined rooms, taken
/// in the order given: the first private room of at most two known members
/// that holds `counterparty`; where there is none, a new private room to which
/// `counterparty` alone is invited.
pub fn resolve_admin_room(rooms: &Vec<AdminRoomCandidate>, counterparty: &str) -> (plan:
    AdminRoomPlan)
    ensures
        plan_fits(plan, rooms@, counterparty@),
{
    let mut i: usize = 0;
    while i < rooms.len()
        invariant
            i <= rooms.len(),
            forall|j: int| 0 <= j < i ==> !qualifies(#[trigger] rooms@[j], counterparty@),
        decreases rooms.len() - i,
    {
        if rooms[i].is_admin_room(counterparty) {
            assert(is_first_match(rooms@, counterparty@, i as int));
            return AdminRoomPlan::Use { room_id: rooms[i].room_id.clone() };
        }
        i += 1;
    }
    let mut invite: Vec<String> = Vec::new();
    invite.push(counterparty.to_owned());
    AdminRoomPlan::Create { invite, preset: RoomPreset::PrivateChat }
}

/// Where exactly one joined room qualifies, that room is the one used: no
/// plan that fits creates a room or names another.
pub proof fn lemma_single_match_is_used(
    rooms: Seq<AdminRoomCandidate>,
    counterparty: Seq<char>,
    k: int,
    plan: AdminRoomPlan,
)
    requires
        0 <= k < rooms.len(),
        qualifies(rooms[k], counterparty),
        forall|j: int| 0 <= j < rooms.len() && j != k ==> !qualifies(#[trigger] rooms[j], counterparty),
        plan_fits(plan, rooms, counterparty),
    ensures
        plan is Use,
        plan->room_id@ == rooms[k].room_id@,
        is_first_match(rooms, counterparty, k),
{
}

/// Where no joined room qualifies, a room is created, private and with the
/// counterparty as its only invite.
pub proof fn lemma_no_match_creates(
    rooms: Seq<AdminRoomCandidate>,
    counterparty: Seq<char>,
    plan: AdminRoomPlan,
)
    requires
        no_match(rooms, counterparty),
        plan_fits(plan, rooms, counterparty),
    ensures
        plan is Create,
        plan->invite@.len() == 1,
        plan->invite@[0]@ == counterparty,
        plan->preset == RoomPreset::PrivateChat,
{
}

} // verus!
