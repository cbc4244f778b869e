use vstd::prelude::*;

use crate::identifiers::UserId;

verus! {

/// The membership of a user in a room.
#[derive(Clone, Copy, Debug, PartialEq, Eq, Structural)]
pub enum MembershipState {
    Ban,
    Invite,
    Join,
    Knock,
    Leave,
}

/// How a user's membership changed between two observations.
#[derive(Clone, Copy, Debug, PartialEq, Eq, Structural)]
pub enum MembershipChange {
    Unchanged,
    Joined,
    Invited,
    Left,
    Kicked,
    Banned,
    KickedAndBanned,
    Unbanned,
    InvitationRejected,
    InvitationRevoked,
    ProfileChanged,
    NotImplemented,
    Error,
}

/// The transition table: `same_actor` holds when the acting user is the
/// affected user.
pub open spec fn transition(
    previous: MembershipState,
    next: MembershipState,
    same_actor: bool,
) -> MembershipChange {
    match (previous, next) {
        (MembershipState::Knock, _) | (_, MembershipState::Knock) => MembershipChange::NotImplemented,
        (MembershipState::Invite, MembershipState::Invite)
        | (MembershipState::Leave, MembershipState::Leave)
        | (MembershipState::Ban, MembershipState::Ban) => MembershipChange::Unchanged,
        (MembershipState::Invite, MembershipState::Join)
        | (MembershipState::Leave, MembershipState::Join) => MembershipChange::Joined,
        (MembershipState::Invite, MembershipState::Leave) => if same_actor {
            MembershipChange::InvitationRevoked
        } else {
            MembershipChange::InvitationRejected
        },
        (MembershipState::Invite, MembershipState::Ban)
        | (MembershipState::Leave, MembershipState::Ban) => MembershipChange::Banned,
        (MembershipState::Join, MembershipState::Invite)
        | (MembershipState::Ban, MembershipState::Invite)
        | (MembershipState::Ban, MembershipState::Join) => MembershipChange::Error,
        (MembershipState::Join, MembershipState::Join) => MembershipChange::ProfileChanged,
        (MembershipState::Join, MembershipState::Leave) => if same_actor {
            MembershipChange::Left
        } else {
            MembershipChange::Kicked
        },
        (MembershipState::Join, MembershipState::Ban) => MembershipChange::KickedAndBanned,
        (MembershipState::Leave, MembershipState::Invite) => MembershipChange::Invited,
        (MembershipState::Ban, MembershipState::Leave) => MembershipChange::Unbanned,
    }
}

/// Classifies the change from `previous` to `next`.
pub fn resolve_transition(
    previous: MembershipState,
    next: MembershipState,
    same_actor: bool,
) -> (r: MembershipChange)
    ensures
        r == transition(previous, next, same_actor),
{
    match (previous, next) {
        (MembershipState::Knock, _) | (_, MembershipState::Knock) => MembershipChange::NotImplemented,
        (MembershipState::Invite, MembershipState::Invite)
        | (MembershipState::Leave, MembershipState::Leave)
        | (MembershipState::Ban, MembershipState::Ban) => MembershipChange::Unchanged,
        (MembershipState::Invite, MembershipState::Join)
        | (MembershipState::Leave, MembershipState::Join) => MembershipChange::Joined,
        (MembershipState::Invite, MembershipState::Leave) => if same_actor {
            MembershipChange::InvitationRevoked
        } else {
            MembershipChange::InvitationRejected
        },
        (MembershipState::Invite, MembershipState::Ban)
        | (MembershipState::Leave, MembershipState::Ban) => MembershipChange::Banned,
        (MembershipState::Join, MembershipState::Invite)
        | (MembershipState::Ban, MembershipState::Invite)
        | (MembershipState::Ban, MembershipState::Join) => MembershipChange::Error,
        (MembershipState::Join, MembershipState::Join) => MembershipChange::ProfileChanged,
        (MembershipState::Join, MembershipState::Leave) => if same_actor {
            MembershipChange::Left
        } else {
            MembershipChange::Kicked
        },
        (MembershipState::Join, MembershipState::Ban) => MembershipChange::KickedAndBanned,
        (MembershipState::Leave, MembershipState::Invite) => MembershipChange::Invited,
        (MembershipState::Ban, MembershipState::Leave) => MembershipChange::Unbanned,
    }
}

/// A member event of an invite preview: it carries no previous membership.
pub struct StrippedRoomMember {
    pub sender: UserId,
    pub state_key: UserId,
    pub membership: MembershipState,
}

/// Classifies a stripped member event, taking `Leave` as the previous
/// membership since an invite preview carries no history.
pub fn membership_change(member: &StrippedRoomMember) -> (r: MembershipChange)
    ensures
        r == transition(
            MembershipState::Leave,
            member.membership,
            member.sender@ == member.state_key@,
        ),
{
    let same_actor = member.sender.same_as(&member.state_key);
    resolve_transition(MembershipState::Leave, member.membership, same_actor)
}

/// The resolver is total and the table has no other entries: whatever the
/// actor, a change that involves a knock is not implemented, and a change
/// to the same state (other than join) is no change.
pub proof fn lemma_transition_table(
    previous: MembershipState,
    next: MembershipState,
    same_actor: bool,
)
    ensures
        (previous == MembershipState::Knock || next == MembershipState::Knock) ==> transition(
            previous,
            next,
            same_actor,
        ) == MembershipChange::NotImplemented,
        (previous == next && previous != MembershipState::Join && previous
            != MembershipState::Knock) ==> transition(previous, next, same_actor)
            == MembershipChange::Unchanged,
        transition(previous, next, same_actor) != transition(previous, next, !same_actor) ==> (
        next == MembershipState::Leave && (previous == MembershipState::Invite || previous
            == MembershipState::Join)),
{
}

} // verus!
