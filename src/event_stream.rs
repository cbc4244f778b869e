use vstd::prelude::*;

use crate::identifiers::{RoomMember, UserId};
use crate::membership::{transition, MembershipChange, MembershipState, StrippedRoomMember};
use crate::typing::{typing_notice, typing_names_of, typing_summary_of};
use crate::uuid_ids::{dedupe_id, dedupe_id_fits};

verus! {

/// What the client knows of a room when a notification about it arrives.
pub struct Room {
    pub room_id: String,
    pub display_name: String,
    pub members: Vec<RoomMember>,
}

/// The local user's relation to the room a notification is about.
pub enum RoomState {
    Joined(Room),
    Invited(Room),
    Left(Room),
}

/// A member event of the room timeline; the engine has already classified
/// the change against the member's previous state.
pub struct MemberEvent {
    pub sender: UserId,
    pub state_key: UserId,
    pub membership: MembershipState,
    pub change: MembershipChange,
}

/// The content of a room message.
pub enum MessageContent {
    /// Plain text; `rendered` holds the text already rendered from the
    /// formatted body, where the message has one.
    Text { body: String, rendered: Option<String> },
    /// Any other kind of message (notice, emote, image, ...); `body` is its
    /// plain-text fallback.
    Other { body: String },
}

pub struct MessageEvent {
    pub sender: UserId,
    pub event_id: String,
    pub origin_server_ts: u64,
    pub transaction_id: Option<String>,
    pub content: MessageContent,
}

/// A notification of the sync engine.
pub enum Notification {
    RoomMember(MemberEvent),
    RoomName,
    RoomMessage(MessageEvent),
    StrippedMember(StrippedRoomMember),
    FullyRead { event_id: String },
    Typing { user_ids: Vec<UserId> },
    RoomCanonicalAlias,
    RoomAliases,
    RoomAvatar,
    RoomMessageFeedback,
    RoomRedaction,
    RoomPowerLevels,
    RoomTombstone,
    StateMember,
    StateName,
    StateCanonicalAlias,
    StateAliases,
    StateAvatar,
    StatePowerLevels,
    StateJoinRules,
    StrippedName,
    StrippedCanonicalAlias,
    StrippedAliases,
    StrippedAvatar,
    StrippedPowerLevels,
    StrippedJoinRules,
    AccountPresence,
    AccountIgnoredUsers,
    AccountPushRules,
    Presence,
}

/// A message as the user interface shows it.
#[derive(Debug)]
pub struct Message {
    pub name: String,
    pub user: UserId,
    pub text: String,
    pub event_id: String,
    pub timestamp: u64,
    pub uuid: u128,
    pub read: bool,
    pub sent_receipt: bool,
}

/// The events handed to the user interface.
#[derive(Debug)]
pub enum StateResult {
    Member {
        sender: UserId,
        receiver: UserId,
        room_id: String,
        membership: MembershipChange,
        timeline_event: bool,
        member: MembershipState,
    },
    Message(Message, String),
    Name(String, String),
    FullyRead(String, String),
    Typing(String),
    Failure,
}

/// The name a sender goes by: its roster name where the roster lists it (the
/// first entry that does), else the local part of its id.
pub open spec fn sender_name(roster: Seq<RoomMember>, sender: UserId) -> Seq<char>
    decreases roster.len(),
{
    if roster.len() == 0 {
        sender.localpart@
    } else if roster[0].user_id@ == sender@ {
        roster[0].name@
    } else {
        sender_name(roster.drop_first(), sender)
    }
}

/// The text a text message shows: the rendered form where there is one.
pub open spec fn shown_text(body: String, rendered: Option<String>) -> String {
    match rendered {
        Some(t) => t,
        None => body,
    }
}

/// Whether `r` is the message event for `e` in room `rm`, showing `text`.
pub open spec fn message_fits(rm: Room, e: MessageEvent, text: String, r: Option<StateResult>) -> bool {
    match r {
        Some(StateResult::Message(m, room_id)) => room_id == rm.room_id && m.name@ == sender_name(
            rm.members@,
            e.sender,
        ) && m.user == e.sender && m.text == text && m.event_id == e.event_id && m.timestamp
            == e.origin_server_ts && dedupe_id_fits(e.transaction_id, m.uuid) && !m.read
            && !m.sent_receipt,
        _ => false,
    }
}

/// Whether `r` is the translation of notification `n` about `room`: nothing
/// unless the room is joined, nothing for the categories that are not
/// translated, else the one event that the notification gives. Messages
/// that are not text give an event only where `forward_other` holds.
pub open spec fn translates(
    room: RoomState,
    n: Notification,
    forward_other: bool,
    r: Option<StateResult>,
) -> bool {
    match room {
        RoomState::Joined(rm) => match n {
            Notification::RoomMember(e) => r == Some(
                StateResult::Member {
                    sender: e.sender,
                    receiver: e.state_key,
                    room_id: rm.room_id,
                    membership: e.change,
                    timeline_event: true,
                    member: e.membership,
                },
            ),
            Notification::StrippedMember(e) => r == Some(
                StateResult::Member {
                    sender: e.sender,
                    receiver: e.state_key,
                    room_id: rm.room_id,
                    membership: transition(
                        MembershipState::Leave,
                        e.membership,
                        e.sender@ == e.state_key@,
                    ),
                    timeline_event: false,
                    member: e.membership,
                },
            ),
            Notification::RoomName => r == Some(StateResult::Name(rm.display_name, rm.room_id)),
            Notification::RoomMessage(e) => match e.content {
                MessageContent::Text { body, rendered } => message_fits(
                    rm,
                    e,
                    shown_text(body, rendered),
                    r,
                ),
                MessageContent::Other { body } => if forward_other {
                    message_fits(rm, e, body, r)
                } else {
                    r is None
                },
            },
            Notification::FullyRead { event_id } => r == Some(
                StateResult::FullyRead(event_id, rm.room_id),
            ),
            Notification::Typing { user_ids } => match r {
                Some(StateResult::Typing(s)) => s@ == typing_summary_of(
                    typing_names_of(rm.members@, user_ids@),
                ),
                _ => false,
            },
            _ => r is None,
        },
        _ => r is None,
    }
}

/// A stripped member notification in a joined room always gives a member
/// change classified from a previous membership of `Leave`, and marked as
/// not coming from the timeline, whatever else the room holds.
pub proof fn lemma_stripped_member_from_leave(
    rm: Room,
    forward_other: bool,
    e: StrippedRoomMember,
    r: Option<StateResult>,
)
    requires
        translates(RoomState::Joined(rm), Notification::StrippedMember(e), forward_other, r),
    ensures
        match r {
            Some(StateResult::Member { membership, timeline_event, member, .. }) => membership
                == transition(MembershipState::Leave, member, e.sender@ == e.state_key@)
                && member == e.membership && !timeline_event,
            _ => false,
        },
{
}

/// The display name of `sender` in a roster.
pub fn display_name(roster: &Vec<RoomMember>, sender: &UserId) -> (r: String)
    ensures
        r@ == sender_name(roster@, *sender),
{
    let mut i: usize = 0;
    assert(roster@.subrange(0, roster.len() as int) =~= roster@);
    while i < roster.len()
        invariant
            i <= roster.len(),
            sender_name(roster@, *sender) == sender_name(
                roster@.subrange(i as int, roster.len() as int),
                *sender,
            ),
        decreases roster.len() - i,
    {
        let ghost rest = roster@.subrange(i as int, roster.len() as int);
        assert(rest.drop_first() =~= roster@.subrange(i + 1, roster.len() as int));
        if roster[i].user_id.same_as(sender) {
            return roster[i].name.clone();
        }
        i = i + 1;
    }
    assert(roster@.subrange(i as int, roster.len() as int) =~= Seq::<RoomMember>::empty());
    String::from_str(sender.localpart())
}

fn message_event(rm: &Room, e: &MessageEvent, text: String) -> (r: Option<StateResult>)
    ensures
        message_fits(*rm, *e, text, r),
{
    let name = display_name(&rm.members, &e.sender);
    let uuid = dedupe_id(&e.transaction_id);
    let m = Message {
        name,
        user: e.sender.duplicate(),
        text,
        event_id: e.event_id.clone(),
        timestamp: e.origin_server_ts,
        uuid,
        read: false,
        sent_receipt: false,
    };
    Some(StateResult::Message(m, rm.room_id.clone()))
}

fn translate_message(rm: &Room, e: &MessageEvent, forward_other: bool) -> (r: Option<
    StateResult,
>)
    ensures
        translates(RoomState::Joined(*rm), Notification::RoomMessage(*e), forward_other, r),
{
    match &e.content {
        MessageContent::Text { body, rendered } => {
            let text = match rendered {
                Some(t) => t.clone(),
                None => body.clone(),
            };
            message_event(rm, e, text)
        },
        MessageContent::Other { body } => {
            if forward_other {
                message_event(rm, e, body.clone())
            } else {
                None
            }
        },
    }
}

/// Translates one notification into the event it gives the user interface,
/// if any; `forward_other` says whether messages that are not text are
/// forwarded (with their plain-text fallback) or dropped.
pub fn translate(room: &RoomState, n: &Notification, forward_other: bool) -> (r: Option<
    StateResult,
>)
    ensures
        translates(*room, *n, forward_other, r),
{
    let rm = match room {
        RoomState::Joined(rm) => rm,
        _ => return None,
    };
    match n {
        Notification::RoomMember(e) => Some(
            StateResult::Member {
                sender: e.sender.duplicate(),
                receiver: e.state_key.duplicate(),
                room_id: rm.room_id.clone(),
                membership: e.change,
                timeline_event: true,
                member: e.membership,
            },
        ),
        Notification::StrippedMember(e) => Some(
            StateResult::Member {
                sender: e.sender.duplicate(),
                receiver: e.state_key.duplicate(),
                room_id: rm.room_id.clone(),
                membership: crate::membership::membership_change(e),
                timeline_event: false,
                member: e.membership,
            },
        ),
        Notification::RoomName => Some(
            StateResult::Name(rm.display_name.clone(), rm.room_id.clone()),
        ),
        Notification::RoomMessage(e) => translate_message(rm, e, forward_other),
        Notification::FullyRead { event_id } => Some(
            StateResult::FullyRead(event_id.clone(), rm.room_id.clone()),
        ),
        Notification::Typing { user_ids } => Some(
            StateResult::Typing(typing_notice(&rm.members, user_ids)),
        ),
        _ => None,
    }
}

/// The capacity of the event queue unless another is asked for.
pub const DEFAULT_CAPACITY: usize = 1024;

/// Why an event was not queued.
#[derive(Debug)]
pub enum SendError {
    /// The consumer has gone away: fatal to the ingestor.
    Closed,
    /// Every slot is taken. The event is handed back, to be sent again once
    /// the consumer has freed a slot: the sender waits, nothing is dropped.
    Full(StateResult),
}

/// What a sender does next with an event for the queue.
#[derive(Clone, Copy, Debug, PartialEq, Eq, Structural)]
pub enum SendStep {
    /// There is a free slot: send now.
    Enqueue,
    /// The queue is full: wait for the consumer to free a slot.
    Wait,
    /// The consumer has gone away: take the fatal path.
    Abort,
}

/// The ingestor: translates notifications and queues the events they give on
/// a bounded first-in first-out queue that the user interface drains.
pub struct EventStream {
    pending: Vec<StateResult>,
    capacity: usize,
    closed: bool,
    forward_other: bool,
}

impl EventStream {
    /// The events waiting for the consumer, oldest first.
    pub closed spec fn queued(&self) -> Seq<StateResult> {
        self.pending@
    }

    pub closed spec fn bound(&self) -> nat {
        self.capacity as nat
    }

    pub closed spec fn is_closed(&self) -> bool {
        self.closed
    }

    /// Whether messages that are not text are forwarded rather than dropped.
    pub closed spec fn forwards_other(&self) -> bool {
        self.forward_other
    }

    pub closed spec fn wf(&self) -> bool {
        0 < self.capacity && self.pending.len() <= self.capacity
    }

    /// What a sender does next: abort once the consumer has gone away, wait
    /// while every slot is taken, else send.
    pub open spec fn step(&self) -> SendStep {
        if self.is_closed() {
            SendStep::Abort
        } else if self.queued().len() >= self.bound() {
            SendStep::Wait
        } else {
            SendStep::Enqueue
        }
    }

    /// A stream with the default capacity that drops messages that are not
    /// text.
    pub fn new() -> (r: EventStream)
        ensures
            r.wf(),
            r.queued() == Seq::<StateResult>::empty(),
            r.bound() == DEFAULT_CAPACITY,
            !r.is_closed(),
            !r.forwards_other(),
    {
        EventStream::with_options(DEFAULT_CAPACITY, false)
    }

    /// A stream that drops messages that are not text.
    pub fn with_capacity(capacity: usize) -> (r: EventStream)
        requires
            capacity > 0,
        ensures
            r.wf(),
            r.queued() == Seq::<StateResult>::empty(),
            r.bound() == capacity,
            !r.is_closed(),
            !r.forwards_other(),
    {
        EventStream::with_options(capacity, false)
    }

    pub fn with_options(capacity: usize, forward_other: bool) -> (r: EventStream)
        requires
            capacity > 0,
        ensures
            r.wf(),
            r.queued() == Seq::<StateResult>::empty(),
            r.bound() == capacity,
            !r.is_closed(),
            r.forwards_other() == forward_other,
    {
        EventStream { pending: Vec::new(), capacity, closed: false, forward_other }
    }

    pub fn len(&self) -> (r: usize)
        ensures
            r == self.queued().len(),
    {
        self.pending.len()
    }

    /// What a sender does next with an event for this queue.
    pub fn send_step(&self) -> (r: SendStep)
        requires
            self.wf(),
        ensures
            r == self.step(),
    {
        if self.closed {
            SendStep::Abort
        } else if self.pending.len() >= self.capacity {
            SendStep::Wait
        } else {
            SendStep::Enqueue
        }
    }

    /// Queues one event: refused when the consumer has gone away, and handed
    /// back when the queue is full, to be sent again once a slot is free.
    pub fn send(&mut self, ev: StateResult) -> (r: Result<(), SendError>)
        requires
            old(self).wf(),
        ensures
            final(self).wf(),
            final(self).bound() == old(self).bound(),
            final(self).is_closed() == old(self).is_closed(),
            final(self).forwards_other() == old(self).forwards_other(),
            old(self).step() == SendStep::Abort ==> r is Err && r->Err_0 is Closed,
            old(self).step() == SendStep::Wait ==> r == Err::<(), SendError>(SendError::Full(ev)),
            old(self).step() == SendStep::Enqueue ==> r is Ok,
            r is Ok ==> final(self).queued() == old(self).queued().push(ev),
            r is Err ==> final(self).queued() == old(self).queued(),
    {
        if self.closed {
            return Err(SendError::Closed);
        }
        if self.pending.len() >= self.capacity {
            return Err(SendError::Full(ev));
        }
        self.pending.push(ev);
        Ok(())
    }

    /// Translates a notification and queues the event it gives, if any. On a
    /// full queue the event is handed back in `SendError::Full`, for the
    /// caller to send once the consumer has freed a slot.
    pub fn handle(&mut self, room: &RoomState, n: &Notification) -> (r: Result<(), SendError>)
        requires
            old(self).wf(),
        ensures
            final(self).wf(),
            final(self).bound() == old(self).bound(),
            final(self).is_closed() == old(self).is_closed(),
            final(self).forwards_other() == old(self).forwards_other(),
            translates(*room, *n, old(self).forwards_other(), None) ==> r is Ok && final(self).queued() == old(self).queued(),
            !translates(*room, *n, old(self).forwards_other(), None) ==> {
                &&& old(self).step() == SendStep::Abort ==> r is Err && r->Err_0 is Closed
                &&& old(self).step() == SendStep::Wait ==> r is Err && r->Err_0 is Full
                &&& old(self).step() == SendStep::Enqueue ==> r is Ok
            },
            r is Ok && !translates(*room, *n, old(self).forwards_other(), None) ==> exists|
                e: StateResult,
            |
                #![trigger old(self).queued().push(e)]
                translates(*room, *n, old(self).forwards_other(), Some(e)) && final(self).queued()
                    == old(self).queued().push(e),
            r is Ok && !translates(*room, *n, old(self).forwards_other(), None) ==> final(self).queued().len() == old(self).queued().len() + 1,
            r is Err ==> final(self).queued() == old(self).queued(),
            r is Err && r->Err_0 is Full ==> translates(
                *room,
                *n,
                old(self).forwards_other(),
                Some(r->Err_0->Full_0),
            ),
    {
        match translate(room, n, self.forward_other) {
            None => Ok(()),
            Some(ev) => {
                let ghost e = ev;
                let r = self.send(ev);
                proof {
                    if r is Ok {
                        assert(final(self).queued() == old(self).queued().push(e));
                    }
                }
                r
            },
        }
    }

    /// Takes the oldest queued event, if any.
    pub fn recv(&mut self) -> (r: Option<StateResult>)
        requires
            old(self).wf(),
        ensures
            final(self).wf(),
            final(self).bound() == old(self).bound(),
            final(self).is_closed() == old(self).is_closed(),
            final(self).forwards_other() == old(self).forwards_other(),
            old(self).queued().len() == 0 ==> r is None,
            old(self).queued().len() == 0 ==> final(self).queued() == old(self).queued(),
            old(self).queued().len() > 0 ==> r == Some(old(self).queued()[0]),
            old(self).queued().len() > 0 ==> final(self).queued() == old(self).queued().drop_first(),
    {
        if self.pending.len() == 0 {
            None
        } else {
            let ev = self.pending.remove(0);
            proof {
                assert(old(self).queued().remove(0) =~= old(self).queued().drop_first());
            }
            Some(ev)
        }
    }

    /// The consumer has gone away: later sends take the fatal path.
    pub fn close(&mut self)
        requires
            old(self).wf(),
        ensures
            final(self).wf(),
            final(self).is_closed(),
            final(self).forwards_other() == old(self).forwards_other(),
            final(self).bound() == old(self).bound(),
            final(self).queued() == old(self).queued(),
    {
        self.closed = true;
    }
}

} // verus!
