use matrix_tui_core::client::SyncTokens;
use matrix_tui_core::event_stream::{
    display_name, translate, EventStream, MemberEvent, MessageContent, MessageEvent, Notification,
    Room, RoomState, SendError, SendStep, StateResult,
};
use matrix_tui_core::identifiers::{RoomMember, UserId};
use matrix_tui_core::membership::{
    membership_change, resolve_transition, MembershipChange, MembershipState,
    StrippedRoomMember,
};
use MembershipChange as C;
use MembershipState::{Ban, Invite, Join, Knock, Leave};
use matrix_tui_core::typing::{typing_names, typing_notice, typing_summary};
use matrix_tui_core::ui_loop::{Config, InputProducer, Key, ProducerState, TickProducer};
use matrix_tui_core::uuid_ids::{choose_dedupe_id, dedupe_id};

fn user(local: &str) -> UserId {
    UserId::new(local.to_string(), "example.org".to_string())
}

fn member(local: &str, name: &str) -> RoomMember {
    RoomMember::new(user(local), name.to_string())
}

fn room() -> Room {
    Room {
        room_id: "!room:example.org".to_string(),
        display_name: "Rust chat".to_string(),
        members: vec![member("alice", "Alice"), member("bob", "Bob"), member("carol", "Carol")],
    }
}

fn text_message(sender: &str, txn: Option<&str>) -> Notification {
    Notification::RoomMessage(MessageEvent {
        sender: user(sender),
        event_id: "$event".to_string(),
        origin_server_ts: 1234,
        transaction_id: txn.map(|t| t.to_string()),
        content: MessageContent::Text { body: "hello".to_string(), rendered: None },
    })
}

fn message_of(r: Option<StateResult>) -> matrix_tui_core::event_stream::Message {
    match r {
        Some(StateResult::Message(m, room_id)) => {
            assert_eq!(room_id, "!room:example.org");
            m
        }
        _ => panic!("expected a message"),
    }
}

fn is_random_v4(v: u128) -> bool {
    (v >> 76) & 0xf == 4 && (v >> 62) & 0x3 == 2
}

#[test]
fn transition_table_is_exhaustive() {
    let states = [Ban, Invite, Join, Knock, Leave];
    for &p in states.iter() {
        for &n in states.iter() {
            for &same in [true, false].iter() {
                let expected = match (p, n) {
                    (Knock, _) | (_, Knock) => C::NotImplemented,
                    (Invite, Invite) | (Leave, Leave) | (Ban, Ban) => C::Unchanged,
                    (Invite, Join) | (Leave, Join) => C::Joined,
                    (Invite, Leave) => {
                        if same {
                            C::InvitationRevoked
                        } else {
                            C::InvitationRejected
                        }
                    }
                    (Invite, Ban) | (Leave, Ban) => C::Banned,
                    (Join, Invite) | (Ban, Invite) | (Ban, Join) => C::Error,
                    (Join, Join) => C::ProfileChanged,
                    (Join, Leave) => {
                        if same {
                            C::Left
                        } else {
                            C::Kicked
                        }
                    }
                    (Join, Ban) => C::KickedAndBanned,
                    (Leave, Invite) => C::Invited,
                    (Ban, Leave) => C::Unbanned,
                };
                assert_eq!(resolve_transition(p, n, same), expected);
            }
        }
    }
}

#[test]
fn transition_rows() {
    assert_eq!(resolve_transition(MembershipState::Join, MembershipState::Leave, true), MembershipChange::Left);
    assert_eq!(resolve_transition(MembershipState::Join, MembershipState::Leave, false), MembershipChange::Kicked);
    assert_eq!(resolve_transition(MembershipState::Ban, MembershipState::Leave, false), MembershipChange::Unbanned);
    assert_eq!(resolve_transition(MembershipState::Leave, MembershipState::Invite, false), MembershipChange::Invited);
    assert_eq!(resolve_transition(MembershipState::Join, MembershipState::Join, true), MembershipChange::ProfileChanged);
}

#[test]
fn stripped_member_resolves_from_leave() {
    let cases = [
        (MembershipState::Join, MembershipChange::Joined),
        (MembershipState::Invite, MembershipChange::Invited),
        (MembershipState::Leave, MembershipChange::Unchanged),
        (MembershipState::Ban, MembershipChange::Banned),
        (MembershipState::Knock, MembershipChange::NotImplemented),
    ];
    for &(m, expected) in cases.iter() {
        for &same in [true, false].iter() {
            let ev = StrippedRoomMember {
                sender: user("alice"),
                state_key: if same { user("alice") } else { user("bob") },
                membership: m,
            };
            assert_eq!(membership_change(&ev), expected);
        }
    }
}

#[test]
fn stripped_member_notification_is_not_from_timeline() {
    let n = Notification::StrippedMember(StrippedRoomMember {
        sender: user("alice"),
        state_key: user("bob"),
        membership: MembershipState::Invite,
    });
    match translate(&RoomState::Joined(room()), &n, false) {
        Some(StateResult::Member { sender, receiver, room_id, membership, timeline_event, member }) => {
            assert!(sender.same_as(&user("alice")));
            assert!(receiver.same_as(&user("bob")));
            assert_eq!(room_id, "!room:example.org");
            assert_eq!(membership, MembershipChange::Invited);
            assert!(!timeline_event);
            assert_eq!(member, MembershipState::Invite);
        }
        _ => panic!("expected a member change"),
    }
}

#[test]
fn timeline_member_keeps_engine_classification() {
    let n = Notification::RoomMember(MemberEvent {
        sender: user("bob"),
        state_key: user("carol"),
        membership: MembershipState::Leave,
        change: MembershipChange::Kicked,
    });
    match translate(&RoomState::Joined(room()), &n, false) {
        Some(StateResult::Member { membership, timeline_event, member, .. }) => {
            assert_eq!(membership, MembershipChange::Kicked);
            assert!(timeline_event);
            assert_eq!(member, MembershipState::Leave);
        }
        _ => panic!("expected a member change"),
    }
}

#[test]
fn nobody_typing_gives_empty_summary() {
    assert_eq!(typing_notice(&room().members, &vec![]), "");
    assert_eq!(typing_notice(&vec![], &vec![]), "");
    assert_eq!(typing_summary(&vec![]), "");
}

#[test]
fn one_typing_name() {
    assert_eq!(typing_summary(&vec!["Alice".to_string()]), "Alice is typing...");
    assert_eq!(typing_notice(&room().members, &vec![user("alice")]), "Alice is typing...");
}

#[test]
fn two_typing_names_follow_roster_order() {
    assert_eq!(
        typing_summary(&vec!["Alice".to_string(), "Bob".to_string()]),
        "Alice, Bob are typing..."
    );
    assert_eq!(
        typing_notice(&room().members, &vec![user("bob"), user("alice")]),
        "Alice, Bob are typing..."
    );
    assert_eq!(
        typing_names(&room().members, &vec![user("carol"), user("dave"), user("alice")]),
        vec!["Alice".to_string(), "Carol".to_string()]
    );
    assert_eq!(
        typing_notice(&room().members, &vec![user("carol"), user("bob"), user("alice")]),
        "Alice, Bob, Carol are typing..."
    );
}

#[test]
fn typing_notification_emits_even_when_empty() {
    let n = Notification::Typing { user_ids: vec![user("dave")] };
    match translate(&RoomState::Joined(room()), &n, false) {
        Some(StateResult::Typing(s)) => assert_eq!(s, ""),
        _ => panic!("expected a typing notice"),
    }
}

#[test]
fn malformed_transaction_id_gets_fresh_identifier() {
    let a = message_of(translate(&RoomState::Joined(room()), &text_message("alice", Some("not-a-uuid")), false));
    let b = message_of(translate(&RoomState::Joined(room()), &text_message("alice", Some("not-a-uuid")), false));
    assert!(is_random_v4(a.uuid));
    assert!(is_random_v4(b.uuid));
    assert_ne!(a.uuid, b.uuid);
    assert!(is_random_v4(dedupe_id(&None)));
}

#[test]
fn well_formed_transaction_id_passes_through() {
    let txn = "3fa85f64-5717-4562-b3fc-2c963f66afa6";
    let m = message_of(translate(&RoomState::Joined(room()), &text_message("alice", Some(txn)), false));
    assert_eq!(m.uuid, uuid::Uuid::parse_str(txn).unwrap().as_u128());
    assert_eq!(m.uuid, 0x3fa85f64_5717_4562_b3fc_2c963f66afa6);
    assert_eq!(m.name, "Alice");
    assert_eq!(m.text, "hello");
    assert_eq!(m.event_id, "$event");
    assert_eq!(m.timestamp, 1234);
    assert!(!m.read);
    assert!(!m.sent_receipt);
}

#[test]
fn choose_dedupe_prefers_parsed() {
    assert_eq!(choose_dedupe_id(Some(7), 9), 7);
    assert_eq!(choose_dedupe_id(None, 9), 9);
}

#[test]
fn unknown_sender_goes_by_localpart() {
    assert_eq!(display_name(&room().members, &user("bob")), "Bob");
    assert_eq!(display_name(&room().members, &user("zed")), "zed");
    let m = message_of(translate(&RoomState::Joined(room()), &text_message("zed", None), false));
    assert_eq!(m.name, "zed");
}

#[test]
fn rendered_text_is_forwarded() {
    let n = Notification::RoomMessage(MessageEvent {
        sender: user("bob"),
        event_id: "$e2".to_string(),
        origin_server_ts: 5,
        transaction_id: None,
        content: MessageContent::Text {
            body: "**hi**".to_string(),
            rendered: Some("hi".to_string()),
        },
    });
    let m = message_of(translate(&RoomState::Joined(room()), &n, false));
    assert_eq!(m.text, "hi");
}

#[test]
fn other_messages_and_categories_are_dropped() {
    let n = Notification::RoomMessage(MessageEvent {
        sender: user("bob"),
        event_id: "$e3".to_string(),
        origin_server_ts: 5,
        transaction_id: None,
        content: MessageContent::Other { body: "* waves".to_string() },
    });
    assert!(translate(&RoomState::Joined(room()), &n, false).is_none());
    assert!(translate(&RoomState::Joined(room()), &Notification::RoomTombstone, false).is_none());
    assert!(translate(&RoomState::Joined(room()), &Notification::StateMember, false).is_none());
    assert!(translate(&RoomState::Joined(room()), &Notification::Presence, false).is_none());
}

#[test]
fn rooms_not_joined_give_nothing() {
    assert!(translate(&RoomState::Invited(room()), &Notification::RoomName, false).is_none());
    assert!(translate(&RoomState::Left(room()), &text_message("alice", None), false).is_none());
}

#[test]
fn room_name_and_fully_read() {
    match translate(&RoomState::Joined(room()), &Notification::RoomName, false) {
        Some(StateResult::Name(name, id)) => {
            assert_eq!(name, "Rust chat");
            assert_eq!(id, "!room:example.org");
        }
        _ => panic!("expected a name"),
    }
    let n = Notification::FullyRead { event_id: "$read".to_string() };
    match translate(&RoomState::Joined(room()), &n, false) {
        Some(StateResult::FullyRead(ev, id)) => {
            assert_eq!(ev, "$read");
            assert_eq!(id, "!room:example.org");
        }
        _ => panic!("expected a fully-read marker"),
    }
}

#[test]
fn full_queue_hands_event_back_until_a_slot_frees() {
    let mut s = EventStream::with_capacity(2);
    let joined = RoomState::Joined(room());
    assert!(s.handle(&joined, &Notification::RoomName).is_ok());
    assert!(s.handle(&joined, &Notification::RoomName).is_ok());
    assert_eq!(s.send_step(), SendStep::Wait);
    let n = Notification::FullyRead { event_id: "$late".to_string() };
    let pending = match s.handle(&joined, &n) {
        Err(SendError::Full(ev)) => ev,
        _ => panic!("expected the event back"),
    };
    assert_eq!(s.len(), 2);
    // a notification that gives no event never waits
    assert!(s.handle(&joined, &Notification::RoomAvatar).is_ok());
    assert!(s.recv().is_some());
    assert_eq!(s.send_step(), SendStep::Enqueue);
    assert!(s.send(pending).is_ok());
    assert_eq!(s.len(), 2);
    assert!(matches!(s.recv(), Some(StateResult::Name(_, _))));
    match s.recv() {
        Some(StateResult::FullyRead(e, _)) => assert_eq!(e, "$late"),
        _ => panic!("expected the late event last"),
    }
}

#[test]
fn closed_queue_is_fatal() {
    let mut s = EventStream::new();
    s.close();
    assert_eq!(s.send_step(), SendStep::Abort);
    assert!(matches!(s.send(StateResult::Typing(String::new())), Err(SendError::Closed)));
    assert!(matches!(
        s.handle(&RoomState::Joined(room()), &Notification::RoomName),
        Err(SendError::Closed)
    ));
    assert_eq!(s.len(), 0);
}

#[test]
fn one_notification_queues_one_event() {
    let mut s = EventStream::new();
    let joined = RoomState::Joined(room());
    let n = Notification::StrippedMember(StrippedRoomMember {
        sender: user("alice"),
        state_key: user("alice"),
        membership: MembershipState::Join,
    });
    assert!(s.handle(&joined, &n).is_ok());
    assert_eq!(s.len(), 1);
    assert!(s.handle(&RoomState::Left(room()), &n).is_ok());
    assert_eq!(s.len(), 1);
}

#[test]
fn other_message_kinds_can_be_forwarded() {
    let n = Notification::RoomMessage(MessageEvent {
        sender: user("bob"),
        event_id: "$e4".to_string(),
        origin_server_ts: 9,
        transaction_id: None,
        content: MessageContent::Other { body: "* waves".to_string() },
    });
    let m = message_of(translate(&RoomState::Joined(room()), &n, true));
    assert_eq!(m.text, "* waves");
    assert_eq!(m.name, "Bob");
    let mut s = EventStream::with_options(4, true);
    assert!(s.handle(&RoomState::Joined(room()), &n).is_ok());
    assert_eq!(s.len(), 1);
    let mut d = EventStream::new();
    assert!(d.handle(&RoomState::Joined(room()), &n).is_ok());
    assert_eq!(d.len(), 0);
}

#[test]
fn queue_is_first_in_first_out() {
    let mut s = EventStream::new();
    let joined = RoomState::Joined(room());
    s.handle(&joined, &Notification::FullyRead { event_id: "$1".to_string() }).unwrap();
    s.handle(&joined, &Notification::FullyRead { event_id: "$2".to_string() }).unwrap();
    match s.recv() {
        Some(StateResult::FullyRead(e, _)) => assert_eq!(e, "$1"),
        _ => panic!("expected the first event"),
    }
    match s.recv() {
        Some(StateResult::FullyRead(e, _)) => assert_eq!(e, "$2"),
        _ => panic!("expected the second event"),
    }
    assert!(s.recv().is_none());
}

#[test]
fn exit_key_stops_input_but_not_ticks() {
    let cfg = Config { exit_key: Key::Char('q'), tick_rate_ms: 250 };
    let mut input = InputProducer::new(cfg);
    let mut tick = TickProducer::new();
    assert!(input.on_input(Some(Key::Char('a'))));
    assert!(input.on_input(None));
    assert!(tick.on_tick());
    assert!(!input.on_input(Some(Key::Char('q'))));
    assert_eq!(input.state, ProducerState::Stopped);
    assert!(!input.on_input(Some(Key::Char('a'))));
    assert!(!input.is_running());
    assert!(tick.on_tick());
    tick.on_sent(true);
    assert!(tick.on_tick());
    tick.on_sent(false);
    assert!(!tick.on_tick());
}

#[test]
fn failed_send_stops_input() {
    let mut input = InputProducer::new(Config { exit_key: Key::Esc, tick_rate_ms: 10 });
    assert!(input.on_input(Some(Key::Char('q'))));
    input.on_sent(false);
    assert!(!input.on_input(Some(Key::Char('x'))));
}

#[test]
fn page_start_prefers_last_scroll() {
    let mut t = SyncTokens::new();
    assert_eq!(t.page_start(), None);
    t.set_sync_token(Some("sync-a".to_string()));
    assert_eq!(t.sync_token(), Some("sync-a".to_string()));
    assert_eq!(t.page_start(), Some("sync-a".to_string()));
    t.record_page_end("page-end-a".to_string());
    assert_eq!(t.page_start(), Some("page-end-a".to_string()));
}
