use chat_server::event::{
    ChatRoomMetadata, Event, RoomParticipationBroadcastEvent, RoomParticipationStatus,
    SessionAndUserId, UserMessageBroadcastEvent,
};
use chat_server::room::{ChatRoom, MAX_HISTORY};
use tokio::sync::broadcast::Receiver;

fn general() -> ChatRoom {
    ChatRoom::new(ChatRoomMetadata::new("general", "talk about anything"))
}

fn id(session: &str, user: &str) -> SessionAndUserId {
    SessionAndUserId::new(session, user)
}

fn drain(rx: &mut Receiver<Event>) -> Vec<Event> {
    let mut out = Vec::new();
    while let Ok(e) = rx.try_recv() {
        out.push(e);
    }
    out
}

fn participation(user: &str, status: RoomParticipationStatus) -> Event {
    Event::RoomParticipation(RoomParticipationBroadcastEvent {
        user_id: user.to_string(),
        room: "general".to_string(),
        status,
    })
}

fn message(user: &str, content: &str) -> UserMessageBroadcastEvent {
    UserMessageBroadcastEvent {
        room: "general".to_string(),
        user_id: user.to_string(),
        content: content.to_string(),
    }
}

#[test]
fn history_keeps_last_ten_in_order() {
    let mut room = general();
    let alice = id("s1", "alice");
    for k in 0..15 {
        room.send_message(&alice, format!("m{}", k));
        assert!(room.get_history().len() <= MAX_HISTORY);
    }
    let expected: Vec<UserMessageBroadcastEvent> =
        (5..15).map(|k| message("alice", &format!("m{}", k))).collect();
    assert_eq!(room.get_history(), expected);
}

#[test]
fn history_below_capacity_keeps_all() {
    let mut room = general();
    let alice = id("s1", "alice");
    assert!(room.get_history().is_empty());
    room.send_message(&alice, "one".to_string());
    room.send_message(&alice, "two".to_string());
    assert_eq!(room.get_history(), vec![message("alice", "one"), message("alice", "two")]);
}

#[test]
fn send_without_subscribers_is_recorded() {
    let mut room = general();
    room.send_message(&id("s1", "alice"), "hello?".to_string());
    assert_eq!(room.get_history(), vec![message("alice", "hello?")]);
}

#[test]
fn first_join_broadcasts_once_second_session_not() {
    let mut room = general();
    let (mut rx1, h1) = room.join(&id("s1", "alice"));
    assert_eq!(h1.room(), "general");
    assert_eq!(h1.user_id(), "alice");
    let (mut rx2, _h2) = room.join(&id("s2", "alice"));
    assert_eq!(drain(&mut rx1), vec![participation("alice", RoomParticipationStatus::Joined)]);
    assert!(drain(&mut rx2).is_empty());
    assert_eq!(room.get_unique_user_ids(), vec!["alice".to_string()]);
}

#[test]
fn last_leave_broadcasts_once() {
    let mut room = general();
    let (_rx0, h0) = room.join(&id("s0", "bob"));
    let (_rx1, h1) = room.join(&id("s1", "alice"));
    let (_rx2, h2) = room.join(&id("s2", "alice"));
    let mut watcher = h0.broadcast_sender().subscribe();
    room.leave(h1);
    assert!(drain(&mut watcher).is_empty());
    room.leave(h2);
    assert_eq!(drain(&mut watcher), vec![participation("alice", RoomParticipationStatus::Left)]);
    assert_eq!(room.get_unique_user_ids(), vec!["bob".to_string()]);
}

#[test]
fn leave_with_unregistered_handle_is_noop() {
    let mut room = general();
    let mut other = ChatRoom::new(ChatRoomMetadata::new("general", ""));
    let (_rx, stray) = other.join(&id("s7", "carol"));
    let (mut rx, _h) = room.join(&id("s1", "alice"));
    drain(&mut rx);
    room.leave(stray);
    assert!(drain(&mut rx).is_empty());
    assert_eq!(room.get_unique_user_ids(), vec!["alice".to_string()]);
}

#[test]
fn message_is_broadcast_to_subscribers() {
    let mut room = general();
    let (mut rx, _h) = room.join(&id("s1", "alice"));
    drain(&mut rx);
    room.send_message(&id("s1", "alice"), "hi".to_string());
    assert_eq!(drain(&mut rx), vec![Event::UserMessage(message("alice", "hi"))]);
}
