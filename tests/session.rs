use chat_server::event::{
    ChatError, ChatRoomMetadata, Event, RoomParticipationBroadcastEvent, RoomParticipationStatus,
    UserCommand, UserJoinedRoomReplyEvent, UserMessageBroadcastEvent,
};
use chat_server::room_manager::RoomManager;
use chat_server::session::{ChatSession, SessionAction};
use tokio::sync::broadcast::Receiver;

fn manager(names: &[&str]) -> RoomManager {
    RoomManager::new(names.iter().map(|n| ChatRoomMetadata::new(n, "")).collect())
}

fn join(room: &str) -> UserCommand {
    UserCommand::JoinRoom { room: room.to_string() }
}

fn leave(room: &str) -> UserCommand {
    UserCommand::LeaveRoom { room: room.to_string() }
}

fn drain(rx: &mut Receiver<Event>) -> Vec<Event> {
    let mut out = Vec::new();
    while let Ok(e) = rx.try_recv() {
        out.push(e);
    }
    out
}

fn participation(user: &str, room: &str, status: RoomParticipationStatus) -> Event {
    Event::RoomParticipation(RoomParticipationBroadcastEvent {
        user_id: user.to_string(),
        room: room.to_string(),
        status,
    })
}

fn hi_from_a() -> UserMessageBroadcastEvent {
    UserMessageBroadcastEvent {
        room: "general".to_string(),
        user_id: "A".to_string(),
        content: "hi".to_string(),
    }
}

/// Joins and returns the reply and the live receiver.
fn joined(session: &mut ChatSession, rooms: &mut RoomManager, room: &str) -> (Event, Receiver<Event>) {
    match session.handle_user_command(rooms, join(room)) {
        Ok(SessionAction::StartForwarding { room: r, reply, receiver }) => {
            assert_eq!(r, room);
            (reply, receiver)
        }
        _ => panic!("join of {} did not start forwarding", room),
    }
}

#[test]
fn two_users_chat_in_general() {
    let mut rooms = manager(&["general"]);
    let mut a = ChatSession::new("s1", "A");
    let mut b = ChatSession::new("s2", "B");

    let (reply_a, mut rx_a) = joined(&mut a, &mut rooms, "general");
    assert_eq!(
        reply_a,
        Event::UserJoinedRoom(UserJoinedRoomReplyEvent {
            room: "general".to_string(),
            users: vec!["A".to_string()],
        })
    );

    let (reply_b, mut rx_b) = joined(&mut b, &mut rooms, "general");
    match reply_b {
        Event::UserJoinedRoom(e) => {
            let mut users = e.users.clone();
            users.sort();
            assert_eq!(users, vec!["A".to_string(), "B".to_string()]);
        }
        other => panic!("unexpected reply {:?}", other),
    }
    assert_eq!(
        drain(&mut rx_a),
        vec![
            participation("A", "general", RoomParticipationStatus::Joined),
            participation("B", "general", RoomParticipationStatus::Joined),
        ]
    );
    drain(&mut rx_b);

    let sent = a.handle_user_command(
        &mut rooms,
        UserCommand::SendMessage { room: "general".to_string(), content: "hi".to_string() },
    );
    assert!(matches!(sent, Ok(SessionAction::Nothing)));
    assert_eq!(drain(&mut rx_a), vec![Event::UserMessage(hi_from_a())]);
    assert_eq!(drain(&mut rx_b), vec![Event::UserMessage(hi_from_a())]);
    assert_eq!(rooms.get_history("general").unwrap(), vec![hi_from_a()]);
}

#[test]
fn two_sessions_of_one_user_leave_once() {
    let mut rooms = manager(&["general"]);
    let mut watcher = ChatSession::new("w", "W");
    let (_, mut rx_w) = joined(&mut watcher, &mut rooms, "general");
    let mut s1 = ChatSession::new("s1", "A");
    let mut s2 = ChatSession::new("s2", "A");
    joined(&mut s1, &mut rooms, "general");
    joined(&mut s2, &mut rooms, "general");
    assert_eq!(
        drain(&mut rx_w),
        vec![
            participation("W", "general", RoomParticipationStatus::Joined),
            participation("A", "general", RoomParticipationStatus::Joined),
        ]
    );

    let left1 = s1.handle_user_command(&mut rooms, leave("general"));
    assert!(matches!(left1, Ok(SessionAction::StopForwarding { ref room }) if room == "general"));
    assert!(drain(&mut rx_w).is_empty());

    let left2 = s2.handle_user_command(&mut rooms, leave("general"));
    assert!(matches!(left2, Ok(SessionAction::StopForwarding { .. })));
    assert_eq!(drain(&mut rx_w), vec![participation("A", "general", RoomParticipationStatus::Left)]);
}

#[test]
fn join_twice_is_rejected_and_changes_nothing() {
    let mut rooms = manager(&["general"]);
    let mut a = ChatSession::new("s1", "A");
    let (_, mut rx) = joined(&mut a, &mut rooms, "general");
    drain(&mut rx);
    let again = a.handle_user_command(&mut rooms, join("general"));
    assert_eq!(again.err(), Some(ChatError::AlreadyJoined { room: "general".to_string() }));
    assert!(drain(&mut rx).is_empty());
    let (reply, _rx2) = joined(&mut ChatSession::new("s9", "Z"), &mut rooms, "general");
    match reply {
        Event::UserJoinedRoom(e) => {
            let mut users = e.users.clone();
            users.sort();
            assert_eq!(users, vec!["A".to_string(), "Z".to_string()]);
        }
        other => panic!("unexpected reply {:?}", other),
    }
}

#[test]
fn unknown_room_is_not_found() {
    let mut rooms = manager(&["general"]);
    let mut a = ChatSession::new("s1", "A");
    let not_found = Some(ChatError::RoomNotFound { room: "nowhere".to_string() });
    assert_eq!(a.handle_user_command(&mut rooms, join("nowhere")).err(), not_found);
    assert_eq!(
        a.handle_user_command(
            &mut rooms,
            UserCommand::SendMessage { room: "nowhere".to_string(), content: "x".to_string() }
        )
        .err(),
        not_found
    );
    assert_eq!(
        a.handle_user_command(&mut rooms, UserCommand::GetHistory { room: "nowhere".to_string() }).err(),
        not_found
    );
    assert_eq!(rooms.get_history("nowhere").err(), not_found);
}

#[test]
fn leaving_a_room_not_joined_is_silent() {
    let mut rooms = manager(&["general"]);
    let mut a = ChatSession::new("s1", "A");
    assert!(matches!(a.handle_user_command(&mut rooms, leave("general")), Ok(SessionAction::Nothing)));
    assert!(matches!(a.handle_user_command(&mut rooms, leave("nowhere")), Ok(SessionAction::Nothing)));
}

#[test]
fn get_history_replays_messages() {
    let mut rooms = manager(&["general", "rust"]);
    let mut a = ChatSession::new("s1", "A");
    a.handle_user_command(
        &mut rooms,
        UserCommand::SendMessage { room: "general".to_string(), content: "hi".to_string() },
    )
    .unwrap();
    match a.handle_user_command(&mut rooms, UserCommand::GetHistory { room: "general".to_string() }) {
        Ok(SessionAction::Deliver(events)) => assert_eq!(events, vec![Event::UserMessage(hi_from_a())]),
        _ => panic!("history was not delivered"),
    }
    match a.handle_user_command(&mut rooms, UserCommand::GetHistory { room: "rust".to_string() }) {
        Ok(SessionAction::Deliver(events)) => assert!(events.is_empty()),
        _ => panic!("history was not delivered"),
    }
}

#[test]
fn leave_all_rooms_leaves_every_room() {
    let mut rooms = manager(&["general", "rust", "random"]);
    let mut watcher = ChatSession::new("w", "W");
    let (_, mut rx_general) = joined(&mut watcher, &mut rooms, "general");
    let (_, mut rx_rust) = joined(&mut watcher, &mut rooms, "rust");
    let mut a = ChatSession::new("s1", "A");
    joined(&mut a, &mut rooms, "general");
    joined(&mut a, &mut rooms, "rust");
    drain(&mut rx_general);
    drain(&mut rx_rust);

    let teardown = a.leave_all_rooms(&mut rooms);
    assert_eq!(teardown.left, vec!["general".to_string(), "rust".to_string()]);
    assert!(teardown.failed.is_empty());
    assert_eq!(drain(&mut rx_general), vec![participation("A", "general", RoomParticipationStatus::Left)]);
    assert_eq!(drain(&mut rx_rust), vec![participation("A", "rust", RoomParticipationStatus::Left)]);

    let again = a.leave_all_rooms(&mut rooms);
    assert!(again.left.is_empty());
    // the session can join again after teardown
    joined(&mut a, &mut rooms, "general");
}

#[test]
fn manager_lists_metadata_in_order() {
    let rooms = RoomManager::new(vec![
        ChatRoomMetadata::new("general", "anything"),
        ChatRoomMetadata::new("rust", "crabs"),
    ]);
    assert_eq!(
        rooms.chat_room_metadata(),
        &vec![ChatRoomMetadata::new("general", "anything"), ChatRoomMetadata::new("rust", "crabs")]
    );
}

#[test]
fn leave_all_rooms_reports_failures_and_goes_on() {
    let mut first = manager(&["general", "rust"]);
    let mut a = ChatSession::new("s1", "A");
    joined(&mut a, &mut first, "general");
    joined(&mut a, &mut first, "rust");

    let mut second = manager(&["rust"]);
    let (_, mut rx_rust) = joined(&mut ChatSession::new("w", "W"), &mut second, "rust");
    drain(&mut rx_rust);
    let teardown = a.leave_all_rooms(&mut second);
    assert_eq!(teardown.left, vec!["general".to_string(), "rust".to_string()]);
    assert_eq!(teardown.failed, vec![ChatError::RoomNotFound { room: "general".to_string() }]);
    assert!(drain(&mut rx_rust).is_empty());
}
