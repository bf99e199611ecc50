//! Identifiers, commands and events exchanged between connections and rooms.

use vstd::prelude::*;

verus! {

/// Metadata that identifies a chat room.
#[derive(Debug, Clone, PartialEq, Eq)]
pub struct ChatRoomMetadata {
    pub name: String,
    pub description: String,
}

/// One connection's presence: the session and the user it belongs to.
#[derive(Debug, Clone, PartialEq, Eq)]
pub struct SessionAndUserId {
    pub session_id: String,
    pub user_id: String,
}

/// Mathematical value of a `SessionAndUserId`.
pub struct SessionView {
    pub session_id: Seq<char>,
    pub user_id: Seq<char>,
}

impl View for SessionAndUserId {
    type V = SessionView;

    open spec fn view(&self) -> SessionView {
        SessionView { session_id: self.session_id@, user_id: self.user_id@ }
    }
}

impl SessionAndUserId {
    pub fn new(session_id: &str, user_id: &str) -> (r: SessionAndUserId)
        ensures
            r@.session_id == session_id@,
            r@.user_id == user_id@,
    {
        SessionAndUserId { session_id: session_id.to_string(), user_id: user_id.to_string() }
    }

    /// A copy with the same identifiers.
    pub fn duplicate(&self) -> (r: SessionAndUserId)
        ensures
            r@ == self@,
    {
        SessionAndUserId { session_id: self.session_id.clone(), user_id: self.user_id.clone() }
    }
}

impl ChatRoomMetadata {
    pub fn new(name: &str, description: &str) -> (r: ChatRoomMetadata)
        ensures
            r.name@ == name@,
            r.description@ == description@,
    {
        ChatRoomMetadata { name: name.to_string(), description: description.to_string() }
    }

    /// A copy with the same name and description.
    pub fn duplicate(&self) -> (r: ChatRoomMetadata)
        ensures
            r.name@ == self.name@,
            r.description@ == self.description@,
    {
        ChatRoomMetadata { name: self.name.clone(), description: self.description.clone() }
    }
}

/// A chat message as broadcast to a room and kept in its history.
#[derive(Debug, Clone, PartialEq, Eq)]
pub struct UserMessageBroadcastEvent {
    pub room: String,
    pub user_id: String,
    pub content: String,
}

/// Mathematical value of a message event.
pub struct MessageView {
    pub room: Seq<char>,
    pub user_id: Seq<char>,
    pub content: Seq<char>,
}

impl View for UserMessageBroadcastEvent {
    type V = MessageView;

    open spec fn view(&self) -> MessageView {
        MessageView { room: self.room@, user_id: self.user_id@, content: self.content@ }
    }
}

impl UserMessageBroadcastEvent {
    /// A copy with the same fields.
    pub fn duplicate(&self) -> (r: UserMessageBroadcastEvent)
        ensures
            r@ == self@,
    {
        UserMessageBroadcastEvent {
            room: self.room.clone(),
            user_id: self.user_id.clone(),
            content: self.content.clone(),
        }
    }
}

/// Whether a user arrived in or departed from a room.
#[derive(Debug, Clone, Copy, PartialEq, Eq, Structural)]
pub enum RoomParticipationStatus {
    Joined,
    Left,
}

/// A user's first session entered a room, or its last session left it.
#[derive(Debug, Clone, PartialEq, Eq)]
pub struct RoomParticipationBroadcastEvent {
    pub user_id: String,
    pub room: String,
    pub status: RoomParticipationStatus,
}

/// Reply to the joining connection: the users present right after the join.
#[derive(Debug, Clone, PartialEq, Eq)]
pub struct UserJoinedRoomReplyEvent {
    pub room: String,
    pub users: Vec<String>,
}

/// Everything a connection can receive.
#[derive(Debug, Clone, PartialEq, Eq)]
pub enum Event {
    UserJoinedRoom(UserJoinedRoomReplyEvent),
    UserMessage(UserMessageBroadcastEvent),
    RoomParticipation(RoomParticipationBroadcastEvent),
}

/// Mathematical value of an `Event`.
pub enum EventView {
    UserJoinedRoom { room: Seq<char>, users: Seq<Seq<char>> },
    UserMessage(MessageView),
    RoomParticipation { user_id: Seq<char>, room: Seq<char>, status: RoomParticipationStatus },
}

/// The views of a vector of strings.
pub open spec fn strings_view(v: Seq<String>) -> Seq<Seq<char>> {
    v.map_values(|s: String| s@)
}

impl View for Event {
    type V = EventView;

    open spec fn view(&self) -> EventView {
        match self {
            Event::UserJoinedRoom(e) => EventView::UserJoinedRoom {
                room: e.room@,
                users: strings_view(e.users@),
            },
            Event::UserMessage(m) => EventView::UserMessage(m@),
            Event::RoomParticipation(p) => EventView::RoomParticipation {
                user_id: p.user_id@,
                room: p.room@,
                status: p.status,
            },
        }
    }
}

/// Commands a connection hands to its session.
#[derive(Debug, Clone, PartialEq, Eq)]
pub enum UserCommand {
    JoinRoom { room: String },
    LeaveRoom { room: String },
    SendMessage { room: String, content: String },
    GetHistory { room: String },
}

/// Recoverable failures of a single command.
#[derive(Debug, Clone, PartialEq, Eq)]
pub enum ChatError {
    /// No room has this name.
    RoomNotFound { room: String },
    /// The session has already joined this room.
    AlreadyJoined { room: String },
}

/// Mathematical value of a `ChatError`.
pub enum ChatErrorView {
    RoomNotFound(Seq<char>),
    AlreadyJoined(Seq<char>),
}

impl View for ChatError {
    type V = ChatErrorView;

    open spec fn view(&self) -> ChatErrorView {
        match self {
            ChatError::RoomNotFound { room } => ChatErrorView::RoomNotFound(room@),
            ChatError::AlreadyJoined { room } => ChatErrorView::AlreadyJoined(room@),
        }
    }
}

} // verus!
