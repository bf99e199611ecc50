//! One connection's decisions: which rooms it has joined, what each command
//! does to the rooms, and what the connection's event pump must do next.

use vstd::prelude::*;
use tokio::sync::broadcast::Receiver;
use crate::event::{
    strings_view, ChatError, ChatErrorView, Event, EventView, MessageView, SessionAndUserId, SessionView,
    UserCommand, UserJoinedRoomReplyEvent,
};
use crate::registry::{lists_exactly, users_of};
use crate::room::{messages_view, HandleView, RoomState, UserSessionHandle};
use crate::room_manager::{has_room, room_index, RoomManager};

verus! {

/// What the connection's event pump does after a command.
pub enum SessionAction {
    /// Deliver `reply`, then forward every event of `receiver` until `room` is left.
    StartForwarding { room: String, reply: Event, receiver: Receiver<Event> },
    /// Stop forwarding the events of `room`.
    StopForwarding { room: String },
    /// Deliver these events, in order.
    Deliver(Vec<Event>),
    /// Nothing to deliver or to change.
    Nothing,
}

pub open spec fn events_view(v: Seq<Event>) -> Seq<EventView> {
    v.map_values(|e: Event| e@)
}

impl SessionAction {
    pub open spec fn starts_forwarding(&self, room: Seq<char>, reply: EventView) -> bool {
        match self {
            SessionAction::StartForwarding { room: r, reply: e, .. } => r@ == room && e@ == reply,
            _ => false,
        }
    }

    /// Starts forwarding `room` after a reply listing the users of `present`.
    pub open spec fn replies_roster(&self, room: Seq<char>, present: Set<SessionView>) -> bool {
        match self {
            SessionAction::StartForwarding { room: r, reply: Event::UserJoinedRoom(e), .. } => {
                &&& r@ == room
                &&& e.room@ == room
                &&& lists_exactly(e.users@, users_of(present))
            },
            _ => false,
        }
    }

    pub open spec fn stops_forwarding(&self, room: Seq<char>) -> bool {
        match self {
            SessionAction::StopForwarding { room: r } => r@ == room,
            _ => false,
        }
    }

    pub open spec fn delivers(&self, events: Seq<EventView>) -> bool {
        match self {
            SessionAction::Deliver(v) => events_view(v@) == events,
            _ => false,
        }
    }
}

/// Replay of a history as message events.
pub open spec fn replay(h: Seq<MessageView>) -> Seq<EventView> {
    h.map_values(|m: MessageView| EventView::UserMessage(m))
}

/// The rooms after `id` leaves each of `joined`, first to last; names that
/// no room has are passed over.
pub open spec fn rooms_after_leaving(
    names: Seq<Seq<char>>,
    rooms: Seq<RoomState>,
    joined: Seq<Seq<char>>,
    id: SessionView,
) -> Seq<RoomState>
    decreases joined.len(),
{
    if joined.len() == 0 {
        rooms
    } else {
        let next = if has_room(names, joined[0]) {
            let i = room_index(names, joined[0]);
            rooms.update(i, rooms[i].left(id))
        } else {
            rooms
        };
        rooms_after_leaving(names, next, joined.drop_first(), id)
    }
}

/// The names of `joined` that no room has, first to last.
pub open spec fn missing_rooms(names: Seq<Seq<char>>, joined: Seq<Seq<char>>) -> Seq<Seq<char>>
    decreases joined.len(),
{
    if joined.len() == 0 {
        Seq::empty()
    } else {
        let head = if has_room(names, joined[0]) { Seq::empty() } else { seq![joined[0]] };
        head + missing_rooms(names, joined.drop_first())
    }
}

/// `JoinRoom { room }` took session `s0` and rooms `m0` to `s1`, `m1` with result `r`:
/// a room already joined, or unknown, is an error and changes nothing;
/// otherwise the session joins it and the connection gets the roster and
/// the room's live events.
pub open spec fn join_done(
    s0: ChatSession,
    s1: ChatSession,
    m0: RoomManager,
    m1: RoomManager,
    room: Seq<char>,
    r: Result<SessionAction, ChatError>,
) -> bool {
    if has_room(s0.joined(), room) {
        &&& r is Err
        &&& r->Err_0@ == ChatErrorView::AlreadyJoined(room)
        &&& s1.joined() == s0.joined()
        &&& m1.rooms() == m0.rooms()
    } else if !has_room(m0.names(), room) {
        &&& r is Err
        &&& r->Err_0@ == ChatErrorView::RoomNotFound(room)
        &&& s1.joined() == s0.joined()
        &&& m1.rooms() == m0.rooms()
    } else {
        let i = room_index(m0.names(), room);
        &&& r is Ok
        &&& m1.rooms() == m0.rooms().update(i, m0.rooms()[i].joined(s0.id()))
        &&& s1.joined() == s0.joined().push(room)
        &&& r->Ok_0.replies_roster(room, m1.rooms()[i].present)
    }
}

/// `LeaveRoom { room }`: a room not joined changes nothing; otherwise the
/// session forgets it and leaves the room, whose forwarding stops.
pub open spec fn leave_done(
    s0: ChatSession,
    s1: ChatSession,
    m0: RoomManager,
    m1: RoomManager,
    room: Seq<char>,
    r: Result<SessionAction, ChatError>,
) -> bool {
    if !has_room(s0.joined(), room) {
        &&& r is Ok
        &&& r->Ok_0 is Nothing
        &&& s1.joined() == s0.joined()
        &&& m1.rooms() == m0.rooms()
    } else {
        &&& s1.joined() == s0.joined().remove(room_index(s0.joined(), room))
        &&& if has_room(m0.names(), room) {
            let i = room_index(m0.names(), room);
            &&& r is Ok
            &&& r->Ok_0.stops_forwarding(room)
            &&& m1.rooms() == m0.rooms().update(i, m0.rooms()[i].left(s0.id()))
        } else {
            &&& r is Err
            &&& r->Err_0@ == ChatErrorView::RoomNotFound(room)
            &&& m1.rooms() == m0.rooms()
        }
    }
}

/// `SendMessage { room, content }`: the room records and broadcasts the
/// message from this session's user; an unknown room is an error.
pub open spec fn send_done(
    s0: ChatSession,
    s1: ChatSession,
    m0: RoomManager,
    m1: RoomManager,
    room: Seq<char>,
    content: Seq<char>,
    r: Result<SessionAction, ChatError>,
) -> bool {
    &&& s1.joined() == s0.joined()
    &&& if has_room(m0.names(), room) {
        let i = room_index(m0.names(), room);
        &&& r is Ok
        &&& r->Ok_0 is Nothing
        &&& m1.rooms() == m0.rooms().update(i, m0.rooms()[i].with_message(s0.id().user_id, content))
    } else {
        &&& r is Err
        &&& r->Err_0@ == ChatErrorView::RoomNotFound(room)
        &&& m1.rooms() == m0.rooms()
    }
}

/// `GetHistory { room }`: the room's history is delivered as message
/// events, oldest first; an unknown room is an error.
pub open spec fn history_done(
    s0: ChatSession,
    s1: ChatSession,
    m0: RoomManager,
    m1: RoomManager,
    room: Seq<char>,
    r: Result<SessionAction, ChatError>,
) -> bool {
    &&& s1.joined() == s0.joined()
    &&& m1.rooms() == m0.rooms()
    &&& if has_room(m0.names(), room) {
        &&& r is Ok
        &&& r->Ok_0.delivers(replay(m0.rooms()[room_index(m0.names(), room)].history))
    } else {
        &&& r is Err
        &&& r->Err_0@ == ChatErrorView::RoomNotFound(room)
    }
}

pub open spec fn errors_view(v: Seq<ChatError>) -> Seq<ChatErrorView> {
    v.map_values(|e: ChatError| e@)
}

pub open spec fn not_found_all(names: Seq<Seq<char>>) -> Seq<ChatErrorView> {
    names.map_values(|n: Seq<char>| ChatErrorView::RoomNotFound(n))
}

/// Result of leaving every room at the end of a connection.
pub struct Teardown {
    /// Every room that was joined: its forwarding must stop.
    pub left: Vec<String>,
    /// The failures met on the way; the other rooms were still left.
    pub failed: Vec<ChatError>,
}

/// One connection's membership in rooms.
pub struct ChatSession {
    session_and_user_id: SessionAndUserId,
    joined_rooms: Vec<(String, UserSessionHandle)>,
}

impl ChatSession {
    pub closed spec fn id(&self) -> SessionView {
        self.session_and_user_id@
    }

    /// Names of the joined rooms, in the order they were joined.
    pub closed spec fn joined(&self) -> Seq<Seq<char>> {
        self.joined_rooms@.map_values(|e: (String, UserSessionHandle)| e.0@)
    }

    /// Joined rooms are distinct, each held with this session's handle to it.
    pub closed spec fn wf(&self) -> bool {
        &&& forall|i: int, j: int| 0 <= i < j < self.joined_rooms.len() ==> self.joined_rooms[i].0@ != self.joined_rooms[j].0@
        &&& forall|i: int| 0 <= i < self.joined_rooms.len() ==> (#[trigger] self.joined_rooms[i]).1@ == (HandleView {
            room: self.joined_rooms[i].0@,
            id: self.session_and_user_id@,
        })
    }

    pub fn new(session_id: &str, user_id: &str) -> (r: ChatSession)
        ensures
            r.wf(),
            r.id() == (SessionView { session_id: session_id@, user_id: user_id@ }),
            r.joined() == Seq::<Seq<char>>::empty(),
    {
        let r = ChatSession { session_and_user_id: SessionAndUserId::new(session_id, user_id), joined_rooms: Vec::new() };
        assert(r.joined() =~= Seq::<Seq<char>>::empty());
        r
    }

    pub fn session_and_user_id(&self) -> (r: &SessionAndUserId)
        ensures
            r@ == self.id(),
    {
        &self.session_and_user_id
    }

    /// Position of `room` among the joined rooms, if joined.
    fn find_joined(&self, room: &String) -> (r: Option<usize>)
        requires
            self.wf(),
        ensures
            match r {
                Some(k) => has_room(self.joined(), room@) && k as int == room_index(self.joined(), room@),
                None => !has_room(self.joined(), room@),
            },
    {
        let mut k: usize = 0;
        while k < self.joined_rooms.len()
            invariant
                self.wf(),
                k <= self.joined_rooms.len(),
                forall|j: int| 0 <= j < k ==> self.joined()[j] != room@,
            decreases self.joined_rooms.len() - k,
        {
            if self.joined_rooms[k].0 == *room {
                assert(self.joined()[k as int] == room@);
                return Some(k);
            }
            k = k + 1;
        }
        None
    }

    /// Joins `room` unless this session already has.
    fn join(&mut self, rooms: &mut RoomManager, room: String) -> (r: Result<SessionAction, ChatError>)
        requires
            old(self).wf(),
            old(rooms).wf(),
        ensures
            final(self).wf(),
            final(rooms).wf(),
            final(self).id() == old(self).id(),
            final(rooms).names() == old(rooms).names(),
            join_done(*old(self), *final(self), *old(rooms), *final(rooms), room@, r),
    {
        if self.find_joined(&room).is_some() {
            return Err(ChatError::AlreadyJoined { room });
        }
        match rooms.join_room(room.as_str(), &self.session_and_user_id) {
            Err(e) => Err(e),
            Ok((receiver, handle, users)) => {
                let reply = Event::UserJoinedRoom(UserJoinedRoomReplyEvent { room: room.clone(), users });
                let ghost pre = self.joined();
                self.joined_rooms.push((room.clone(), handle));
                assert(self.joined() =~= pre.push(room@));
                assert forall|j: int| 0 <= j < pre.len() implies self.joined_rooms[j].0@ != room@ by {
                    assert(pre[j] == self.joined_rooms[j].0@);
                }
                Ok(SessionAction::StartForwarding { room, reply, receiver })
            },
        }
    }

    /// Leaves `room` if this session has joined it.
    fn leave(&mut self, rooms: &mut RoomManager, room: String) -> (r: Result<SessionAction, ChatError>)
        requires
            old(self).wf(),
            old(rooms).wf(),
        ensures
            final(self).wf(),
            final(rooms).wf(),
            final(self).id() == old(self).id(),
            final(rooms).names() == old(rooms).names(),
            leave_done(*old(self), *final(self), *old(rooms), *final(rooms), room@, r),
    {
        match self.find_joined(&room) {
            None => Ok(SessionAction::Nothing),
            Some(k) => {
                let ghost pre = self.joined();
                let ghost entries = self.joined_rooms@;
                let (name, handle) = self.joined_rooms.remove(k);
                assert(self.joined() =~= pre.remove(k as int));
                assert(entries[k as int].1@.room == room@);
                match rooms.drop_user_session_handle(handle) {
                    Err(e) => Err(e),
                    Ok(()) => Ok(SessionAction::StopForwarding { room: name }),
                }
            },
        }
    }

    /// Delivers the history of `room` as message events.
    fn history(&self, rooms: &RoomManager, room: String) -> (r: Result<SessionAction, ChatError>)
        requires
            rooms.wf(),
        ensures
            has_room(rooms.names(), room@) ==> {
                &&& r is Ok
                &&& r->Ok_0.delivers(replay(rooms.rooms()[room_index(rooms.names(), room@)].history))
            },
            !has_room(rooms.names(), room@) ==> {
                &&& r is Err
                &&& r->Err_0@ == ChatErrorView::RoomNotFound(room@)
            },
    {
        match rooms.get_history(room.as_str()) {
            Err(e) => Err(e),
            Ok(msgs) => {
                let mut events: Vec<Event> = Vec::new();
                let mut i: usize = 0;
                while i < msgs.len()
                    invariant
                        i <= msgs.len(),
                        events.len() == i,
                        forall|j: int| 0 <= j < i ==> (#[trigger] events[j])@ == EventView::UserMessage(msgs[j]@),
                    decreases msgs.len() - i,
                {
                    events.push(Event::UserMessage(msgs[i].duplicate()));
                    i = i + 1;
                }
                assert(events_view(events@) =~= replay(messages_view(msgs@)));
                Ok(SessionAction::Deliver(events))
            },
        }
    }

    /// Carries out one command against `rooms` and says what the connection's
    /// event pump must do next. Errors concern this command alone.
    pub fn handle_user_command(&mut self, rooms: &mut RoomManager, cmd: UserCommand) -> (r: Result<SessionAction, ChatError>)
        requires
            old(self).wf(),
            old(rooms).wf(),
        ensures
            final(self).wf(),
            final(rooms).wf(),
            final(self).id() == old(self).id(),
            final(rooms).names() == old(rooms).names(),
            match cmd {
                UserCommand::JoinRoom { room } => join_done(*old(self), *final(self), *old(rooms), *final(rooms), room@, r),
                UserCommand::LeaveRoom { room } => leave_done(*old(self), *final(self), *old(rooms), *final(rooms), room@, r),
                UserCommand::SendMessage { room, content } => send_done(
                    *old(self),
                    *final(self),
                    *old(rooms),
                    *final(rooms),
                    room@,
                    content@,
                    r,
                ),
                UserCommand::GetHistory { room } => history_done(*old(self), *final(self), *old(rooms), *final(rooms), room@, r),
            },
    {
        match cmd {
            UserCommand::JoinRoom { room } => self.join(rooms, room),
            UserCommand::LeaveRoom { room } => self.leave(rooms, room),
            UserCommand::SendMessage { room, content } => {
                match rooms.send_message(room.as_str(), &self.session_and_user_id, content) {
                    Err(e) => Err(e),
                    Ok(()) => Ok(SessionAction::Nothing),
                }
            },
            UserCommand::GetHistory { room } => self.history(rooms, room),
        }
    }

    /// Leaves every joined room, first joined first, for the end of the
    /// connection. A failure on one room does not stop the others: all are
    /// reported once every room has been attempted.
    pub fn leave_all_rooms(&mut self, rooms: &mut RoomManager) -> (r: Teardown)
        requires
            old(self).wf(),
            old(rooms).wf(),
        ensures
            final(self).wf(),
            final(rooms).wf(),
            final(self).id() == old(self).id(),
            final(rooms).names() == old(rooms).names(),
            final(self).joined() == Seq::<Seq<char>>::empty(),
            strings_view(r.left@) == old(self).joined(),
            final(rooms).rooms() == rooms_after_leaving(old(rooms).names(), old(rooms).rooms(), old(self).joined(), old(self).id()),
            errors_view(r.failed@) == not_found_all(missing_rooms(old(rooms).names(), old(self).joined())),
    {
        let ghost names = rooms.names();
        let ghost id = self.id();
        let ghost joined0 = self.joined();
        let ghost rooms0 = rooms.rooms();
        let mut drained: Vec<(String, UserSessionHandle)> = Vec::new();
        std::mem::swap(&mut drained, &mut self.joined_rooms);
        let mut left: Vec<String> = Vec::new();
        let mut failed: Vec<ChatError> = Vec::new();
        assert(self.joined() =~= Seq::<Seq<char>>::empty());
        assert(strings_view(left@) + drained@.map_values(|e: (String, UserSessionHandle)| e.0@) =~= joined0);
        assert(errors_view(failed@) + not_found_all(missing_rooms(names, joined0)) =~= not_found_all(missing_rooms(names, joined0)));
        while drained.len() > 0
            invariant
                rooms.wf(),
                rooms.names() == names,
                self.wf(),
                self.id() == id,
                self.joined() == Seq::<Seq<char>>::empty(),
                forall|j: int| 0 <= j < drained.len() ==> (#[trigger] drained[j]).1@ == (HandleView { room: drained[j].0@, id }),
                strings_view(left@) + drained@.map_values(|e: (String, UserSessionHandle)| e.0@) == joined0,
                rooms_after_leaving(names, rooms.rooms(), drained@.map_values(|e: (String, UserSessionHandle)| e.0@), id)
                    == rooms_after_leaving(names, rooms0, joined0, id),
                errors_view(failed@) + not_found_all(missing_rooms(names, drained@.map_values(|e: (String, UserSessionHandle)| e.0@)))
                    == not_found_all(missing_rooms(names, joined0)),
            decreases drained.len(),
        {
            let ghost rest = drained@.map_values(|e: (String, UserSessionHandle)| e.0@);
            let ghost errs = errors_view(failed@);
            let ghost lv = strings_view(left@);
            let (name, handle) = drained.remove(0);
            assert(drained@.map_values(|e: (String, UserSessionHandle)| e.0@) =~= rest.drop_first());
            assert(rest[0] == name@);
            match rooms.drop_user_session_handle(handle) {
                Err(e) => {
                    failed.push(e);
                    assert(errors_view(failed@) =~= errs.push(ChatErrorView::RoomNotFound(name@)));
                    assert(not_found_all(missing_rooms(names, rest)) =~= seq![ChatErrorView::RoomNotFound(name@)] + not_found_all(missing_rooms(names, rest.drop_first())));
                    assert(errors_view(failed@) + not_found_all(missing_rooms(names, rest.drop_first())) =~= errs + not_found_all(missing_rooms(names, rest)));
                },
                Ok(()) => {
                    assert(missing_rooms(names, rest) =~= missing_rooms(names, rest.drop_first()));
                },
            }
            left.push(name);
            assert(strings_view(left@) =~= lv.push(rest[0]));
            assert(strings_view(left@) + rest.drop_first() =~= lv + rest);
        }
        assert(drained@.map_values(|e: (String, UserSessionHandle)| e.0@) =~= Seq::<Seq<char>>::empty());
        assert(strings_view(left@) =~= strings_view(left@) + Seq::<Seq<char>>::empty());
        assert(errors_view(failed@) =~= errors_view(failed@) + not_found_all(Seq::<Seq<char>>::empty()));
        Teardown { left, failed }
    }
}

} // verus!
