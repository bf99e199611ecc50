//! The fixed set of rooms, routing each operation to the room it names.

use vstd::prelude::*;
use tokio::sync::broadcast::Receiver;
use crate::event::{ChatError, ChatErrorView, ChatRoomMetadata, Event, SessionAndUserId, UserMessageBroadcastEvent};
use crate::registry::{lists_exactly, users_of};
use crate::room::{messages_view, ChatRoom, HandleView, RoomState, UserSessionHandle};

verus! {

/// What joining a room hands back: the live receiver, the handle to leave
/// with, and the users present right after the join.
pub type RoomJoinResult = (Receiver<Event>, UserSessionHandle, Vec<String>);

/// No name occurs twice.
pub open spec fn distinct_names(names: Seq<Seq<char>>) -> bool {
    forall|i: int, j: int| 0 <= i < j < names.len() ==> names[i] != names[j]
}

pub open spec fn has_room(names: Seq<Seq<char>>, name: Seq<char>) -> bool {
    exists|i: int| 0 <= i < names.len() && names[i] == name
}

/// Position of the room called `name` (meaningful when `has_room`).
pub open spec fn room_index(names: Seq<Seq<char>>, name: Seq<char>) -> int {
    choose|i: int| 0 <= i < names.len() && names[i] == name
}

pub open spec fn metadata_names(m: Seq<ChatRoomMetadata>) -> Seq<Seq<char>> {
    m.map_values(|r: ChatRoomMetadata| r.name@)
}

pub open spec fn metadata_descriptions(m: Seq<ChatRoomMetadata>) -> Seq<Seq<char>> {
    m.map_values(|r: ChatRoomMetadata| r.description@)
}

/// The rooms of a manager as created from `m`, all fresh.
pub open spec fn fresh_rooms(m: Seq<ChatRoomMetadata>) -> Seq<RoomState> {
    m.map_values(|r: ChatRoomMetadata| RoomState::fresh(r.name@, r.description@))
}

/// Owns every room, created once from a list of metadata, and routes
/// operations to them by name.
pub struct RoomManager {
    chat_rooms: Vec<ChatRoom>,
    chat_room_metadata: Vec<ChatRoomMetadata>,
}

impl RoomManager {
    /// Room metadata, in the order given at creation.
    pub closed spec fn metadata(&self) -> Seq<ChatRoomMetadata> {
        self.chat_room_metadata@
    }

    /// Room names, in the order given at creation.
    pub open spec fn names(&self) -> Seq<Seq<char>> {
        metadata_names(self.metadata())
    }

    /// Room states, in the same order as `names`.
    pub closed spec fn rooms(&self) -> Seq<RoomState> {
        self.chat_rooms@.map_values(|r: ChatRoom| r@)
    }

    pub closed spec fn wf(&self) -> bool {
        &&& self.chat_rooms.len() == self.chat_room_metadata.len()
        &&& distinct_names(self.names())
        &&& forall|i: int| 0 <= i < self.chat_rooms.len() ==> (#[trigger] self.chat_rooms[i]).wf()
        &&& forall|i: int| 0 <= i < self.chat_rooms.len() ==> (#[trigger] self.chat_rooms[i])@.name == self.chat_room_metadata[i].name@
    }

    /// One fresh room for each metadata entry; names are unique keys.
    pub fn new(chat_room_metadata: Vec<ChatRoomMetadata>) -> (r: RoomManager)
        requires
            distinct_names(metadata_names(chat_room_metadata@)),
        ensures
            r.wf(),
            r.names() == metadata_names(chat_room_metadata@),
            r.rooms() == fresh_rooms(chat_room_metadata@),
            metadata_descriptions(r.metadata()) == metadata_descriptions(chat_room_metadata@),
    {
        let mut chat_rooms: Vec<ChatRoom> = Vec::new();
        let mut i: usize = 0;
        while i < chat_room_metadata.len()
            invariant
                i <= chat_room_metadata.len(),
                chat_rooms.len() == i,
                forall|j: int| 0 <= j < i ==> (#[trigger] chat_rooms[j]).wf(),
                forall|j: int| 0 <= j < i ==> (#[trigger] chat_rooms[j])@ == RoomState::fresh(
                    chat_room_metadata[j].name@,
                    chat_room_metadata[j].description@,
                ),
            decreases chat_room_metadata.len() - i,
        {
            chat_rooms.push(ChatRoom::new(chat_room_metadata[i].duplicate()));
            i = i + 1;
        }
        let r = RoomManager { chat_rooms, chat_room_metadata };
        assert(r.rooms() =~= fresh_rooms(chat_room_metadata@));
        r
    }

    /// The metadata of every room, in creation order.
    pub fn chat_room_metadata(&self) -> (r: &Vec<ChatRoomMetadata>)
        ensures
            r@ == self.metadata(),
    {
        &self.chat_room_metadata
    }

    /// Position of the room called `room_name`, if there is one.
    fn find_room(&self, room_name: &str) -> (r: Option<usize>)
        requires
            self.wf(),
        ensures
            match r {
                Some(i) => has_room(self.names(), room_name@) && i as int == room_index(self.names(), room_name@),
                None => !has_room(self.names(), room_name@),
            },
    {
        let key = room_name.to_string();
        let mut i: usize = 0;
        while i < self.chat_room_metadata.len()
            invariant
                self.wf(),
                key@ == room_name@,
                i <= self.chat_room_metadata.len(),
                forall|j: int| 0 <= j < i ==> self.names()[j] != room_name@,
            decreases self.chat_room_metadata.len() - i,
        {
            if self.chat_room_metadata[i].name == key {
                assert(self.names()[i as int] == room_name@);
                return Some(i);
            }
            i = i + 1;
        }
        None
    }

    /// Joins `room_name` for this session; also gives the users present right
    /// after the join. Fails when no room has that name.
    pub fn join_room(&mut self, room_name: &str, session_and_user_id: &SessionAndUserId) -> (r: Result<RoomJoinResult, ChatError>)
        requires
            old(self).wf(),
        ensures
            final(self).wf(),
            final(self).names() == old(self).names(),
            has_room(old(self).names(), room_name@) ==> {
                let i = room_index(old(self).names(), room_name@);
                &&& r is Ok
                &&& final(self).rooms() == old(self).rooms().update(i, old(self).rooms()[i].joined(session_and_user_id@))
                &&& r->Ok_0.1@ == (HandleView { room: room_name@, id: session_and_user_id@ })
                &&& lists_exactly(r->Ok_0.2@, users_of(final(self).rooms()[i].present))
            },
            !has_room(old(self).names(), room_name@) ==> {
                &&& r is Err
                &&& r->Err_0@ == ChatErrorView::RoomNotFound(room_name@)
                &&& final(self).rooms() == old(self).rooms()
            },
    {
        match self.find_room(room_name) {
            None => Err(ChatError::RoomNotFound { room: room_name.to_string() }),
            Some(i) => {
                let ghost pre = self.rooms();
                let (rx, handle) = self.chat_rooms[i].join(session_and_user_id);
                let users = self.chat_rooms[i].get_unique_user_ids();
                assert(self.rooms() =~= pre.update(i as int, pre[i as int].joined(session_and_user_id@)));
                Ok((rx, handle, users))
            },
        }
    }

    /// Leaves the room named in the handle. Fails when no room has that name.
    pub fn drop_user_session_handle(&mut self, handle: UserSessionHandle) -> (r: Result<(), ChatError>)
        requires
            old(self).wf(),
        ensures
            final(self).wf(),
            final(self).names() == old(self).names(),
            has_room(old(self).names(), handle@.room) ==> {
                let i = room_index(old(self).names(), handle@.room);
                &&& r is Ok
                &&& final(self).rooms() == old(self).rooms().update(i, old(self).rooms()[i].left(handle@.id))
            },
            !has_room(old(self).names(), handle@.room) ==> {
                &&& r is Err
                &&& r->Err_0@ == ChatErrorView::RoomNotFound(handle@.room)
                &&& final(self).rooms() == old(self).rooms()
            },
    {
        match self.find_room(handle.room()) {
            None => Err(ChatError::RoomNotFound { room: handle.room().to_string() }),
            Some(i) => {
                let ghost pre = self.rooms();
                let ghost id = handle@.id;
                self.chat_rooms[i].leave(handle);
                assert(self.rooms() =~= pre.update(i as int, pre[i as int].left(id)));
                Ok(())
            },
        }
    }

    /// Says `content` in `room_name` as this session's user. Fails when no
    /// room has that name.
    pub fn send_message(&mut self, room_name: &str, session_and_user_id: &SessionAndUserId, content: String) -> (r: Result<(), ChatError>)
        requires
            old(self).wf(),
        ensures
            final(self).wf(),
            final(self).names() == old(self).names(),
            has_room(old(self).names(), room_name@) ==> {
                let i = room_index(old(self).names(), room_name@);
                &&& r is Ok
                &&& final(self).rooms() == old(self).rooms().update(i, old(self).rooms()[i].with_message(session_and_user_id@.user_id, content@))
            },
            !has_room(old(self).names(), room_name@) ==> {
                &&& r is Err
                &&& r->Err_0@ == ChatErrorView::RoomNotFound(room_name@)
                &&& final(self).rooms() == old(self).rooms()
            },
    {
        match self.find_room(room_name) {
            None => Err(ChatError::RoomNotFound { room: room_name.to_string() }),
            Some(i) => {
                let ghost pre = self.rooms();
                let ghost c = content@;
                self.chat_rooms[i].send_message(session_and_user_id, content);
                assert(self.rooms() =~= pre.update(i as int, pre[i as int].with_message(session_and_user_id@.user_id, c)));
                Ok(())
            },
        }
    }

    /// The retained messages of `room_name`, oldest first. Fails when no room
    /// has that name.
    pub fn get_history(&self, room_name: &str) -> (r: Result<Vec<UserMessageBroadcastEvent>, ChatError>)
        requires
            self.wf(),
        ensures
            has_room(self.names(), room_name@) ==> {
                &&& r is Ok
                &&& messages_view(r->Ok_0@) == self.rooms()[room_index(self.names(), room_name@)].history
                &&& r->Ok_0.len() <= crate::room::MAX_HISTORY
            },
            !has_room(self.names(), room_name@) ==> {
                &&& r is Err
                &&& r->Err_0@ == ChatErrorView::RoomNotFound(room_name@)
            },
    {
        match self.find_room(room_name) {
            None => Err(ChatError::RoomNotFound { room: room_name.to_string() }),
            Some(i) => Ok(self.chat_rooms[i].get_history()),
        }
    }
}

} // verus!
