//! One chat room: who is present, a capped message history, and the
//! broadcast of messages and of users arriving and departing.

use vstd::prelude::*;
use tokio::sync::broadcast::{Receiver, Sender};
use crate::broadcast::{clone_sender, new_channel, publish, subscribe};
use crate::event::{
    ChatRoomMetadata, Event, EventView, MessageView, RoomParticipationBroadcastEvent,
    RoomParticipationStatus, SessionAndUserId, SessionView, UserMessageBroadcastEvent,
};
use crate::registry::{has_user, lists_exactly, users_of, UserRegistry};

verus! {

/// Number of messages a room keeps.
pub const MAX_HISTORY: usize = 10;

/// The last `n` elements of `s` (all of it when it is shorter).
pub open spec fn last_n<A>(s: Seq<A>, n: nat) -> Seq<A> {
    if s.len() <= n {
        s
    } else {
        s.skip(s.len() - n)
    }
}

/// Mathematical state of a room.
pub struct RoomState {
    pub name: Seq<char>,
    pub description: Seq<char>,
    /// Sessions present.
    pub present: Set<SessionView>,
    /// Retained messages, oldest first.
    pub history: Seq<MessageView>,
    /// Every event handed to the room's broadcast channel, in order.
    pub published: Seq<EventView>,
}

impl RoomState {
    /// A fresh room: nobody present, nothing said.
    pub open spec fn fresh(name: Seq<char>, description: Seq<char>) -> RoomState {
        RoomState {
            name,
            description,
            present: Set::empty(),
            history: Seq::empty(),
            published: Seq::empty(),
        }
    }

    pub open spec fn participation(self, user_id: Seq<char>, status: RoomParticipationStatus) -> EventView {
        EventView::RoomParticipation { user_id, room: self.name, status }
    }

    /// The state after session `id` joins: a `Joined` notice goes out only
    /// for the user's first session.
    pub open spec fn joined(self, id: SessionView) -> RoomState {
        RoomState {
            present: self.present.insert(id),
            published: if has_user(self.present, id.user_id) {
                self.published
            } else {
                self.published.push(self.participation(id.user_id, RoomParticipationStatus::Joined))
            },
            ..self
        }
    }

    /// The state after session `id` leaves: a `Left` notice goes out only when
    /// it was the user's last session; an absent session changes nothing.
    pub open spec fn left(self, id: SessionView) -> RoomState {
        RoomState {
            present: self.present.remove(id),
            published: if self.present.contains(id) && !has_user(self.present.remove(id), id.user_id) {
                self.published.push(self.participation(id.user_id, RoomParticipationStatus::Left))
            } else {
                self.published
            },
            ..self
        }
    }

    pub open spec fn message(self, user_id: Seq<char>, content: Seq<char>) -> MessageView {
        MessageView { room: self.name, user_id, content }
    }

    /// The state after `user_id` says `content`: the message is recorded, the
    /// oldest falling out beyond `MAX_HISTORY`, and broadcast.
    pub open spec fn with_message(self, user_id: Seq<char>, content: Seq<char>) -> RoomState {
        RoomState {
            history: last_n(self.history.push(self.message(user_id, content)), MAX_HISTORY as nat),
            published: self.published.push(EventView::UserMessage(self.message(user_id, content))),
            ..self
        }
    }
}

/// Capability proving that a session joined a room; consumed when it leaves.
#[derive(Debug)]
pub struct UserSessionHandle {
    room: String,
    broadcast_tx: Sender<Event>,
    session_and_user_id: SessionAndUserId,
}

/// Mathematical value of a handle: the room and the session.
pub struct HandleView {
    pub room: Seq<char>,
    pub id: SessionView,
}

impl View for UserSessionHandle {
    type V = HandleView;

    closed spec fn view(&self) -> HandleView {
        HandleView { room: self.room@, id: self.session_and_user_id@ }
    }
}

impl UserSessionHandle {
    pub fn new(room: String, broadcast_tx: Sender<Event>, session_and_user_id: SessionAndUserId) -> (r: Self)
        ensures
            r@ == (HandleView { room: room@, id: session_and_user_id@ }),
    {
        UserSessionHandle { room, broadcast_tx, session_and_user_id }
    }

    pub fn room(&self) -> (r: &str)
        ensures
            r@ == self@.room,
    {
        self.room.as_str()
    }

    pub fn user_id(&self) -> (r: &str)
        ensures
            r@ == self@.id.user_id,
    {
        self.session_and_user_id.user_id.as_str()
    }

    pub fn session_and_user_id(&self) -> (r: &SessionAndUserId)
        ensures
            r@ == self@.id,
    {
        &self.session_and_user_id
    }

    /// The sending end into the room's broadcast channel.
    pub fn broadcast_sender(&self) -> &Sender<Event> {
        &self.broadcast_tx
    }
}

/// One room's participants, broadcast channel and capped history.
pub struct ChatRoom {
    metadata: ChatRoomMetadata,
    broadcast_tx: Sender<Event>,
    user_registry: UserRegistry,
    history: Vec<UserMessageBroadcastEvent>,
    /// Every event handed to `broadcast_tx` so far, in order.
    published: Ghost<Seq<EventView>>,
}

pub open spec fn messages_view(v: Seq<UserMessageBroadcastEvent>) -> Seq<MessageView> {
    v.map_values(|m: UserMessageBroadcastEvent| m@)
}

impl View for ChatRoom {
    type V = RoomState;

    closed spec fn view(&self) -> RoomState {
        RoomState {
            name: self.metadata.name@,
            description: self.metadata.description@,
            present: self.user_registry@,
            history: messages_view(self.history@),
            published: self.published@,
        }
    }
}

impl ChatRoom {
    pub closed spec fn wf(&self) -> bool {
        self.user_registry.wf() && self.history.len() <= MAX_HISTORY
    }

    /// A well-formed room holds at most `MAX_HISTORY` messages.
    pub proof fn lemma_history_bounded(&self)
        requires
            self.wf(),
        ensures
            self@.history.len() <= MAX_HISTORY,
    {
    }

    /// A room with nobody present and no history.
    pub fn new(metadata: ChatRoomMetadata) -> (r: ChatRoom)
        ensures
            r.wf(),
            r@ == RoomState::fresh(metadata.name@, metadata.description@),
    {
        let r = ChatRoom {
            metadata,
            broadcast_tx: new_channel(),
            user_registry: UserRegistry::new(),
            history: Vec::new(),
            published: Ghost(Seq::empty()),
        };
        assert(messages_view(r.history@) =~= Seq::<MessageView>::empty());
        r
    }

    /// Each user present, once.
    pub fn get_unique_user_ids(&self) -> (r: Vec<String>)
        ensures
            lists_exactly(r@, users_of(self@.present)),
    {
        self.user_registry.get_unique_user_ids()
    }

    /// Records a message in the history, dropping the oldest beyond
    /// `MAX_HISTORY`, and broadcasts it.
    pub fn send_message(&mut self, session_and_user_id: &SessionAndUserId, content: String)
        requires
            old(self).wf(),
        ensures
            final(self).wf(),
            final(self)@ == old(self)@.with_message(session_and_user_id@.user_id, content@),
    {
        let ghost pre = self@;
        let msg = UserMessageBroadcastEvent {
            room: self.metadata.name.clone(),
            user_id: session_and_user_id.user_id.clone(),
            content,
        };
        let ghost h = self.history@;
        if self.history.len() == MAX_HISTORY {
            self.history.remove(0);
        }
        let ghost mid = self.history@;
        self.history.push(msg.duplicate());
        proof {
            let m = pre.message(session_and_user_id@.user_id, content@);
            assert(msg@ == m);
            if h.len() == MAX_HISTORY {
                assert(mid =~= h.skip(1));
            }
            assert(messages_view(self.history@) =~= last_n(messages_view(h).push(m), MAX_HISTORY as nat));
            self.published@ = self.published@.push(EventView::UserMessage(m));
        }
        publish(&self.broadcast_tx, Event::UserMessage(msg));
    }

    /// The retained messages, oldest first.
    pub fn get_history(&self) -> (r: Vec<UserMessageBroadcastEvent>)
        requires
            self.wf(),
        ensures
            messages_view(r@) == self@.history,
            r.len() <= MAX_HISTORY,
    {
        let mut r: Vec<UserMessageBroadcastEvent> = Vec::new();
        let mut i: usize = 0;
        while i < self.history.len()
            invariant
                i <= self.history.len(),
                r.len() == i,
                forall|j: int| 0 <= j < i ==> r[j]@ == self.history[j]@,
            decreases self.history.len() - i,
        {
            r.push(self.history[i].duplicate());
            i = i + 1;
        }
        assert(messages_view(r@) =~= messages_view(self.history@));
        r
    }

    /// Adds a session: it gets its own receiver of everything broadcast from
    /// now on and a handle to leave with; the user's first session also
    /// broadcasts a `Joined` notice.
    pub fn join(&mut self, session_and_user_id: &SessionAndUserId) -> (r: (Receiver<Event>, UserSessionHandle))
        requires
            old(self).wf(),
        ensures
            final(self).wf(),
            final(self)@ == old(self)@.joined(session_and_user_id@),
            r.1@ == (HandleView { room: old(self)@.name, id: session_and_user_id@ }),
    {
        let broadcast_tx = clone_sender(&self.broadcast_tx);
        let broadcast_rx = subscribe(&broadcast_tx);
        let handle = UserSessionHandle::new(
            self.metadata.name.clone(),
            broadcast_tx,
            session_and_user_id.duplicate(),
        );
        if self.user_registry.insert(session_and_user_id) {
            let evt = Event::RoomParticipation(
                RoomParticipationBroadcastEvent {
                    user_id: session_and_user_id.user_id.clone(),
                    room: self.metadata.name.clone(),
                    status: RoomParticipationStatus::Joined,
                },
            );
            proof {
                self.published@ = self.published@.push(evt@);
            }
            publish(&self.broadcast_tx, evt);
        }
        (broadcast_rx, handle)
    }

    /// Removes the handle's session; the user's last session also broadcasts
    /// a `Left` notice. A session that is not present changes nothing.
    pub fn leave(&mut self, handle: UserSessionHandle)
        requires
            old(self).wf(),
        ensures
            final(self).wf(),
            final(self)@ == old(self)@.left(handle@.id),
    {
        if self.user_registry.remove(&handle.session_and_user_id) {
            let evt = Event::RoomParticipation(
                RoomParticipationBroadcastEvent {
                    user_id: handle.session_and_user_id.user_id.clone(),
                    room: self.metadata.name.clone(),
                    status: RoomParticipationStatus::Left,
                },
            );
            proof {
                self.published@ = self.published@.push(evt@);
            }
            publish(&self.broadcast_tx, evt);
        }
    }
}

} // verus!
