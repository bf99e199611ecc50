//! Laws that hold of rooms and sessions over any sequence of operations.

use vstd::prelude::*;
use crate::event::{ChatError, ChatErrorView, EventView, MessageView, RoomParticipationStatus, SessionView};
use crate::registry::{has_user, users_of};
use crate::room::{last_n, RoomState, MAX_HISTORY};
use crate::room_manager::{has_room, RoomManager};
use crate::session::{join_done, ChatSession, SessionAction};

verus! {

/// The room after each `(user_id, content)` of `sends` is said, in order.
pub open spec fn after_sends(s: RoomState, sends: Seq<(Seq<char>, Seq<char>)>) -> RoomState
    decreases sends.len(),
{
    if sends.len() == 0 {
        s
    } else {
        after_sends(s.with_message(sends[0].0, sends[0].1), sends.drop_first())
    }
}

/// The messages that `sends` says in room `name`.
pub open spec fn messages_of(name: Seq<char>, sends: Seq<(Seq<char>, Seq<char>)>) -> Seq<MessageView> {
    sends.map_values(|p: (Seq<char>, Seq<char>)| MessageView { room: name, user_id: p.0, content: p.1 })
}

/// Keeping the last `n` twice is keeping them once.
pub proof fn lemma_last_n_absorbs<A>(a: Seq<A>, b: Seq<A>, n: nat)
    ensures
        last_n(last_n(a, n) + b, n) == last_n(a + b, n),
{
    if a.len() > n {
        let a1 = last_n(a, n);
        assert(a1.len() == n);
        let x = a1 + b;
        let y = a + b;
        assert(last_n(x, n).len() == n);
        assert(last_n(y, n).len() == n);
        assert forall|k: int| 0 <= k < n implies last_n(x, n)[k] == last_n(y, n)[k] by {
            let kx = x.len() - n + k;
            let ky = y.len() - n + k;
            if kx < n {
                assert(x[kx] == a1[kx]);
                assert(a1[kx] == a[a.len() - n + kx]);
                assert(y[ky] == a[ky]);
            } else {
                assert(x[kx] == b[kx - n]);
                assert(y[ky] == b[ky - a.len()]);
            }
        }
        assert(last_n(x, n) =~= last_n(y, n));
    }
}

/// A room keeps at most `MAX_HISTORY` messages: after any run of sends its
/// history is the last `MAX_HISTORY` of everything said, in the order said.
pub proof fn lemma_history_keeps_last(s: RoomState, sends: Seq<(Seq<char>, Seq<char>)>)
    requires
        s.history.len() <= MAX_HISTORY,
    ensures
        after_sends(s, sends).history == last_n(s.history + messages_of(s.name, sends), MAX_HISTORY as nat),
        after_sends(s, sends).history.len() <= MAX_HISTORY,
        after_sends(s, sends).name == s.name,
    decreases sends.len(),
{
    let n = MAX_HISTORY as nat;
    if sends.len() == 0 {
        assert(s.history + messages_of(s.name, sends) =~= s.history);
    } else {
        let m = s.message(sends[0].0, sends[0].1);
        let s1 = s.with_message(sends[0].0, sends[0].1);
        lemma_history_keeps_last(s1, sends.drop_first());
        let rest = messages_of(s.name, sends.drop_first());
        lemma_last_n_absorbs(s.history.push(m), rest, n);
        assert(s.history.push(m) + rest =~= s.history + messages_of(s.name, sends));
    }
}

/// Starting with no history, more than `MAX_HISTORY` sends leave exactly the
/// last `MAX_HISTORY` messages, oldest first.
pub proof fn lemma_history_after_many_sends(name: Seq<char>, description: Seq<char>, sends: Seq<(Seq<char>, Seq<char>)>)
    requires
        sends.len() > MAX_HISTORY,
    ensures
        after_sends(RoomState::fresh(name, description), sends).history
            == messages_of(name, sends).skip(sends.len() - MAX_HISTORY),
{
    let s = RoomState::fresh(name, description);
    lemma_history_keeps_last(s, sends);
    assert(s.history + messages_of(name, sends) =~= messages_of(name, sends));
}

/// A user's first session in a room broadcasts exactly one `Joined` notice.
pub proof fn lemma_first_join_announced(s: RoomState, id: SessionView)
    requires
        !has_user(s.present, id.user_id),
    ensures
        s.joined(id).published == s.published.push(
            EventView::RoomParticipation { user_id: id.user_id, room: s.name, status: RoomParticipationStatus::Joined },
        ),
{
}

/// Another session of a user already present broadcasts nothing.
pub proof fn lemma_second_session_silent(s: RoomState, first: SessionView, second: SessionView)
    requires
        first.user_id == second.user_id,
    ensures
        s.joined(first).joined(second).published == s.joined(first).published,
{
    assert(s.joined(first).present.contains(first));
}

/// A user's last session leaving broadcasts exactly one `Left` notice.
pub proof fn lemma_last_leave_announced(s: RoomState, id: SessionView)
    requires
        s.present.contains(id),
        forall|o: SessionView| #[trigger] s.present.contains(o) && o.user_id == id.user_id ==> o == id,
    ensures
        s.left(id).published == s.published.push(
            EventView::RoomParticipation { user_id: id.user_id, room: s.name, status: RoomParticipationStatus::Left },
        ),
{
    assert(!has_user(s.present.remove(id), id.user_id));
}

/// A session leaving while another session of its user stays broadcasts nothing.
pub proof fn lemma_non_last_leave_silent(s: RoomState, id: SessionView, other: SessionView)
    requires
        s.present.contains(other),
        other.user_id == id.user_id,
        other != id,
    ensures
        s.left(id).published == s.published,
{
    assert(s.present.remove(id).contains(other));
}

/// The users present do not depend on how many sessions each holds.
pub proof fn lemma_users_ignore_sessions(present: Set<SessionView>, first: SessionView, second: SessionView)
    requires
        first.user_id == second.user_id,
    ensures
        users_of(present.insert(first).insert(second)) == users_of(present.insert(first)),
{
    let a = present.insert(first).insert(second);
    let b = present.insert(first);
    assert forall|u: Seq<char>| users_of(a).contains(u) implies users_of(b).contains(u) by {
        let s = choose|s: SessionView| a.contains(s) && s.user_id == u;
        if s == second {
            assert(b.contains(first));
        } else {
            assert(b.contains(s));
        }
    }
    assert forall|u: Seq<char>| users_of(b).contains(u) implies users_of(a).contains(u) by {
        let s = choose|s: SessionView| b.contains(s) && s.user_id == u;
        assert(a.contains(s));
    }
    assert(users_of(a) =~= users_of(b));
}

/// A message is recorded whoever is present, nobody included, and the send
/// changes nothing but the history and the broadcast record.
pub proof fn lemma_send_recorded_without_listeners(s: RoomState, user_id: Seq<char>, content: Seq<char>)
    requires
        s.history.len() <= MAX_HISTORY,
    ensures
        s.with_message(user_id, content).history.last() == s.message(user_id, content),
        s.with_message(user_id, content).history.len() == if s.history.len() < MAX_HISTORY {
            s.history.len() + 1 as int
        } else {
            MAX_HISTORY as int
        },
        s.with_message(user_id, content).present == s.present,
{
}

/// Joining a room a second time from the same session fails as already
/// joined and leaves every room and the session as they were.
pub proof fn lemma_rejoin_rejected(
    s0: ChatSession,
    s1: ChatSession,
    s2: ChatSession,
    m0: RoomManager,
    m1: RoomManager,
    m2: RoomManager,
    room: Seq<char>,
    first: Result<SessionAction, ChatError>,
    second: Result<SessionAction, ChatError>,
)
    requires
        join_done(s0, s1, m0, m1, room, first),
        first is Ok,
        join_done(s1, s2, m1, m2, room, second),
    ensures
        second is Err,
        second->Err_0@ == ChatErrorView::AlreadyJoined(room),
        m2.rooms() == m1.rooms(),
        s2.joined() == s1.joined(),
{
    assert(s1.joined()[s1.joined().len() - 1] == room);
    assert(has_room(s1.joined(), room));
}

} // verus!
