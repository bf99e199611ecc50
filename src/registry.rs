//! Which sessions are present in one room, grouped by user.

use vstd::prelude::*;
use crate::event::{SessionAndUserId, SessionView};

verus! {

/// Whether some session of `user` is in `present`.
pub open spec fn has_user(present: Set<SessionView>, user: Seq<char>) -> bool {
    exists|s: SessionView| #[trigger] present.contains(s) && s.user_id == user
}

/// The distinct users that have at least one session in `present`.
pub open spec fn users_of(present: Set<SessionView>) -> Set<Seq<char>> {
    Set::new(|u: Seq<char>| has_user(present, u))
}

/// `v` lists the strings of `s` once each, in some order.
pub open spec fn lists_exactly(v: Seq<String>, s: Set<Seq<char>>) -> bool {
    &&& forall|i: int, j: int| 0 <= i < j < v.len() ==> v[i]@ != v[j]@
    &&& forall|i: int| 0 <= i < v.len() ==> s.contains(#[trigger] v[i]@)
    &&& forall|u: Seq<char>| #[trigger] s.contains(u) ==> exists|i: int| 0 <= i < v.len() && v[i]@ == u
}

/// Sessions present in a room. A user is present exactly while at least one
/// of its sessions is, so join and leave notices go out once per user.
pub struct UserRegistry {
    sessions: Vec<SessionAndUserId>,
}

impl View for UserRegistry {
    type V = Set<SessionView>;

    closed spec fn view(&self) -> Set<SessionView> {
        Set::new(|p: SessionView| exists|i: int| 0 <= i < self.sessions.len() && self.sessions[i]@ == p)
    }
}

/// Whether `v` holds the string `s`.
fn contains_string(v: &Vec<String>, s: &String) -> (r: bool)
    ensures
        r == exists|i: int| 0 <= i < v.len() && v[i]@ == s@,
{
    let mut i: usize = 0;
    while i < v.len()
        invariant
            i <= v.len(),
            forall|j: int| 0 <= j < i ==> v[j]@ != s@,
        decreases v.len() - i,
    {
        if v[i] == *s {
            return true;
        }
        i = i + 1;
    }
    false
}

impl UserRegistry {
    /// No session is stored twice.
    pub closed spec fn wf(&self) -> bool {
        forall|i: int, j: int| 0 <= i < j < self.sessions.len() ==> self.sessions[i]@ != self.sessions[j]@
    }

    pub fn new() -> (r: UserRegistry)
        ensures
            r.wf(),
            r@ == Set::<SessionView>::empty(),
    {
        let r = UserRegistry { sessions: Vec::new() };
        assert(r@ =~= Set::<SessionView>::empty());
        r
    }

    /// Index of the stored session equal to `id`, if any.
    fn position(&self, id: &SessionAndUserId) -> (r: Option<usize>)
        requires
            self.wf(),
        ensures
            match r {
                Some(i) => i < self.sessions.len() && self.sessions[i as int]@ == id@,
                None => !self@.contains(id@),
            },
    {
        let mut i: usize = 0;
        while i < self.sessions.len()
            invariant
                i <= self.sessions.len(),
                forall|j: int| 0 <= j < i ==> self.sessions[j]@ != id@,
            decreases self.sessions.len() - i,
        {
            if self.sessions[i].session_id == id.session_id && self.sessions[i].user_id == id.user_id {
                return Some(i);
            }
            i = i + 1;
        }
        None
    }

    /// Whether some stored session belongs to `user_id`.
    fn user_present(&self, user_id: &String) -> (r: bool)
        ensures
            r == has_user(self@, user_id@),
    {
        let mut i: usize = 0;
        while i < self.sessions.len()
            invariant
                i <= self.sessions.len(),
                forall|j: int| 0 <= j < i ==> self.sessions[j]@.user_id != user_id@,
            decreases self.sessions.len() - i,
        {
            if self.sessions[i].user_id == *user_id {
                assert(self@.contains(self.sessions[i as int]@));
                return true;
            }
            i = i + 1;
        }
        proof { lemma_user_absent(self, user_id); }
        false
    }

    /// Records the session; true when it is the user's first in the room.
    pub fn insert(&mut self, id: &SessionAndUserId) -> (first: bool)
        requires
            old(self).wf(),
        ensures
            final(self).wf(),
            final(self)@ == old(self)@.insert(id@),
            first == !has_user(old(self)@, id@.user_id),
    {
        let first = !self.user_present(&id.user_id);
        if self.position(id).is_none() {
            let ghost before = self@;
            let ghost old_sessions = self.sessions@;
            self.sessions.push(id.duplicate());
            assert(self@ =~= before.insert(id@)) by {
                assert forall|p: SessionView| self@.contains(p) implies before.insert(id@).contains(p) by {
                    let i = choose|i: int| 0 <= i < self.sessions.len() && self.sessions[i]@ == p;
                    if i < self.sessions.len() - 1 {
                        assert(before.contains(p));
                    }
                }
                assert(self@.contains(id@)) by {
                    assert(self.sessions[self.sessions.len() - 1]@ == id@);
                }
                assert forall|p: SessionView| before.contains(p) implies self@.contains(p) by {
                    let i = choose|i: int| 0 <= i < old_sessions.len() && old_sessions[i]@ == p;
                    assert(self.sessions[i]@ == p);
                }
            }
            assert forall|i: int, j: int| 0 <= i < j < self.sessions.len() implies self.sessions[i]@ != self.sessions[j]@ by {
                if j == self.sessions.len() - 1 {
                    assert(before.contains(self.sessions[i]@));
                }
            }
        } else {
            assert(self@ =~= self@.insert(id@));
        }
        first
    }

    /// Forgets the session; true when it was the user's last in the room.
    /// A session that is not present is left alone and gives false.
    pub fn remove(&mut self, id: &SessionAndUserId) -> (last: bool)
        requires
            old(self).wf(),
        ensures
            final(self).wf(),
            final(self)@ == old(self)@.remove(id@),
            last == (old(self)@.contains(id@) && !has_user(final(self)@, id@.user_id)),
    {
        match self.position(id) {
            None => {
                assert(self@ =~= self@.remove(id@));
                false
            },
            Some(k) => {
                let ghost before = self@;
                let ghost old_sessions = self.sessions@;
                self.sessions.remove(k);
                assert(self@ =~= before.remove(id@)) by {
                    assert forall|p: SessionView| before.remove(id@).contains(p) implies self@.contains(p) by {
                        let i = choose|i: int| 0 <= i < old_sessions.len() && old_sessions[i]@ == p;
                        if i < k {
                            assert(self.sessions[i]@ == p);
                        } else {
                            assert(i != k);
                            assert(self.sessions[i - 1]@ == p);
                        }
                    }
                    assert forall|p: SessionView| self@.contains(p) implies before.remove(id@).contains(p) by {
                        let i = choose|i: int| 0 <= i < self.sessions.len() && self.sessions[i]@ == p;
                        if i < k {
                            assert(old_sessions[i]@ == p);
                        } else {
                            assert(old_sessions[i + 1]@ == p);
                        }
                    }
                }
                !self.user_present(&id.user_id)
            },
        }
    }

    /// Each user present, once, whatever its number of sessions.
    pub fn get_unique_user_ids(&self) -> (r: Vec<String>)
        ensures
            lists_exactly(r@, users_of(self@)),
    {
        let mut r: Vec<String> = Vec::new();
        let mut i: usize = 0;
        while i < self.sessions.len()
            invariant
                i <= self.sessions.len(),
                forall|a: int, b: int| 0 <= a < b < r.len() ==> r[a]@ != r[b]@,
                forall|a: int| 0 <= a < r.len() ==> users_of(self@).contains(#[trigger] r[a]@),
                forall|j: int| 0 <= j < i ==> exists|a: int| 0 <= a < r.len() && r[a]@ == #[trigger] self.sessions[j]@.user_id,
            decreases self.sessions.len() - i,
        {
            assert(self@.contains(self.sessions[i as int]@));
            let user = &self.sessions[i].user_id;
            if !contains_string(&r, user) {
                let ghost prev = r@;
                r.push(user.clone());
                assert forall|j: int| 0 <= j < i implies exists|a: int| 0 <= a < r.len() && r[a]@ == #[trigger] self.sessions[j]@.user_id by {
                    let a = choose|a: int| 0 <= a < prev.len() && prev[a]@ == self.sessions[j]@.user_id;
                    assert(r[a]@ == prev[a]@);
                }
                assert(r[r.len() - 1]@ == self.sessions[i as int]@.user_id);
            }
            i = i + 1;
        }
        assert forall|u: Seq<char>| #[trigger] users_of(self@).contains(u) implies exists|a: int| 0 <= a < r.len() && r[a]@ == u by {
            let s = choose|s: SessionView| self@.contains(s) && s.user_id == u;
            let j = choose|j: int| 0 <= j < self.sessions.len() && self.sessions[j]@ == s;
            assert(self.sessions[j]@.user_id == u);
        }
        r
    }
}

/// No session of a user that no stored session names.
proof fn lemma_user_absent(reg: &UserRegistry, user_id: &String)
    requires
        forall|j: int| 0 <= j < reg.sessions.len() ==> reg.sessions[j]@.user_id != user_id@,
    ensures
        !has_user(reg@, user_id@),
{
    assert forall|s: SessionView| #[trigger] reg@.contains(s) implies s.user_id != user_id@ by {
        let j = choose|j: int| 0 <= j < reg.sessions.len() && reg.sessions[j]@ == s;
    }
}

} // verus!
