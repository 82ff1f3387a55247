//! The queue store: who waits, in which order, and who is being served.

use std::collections::HashMap;
use vstd::prelude::*;
use vstd::std_specs::hash::group_hash_axioms;
use crate::model::QueueEntry;
use crate::model::ReasonView;
use crate::model::User;
use crate::model::UserQueueState;
use crate::model::UserView;
use crate::model::entries_view;

verus! {

/// The mathematical value of a [`Queue`].
#[verifier::ext_equal]
pub struct QueueView {
    /// The participants in the order in which they were first seen.
    pub order: Seq<i64>,
    /// Each participant's session.
    pub sessions: Map<i64, UserView>,
    /// The participant whose ticket staff are handling, if any.
    pub current: Option<i64>,
}

impl QueueView {
    /// The part of the invariant that the store's own operations rest on:
    /// `order` lists every participant that has a session, and only those,
    /// each exactly once.
    pub open spec fn structural(self) -> bool {
        &&& self.order.no_duplicates()
        &&& forall|id: i64| #[trigger] self.order.contains(id) <==> self.sessions.contains_key(id)
    }

    /// The invariant of the store: it is [`Self::structural`], each session
    /// is filed under its own id, a queued session holds no transcript, and
    /// the current ticket is a queued session of the store.
    pub open spec fn wf(self) -> bool {
        &&& self.structural()
        &&& forall|id: i64| #[trigger]
            self.sessions.contains_key(id) ==> {
                &&& self.sessions[id].user_id == id
                &&& self.sessions[id].state == UserQueueState::InQueue
                    ==> self.sessions[id].messages.len() == 0
            }
        &&& match self.current {
            Some(c) => self.sessions.contains_key(c) && self.sessions[c].state
                == UserQueueState::InQueue,
            None => true,
        }
    }

    /// The store without any participant.
    pub open spec fn empty() -> QueueView {
        QueueView { order: Seq::empty(), sessions: Map::empty(), current: None }
    }

    /// The store after `user_id` was looked up at time `now`: unchanged if
    /// the participant is known, else with a fresh session at the tail.
    pub open spec fn get_or_create(self, user_id: i64, now: u64) -> QueueView {
        if self.sessions.contains_key(user_id) {
            self
        } else {
            QueueView {
                order: self.order.push(user_id),
                sessions: self.sessions.insert(user_id, UserView::initial(user_id, now)),
                current: self.current,
            }
        }
    }

    /// Whether `session` may be filed under `user_id` without harm to the
    /// invariant: it carries that id, holds no transcript once queued, and
    /// is queued if it is the current ticket.
    pub open spec fn admits(self, user_id: i64, session: UserView) -> bool {
        &&& session.user_id == user_id
        &&& session.state == UserQueueState::InQueue ==> session.messages.len() == 0
        &&& self.current == Some(user_id) ==> session.state == UserQueueState::InQueue
    }

    /// The store with the session of `user_id` replaced.
    pub open spec fn with_session(self, user_id: i64, session: UserView) -> QueueView {
        QueueView {
            order: self.order,
            sessions: self.sessions.insert(user_id, session),
            current: self.current,
        }
    }

    /// The store without `user_id`; no ticket is current afterwards if this
    /// one was.
    pub open spec fn remove(self, user_id: i64) -> QueueView {
        if self.sessions.contains_key(user_id) {
            QueueView {
                order: self.order.remove(self.order.index_of(user_id)),
                sessions: self.sessions.remove(user_id),
                current: if self.current == Some(user_id) {
                    None
                } else {
                    self.current
                },
            }
        } else {
            self
        }
    }

    /// Whether `user_id` has finished onboarding and is not being served.
    pub open spec fn is_waiting(self, user_id: i64) -> bool {
        &&& self.sessions.contains_key(user_id)
        &&& self.sessions[user_id].state == UserQueueState::InQueue
        &&& self.current != Some(user_id)
    }

    /// [`Self::is_waiting`] as a predicate.
    pub open spec fn waiting_pred(self) -> spec_fn(i64) -> bool {
        |user_id: i64| self.is_waiting(user_id)
    }

    /// The waiting participants, first come first.
    pub open spec fn waiting(self) -> Seq<i64> {
        self.order.filter(self.waiting_pred())
    }

    /// The waiting participants with their reasons, first come first.
    pub open spec fn listing(self) -> Seq<(i64, ReasonView)> {
        let w = self.waiting();
        Seq::new(w.len(), |i: int| (w[i], self.sessions[w[i]].inquiry.reason))
    }

    /// The participant to be served next: the first one waiting.
    pub open spec fn next_waiting(self) -> Option<i64> {
        if self.waiting().len() > 0 {
            Some(self.waiting()[0])
        } else {
            None
        }
    }

    /// The store after the next waiting participant became current;
    /// unchanged if nobody waits.
    pub open spec fn advance_current(self) -> QueueView {
        match self.next_waiting() {
            Some(next) => QueueView { order: self.order, sessions: self.sessions, current: Some(next) },
            None => self,
        }
    }
}

/// Taking one item out of a duplicate-free sequence leaves a duplicate-free
/// sequence that holds the same items but that one.
pub proof fn lemma_remove_no_duplicates(s: Seq<i64>, p: int)
    requires
        s.no_duplicates(),
        0 <= p < s.len(),
    ensures
        s.remove(p).no_duplicates(),
        s.index_of(s[p]) == p,
        forall|x: i64| #[trigger] s.remove(p).contains(x) <==> (s.contains(x) && x != s[p]),
{
    let r = s.remove(p);
    s.remove_ensures(p);
    assert forall|x: i64| #[trigger] r.contains(x) <==> (s.contains(x) && x != s[p]) by {
        if r.contains(x) {
            let i = choose|i: int| 0 <= i < r.len() && r[i] == x;
            if i < p {
                assert(s[i] == x);
            } else {
                assert(s[i + 1] == x);
            }
        }
        if s.contains(x) && x != s[p] {
            let j = choose|j: int| 0 <= j < s.len() && s[j] == x;
            if j < p {
                assert(r[j] == x);
            } else {
                assert(r[j - 1] == x);
            }
        }
    }
    assert forall|i: int, j: int| 0 <= i < r.len() && 0 <= j < r.len() && i != j implies r[i]
        != r[j] by {
        let si = if i < p { i } else { i + 1 };
        let sj = if j < p { j } else { j + 1 };
        assert(r[i] == s[si]);
        assert(r[j] == s[sj]);
    }
}

/// Looking a participant up keeps the structural part of the invariant,
/// and the whole of it if it held, and leaves the participant in the order
/// exactly once.
pub proof fn lemma_get_or_create_wf(q: QueueView, user_id: i64, now: u64)
    requires
        q.structural(),
    ensures
        q.get_or_create(user_id, now).structural(),
        q.wf() ==> q.get_or_create(user_id, now).wf(),
        q.get_or_create(user_id, now).sessions.contains_key(user_id),
        q.get_or_create(user_id, now).order.contains(user_id),
        forall|i: int, j: int|
            #![trigger q.get_or_create(user_id, now).order[i], q.get_or_create(user_id, now).order[j]]
            {
                let order = q.get_or_create(user_id, now).order;
                0 <= i < order.len() && 0 <= j < order.len() && order[i] == user_id && order[j]
                    == user_id ==> i == j
            },
{
    let r = q.get_or_create(user_id, now);
    if !q.sessions.contains_key(user_id) {
        assert(!q.order.contains(user_id));
        assert(r.order[q.order.len() as int] == user_id);
        assert forall|id: i64| #[trigger] r.order.contains(id) <==> r.sessions.contains_key(id) by {
            if r.order.contains(id) {
                let i = choose|i: int| 0 <= i < r.order.len() && r.order[i] == id;
                if i < q.order.len() {
                    assert(q.order[i] == id);
                    assert(q.order.contains(id));
                }
            }
            if r.sessions.contains_key(id) && id != user_id {
                assert(q.order.contains(id));
                let i = choose|i: int| 0 <= i < q.order.len() && q.order[i] == id;
                assert(r.order[i] == id);
            }
        }
        assert forall|i: int, j: int|
            0 <= i < r.order.len() && 0 <= j < r.order.len() && i != j implies r.order[i]
            != r.order[j] by {
            if i < q.order.len() {
                assert(q.order.contains(q.order[i]));
            }
            if j < q.order.len() {
                assert(q.order.contains(q.order[j]));
            }
        }
    } else {
        assert(q.order.contains(user_id));
    }
}

/// Replacing the session of a participant of the store keeps the
/// structural part of the invariant, whatever the new session holds.
pub proof fn lemma_with_session_structural(q: QueueView, user_id: i64, session: UserView)
    requires
        q.structural(),
        q.sessions.contains_key(user_id),
    ensures
        q.with_session(user_id, session).structural(),
{
    let r = q.with_session(user_id, session);
    assert forall|id: i64| #[trigger] r.order.contains(id) <==> r.sessions.contains_key(id) by {
        assert(q.order.contains(id) <==> q.sessions.contains_key(id));
    }
}

/// Replacing a session by one that the store admits keeps the invariant.
pub proof fn lemma_with_session_wf(q: QueueView, user_id: i64, session: UserView)
    requires
        q.wf(),
        q.sessions.contains_key(user_id),
        q.admits(user_id, session),
    ensures
        q.with_session(user_id, session).wf(),
{
    let r = q.with_session(user_id, session);
    assert forall|id: i64| #[trigger] r.order.contains(id) <==> r.sessions.contains_key(id) by {
        assert(q.order.contains(id) <==> q.sessions.contains_key(id));
    }
}

/// The ordered store of sessions.
pub struct Queue {
    order: Vec<i64>,
    users: HashMap<i64, User>,
    current: Option<i64>,
}

impl View for Queue {
    type V = QueueView;

    closed spec fn view(&self) -> QueueView {
        QueueView {
            order: self.order@,
            sessions: Map::new(|k: i64| self.users@.contains_key(k), |k: i64| self.users@[k]@),
            current: self.current,
        }
    }
}

impl Queue {
    /// Whether the store's invariant holds.
    pub open spec fn wf(&self) -> bool {
        self@.wf()
    }

    /// An empty store.
    pub fn new() -> (r: Queue)
        ensures
            r@ == QueueView::empty(),
            r.wf(),
    {
        broadcast use group_hash_axioms;

        let r = Queue { order: Vec::new(), users: HashMap::new(), current: None };
        assert(r@.sessions =~= Map::empty());
        r
    }

    /// The position of `user_id` in the order of arrival.
    pub fn user_pos(&self, user_id: i64) -> (r: Option<usize>)
        ensures
            match r {
                Some(p) => p < self@.order.len() && self@.order[p as int] == user_id
                    && forall|j: int| 0 <= j < p ==> self@.order[j] != user_id,
                None => !self@.order.contains(user_id),
            },
    {
        let mut pos: usize = 0;
        while pos < self.order.len()
            invariant
                pos <= self.order.len(),
                forall|j: int| 0 <= j < pos ==> self.order@[j] != user_id,
            decreases self.order.len() - pos,
        {
            if self.order[pos] == user_id {
                return Some(pos);
            }
            pos += 1;
        }
        None
    }

    /// Looks `user_id` up, creating a fresh session at the tail of the order
    /// if there is none yet, and hands the session out to be changed. The
    /// store afterwards holds what the caller leaves in the session. It
    /// stays structurally sound whatever that is, and keeps the whole
    /// invariant if that held before and the store admits the session.
    pub fn user(&mut self, user_id: i64, now: u64) -> (r: &mut User)
        requires
            old(self)@.structural(),
        ensures
            (*r)@ == old(self)@.get_or_create(user_id, now).sessions[user_id],
            final(self)@ =~= old(self)@.get_or_create(user_id, now).with_session(
                user_id,
                (*final(r))@,
            ),
            final(self)@.structural(),
            old(self).wf() && old(self)@.get_or_create(user_id, now).admits(user_id, (*final(r))@)
                ==> final(self).wf(),
    {
        broadcast use group_hash_axioms;

        let pos = self.user_pos(user_id);
        if pos.is_none() {
            self.order.push(user_id);
        } else {
            assert(self@.order.contains(self@.order[pos.unwrap() as int]));
        }
        proof {
            let q1 = old(self)@.get_or_create(user_id, now);
            lemma_get_or_create_wf(old(self)@, user_id, now);
            assert forall|v: UserView, q2: QueueView|
                q2.order == q1.order && q2.current == q1.current && q2.sessions.dom()
                    == q1.sessions.dom() && q2.sessions[user_id] == v && (forall|k: i64|
                    k != user_id ==> q2.sessions[k] == q1.sessions[k]) implies #[trigger]
                q2.structural() && (q1.wf() && #[trigger] q1.admits(user_id, v) ==> q2.wf()) by {
                assert(q2 =~= q1.with_session(user_id, v));
                lemma_with_session_structural(q1, user_id, v);
                if q1.wf() && q1.admits(user_id, v) {
                    lemma_with_session_wf(q1, user_id, v);
                }
            }
        }
        self.users.entry(user_id).or_insert(User::initial(user_id, now))
    }

    /// The session of `user_id`, if there is one.
    pub fn session(&self, user_id: i64) -> (r: Option<&User>)
        ensures
            match r {
                Some(u) => self@.sessions.contains_key(user_id) && u@ == self@.sessions[user_id],
                None => !self@.sessions.contains_key(user_id),
            },
    {
        broadcast use group_hash_axioms;

        self.users.get(&user_id)
    }

    /// The participants in the order in which they were first seen.
    pub fn order(&self) -> (r: &Vec<i64>)
        ensures
            r@ == self@.order,
    {
        &self.order
    }

    /// The participant whose ticket staff are handling, if any.
    pub fn current(&self) -> (r: Option<i64>)
        ensures
            r == self@.current,
    {
        self.current
    }

    /// Takes `user_id` out of the store and hands back its session. If the
    /// ticket was the current one, no ticket is current afterwards. The
    /// store keeps as much of its invariant as held before.
    pub fn remove(&mut self, user_id: i64) -> (r: Option<User>)
        requires
            old(self)@.structural(),
        ensures
            final(self)@.structural(),
            old(self).wf() ==> final(self).wf(),
            final(self)@ == old(self)@.remove(user_id),
            match r {
                Some(u) => old(self)@.sessions.contains_key(user_id) && u@ == old(
                    self,
                )@.sessions[user_id],
                None => !old(self)@.sessions.contains_key(user_id),
            },
    {
        broadcast use group_hash_axioms;

        match self.user_pos(user_id) {
            None => None,
            Some(pos) => {
                proof {
                    lemma_remove_no_duplicates(self.order@, pos as int);
                    assert(self@.order.contains(self@.order[pos as int]));
                }
                self.order.remove(pos);
                let removed = self.users.remove(&user_id);
                match self.current {
                    Some(c) => {
                        if c == user_id {
                            self.current = None;
                        }
                    },
                    None => {},
                }
                proof {
                    assert(self@.sessions =~= old(self)@.sessions.remove(user_id));
                }
                removed
            },
        }
    }

    /// The waiting participants, first come first.
    pub fn waiting(&self) -> (r: Vec<i64>)
        ensures
            r@ == self@.waiting(),
            forall|k: int| 0 <= k < r@.len() ==> self@.is_waiting(#[trigger] r@[k]),
    {
        broadcast use group_hash_axioms;

        let mut out: Vec<i64> = Vec::new();
        let mut i: usize = 0;
        let ghost pred = self@.waiting_pred();
        proof {
            assert(self.order@.take(0) =~= Seq::<i64>::empty());
            reveal(Seq::filter);
        }
        while i < self.order.len()
            invariant
                i <= self.order.len(),
                pred == self@.waiting_pred(),
                out@ == self.order@.take(i as int).filter(pred),
                forall|k: int| 0 <= k < out@.len() ==> self@.is_waiting(#[trigger] out@[k]),
            decreases self.order.len() - i,
        {
            let id = self.order[i];
            let waits = match self.users.get(&id) {
                Some(u) => {
                    let queued = match u.state {
                        UserQueueState::InQueue => true,
                        _ => false,
                    };
                    let served = match self.current {
                        Some(c) => c == id,
                        None => false,
                    };
                    queued && !served
                },
                None => false,
            };
            proof {
                assert(self.order@.take(i as int + 1) =~= self.order@.take(i as int).push(id));
                self.order@.take(i as int).lemma_filter_push(id, pred);
                assert(waits == pred(id));
            }
            if waits {
                out.push(id);
            }
            i += 1;
        }
        proof {
            assert(self.order@.take(i as int) =~= self.order@);
        }
        out
    }

    /// The waiting participants with their reasons, first come first.
    pub fn listing(&self) -> (r: Vec<QueueEntry>)
        ensures
            entries_view(r@) == self@.listing(),
    {
        broadcast use group_hash_axioms;

        let ids = self.waiting();
        let mut out: Vec<QueueEntry> = Vec::new();
        let mut i: usize = 0;
        while i < ids.len()
            invariant
                i <= ids.len(),
                ids@ == self@.waiting(),
                forall|k: int| 0 <= k < ids@.len() ==> self@.is_waiting(#[trigger] ids@[k]),
                out@.len() == i,
                forall|k: int|
                    0 <= k < i ==> (#[trigger] out@[k])@ == (
                        ids@[k],
                        self@.sessions[ids@[k]].inquiry.reason,
                    ),
            decreases ids.len() - i,
        {
            let id = ids[i];
            assert(self@.is_waiting(ids@[i as int]));
            match self.users.get(&id) {
                Some(u) => {
                    out.push(QueueEntry { user_id: id, reason: u.inquiry.reason.duplicate() });
                },
                None => {
                    assert(false);
                },
            }
            i += 1;
        }
        proof {
            assert(entries_view(out@) =~= self@.listing());
        }
        out
    }

    /// Makes the first waiting participant the current ticket and returns
    /// it. Nothing changes if nobody waits. The store keeps as much of its
    /// invariant as held before.
    pub fn advance_current(&mut self) -> (r: Option<i64>)
        ensures
            old(self)@.structural() ==> final(self)@.structural(),
            old(self).wf() ==> final(self).wf(),
            r == old(self)@.next_waiting(),
            final(self)@ == old(self)@.advance_current(),
    {
        let ids = self.waiting();
        if ids.len() > 0 {
            let next = ids[0];
            assert(self@.is_waiting(ids@[0]));
            self.current = Some(next);
            Some(next)
        } else {
            None
        }
    }

    /// Takes the session of `user_id` out of the map, leaving the order as
    /// it is, so that it can be changed and put back.
    pub(crate) fn take_session(&mut self, user_id: i64) -> (r: Option<User>)
        ensures
            final(self)@.order == old(self)@.order,
            final(self)@.current == old(self)@.current,
            final(self)@.sessions == old(self)@.sessions.remove(user_id),
            match r {
                Some(u) => old(self)@.sessions.contains_key(user_id) && u@ == old(
                    self,
                )@.sessions[user_id],
                None => !old(self)@.sessions.contains_key(user_id),
            },
    {
        broadcast use group_hash_axioms;

        let r = self.users.remove(&user_id);
        proof {
            assert(self@.sessions =~= old(self)@.sessions.remove(user_id));
        }
        r
    }

    /// Files `session` under its own id, leaving the order as it is.
    pub(crate) fn put_session(&mut self, session: User)
        ensures
            final(self)@.order == old(self)@.order,
            final(self)@.current == old(self)@.current,
            final(self)@.sessions == old(self)@.sessions.insert(session.user_id, session@),
    {
        broadcast use group_hash_axioms;

        let ghost id = session.user_id;
        let ghost v = session@;
        self.users.insert(session.user_id, session);
        proof {
            assert(self@.sessions =~= old(self)@.sessions.insert(id, v));
        }
    }
}

} // verus!
