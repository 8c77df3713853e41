//! The process-wide session store: bounded in entry count, idle-expiring,
//! and the only owner of conversation history.
//!
//! Reads of an expired session behave as if it were absent; the next
//! write replaces it with a fresh one.  When the store is full, the entry
//! with the least recent activity is evicted.

use vstd::prelude::*;

use crate::SessionId;
use crate::session::{
    ConversationMessage, ConversationSession, MessageView, Role, SessionView, fresh_session,
    push_msg, spec_expired, spec_recent, wf_session,
};
use crate::store::{
    lemma_slookup_absent, lemma_slookup_found, lemma_slookup_push, lemma_slookup_remove,
    lemma_unique_remove, slookup, unique_keys,
};

verus! {

/// The turns of `ms` that one participant should see: their own, plus
/// every assistant turn.
pub open spec fn user_visible(ms: Seq<MessageView>, user_id: i64) -> Seq<MessageView>
    decreases ms.len(),
{
    if ms.len() == 0 {
        Seq::empty()
    } else {
        user_visible(ms.drop_last(), user_id) + (if ms.last().role == Role::Assistant
            || ms.last().user_id == Some(user_id) {
            seq![ms.last()]
        } else {
            Seq::empty()
        })
    }
}

/// The owner of every conversation session, keyed by scope.
pub struct ConversationManager {
    pub entries: Vec<(SessionId, ConversationSession)>,
    /// Cap on turns kept per session.
    pub max_history: usize,
    /// Idle minutes after which a session counts as gone.
    pub timeout_minutes: u64,
    /// Cap on concurrently stored sessions.
    pub capacity: usize,
}

impl ConversationManager {
    /// The association list this store denotes.
    pub open spec fn model(&self) -> Seq<(SessionId, SessionView)> {
        self.entries.deep_view()
    }

    /// Well-formedness: distinct keys, bounded entry count, and every
    /// session well formed under this store's own cap.
    pub open spec fn inv(&self) -> bool {
        &&& self.capacity >= 1
        &&& self.max_history >= 1
        &&& self.model().len() <= self.capacity
        &&& unique_keys(self.model())
        &&& forall|i: int|
            0 <= i < self.model().len() ==> wf_session(#[trigger] self.model()[i].1)
                && self.model()[i].1.max_history == self.max_history as nat
    }

    /// The stored session under `key`, expired or not.
    pub open spec fn spec_session(&self, key: SessionId) -> Option<SessionView> {
        slookup(self.model(), key)
    }

    /// The stored session under `key`, provided it has not idled out.
    pub open spec fn live_session(&self, key: SessionId, now: u64) -> Option<SessionView> {
        match slookup(self.model(), key) {
            Some(s) => if spec_expired(s, self.timeout_minutes, now) {
                None
            } else {
                Some(s)
            },
            None => None,
        }
    }

    /// What the next write appends to: the live session, or a fresh one.
    pub open spec fn live_or_fresh(&self, key: SessionId, now: u64) -> SessionView {
        match self.live_session(key, now) {
            Some(s) => s,
            None => fresh_session(self.max_history as nat, now),
        }
    }

    /// Configuration equality between two snapshots of the store.
    pub open spec fn same_config(&self, other: &Self) -> bool {
        self.max_history == other.max_history && self.timeout_minutes == other.timeout_minutes
            && self.capacity == other.capacity
    }

    pub fn new(max_history: usize, timeout_minutes: u64, capacity: usize) -> (r: Self)
        requires
            max_history >= 1,
            capacity >= 1,
        ensures
            r.inv(),
            r.max_history == max_history,
            r.timeout_minutes == timeout_minutes,
            r.capacity == capacity,
            r.model() == Seq::<(SessionId, SessionView)>::empty(),
    {
        let r = ConversationManager { entries: Vec::new(), max_history, timeout_minutes, capacity };
        proof {
            assert(r.model() =~= Seq::<(SessionId, SessionView)>::empty());
        }
        r
    }

    fn find_index(&self, key: SessionId) -> (r: Option<usize>)
        ensures
            match r {
                Some(j) => j < self.model().len() && self.model()[j as int].0 == key,
                None => forall|i: int| 0 <= i < self.model().len() ==> self.model()[i].0 != key,
            },
    {
        let mut i: usize = 0;
        while i < self.entries.len()
            invariant
                i <= self.entries.len(),
                self.model().len() == self.entries.len(),
                forall|k: int| 0 <= k < i ==> self.model()[k].0 != key,
            decreases self.entries.len() - i,
        {
            if self.entries[i].0 == key {
                proof {
                    assert(self.model()[i as int].0 == key);
                }
                return Some(i);
            }
            i += 1;
        }
        None
    }

    /// Returns the live session under `key`, or installs and returns a
    /// fresh one: the only creation path.  An expired session is replaced;
    /// when the store is full, the least recently active entry is evicted.
    pub fn get_or_create_session(&mut self, session_id: SessionId, now: u64) -> (r:
        ConversationSession)
        requires
            old(self).inv(),
        ensures
            final(self).inv(),
            final(self).same_config(old(self)),
            wf_session(r@),
            final(self).spec_session(session_id) == Some(r@),
            r@ == old(self).live_or_fresh(session_id, now),
            old(self).live_session(session_id, now) is Some ==> final(self).model() == old(
                self,
            ).model(),
            forall|k: SessionId|
                k != session_id ==> (final(self).spec_session(k) == old(self).spec_session(k)
                    || final(self).spec_session(k) is None),
            (old(self).spec_session(session_id) is Some || old(self).model().len() < old(
                self,
            ).capacity) ==> forall|k: SessionId|
                k != session_id ==> final(self).spec_session(k) == old(self).spec_session(k),
    {
        let ghost oldm = self.model();
        match self.find_index(session_id) {
            Some(j) => {
                proof {
                    lemma_slookup_found(oldm, session_id, j as int);
                }
                if !self.entries[j].1.is_expired(self.timeout_minutes, now) {
                    let copy = self.entries[j].1.duplicate();
                    return copy;
                }
                // Expired: replace in place by a fresh session.
                let fresh = ConversationSession::new(self.max_history, now);
                let copy = fresh.duplicate();
                self.entries.remove(j);
                proof {
                    assert(self.model() =~= oldm.remove(j as int));
                    lemma_unique_remove(oldm, j as int);
                    assert forall|k: SessionId| true implies #[trigger] slookup(
                        self.model(),
                        k,
                    ) == (if oldm[j as int].0 == k {
                        None::<SessionView>
                    } else {
                        slookup(oldm, k)
                    }) by {
                        lemma_slookup_remove(oldm, j as int, k);
                    }
                }
                let ghost mid = self.model();
                self.entries.push((session_id, fresh));
                proof {
                    assert(self.model() =~= mid.push((session_id, copy@)));
                    assert forall|k: SessionId| true implies #[trigger] slookup(
                        self.model(),
                        k,
                    ) == (if k == session_id {
                        Some(copy@)
                    } else {
                        slookup(mid, k)
                    }) by {
                        lemma_slookup_push(mid, (session_id, copy@), k);
                    }
                    assert forall|a: int, b: int|
                        0 <= a < b < self.model().len() implies self.model()[a].0
                        != self.model()[b].0 by {
                        if b == self.model().len() - 1 {
                            if mid[a].0 == session_id {
                                lemma_slookup_found(mid, session_id, a);
                            }
                        }
                    }
                }
                copy
            },
            None => {
                proof {
                    lemma_slookup_absent(oldm, session_id);
                }
                if self.entries.len() >= self.capacity {
                    // Full: evict the entry with the least recent activity.
                    let mut victim: usize = 0;
                    let mut i: usize = 1;
                    while i < self.entries.len()
                        invariant
                            victim < i <= self.entries.len(),
                        decreases self.entries.len() - i,
                    {
                        if self.entries[i].1.last_activity
                            < self.entries[victim].1.last_activity {
                            victim = i;
                        }
                        i += 1;
                    }
                    self.entries.remove(victim);
                    proof {
                        assert(self.model() =~= oldm.remove(victim as int));
                        lemma_unique_remove(oldm, victim as int);
                        assert forall|k: SessionId| true implies #[trigger] slookup(
                            self.model(),
                            k,
                        ) == (if oldm[victim as int].0 == k {
                            None::<SessionView>
                        } else {
                            slookup(oldm, k)
                        }) by {
                            lemma_slookup_remove(oldm, victim as int, k);
                        }
                    }
                }
                let ghost mid = self.model();
                let fresh = ConversationSession::new(self.max_history, now);
                let copy = fresh.duplicate();
                self.entries.push((session_id, fresh));
                proof {
                    assert(self.model() =~= mid.push((session_id, copy@)));
                    assert forall|k: SessionId| true implies #[trigger] slookup(
                        self.model(),
                        k,
                    ) == (if k == session_id {
                        Some(copy@)
                    } else {
                        slookup(mid, k)
                    }) by {
                        lemma_slookup_push(mid, (session_id, copy@), k);
                    }
                    assert forall|a: int, b: int|
                        0 <= a < b < self.model().len() implies self.model()[a].0
                        != self.model()[b].0 by {
                        if b == self.model().len() - 1 {
                            if mid[a].0 == session_id {
                                lemma_slookup_found(mid, session_id, a);
                            }
                        }
                    }
                }
                copy
            },
        }
    }

    /// Appends one turn to the session under `key` (creating or reviving
    /// it first), refreshing its activity time.
    fn append_message(&mut self, session_id: SessionId, message: ConversationMessage, now: u64)
        requires
            old(self).inv(),
            message@.timestamp == now,
        ensures
            final(self).inv(),
            final(self).same_config(old(self)),
            final(self).spec_session(session_id) == Some(
                push_msg(old(self).live_or_fresh(session_id, now), message@),
            ),
            forall|k: SessionId|
                k != session_id ==> (final(self).spec_session(k) == old(self).spec_session(k)
                    || final(self).spec_session(k) is None),
    {
        let ghost oldself = *self;
        let mut session = self.get_or_create_session(session_id, now);
        session.add_message(message);
        // The key is present now; move the updated copy back in.
        let ghost mid = self.model();
        match self.find_index(session_id) {
            Some(j) => {
                proof {
                    lemma_slookup_found(mid, session_id, j as int);
                }
                self.entries.remove(j);
                proof {
                    assert(self.model() =~= mid.remove(j as int));
                    lemma_unique_remove(mid, j as int);
                    assert forall|k: SessionId| true implies #[trigger] slookup(
                        self.model(),
                        k,
                    ) == (if mid[j as int].0 == k {
                        None::<SessionView>
                    } else {
                        slookup(mid, k)
                    }) by {
                        lemma_slookup_remove(mid, j as int, k);
                    }
                }
                let ghost mid2 = self.model();
                let ghost sv = session@;
                self.entries.push((session_id, session));
                proof {
                    assert(self.model() =~= mid2.push((session_id, sv)));
                    assert forall|k: SessionId| true implies #[trigger] slookup(
                        self.model(),
                        k,
                    ) == (if k == session_id {
                        Some(sv)
                    } else {
                        slookup(mid2, k)
                    }) by {
                        lemma_slookup_push(mid2, (session_id, sv), k);
                    }
                    assert forall|a: int, b: int|
                        0 <= a < b < self.model().len() implies self.model()[a].0
                        != self.model()[b].0 by {
                        if b == self.model().len() - 1 {
                            if mid2[a].0 == session_id {
                                lemma_slookup_found(mid2, session_id, a);
                            }
                        }
                    }
                }
            },
            None => {
                // Unreachable: get_or_create_session left the key present.
                proof {
                    lemma_slookup_absent(mid, session_id);
                }
                unreached::<()>();
            },
        }
    }

    /// Records a user's turn without authorship details.
    pub fn add_user_message(&mut self, session_id: SessionId, content: String, now: u64)
        requires
            old(self).inv(),
        ensures
            final(self).inv(),
            final(self).same_config(old(self)),
            final(self).spec_session(session_id) == Some(
                push_msg(
                    old(self).live_or_fresh(session_id, now),
                    MessageView {
                        role: Role::User,
                        content: content@,
                        timestamp: now,
                        user_id: None,
                        username: None,
                    },
                ),
            ),
            forall|k: SessionId|
                k != session_id ==> (final(self).spec_session(k) == old(self).spec_session(k)
                    || final(self).spec_session(k) is None),
    {
        let message = ConversationMessage {
            role: Role::User,
            content,
            timestamp: now,
            user_id: None,
            username: None,
        };
        self.append_message(session_id, message, now);
    }

    /// Records a user's turn with its author id and display name, so a
    /// shared group session can tell speakers apart.
    pub fn add_user_message_with_info(
        &mut self,
        session_id: SessionId,
        content: String,
        user_id: i64,
        username: Option<String>,
        now: u64,
    )
        requires
            old(self).inv(),
        ensures
            final(self).inv(),
            final(self).same_config(old(self)),
            final(self).spec_session(session_id) == Some(
                push_msg(
                    old(self).live_or_fresh(session_id, now),
                    MessageView {
                        role: Role::User,
                        content: content@,
                        timestamp: now,
                        user_id: Some(user_id),
                        username: username.deep_view(),
                    },
                ),
            ),
            forall|k: SessionId|
                k != session_id ==> (final(self).spec_session(k) == old(self).spec_session(k)
                    || final(self).spec_session(k) is None),
    {
        let message = ConversationMessage {
            role: Role::User,
            content,
            timestamp: now,
            user_id: Some(user_id),
            username,
        };
        self.append_message(session_id, message, now);
    }

    /// Records the assistant's reply.
    pub fn add_assistant_message(&mut self, session_id: SessionId, content: String, now: u64)
        requires
            old(self).inv(),
        ensures
            final(self).inv(),
            final(self).same_config(old(self)),
            final(self).spec_session(session_id) == Some(
                push_msg(
                    old(self).live_or_fresh(session_id, now),
                    MessageView {
                        role: Role::Assistant,
                        content: content@,
                        timestamp: now,
                        user_id: None,
                        username: None,
                    },
                ),
            ),
            forall|k: SessionId|
                k != session_id ==> (final(self).spec_session(k) == old(self).spec_session(k)
                    || final(self).spec_session(k) is None),
    {
        let message = ConversationMessage {
            role: Role::Assistant,
            content,
            timestamp: now,
            user_id: None,
            username: None,
        };
        self.append_message(session_id, message, now);
    }

    /// The last `limit` turns of the live session, oldest first; empty
    /// when the session is absent or has idled out.
    pub fn get_conversation_history(&self, session_id: SessionId, limit: usize, now: u64) -> (r:
        Vec<ConversationMessage>)
        requires
            self.inv(),
        ensures
            r.deep_view() == (match self.live_session(session_id, now) {
                Some(s) => spec_recent(s.messages, limit as int),
                None => Seq::<MessageView>::empty(),
            }),
    {
        match self.find_index(session_id) {
            Some(j) => {
                proof {
                    lemma_slookup_found_weak(self.model(), session_id, j as int);
                }
                let session = &self.entries[j].1;
                if session.is_expired(self.timeout_minutes, now) {
                    Vec::new()
                } else {
                    session.get_recent_messages(limit)
                }
            },
            None => {
                proof {
                    lemma_slookup_absent(self.model(), session_id);
                }
                Vec::new()
            },
        }
    }

    /// One participant's view of the live session: their turns plus all
    /// assistant turns, capped at the last `limit`, oldest first.
    pub fn get_user_conversation_history(
        &self,
        session_id: SessionId,
        user_id: i64,
        limit: usize,
        now: u64,
    ) -> (r: Vec<ConversationMessage>)
        requires
            self.inv(),
        ensures
            r.deep_view() == (match self.live_session(session_id, now) {
                Some(s) => spec_recent(user_visible(s.messages, user_id), limit as int),
                None => Seq::<MessageView>::empty(),
            }),
    {
        match self.find_index(session_id) {
            Some(j) => {
                proof {
                    lemma_slookup_found_weak(self.model(), session_id, j as int);
                }
                let session = &self.entries[j].1;
                if session.is_expired(self.timeout_minutes, now) {
                    return Vec::new();
                }
                let ghost ms = session.messages.deep_view();
                let mut picked: Vec<ConversationMessage> = Vec::new();
                let mut i: usize = 0;
                proof {
                    assert(ms.take(0) =~= Seq::<MessageView>::empty());
                    assert(picked.deep_view() =~~= user_visible(ms.take(0), user_id));
                }
                while i < session.messages.len()
                    invariant
                        i <= session.messages.len(),
                        ms == session.messages.deep_view(),
                        ms.len() == session.messages.len(),
                        picked.deep_view() =~~= user_visible(ms.take(i as int), user_id),
                    decreases session.messages.len() - i,
                {
                    let ghost prior = picked.deep_view();
                    proof {
                        assert(ms.take(i + 1).drop_last() =~= ms.take(i as int));
                        assert(ms.take(i + 1).last() == ms[i as int]);
                    }
                    let m = &session.messages[i];
                    let keep = match m.role {
                        Role::Assistant => true,
                        Role::User => match m.user_id {
                            Some(u) => u == user_id,
                            None => false,
                        },
                    };
                    if keep {
                        picked.push(m.duplicate());
                        proof {
                            assert(picked.deep_view() =~~= prior.push(ms[i as int]));
                        }
                    }
                    proof {
                        assert(picked.deep_view() =~~= user_visible(ms.take(i + 1), user_id));
                    }
                    i += 1;
                }
                proof {
                    assert(ms.take(ms.len() as int) =~= ms);
                }
                // Keep only the newest `limit` of the picked turns.
                let ghost pv = picked.deep_view();
                let start: usize = if picked.len() > limit {
                    picked.len() - limit
                } else {
                    0
                };
                let mut out: Vec<ConversationMessage> = Vec::new();
                let mut t: usize = start;
                while t < picked.len()
                    invariant
                        start <= t <= picked.len(),
                        pv == picked.deep_view(),
                        pv.len() == picked.len(),
                        out.deep_view() =~= pv.subrange(start as int, t as int),
                    decreases picked.len() - t,
                {
                    let ghost prior = out.deep_view();
                    out.push(picked[t].duplicate());
                    proof {
                        assert(out.deep_view() =~= prior.push(pv[t as int]));
                        assert(out.deep_view() =~= pv.subrange(start as int, t + 1));
                    }
                    t += 1;
                }
                proof {
                    assert(out.deep_view() =~= spec_recent(pv, limit as int));
                }
                out
            },
            None => {
                proof {
                    lemma_slookup_absent(self.model(), session_id);
                }
                Vec::new()
            },
        }
    }

    /// Forgets the session under `key`, if any.
    pub fn clear_conversation(&mut self, session_id: SessionId)
        requires
            old(self).inv(),
        ensures
            final(self).inv(),
            final(self).same_config(old(self)),
            final(self).spec_session(session_id) is None,
            forall|k: SessionId|
                k != session_id ==> final(self).spec_session(k) == old(self).spec_session(k),
    {
        let ghost oldm = self.model();
        match self.find_index(session_id) {
            Some(j) => {
                self.entries.remove(j);
                proof {
                    assert(self.model() =~= oldm.remove(j as int));
                    lemma_unique_remove(oldm, j as int);
                    assert forall|k: SessionId| true implies #[trigger] slookup(
                        self.model(),
                        k,
                    ) == (if oldm[j as int].0 == k {
                        None::<SessionView>
                    } else {
                        slookup(oldm, k)
                    }) by {
                        lemma_slookup_remove(oldm, j as int, k);
                    }
                }
            },
            None => {
                proof {
                    lemma_slookup_absent(oldm, session_id);
                }
            },
        }
    }

    /// When the session last saw an append, expired or not.
    pub fn get_last_activity(&self, session_id: SessionId) -> (r: Option<u64>)
        requires
            self.inv(),
        ensures
            r == (match self.spec_session(session_id) {
                Some(s) => Some(s.last_activity),
                None => None::<u64>,
            }),
    {
        match self.find_index(session_id) {
            Some(j) => {
                proof {
                    lemma_slookup_found_weak(self.model(), session_id, j as int);
                }
                Some(self.entries[j].1.last_activity)
            },
            None => {
                proof {
                    lemma_slookup_absent(self.model(), session_id);
                }
                None
            },
        }
    }

    /// How many sessions are stored, expired ones included.
    pub fn get_active_session_count(&self) -> (r: u64)
        ensures
            r == self.model().len(),
    {
        self.entries.len() as u64
    }
}


/// The entries whose sessions have not idled out, in order.
pub open spec fn keep_live(
    es: Seq<(SessionId, SessionView)>,
    timeout_minutes: u64,
    now: u64,
) -> Seq<(SessionId, SessionView)>
    decreases es.len(),
{
    if es.len() == 0 {
        Seq::empty()
    } else {
        keep_live(es.drop_last(), timeout_minutes, now) + (if spec_expired(
            es.last().1,
            timeout_minutes,
            now,
        ) {
            Seq::empty()
        } else {
            seq![es.last()]
        })
    }
}

proof fn lemma_keep_live(es: Seq<(SessionId, SessionView)>, t: u64, now: u64)
    requires
        unique_keys(es),
    ensures
        unique_keys(keep_live(es, t, now)),
        keep_live(es, t, now).len() <= es.len(),
        forall|k: SessionId| #[trigger]
            slookup(keep_live(es, t, now), k) == (match slookup(es, k) {
                Some(s) => if spec_expired(s, t, now) {
                    None
                } else {
                    Some(s)
                },
                None => None,
            }),
        forall|i: int|
            0 <= i < keep_live(es, t, now).len() ==> exists|j: int|
                0 <= j < es.len() && #[trigger] keep_live(es, t, now)[i] == es[j],
    decreases es.len(),
{
    if es.len() == 0 {
    } else {
        let es0 = es.drop_last();
        let p = es.last();
        lemma_keep_live(es0, t, now);
        let kl0 = keep_live(es0, t, now);
        let kl = keep_live(es, t, now);
        assert forall|i: int| 0 <= i < kl.len() implies exists|j: int|
            0 <= j < es.len() && #[trigger] kl[i] == es[j] by {
            if i < kl0.len() {
                let j = choose|j: int| 0 <= j < es0.len() && #[trigger] kl0[i] == es0[j];
                assert(kl[i] == es[j]);
            } else {
                assert(kl[i] == es[es.len() - 1]);
            }
        }
        if spec_expired(p.1, t, now) {
            assert(kl =~= kl0);
            assert forall|k: SessionId| true implies #[trigger] slookup(kl, k) == (
            match slookup(es, k) {
                Some(s) => if spec_expired(s, t, now) {
                    None
                } else {
                    Some(s)
                },
                None => None,
            }) by {
                if k == p.0 {
                    assert(forall|j: int| 0 <= j < es0.len() ==> es0[j] == es[j]);
                    lemma_slookup_absent(es0, k);
                }
            }
        } else {
            assert(kl =~= kl0.push(p));
            assert forall|a: int, b: int| 0 <= a < b < kl.len() implies kl[a].0 != kl[b].0 by {
                if b == kl.len() - 1 {
                    if kl0[a].0 == p.0 {
                        let j = choose|j: int| 0 <= j < es0.len() && #[trigger] kl0[a] == es0[j];
                        assert(es[j].0 == es[es.len() - 1].0);
                    }
                }
            }
            assert forall|k: SessionId| true implies #[trigger] slookup(kl, k) == (
            match slookup(es, k) {
                Some(s) => if spec_expired(s, t, now) {
                    None
                } else {
                    Some(s)
                },
                None => None,
            }) by {
                lemma_slookup_push(kl0, p, k);
                if k == p.0 {
                } else {
                    assert(slookup(kl, k) == slookup(kl0, k));
                }
            }
        }
    }
}

/// A session whose last activity lies further back than the idle timeout
/// is treated as absent: reads answer nothing, and the next
/// `get_or_create_session` starts a fresh, empty session.
pub proof fn lemma_expired_session_reads_absent(m: ConversationManager, key: SessionId, now: u64)
    requires
        match m.spec_session(key) {
            Some(s) => spec_expired(s, m.timeout_minutes, now),
            None => true,
        },
    ensures
        m.live_session(key, now) is None,
        m.live_or_fresh(key, now) == fresh_session(m.max_history as nat, now),
{
}

impl ConversationManager {
    /// Eagerly drops every idled-out session; reads already treat them
    /// as absent, so this only reclaims space.
    pub fn cleanup_expired_sessions(&mut self, now: u64)
        requires
            old(self).inv(),
        ensures
            final(self).inv(),
            final(self).same_config(old(self)),
            forall|k: SessionId| #[trigger]
                final(self).spec_session(k) == old(self).live_session(k, now),
    {
        let ghost oldm = self.model();
        let timeout = self.timeout_minutes;
        let mut kept: Vec<(SessionId, ConversationSession)> = Vec::new();
        let mut i: usize = 0;
        proof {
            assert(oldm.take(0) =~= Seq::<(SessionId, SessionView)>::empty());
            assert(kept.deep_view() =~~= keep_live(oldm.take(0), timeout, now));
        }
        while i < self.entries.len()
            invariant
                i <= self.entries.len(),
                oldm == self.model(),
                oldm.len() == self.entries.len(),
                timeout == self.timeout_minutes,
                kept.deep_view() =~~= keep_live(oldm.take(i as int), timeout, now),
            decreases self.entries.len() - i,
        {
            let ghost prior = kept.deep_view();
            proof {
                assert(oldm.take(i + 1).drop_last() =~= oldm.take(i as int));
                assert(oldm.take(i + 1).last() == oldm[i as int]);
            }
            if !self.entries[i].1.is_expired(timeout, now) {
                kept.push((self.entries[i].0, self.entries[i].1.duplicate()));
                proof {
                    assert(kept.deep_view() =~~= prior.push(oldm[i as int]));
                }
            }
            proof {
                assert(kept.deep_view() =~~= keep_live(oldm.take(i + 1), timeout, now));
            }
            i += 1;
        }
        self.entries = kept;
        proof {
            assert(oldm.take(oldm.len() as int) =~= oldm);
            assert(self.model() =~~= keep_live(oldm, timeout, now));
            lemma_keep_live(oldm, timeout, now);
            assert forall|idx: int|
                0 <= idx < self.model().len() implies wf_session(#[trigger] self.model()[idx].1)
                && self.model()[idx].1.max_history == self.max_history as nat by {
                let j = choose|j: int|
                    0 <= j < oldm.len() && #[trigger] keep_live(oldm, timeout, now)[idx] == oldm[j];
                assert(self.model()[idx] == oldm[j]);
            }
        }
    }
}

/// `lemma_slookup_found` specialized to a store that satisfies its own
/// invariant is all callers need; this wrapper saves restating uniqueness.
proof fn lemma_slookup_found_weak(es: Seq<(SessionId, SessionView)>, k: SessionId, j: int)
    requires
        unique_keys(es),
        0 <= j < es.len(),
        es[j].0 == k,
    ensures
        slookup(es, k) == Some(es[j].1),
{
    lemma_slookup_found(es, k, j);
}

} // verus!
