//! Conversation turns, bounded sessions, and the session store.
//!
//! A session holds at most `max_history` turns; appending evicts the
//! oldest first.  A session whose `last_activity` lies further back than
//! the idle timeout is treated as absent by every read and replaced by a
//! fresh one on the next write.

use vstd::prelude::*;

use crate::SessionId;

verus! {

impl DeepView for SessionId {
    type V = SessionId;

    open spec fn deep_view(&self) -> SessionId {
        *self
    }
}

/// Who uttered a turn.
#[derive(Clone, Copy, Debug, PartialEq, Eq, Structural)]
pub enum Role {
    User,
    Assistant,
}

impl Role {
    /// The conventional lower-case name of the role.
    pub fn text(&self) -> (r: String)
        ensures
            r@ == spec_role_text(*self),
    {
        match self {
            Role::User => String::from_str("user"),
            Role::Assistant => String::from_str("assistant"),
        }
    }
}

pub open spec fn spec_role_text(role: Role) -> Seq<char> {
    match role {
        Role::User => "user"@,
        Role::Assistant => "assistant"@,
    }
}

/// Mathematical image of [`ConversationMessage`].
pub ghost struct MessageView {
    pub role: Role,
    pub content: Seq<char>,
    pub timestamp: u64,
    pub user_id: Option<i64>,
    pub username: Option<Seq<char>>,
}

/// One utterance: its role, text, creation time (seconds), and, in group
/// scope, who said it and under which display name.
#[derive(Clone, Debug)]
pub struct ConversationMessage {
    pub role: Role,
    pub content: String,
    pub timestamp: u64,
    pub user_id: Option<i64>,
    pub username: Option<String>,
}

impl View for ConversationMessage {
    type V = MessageView;

    open spec fn view(&self) -> MessageView {
        MessageView {
            role: self.role,
            content: self.content@,
            timestamp: self.timestamp,
            user_id: self.user_id,
            username: self.username.deep_view(),
        }
    }
}

impl DeepView for ConversationMessage {
    type V = MessageView;

    open spec fn deep_view(&self) -> MessageView {
        self.view()
    }
}

impl ConversationMessage {
    pub fn duplicate(&self) -> (r: Self)
        ensures
            r@ == self@,
    {
        ConversationMessage {
            role: self.role,
            content: self.content.clone(),
            timestamp: self.timestamp,
            user_id: self.user_id,
            username: match &self.username {
                Some(n) => Some(n.clone()),
                None => None,
            },
        }
    }
}

/// Mathematical image of [`ConversationSession`].
pub ghost struct SessionView {
    pub messages: Seq<MessageView>,
    pub last_activity: u64,
    pub max_history: nat,
}

/// An ordered, bounded run of turns plus the time of the last append.
#[derive(Clone, Debug)]
pub struct ConversationSession {
    pub messages: Vec<ConversationMessage>,
    pub last_activity: u64,
    pub max_history: usize,
}

impl View for ConversationSession {
    type V = SessionView;

    open spec fn view(&self) -> SessionView {
        SessionView {
            messages: self.messages.deep_view(),
            last_activity: self.last_activity,
            max_history: self.max_history as nat,
        }
    }
}

impl DeepView for ConversationSession {
    type V = SessionView;

    open spec fn deep_view(&self) -> SessionView {
        self.view()
    }
}

/// A session is well formed when its cap is positive and respected.
pub open spec fn wf_session(s: SessionView) -> bool {
    s.max_history >= 1 && s.messages.len() <= s.max_history
}

/// The freshly created, empty session.
pub open spec fn fresh_session(max_history: nat, now: u64) -> SessionView {
    SessionView { messages: Seq::empty(), last_activity: now, max_history }
}

/// Idle expiry: the whole minutes elapsed since the last activity reach
/// the timeout.  A clock that moved backwards never expires a session.
pub open spec fn spec_expired(s: SessionView, timeout_minutes: u64, now: u64) -> bool {
    now >= s.last_activity && (now - s.last_activity) / 60 >= timeout_minutes
}

/// Appending one turn: push, evict the oldest beyond the cap, refresh
/// `last_activity` from the turn's own timestamp.
pub open spec fn push_msg(s: SessionView, m: MessageView) -> SessionView {
    let all = s.messages.push(m);
    let keep = if all.len() > s.max_history {
        all.skip(all.len() - s.max_history)
    } else {
        all
    };
    SessionView { messages: keep, last_activity: m.timestamp, max_history: s.max_history }
}

/// The last `limit` turns, oldest first.
pub open spec fn spec_recent(ms: Seq<MessageView>, limit: int) -> Seq<MessageView> {
    if ms.len() > limit {
        ms.skip(ms.len() - limit)
    } else {
        ms
    }
}

impl ConversationSession {
    pub fn new(max_history: usize, now: u64) -> (r: Self)
        requires
            max_history >= 1,
        ensures
            r@ == fresh_session(max_history as nat, now),
            wf_session(r@),
    {
        let r = ConversationSession { messages: Vec::new(), last_activity: now, max_history };
        proof {
            assert(r@.messages =~= Seq::<MessageView>::empty());
        }
        r
    }

    pub fn is_expired(&self, timeout_minutes: u64, now: u64) -> (r: bool)
        ensures
            r == spec_expired(self@, timeout_minutes, now),
    {
        now >= self.last_activity && (now - self.last_activity) / 60 >= timeout_minutes
    }

    /// Appends a turn and evicts the oldest one beyond the cap.
    pub fn add_message(&mut self, message: ConversationMessage)
        requires
            wf_session(old(self)@),
        ensures
            final(self)@ == push_msg(old(self)@, message@),
            wf_session(final(self)@),
    {
        let ghost prior = self.messages.deep_view();
        let ghost m = message@;
        self.last_activity = message.timestamp;
        self.messages.push(message);
        proof {
            assert(self.messages.deep_view() =~= prior.push(m));
        }
        if self.messages.len() > self.max_history {
            let ghost all = self.messages.deep_view();
            self.messages.remove(0);
            proof {
                assert(self.messages.deep_view() =~= all.skip(1));
                assert(all.skip(1) =~= all.skip(all.len() - old(self)@.max_history));
            }
        } else {
            proof {
                assert(self@.messages =~= prior.push(m));
            }
        }
    }

    /// The last `limit` turns, oldest first.
    pub fn get_recent_messages(&self, limit: usize) -> (r: Vec<ConversationMessage>)
        ensures
            r.deep_view() == spec_recent(self@.messages, limit as int),
    {
        let ghost ms = self.messages.deep_view();
        let start: usize = if self.messages.len() > limit {
            self.messages.len() - limit
        } else {
            0
        };
        let mut out: Vec<ConversationMessage> = Vec::new();
        let mut i: usize = start;
        while i < self.messages.len()
            invariant
                start <= i <= self.messages.len(),
                ms == self.messages.deep_view(),
                ms.len() == self.messages.len(),
                out.deep_view() =~= ms.subrange(start as int, i as int),
            decreases self.messages.len() - i,
        {
            let ghost prior = out.deep_view();
            out.push(self.messages[i].duplicate());
            proof {
                assert(out.deep_view() =~= prior.push(ms[i as int]));
                assert(out.deep_view() =~= ms.subrange(start as int, i + 1));
            }
            i += 1;
        }
        proof {
            assert(out.deep_view() =~= spec_recent(ms, limit as int));
        }
        out
    }

    pub fn duplicate(&self) -> (r: Self)
        ensures
            r@ == self@,
    {
        let mut ms: Vec<ConversationMessage> = Vec::new();
        let mut i: usize = 0;
        while i < self.messages.len()
            invariant
                i <= self.messages.len(),
                ms.deep_view() =~= self.messages.deep_view().take(i as int),
            decreases self.messages.len() - i,
        {
            let ghost prior = ms.deep_view();
            ms.push(self.messages[i].duplicate());
            proof {
                assert(ms.deep_view() =~= prior.push(self.messages.deep_view()[i as int]));
                assert(ms.deep_view() =~= self.messages.deep_view().take(i + 1));
            }
            i += 1;
        }
        proof {
            assert(self.messages.deep_view().take(self.messages.len() as int) =~= self.messages.deep_view());
        }
        ConversationSession {
            messages: ms,
            last_activity: self.last_activity,
            max_history: self.max_history,
        }
    }
}

/// The session after a whole run of appends, in order.
pub open spec fn append_all(s: SessionView, msgs: Seq<MessageView>) -> SessionView
    decreases msgs.len(),
{
    if msgs.len() == 0 {
        s
    } else {
        push_msg(append_all(s, msgs.drop_last()), msgs.last())
    }
}

/// Any run of appends to a well-formed session keeps, of the old turns
/// followed by the appended ones, exactly the newest `max_history` — the
/// oldest are evicted first, and order is preserved.
pub proof fn lemma_append_all_keeps_newest(s: SessionView, msgs: Seq<MessageView>)
    requires
        wf_session(s),
    ensures
        wf_session(append_all(s, msgs)),
        append_all(s, msgs).max_history == s.max_history,
        append_all(s, msgs).messages =~= spec_recent(
            s.messages + msgs,
            s.max_history as int,
        ),
    decreases msgs.len(),
{
    if msgs.len() == 0 {
        assert(s.messages + msgs =~= s.messages);
    } else {
        lemma_append_all_keeps_newest(s, msgs.drop_last());
        let before = append_all(s, msgs.drop_last());
        let all0 = s.messages + msgs.drop_last();
        let all = s.messages + msgs;
        assert(all =~= all0.push(msgs.last()));
        assert(before.messages.push(msgs.last()) =~= spec_recent(all0, s.max_history as int).push(
            msgs.last(),
        ));
        if all0.len() > s.max_history {
            assert(spec_recent(all0, s.max_history as int).push(msgs.last()) =~= all.skip(
                all0.len() - s.max_history,
            ));
        }
        assert(push_msg(before, msgs.last()).messages =~= spec_recent(all, s.max_history as int));
    }
}

/// Up to `max_history` appends into a fresh session keep every appended
/// turn, in insertion order, and reading back that many recent turns
/// returns exactly them.
pub proof fn lemma_fresh_appends_all_kept(max_history: nat, now: u64, msgs: Seq<MessageView>)
    requires
        max_history >= 1,
        msgs.len() <= max_history,
    ensures
        append_all(fresh_session(max_history, now), msgs).messages == msgs,
        spec_recent(append_all(fresh_session(max_history, now), msgs).messages, msgs.len() as int)
            == msgs,
{
    let s = fresh_session(max_history, now);
    lemma_append_all_keeps_newest(s, msgs);
    assert(s.messages + msgs =~= msgs);
    assert(append_all(s, msgs).messages =~= msgs);
}

/// More than `max_history` appends into a fresh session leave exactly the
/// newest `max_history` turns: the first-in turns go first.
pub proof fn lemma_fresh_appends_fifo(max_history: nat, now: u64, msgs: Seq<MessageView>)
    requires
        max_history >= 1,
        msgs.len() > max_history,
    ensures
        append_all(fresh_session(max_history, now), msgs).messages.len() == max_history,
        append_all(fresh_session(max_history, now), msgs).messages == msgs.skip(
            msgs.len() - max_history,
        ),
{
    let s = fresh_session(max_history, now);
    lemma_append_all_keeps_newest(s, msgs);
    assert(s.messages + msgs =~= msgs);
    assert(append_all(s, msgs).messages =~= msgs.skip(msgs.len() - max_history));
}

} // verus!
