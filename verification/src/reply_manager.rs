//! The reply router: picks the strategy a message is answered under,
//! decides whether to answer at all, captures unaddressed group chatter
//! as context, and hands the chosen strategy the work.

use vstd::prelude::*;

use crate::StrategeType;
use crate::content::{ContentView, MessageContent, RawSegment, collapse, normalize, segs_of_raws,
    spec_has_image, spec_has_text, spec_text_of};
use crate::decimal::{i64_to_string, spec_i64_text};
use crate::llm::{LlmStep, SimpleLlmReplyStrategy, llm_begin_post, spec_session_of};
use crate::reply_strategy::{CommandReplyStrategy, Env, MessageContext, MessageContextView,
    ReplyError, cmd_reply_post};
use crate::session::{MessageView, Role, push_msg};
use crate::state::BotState;
use crate::text::{spec_starts_with, starts_with_str, str_eq};

verus! {

/// The strategy configured for this sender and scope: the group record
/// first, then the sender's, then the process default.
pub open spec fn spec_strategy_for(pre: BotState, env: Env, sender_id: i64, now: u64)
    -> StrategeType {
    let user_strat = match pre.users.live_value(sender_id, now) {
        Some(u) => u.stratege,
        None => StrategeType::LlmStrategy,
    };
    match env {
        Env::Group { group_id } => match pre.groups.live_value(group_id, now) {
            Some(g) => g.stratege,
            None => user_strat,
        },
        Env::Private => user_strat,
    }
}

/// Which path actually answers: the command strategy always takes a
/// command; under the generative strategy a leading command prefix still
/// forces the scripted path.
pub open spec fn spec_route(pre: BotState, ctx: MessageContextView, now: u64) -> StrategeType {
    match spec_strategy_for(pre, ctx.env, ctx.sender_id, now) {
        StrategeType::CmdStrategy => StrategeType::CmdStrategy,
        StrategeType::LlmStrategy => if spec_starts_with(
            spec_text_of(ctx.message),
            pre.settings.cmd_suffix@,
        ) {
            StrategeType::CmdStrategy
        } else {
            StrategeType::LlmStrategy
        },
    }
}

/// What `ReplyManager::reply` hands back: a finished answer, or a
/// request the embedding program must take to the network.
#[derive(Debug)]
pub enum ReplyWork {
    Done(MessageContent),
    Pending(LlmStep),
}

/// Mathematical image of [`ReplyWork`].
pub ghost enum ReplyWorkView {
    Done(ContentView),
    Pending(crate::llm::LlmStepView),
}

impl View for ReplyWork {
    type V = ReplyWorkView;

    open spec fn view(&self) -> ReplyWorkView {
        match self {
            ReplyWork::Done(c) => ReplyWorkView::Done(c@),
            ReplyWork::Pending(s) => ReplyWorkView::Pending(s@),
        }
    }
}

/// Ties the two strategies together: every message goes to exactly one
/// of them, chosen per scope and sender.
pub struct ReplyManager {
    pub cmd_strategy: CommandReplyStrategy,
    pub llm_strategy: SimpleLlmReplyStrategy,
}

impl ReplyManager {
    pub fn new(llm_strategy: SimpleLlmReplyStrategy) -> (r: Self)
        ensures
            r.llm_strategy == llm_strategy,
    {
        ReplyManager { cmd_strategy: CommandReplyStrategy::new(), llm_strategy }
    }

    /// The path this message takes.
    pub fn route(&self, state: &BotState, ctx: &MessageContext, now: u64) -> (r: StrategeType)
        requires
            state.inv(),
        ensures
            r == spec_route(*state, ctx@, now),
    {
        let strat = match &ctx.env {
            Env::Group { group_id } => {
                match state.groups.get(*group_id, now) {
                    Some(g) => g.stratege,
                    None => match state.users.get(ctx.sender_id, now) {
                        Some(u) => u.stratege,
                        None => StrategeType::LlmStrategy,
                    },
                }
            },
            Env::Private => match state.users.get(ctx.sender_id, now) {
                Some(u) => u.stratege,
                None => StrategeType::LlmStrategy,
            },
        };
        match strat {
            StrategeType::CmdStrategy => StrategeType::CmdStrategy,
            StrategeType::LlmStrategy => {
                let text = ctx.message.get_text();
                if starts_with_str(text.as_str(), state.settings.cmd_suffix.as_str()) {
                    StrategeType::CmdStrategy
                } else {
                    StrategeType::LlmStrategy
                }
            },
        }
    }

    /// Answers one message: the scripted path runs to completion; the
    /// generative path records the turn and hands back the outbound
    /// request for the embedding program to send, to be finished by
    /// `SimpleLlmReplyStrategy::complete_reply`.
    pub fn reply(&self, state: &mut BotState, ctx: &MessageContext, now: u64) -> (r: Result<
        ReplyWork,
        ReplyError,
    >)
        requires
            old(state).inv(),
        ensures
            final(state).inv(),
            match spec_route(*old(state), ctx@, now) {
                StrategeType::CmdStrategy => {
                    &&& (r is Ok ==> r->Ok_0@ is Done)
                    &&& cmd_reply_post(
                        *old(state),
                        *final(state),
                        ctx@,
                        now,
                        match r {
                            Ok(w) => Ok(w@->Done_0),
                            Err(e) => Err(e@),
                        },
                    )
                },
                StrategeType::LlmStrategy => {
                    &&& (r is Ok ==> r->Ok_0@ is Pending)
                    &&& llm_begin_post(
                        self.llm_strategy,
                        *old(state),
                        *final(state),
                        ctx@,
                        now,
                        match r {
                            Ok(w) => Ok(w@->Pending_0),
                            Err(e) => Err(e@),
                        },
                    )
                },
            },
    {
        match self.route(state, ctx, now) {
            StrategeType::CmdStrategy => {
                match self.cmd_strategy.run(state, ctx, now) {
                    Ok(c) => Ok(ReplyWork::Done(c)),
                    Err(e) => Err(e),
                }
            },
            StrategeType::LlmStrategy => {
                match self.llm_strategy.begin_reply(state, ctx, now) {
                    Ok(step) => Ok(ReplyWork::Pending(step)),
                    Err(e) => Err(e),
                }
            },
        }
    }
}

/// Mathematical image of [`InboundMessage`].
pub ghost struct InboundMessageView {
    pub message_type: Seq<char>,
    pub group_id: Option<i64>,
    pub sender_id: i64,
    pub self_id: i64,
    pub role: Option<Seq<char>>,
    pub nickname: Option<Seq<char>>,
    pub card: Option<Seq<char>>,
    pub segments: Seq<crate::content::RawSegmentView>,
}

/// One inbound platform event, as plain values.
#[derive(Clone, Debug)]
pub struct InboundMessage {
    /// `private`, `group`, or whatever else the transport says.
    pub message_type: String,
    pub group_id: Option<i64>,
    pub sender_id: i64,
    pub self_id: i64,
    /// The sender's standing in the group, as the transport names it.
    pub role: Option<String>,
    pub nickname: Option<String>,
    pub card: Option<String>,
    pub segments: Vec<RawSegment>,
}

impl View for InboundMessage {
    type V = InboundMessageView;

    open spec fn view(&self) -> InboundMessageView {
        InboundMessageView {
            message_type: self.message_type@,
            group_id: self.group_id,
            sender_id: self.sender_id,
            self_id: self.self_id,
            role: self.role.deep_view(),
            nickname: self.nickname.deep_view(),
            card: self.card.deep_view(),
            segments: self.segments.deep_view(),
        }
    }
}

/// Whether any segment mentions the receiving account.
pub open spec fn spec_mentioned(ev: InboundMessageView) -> bool {
    ev.message_type == "group"@ && exists|i: int|
        0 <= i < ev.segments.len() && #[trigger] ev.segments[i].kind == "at"@
            && ev.segments[i].qq == Some(spec_i64_text(ev.self_id as int))
}

/// The environment an event belongs to; a group event without a group id
/// falls back to private handling.
pub open spec fn spec_event_env(ev: InboundMessageView) -> Env {
    if ev.message_type == "group"@ {
        match ev.group_id {
            Some(g) => Env::Group { group_id: g },
            None => Env::Private,
        }
    } else {
        Env::Private
    }
}

/// Whether the message is answered at all: private messages by strategy
/// (the command strategy only answers commands), group messages only
/// when the bot is mentioned.
pub open spec fn spec_should_respond(
    ev: InboundMessageView,
    strategy: StrategeType,
    cmd_suffix: Seq<char>,
    text: Seq<char>,
) -> bool {
    if ev.message_type == "private"@ {
        match strategy {
            StrategeType::CmdStrategy => spec_starts_with(text, cmd_suffix),
            StrategeType::LlmStrategy => true,
        }
    } else {
        spec_mentioned(ev)
    }
}

/// Whether an unanswered message still becomes context: only under the
/// generative strategy, privately always, in a group when configured.
pub open spec fn spec_should_capture(
    ev: InboundMessageView,
    strategy: StrategeType,
    auto_capture: bool,
) -> bool {
    match strategy {
        StrategeType::LlmStrategy => (ev.message_type == "group"@ && auto_capture) || (
        ev.message_type == "private"@),
        StrategeType::CmdStrategy => false,
    }
}

/// The display name recorded with captured group chatter.
pub open spec fn spec_event_name(ev: InboundMessageView) -> Seq<char> {
    match ev.card {
        Some(c) => c,
        None => match ev.nickname {
            Some(n) => n,
            None => "user"@ + spec_i64_text(ev.sender_id as int),
        },
    }
}

/// What a captured message reads as in the history.
pub open spec fn spec_capture_text(
    text: Seq<char>,
    has_text: bool,
    has_image: bool,
) -> Seq<char> {
    if has_image && has_text {
        text + " [contains image]"@
    } else if has_image {
        "[image message]"@
    } else {
        text
    }
}

/// What the router decided for one event.
#[derive(Debug)]
pub enum MessagePlan {
    /// Nothing to do: no text, no image, or chatter nobody asked about.
    Ignore,
    /// The message became context; no answer goes out.
    Captured,
    /// The message is answered: here is the strategy context.
    Respond(MessageContext),
}

/// Mathematical image of [`MessagePlan`].
pub ghost enum MessagePlanView {
    Ignore,
    Captured,
    Respond(MessageContextView),
}

impl View for MessagePlan {
    type V = MessagePlanView;

    open spec fn view(&self) -> MessagePlanView {
        match self {
            MessagePlan::Ignore => MessagePlanView::Ignore,
            MessagePlan::Captured => MessagePlanView::Captured,
            MessagePlan::Respond(c) => MessagePlanView::Respond(c@),
        }
    }
}

/// The full behaviour of the router on one inbound event.
pub open spec fn handle_inbound_post(
    pre: BotState,
    post: BotState,
    ev: InboundMessageView,
    now: u64,
    r: MessagePlanView,
) -> bool {
    let content = collapse(segs_of_raws(ev.segments));
    let text = spec_text_of(content);
    let strategy = spec_strategy_for(pre, spec_event_env(ev), ev.sender_id, now);
    let responds = spec_should_respond(ev, strategy, pre.settings.cmd_suffix@, text);
    let captures = spec_should_capture(ev, strategy, pre.settings.auto_capture_group_messages);
    &&& post.users == pre.users
    &&& post.groups == pre.groups
    &&& post.students == pre.students
    &&& post.grades == pre.grades
    &&& post.settings == pre.settings
    &&& if !spec_has_text(content) && !spec_has_image(content) {
        r is Ignore && post == pre
    } else if responds {
        &&& post == pre
        &&& r is Respond
        &&& {
            let ctx = r->Respond_0;
            &&& ctx.env == spec_event_env(ev)
            &&& ctx.sender_id == ev.sender_id
            &&& ctx.self_id == ev.self_id
            &&& ctx.group_admin == (ev.role == Some("admin"@) || ev.role == Some("owner"@))
            &&& ctx.message == content
            &&& ctx.history.len() == 0
            &&& ctx.sender_name == Some(spec_event_name(ev))
        }
    } else if captures {
        let sid = spec_session_of(spec_event_env(ev), ev.sender_id);
        &&& r is Captured
        &&& post.conversations.same_config(&pre.conversations)
        &&& post.conversations.spec_session(sid) == Some(
            push_msg(
                pre.conversations.live_or_fresh(sid, now),
                MessageView {
                    role: Role::User,
                    content: spec_capture_text(
                        text,
                        spec_has_text(content),
                        spec_has_image(content),
                    ),
                    timestamp: now,
                    user_id: Some(ev.sender_id),
                    username: if spec_event_env(ev) is Group {
                        Some(spec_event_name(ev))
                    } else {
                        None
                    },
                },
            ),
        )
        &&& forall|k: crate::SessionId|
            k != sid ==> (post.conversations.spec_session(k) == pre.conversations.spec_session(k)
                || post.conversations.spec_session(k) is None)
    } else {
        r is Ignore && post == pre
    }
}

fn event_name(ev: &InboundMessage) -> (r: String)
    ensures
        r@ == spec_event_name(ev@),
{
    match &ev.card {
        Some(c) => c.clone(),
        None => match &ev.nickname {
            Some(n) => n.clone(),
            None => {
                let mut s = String::from_str("user");
                s.append(i64_to_string(ev.sender_id).as_str());
                s
            },
        },
    }
}

fn event_env(ev: &InboundMessage) -> (r: Env)
    ensures
        r == spec_event_env(ev@),
{
    if str_eq(ev.message_type.as_str(), "group") {
        match ev.group_id {
            Some(g) => Env::Group { group_id: g },
            None => Env::Private,
        }
    } else {
        Env::Private
    }
}

fn is_mentioned(ev: &InboundMessage) -> (r: bool)
    ensures
        r == spec_mentioned(ev@),
{
    if !str_eq(ev.message_type.as_str(), "group") {
        return false;
    }
    let self_text = i64_to_string(ev.self_id);
    let ghost segs = ev.segments.deep_view();
    let mut i: usize = 0;
    while i < ev.segments.len()
        invariant
            i <= ev.segments.len(),
            segs == ev.segments.deep_view(),
            segs.len() == ev.segments.len(),
            self_text@ == spec_i64_text(ev@.self_id as int),
            ev@.message_type == "group"@,
            forall|k: int|
                0 <= k < i ==> !(#[trigger] segs[k].kind == "at"@ && segs[k].qq == Some(
                    spec_i64_text(ev@.self_id as int),
                )),
        decreases ev.segments.len() - i,
    {
        let seg = &ev.segments[i];
        if str_eq(seg.kind.as_str(), "at") {
            match &seg.qq {
                Some(q) => {
                    if str_eq(q.as_str(), self_text.as_str()) {
                        proof {
                            assert(ev@.segments[i as int].kind == "at"@ && ev@.segments[
                                i as int].qq == Some(spec_i64_text(ev@.self_id as int)));
                        }
                        return true;
                    }
                },
                None => {},
            }
        }
        i += 1;
    }
    false
}

/// Routes one inbound event: decides whether it is answered, captured as
/// context, or ignored, performs the capture, and hands back the context
/// for an answer.
pub fn handle_inbound(state: &mut BotState, ev: &InboundMessage, now: u64) -> (r: MessagePlan)
    requires
        old(state).inv(),
    ensures
        final(state).inv(),
        handle_inbound_post(*old(state), *final(state), ev@, now, r@),
{
    let content = normalize(&ev.segments);
    let has_text = content.has_text();
    let has_image = content.has_image();
    if !has_text && !has_image {
        return MessagePlan::Ignore;
    }
    let text = content.get_text();
    let env = event_env(ev);
    let strategy = {
        let user_strat = match state.users.get(ev.sender_id, now) {
            Some(u) => u.stratege,
            None => StrategeType::LlmStrategy,
        };
        match &env {
            Env::Group { group_id } => match state.groups.get(*group_id, now) {
                Some(g) => g.stratege,
                None => user_strat,
            },
            Env::Private => user_strat,
        }
    };
    let responds = if str_eq(ev.message_type.as_str(), "private") {
        match strategy {
            StrategeType::CmdStrategy => starts_with_str(
                text.as_str(),
                state.settings.cmd_suffix.as_str(),
            ),
            StrategeType::LlmStrategy => true,
        }
    } else {
        is_mentioned(ev)
    };
    if responds {
        let ctx = MessageContext {
            env,
            sender_id: ev.sender_id,
            self_id: ev.self_id,
            group_admin: (match &ev.role {
                Some(role) => str_eq(role.as_str(), "admin") || str_eq(role.as_str(), "owner"),
                None => false,
            }),
            message: content,
            history: Vec::new(),
            sender_name: Some(event_name(ev)),
        };
        proof {
            assert(ctx@.history =~= Seq::<ContentView>::empty());
        }
        return MessagePlan::Respond(ctx);
    }
    let captures = match strategy {
        StrategeType::LlmStrategy => (str_eq(ev.message_type.as_str(), "group")
            && state.settings.auto_capture_group_messages) || str_eq(
            ev.message_type.as_str(),
            "private",
        ),
        StrategeType::CmdStrategy => false,
    };
    if !captures {
        return MessagePlan::Ignore;
    }
    let description = if has_image && has_text {
        let mut d = text.clone();
        d.append(" [contains image]");
        d
    } else if has_image {
        String::from_str("[image message]")
    } else {
        text
    };
    let sid = crate::llm::session_of(&env, ev.sender_id);
    let username: Option<String> = match &env {
        Env::Group { .. } => Some(event_name(ev)),
        Env::Private => None,
    };
    state.conversations.add_user_message_with_info(
        sid,
        description,
        ev.sender_id,
        username,
        now,
    );
    MessagePlan::Captured
}

} // verus!
