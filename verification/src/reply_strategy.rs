//! The reply strategies: the shared context every strategy receives,
//! the strategy interface, and the scripted-command strategy.

use vstd::prelude::*;

use crate::cmd::{CmdRegistry, CmdResultView, execute_post, spec_augment, augment_args};
use crate::content::{ContentView, MessageContent, spec_text_of};
use crate::error::AppErrorView;
use crate::state::BotState;
use crate::text::{spec_starts_with, spec_tokens, strip_prefix_str, tokenize};

verus! {

/// Where a message happened: a group, or a private thread.
#[derive(Clone, Copy, Debug, PartialEq, Eq, Structural)]
pub enum Env {
    Group { group_id: i64 },
    Private,
}

impl Env {
    /// The conventional lower-case name of the environment.
    pub fn text(&self) -> (r: String)
        ensures
            r@ == spec_env_text(*self),
    {
        match self {
            Env::Group { .. } => String::from_str("group"),
            Env::Private => String::from_str("private"),
        }
    }

    /// The group id, when this is a group environment.
    pub fn group_id(&self) -> (r: Option<i64>)
        ensures
            r == spec_env_group(*self),
    {
        match self {
            Env::Group { group_id } => Some(*group_id),
            Env::Private => None,
        }
    }
}

pub open spec fn spec_env_text(env: Env) -> Seq<char> {
    match env {
        Env::Group { .. } => "group"@,
        Env::Private => "private"@,
    }
}

pub open spec fn spec_env_group(env: Env) -> Option<i64> {
    match env {
        Env::Group { group_id } => Some(group_id),
        Env::Private => None,
    }
}

/// Mathematical image of [`MessageContext`].
pub ghost struct MessageContextView {
    pub env: Env,
    pub sender_id: i64,
    pub self_id: i64,
    pub group_admin: bool,
    pub message: ContentView,
    pub history: Seq<ContentView>,
    pub sender_name: Option<Seq<char>>,
}

/// Everything a strategy learns about one inbound message.
#[derive(Debug)]
pub struct MessageContext {
    pub env: Env,
    pub sender_id: i64,
    pub self_id: i64,
    pub group_admin: bool,
    pub message: MessageContent,
    pub history: Vec<MessageContent>,
    pub sender_name: Option<String>,
}

impl View for MessageContext {
    type V = MessageContextView;

    open spec fn view(&self) -> MessageContextView {
        MessageContextView {
            env: self.env,
            sender_id: self.sender_id,
            self_id: self.self_id,
            group_admin: self.group_admin,
            message: self.message@,
            history: Seq::new(self.history@.len(), |i: int| self.history@[i]@),
            sender_name: self.sender_name.deep_view(),
        }
    }
}

/// A reply-pipeline failure, as text shown to operators; the router maps
/// it to a friendly message before anything reaches an end user.
#[derive(Debug)]
pub struct ReplyError(pub String);

impl View for ReplyError {
    type V = Seq<char>;

    open spec fn view(&self) -> Seq<char> {
        self.0@
    }
}

impl ReplyError {
    /// Carries a failed command's message onward.
    pub fn from_app(e: crate::error::AppError) -> (r: Self)
        ensures
            r@ == e@.message,
    {
        ReplyError(e.message)
    }

    /// The operator-facing description.
    pub fn text(&self) -> (r: String)
        ensures
            r@ == self@,
    {
        self.0.clone()
    }

    /// This failure as the crate-wide error type.
    pub fn into_app(self) -> (r: crate::error::AppError)
        ensures
            r@.kind == crate::error::ErrorKind::Reply,
            r@.message == self@,
    {
        crate::error::AppError::reply(self.0)
    }
}

/// One way of answering a message.  Implementations decide and reply
/// synchronously against the shared state; a strategy that must talk to
/// the network is driven in two steps by the embedding program instead.
pub trait RelyStrategy {
    fn reply(&self, state: &mut BotState, ctx: &MessageContext, now: u64) -> (r: Result<
        MessageContent,
        ReplyError,
    >)
        requires
            old(state).inv(),
        ensures
            final(state).inv(),
    ;
}

/// The scripted path: the message text is a command line.
#[derive(Clone, Debug)]
pub struct CommandReplyStrategy {}

impl CommandReplyStrategy {
    pub fn new() -> (r: Self)
        ensures
            true,
    {
        CommandReplyStrategy {  }
    }
}

/// The full behaviour of the scripted path: the text is tokenized, the
/// first token must carry the command prefix, the common trailer is
/// appended, and the registry's outcome is passed back as text.
pub open spec fn cmd_reply_post(
    pre: BotState,
    post: BotState,
    ctx: MessageContextView,
    now: u64,
    r: Result<ContentView, Seq<char>>,
) -> bool {
    let toks = spec_tokens(spec_text_of(ctx.message));
    if toks.len() == 0 {
        post == pre && r is Err
    } else if !spec_starts_with(toks[0], pre.settings.cmd_suffix@) {
        post == pre && r is Err
    } else {
        let name = toks[0].skip(pre.settings.cmd_suffix@.len() as int);
        let full = spec_augment(
            toks.drop_first(),
            ctx.sender_id,
            ctx.self_id,
            spec_env_group(ctx.env),
            ctx.group_admin,
        );
        exists|er: Result<CmdResultView, AppErrorView>|
            {
                &&& #[trigger] execute_post(pre, post, name, full, now, er)
                &&& match er {
                    Ok(c) => r == Ok::<ContentView, Seq<char>>(ContentView::Text(c.output)),
                    Err(e) => r == Err::<ContentView, Seq<char>>(e.message),
                }
            }
    }
}

impl CommandReplyStrategy {
    /// Parses the leading command token, appends the common trailer, and
    /// dispatches through the registry.
    pub fn run(&self, state: &mut BotState, ctx: &MessageContext, now: u64) -> (r: Result<
        MessageContent,
        ReplyError,
    >)
        requires
            old(state).inv(),
        ensures
            final(state).inv(),
            cmd_reply_post(
                *old(state),
                *final(state),
                ctx@,
                now,
                match r {
                    Ok(c) => Ok(c@),
                    Err(e) => Err(e@),
                },
            ),
    {
        let text = ctx.message.get_text();
        let mut parts = tokenize(text.as_str());
        if parts.len() == 0 {
            return Err(
                ReplyError(String::from_str("the message is not a command: it holds no tokens")),
            );
        }
        let head = parts.remove(0);
        let ghost toks = spec_tokens(text@);
        proof {
            assert(parts.deep_view() =~= toks.drop_first());
        }
        let name = match strip_prefix_str(head.as_str(), state.settings.cmd_suffix.as_str()) {
            Some(rest) => rest,
            None => {
                return Err(
                    ReplyError(String::from_str("the message does not carry the command prefix")),
                );
            },
        };
        let full = augment_args(
            parts,
            ctx.sender_id,
            ctx.self_id,
            ctx.env.group_id(),
            ctx.group_admin,
        );
        let ghost spec_name = toks[0].skip(old(state).settings.cmd_suffix@.len() as int);
        let ghost spec_full = spec_augment(
            toks.drop_first(),
            ctx@.sender_id,
            ctx@.self_id,
            spec_env_group(ctx@.env),
            ctx@.group_admin,
        );
        proof {
            assert(name@ == spec_name);
            assert(full.deep_view() == spec_full);
        }
        let registry = CmdRegistry::new();
        match registry.run(name.as_str(), &full, state, now) {
            Ok(result) => {
                let ghost er = Ok::<CmdResultView, AppErrorView>(result@);
                proof {
                    assert(execute_post(*old(state), *state, spec_name, spec_full, now, er));
                }
                Ok(MessageContent::Text(result.output))
            },
            Err(e) => {
                let ghost er = Err::<CmdResultView, AppErrorView>(e@);
                proof {
                    assert(execute_post(*old(state), *state, spec_name, spec_full, now, er));
                }
                Err(ReplyError::from_app(e))
            },
        }
    }
}

impl RelyStrategy for CommandReplyStrategy {
    fn reply(&self, state: &mut BotState, ctx: &MessageContext, now: u64) -> (r: Result<
        MessageContent,
        ReplyError,
    >) {
        self.run(state, ctx, now)
    }
}

} // verus!
