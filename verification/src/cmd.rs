//! The command-line-shaped argument surface: the global flags every
//! scripted command understands, and the registry that dispatches to the
//! built-in commands.

use vstd::prelude::*;

use crate::decimal::{i64_text_val, i64_to_string, parse_i64, spec_i64_text, valid_i64_text};
use crate::error::{AppError, ErrorKind};
use crate::text::str_eq;

pub mod bind;
pub mod query;
pub mod prompt;
pub mod strategy;
pub mod push;

verus! {

/// Mathematical image of [`CommonArgs`].
pub ghost struct CommonArgsView {
    pub sender: i64,
    pub myself: i64,
    pub env: Seq<char>,
    pub group_id: i64,
    pub group_admin: bool,
}

/// The flags the router appends to every command before dispatch: who
/// sent the message, which account received it, the environment, and,
/// in a group, which one and whether the sender administers it.
#[derive(Clone, Debug)]
pub struct CommonArgs {
    pub sender: i64,
    pub myself: i64,
    pub env: String,
    pub group_id: i64,
    pub group_admin: bool,
}

impl View for CommonArgs {
    type V = CommonArgsView;

    open spec fn view(&self) -> CommonArgsView {
        CommonArgsView {
            sender: self.sender,
            myself: self.myself,
            env: self.env@,
            group_id: self.group_id,
            group_admin: self.group_admin,
        }
    }
}

/// The values the flags take before any token sets them.
pub open spec fn default_common() -> CommonArgsView {
    CommonArgsView { sender: 0, myself: 0, env: "private"@, group_id: 0, group_admin: false }
}

/// One pass over the tokens: global flags fill the accumulator, every
/// other token lands in `rest` in order.  `None` is a malformed token
/// run: a flag without its value, or a value that is no integer.
pub open spec fn spec_parse_common(
    ts: Seq<Seq<char>>,
    acc: CommonArgsView,
    rest: Seq<Seq<char>>,
) -> Option<(CommonArgsView, Seq<Seq<char>>)>
    decreases ts.len(),
{
    if ts.len() == 0 {
        Some((acc, rest))
    } else if ts[0] == "--sender"@ {
        if ts.len() < 2 || !valid_i64_text(ts[1]) {
            None
        } else {
            spec_parse_common(
                ts.skip(2),
                CommonArgsView { sender: i64_text_val(ts[1]) as i64, ..acc },
                rest,
            )
        }
    } else if ts[0] == "--myself"@ {
        if ts.len() < 2 || !valid_i64_text(ts[1]) {
            None
        } else {
            spec_parse_common(
                ts.skip(2),
                CommonArgsView { myself: i64_text_val(ts[1]) as i64, ..acc },
                rest,
            )
        }
    } else if ts[0] == "--group-id"@ {
        if ts.len() < 2 || !valid_i64_text(ts[1]) {
            None
        } else {
            spec_parse_common(
                ts.skip(2),
                CommonArgsView { group_id: i64_text_val(ts[1]) as i64, ..acc },
                rest,
            )
        }
    } else if ts[0] == "--env"@ {
        if ts.len() < 2 {
            None
        } else {
            spec_parse_common(ts.skip(2), CommonArgsView { env: ts[1], ..acc }, rest)
        }
    } else if ts[0] == "--group-admin"@ {
        spec_parse_common(ts.skip(1), CommonArgsView { group_admin: true, ..acc }, rest)
    } else {
        spec_parse_common(ts.skip(1), acc, rest.push(ts[0]))
    }
}

/// Splits a token run into the global flags and the remaining
/// command-specific tokens.
pub fn parse_common(args: &Vec<String>) -> (r: Result<(CommonArgs, Vec<String>), AppError>)
    ensures
        match r {
            Ok(p) => spec_parse_common(args.deep_view(), default_common(), Seq::empty()) == Some(
                (p.0@, p.1.deep_view()),
            ),
            Err(e) => spec_parse_common(args.deep_view(), default_common(), Seq::empty())
                is None && e@.kind == ErrorKind::Command,
        },
{
    let ghost ts = args.deep_view();
    let mut acc = CommonArgs {
        sender: 0,
        myself: 0,
        env: String::from_str("private"),
        group_id: 0,
        group_admin: false,
    };
    let mut rest: Vec<String> = Vec::new();
    let mut i: usize = 0;
    proof {
        assert(ts.skip(0) =~= ts);
        assert(rest.deep_view() =~= Seq::<Seq<char>>::empty());
    }
    while i < args.len()
        invariant
            i <= args.len(),
            ts == args.deep_view(),
            ts.len() == args.len(),
            spec_parse_common(ts, default_common(), Seq::empty()) == spec_parse_common(
                ts.skip(i as int),
                acc@,
                rest.deep_view(),
            ),
        decreases args.len() - i,
    {
        let ghost sub = ts.skip(i as int);
        proof {
            assert(sub[0] == ts[i as int]);
        }
        let tok = &args[i];
        if str_eq(tok.as_str(), "--sender") || str_eq(tok.as_str(), "--myself") || str_eq(
            tok.as_str(),
            "--group-id",
        ) {
            if i + 1 >= args.len() {
                return Err(
                    AppError::command(String::from_str("a flag is missing its value")),
                );
            }
            proof {
                assert(sub[1] == ts[i + 1]);
            }
            match parse_i64(args[i + 1].as_str()) {
                Some(v) => {
                    if str_eq(tok.as_str(), "--sender") {
                        acc.sender = v;
                    } else if str_eq(tok.as_str(), "--myself") {
                        acc.myself = v;
                    } else {
                        acc.group_id = v;
                    }
                    proof {
                        assert(sub.skip(2) =~= ts.skip(i + 2));
                    }
                    i += 2;
                },
                None => {
                    return Err(
                        AppError::command(String::from_str("a flag needs an integer value")),
                    );
                },
            }
        } else if str_eq(tok.as_str(), "--env") {
            if i + 1 >= args.len() {
                return Err(
                    AppError::command(String::from_str("a flag is missing its value")),
                );
            }
            proof {
                assert(sub[1] == ts[i + 1]);
            }
            acc.env = args[i + 1].clone();
            proof {
                assert(sub.skip(2) =~= ts.skip(i + 2));
            }
            i += 2;
        } else if str_eq(tok.as_str(), "--group-admin") {
            acc.group_admin = true;
            proof {
                assert(sub.skip(1) =~= ts.skip(i + 1));
            }
            i += 1;
        } else {
            let ghost prior = rest.deep_view();
            rest.push(tok.clone());
            proof {
                assert(rest.deep_view() =~= prior.push(ts[i as int]));
                assert(sub.skip(1) =~= ts.skip(i + 1));
            }
            i += 1;
        }
    }
    proof {
        assert(ts.skip(ts.len() as int) =~= Seq::<Seq<char>>::empty());
    }
    Ok((acc, rest))
}

/// The trailer the router appends to every command invocation.
pub open spec fn spec_augment(
    base: Seq<Seq<char>>,
    sender: i64,
    myself: i64,
    group: Option<i64>,
    group_admin: bool,
) -> Seq<Seq<char>> {
    let with_common = base + seq![
        "--sender"@,
        spec_i64_text(sender as int),
        "--myself"@,
        spec_i64_text(myself as int),
        "--env"@,
        (if group is Some {
            "group"@
        } else {
            "private"@
        }),
    ];
    let with_group = match group {
        Some(g) => with_common + seq!["--group-id"@, spec_i64_text(g as int)],
        None => with_common,
    };
    if group_admin {
        with_group.push("--group-admin"@)
    } else {
        with_group
    }
}

/// Appends the common trailer to a command's own tokens: sender, self,
/// environment, and, in a group, its id and the sender's admin standing.
pub fn augment_args(
    base: Vec<String>,
    sender: i64,
    myself: i64,
    group: Option<i64>,
    group_admin: bool,
) -> (r: Vec<String>)
    ensures
        r.deep_view() == spec_augment(base.deep_view(), sender, myself, group, group_admin),
{
    let ghost base_v = base.deep_view();
    let mut out = base;
    out.push(String::from_str("--sender"));
    out.push(i64_to_string(sender));
    out.push(String::from_str("--myself"));
    out.push(i64_to_string(myself));
    out.push(String::from_str("--env"));
    match group {
        Some(g) => {
            out.push(String::from_str("group"));
            out.push(String::from_str("--group-id"));
            out.push(i64_to_string(g));
        },
        None => {
            out.push(String::from_str("private"));
        },
    }
    if group_admin {
        out.push(String::from_str("--group-admin"));
    }
    proof {
        assert(out.deep_view() =~= spec_augment(base_v, sender, myself, group, group_admin));
    }
    out
}

/// Mathematical image of [`CmdResult`].
pub ghost struct CmdResultView {
    pub output: Seq<char>,
}

/// What a command hands back: the text shown to the sender.
#[derive(Clone, Debug)]
pub struct CmdResult {
    pub output: String,
}

impl View for CmdResult {
    type V = CmdResultView;

    open spec fn view(&self) -> CmdResultView {
        CmdResultView { output: self.output@ }
    }
}

/// The built-in commands.
#[derive(Clone, Copy, Debug, PartialEq, Eq, Structural)]
pub enum CommandKind {
    Bind,
    Query,
    Strategy,
    Prompt,
    Push,
}

/// The command a name resolves to.
pub open spec fn spec_cmd_lookup(name: Seq<char>) -> Option<CommandKind> {
    if name == "bind"@ {
        Some(CommandKind::Bind)
    } else if name == "query"@ {
        Some(CommandKind::Query)
    } else if name == "strategy"@ {
        Some(CommandKind::Strategy)
    } else if name == "prompt"@ {
        Some(CommandKind::Prompt)
    } else if name == "push"@ {
        Some(CommandKind::Push)
    } else {
        None
    }
}

/// No command touches the conversation store or the settings, and each
/// touches at most its own stores.
pub open spec fn execute_keeps(pre: crate::state::BotState, post: crate::state::BotState) -> bool {
    &&& post.conversations == pre.conversations
    &&& post.settings == pre.settings
}

/// The full behaviour of dispatch: an unknown name is a not-found error
/// with everything untouched; a known name behaves as that command.
pub open spec fn execute_post(
    pre: crate::state::BotState,
    post: crate::state::BotState,
    name: Seq<char>,
    args: Seq<Seq<char>>,
    now: u64,
    r: Result<CmdResultView, crate::error::AppErrorView>,
) -> bool {
    &&& execute_keeps(pre, post)
    &&& match spec_cmd_lookup(name) {
        None => {
            &&& post.users.model() == pre.users.model()
            &&& post.groups.model() == pre.groups.model()
            &&& post.students.model() == pre.students.model()
            &&& post.grades.model() == pre.grades.model()
            &&& r is Err
            &&& r->Err_0.kind == ErrorKind::NotFound
            &&& r->Err_0.message == "command not found: "@ + name
        },
        Some(CommandKind::Bind) => crate::cmd::bind::bind_post(pre, post, args, r),
        Some(CommandKind::Query) => post == pre && crate::cmd::query::query_post(pre, args, r),
        Some(CommandKind::Strategy) => crate::cmd::strategy::strategy_post(pre, post, args, now, r),
        Some(CommandKind::Prompt) => crate::cmd::prompt::prompt_post(pre, post, args, now, r),
        Some(CommandKind::Push) => post == pre && crate::cmd::push::push_cmd_post(pre, args, r),
    }
}

/// The immutable registry of built-in commands, fixed at start-up.
pub struct CmdRegistry {}

/// Dispatch by command name.
pub trait Execute {
    /// Runs the named command against the shared state.
    fn execute(
        &self,
        cmd: &str,
        args: &Vec<String>,
        state: &mut crate::state::BotState,
        now: u64,
    ) -> (r: Result<CmdResult, crate::error::AppError>)
        requires
            old(state).inv(),
        ensures
            final(state).inv(),
    ;
}

impl CmdRegistry {
    pub fn new() -> (r: Self)
        ensures
            true,
    {
        CmdRegistry {  }
    }

    /// The command registered under `name`, if any.
    pub fn lookup(&self, name: &str) -> (r: Option<CommandKind>)
        ensures
            r == spec_cmd_lookup(name@),
    {
        if str_eq(name, "bind") {
            Some(CommandKind::Bind)
        } else if str_eq(name, "query") {
            Some(CommandKind::Query)
        } else if str_eq(name, "strategy") {
            Some(CommandKind::Strategy)
        } else if str_eq(name, "prompt") {
            Some(CommandKind::Prompt)
        } else if str_eq(name, "push") {
            Some(CommandKind::Push)
        } else {
            None
        }
    }

    /// Runs the named command, or answers that no such command exists.
    pub fn run(
        &self,
        cmd: &str,
        args: &Vec<String>,
        state: &mut crate::state::BotState,
        now: u64,
    ) -> (r: Result<CmdResult, crate::error::AppError>)
        requires
            old(state).inv(),
        ensures
            final(state).inv(),
            execute_post(
                *old(state),
                *final(state),
                cmd@,
                args.deep_view(),
                now,
                match r {
                    Ok(c) => Ok(c@),
                    Err(e) => Err(e@),
                },
            ),
    {
        match self.lookup(cmd) {
            Some(CommandKind::Bind) => crate::cmd::bind::run_bind(state, args),
            Some(CommandKind::Query) => crate::cmd::query::run_query(state, args),
            Some(CommandKind::Strategy) => crate::cmd::strategy::run_strategy(state, args, now),
            Some(CommandKind::Prompt) => crate::cmd::prompt::run_prompt(state, args, now),
            Some(CommandKind::Push) => crate::cmd::push::run_push(state, args),
            None => {
                let mut message = String::from_str("command not found: ");
                message.append(cmd);
                Err(crate::error::AppError::not_found(message))
            },
        }
    }
}

impl Execute for CmdRegistry {
    fn execute(
        &self,
        cmd: &str,
        args: &Vec<String>,
        state: &mut crate::state::BotState,
        now: u64,
    ) -> (r: Result<CmdResult, crate::error::AppError>) {
        self.run(cmd, args, state, now)
    }
}

} // verus!
