//! The strategy command: switches a user's or a group's reply strategy,
//! optionally setting the model and the custom prompt, and reports the
//! configuration in force.

use vstd::prelude::*;

use crate::cmd::{CmdResult, CmdResultView, CommonArgs, default_common, parse_common, spec_parse_common};
use crate::error::{AppError, AppErrorView, ErrorKind};
use crate::kvcache::CachedView;
use crate::resolver::{MAX_PROMPT_CHARS, validate_prompt};
use crate::state::BotState;
use crate::text::{is_blank, spec_is_blank, str_eq};
use crate::{GroupData, GroupDataView, StrategeType, UserData, UserDataView};

verus! {

/// Mathematical image of [`StrategyCommand`].
pub ghost enum StrategyCommandView {
    Cmd,
    Llm { model: Option<Seq<char>>, prompt: Option<Seq<char>>, reset_prompt: bool },
    Query,
}

/// The subcommands of the strategy command.
#[derive(Clone, Debug)]
pub enum StrategyCommand {
    /// Switch to scripted command handling.
    Cmd,
    /// Switch to generative replies, optionally naming the model and the
    /// custom prompt or resetting the latter.
    Llm { model: Option<String>, prompt: Option<String>, reset_prompt: bool },
    /// Report the configuration in force.
    Query,
}

impl View for StrategyCommand {
    type V = StrategyCommandView;

    open spec fn view(&self) -> StrategyCommandView {
        match self {
            StrategyCommand::Cmd => StrategyCommandView::Cmd,
            StrategyCommand::Llm { model, prompt, reset_prompt } => StrategyCommandView::Llm {
                model: model.deep_view(),
                prompt: prompt.deep_view(),
                reset_prompt: *reset_prompt,
            },
            StrategyCommand::Query => StrategyCommandView::Query,
        }
    }
}

/// Mathematical image of [`Strategy`].
pub ghost struct StrategyView {
    pub common: crate::cmd::CommonArgsView,
    pub command: StrategyCommandView,
}

/// A parsed strategy invocation.
#[derive(Clone, Debug)]
pub struct Strategy {
    pub common: CommonArgs,
    pub command: StrategyCommand,
}

impl View for Strategy {
    type V = StrategyView;

    open spec fn view(&self) -> StrategyView {
        StrategyView { common: self.common@, command: self.command@ }
    }
}

/// Flags of the llm subcommand: `--model`/`-m` and `--prompt`/`-p` with
/// values, and the `--reset-prompt` switch.
pub open spec fn spec_llm_flags(
    ts: Seq<Seq<char>>,
    model: Option<Seq<char>>,
    prompt: Option<Seq<char>>,
    reset: bool,
) -> Option<StrategyCommandView>
    decreases ts.len(),
{
    if ts.len() == 0 {
        Some(StrategyCommandView::Llm { model, prompt, reset_prompt: reset })
    } else if ts[0] == "--model"@ || ts[0] == "-m"@ {
        if ts.len() < 2 {
            None
        } else {
            spec_llm_flags(ts.skip(2), Some(ts[1]), prompt, reset)
        }
    } else if ts[0] == "--prompt"@ || ts[0] == "-p"@ {
        if ts.len() < 2 {
            None
        } else {
            spec_llm_flags(ts.skip(2), model, Some(ts[1]), reset)
        }
    } else if ts[0] == "--reset-prompt"@ {
        spec_llm_flags(ts.skip(1), model, prompt, true)
    } else {
        None
    }
}

/// A full strategy invocation: one of the three subcommands with the
/// llm flags where applicable.
pub open spec fn spec_strategy(args: Seq<Seq<char>>) -> Option<StrategyView> {
    match spec_parse_common(args, default_common(), Seq::empty()) {
        Some(p) => {
            let rest = p.1;
            if rest.len() == 0 {
                None
            } else if rest[0] == "cmd"@ {
                if rest.len() == 1 {
                    Some(StrategyView { common: p.0, command: StrategyCommandView::Cmd })
                } else {
                    None
                }
            } else if rest[0] == "query"@ {
                if rest.len() == 1 {
                    Some(StrategyView { common: p.0, command: StrategyCommandView::Query })
                } else {
                    None
                }
            } else if rest[0] == "llm"@ {
                match spec_llm_flags(rest.skip(1), None, None, false) {
                    Some(c) => Some(StrategyView { common: p.0, command: c }),
                    None => None,
                }
            } else {
                None
            }
        },
        None => None,
    }
}

impl Strategy {
    /// Parses a full strategy invocation.
    #[verifier::loop_isolation(false)]
    pub fn parse(args: &Vec<String>) -> (r: Result<Strategy, AppError>)
        ensures
            match r {
                Ok(s) => spec_strategy(args.deep_view()) == Some(s@),
                Err(e) => spec_strategy(args.deep_view()) is None && e@.kind
                    == ErrorKind::Command,
            },
    {
        let (common, rest) = match parse_common(args) {
            Ok(p) => p,
            Err(e) => {
                return Err(e);
            },
        };
        let ghost ts = rest.deep_view();
        if rest.len() == 0 {
            return Err(AppError::command(String::from_str("expected a subcommand")));
        }
        if str_eq(rest[0].as_str(), "cmd") {
            if rest.len() != 1 {
                return Err(AppError::command(String::from_str("unexpected argument")));
            }
            return Ok(Strategy { common, command: StrategyCommand::Cmd });
        }
        if str_eq(rest[0].as_str(), "query") {
            if rest.len() != 1 {
                return Err(AppError::command(String::from_str("unexpected argument")));
            }
            return Ok(Strategy { common, command: StrategyCommand::Query });
        }
        if !str_eq(rest[0].as_str(), "llm") {
            return Err(AppError::command(String::from_str("no such subcommand")));
        }
        let mut model: Option<String> = None;
        let mut prompt: Option<String> = None;
        let mut reset = false;
        let mut i: usize = 1;
        proof {
            assert(ts.skip(1).skip(0) =~= ts.skip(1));
        }
        while i < rest.len()
            invariant
                1 <= i <= rest.len(),
                spec_llm_flags(ts.skip(1), None, None, false) == spec_llm_flags(
                    ts.skip(i as int),
                    model.deep_view(),
                    prompt.deep_view(),
                    reset,
                ),
            decreases rest.len() - i,
        {
            let ghost sub = ts.skip(i as int);
            proof {
                assert(sub[0] == ts[i as int]);
            }
            if str_eq(rest[i].as_str(), "--model") || str_eq(rest[i].as_str(), "-m") {
                if i + 1 >= rest.len() {
                    return Err(
                        AppError::command(String::from_str("the model flag is missing its value")),
                    );
                }
                proof {
                    assert(sub[1] == ts[i + 1]);
                    assert(sub.skip(2) =~= ts.skip(i + 2));
                }
                model = Some(rest[i + 1].clone());
                i += 2;
            } else if str_eq(rest[i].as_str(), "--prompt") || str_eq(rest[i].as_str(), "-p") {
                if i + 1 >= rest.len() {
                    return Err(
                        AppError::command(
                            String::from_str("the prompt flag is missing its value"),
                        ),
                    );
                }
                proof {
                    assert(sub[1] == ts[i + 1]);
                    assert(sub.skip(2) =~= ts.skip(i + 2));
                }
                prompt = Some(rest[i + 1].clone());
                i += 2;
            } else if str_eq(rest[i].as_str(), "--reset-prompt") {
                proof {
                    assert(sub.skip(1) =~= ts.skip(i + 1));
                }
                reset = true;
                i += 1;
            } else {
                return Err(AppError::command(String::from_str("unexpected argument")));
            }
        }
        proof {
            assert(ts.skip(ts.len() as int) =~= Seq::<Seq<char>>::empty());
        }
        Ok(Strategy { common, command: StrategyCommand::Llm { model, prompt, reset_prompt: reset } })
    }
}

/// The model name after an llm switch: an explicitly given non-blank
/// name wins; otherwise an empty stored name falls back to the process
/// default.
pub open spec fn llm_model(
    cur: Seq<char>,
    given: Option<Seq<char>>,
    default_model: Seq<char>,
) -> Seq<char> {
    match given {
        Some(name) => if !spec_is_blank(name) {
            name
        } else {
            cur
        },
        None => if cur.len() == 0 {
            default_model
        } else {
            cur
        },
    }
}

/// The custom prompt after an llm switch: reset wins; a given prompt
/// replaces; otherwise the stored one stays.
pub open spec fn llm_prompt(
    cur: Option<Seq<char>>,
    given: Option<Seq<char>>,
    reset: bool,
) -> Option<Seq<char>> {
    if reset {
        None
    } else {
        match given {
            Some(p) => Some(p),
            None => cur,
        }
    }
}

/// A given prompt is rejected when blank or overlong, unless reset was
/// asked for, which skips it entirely.
pub open spec fn llm_prompt_rejected(given: Option<Seq<char>>, reset: bool) -> bool {
    !reset && match given {
        Some(p) => spec_is_blank(p) || p.len() > MAX_PROMPT_CHARS as int,
        None => false,
    }
}

/// The message an llm switch answers with.
pub open spec fn llm_output(
    group_scope: bool,
    given_prompt: Option<Seq<char>>,
    reset: bool,
    new_model: Seq<char>,
    new_prompt: Option<Seq<char>>,
) -> Seq<char> {
    (if group_scope {
        "switched the group to chat mode"@
    } else {
        "switched to chat mode"@
    }) + (if reset {
        "\nprompt reset to the default"@
    } else {
        match given_prompt {
            Some(p) => "\nprompt set: "@ + p,
            None => Seq::<char>::empty(),
        }
    }) + "\nmodel: "@ + new_model + (match new_prompt {
        Some(p) => "\nprompt: custom: "@ + p,
        None => "\nprompt: default"@,
    })
}

/// The message a configuration query answers with.
pub open spec fn query_output(
    group_scope: bool,
    stratege: StrategeType,
    model: Seq<char>,
    prompt: Option<Seq<char>>,
) -> Seq<char> {
    (if group_scope {
        "group configuration:"@
    } else {
        "your configuration:"@
    }) + "\nstrategy: "@ + (match stratege {
        StrategeType::CmdStrategy => "command mode"@,
        StrategeType::LlmStrategy => "chat mode"@,
    }) + (if stratege is LlmStrategy {
        "\nmodel: "@ + model + (match prompt {
            Some(p) => "\nprompt: custom: "@ + p,
            None => "\nprompt: default"@,
        })
    } else {
        Seq::<char>::empty()
    })
}

/// The group's live configuration record, or the defaults.
pub open spec fn group_or_default(pre: BotState, group_id: i64, now: u64) -> GroupDataView {
    match pre.groups.live_value(group_id, now) {
        Some(g) => g,
        None => GroupDataView {
            stratege: StrategeType::LlmStrategy,
            model: Seq::empty(),
            custom_prompt: None,
        },
    }
}

/// Everything of the state that the strategy command never touches.
pub open spec fn strategy_keeps_rest(pre: BotState, post: BotState) -> bool {
    &&& post.conversations == pre.conversations
    &&& post.students == pre.students
    &&& post.grades == pre.grades
    &&& post.settings == pre.settings
}

/// Shorthand: every user entry, and every group entry, unchanged.
pub open spec fn strategy_no_writes(pre: BotState, post: BotState) -> bool {
    post.users.model() == pre.users.model() && post.groups.model() == pre.groups.model()
}

/// The full behaviour of the strategy command on group scope.
pub open spec fn strategy_group_post(
    pre: BotState,
    post: BotState,
    s: StrategyView,
    now: u64,
    r: Result<CmdResultView, AppErrorView>,
) -> bool {
    let gid = s.common.group_id;
    let cur = group_or_default(pre, gid, now);
    if gid == 0 {
        &&& strategy_no_writes(pre, post)
        &&& r is Err
        &&& r->Err_0.kind == ErrorKind::Command
    } else {
        match s.command {
            StrategyCommandView::Cmd => {
                &&& post.users.model() == pre.users.model()
                &&& post.groups.spec_entry(gid) == Some(
                    CachedView {
                        data: GroupDataView { stratege: StrategeType::CmdStrategy, ..cur },
                        touched: now,
                    },
                )
                &&& forall|k: i64|
                    k != gid ==> (post.groups.spec_entry(k) == pre.groups.spec_entry(k)
                        || post.groups.spec_entry(k) is None)
                &&& r == Ok::<CmdResultView, AppErrorView>(
                    CmdResultView { output: "switched the group to command mode"@ },
                )
            },
            StrategyCommandView::Llm { model, prompt, reset_prompt } => {
                if llm_prompt_rejected(prompt, reset_prompt) {
                    &&& strategy_no_writes(pre, post)
                    &&& r is Err
                    &&& r->Err_0.kind == ErrorKind::Validation
                } else {
                    let nm = llm_model(cur.model, model, pre.settings.default_model@);
                    let np = llm_prompt(cur.custom_prompt, prompt, reset_prompt);
                    &&& post.users.model() == pre.users.model()
                    &&& post.groups.spec_entry(gid) == Some(
                        CachedView {
                            data: GroupDataView {
                                stratege: StrategeType::LlmStrategy,
                                model: nm,
                                custom_prompt: np,
                            },
                            touched: now,
                        },
                    )
                    &&& forall|k: i64|
                        k != gid ==> (post.groups.spec_entry(k) == pre.groups.spec_entry(k)
                            || post.groups.spec_entry(k) is None)
                    &&& r == Ok::<CmdResultView, AppErrorView>(
                        CmdResultView { output: llm_output(true, prompt, reset_prompt, nm, np) },
                    )
                }
            },
            StrategyCommandView::Query => {
                &&& strategy_no_writes(pre, post)
                &&& r == Ok::<CmdResultView, AppErrorView>(
                    CmdResultView {
                        output: query_output(true, cur.stratege, cur.model, cur.custom_prompt),
                    },
                )
            },
        }
    }
}

/// The full behaviour of the strategy command on user scope.
pub open spec fn strategy_user_post(
    pre: BotState,
    post: BotState,
    s: StrategyView,
    now: u64,
    r: Result<CmdResultView, AppErrorView>,
) -> bool {
    let uid = s.common.sender;
    let cur = crate::cmd::prompt::user_or_default(pre, uid, now);
    match s.command {
        StrategyCommandView::Cmd => {
            &&& post.groups.model() == pre.groups.model()
            &&& post.users.spec_entry(uid) == Some(
                CachedView {
                    data: UserDataView { stratege: StrategeType::CmdStrategy, ..cur },
                    touched: now,
                },
            )
            &&& forall|k: i64|
                k != uid ==> (post.users.spec_entry(k) == pre.users.spec_entry(k)
                    || post.users.spec_entry(k) is None)
            &&& r == Ok::<CmdResultView, AppErrorView>(
                CmdResultView { output: "switched to command mode"@ },
            )
        },
        StrategyCommandView::Llm { model, prompt, reset_prompt } => {
            if llm_prompt_rejected(prompt, reset_prompt) {
                &&& strategy_no_writes(pre, post)
                &&& r is Err
                &&& r->Err_0.kind == ErrorKind::Validation
            } else {
                let nm = llm_model(cur.model, model, pre.settings.default_model@);
                let np = llm_prompt(cur.custom_prompt, prompt, reset_prompt);
                &&& post.groups.model() == pre.groups.model()
                &&& post.users.spec_entry(uid) == Some(
                    CachedView {
                        data: UserDataView {
                            stratege: StrategeType::LlmStrategy,
                            model: nm,
                            custom_prompt: np,
                        },
                        touched: now,
                    },
                )
                &&& forall|k: i64|
                    k != uid ==> (post.users.spec_entry(k) == pre.users.spec_entry(k)
                        || post.users.spec_entry(k) is None)
                &&& r == Ok::<CmdResultView, AppErrorView>(
                    CmdResultView { output: llm_output(false, prompt, reset_prompt, nm, np) },
                )
            }
        },
        StrategyCommandView::Query => {
            &&& strategy_no_writes(pre, post)
            &&& r == Ok::<CmdResultView, AppErrorView>(
                CmdResultView {
                    output: query_output(false, cur.stratege, cur.model, cur.custom_prompt),
                },
            )
        },
    }
}

/// The full behaviour of the strategy command.
pub open spec fn strategy_post(
    pre: BotState,
    post: BotState,
    args: Seq<Seq<char>>,
    now: u64,
    r: Result<CmdResultView, AppErrorView>,
) -> bool {
    &&& strategy_keeps_rest(pre, post)
    &&& match spec_strategy(args) {
        None => {
            &&& strategy_no_writes(pre, post)
            &&& r is Err
            &&& r->Err_0.kind == ErrorKind::Command
        },
        Some(s) => {
            if !s.common.group_admin && s.common.env == "group"@ {
                &&& strategy_no_writes(pre, post)
                &&& r is Err
                &&& r->Err_0.kind == ErrorKind::Permission
            } else if s.common.env == "group"@ {
                strategy_group_post(pre, post, s, now, r)
            } else {
                strategy_user_post(pre, post, s, now, r)
            }
        },
    }
}

fn build_llm_output(
    group_scope: bool,
    given_prompt: &Option<String>,
    reset: bool,
    new_model: &String,
    new_prompt: &Option<String>,
) -> (r: String)
    ensures
        r@ == llm_output(
            group_scope,
            given_prompt.deep_view(),
            reset,
            new_model@,
            new_prompt.deep_view(),
        ),
{
    let mut out = if group_scope {
        String::from_str("switched the group to chat mode")
    } else {
        String::from_str("switched to chat mode")
    };
    if reset {
        out.append("\nprompt reset to the default");
    } else {
        match given_prompt {
            Some(p) => {
                out.append("\nprompt set: ");
                out.append(p.as_str());
            },
            None => {},
        }
    }
    out.append("\nmodel: ");
    out.append(new_model.as_str());
    match new_prompt {
        Some(p) => {
            out.append("\nprompt: custom: ");
            out.append(p.as_str());
        },
        None => {
            out.append("\nprompt: default");
        },
    }
    out
}

fn build_query_output(
    group_scope: bool,
    stratege: StrategeType,
    model: &String,
    prompt: &Option<String>,
) -> (r: String)
    ensures
        r@ == query_output(group_scope, stratege, model@, prompt.deep_view()),
{
    let mut out = if group_scope {
        String::from_str("group configuration:")
    } else {
        String::from_str("your configuration:")
    };
    out.append("\nstrategy: ");
    match stratege {
        StrategeType::CmdStrategy => {
            out.append("command mode");
        },
        StrategeType::LlmStrategy => {
            out.append("chat mode");
            out.append("\nmodel: ");
            out.append(model.as_str());
            match prompt {
                Some(p) => {
                    out.append("\nprompt: custom: ");
                    out.append(p.as_str());
                },
                None => {
                    out.append("\nprompt: default");
                },
            }
        },
    }
    out
}

/// Runs the strategy command against the configuration caches.
pub fn run_strategy(state: &mut BotState, args: &Vec<String>, now: u64) -> (r: Result<
    CmdResult,
    AppError,
>)
    requires
        old(state).inv(),
    ensures
        final(state).inv(),
        strategy_post(
            *old(state),
            *final(state),
            args.deep_view(),
            now,
            match r {
                Ok(c) => Ok(c@),
                Err(e) => Err(e@),
            },
        ),
{
    let strategy = match Strategy::parse(args) {
        Ok(s) => s,
        Err(e) => {
            return Err(e);
        },
    };
    if !strategy.common.group_admin && str_eq(strategy.common.env.as_str(), "group") {
        return Err(
            AppError::permission(
                String::from_str("only a group administrator may use this in a group"),
            ),
        );
    }
    if str_eq(strategy.common.env.as_str(), "group") {
        let group_id = strategy.common.group_id;
        if group_id == 0 {
            return Err(AppError::command(String::from_str("invalid group id")));
        }
        let mut group_data = match state.groups.get(group_id, now) {
            Some(g) => g,
            None => GroupData::default(),
        };
        proof {
            if old(state).groups.live_value(group_id, now) is None {
                assert(group_data@.model =~= Seq::<char>::empty());
            }
            assert(group_data@ == group_or_default(*old(state), group_id, now));
        }
        match strategy.command {
            StrategyCommand::Cmd => {
                group_data.stratege = StrategeType::CmdStrategy;
                state.groups.insert(group_id, group_data, now);
                Ok(CmdResult { output: String::from_str("switched the group to command mode") })
            },
            StrategyCommand::Llm { model, prompt, reset_prompt } => {
                if !reset_prompt {
                    match &prompt {
                        Some(p) => {
                            match validate_prompt(p.as_str()) {
                                Ok(()) => {},
                                Err(e) => {
                                    return Err(e);
                                },
                            }
                        },
                        None => {},
                    }
                }
                group_data.stratege = StrategeType::LlmStrategy;
                match &model {
                    Some(name) => {
                        if !is_blank(name.as_str()) {
                            group_data.model = name.clone();
                        }
                    },
                    None => {
                        if group_data.model.as_str().unicode_len() == 0 {
                            group_data.model = state.settings.default_model.clone();
                        }
                    },
                }
                if reset_prompt {
                    group_data.custom_prompt = None;
                } else {
                    match &prompt {
                        Some(p) => {
                            group_data.custom_prompt = Some(p.clone());
                        },
                        None => {},
                    }
                }
                let output = build_llm_output(
                    true,
                    &prompt,
                    reset_prompt,
                    &group_data.model,
                    &group_data.custom_prompt,
                );
                state.groups.insert(group_id, group_data, now);
                Ok(CmdResult { output })
            },
            StrategyCommand::Query => {
                let output = build_query_output(
                    true,
                    group_data.stratege,
                    &group_data.model,
                    &group_data.custom_prompt,
                );
                Ok(CmdResult { output })
            },
        }
    } else {
        let user_id = strategy.common.sender;
        let mut user_data = match state.users.get(user_id, now) {
            Some(u) => u,
            None => UserData::default(),
        };
        proof {
            if old(state).users.live_value(user_id, now) is None {
                assert(user_data@.model =~= Seq::<char>::empty());
            }
            assert(user_data@ == crate::cmd::prompt::user_or_default(*old(state), user_id, now));
        }
        match strategy.command {
            StrategyCommand::Cmd => {
                user_data.stratege = StrategeType::CmdStrategy;
                state.users.insert(user_id, user_data, now);
                Ok(CmdResult { output: String::from_str("switched to command mode") })
            },
            StrategyCommand::Llm { model, prompt, reset_prompt } => {
                if !reset_prompt {
                    match &prompt {
                        Some(p) => {
                            match validate_prompt(p.as_str()) {
                                Ok(()) => {},
                                Err(e) => {
                                    return Err(e);
                                },
                            }
                        },
                        None => {},
                    }
                }
                user_data.stratege = StrategeType::LlmStrategy;
                match &model {
                    Some(name) => {
                        if !is_blank(name.as_str()) {
                            user_data.model = name.clone();
                        }
                    },
                    None => {
                        if user_data.model.as_str().unicode_len() == 0 {
                            user_data.model = state.settings.default_model.clone();
                        }
                    },
                }
                if reset_prompt {
                    user_data.custom_prompt = None;
                } else {
                    match &prompt {
                        Some(p) => {
                            user_data.custom_prompt = Some(p.clone());
                        },
                        None => {},
                    }
                }
                let output = build_llm_output(
                    false,
                    &prompt,
                    reset_prompt,
                    &user_data.model,
                    &user_data.custom_prompt,
                );
                state.users.insert(user_id, user_data, now);
                Ok(CmdResult { output })
            },
            StrategyCommand::Query => {
                let output = build_query_output(
                    false,
                    user_data.stratege,
                    &user_data.model,
                    &user_data.custom_prompt,
                );
                Ok(CmdResult { output })
            },
        }
    }
}

} // verus!
