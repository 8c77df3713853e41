//! The prompt command: shows, sets, or resets the caller's custom
//! system prompt.  In a group only an administrator may use it.

use vstd::prelude::*;

use crate::UserData;
use crate::UserDataView;
use crate::cmd::{CmdResult, CmdResultView, CommonArgs, default_common, parse_common, spec_parse_common};
use crate::error::{AppError, AppErrorView, ErrorKind};
use crate::kvcache::CachedView;
use crate::resolver::{MAX_PROMPT_CHARS, validate_prompt};
use crate::state::BotState;
use crate::text::{spec_is_blank, str_eq};

verus! {

/// Mathematical image of [`Prompt`].
pub ghost struct PromptView {
    pub common: crate::cmd::CommonArgsView,
    pub content: Option<Seq<char>>,
    pub reset: bool,
}

/// A parsed prompt invocation.
#[derive(Clone, Debug)]
pub struct Prompt {
    pub common: CommonArgs,
    pub content: Option<String>,
    pub reset: bool,
}

impl View for Prompt {
    type V = PromptView;

    open spec fn view(&self) -> PromptView {
        PromptView {
            common: self.common@,
            content: self.content.deep_view(),
            reset: self.reset,
        }
    }
}

/// The command-specific grammar: an optional `--reset` switch and at
/// most one positional prompt token.
pub open spec fn spec_prompt_rest(
    ts: Seq<Seq<char>>,
    content: Option<Seq<char>>,
    reset: bool,
) -> Option<(Option<Seq<char>>, bool)>
    decreases ts.len(),
{
    if ts.len() == 0 {
        Some((content, reset))
    } else if ts[0] == "--reset"@ {
        spec_prompt_rest(ts.skip(1), content, true)
    } else if content is None {
        spec_prompt_rest(ts.skip(1), Some(ts[0]), reset)
    } else {
        None
    }
}

/// A fully parsed prompt invocation.
pub open spec fn spec_prompt(args: Seq<Seq<char>>) -> Option<PromptView> {
    match spec_parse_common(args, default_common(), Seq::empty()) {
        Some(p) => match spec_prompt_rest(p.1, None, false) {
            Some(q) => Some(PromptView { common: p.0, content: q.0, reset: q.1 }),
            None => None,
        },
        None => None,
    }
}

impl Prompt {
    /// Parses a full prompt invocation.
    #[verifier::loop_isolation(false)]
    pub fn parse(args: &Vec<String>) -> (r: Result<Prompt, AppError>)
        ensures
            match r {
                Ok(p) => spec_prompt(args.deep_view()) == Some(p@),
                Err(e) => spec_prompt(args.deep_view()) is None && e@.kind == ErrorKind::Command,
            },
    {
        let (common, rest) = match parse_common(args) {
            Ok(p) => p,
            Err(e) => {
                return Err(e);
            },
        };
        let ghost ts = rest.deep_view();
        let mut content: Option<String> = None;
        let mut reset = false;
        let mut i: usize = 0;
        proof {
            assert(ts.skip(0) =~= ts);
        }
        while i < rest.len()
            invariant
                i <= rest.len(),
                spec_prompt_rest(ts, None, false) == spec_prompt_rest(
                    ts.skip(i as int),
                    content.deep_view(),
                    reset,
                ),
            decreases rest.len() - i,
        {
            let ghost sub = ts.skip(i as int);
            proof {
                assert(sub[0] == ts[i as int]);
                assert(sub.skip(1) =~= ts.skip(i + 1));
            }
            if str_eq(rest[i].as_str(), "--reset") {
                reset = true;
            } else if content.is_none() {
                content = Some(rest[i].clone());
            } else {
                return Err(
                    AppError::command(String::from_str("too many positional arguments")),
                );
            }
            i += 1;
        }
        proof {
            assert(ts.skip(ts.len() as int) =~= Seq::<Seq<char>>::empty());
        }
        Ok(Prompt { common, content, reset })
    }
}

/// The caller's live configuration record, or the defaults.
pub open spec fn user_or_default(pre: BotState, sender: i64, now: u64) -> UserDataView {
    match pre.users.live_value(sender, now) {
        Some(u) => u,
        None => UserDataView {
            stratege: crate::StrategeType::LlmStrategy,
            model: Seq::empty(),
            custom_prompt: None,
        },
    }
}

/// Everything of the state that the prompt command never touches.
pub open spec fn prompt_keeps_rest(pre: BotState, post: BotState) -> bool {
    &&& post.conversations == pre.conversations
    &&& post.groups == pre.groups
    &&& post.students == pre.students
    &&& post.grades == pre.grades
    &&& post.settings == pre.settings
}

/// The full behaviour of the prompt command.
pub open spec fn prompt_post(
    pre: BotState,
    post: BotState,
    args: Seq<Seq<char>>,
    now: u64,
    r: Result<CmdResultView, AppErrorView>,
) -> bool {
    &&& prompt_keeps_rest(pre, post)
    &&& match spec_prompt(args) {
        None => {
            &&& post.users.model() == pre.users.model()
            &&& r is Err
            &&& r->Err_0.kind == ErrorKind::Command
        },
        Some(p) => {
            let cur = user_or_default(pre, p.common.sender, now);
            if !p.common.group_admin && p.common.env == "group"@ {
                &&& post.users.model() == pre.users.model()
                &&& r is Err
                &&& r->Err_0.kind == ErrorKind::Permission
            } else if p.reset {
                &&& post.users.spec_entry(p.common.sender) == Some(
                    CachedView {
                        data: UserDataView { custom_prompt: None, ..cur },
                        touched: now,
                    },
                )
                &&& forall|k: i64|
                    k != p.common.sender ==> (post.users.spec_entry(k) == pre.users.spec_entry(k)
                        || post.users.spec_entry(k) is None)
                &&& r == Ok::<CmdResultView, AppErrorView>(
                    CmdResultView { output: "reset to the default system prompt"@ },
                )
            } else {
                match p.content {
                    Some(text) => {
                        if spec_is_blank(text) || text.len() > MAX_PROMPT_CHARS as int {
                            &&& post.users.model() == pre.users.model()
                            &&& r is Err
                            &&& r->Err_0.kind == ErrorKind::Validation
                        } else {
                            &&& post.users.spec_entry(p.common.sender) == Some(
                                CachedView {
                                    data: UserDataView { custom_prompt: Some(text), ..cur },
                                    touched: now,
                                },
                            )
                            &&& forall|k: i64|
                                k != p.common.sender ==> (post.users.spec_entry(k)
                                    == pre.users.spec_entry(k) || post.users.spec_entry(k)
                                    is None)
                            &&& r == Ok::<CmdResultView, AppErrorView>(
                                CmdResultView { output: "prompt set successfully: "@ + text },
                            )
                        }
                    },
                    None => {
                        &&& post.users.model() == pre.users.model()
                        &&& r == Ok::<CmdResultView, AppErrorView>(
                            CmdResultView {
                                output: match cur.custom_prompt {
                                    Some(cp) => "current custom prompt: "@ + cp,
                                    None => "using the default system prompt: "@
                                        + pre.settings.system_prompt@,
                                },
                            },
                        )
                    },
                }
            }
        },
    }
}

/// Runs the prompt command against the user-configuration cache.
pub fn run_prompt(state: &mut BotState, args: &Vec<String>, now: u64) -> (r: Result<
    CmdResult,
    AppError,
>)
    requires
        old(state).inv(),
    ensures
        final(state).inv(),
        prompt_post(
            *old(state),
            *final(state),
            args.deep_view(),
            now,
            match r {
                Ok(c) => Ok(c@),
                Err(e) => Err(e@),
            },
        ),
{
    let prompt = match Prompt::parse(args) {
        Ok(p) => p,
        Err(e) => {
            return Err(e);
        },
    };
    if !prompt.common.group_admin && str_eq(prompt.common.env.as_str(), "group") {
        return Err(
            AppError::permission(
                String::from_str("only a group administrator may use this in a group"),
            ),
        );
    }
    let mut user_data = match state.users.get(prompt.common.sender, now) {
        Some(u) => u,
        None => UserData::default(),
    };
    proof {
        if old(state).users.live_value(prompt.common.sender, now) is None {
            assert(user_data@.model =~= Seq::<char>::empty());
        }
        assert(user_data@ == user_or_default(*old(state), prompt.common.sender, now));
    }
    if prompt.reset {
        user_data.custom_prompt = None;
        state.users.insert(prompt.common.sender, user_data, now);
        Ok(CmdResult { output: String::from_str("reset to the default system prompt") })
    } else {
        match prompt.content {
            Some(content) => {
                match validate_prompt(content.as_str()) {
                    Ok(()) => {},
                    Err(e) => {
                        return Err(e);
                    },
                }
                user_data.custom_prompt = Some(content.clone());
                state.users.insert(prompt.common.sender, user_data, now);
                let mut output = String::from_str("prompt set successfully: ");
                output.append(content.as_str());
                Ok(CmdResult { output })
            },
            None => {
                match &user_data.custom_prompt {
                    Some(cp) => {
                        let mut output = String::from_str("current custom prompt: ");
                        output.append(cp.as_str());
                        Ok(CmdResult { output })
                    },
                    None => {
                        let mut output = String::from_str("using the default system prompt: ");
                        output.append(state.settings.system_prompt.as_str());
                        Ok(CmdResult { output })
                    },
                }
            },
        }
    }
}

} // verus!
