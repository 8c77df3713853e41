//! The bind command: associates the sender's messenger account with a
//! student record.  Private scope only; re-binding a bound sender is
//! refused; `--clear` releases the binding.

use vstd::prelude::*;

use crate::cmd::{CmdResult, CmdResultView, CommonArgs, default_common, parse_common, spec_parse_common};
use crate::decimal::{i64_text_val, parse_i64, spec_i64_text, valid_i64_text};
use crate::error::{AppError, AppErrorView, ErrorKind};
use crate::repo::StudentRecordView;
use crate::state::BotState;
use crate::store::slookup;
use crate::text::str_eq;

verus! {

/// Mathematical image of [`Bind`].
pub ghost struct BindView {
    pub common: crate::cmd::CommonArgsView,
    pub clear: bool,
    pub id: i64,
}

/// A parsed bind invocation.
#[derive(Clone, Debug)]
pub struct Bind {
    pub common: CommonArgs,
    pub clear: bool,
    pub id: i64,
}

impl View for Bind {
    type V = BindView;

    open spec fn view(&self) -> BindView {
        BindView { common: self.common@, clear: self.clear, id: self.id }
    }
}

/// The command-specific grammar: an optional `--clear` switch and at
/// most one positional student number.
pub open spec fn spec_bind_rest(ts: Seq<Seq<char>>, clear: bool, id: Option<int>) -> Option<
    (bool, int),
>
    decreases ts.len(),
{
    if ts.len() == 0 {
        Some(
            (
                clear,
                match id {
                    Some(v) => v,
                    None => 0,
                },
            ),
        )
    } else if ts[0] == "--clear"@ {
        spec_bind_rest(ts.skip(1), true, id)
    } else if id is None && valid_i64_text(ts[0]) {
        spec_bind_rest(ts.skip(1), clear, Some(i64_text_val(ts[0])))
    } else {
        None
    }
}

fn parse_bind_rest(rest: &Vec<String>) -> (r: Result<(bool, i64), AppError>)
    ensures
        match r {
            Ok(p) => spec_bind_rest(rest.deep_view(), false, None) == Some((p.0, p.1 as int)),
            Err(e) => spec_bind_rest(rest.deep_view(), false, None) is None && e@.kind
                == ErrorKind::Command,
        },
{
    let ghost ts = rest.deep_view();
    let mut clear = false;
    let mut id: Option<i64> = None;
    let mut i: usize = 0;
    proof {
        assert(ts.skip(0) =~= ts);
    }
    while i < rest.len()
        invariant
            i <= rest.len(),
            ts == rest.deep_view(),
            ts.len() == rest.len(),
            spec_bind_rest(ts, false, None) == spec_bind_rest(
                ts.skip(i as int),
                clear,
                match id {
                    Some(v) => Some(v as int),
                    None => None,
                },
            ),
        decreases rest.len() - i,
    {
        let ghost sub = ts.skip(i as int);
        proof {
            assert(sub[0] == ts[i as int]);
            assert(sub.skip(1) =~= ts.skip(i + 1));
        }
        if str_eq(rest[i].as_str(), "--clear") {
            clear = true;
            i += 1;
        } else if id.is_none() {
            match parse_i64(rest[i].as_str()) {
                Some(v) => {
                    id = Some(v);
                    i += 1;
                },
                None => {
                    return Err(
                        AppError::command(
                            String::from_str("expected a student number or --clear"),
                        ),
                    );
                },
            }
        } else {
            return Err(
                AppError::command(String::from_str("too many positional arguments")),
            );
        }
    }
    proof {
        assert(ts.skip(ts.len() as int) =~= Seq::<Seq<char>>::empty());
    }
    Ok(
        (
            clear,
            match id {
                Some(v) => v,
                None => 0,
            },
        ),
    )
}

impl Bind {
    /// Parses a full bind invocation: the global flags plus this
    /// command's own grammar.
    pub fn parse(args: &Vec<String>) -> (r: Result<Bind, AppError>)
        ensures
            match r {
                Ok(b) => spec_bind(args.deep_view()) == Some(b@),
                Err(e) => spec_bind(args.deep_view()) is None && e@.kind == ErrorKind::Command,
            },
    {
        let (common, rest) = match parse_common(args) {
            Ok(p) => p,
            Err(e) => {
                return Err(e);
            },
        };
        let (clear, id) = match parse_bind_rest(&rest) {
            Ok(p) => p,
            Err(e) => {
                return Err(e);
            },
        };
        Ok(Bind { common, clear, id })
    }
}

/// A fully parsed bind invocation, or nothing when the tokens are
/// malformed.
pub open spec fn spec_bind(args: Seq<Seq<char>>) -> Option<BindView> {
    match spec_parse_common(args, default_common(), Seq::empty()) {
        Some(p) => match spec_bind_rest(p.1, false, None) {
            Some(q) => Some(BindView { common: p.0, clear: q.0, id: q.1 as i64 }),
            None => None,
        },
        None => None,
    }
}

/// Everything of the state that the bind command never touches.
pub open spec fn bind_keeps_rest(pre: BotState, post: BotState) -> bool {
    &&& post.conversations == pre.conversations
    &&& post.users == pre.users
    &&& post.groups == pre.groups
    &&& post.grades == pre.grades
    &&& post.settings == pre.settings
}

/// The full behaviour of the bind command.
pub open spec fn bind_post(
    pre: BotState,
    post: BotState,
    args: Seq<Seq<char>>,
    r: Result<CmdResultView, AppErrorView>,
) -> bool {
    &&& bind_keeps_rest(pre, post)
    &&& match spec_bind(args) {
        None => {
            &&& post.students.model() == pre.students.model()
            &&& r is Err
            &&& r->Err_0.kind == ErrorKind::Command
        },
        Some(b) => {
            if b.common.env != "private"@ {
                &&& post.students.model() == pre.students.model()
                &&& r is Err
                &&& r->Err_0.kind == ErrorKind::Command
                &&& r->Err_0.message == "only used in private environment"@
            } else {
                match pre.students.spec_find_qq(b.common.sender) {
                    Some(bound) => {
                        if b.clear {
                            &&& r == Ok::<CmdResultView, AppErrorView>(
                                CmdResultView { output: "clear qq number successfully"@ },
                            )
                            &&& post.students.spec_get(bound.0) == Some(
                                StudentRecordView {
                                    name: bound.1.name,
                                    qq_number: 0,
                                    group_id: bound.1.group_id,
                                },
                            )
                            &&& forall|k: i64|
                                k != bound.0 ==> post.students.spec_get(k)
                                    == pre.students.spec_get(k)
                        } else {
                            &&& post.students.model() == pre.students.model()
                            &&& r is Err
                            &&& r->Err_0.kind == ErrorKind::Command
                            &&& r->Err_0.message == "already bound to student "@ + spec_i64_text(
                                bound.0 as int,
                            )
                        }
                    },
                    None => match slookup(pre.students.model(), b.id) {
                        Some(target) => {
                            if target.qq_number != 0 {
                                &&& post.students.model() == pre.students.model()
                                &&& r is Err
                                &&& r->Err_0.kind == ErrorKind::Command
                                &&& r->Err_0.message
                                    == "the student is already bound to another account"@
                            } else {
                                &&& r == Ok::<CmdResultView, AppErrorView>(
                                    CmdResultView { output: "success"@ },
                                )
                                &&& post.students.spec_get(b.id) == Some(
                                    StudentRecordView {
                                        name: target.name,
                                        qq_number: b.common.sender,
                                        group_id: target.group_id,
                                    },
                                )
                                &&& forall|k: i64|
                                    k != b.id ==> post.students.spec_get(k)
                                        == pre.students.spec_get(k)
                            }
                        },
                        None => {
                            &&& post.students.model() == pre.students.model()
                            &&& r is Err
                            &&& r->Err_0.kind == ErrorKind::NotFound
                        },
                    },
                }
            }
        },
    }
}

/// Runs the bind command against the student store.
pub fn run_bind(state: &mut BotState, args: &Vec<String>) -> (r: Result<CmdResult, AppError>)
    requires
        old(state).inv(),
    ensures
        final(state).inv(),
        bind_post(
            *old(state),
            *final(state),
            args.deep_view(),
            match r {
                Ok(c) => Ok(c@),
                Err(e) => Err(e@),
            },
        ),
{
    let bind = match Bind::parse(args) {
        Ok(b) => b,
        Err(e) => {
            return Err(e);
        },
    };
    if !str_eq(bind.common.env.as_str(), "private") {
        return Err(AppError::command(String::from_str("only used in private environment")));
    }
    match state.students.find_by_qq(bind.common.sender) {
        Some((bound_id, _record)) => {
            proof {
                crate::repo::lemma_find_qq_in_store(state.students.model(), bind.common.sender);
            }
            if bind.clear {
                match state.students.update_qq(bound_id, 0) {
                    Ok(()) => Ok(
                        CmdResult { output: String::from_str("clear qq number successfully") },
                    ),
                    Err(_e) => {
                        // The id came from the store, so it is present.
                        proof {
                            assert(false);
                        }
                        unreached()
                    },
                }
            } else {
                let mut message = String::from_str("already bound to student ");
                message.append(crate::decimal::i64_to_string(bound_id).as_str());
                Err(AppError::command(message))
            }
        },
        None => {
            match state.students.find_by_id(bind.id) {
                Some(target) => {
                    if target.qq_number != 0 {
                        return Err(
                            AppError::command(
                                String::from_str("the student is already bound to another account"),
                            ),
                        );
                    }
                },
                None => {},
            }
            match state.students.update_qq(bind.id, bind.common.sender) {
                Ok(()) => Ok(CmdResult { output: String::from_str("success") }),
                Err(e) => Err(e),
            }
        },
    }
}

} // verus!
