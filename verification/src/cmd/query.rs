//! The query command: looks up and formats the grade records bound to
//! the caller's messenger account.

use vstd::prelude::*;

use crate::cmd::{CmdResult, CmdResultView, CommonArgs, default_common, parse_common, spec_parse_common};
use crate::decimal::{i64_to_string, spec_i64_text};
use crate::error::{AppError, AppErrorView, ErrorKind};
use crate::permission::check_permission;
use crate::repo::{GradeRecordView, grades_of};
use crate::state::BotState;
use crate::text::{spec_ieq, str_eq, str_ieq};

verus! {

/// The grade query modes the command accepts.
#[derive(Clone, Copy, Debug, PartialEq, Eq, Structural)]
pub enum GradeQueryMode {
    Summary,
    Quiv1,
    Quiv2,
    Quiv3,
    Quiv4,
    Mid,
}

/// The subcommands of the query command.
#[derive(Clone, Copy, Debug, PartialEq, Eq, Structural)]
pub enum QueryItem {
    Grade { mode: GradeQueryMode },
}

/// Mathematical image of [`Query`].
pub ghost struct QueryView {
    pub common: crate::cmd::CommonArgsView,
    pub commands: QueryItem,
}

/// A parsed query invocation.
#[derive(Clone, Debug)]
pub struct Query {
    pub common: CommonArgs,
    pub commands: QueryItem,
}

impl View for Query {
    type V = QueryView;

    open spec fn view(&self) -> QueryView {
        QueryView { common: self.common@, commands: self.commands }
    }
}

/// The mode a token names, up to ASCII case.
pub open spec fn spec_mode_of(t: Seq<char>) -> Option<GradeQueryMode> {
    if spec_ieq(t, "summary"@) {
        Some(GradeQueryMode::Summary)
    } else if spec_ieq(t, "quiv1"@) {
        Some(GradeQueryMode::Quiv1)
    } else if spec_ieq(t, "quiv2"@) {
        Some(GradeQueryMode::Quiv2)
    } else if spec_ieq(t, "quiv3"@) {
        Some(GradeQueryMode::Quiv3)
    } else if spec_ieq(t, "quiv4"@) {
        Some(GradeQueryMode::Quiv4)
    } else if spec_ieq(t, "mid"@) {
        Some(GradeQueryMode::Mid)
    } else {
        None
    }
}

fn mode_of(t: &str) -> (r: Option<GradeQueryMode>)
    ensures
        r == spec_mode_of(t@),
{
    if str_ieq(t, "summary") {
        Some(GradeQueryMode::Summary)
    } else if str_ieq(t, "quiv1") {
        Some(GradeQueryMode::Quiv1)
    } else if str_ieq(t, "quiv2") {
        Some(GradeQueryMode::Quiv2)
    } else if str_ieq(t, "quiv3") {
        Some(GradeQueryMode::Quiv3)
    } else if str_ieq(t, "quiv4") {
        Some(GradeQueryMode::Quiv4)
    } else if str_ieq(t, "mid") {
        Some(GradeQueryMode::Mid)
    } else {
        None
    }
}

/// Mode flags after the subcommand: `--mode <name>` or `-m <name>`,
/// repeatable with the last one winning.
pub open spec fn spec_query_modes(ts: Seq<Seq<char>>, cur: GradeQueryMode) -> Option<
    GradeQueryMode,
>
    decreases ts.len(),
{
    if ts.len() == 0 {
        Some(cur)
    } else if ts[0] == "--mode"@ || ts[0] == "-m"@ {
        if ts.len() < 2 {
            None
        } else {
            match spec_mode_of(ts[1]) {
                Some(m) => spec_query_modes(ts.skip(2), m),
                None => None,
            }
        }
    } else {
        None
    }
}

/// A full query invocation: the `grade` subcommand with its mode flags.
pub open spec fn spec_query(args: Seq<Seq<char>>) -> Option<QueryView> {
    match spec_parse_common(args, default_common(), Seq::empty()) {
        Some(p) => {
            let rest = p.1;
            if rest.len() >= 1 && rest[0] == "grade"@ {
                match spec_query_modes(rest.skip(1), GradeQueryMode::Summary) {
                    Some(m) => Some(
                        QueryView { common: p.0, commands: QueryItem::Grade { mode: m } },
                    ),
                    None => None,
                }
            } else {
                None
            }
        },
        None => None,
    }
}

impl Query {
    /// Parses a full query invocation.
    #[verifier::loop_isolation(false)]
    pub fn parse(args: &Vec<String>) -> (r: Result<Query, AppError>)
        ensures
            match r {
                Ok(q) => spec_query(args.deep_view()) == Some(q@),
                Err(e) => spec_query(args.deep_view()) is None && e@.kind == ErrorKind::Command,
            },
    {
        let (common, rest) = match parse_common(args) {
            Ok(p) => p,
            Err(e) => {
                return Err(e);
            },
        };
        let ghost ts = rest.deep_view();
        if rest.len() == 0 || !str_eq(rest[0].as_str(), "grade") {
            return Err(AppError::command(String::from_str("expected the grade subcommand")));
        }
        let mut mode = GradeQueryMode::Summary;
        let mut i: usize = 1;
        proof {
            assert(ts.skip(1).skip(0) =~= ts.skip(1));
        }
        while i < rest.len()
            invariant
                1 <= i <= rest.len(),
                ts == rest.deep_view(),
                ts.len() == rest.len(),
                spec_query_modes(ts.skip(1), GradeQueryMode::Summary) == spec_query_modes(
                    ts.skip(i as int),
                    mode,
                ),
            decreases rest.len() - i,
        {
            let ghost sub = ts.skip(i as int);
            proof {
                assert(sub[0] == ts[i as int]);
            }
            if str_eq(rest[i].as_str(), "--mode") || str_eq(rest[i].as_str(), "-m") {
                if i + 1 >= rest.len() {
                    return Err(
                        AppError::command(String::from_str("the mode flag is missing its value")),
                    );
                }
                proof {
                    assert(sub[1] == ts[i + 1]);
                }
                match mode_of(rest[i + 1].as_str()) {
                    Some(m) => {
                        mode = m;
                        proof {
                            assert(sub.skip(2) =~= ts.skip(i + 2));
                        }
                        i += 2;
                    },
                    None => {
                        return Err(
                            AppError::command(String::from_str("no such query mode")),
                        );
                    },
                }
            } else {
                return Err(
                    AppError::command(String::from_str("unexpected argument")),
                );
            }
        }
        proof {
            assert(ts.skip(ts.len() as int) =~= Seq::<Seq<char>>::empty());
        }
        Ok(Query { common, commands: QueryItem::Grade { mode } })
    }
}

/// One line of the summary report, with an admonition under a failing
/// score.
pub open spec fn report_line(g: GradeRecordView) -> Seq<char> {
    g.student_name + " scored "@ + spec_i64_text(g.score as int) + " in "@ + g.exam_name + ";\n"@
        + (if g.score < 60 {
        "please put in more study time; this course matters for what follows\n"@
    } else {
        Seq::<char>::empty()
    })
}

/// The whole summary report, one line per grade record in order.
pub open spec fn report_of(gs: Seq<GradeRecordView>) -> Seq<char>
    decreases gs.len(),
{
    if gs.len() == 0 {
        Seq::empty()
    } else {
        report_of(gs.drop_last()) + report_line(gs.last())
    }
}

/// The full behaviour of the query command.  It never changes any state.
pub open spec fn query_post(
    pre: BotState,
    args: Seq<Seq<char>>,
    r: Result<CmdResultView, AppErrorView>,
) -> bool {
    match spec_query(args) {
        None => r is Err && r->Err_0.kind == ErrorKind::Command,
        Some(q) => match pre.students.spec_find_qq(q.common.sender) {
            None => r is Err && r->Err_0.kind == ErrorKind::NotFound,
            Some(bound) => {
                if bound.1.qq_number != q.common.sender && !pre.settings.admins@.contains(
                    q.common.sender,
                ) {
                    r is Err && r->Err_0.kind == ErrorKind::Permission
                } else if q.commands != (QueryItem::Grade { mode: GradeQueryMode::Summary }) {
                    r is Err && r->Err_0.kind == ErrorKind::Command
                } else {
                    r == Ok::<CmdResultView, AppErrorView>(
                        CmdResultView {
                            output: report_of(grades_of(pre.grades.model(), bound.0)),
                        },
                    )
                }
            },
        },
    }
}

/// Runs the query command against the student and grade stores.
pub fn run_query(state: &BotState, args: &Vec<String>) -> (r: Result<CmdResult, AppError>)
    requires
        state.inv(),
    ensures
        query_post(
            *state,
            args.deep_view(),
            match r {
                Ok(c) => Ok(c@),
                Err(e) => Err(e@),
            },
        ),
{
    let query = match Query::parse(args) {
        Ok(q) => q,
        Err(e) => {
            return Err(e);
        },
    };
    let (student_id, record) = match state.students.find_by_qq(query.common.sender) {
        Some(p) => p,
        None => {
            return Err(
                AppError::not_found(
                    String::from_str("bind your student number first with /bind <id>"),
                ),
            );
        },
    };
    if record.qq_number != query.common.sender && !check_permission(
        query.common.sender,
        &state.settings.admins,
    ) {
        return Err(
            AppError::permission(String::from_str("you may not view another student's grades")),
        );
    }
    let QueryItem::Grade { mode } = query.commands;
    if !matches!(mode, GradeQueryMode::Summary) {
        return Err(AppError::command(String::from_str("this query mode is not supported yet")));
    }
    let grades = state.grades.query_grades(student_id);
    let ghost gs = grades.deep_view();
    let mut report = String::new();
    let mut i: usize = 0;
    proof {
        assert(gs.take(0) =~= Seq::<GradeRecordView>::empty());
        assert(report@ =~= report_of(gs.take(0)));
    }
    while i < grades.len()
        invariant
            i <= grades.len(),
            gs == grades.deep_view(),
            gs.len() == grades.len(),
            report@ == report_of(gs.take(i as int)),
        decreases grades.len() - i,
    {
        proof {
            assert(gs.take(i + 1).drop_last() =~= gs.take(i as int));
            assert(gs.take(i + 1).last() == gs[i as int]);
        }
        let g = &grades[i];
        report.append(g.student_name.as_str());
        report.append(" scored ");
        report.append(i64_to_string(g.score as i64).as_str());
        report.append(" in ");
        report.append(g.exam_name.as_str());
        report.append(";\n");
        if g.score < 60 {
            report.append("please put in more study time; this course matters for what follows\n");
        }
        proof {
            assert(report@ =~= report_of(gs.take(i + 1)));
        }
        i += 1;
    }
    proof {
        assert(gs.take(gs.len() as int) =~= gs);
    }
    Ok(CmdResult { output: report })
}

} // verus!
