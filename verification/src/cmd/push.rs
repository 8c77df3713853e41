//! The push command: fans one message out to a list of group members.
//! Private scope only; the recipient list and group id are validated
//! before any delivery is attempted, and per-recipient failures are
//! tallied rather than aborting the batch.

use vstd::prelude::*;

use crate::cmd::{CmdResult, CmdResultView, CommonArgs, default_common, parse_common, spec_parse_common};
use crate::content::join_space;
use crate::decimal::{i64_text_val, i64_to_string, parse_i64, spec_i64_text, valid_i64_text};
use crate::error::{AppError, AppErrorView, ErrorKind};
use crate::repo::{StudentRecordView, StudentStore};
use crate::state::BotState;
use crate::store::slookup;
use crate::text::{is_blank, spec_is_blank, str_eq, tokenize, spec_tokens};

verus! {

/// Relies on `rand::random_range`: a uniform draw below `n`.  Nothing is
/// promised of the value beyond its bound.
#[verifier::external_body]
fn random_below(n: u32) -> (r: u32)
    requires
        n > 0,
    ensures
        r < n,
{
    rand::random_range(0..n)
}

/// Mathematical image of [`PushRequest`].
pub ghost struct PushRequestView {
    pub sender_id: i64,
    pub group_id: i64,
    pub message: Seq<char>,
    pub target_members: Seq<i64>,
}

/// A fan-out order: who asks, which group's members, what to say, to
/// whom.
#[derive(Clone, Debug)]
pub struct PushRequest {
    pub sender_id: i64,
    pub group_id: i64,
    pub message: String,
    pub target_members: Vec<i64>,
}

impl View for PushRequest {
    type V = PushRequestView;

    open spec fn view(&self) -> PushRequestView {
        PushRequestView {
            sender_id: self.sender_id,
            group_id: self.group_id,
            message: self.message@,
            target_members: self.target_members@,
        }
    }
}

/// Mathematical image of [`PushResult`].
pub ghost struct PushResultView {
    pub success_count: usize,
    pub failed_count: usize,
    pub total_count: usize,
    pub failed_members: Seq<Seq<char>>,
    pub message: Seq<char>,
}

/// The tally of one fan-out: how many deliveries went through, how many
/// did not, and a line per failed recipient.
#[derive(Clone, Debug)]
pub struct PushResult {
    pub success_count: usize,
    pub failed_count: usize,
    pub total_count: usize,
    pub failed_members: Vec<String>,
    pub message: String,
}

impl View for PushResult {
    type V = PushResultView;

    open spec fn view(&self) -> PushResultView {
        PushResultView {
            success_count: self.success_count,
            failed_count: self.failed_count,
            total_count: self.total_count,
            failed_members: self.failed_members.deep_view(),
            message: self.message@,
        }
    }
}

/// The push delivery service.
pub struct PushService;

impl PushService {
    /// Whether this sender may push into this group: both ids must be
    /// positive.  (A transport-level admin check happens at the edge.)
    pub fn validate_permission(sender_id: i64, group_id: i64) -> (r: Result<bool, AppError>)
        ensures
            r == Ok::<bool, AppError>(group_id > 0 && sender_id > 0),
    {
        Ok(group_id > 0 && sender_id > 0)
    }

    /// One delivery attempt.  The simulated transport fails about one
    /// time in ten; nothing is promised about which attempts fail.
    fn send_temp_message(_group_id: i64, _member_id: i64, _message: &str) -> (r: Result<
        (),
        AppError,
    >)
        ensures
            r is Err ==> r->Err_0@.kind == ErrorKind::Command,
    {
        if random_below(10) != 0 {
            Ok(())
        } else {
            Err(AppError::command(String::from_str("delivery failed")))
        }
    }

    /// Validates the request and attempts a delivery per recipient,
    /// collecting failures instead of aborting: the tally always adds
    /// up to the whole recipient list.
    pub fn push_messages(request: &PushRequest) -> (r: Result<PushResult, AppError>)
        ensures
            (request@.group_id <= 0 || request@.sender_id <= 0) ==> (r is Err && r->Err_0@.kind
                == ErrorKind::Permission),
            (request@.group_id > 0 && request@.sender_id > 0 && spec_is_blank(request@.message))
                ==> (r is Err && r->Err_0@.kind == ErrorKind::Validation),
            (request@.group_id > 0 && request@.sender_id > 0 && !spec_is_blank(request@.message)
                && request@.target_members.len() == 0) ==> (r is Err && r->Err_0@.kind
                == ErrorKind::Validation),
            (request@.group_id > 0 && request@.sender_id > 0 && !spec_is_blank(request@.message)
                && request@.target_members.len() > 0) ==> (r is Ok && {
                let t = r->Ok_0@;
                &&& t.total_count == request@.target_members.len()
                &&& t.success_count + t.failed_count == t.total_count
                &&& t.failed_members.len() == t.failed_count
                &&& t.message == "push done: "@ + crate::decimal::spec_u64_text(
                    t.success_count as int,
                ) + " delivered, "@ + crate::decimal::spec_u64_text(t.failed_count as int)
                    + " failed"@
            }),
    {
        let ok = match Self::validate_permission(request.sender_id, request.group_id) {
            Ok(b) => b,
            Err(_) => false,
        };
        if !ok {
            return Err(
                AppError::permission(
                    String::from_str("you may not push messages into this group"),
                ),
            );
        }
        if is_blank(request.message.as_str()) {
            return Err(AppError::validation(String::from_str("the message must not be empty")));
        }
        if request.target_members.len() == 0 {
            return Err(
                AppError::validation(String::from_str("the recipient list must not be empty")),
            );
        }
        let mut success_count: usize = 0;
        let mut failed_members: Vec<String> = Vec::new();
        let mut i: usize = 0;
        while i < request.target_members.len()
            invariant
                i <= request.target_members.len(),
                success_count + failed_members.len() == i,
            decreases request.target_members.len() - i,
        {
            let member_id = request.target_members[i];
            match Self::send_temp_message(request.group_id, member_id, request.message.as_str()) {
                Ok(()) => {
                    success_count += 1;
                },
                Err(_) => {
                    let mut line = String::from_str("QQ");
                    line.append(i64_to_string(member_id).as_str());
                    line.append(": delivery failed");
                    failed_members.push(line);
                },
            }
            i += 1;
        }
        let failed_count = failed_members.len();
        let total_count = request.target_members.len();
        let mut message = String::from_str("push done: ");
        message.append(crate::decimal::u64_to_string(success_count as u64).as_str());
        message.append(" delivered, ");
        message.append(crate::decimal::u64_to_string(failed_count as u64).as_str());
        message.append(" failed");
        Ok(PushResult { success_count, failed_count, total_count, failed_members, message })
    }
}

/// The messenger accounts bound to a run of student ids, in order:
/// unknown ids and unbound records contribute nothing.
pub open spec fn qq_numbers_of(
    records: Seq<(i64, StudentRecordView)>,
    ids: Seq<i64>,
) -> Seq<i64>
    decreases ids.len(),
{
    if ids.len() == 0 {
        Seq::empty()
    } else {
        qq_numbers_of(records, ids.drop_last()) + (match slookup(records, ids.last()) {
            Some(r) => if r.qq_number != 0 {
                seq![r.qq_number]
            } else {
                Seq::empty()
            },
            None => Seq::empty(),
        })
    }
}

impl PushService {
    /// Looks each student id up and collects the messenger accounts
    /// they are bound to, skipping unknown and unbound students.
    pub fn get_qq_by_student_ids(students: &StudentStore, student_ids: &Vec<i64>) -> (r: Vec<
        i64,
    >)
        requires
            students.inv(),
        ensures
            r@ == qq_numbers_of(students.model(), student_ids@),
    {
        let ghost ids = student_ids@;
        let mut out: Vec<i64> = Vec::new();
        let mut i: usize = 0;
        proof {
            assert(ids.take(0) =~= Seq::<i64>::empty());
            assert(out@ =~= qq_numbers_of(students.model(), ids.take(0)));
        }
        while i < student_ids.len()
            invariant
                i <= student_ids.len(),
                ids == student_ids@,
                students.inv(),
                out@ == qq_numbers_of(students.model(), ids.take(i as int)),
            decreases student_ids.len() - i,
        {
            let ghost prior = out@;
            proof {
                assert(ids.take(i + 1).drop_last() =~= ids.take(i as int));
                assert(ids.take(i + 1).last() == ids[i as int]);
            }
            match students.find_by_id(student_ids[i]) {
                Some(record) => {
                    if record.qq_number != 0 {
                        out.push(record.qq_number);
                        proof {
                            assert(out@ =~= prior.push(record.qq_number));
                        }
                    }
                },
                None => {},
            }
            proof {
                assert(out@ =~= qq_numbers_of(students.model(), ids.take(i + 1)));
            }
            i += 1;
        }
        proof {
            assert(ids.take(ids.len() as int) =~= ids);
        }
        out
    }
}

/// The message tokens that follow `-m`, up to the recipient marker.
pub open spec fn msg_take(ts: Seq<Seq<char>>) -> Seq<Seq<char>>
    decreases ts.len(),
{
    if ts.len() == 0 || ts[0] == "-l"@ {
        Seq::empty()
    } else {
        seq![ts[0]] + msg_take(ts.skip(1))
    }
}

proof fn lemma_msg_take_len(ts: Seq<Seq<char>>)
    ensures
        msg_take(ts).len() <= ts.len(),
    decreases ts.len(),
{
    if ts.len() == 0 || ts[0] == "-l"@ {
    } else {
        lemma_msg_take_len(ts.skip(1));
    }
}

proof fn lemma_msg_take(ts: Seq<Seq<char>>, cnt: int)
    requires
        0 <= cnt <= ts.len(),
        forall|k: int| 0 <= k < cnt ==> ts[k] != "-l"@,
        cnt < ts.len() ==> ts[cnt] == "-l"@,
    ensures
        msg_take(ts) == ts.take(cnt),
    decreases cnt,
{
    if cnt == 0 {
        assert(ts.take(0) =~= Seq::<Seq<char>>::empty());
    } else {
        let t = ts.skip(1);
        assert(forall|k: int| 0 <= k < cnt - 1 ==> t[k] == ts[k + 1]);
        lemma_msg_take(t, cnt - 1);
        assert(ts.take(cnt) =~= seq![ts[0]] + t.take(cnt - 1));
    }
}

/// The recipient tokens after `-l`: every one must be an integer.
pub open spec fn parse_members(ts: Seq<Seq<char>>) -> Option<Seq<i64>>
    decreases ts.len(),
{
    if ts.len() == 0 {
        Some(Seq::empty())
    } else {
        match parse_members(ts.drop_last()) {
            Some(pre) => if valid_i64_text(ts.last()) {
                Some(pre.push(i64_text_val(ts.last()) as i64))
            } else {
                None
            },
            None => None,
        }
    }
}

proof fn lemma_parse_members_none(ts: Seq<Seq<char>>, m: int)
    requires
        0 <= m <= ts.len(),
        parse_members(ts.take(m)) is None,
    ensures
        parse_members(ts) is None,
    decreases ts.len() - m,
{
    if m < ts.len() {
        assert(ts.take(m + 1).drop_last() =~= ts.take(m));
        lemma_parse_members_none(ts, m + 1);
    } else {
        assert(ts.take(m) =~= ts);
    }
}

/// One scan over the tokens after the command word: `-g` takes the group
/// id, `-m` collects the message until `-l`, `-l` takes every remaining
/// token as a recipient.  `None` is a malformed run.
pub open spec fn push_scan(
    ts: Seq<Seq<char>>,
    g: Option<i64>,
    m: Option<Seq<char>>,
) -> Option<(Option<i64>, Option<Seq<char>>, Seq<i64>)>
    decreases ts.len(),
    via push_scan_decreases
{
    if ts.len() == 0 {
        Some((g, m, Seq::empty()))
    } else if ts[0] == "-g"@ {
        if ts.len() < 2 {
            None
        } else {
            push_scan(
                ts.skip(2),
                if valid_i64_text(ts[1]) {
                    Some(i64_text_val(ts[1]) as i64)
                } else {
                    None
                },
                m,
            )
        }
    } else if ts[0] == "-m"@ {
        if ts.len() < 2 {
            None
        } else {
            let parts = msg_take(ts.skip(1));
            if parts.len() == 0 {
                None
            } else {
                push_scan(ts.skip(1 + parts.len() as int), g, Some(join_space(parts)))
            }
        }
    } else if ts[0] == "-l"@ {
        match parse_members(ts.skip(1)) {
            Some(ms) => Some((g, m, ms)),
            None => None,
        }
    } else {
        None
    }
}

#[via_fn]
proof fn push_scan_decreases(ts: Seq<Seq<char>>, g: Option<i64>, m: Option<Seq<char>>) {
    if ts.len() >= 2 && ts[0] != "-g"@ && ts[0] == "-m"@ {
        lemma_msg_take_len(ts.skip(1));
    }
}

/// What `parse_push_command` accepts: at least seven whitespace tokens,
/// a clean scan, and a group id, a message, and recipients all present.
pub open spec fn spec_push_command(msg: Seq<char>) -> Option<(i64, Seq<char>, Seq<i64>)> {
    let ts = spec_tokens(msg);
    if ts.len() < 7 {
        None
    } else {
        match push_scan(ts.skip(1), None, None) {
            Some(p) => match (p.0, p.1) {
                (Some(g), Some(m)) => if p.2.len() == 0 {
                    None
                } else {
                    Some((g, m, p.2))
                },
                _ => None,
            },
            None => None,
        }
    }
}

/// Parses the plain-text form of the push command:
/// `/push -g <group> -m <words...> -l <id> <id> ...`.
pub fn parse_push_command(msg: &str) -> (r: Result<(i64, String, Vec<i64>), AppError>)
    ensures
        match r {
            Ok(p) => spec_push_command(msg@) == Some((p.0, p.1@, p.2@)),
            Err(e) => spec_push_command(msg@) is None && e@.kind == ErrorKind::Command,
        },
{
    let parts = tokenize(msg);
    let ghost ts = spec_tokens(msg@);
    if parts.len() < 7 {
        return Err(
            AppError::command(
                String::from_str(
                    "usage: /push -g <group> -m <message> -l <recipient> <recipient> ...",
                ),
            ),
        );
    }
    let mut group_id: Option<i64> = None;
    let mut message: Option<String> = None;
    let mut members: Vec<i64> = Vec::new();
    let mut i: usize = 1;
    let mut saw_list = false;
    proof {
        assert(ts.skip(1).skip(0) =~= ts.skip(1));
    }
    while i < parts.len()
        invariant_except_break
            1 <= i <= parts.len(),
            ts == parts.deep_view(),
            ts == spec_tokens(msg@),
            ts.len() == parts.len(),
            ts.len() >= 7,
            !saw_list,
            members.len() == 0,
            push_scan(ts.skip(1), None, None) == push_scan(
                ts.skip(i as int),
                group_id,
                message.deep_view(),
            ),
        ensures
            1 <= i <= parts.len(),
            ts == parts.deep_view(),
            ts == spec_tokens(msg@),
            ts.len() == parts.len(),
            ts.len() >= 7,
            members.len() == 0,
            if saw_list {
                push_scan(ts.skip(1), None, None) == (match parse_members(ts.skip(i as int)) {
                    Some(ms) => Some((group_id, message.deep_view(), ms)),
                    None => None,
                })
            } else {
                i == parts.len() && push_scan(ts.skip(1), None, None) == push_scan(
                    ts.skip(i as int),
                    group_id,
                    message.deep_view(),
                )
            },
        decreases parts.len() - i,
    {
        let ghost sub = ts.skip(i as int);
        proof {
            assert(sub[0] == ts[i as int]);
        }
        if str_eq(parts[i].as_str(), "-g") {
            if i + 1 >= parts.len() {
                return Err(AppError::command(String::from_str("missing group id")));
            }
            proof {
                assert(sub[1] == ts[i + 1]);
                assert(sub.skip(2) =~= ts.skip(i + 2));
            }
            group_id = parse_i64(parts[i + 1].as_str());
            i += 2;
        } else if str_eq(parts[i].as_str(), "-m") {
            if i + 1 >= parts.len() {
                return Err(AppError::command(String::from_str("missing message")));
            }
            // Collect the message words up to the recipient marker.
            let mut j = i + 1;
            let mut text = String::new();
            while j < parts.len()
                invariant_except_break
                    i + 1 <= j <= parts.len(),
                    ts == parts.deep_view(),
                    ts.len() == parts.len(),
                    forall|k: int| i + 1 <= k < j ==> ts[k] != "-l"@,
                ensures
                    i + 1 <= j <= parts.len(),
                    ts == parts.deep_view(),
                    ts.len() == parts.len(),
                    forall|k: int| i + 1 <= k < j ==> ts[k] != "-l"@,
                    j < parts.len() ==> ts[j as int] == "-l"@,
                decreases parts.len() - j,
            {
                if str_eq(parts[j].as_str(), "-l") {
                    break;
                }
                j += 1;
            }
            proof {
                lemma_msg_take(sub.skip(1), j - (i + 1));
                assert(sub.skip(1).take(j - (i + 1)) =~= ts.subrange(i + 1, j as int));
            }
            if j == i + 1 {
                return Err(AppError::command(String::from_str("the message must not be empty")));
            }
            let ghost words = ts.subrange(i + 1, j as int);
            let mut k = i + 1;
            proof {
                assert(words.take(0) =~= Seq::<Seq<char>>::empty());
            }
            while k < j
                invariant
                    i + 1 <= k <= j,
                    j <= parts.len(),
                    ts == parts.deep_view(),
                    ts.len() == parts.len(),
                    words == ts.subrange(i + 1, j as int),
                    text@ == join_space(words.take(k - (i + 1))),
                decreases j - k,
            {
                let ghost sofar = words.take(k - (i + 1));
                if k > i + 1 {
                    text.append(" ");
                }
                text.append(parts[k].as_str());
                proof {
                    reveal_strlit(" ");
                    let np = words.take(k - (i + 1) + 1);
                    assert(np.drop_last() =~= sofar);
                    assert(np.last() == ts[k as int]);
                    assert(text@ =~= join_space(np));
                }
                k += 1;
            }
            proof {
                assert(words.take(j - (i + 1)) =~= words);
                assert(sub.skip(1 + words.len() as int) =~= ts.skip(j as int));
            }
            message = Some(text);
            i = j;
        } else if str_eq(parts[i].as_str(), "-l") {
            proof {
                assert(sub.skip(1) =~= ts.skip(i + 1));
            }
            saw_list = true;
            i += 1;
            break;
        } else {
            return Err(AppError::command(String::from_str("unknown argument")));
        }
    }
    if saw_list {
        let ghost tail = ts.skip(i as int);
        let start = i;
        proof {
            assert(tail.take(0) =~= Seq::<Seq<char>>::empty());
        }
        while i < parts.len()
            invariant
                start <= i <= parts.len(),
                1 <= start,
                ts == parts.deep_view(),
                ts == spec_tokens(msg@),
                ts.len() == parts.len(),
                ts.len() >= 7,
                tail == ts.skip(start as int),
                members@.len() == i - start,
                parse_members(tail.take(i - start as int)) == Some(members@),
                push_scan(ts.skip(1), None, None) == (match parse_members(tail) {
                    Some(ms) => Some((group_id, message.deep_view(), ms)),
                    None => None,
                }),
            decreases parts.len() - i,
        {
            let ghost sofar = tail.take(i - start as int);
            proof {
                assert(tail.take(i - start as int + 1).drop_last() =~= sofar);
                assert(tail.take(i - start as int + 1).last() == ts[i as int]);
            }
            match parse_i64(parts[i].as_str()) {
                Some(v) => {
                    members.push(v);
                },
                None => {
                    proof {
                        lemma_parse_members_none(tail, i - start as int + 1);
                    }
                    return Err(AppError::command(String::from_str("invalid recipient id")));
                },
            }
            i += 1;
        }
        proof {
            assert(tail.take(parts.len() - start as int) =~= tail);
        }
    }
    let g = match group_id {
        Some(g) => g,
        None => {
            return Err(AppError::command(String::from_str("missing group id")));
        },
    };
    let m = match message {
        Some(m) => m,
        None => {
            return Err(AppError::command(String::from_str("missing message")));
        },
    };
    if members.len() == 0 {
        return Err(AppError::command(String::from_str("missing recipient ids")));
    }
    Ok((g, m, members))
}

/// The maximal prefix of integer tokens.
pub open spec fn int_run(ts: Seq<Seq<char>>) -> Seq<i64>
    decreases ts.len(),
{
    if ts.len() == 0 || !valid_i64_text(ts[0]) {
        Seq::empty()
    } else {
        seq![i64_text_val(ts[0]) as i64] + int_run(ts.skip(1))
    }
}

proof fn lemma_int_run_len(ts: Seq<Seq<char>>)
    ensures
        int_run(ts).len() <= ts.len(),
    decreases ts.len(),
{
    if ts.len() == 0 || !valid_i64_text(ts[0]) {
    } else {
        lemma_int_run_len(ts.skip(1));
    }
}

proof fn lemma_int_run_prefix(ts: Seq<Seq<char>>, cnt: int)
    requires
        0 <= cnt <= ts.len(),
        forall|k: int| 0 <= k < cnt ==> valid_i64_text(#[trigger] ts[k]),
        cnt < ts.len() ==> !valid_i64_text(ts[cnt]),
    ensures
        int_run(ts).len() == cnt,
        forall|k: int| 0 <= k < cnt ==> #[trigger] int_run(ts)[k] == i64_text_val(ts[k]) as i64,
    decreases cnt,
{
    if cnt == 0 {
    } else {
        let t = ts.skip(1);
        assert forall|k: int| 0 <= k < cnt - 1 implies valid_i64_text(#[trigger] t[k]) by {
            assert(t[k] == ts[k + 1]);
        }
        assert(cnt - 1 < t.len() ==> t[cnt - 1] == ts[cnt]);
        lemma_int_run_prefix(t, cnt - 1);
        assert(valid_i64_text(ts[0]));
        let whole = int_run(ts);
        assert(whole =~= seq![i64_text_val(ts[0]) as i64] + int_run(t));
        assert forall|k: int| 0 <= k < cnt implies #[trigger] whole[k] == i64_text_val(ts[k]) as i64 by {
            if k > 0 {
                assert(whole[k] == int_run(t)[k - 1]);
                assert(t[k - 1] == ts[k]);
            }
        }
    }
}

/// The flag grammar of the structured push command: `-g`/`--group-id`,
/// `-m`/`--message`, and `-l`/`--members` followed by at least one
/// recipient id.
pub open spec fn spec_push_flags(
    ts: Seq<Seq<char>>,
    g: Option<i64>,
    m: Option<Seq<char>>,
    l: Seq<i64>,
) -> Option<(Option<i64>, Option<Seq<char>>, Seq<i64>)>
    decreases ts.len(),
    via spec_push_flags_decreases
{
    if ts.len() == 0 {
        Some((g, m, l))
    } else if ts[0] == "-g"@ || ts[0] == "--group-id"@ {
        if ts.len() < 2 || !valid_i64_text(ts[1]) {
            None
        } else {
            spec_push_flags(ts.skip(2), Some(i64_text_val(ts[1]) as i64), m, l)
        }
    } else if ts[0] == "-m"@ || ts[0] == "--message"@ {
        if ts.len() < 2 {
            None
        } else {
            spec_push_flags(ts.skip(2), g, Some(ts[1]), l)
        }
    } else if ts[0] == "-l"@ || ts[0] == "--members"@ {
        let run = int_run(ts.skip(1));
        if run.len() == 0 {
            None
        } else {
            spec_push_flags(ts.skip(1 + run.len() as int), g, m, l + run)
        }
    } else {
        None
    }
}

#[via_fn]
proof fn spec_push_flags_decreases(
    ts: Seq<Seq<char>>,
    g: Option<i64>,
    m: Option<Seq<char>>,
    l: Seq<i64>,
) {
    if ts.len() > 0 {
        lemma_int_run_len(ts.skip(1));
    }
}

/// Mathematical image of [`Push`] and of [`PushCommand`].
pub ghost struct PushView {
    pub common: crate::cmd::CommonArgsView,
    pub group_id: i64,
    pub message: Seq<char>,
    pub members: Seq<i64>,
}

/// A parsed structured push invocation, as dispatched by the registry.
#[derive(Clone, Debug)]
pub struct Push {
    pub common: CommonArgs,
    pub group_id: i64,
    pub message: String,
    pub members: Vec<i64>,
}

impl View for Push {
    type V = PushView;

    open spec fn view(&self) -> PushView {
        PushView {
            common: self.common@,
            group_id: self.group_id,
            message: self.message@,
            members: self.members@,
        }
    }
}

/// A fully parsed structured push invocation: every flag present and
/// well formed, with missing ones defaulting to zero, the empty text,
/// and no recipients.
pub open spec fn spec_push(args: Seq<Seq<char>>) -> Option<PushView> {
    match spec_parse_common(args, default_common(), Seq::empty()) {
        Some(p) => match spec_push_flags(p.1, None, None, Seq::empty()) {
            Some(q) => Some(
                PushView {
                    common: p.0,
                    group_id: match q.0 {
                        Some(g) => g,
                        None => 0,
                    },
                    message: match q.1 {
                        Some(m) => m,
                        None => Seq::empty(),
                    },
                    members: q.2,
                },
            ),
            None => None,
        },
        None => None,
    }
}

impl Push {
    /// Parses a full structured push invocation.
    pub fn parse(args: &Vec<String>) -> (r: Result<Push, AppError>)
        ensures
            match r {
                Ok(p) => spec_push(args.deep_view()) == Some(p@),
                Err(e) => spec_push(args.deep_view()) is None && e@.kind == ErrorKind::Command,
            },
    {
        let (common, rest) = match parse_common(args) {
            Ok(p) => p,
            Err(e) => {
                return Err(e);
            },
        };
        let ghost ts = rest.deep_view();
        let mut group_id: Option<i64> = None;
        let mut message: Option<String> = None;
        let mut members: Vec<i64> = Vec::new();
        let mut i: usize = 0;
        proof {
            assert(ts.skip(0) =~= ts);
        }
        while i < rest.len()
            invariant
                i <= rest.len(),
                ts == rest.deep_view(),
                ts.len() == rest.len(),
                spec_parse_common(args.deep_view(), default_common(), Seq::empty()) == Some(
                    (common@, ts),
                ),
                spec_push_flags(ts, None, None, Seq::empty()) == spec_push_flags(
                    ts.skip(i as int),
                    group_id,
                    message.deep_view(),
                    members@,
                ),
            decreases rest.len() - i,
        {
            let ghost sub = ts.skip(i as int);
            proof {
                assert(sub[0] == ts[i as int]);
            }
            if str_eq(rest[i].as_str(), "-g") || str_eq(rest[i].as_str(), "--group-id") {
                if i + 1 >= rest.len() {
                    return Err(AppError::command(String::from_str("missing group id")));
                }
                proof {
                    assert(sub[1] == ts[i + 1]);
                    assert(sub.skip(2) =~= ts.skip(i + 2));
                }
                match parse_i64(rest[i + 1].as_str()) {
                    Some(v) => {
                        group_id = Some(v);
                        i += 2;
                    },
                    None => {
                        return Err(AppError::command(String::from_str("invalid group id")));
                    },
                }
            } else if str_eq(rest[i].as_str(), "-m") || str_eq(rest[i].as_str(), "--message") {
                if i + 1 >= rest.len() {
                    return Err(AppError::command(String::from_str("missing message")));
                }
                proof {
                    assert(sub[1] == ts[i + 1]);
                    assert(sub.skip(2) =~= ts.skip(i + 2));
                }
                message = Some(rest[i + 1].clone());
                i += 2;
            } else if str_eq(rest[i].as_str(), "-l") || str_eq(rest[i].as_str(), "--members") {
                let start = i + 1;
                let ghost tail = ts.skip(start as int);
                let ghost prior = members@;
                let mut j = start;
                proof {
                    assert(sub.skip(1) =~= tail);
                }
                while j < rest.len()
                    invariant_except_break
                        start <= j <= rest.len(),
                        ts == rest.deep_view(),
                        ts.len() == rest.len(),
                        tail == ts.skip(start as int),
                        members@.len() == prior.len() + j - start,
                        prior =~= members@.take(prior.len() as int),
                        forall|k: int|
                            0 <= k < j - start ==> valid_i64_text(tail[k]) && members@[
                            prior.len() + k] == i64_text_val(tail[k]) as i64,
                    ensures
                        start <= j <= rest.len(),
                        ts == rest.deep_view(),
                        ts.len() == rest.len(),
                        tail == ts.skip(start as int),
                        members@.len() == prior.len() + j - start,
                        prior =~= members@.take(prior.len() as int),
                        forall|k: int|
                            0 <= k < j - start ==> valid_i64_text(tail[k]) && members@[
                            prior.len() + k] == i64_text_val(tail[k]) as i64,
                        j < rest.len() ==> !valid_i64_text(tail[j - start]),
                    decreases rest.len() - j,
                {
                    match parse_i64(rest[j].as_str()) {
                        Some(v) => {
                            members.push(v);
                            j += 1;
                        },
                        None => {
                            break;
                        },
                    }
                }
                if j == start {
                    return Err(
                        AppError::command(String::from_str("expected at least one recipient id")),
                    );
                }
                proof {
                    lemma_int_run_prefix(tail, j - start);
                    assert(int_run(tail) =~= members@.skip(prior.len() as int));
                    assert(members@ =~= prior + int_run(tail));
                    assert(sub.skip(1 + int_run(tail).len() as int) =~= ts.skip(j as int));
                }
                i = j;
            } else {
                return Err(AppError::command(String::from_str("unknown argument")));
            }
        }
        proof {
            assert(ts.skip(ts.len() as int) =~= Seq::<Seq<char>>::empty());
        }
        Ok(
            Push {
                common,
                group_id: match group_id {
                    Some(g) => g,
                    None => 0,
                },
                message: match message {
                    Some(m) => m,
                    None => String::new(),
                },
                members,
            },
        )
    }
}

/// Failure lines, each on its own line below the tally.
pub open spec fn prefixed_lines(ls: Seq<Seq<char>>) -> Seq<char>
    decreases ls.len(),
{
    if ls.len() == 0 {
        Seq::empty()
    } else {
        prefixed_lines(ls.drop_last()) + "\n"@ + ls.last()
    }
}

/// What the structured push command answers.  Validation mirrors the
/// delivery service; a clean run reports the tally and the failures.
pub open spec fn push_cmd_post(
    pre: BotState,
    args: Seq<Seq<char>>,
    r: Result<CmdResultView, AppErrorView>,
) -> bool {
    match spec_push(args) {
        None => r is Err && r->Err_0.kind == ErrorKind::Command,
        Some(p) => {
            if p.common.env != "private"@ {
                r is Err && r->Err_0.kind == ErrorKind::Command
            } else if p.group_id <= 0 || p.common.sender <= 0 {
                r is Err && r->Err_0.kind == ErrorKind::Permission
            } else if spec_is_blank(p.message) {
                r is Err && r->Err_0.kind == ErrorKind::Validation
            } else if p.members.len() == 0 {
                r is Err && r->Err_0.kind == ErrorKind::Validation
            } else {
                r is Ok && exists|s: int, f: int, ls: Seq<Seq<char>>|
                    {
                        &&& 0 <= s && 0 <= f
                        &&& s + f == p.members.len()
                        &&& ls.len() == f
                        &&& r->Ok_0.output == #[trigger] (tally_text(s, f) + prefixed_lines(ls))
                    }
            }
        },
    }
}

/// The tally line of a finished fan-out.
pub open spec fn tally_text(s: int, f: int) -> Seq<char> {
    "push done: "@ + crate::decimal::spec_u64_text(s) + " delivered, "@
        + crate::decimal::spec_u64_text(f) + " failed"@
}

/// A parsed push invocation paired with the delivery service: the form
/// an embedding program uses when it drives `PushService` itself rather
/// than going through the registry.
#[derive(Clone, Debug)]
pub struct PushCommand {
    pub common: CommonArgs,
    pub group_id: i64,
    pub message: String,
    pub members: Vec<i64>,
}

impl View for PushCommand {
    type V = PushView;

    open spec fn view(&self) -> PushView {
        PushView {
            common: self.common@,
            group_id: self.group_id,
            message: self.message@,
            members: self.members@,
        }
    }
}

impl PushCommand {
    /// Parses a full structured push invocation.
    pub fn parse(args: &Vec<String>) -> (r: Result<PushCommand, AppError>)
        ensures
            match r {
                Ok(p) => spec_push(args.deep_view()) == Some(p@),
                Err(e) => spec_push(args.deep_view()) is None && e@.kind == ErrorKind::Command,
            },
    {
        match Push::parse(args) {
            Ok(p) => Ok(
                PushCommand {
                    common: p.common,
                    group_id: p.group_id,
                    message: p.message,
                    members: p.members,
                },
            ),
            Err(e) => Err(e),
        }
    }

    /// The delivery order this invocation asks for.
    pub fn request(self) -> (r: PushRequest)
        ensures
            r@.sender_id == self@.common.sender,
            r@.group_id == self@.group_id,
            r@.message == self@.message,
            r@.target_members == self@.members,
    {
        PushRequest {
            sender_id: self.common.sender,
            group_id: self.group_id,
            message: self.message,
            target_members: self.members,
        }
    }
}

/// Runs the structured push command: validates, delivers, and renders
/// the outcome of every delivery attempt.
pub fn run_push(state: &BotState, args: &Vec<String>) -> (r: Result<CmdResult, AppError>)
    ensures
        push_cmd_post(
            *state,
            args.deep_view(),
            match r {
                Ok(c) => Ok(c@),
                Err(e) => Err(e@),
            },
        ),
{
    let push = match Push::parse(args) {
        Ok(p) => p,
        Err(e) => {
            return Err(e);
        },
    };
    if !str_eq(push.common.env.as_str(), "private") {
        return Err(AppError::command(String::from_str("only used in private environment")));
    }
    let request = PushRequest {
        sender_id: push.common.sender,
        group_id: push.group_id,
        message: push.message,
        target_members: push.members,
    };
    let tally = match PushService::push_messages(&request) {
        Ok(t) => t,
        Err(e) => {
            return Err(e);
        },
    };
    let mut output = tally.message.clone();
    let ghost lines = tally.failed_members.deep_view();
    let mut i: usize = 0;
    proof {
        assert(lines.take(0) =~= Seq::<Seq<char>>::empty());
        assert(output@ =~= tally@.message + prefixed_lines(lines.take(0)));
    }
    while i < tally.failed_members.len()
        invariant
            i <= tally.failed_members.len(),
            lines == tally.failed_members.deep_view(),
            lines.len() == tally.failed_members.len(),
            output@ == tally@.message + prefixed_lines(lines.take(i as int)),
            tally@.message.len() <= output@.len(),
        decreases tally.failed_members.len() - i,
    {
        proof {
            assert(lines.take(i + 1).drop_last() =~= lines.take(i as int));
            assert(lines.take(i + 1).last() == lines[i as int]);
        }
        output.append("\n");
        output.append(tally.failed_members[i].as_str());
        proof {
            reveal_strlit("\n");
            assert(output@ =~= tally@.message + prefixed_lines(lines.take(i + 1)));
        }
        i += 1;
    }
    proof {
        assert(lines.take(lines.len() as int) =~= lines);
        let s = tally@.success_count as int;
        let f = tally@.failed_count as int;
        assert(output@ == tally_text(s, f) + prefixed_lines(lines));
    }
    Ok(CmdResult { output })
}

} // verus!
