use qqbot_core::cmd::CmdRegistry;
use qqbot_core::cmd::push::{PushRequest, PushService, parse_push_command};
use qqbot_core::conversation::ConversationManager;
use qqbot_core::error::ErrorKind;
use qqbot_core::kvcache::KvCache;
use qqbot_core::repo::{GradeRecord, GradeStore, StudentRecord, StudentStore};
use qqbot_core::state::{BotSettings, BotState};
use qqbot_core::{StrategeType};

fn state() -> BotState {
    BotState {
        conversations: ConversationManager::new(20, 10, 100),
        users: KvCache::new(3600, 100),
        groups: KvCache::new(3600, 100),
        students: StudentStore::new(),
        grades: GradeStore::new(),
        settings: BotSettings {
            cmd_suffix: "/".to_string(),
            default_model: "base-model".to_string(),
            system_prompt: "you are helpful".to_string(),
            admins: vec![1000],
            auto_capture_group_messages: true,
            history_limit: 10,
        },
    }
}

fn args(tokens: &[&str]) -> Vec<String> {
    tokens.iter().map(|t| t.to_string()).collect()
}

#[test]
fn unknown_command_is_a_not_found_error() {
    let mut st = state();
    let registry = CmdRegistry::new();
    let r = registry.run("nonexistent", &Vec::new(), &mut st, 100);
    let err = r.expect_err("an unknown command must fail");
    assert_eq!(err.kind(), ErrorKind::NotFound);
    assert_eq!(err.message(), "command not found: nonexistent");
}

#[test]
fn bind_then_rebind_fails_with_already_bound() {
    let mut st = state();
    st.students.upsert(
        123456,
        StudentRecord { name: "Alice".to_string(), qq_number: 0, group_id: 1 },
    );
    st.students.upsert(
        654321,
        StudentRecord { name: "Bob".to_string(), qq_number: 0, group_id: 1 },
    );
    let registry = CmdRegistry::new();

    let first = registry.run("bind", &args(&["--sender", "1", "123456"]), &mut st, 100);
    assert_eq!(first.unwrap().output, "success");

    let second = registry.run("bind", &args(&["--sender", "1", "654321"]), &mut st, 101);
    let err = second.expect_err("re-binding must fail");
    assert_eq!(err.kind(), ErrorKind::Command);
    assert_eq!(err.message(), "already bound to student 123456");
}

#[test]
fn bind_clear_releases_the_binding() {
    let mut st = state();
    st.students.upsert(
        123456,
        StudentRecord { name: "Alice".to_string(), qq_number: 9, group_id: 1 },
    );
    let registry = CmdRegistry::new();
    let r = registry.run("bind", &args(&["--sender", "9", "--clear"]), &mut st, 100);
    assert_eq!(r.unwrap().output, "clear qq number successfully");
    assert_eq!(st.students.find_by_id(123456).unwrap().qq_number, 0);
}

#[test]
fn bind_rejects_group_scope_and_unknown_students() {
    let mut st = state();
    let registry = CmdRegistry::new();

    let grp = registry.run(
        "bind",
        &args(&["--sender", "1", "--env", "group", "123456"]),
        &mut st,
        100,
    );
    assert_eq!(grp.expect_err("group scope must fail").kind(), ErrorKind::Command);

    let missing = registry.run("bind", &args(&["--sender", "1", "123456"]), &mut st, 100);
    assert_eq!(missing.expect_err("unknown student must fail").kind(), ErrorKind::NotFound);
}

#[test]
fn query_formats_the_grade_report() {
    let mut st = state();
    st.students.upsert(
        12345678,
        StudentRecord { name: "Alice".to_string(), qq_number: 87654321, group_id: 1 },
    );
    st.grades.add_grade(GradeRecord {
        student_name: "Alice".to_string(),
        exam_name: "Calculus Midterm".to_string(),
        course_id: 1,
        student_id: 12345678,
        score: 95,
    });
    st.grades.add_grade(GradeRecord {
        student_name: "Alice".to_string(),
        exam_name: "Quiz One".to_string(),
        course_id: 1,
        student_id: 12345678,
        score: 42,
    });
    let registry = CmdRegistry::new();
    let r = registry.run("query", &args(&["grade", "--sender", "87654321"]), &mut st, 100);
    let expected = "Alice scored 95 in Calculus Midterm;\nAlice scored 42 in Quiz One;\n\
please put in more study time; this course matters for what follows\n";
    assert_eq!(r.unwrap().output, expected);
}

#[test]
fn query_without_binding_is_not_found() {
    let mut st = state();
    let registry = CmdRegistry::new();
    let r = registry.run("query", &args(&["grade", "--sender", "5"]), &mut st, 100);
    assert_eq!(r.expect_err("unbound sender must fail").kind(), ErrorKind::NotFound);
}

#[test]
fn strategy_llm_writes_the_user_record_through() {
    let mut st = state();
    let registry = CmdRegistry::new();
    let r = registry.run(
        "strategy",
        &args(&["llm", "--model", "fancy", "--sender", "9"]),
        &mut st,
        100,
    );
    let output = r.unwrap().output;
    assert!(output.starts_with("switched to chat mode"));
    assert!(output.contains("model: fancy"));
    let rec = st.users.get(9, 100).expect("the record must be visible to the next read");
    assert_eq!(rec.stratege, StrategeType::LlmStrategy);
    assert_eq!(rec.model, "fancy");
}

#[test]
fn strategy_group_requires_admin_and_valid_group() {
    let mut st = state();
    let registry = CmdRegistry::new();

    let denied = registry.run(
        "strategy",
        &args(&["cmd", "--sender", "9", "--env", "group", "--group-id", "7"]),
        &mut st,
        100,
    );
    assert_eq!(denied.expect_err("non-admin must fail").kind(), ErrorKind::Permission);

    let no_group = registry.run(
        "strategy",
        &args(&["cmd", "--sender", "9", "--env", "group", "--group-admin"]),
        &mut st,
        100,
    );
    assert_eq!(no_group.expect_err("group id zero must fail").kind(), ErrorKind::Command);

    let ok = registry.run(
        "strategy",
        &args(&["cmd", "--sender", "9", "--env", "group", "--group-id", "7", "--group-admin"]),
        &mut st,
        100,
    );
    assert_eq!(ok.unwrap().output, "switched the group to command mode");
    let rec = st.groups.get(7, 100).unwrap();
    assert_eq!(rec.stratege, StrategeType::CmdStrategy);
}

#[test]
fn strategy_rejects_blank_and_overlong_prompts() {
    let mut st = state();
    let registry = CmdRegistry::new();

    let blank = registry.run(
        "strategy",
        &args(&["llm", "--prompt", "\u{0020}", "--sender", "9"]),
        &mut st,
        100,
    );
    assert_eq!(blank.expect_err("a blank prompt must fail").kind(), ErrorKind::Validation);

    let long = "x".repeat(2001);
    let overlong = registry.run(
        "strategy",
        &args(&["llm", "--prompt", &long, "--sender", "9"]),
        &mut st,
        100,
    );
    assert_eq!(overlong.expect_err("an overlong prompt must fail").kind(), ErrorKind::Validation);

    let fits = "x".repeat(2000);
    let ok = registry.run(
        "strategy",
        &args(&["llm", "--prompt", &fits, "--sender", "9"]),
        &mut st,
        100,
    );
    assert!(ok.is_ok());
}

#[test]
fn prompt_set_show_and_reset() {
    let mut st = state();
    let registry = CmdRegistry::new();

    let show_default = registry.run("prompt", &args(&["--sender", "9"]), &mut st, 100);
    assert_eq!(
        show_default.unwrap().output,
        "using the default system prompt: you are helpful",
    );

    let set = registry.run("prompt", &args(&["be-terse", "--sender", "9"]), &mut st, 101);
    assert_eq!(set.unwrap().output, "prompt set successfully: be-terse");

    let show = registry.run("prompt", &args(&["--sender", "9"]), &mut st, 102);
    assert_eq!(show.unwrap().output, "current custom prompt: be-terse");

    let reset = registry.run("prompt", &args(&["--reset", "--sender", "9"]), &mut st, 103);
    assert_eq!(reset.unwrap().output, "reset to the default system prompt");
    assert_eq!(st.users.get(9, 103).unwrap().custom_prompt, None);
}

#[test]
fn push_command_validates_and_tallies() {
    let mut st = state();
    let registry = CmdRegistry::new();

    let in_group = registry.run(
        "push",
        &args(&["-g", "7", "-m", "hello", "-l", "1", "2", "--sender", "9", "--env", "group"]),
        &mut st,
        100,
    );
    assert_eq!(in_group.expect_err("group scope must fail").kind(), ErrorKind::Command);

    let no_members = registry.run(
        "push",
        &args(&["-g", "7", "-m", "hello", "--sender", "9"]),
        &mut st,
        100,
    );
    assert_eq!(no_members.expect_err("no recipients must fail").kind(), ErrorKind::Validation);

    let ok = registry.run(
        "push",
        &args(&["-g", "7", "-m", "hello", "-l", "1", "2", "3", "--sender", "9"]),
        &mut st,
        100,
    );
    let output = ok.unwrap().output;
    assert!(output.starts_with("push done: "));
}

#[test]
fn push_messages_tally_always_adds_up() {
    let request = PushRequest {
        sender_id: 9,
        group_id: 7,
        message: "ping".to_string(),
        target_members: vec![1, 2, 3, 4, 5, 6, 7, 8],
    };
    let tally = PushService::push_messages(&request).unwrap();
    assert_eq!(tally.total_count, 8);
    assert_eq!(tally.success_count + tally.failed_count, tally.total_count);
    assert_eq!(tally.failed_members.len(), tally.failed_count);
    assert_eq!(
        tally.message,
        format!("push done: {} delivered, {} failed", tally.success_count, tally.failed_count),
    );
}

#[test]
fn push_messages_rejects_bad_requests() {
    let bad_group = PushRequest {
        sender_id: 9,
        group_id: 0,
        message: "x".to_string(),
        target_members: vec![1],
    };
    assert_eq!(
        PushService::push_messages(&bad_group).expect_err("must fail").kind(),
        ErrorKind::Permission,
    );
    let blank = PushRequest {
        sender_id: 9,
        group_id: 7,
        message: "   ".to_string(),
        target_members: vec![1],
    };
    assert_eq!(
        PushService::push_messages(&blank).expect_err("must fail").kind(),
        ErrorKind::Validation,
    );
}

#[test]
fn parse_push_command_accepts_the_documented_form() {
    let r = parse_push_command("/push -g 77 -m hello there -l 11 22").unwrap();
    assert_eq!(r.0, 77);
    assert_eq!(r.1, "hello there");
    assert_eq!(r.2, vec![11, 22]);
}

#[test]
fn parse_push_command_rejects_malformed_runs() {
    assert!(parse_push_command("/push -g 77").is_err());
    assert!(parse_push_command("/push -g 77 -m hi there -l").is_err());
    assert!(parse_push_command("/push -g 77 -m hi there -l 1 two").is_err());
    assert!(parse_push_command("/push -x 77 -m hi there -l 1 2 3").is_err());
    assert!(parse_push_command("/push -g 77 -m -l 1 2 3 4").is_err());
}

#[test]
fn qq_lookup_by_student_ids_skips_unknown_and_unbound() {
    let mut students = StudentStore::new();
    students.upsert(1, StudentRecord { name: "a".to_string(), qq_number: 11, group_id: 1 });
    students.upsert(2, StudentRecord { name: "b".to_string(), qq_number: 0, group_id: 1 });
    students.upsert(3, StudentRecord { name: "c".to_string(), qq_number: 33, group_id: 1 });
    let qqs = PushService::get_qq_by_student_ids(&students, &vec![1, 2, 3, 4]);
    assert_eq!(qqs, vec![11, 33]);
}
