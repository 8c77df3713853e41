use qqbot_core::StrategeType;
use qqbot_core::UserData;
use qqbot_core::GroupData;
use qqbot_core::content::MessageContent;
use qqbot_core::conversation::ConversationManager;
use qqbot_core::decimal::{i64_to_string, parse_i64};
use qqbot_core::kvcache::KvCache;
use qqbot_core::repo::{GradeStore, StudentStore};
use qqbot_core::reply_strategy::{CommandReplyStrategy, Env, MessageContext};
use qqbot_core::resolver::{effective_config, merge_config, validate_prompt};
use qqbot_core::state::{BotSettings, BotState};
use qqbot_core::text::tokenize;
use qqbot_core::SessionId;

fn state() -> BotState {
    BotState {
        conversations: ConversationManager::new(20, 10, 100),
        users: KvCache::new(3600, 100),
        groups: KvCache::new(3600, 100),
        students: StudentStore::new(),
        grades: GradeStore::new(),
        settings: BotSettings {
            cmd_suffix: "/".to_string(),
            default_model: "base-model".to_string(),
            system_prompt: "you are helpful".to_string(),
            admins: vec![],
            auto_capture_group_messages: true,
            history_limit: 10,
        },
    }
}

#[test]
fn reply_message_test() {
    let mut st = state();
    let mc = MessageContent::Text(vec!["/query".to_string(), "grade".to_string()].join(" "));
    let message_context = MessageContext {
        env: Env::Private,
        sender_id: 87654321,
        self_id: 9999,
        message: mc,
        group_admin: false,
        history: vec![],
        sender_name: None,
    };
    let cmd_strategy = CommandReplyStrategy::new();
    let result = cmd_strategy.run(&mut st, &message_context, 100);
    let output = match result {
        Ok(MessageContent::Text(res)) => res,
        Err(err) => err.text(),
        _ => "invalid reply".to_string(),
    };
    println!("result:\n{}", output);
    // With no student bound to this sender, the command reports that.
    assert_eq!(output, "bind your student number first with /bind <id>");
}

#[test]
fn query_grade_test() {
    let store = GradeStore::new();
    let grades = store.query_grades(12345678);
    println!("grades is: {:#?}", grades);
    assert!(grades.is_empty());
}

#[test]
fn group_record_wins_over_user_record() {
    let group = GroupData {
        stratege: StrategeType::CmdStrategy,
        model: "group-model".to_string(),
        custom_prompt: Some("group prompt".to_string()),
    };
    let user = UserData {
        stratege: StrategeType::LlmStrategy,
        model: "user-model".to_string(),
        custom_prompt: Some("user prompt".to_string()),
    };
    let merged = merge_config(Some(&group), Some(&user), "base");
    assert_eq!(merged.stratege, StrategeType::CmdStrategy);
    assert_eq!(merged.model, "group-model");
    assert_eq!(merged.custom_prompt.as_deref(), Some("group prompt"));

    let user_only = merge_config(None, Some(&user), "base");
    assert_eq!(user_only.stratege, StrategeType::LlmStrategy);
    assert_eq!(user_only.model, "user-model");
    assert_eq!(user_only.custom_prompt.as_deref(), Some("user prompt"));

    let defaults = merge_config(None, None, "base");
    assert_eq!(defaults.stratege, StrategeType::LlmStrategy);
    assert_eq!(defaults.model, "base");
    assert_eq!(defaults.custom_prompt, None);
}

#[test]
fn effective_config_reads_the_caches_by_scope() {
    let mut st = state();
    st.groups.insert(
        7,
        GroupData {
            stratege: StrategeType::CmdStrategy,
            model: String::new(),
            custom_prompt: None,
        },
        50,
    );
    st.users.insert(
        5,
        UserData {
            stratege: StrategeType::LlmStrategy,
            model: "user-model".to_string(),
            custom_prompt: None,
        },
        50,
    );

    // Group scope: the group record wins even though the sender has one.
    let in_group = effective_config(
        &SessionId::Group(7),
        5,
        &st.groups,
        &st.users,
        "base-model",
        60,
    );
    assert_eq!(in_group.stratege, StrategeType::CmdStrategy);
    // The group record has no model name, so the process default fills in.
    assert_eq!(in_group.model, "base-model");

    // A group without a record falls back to the sender's record.
    let other_group = effective_config(
        &SessionId::Group(8),
        5,
        &st.groups,
        &st.users,
        "base-model",
        60,
    );
    assert_eq!(other_group.stratege, StrategeType::LlmStrategy);
    assert_eq!(other_group.model, "user-model");

    // Neither record: process defaults.
    let fresh = effective_config(
        &SessionId::Private(6),
        6,
        &st.groups,
        &st.users,
        "base-model",
        60,
    );
    assert_eq!(fresh.stratege, StrategeType::LlmStrategy);
    assert_eq!(fresh.model, "base-model");
}

#[test]
fn config_cache_entries_expire_after_their_ttl() {
    let mut users: KvCache<UserData> = KvCache::new(60, 10);
    users.insert(
        5,
        UserData {
            stratege: StrategeType::CmdStrategy,
            model: String::new(),
            custom_prompt: None,
        },
        100,
    );
    assert!(users.get(5, 159).is_some());
    assert!(users.get(5, 160).is_none());
}

#[test]
fn prompt_validation_bounds() {
    assert!(validate_prompt("hello").is_ok());
    assert!(validate_prompt("").is_err());
    assert!(validate_prompt("   ").is_err());
    assert!(validate_prompt(&"x".repeat(2000)).is_ok());
    assert!(validate_prompt(&"x".repeat(2001)).is_err());
}

#[test]
fn decimal_round_trip_and_rejects() {
    for n in [0i64, 7, -1, 42, i64::MAX, i64::MIN] {
        let text = i64_to_string(n);
        assert_eq!(parse_i64(&text), Some(n));
    }
    assert_eq!(i64_to_string(-305), "-305");
    assert_eq!(parse_i64("9223372036854775807"), Some(i64::MAX));
    assert_eq!(parse_i64("-9223372036854775808"), Some(i64::MIN));
    assert_eq!(parse_i64("9223372036854775808"), None);
    assert_eq!(parse_i64(""), None);
    assert_eq!(parse_i64("-"), None);
    assert_eq!(parse_i64("12a"), None);
    assert_eq!(parse_i64("99999999999999999999999"), None);
}

#[test]
fn tokenize_splits_on_whitespace_runs() {
    assert_eq!(tokenize("  one\ttwo \n three  "), vec!["one", "two", "three"]);
    assert!(tokenize("   ").is_empty());
    assert!(tokenize("").is_empty());
    assert_eq!(tokenize("single"), vec!["single"]);
}
