use qqbot_core::SessionId;
use qqbot_core::conversation::ConversationManager;
use qqbot_core::session::Role;

fn manager() -> ConversationManager {
    ConversationManager::new(20, 10, 100)
}

#[test]
fn test_conversation_manager() {
    let mut mgr = manager();
    let session_id = SessionId::Private(123456);
    let now = 1_000;

    mgr.add_user_message(session_id, "你好".to_string(), now);
    mgr.add_assistant_message(session_id, "你好！有什么可以帮助你的吗？".to_string(), now + 1);

    let history = mgr.get_conversation_history(session_id, 10, now + 2);
    assert_eq!(history.len(), 2);
    assert_eq!(history[0].role.text(), "user");
    assert_eq!(history[0].content, "你好");
    assert_eq!(history[1].role.text(), "assistant");
    assert_eq!(history[1].content, "你好！有什么可以帮助你的吗？");
}

#[test]
fn recent_history_returns_appends_in_order() {
    let mut mgr = manager();
    let key = SessionId::Private(7);
    for i in 0..5u64 {
        mgr.add_user_message(key, format!("m{}", i), 100 + i);
    }
    let history = mgr.get_conversation_history(key, 5, 110);
    assert_eq!(history.len(), 5);
    for i in 0..5usize {
        assert_eq!(history[i].content, format!("m{}", i));
    }
    // A smaller limit keeps the newest turns, oldest-first.
    let tail = mgr.get_conversation_history(key, 2, 110);
    assert_eq!(tail.len(), 2);
    assert_eq!(tail[0].content, "m3");
    assert_eq!(tail[1].content, "m4");
}

#[test]
fn history_is_fifo_bounded() {
    let mut mgr = ConversationManager::new(3, 10, 100);
    let key = SessionId::Group(42);
    for i in 0..7u64 {
        mgr.add_user_message(key, format!("m{}", i), 100 + i);
    }
    let history = mgr.get_conversation_history(key, 100, 120);
    assert_eq!(history.len(), 3);
    assert_eq!(history[0].content, "m4");
    assert_eq!(history[1].content, "m5");
    assert_eq!(history[2].content, "m6");
}

#[test]
fn expired_session_reads_as_absent_and_restarts_fresh() {
    let mut mgr = ConversationManager::new(20, 10, 100);
    let key = SessionId::Private(9);
    mgr.add_user_message(key, "hello".to_string(), 1_000);

    // Nine minutes later the session is still alive.
    let alive = mgr.get_conversation_history(key, 10, 1_000 + 9 * 60);
    assert_eq!(alive.len(), 1);

    // Ten idle minutes expire it: reads answer nothing.
    let expired_at = 1_000 + 10 * 60;
    let gone = mgr.get_conversation_history(key, 10, expired_at);
    assert!(gone.is_empty());

    // The next creation starts a fresh, empty session.
    let fresh = mgr.get_or_create_session(key, expired_at);
    assert!(fresh.messages.is_empty());
    assert_eq!(fresh.last_activity, expired_at);
}

#[test]
fn user_history_filters_by_author_and_keeps_assistant_turns() {
    let mut mgr = manager();
    let key = SessionId::Group(5);
    mgr.add_user_message_with_info(key, "from alice".to_string(), 1, Some("alice".to_string()), 10);
    mgr.add_user_message_with_info(key, "from bob".to_string(), 2, Some("bob".to_string()), 11);
    mgr.add_assistant_message(key, "answer".to_string(), 12);

    let alice = mgr.get_user_conversation_history(key, 1, 10, 13);
    assert_eq!(alice.len(), 2);
    assert_eq!(alice[0].content, "from alice");
    assert_eq!(alice[1].content, "answer");
}

#[test]
fn capacity_eviction_keeps_the_key_count_bounded() {
    let mut mgr = ConversationManager::new(5, 10, 2);
    mgr.add_user_message(SessionId::Private(1), "a".to_string(), 10);
    mgr.add_user_message(SessionId::Private(2), "b".to_string(), 20);
    mgr.add_user_message(SessionId::Private(3), "c".to_string(), 30);
    assert!(mgr.get_active_session_count() <= 2);
    // The most recent session always survives.
    assert_eq!(mgr.get_conversation_history(SessionId::Private(3), 10, 30).len(), 1);
}

#[test]
fn clear_and_last_activity() {
    let mut mgr = manager();
    let key = SessionId::Private(77);
    assert_eq!(mgr.get_last_activity(key), None);
    mgr.add_user_message(key, "x".to_string(), 500);
    assert_eq!(mgr.get_last_activity(key), Some(500));
    mgr.clear_conversation(key);
    assert_eq!(mgr.get_last_activity(key), None);
    assert_eq!(mgr.get_active_session_count(), 0);
}

#[test]
fn cleanup_drops_only_expired_sessions() {
    let mut mgr = ConversationManager::new(5, 10, 10);
    mgr.add_user_message(SessionId::Private(1), "old".to_string(), 0);
    mgr.add_user_message(SessionId::Private(2), "new".to_string(), 500);
    mgr.cleanup_expired_sessions(660);
    assert_eq!(mgr.get_active_session_count(), 1);
    assert_eq!(mgr.get_conversation_history(SessionId::Private(2), 10, 660).len(), 1);
    assert!(mgr.get_conversation_history(SessionId::Private(1), 10, 660).is_empty());
}
