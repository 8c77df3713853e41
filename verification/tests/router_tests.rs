use qqbot_core::SessionId;
use qqbot_core::StrategeType;
use qqbot_core::content::{MessageContent, RawSegment};
use qqbot_core::conversation::ConversationManager;
use qqbot_core::kvcache::KvCache;
use qqbot_core::llm::{
    ChatChoice, ChatContent, ChatMessage, ChatResponse, ChatRole, LlmOutcome, LlmStep,
    SimpleLlmReplyStrategy,
};
use qqbot_core::repo::{GradeStore, StudentStore};
use qqbot_core::reply_manager::{InboundMessage, MessagePlan, ReplyManager, ReplyWork, handle_inbound};
use qqbot_core::reply_strategy::{Env, MessageContext};
use qqbot_core::session::Role;
use qqbot_core::state::{BotSettings, BotState};

fn state() -> BotState {
    BotState {
        conversations: ConversationManager::new(20, 10, 100),
        users: KvCache::new(3600, 100),
        groups: KvCache::new(3600, 100),
        students: StudentStore::new(),
        grades: GradeStore::new(),
        settings: BotSettings {
            cmd_suffix: "/".to_string(),
            default_model: "base-model".to_string(),
            system_prompt: "you are helpful".to_string(),
            admins: vec![],
            auto_capture_group_messages: true,
            history_limit: 10,
        },
    }
}

fn llm() -> SimpleLlmReplyStrategy {
    SimpleLlmReplyStrategy::new(
        "test-key".to_string(),
        "http://localhost:9".to_string(),
        "base-model".to_string(),
        Some(512),
    )
}

fn answer(text: &str) -> LlmOutcome {
    LlmOutcome::Answer(ChatResponse {
        choices: vec![ChatChoice {
            message: ChatMessage {
                role: ChatRole::Assistant,
                content: ChatContent::Text(text.to_string()),
            },
        }],
        usage: None,
    })
}

fn text_seg(t: &str) -> RawSegment {
    let mut s = RawSegment::of_kind("text".to_string());
    s.text = Some(t.to_string());
    s
}

fn at_seg(qq: &str) -> RawSegment {
    let mut s = RawSegment::of_kind("at".to_string());
    s.qq = Some(qq.to_string());
    s
}

#[test]
fn private_hi_records_one_user_and_one_assistant_turn_in_order() {
    let mut st = state();
    let strategy = llm();
    let manager = ReplyManager::new(strategy.clone());
    let ctx = MessageContext {
        env: Env::Private,
        sender_id: 555,
        self_id: 1,
        group_admin: false,
        message: MessageContent::Text("hi".to_string()),
        history: Vec::new(),
        sender_name: None,
    };
    let now = 10_000;

    // A brand-new sender falls under the generative default.
    let work = manager.reply(&mut st, &ctx, now).unwrap();
    let request = match work {
        ReplyWork::Pending(LlmStep::Ready(req)) => req,
        _ => panic!("a plain text turn must be ready to send"),
    };
    assert_eq!(request.model, "base-model");
    assert!(matches!(&request.messages[0].role, ChatRole::System));
    let last = request.messages.last().unwrap();
    assert!(matches!(&last.role, ChatRole::User));
    assert!(matches!(&last.content, ChatContent::Text(t) if t == "hi"));

    let reply = strategy.complete_reply(&mut st, &ctx, answer("hello there"), now).unwrap();
    assert!(matches!(&reply, MessageContent::Text(t) if t == "hello there"));

    let history = st.conversations.get_conversation_history(SessionId::Private(555), 10, now);
    assert_eq!(history.len(), 2);
    assert_eq!(history[0].role.text(), "user");
    assert_eq!(history[0].content, "hi");
    assert_eq!(history[1].role.text(), "assistant");
    assert_eq!(history[1].content, "hello there");
}

#[test]
fn unmentioned_group_chatter_is_captured_without_a_reply() {
    let mut st = state();
    let ev = InboundMessage {
        message_type: "group".to_string(),
        group_id: Some(777),
        sender_id: 5,
        self_id: 1,
        role: None,
        nickname: Some("bob".to_string()),
        card: None,
        segments: vec![text_seg("hello all")],
    };
    let plan = handle_inbound(&mut st, &ev, 100);
    assert!(matches!(plan, MessagePlan::Captured));
    let history = st.conversations.get_conversation_history(SessionId::Group(777), 10, 100);
    assert_eq!(history.len(), 1);
    assert_eq!(history[0].role.text(), "user");
    assert_eq!(history[0].content, "hello all");
    assert_eq!(history[0].username.as_deref(), Some("bob"));
}

#[test]
fn mentioned_group_command_goes_to_the_command_path() {
    let mut st = state();
    let manager = ReplyManager::new(llm());
    let ev = InboundMessage {
        message_type: "group".to_string(),
        group_id: Some(777),
        sender_id: 5,
        self_id: 1,
        role: Some("admin".to_string()),
        nickname: Some("bob".to_string()),
        card: None,
        segments: vec![at_seg("1"), text_seg("/query grade")],
    };
    let plan = handle_inbound(&mut st, &ev, 100);
    let ctx = match plan {
        MessagePlan::Respond(ctx) => ctx,
        _ => panic!("a mentioned message must be answered"),
    };
    assert!(ctx.group_admin);
    assert_eq!(manager.route(&st, &ctx, 100), StrategeType::CmdStrategy);

    // The command path runs to completion (here: the sender is unbound).
    let work = manager.reply(&mut st, &ctx, 100);
    assert!(work.is_err());
}

#[test]
fn group_message_without_mention_is_not_answered() {
    let mut st = state();
    st.settings.auto_capture_group_messages = false;
    let ev = InboundMessage {
        message_type: "group".to_string(),
        group_id: Some(777),
        sender_id: 5,
        self_id: 1,
        role: None,
        nickname: None,
        card: None,
        segments: vec![text_seg("/query grade")],
    };
    let plan = handle_inbound(&mut st, &ev, 100);
    assert!(matches!(plan, MessagePlan::Ignore));
    assert_eq!(st.conversations.get_active_session_count(), 0);
}

#[test]
fn empty_turns_are_rejected_before_any_network_work() {
    let mut st = state();
    let strategy = llm();
    let ctx = MessageContext {
        env: Env::Private,
        sender_id: 555,
        self_id: 1,
        group_admin: false,
        message: MessageContent::Text("   ".to_string()),
        history: Vec::new(),
        sender_name: None,
    };
    assert!(strategy.begin_reply(&mut st, &ctx, 100).is_err());
    assert_eq!(st.conversations.get_active_session_count(), 0);
}

#[test]
fn upstream_failures_become_reply_errors_and_leave_the_session_alone() {
    let mut st = state();
    let strategy = llm();
    let ctx = MessageContext {
        env: Env::Private,
        sender_id: 555,
        self_id: 1,
        group_admin: false,
        message: MessageContent::Text("hi".to_string()),
        history: Vec::new(),
        sender_name: None,
    };
    strategy.begin_reply(&mut st, &ctx, 100).unwrap();
    let err = strategy
        .complete_reply(
            &mut st,
            &ctx,
            LlmOutcome::HttpError { status: 503, body: "overloaded".to_string() },
            101,
        )
        .expect_err("a non-success status must fail the turn");
    assert_eq!(err.text(), "the completion endpoint returned status 503: overloaded");
    let history = st.conversations.get_conversation_history(SessionId::Private(555), 10, 101);
    assert_eq!(history.len(), 1);
}

#[test]
fn non_http_images_are_fetched_and_inlined_as_data_uris() {
    let mut st = state();
    let strategy = llm();
    let mut image = RawSegment::of_kind("image".to_string());
    image.file = Some("a.png".to_string());
    image.url = Some("local/a.png".to_string());
    let mut text = RawSegment::of_kind("text".to_string());
    text.text = Some("look".to_string());
    let content = qqbot_core::content::normalize(&vec![text, image]);
    let ctx = MessageContext {
        env: Env::Private,
        sender_id: 555,
        self_id: 1,
        group_admin: false,
        message: content,
        history: Vec::new(),
        sender_name: None,
    };
    let pending = match strategy.begin_reply(&mut st, &ctx, 100).unwrap() {
        LlmStep::NeedsFetch(p) => p,
        _ => panic!("a non-http image must ask for a fetch"),
    };
    assert_eq!(pending.url, "local/a.png");

    // Fetched bytes are inlined: the standard encoding of 0,1,2 is AAEC.
    let request = strategy.attach_fetch(pending.clone(), Some(vec![0u8, 1, 2]));
    let last = request.messages.last().unwrap();
    match &last.content {
        ChatContent::Array(parts) => {
            assert_eq!(parts.len(), 2);
            match &parts[1] {
                qqbot_core::llm::ContentPart::ImageUrl { image_url } => {
                    assert_eq!(image_url.url, "data:image/png;base64,AAEC");
                    assert_eq!(image_url.detail.as_deref(), Some("high"));
                },
                _ => panic!("the second part must reference the image"),
            }
        },
        _ => panic!("an inlined image makes the last line multimodal"),
    }

    // A failed fetch degrades to a text-only request with a note.
    let degraded = strategy.attach_fetch(pending, None);
    let last = degraded.messages.last().unwrap();
    match &last.content {
        ChatContent::Text(t) => assert!(t.ends_with(" [image: a.png, unavailable]")),
        _ => panic!("a failed fetch must stay text-only"),
    }
}

#[test]
fn http_images_are_referenced_directly() {
    let mut st = state();
    let strategy = llm();
    let mut image = RawSegment::of_kind("image".to_string());
    image.file = Some("b.jpg".to_string());
    image.url = Some("https://example.test/b.jpg".to_string());
    let mut text = RawSegment::of_kind("text".to_string());
    text.text = Some("see".to_string());
    let content = qqbot_core::content::normalize(&vec![text, image]);
    let ctx = MessageContext {
        env: Env::Private,
        sender_id: 555,
        self_id: 1,
        group_admin: false,
        message: content,
        history: Vec::new(),
        sender_name: None,
    };
    let request = match strategy.begin_reply(&mut st, &ctx, 100).unwrap() {
        LlmStep::Ready(req) => req,
        _ => panic!("a reachable image needs no fetch"),
    };
    let last = request.messages.last().unwrap();
    match &last.content {
        ChatContent::Array(parts) => match &parts[1] {
            qqbot_core::llm::ContentPart::ImageUrl { image_url } => {
                assert_eq!(image_url.url, "https://example.test/b.jpg");
            },
            _ => panic!("the second part must reference the image"),
        },
        _ => panic!("an attached image makes the last line multimodal"),
    }
}

#[test]
fn group_turns_carry_the_speaker_tag() {
    let mut st = state();
    let strategy = llm();
    let ctx = MessageContext {
        env: Env::Group { group_id: 9 },
        sender_id: 5,
        self_id: 1,
        group_admin: false,
        message: MessageContent::Text("who am i".to_string()),
        history: Vec::new(),
        sender_name: Some("bob".to_string()),
    };
    let step = strategy.begin_reply(&mut st, &ctx, 100).unwrap();
    let request = match step {
        LlmStep::Ready(req) => req,
        _ => panic!("no image: the request must be ready"),
    };
    let last = request.messages.last().unwrap();
    assert!(matches!(&last.content, ChatContent::Text(t) if t == "[bob]: who am i"));
}
