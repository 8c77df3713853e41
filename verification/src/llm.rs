//! The generative reply pipeline: assembling a role-ordered completion
//! request from the system prompt, the recent conversation, and the
//! current turn, optionally with an image; and folding the upstream
//! outcome back into the session.
//!
//! The network call itself happens outside this crate: `begin_reply`
//! builds the request (or asks for an image fetch first), and
//! `complete_reply` takes whatever came back.

use vstd::prelude::*;

use crate::content::{ContentView, ImageInfo, ImageInfoView, MessageContent, MessageSegment, SegmentView, join_space};
use crate::decimal::u64_to_string;
use crate::decimal::spec_u64_text;
use crate::SessionId;
use crate::decimal::spec_i64_text;
use crate::reply_strategy::{Env, MessageContext, MessageContextView, ReplyError};
use crate::session::{ConversationMessage, MessageView, Role};
use crate::state::BotState;
use crate::text::{is_blank, spec_ieq, spec_is_blank, spec_starts_with, starts_with_str, str_ieq};

verus! {

/// Mathematical image of [`ImageData`].
pub ghost struct ImageDataView {
    pub file: Seq<char>,
    pub url: Option<Seq<char>>,
    pub summary: Option<Seq<char>>,
    pub sub_type: Option<u32>,
    pub file_size: Option<u64>,
    pub key: Option<Seq<char>>,
    pub emoji_id: Option<Seq<char>>,
    pub emoji_package_id: Option<Seq<char>>,
}

/// The image record as the completion endpoint's protocol carries it.
#[derive(Clone, Debug)]
pub struct ImageData {
    pub file: String,
    pub url: Option<String>,
    pub summary: Option<String>,
    pub sub_type: Option<u32>,
    pub file_size: Option<u64>,
    pub key: Option<String>,
    pub emoji_id: Option<String>,
    pub emoji_package_id: Option<String>,
}

impl View for ImageData {
    type V = ImageDataView;

    open spec fn view(&self) -> ImageDataView {
        ImageDataView {
            file: self.file@,
            url: self.url.deep_view(),
            summary: self.summary.deep_view(),
            sub_type: self.sub_type,
            file_size: self.file_size,
            key: self.key.deep_view(),
            emoji_id: self.emoji_id.deep_view(),
            emoji_package_id: self.emoji_package_id.deep_view(),
        }
    }
}

impl DeepView for ImageData {
    type V = ImageDataView;

    open spec fn deep_view(&self) -> ImageDataView {
        self.view()
    }
}

/// The protocol image record an attachment record denotes.
pub open spec fn image_data_of(i: ImageInfoView) -> ImageDataView {
    ImageDataView {
        file: i.file,
        url: i.url,
        summary: i.summary,
        sub_type: i.sub_type,
        file_size: i.file_size,
        key: i.key,
        emoji_id: i.emoji_id,
        emoji_package_id: i.emoji_package_id,
    }
}

fn clone_opt_string(o: &Option<String>) -> (r: Option<String>)
    ensures
        r.deep_view() == o.deep_view(),
{
    match o {
        Some(s) => Some(s.clone()),
        None => None,
    }
}

/// Converts an attachment record into the protocol image record.
pub fn convert_image_info_to_data(info: &ImageInfo) -> (r: ImageData)
    ensures
        r@ == image_data_of(info@),
{
    ImageData {
        file: info.file.clone(),
        url: clone_opt_string(&info.url),
        summary: clone_opt_string(&info.summary),
        sub_type: info.sub_type,
        file_size: info.file_size,
        key: clone_opt_string(&info.key),
        emoji_id: clone_opt_string(&info.emoji_id),
        emoji_package_id: clone_opt_string(&info.emoji_package_id),
    }
}

/// Who speaks a chat line.
#[derive(Clone, Copy, Debug, PartialEq, Eq, Structural)]
pub enum ChatRole {
    System,
    User,
    Assistant,
}

impl ChatRole {
    /// The conventional lower-case name of the role.
    pub fn text(&self) -> (r: String)
        ensures
            r@ == spec_chat_role_text(*self),
    {
        match self {
            ChatRole::System => String::from_str("system"),
            ChatRole::User => String::from_str("user"),
            ChatRole::Assistant => String::from_str("assistant"),
        }
    }
}

pub open spec fn spec_chat_role_text(role: ChatRole) -> Seq<char> {
    match role {
        ChatRole::System => "system"@,
        ChatRole::User => "user"@,
        ChatRole::Assistant => "assistant"@,
    }
}

/// Mathematical image of [`ImageUrl`].
pub ghost struct ImageUrlView {
    pub url: Seq<char>,
    pub detail: Option<Seq<char>>,
}

/// A reference to an image inside a multimodal message part.
#[derive(Clone, Debug)]
pub struct ImageUrl {
    pub url: String,
    pub detail: Option<String>,
}

impl View for ImageUrl {
    type V = ImageUrlView;

    open spec fn view(&self) -> ImageUrlView {
        ImageUrlView { url: self.url@, detail: self.detail.deep_view() }
    }
}

/// Mathematical image of [`ContentPart`].
pub ghost enum ContentPartView {
    Text { text: Seq<char> },
    ImageUrl { image_url: ImageUrlView },
}

/// One typed part of a multimodal message.
#[derive(Clone, Debug)]
pub enum ContentPart {
    Text { text: String },
    ImageUrl { image_url: ImageUrl },
}

impl View for ContentPart {
    type V = ContentPartView;

    open spec fn view(&self) -> ContentPartView {
        match self {
            ContentPart::Text { text } => ContentPartView::Text { text: text@ },
            ContentPart::ImageUrl { image_url } => ContentPartView::ImageUrl {
                image_url: image_url@,
            },
        }
    }
}

impl DeepView for ContentPart {
    type V = ContentPartView;

    open spec fn deep_view(&self) -> ContentPartView {
        self.view()
    }
}

/// Mathematical image of [`ChatContent`].
pub ghost enum ChatContentView {
    Text(Seq<char>),
    Array(Seq<ContentPartView>),
}

/// A chat line's payload: plain text, or typed parts.
#[derive(Clone, Debug)]
pub enum ChatContent {
    Text(String),
    Array(Vec<ContentPart>),
}

impl View for ChatContent {
    type V = ChatContentView;

    open spec fn view(&self) -> ChatContentView {
        match self {
            ChatContent::Text(t) => ChatContentView::Text(t@),
            ChatContent::Array(ps) => ChatContentView::Array(ps.deep_view()),
        }
    }
}

impl DeepView for ChatContent {
    type V = ChatContentView;

    open spec fn deep_view(&self) -> ChatContentView {
        self.view()
    }
}

/// Mathematical image of [`ChatMessage`].
pub ghost struct ChatMessageView {
    pub role: ChatRole,
    pub content: ChatContentView,
}

/// One role-tagged line of the outbound request or inbound answer.
#[derive(Clone, Debug)]
pub struct ChatMessage {
    pub role: ChatRole,
    pub content: ChatContent,
}

impl View for ChatMessage {
    type V = ChatMessageView;

    open spec fn view(&self) -> ChatMessageView {
        ChatMessageView { role: self.role, content: self.content@ }
    }
}

impl DeepView for ChatMessage {
    type V = ChatMessageView;

    open spec fn deep_view(&self) -> ChatMessageView {
        self.view()
    }
}

/// Mathematical image of [`ChatRequest`].
pub ghost struct ChatRequestView {
    pub model: Seq<char>,
    pub messages: Seq<ChatMessageView>,
    pub max_tokens: Option<u32>,
    pub stream: bool,
}

/// The outbound completion request.  The embedding program adds the
/// sampling knobs its configuration carries before serializing.
#[derive(Clone, Debug)]
pub struct ChatRequest {
    pub model: String,
    pub messages: Vec<ChatMessage>,
    pub max_tokens: Option<u32>,
    pub stream: bool,
}

impl View for ChatRequest {
    type V = ChatRequestView;

    open spec fn view(&self) -> ChatRequestView {
        ChatRequestView {
            model: self.model@,
            messages: self.messages.deep_view(),
            max_tokens: self.max_tokens,
            stream: self.stream,
        }
    }
}

/// Mathematical image of [`ChatChoice`].
pub ghost struct ChatChoiceView {
    pub message: ChatMessageView,
}

/// One candidate answer of the upstream endpoint.
#[derive(Clone, Debug)]
pub struct ChatChoice {
    pub message: ChatMessage,
}

impl View for ChatChoice {
    type V = ChatChoiceView;

    open spec fn view(&self) -> ChatChoiceView {
        ChatChoiceView { message: self.message@ }
    }
}

impl DeepView for ChatChoice {
    type V = ChatChoiceView;

    open spec fn deep_view(&self) -> ChatChoiceView {
        self.view()
    }
}

/// Token accounting as the upstream endpoint reports it.
#[derive(Clone, Copy, Debug, PartialEq, Eq, Structural)]
pub struct Usage {
    pub prompt_tokens: u32,
    pub completion_tokens: u32,
    pub total_tokens: u32,
}

/// Mathematical image of [`ChatResponse`].
pub ghost struct ChatResponseView {
    pub choices: Seq<ChatChoiceView>,
    pub usage: Option<Usage>,
}

/// The parsed body of a successful upstream answer.
#[derive(Clone, Debug)]
pub struct ChatResponse {
    pub choices: Vec<ChatChoice>,
    pub usage: Option<Usage>,
}

impl View for ChatResponse {
    type V = ChatResponseView;

    open spec fn view(&self) -> ChatResponseView {
        ChatResponseView { choices: self.choices.deep_view(), usage: self.usage }
    }
}

/// The text pieces one canonical segment contributes to the flattened
/// prompt text: non-blank text verbatim, placeholders for everything
/// else.
pub open spec fn seg_pieces(seg: SegmentView) -> Seq<Seq<char>> {
    match seg {
        SegmentView::Text { text } => if spec_is_blank(text) {
            Seq::empty()
        } else {
            seq![text]
        },
        SegmentView::Image { image_info } => seq!["[image: "@ + image_info.file + "]"@],
        SegmentView::At { qq } => seq!["[@"@ + qq + "]"@],
        SegmentView::Face { id } => seq!["[sticker "@ + spec_u64_text(id as int) + "]"@],
    }
}

/// All text pieces of a segment run, in order.
pub open spec fn pieces_of(ss: Seq<SegmentView>) -> Seq<Seq<char>>
    decreases ss.len(),
{
    if ss.len() == 0 {
        Seq::empty()
    } else {
        pieces_of(ss.drop_last()) + seg_pieces(ss.last())
    }
}

/// The protocol image records of a segment run, in order.
pub open spec fn images_data_in(ss: Seq<SegmentView>) -> Seq<ImageDataView>
    decreases ss.len(),
{
    if ss.len() == 0 {
        Seq::empty()
    } else {
        images_data_in(ss.drop_last()) + (match ss.last() {
            SegmentView::Image { image_info } => seq![image_data_of(image_info)],
            _ => Seq::empty(),
        })
    }
}

/// The flattened prompt text of a message.
pub open spec fn spec_extract_text(c: ContentView) -> Seq<char> {
    match c {
        ContentView::Text(t) => t,
        ContentView::Mixed(ss) => join_space(pieces_of(ss)),
        _ => Seq::empty(),
    }
}

/// The protocol image records of a message.
pub open spec fn spec_extract_images(c: ContentView) -> Seq<ImageDataView> {
    match c {
        ContentView::Mixed(ss) => images_data_in(ss),
        _ => Seq::empty(),
    }
}

/// Flattens a message into the prompt text and the image records: text
/// segments verbatim, placeholders for images, mentions, and stickers.
pub fn extract_content_and_images(message: &MessageContent) -> (r: (String, Vec<ImageData>))
    ensures
        r.0@ == spec_extract_text(message@),
        r.1.deep_view() == spec_extract_images(message@),
{
    match message {
        MessageContent::Text(t) => {
            let out: Vec<ImageData> = Vec::new();
            proof {
                assert(out.deep_view() =~= Seq::<ImageDataView>::empty());
            }
            (t.clone(), out)
        },
        MessageContent::Mixed(segments) => {
            let ghost ss = segments.deep_view();
            let mut acc = String::new();
            let mut any = false;
            let mut images: Vec<ImageData> = Vec::new();
            let mut i: usize = 0;
            proof {
                assert(ss.take(0) =~= Seq::<SegmentView>::empty());
                assert(pieces_of(ss.take(0)) =~= Seq::<Seq<char>>::empty());
                assert(images.deep_view() =~= images_data_in(ss.take(0)));
            }
            while i < segments.len()
                invariant
                    i <= segments.len(),
                    ss == segments.deep_view(),
                    ss.len() == segments.len(),
                    any == (pieces_of(ss.take(i as int)).len() > 0),
                    acc@ == join_space(pieces_of(ss.take(i as int))),
                    images.deep_view() =~~= images_data_in(ss.take(i as int)),
                decreases segments.len() - i,
            {
                let ghost pieces = pieces_of(ss.take(i as int));
                let ghost prior_images = images.deep_view();
                proof {
                    assert(ss.take(i + 1).drop_last() =~= ss.take(i as int));
                    assert(ss.take(i + 1).last() == ss[i as int]);
                }
                let piece: Option<String> = match &segments[i] {
                    MessageSegment::Text { text } => {
                        if is_blank(text.as_str()) {
                            None
                        } else {
                            Some(text.clone())
                        }
                    },
                    MessageSegment::Image { image_info } => {
                        images.push(convert_image_info_to_data(image_info));
                        let mut p = String::from_str("[image: ");
                        p.append(image_info.file.as_str());
                        p.append("]");
                        Some(p)
                    },
                    MessageSegment::At { qq } => {
                        let mut p = String::from_str("[@");
                        p.append(qq.as_str());
                        p.append("]");
                        Some(p)
                    },
                    MessageSegment::Face { id } => {
                        let mut p = String::from_str("[sticker ");
                        p.append(u64_to_string(*id as u64).as_str());
                        p.append("]");
                        Some(p)
                    },
                };
                match piece {
                    Some(text) => {
                        if any {
                            acc.append(" ");
                            proof {
                                reveal_strlit(" ");
                            }
                        }
                        acc.append(text.as_str());
                        any = true;
                        proof {
                            let np = pieces_of(ss.take(i + 1));
                            assert(np =~= pieces.push(text@));
                            assert(np.drop_last() =~= pieces);
                            assert(acc@ =~= join_space(np));
                        }
                    },
                    None => {
                        proof {
                            assert(pieces_of(ss.take(i + 1)) =~= pieces);
                        }
                    },
                }
                proof {
                    assert(images.deep_view() =~~= images_data_in(ss.take(i + 1)));
                }
                i += 1;
            }
            proof {
                assert(ss.take(ss.len() as int) =~= ss);
            }
            (acc, images)
        },
        _ => {
            let out: Vec<ImageData> = Vec::new();
            proof {
                assert(out.deep_view() =~= Seq::<ImageDataView>::empty());
            }
            (String::new(), out)
        },
    }
}

} // verus!

verus! {

/// How one conversation turn reads to the completion endpoint: inside a
/// group, user turns carry the speaker's display name so the model can
/// tell participants apart; private turns go verbatim.
pub open spec fn chat_line(m: MessageView, group_scope: bool) -> Seq<char> {
    if group_scope && m.role == Role::User && m.user_id is Some {
        "["@ + (match m.username {
            Some(n) => n,
            None => "user"@ + spec_i64_text(m.user_id->0 as int),
        }) + "]: "@ + m.content
    } else {
        m.content
    }
}

/// One conversation turn as a chat line.
pub open spec fn chat_of(m: MessageView, group_scope: bool) -> ChatMessageView {
    ChatMessageView {
        role: match m.role {
            Role::User => ChatRole::User,
            Role::Assistant => ChatRole::Assistant,
        },
        content: ChatContentView::Text(chat_line(m, group_scope)),
    }
}

/// The role-ordered request body: one system line, then the history in
/// order.
pub open spec fn chat_msgs(
    system: Seq<char>,
    hist: Seq<MessageView>,
    group_scope: bool,
) -> Seq<ChatMessageView>
    decreases hist.len(),
{
    if hist.len() == 0 {
        seq![
            ChatMessageView { role: ChatRole::System, content: ChatContentView::Text(system) },
        ]
    } else {
        chat_msgs(system, hist.drop_last(), group_scope).push(chat_of(hist.last(), group_scope))
    }
}

/// Builds the role-ordered request lines from the system prompt and the
/// recent history.
pub fn build_chat_messages(
    system_prompt: &str,
    history: &Vec<ConversationMessage>,
    group_scope: bool,
) -> (r: Vec<ChatMessage>)
    ensures
        r.deep_view() == chat_msgs(system_prompt@, history.deep_view(), group_scope),
{
    let ghost hist = history.deep_view();
    let mut out: Vec<ChatMessage> = Vec::new();
    out.push(
        ChatMessage {
            role: ChatRole::System,
            content: ChatContent::Text(system_prompt.to_owned()),
        },
    );
    let mut i: usize = 0;
    proof {
        assert(hist.take(0) =~= Seq::<MessageView>::empty());
        assert(out.deep_view() =~= chat_msgs(system_prompt@, hist.take(0), group_scope));
    }
    while i < history.len()
        invariant
            i <= history.len(),
            hist == history.deep_view(),
            hist.len() == history.len(),
            out.deep_view() =~~= chat_msgs(system_prompt@, hist.take(i as int), group_scope),
        decreases history.len() - i,
    {
        let ghost prior = out.deep_view();
        proof {
            assert(hist.take(i + 1).drop_last() =~= hist.take(i as int));
            assert(hist.take(i + 1).last() == hist[i as int]);
        }
        let m = &history[i];
        let group_user = group_scope && matches!(m.role, Role::User) && m.user_id.is_some();
        let content = if group_user {
            let mut line = String::from_str("[");
            match &m.username {
                Some(n) => {
                    line.append(n.as_str());
                },
                None => {
                    line.append("user");
                    match m.user_id {
                        Some(uid) => {
                            line.append(crate::decimal::i64_to_string(uid).as_str());
                        },
                        None => {},
                    }
                },
            }
            line.append("]: ");
            line.append(m.content.as_str());
            line
        } else {
            m.content.clone()
        };
        let role = match m.role {
            Role::User => ChatRole::User,
            Role::Assistant => ChatRole::Assistant,
        };
        proof {
            assert(content@ =~= chat_line(hist[i as int], group_scope));
        }
        out.push(ChatMessage { role, content: ChatContent::Text(content) });
        proof {
            assert(out.deep_view() =~~= prior.push(chat_of(hist[i as int], group_scope)));
            assert(out.deep_view() =~~= chat_msgs(system_prompt@, hist.take(i + 1), group_scope));
        }
        i += 1;
    }
    proof {
        assert(hist.take(hist.len() as int) =~= hist);
    }
    out
}

/// The result of wiring an image into the last request line: the line's
/// text becomes one part, the image reference the other.
pub open spec fn attach_image_url(
    base: Seq<ChatMessageView>,
    url: Seq<char>,
) -> Seq<ChatMessageView> {
    if base.len() > 0 && base.last().content is Text {
        base.update(
            base.len() - 1,
            ChatMessageView {
                role: base.last().role,
                content: ChatContentView::Array(
                    seq![
                        ContentPartView::Text { text: base.last().content->Text_0 },
                        ContentPartView::ImageUrl {
                            image_url: ImageUrlView { url, detail: Some("high"@) },
                        },
                    ],
                ),
            },
        )
    } else {
        base
    }
}

/// The result of annotating the last request line with extra text.
pub open spec fn append_to_last_text(
    base: Seq<ChatMessageView>,
    extra: Seq<char>,
) -> Seq<ChatMessageView> {
    if base.len() > 0 && base.last().content is Text {
        base.update(
            base.len() - 1,
            ChatMessageView {
                role: base.last().role,
                content: ChatContentView::Text(base.last().content->Text_0 + extra),
            },
        )
    } else {
        base
    }
}

fn attach_image_url_exec(messages: &mut Vec<ChatMessage>, url: String)
    ensures
        final(messages).deep_view() == attach_image_url(old(messages).deep_view(), url@),
{
    let ghost base = messages.deep_view();
    if messages.len() == 0 {
        return ;
    }
    let last = match messages.pop() {
        Some(m) => m,
        None => {
            proof {
                assert(false);
            }
            unreached()
        },
    };
    proof {
        assert(messages.deep_view() =~= base.drop_last());
    }
    match last.content {
        ChatContent::Text(t) => {
            let ghost tv = t@;
            let ghost uv = url@;
            let parts: Vec<ContentPart> = vec![
                ContentPart::Text { text: t },
                ContentPart::ImageUrl {
                    image_url: ImageUrl { url, detail: Some(String::from_str("high")) },
                },
            ];
            proof {
                assert(parts.deep_view() =~= seq![
                    ContentPartView::Text { text: tv },
                    ContentPartView::ImageUrl {
                        image_url: ImageUrlView { url: uv, detail: Some("high"@) },
                    },
                ]);
            }
            messages.push(ChatMessage { role: last.role, content: ChatContent::Array(parts) });
            proof {
                assert(messages.deep_view() =~~= attach_image_url(base, uv));
            }
        },
        c => {
            messages.push(ChatMessage { role: last.role, content: c });
            proof {
                assert(messages.deep_view() =~~= base);
                assert(messages.deep_view() =~~= attach_image_url(base, url@));
            }
        },
    }
}

fn append_to_last_text_exec(messages: &mut Vec<ChatMessage>, extra: &str)
    ensures
        final(messages).deep_view() == append_to_last_text(old(messages).deep_view(), extra@),
{
    let ghost base = messages.deep_view();
    if messages.len() == 0 {
        return ;
    }
    let last = match messages.pop() {
        Some(m) => m,
        None => {
            proof {
                assert(false);
            }
            unreached()
        },
    };
    proof {
        assert(messages.deep_view() =~= base.drop_last());
    }
    match last.content {
        ChatContent::Text(t) => {
            let mut t = t;
            t.append(extra);
            messages.push(ChatMessage { role: last.role, content: ChatContent::Text(t) });
            proof {
                assert(messages.deep_view() =~~= append_to_last_text(base, extra@));
            }
        },
        c => {
            messages.push(ChatMessage { role: last.role, content: c });
            proof {
                assert(messages.deep_view() =~~= base);
                assert(messages.deep_view() =~~= append_to_last_text(base, extra@));
            }
        },
    }
}

/// What the standard base64 alphabet, with padding, makes of a byte run.
pub uninterp spec fn base64_of(bytes: Seq<u8>) -> Seq<char>;

/// Relies on base64's standard engine: the encoding depends on the bytes
/// alone, and padding makes it four characters for every started group
/// of three bytes.
#[verifier::external_body]
fn encode_base64(bytes: &Vec<u8>) -> (r: String)
    requires
        bytes@.len() <= 0x10000000,
    ensures
        r@ == base64_of(bytes@),
        r@.len() == 4 * ((bytes@.len() + 2) / 3),
{
    base64::Engine::encode(&base64::engine::general_purpose::STANDARD, bytes.as_slice())
}

/// The largest image accepted for inline re-encoding.
pub const MAX_IMAGE_BYTES: usize = 0x10000000;

/// An inline data address: the MIME type, then the base64 bytes.
pub open spec fn data_uri(mime: Seq<char>, bytes: Seq<u8>) -> Seq<char> {
    "data:"@ + mime + ";base64,"@ + base64_of(bytes)
}

/// Builds an inline data address for fetched image bytes.
pub fn build_data_uri(mime: &str, bytes: &Vec<u8>) -> (r: String)
    requires
        bytes@.len() <= MAX_IMAGE_BYTES,
    ensures
        r@ == data_uri(mime@, bytes@),
{
    let mut out = String::from_str("data:");
    out.append(mime);
    out.append(";base64,");
    out.append(encode_base64(bytes).as_str());
    out
}

/// Case-insensitive suffix match.
pub open spec fn spec_ends_ci(s: Seq<char>, p: Seq<char>) -> bool {
    p.len() <= s.len() && spec_ieq(s.skip(s.len() - p.len()), p)
}

fn ends_with_ci(s: &str, p: &str) -> (r: bool)
    ensures
        r == spec_ends_ci(s@, p@),
{
    let n = s.unicode_len();
    let m = p.unicode_len();
    if m > n {
        return false;
    }
    let tail = s.substring_char(n - m, n);
    str_ieq(tail, p)
}

/// The MIME type an image address suggests; JPEG when nothing does.
pub open spec fn mime_of(url: Seq<char>) -> Seq<char> {
    if spec_ends_ci(url, ".png"@) {
        "image/png"@
    } else if spec_ends_ci(url, ".jpg"@) || spec_ends_ci(url, ".jpeg"@) {
        "image/jpeg"@
    } else if spec_ends_ci(url, ".gif"@) {
        "image/gif"@
    } else if spec_ends_ci(url, ".webp"@) {
        "image/webp"@
    } else {
        "image/jpeg"@
    }
}

fn guess_mime(url: &str) -> (r: String)
    ensures
        r@ == mime_of(url@),
{
    if ends_with_ci(url, ".png") {
        String::from_str("image/png")
    } else if ends_with_ci(url, ".jpg") || ends_with_ci(url, ".jpeg") {
        String::from_str("image/jpeg")
    } else if ends_with_ci(url, ".gif") {
        String::from_str("image/gif")
    } else if ends_with_ci(url, ".webp") {
        String::from_str("image/webp")
    } else {
        String::from_str("image/jpeg")
    }
}

/// The session a context belongs to.
pub open spec fn spec_session_of(env: Env, sender_id: i64) -> SessionId {
    match env {
        Env::Group { group_id } => SessionId::Group(group_id),
        Env::Private => SessionId::Private(sender_id),
    }
}

pub fn session_of(env: &Env, sender_id: i64) -> (r: SessionId)
    ensures
        r == spec_session_of(*env, sender_id),
{
    match env {
        Env::Group { group_id } => SessionId::Group(*group_id),
        Env::Private => SessionId::Private(sender_id),
    }
}

/// The name a speaker goes by in a shared thread.
pub open spec fn spec_display_name(ctx: MessageContextView) -> Seq<char> {
    match ctx.sender_name {
        Some(n) => n,
        None => "user"@ + spec_i64_text(ctx.sender_id as int),
    }
}

fn display_name(ctx: &MessageContext) -> (r: String)
    ensures
        r@ == spec_display_name(ctx@),
{
    match &ctx.sender_name {
        Some(n) => n.clone(),
        None => {
            let mut s = String::from_str("user");
            s.append(crate::decimal::i64_to_string(ctx.sender_id).as_str());
            s
        },
    }
}

/// The user turn the pipeline records before calling out.
pub open spec fn spec_user_turn(ctx: MessageContextView, text: Seq<char>, now: u64) -> MessageView {
    MessageView {
        role: Role::User,
        content: text,
        timestamp: now,
        user_id: Some(ctx.sender_id),
        username: if ctx.env is Group {
            Some(spec_display_name(ctx))
        } else {
            None
        },
    }
}

/// The custom prompt in force: the group's, when it has one; otherwise
/// the sender's; otherwise none.
pub open spec fn spec_custom_prompt(
    pre: BotState,
    env: Env,
    sender_id: i64,
    now: u64,
) -> Option<Seq<char>> {
    let from_user = match pre.users.live_value(sender_id, now) {
        Some(u) => u.custom_prompt,
        None => None,
    };
    match env {
        Env::Group { group_id } => match pre.groups.live_value(group_id, now) {
            Some(g) => if g.custom_prompt is Some {
                g.custom_prompt
            } else {
                from_user
            },
            None => from_user,
        },
        Env::Private => from_user,
    }
}

/// Resolves the custom prompt in force for this context.
pub fn resolve_custom_prompt(state: &BotState, ctx: &MessageContext, now: u64) -> (r: Option<
    String,
>)
    requires
        state.inv(),
    ensures
        r.deep_view() == spec_custom_prompt(*state, ctx@.env, ctx@.sender_id, now),
{
    let from_user = match state.users.get(ctx.sender_id, now) {
        Some(u) => match u.custom_prompt {
            Some(p) => Some(p),
            None => None,
        },
        None => None,
    };
    match &ctx.env {
        Env::Group { group_id } => {
            match state.groups.get(*group_id, now) {
                Some(g) => match g.custom_prompt {
                    Some(p) => Some(p),
                    None => from_user,
                },
                None => from_user,
            }
        },
        Env::Private => from_user,
    }
}

/// Mathematical image of [`FetchPending`].
pub ghost struct FetchPendingView {
    pub url: Seq<char>,
    pub file: Seq<char>,
    pub request: ChatRequestView,
}

/// A request that still needs its image fetched and inlined.
#[derive(Clone, Debug)]
pub struct FetchPending {
    pub url: String,
    pub file: String,
    pub request: ChatRequest,
}

impl View for FetchPending {
    type V = FetchPendingView;

    open spec fn view(&self) -> FetchPendingView {
        FetchPendingView { url: self.url@, file: self.file@, request: self.request@ }
    }
}

/// Mathematical image of [`LlmStep`].
pub ghost enum LlmStepView {
    Ready(ChatRequestView),
    NeedsFetch(FetchPendingView),
}

/// What `begin_reply` hands back: a request ready to send, or one that
/// wants its image fetched first.
#[derive(Clone, Debug)]
pub enum LlmStep {
    Ready(ChatRequest),
    NeedsFetch(FetchPending),
}

impl View for LlmStep {
    type V = LlmStepView;

    open spec fn view(&self) -> LlmStepView {
        match self {
            LlmStep::Ready(q) => LlmStepView::Ready(q@),
            LlmStep::NeedsFetch(p) => LlmStepView::NeedsFetch(p@),
        }
    }
}

/// Mathematical image of [`LlmOutcome`].
pub ghost enum LlmOutcomeView {
    TransportFailed(Seq<char>),
    HttpError { status: u16, body: Seq<char> },
    Malformed(Seq<char>),
    Answer(ChatResponseView),
}

/// Everything the network call can come back with.
#[derive(Clone, Debug)]
pub enum LlmOutcome {
    /// The request never completed: connection or timeout trouble.
    TransportFailed(String),
    /// The endpoint answered with a non-success status.
    HttpError { status: u16, body: String },
    /// The body arrived but was not a well-formed answer.
    Malformed(String),
    /// A well-formed answer.
    Answer(ChatResponse),
}

impl View for LlmOutcome {
    type V = LlmOutcomeView;

    open spec fn view(&self) -> LlmOutcomeView {
        match self {
            LlmOutcome::TransportFailed(d) => LlmOutcomeView::TransportFailed(d@),
            LlmOutcome::HttpError { status, body } => LlmOutcomeView::HttpError {
                status: *status,
                body: body@,
            },
            LlmOutcome::Malformed(d) => LlmOutcomeView::Malformed(d@),
            LlmOutcome::Answer(r) => LlmOutcomeView::Answer(r@),
        }
    }
}

/// The text parts of a multimodal payload, in order.
pub open spec fn part_texts(ps: Seq<ContentPartView>) -> Seq<Seq<char>>
    decreases ps.len(),
{
    if ps.len() == 0 {
        Seq::empty()
    } else {
        part_texts(ps.drop_last()) + (match ps.last() {
            ContentPartView::Text { text } => seq![text],
            _ => Seq::empty(),
        })
    }
}

/// A chat payload flattened to plain text.
pub open spec fn flatten_content(c: ChatContentView) -> Seq<char> {
    match c {
        ChatContentView::Text(t) => t,
        ChatContentView::Array(ps) => join_space(part_texts(ps)),
    }
}

fn flatten_content_exec(c: &ChatContent) -> (r: String)
    ensures
        r@ == flatten_content(c@),
{
    match c {
        ChatContent::Text(t) => t.clone(),
        ChatContent::Array(parts) => {
            let ghost ps = parts.deep_view();
            let mut acc = String::new();
            let mut any = false;
            let mut i: usize = 0;
            proof {
                assert(ps.take(0) =~= Seq::<ContentPartView>::empty());
                assert(part_texts(ps.take(0)) =~= Seq::<Seq<char>>::empty());
            }
            while i < parts.len()
                invariant
                    i <= parts.len(),
                    ps == parts.deep_view(),
                    ps.len() == parts.len(),
                    any == (part_texts(ps.take(i as int)).len() > 0),
                    acc@ == join_space(part_texts(ps.take(i as int))),
                decreases parts.len() - i,
            {
                let ghost pieces = part_texts(ps.take(i as int));
                proof {
                    assert(ps.take(i + 1).drop_last() =~= ps.take(i as int));
                    assert(ps.take(i + 1).last() == ps[i as int]);
                }
                match &parts[i] {
                    ContentPart::Text { text } => {
                        if any {
                            acc.append(" ");
                            proof {
                                reveal_strlit(" ");
                            }
                        }
                        acc.append(text.as_str());
                        any = true;
                        proof {
                            let np = part_texts(ps.take(i + 1));
                            assert(np =~= pieces.push(text@));
                            assert(np.drop_last() =~= pieces);
                            assert(acc@ =~= join_space(np));
                        }
                    },
                    _ => {
                        proof {
                            assert(part_texts(ps.take(i + 1)) =~= pieces);
                        }
                    },
                }
                i += 1;
            }
            proof {
                assert(ps.take(ps.len() as int) =~= ps);
            }
            acc
        },
    }
}

/// The generative strategy: the endpoint's address and credentials, the
/// model to ask for, and the reply-length cap.
#[derive(Clone, Debug)]
pub struct SimpleLlmReplyStrategy {
    pub api_key: String,
    pub base_url: String,
    pub model: String,
    pub max_tokens: Option<u32>,
}

/// The full behaviour of `begin_reply`: an empty turn is rejected with
/// nothing recorded; otherwise the user turn is recorded and the
/// outbound request is assembled around it, with the image wired in,
/// deferred to a fetch, or noted as text.
pub open spec fn llm_begin_post(
    strategy: SimpleLlmReplyStrategy,
    pre: BotState,
    post: BotState,
    ctx: MessageContextView,
    now: u64,
    r: Result<LlmStepView, Seq<char>>,
) -> bool {
    &&& post.users == pre.users
    &&& post.groups == pre.groups
    &&& post.students == pre.students
    &&& post.grades == pre.grades
    &&& post.settings == pre.settings
    &&& ({
        let text = spec_extract_text(ctx.message);
        let imgs = spec_extract_images(ctx.message);
        let sid = spec_session_of(ctx.env, ctx.sender_id);
        if spec_is_blank(text) && imgs.len() == 0 {
            &&& r is Err
            &&& post == pre
        } else {
            &&& r is Ok
            &&& post.conversations.same_config(&pre.conversations)
            &&& post.conversations.spec_session(sid) == Some(
                crate::session::push_msg(
                    pre.conversations.live_or_fresh(sid, now),
                    spec_user_turn(ctx, text, now),
                ),
            )
            &&& forall|k: SessionId|
                k != sid ==> (post.conversations.spec_session(k)
                    == pre.conversations.spec_session(k)
                    || post.conversations.spec_session(k) is None)
            &&& {
                let base = strategy.spec_base_messages(pre, post, ctx, now);
                let shaped = (match r->Ok_0 {
                    LlmStepView::Ready(req) => Some(req),
                    LlmStepView::NeedsFetch(p) => Some(p.request),
                })->0;
                &&& shaped.model == strategy.model@
                &&& shaped.max_tokens == strategy.max_tokens
                &&& !shaped.stream
                &&& if imgs.len() == 0 {
                    r->Ok_0 is Ready && shaped.messages == base
                } else {
                    match imgs[0].url {
                        Some(u) => {
                            if spec_starts_with(u, "http://"@) || spec_starts_with(
                                u,
                                "https://"@,
                            ) {
                                r->Ok_0 is Ready && shaped.messages == attach_image_url(base, u)
                            } else {
                                &&& r->Ok_0 is NeedsFetch
                                &&& r->Ok_0->NeedsFetch_0.url == u
                                &&& r->Ok_0->NeedsFetch_0.file == imgs[0].file
                                &&& shaped.messages == base
                            }
                        },
                        None => r->Ok_0 is Ready && shaped.messages == append_to_last_text(
                            base,
                            " [image file: "@ + imgs[0].file + "]"@,
                        ),
                    }
                }
            }
        }
    })
}

/// The full behaviour of `complete_reply`: every failed outcome is an
/// exact error with the session untouched; a well-formed answer becomes
/// the recorded assistant turn.
pub open spec fn llm_complete_post(
    pre: BotState,
    post: BotState,
    ctx: MessageContextView,
    outcome: LlmOutcomeView,
    now: u64,
    r: Result<ContentView, Seq<char>>,
) -> bool {
    &&& post.users == pre.users
    &&& post.groups == pre.groups
    &&& post.students == pre.students
    &&& post.grades == pre.grades
    &&& post.settings == pre.settings
    &&& ({
        let sid = spec_session_of(ctx.env, ctx.sender_id);
        match outcome {
            LlmOutcomeView::TransportFailed(d) => {
                &&& post == pre
                &&& r is Err
                &&& r->Err_0 == "the completion request failed: "@ + d
            },
            LlmOutcomeView::HttpError { status, body } => {
                &&& post == pre
                &&& r is Err
                &&& r->Err_0 == "the completion endpoint returned status "@ + spec_u64_text(
                    status as int,
                ) + ": "@ + body
            },
            LlmOutcomeView::Malformed(d) => {
                &&& post == pre
                &&& r is Err
                &&& r->Err_0 == "failed to parse the completion response: "@ + d
            },
            LlmOutcomeView::Answer(resp) => {
                if resp.choices.len() == 0 {
                    &&& post == pre
                    &&& r is Err
                    &&& r->Err_0 == "no response from the model"@
                } else {
                    let text = flatten_content(resp.choices[0].message.content);
                    &&& r == Ok::<ContentView, Seq<char>>(ContentView::Text(text))
                    &&& post.conversations.same_config(&pre.conversations)
                    &&& post.conversations.spec_session(sid) == Some(
                        crate::session::push_msg(
                            pre.conversations.live_or_fresh(sid, now),
                            MessageView {
                                role: Role::Assistant,
                                content: text,
                                timestamp: now,
                                user_id: None,
                                username: None,
                            },
                        ),
                    )
                    &&& forall|k: SessionId|
                        k != sid ==> (post.conversations.spec_session(k)
                            == pre.conversations.spec_session(k)
                            || post.conversations.spec_session(k) is None)
                }
            },
        }
    })
}

impl SimpleLlmReplyStrategy {
    pub fn new(api_key: String, base_url: String, model: String, max_tokens: Option<u32>) -> (r:
        Self)
        ensures
            r.api_key@ == api_key@,
            r.base_url@ == base_url@,
            r.model@ == model@,
            r.max_tokens == max_tokens,
    {
        SimpleLlmReplyStrategy { api_key, base_url, model, max_tokens }
    }

    /// The request lines this turn sends out, before any image wiring:
    /// the resolved system prompt, then the recent history as the store
    /// holds it after recording the current turn.
    pub open spec fn spec_base_messages(
        self,
        pre: BotState,
        post: BotState,
        ctx: MessageContextView,
        now: u64,
    ) -> Seq<ChatMessageView> {
        let sid = spec_session_of(ctx.env, ctx.sender_id);
        let hist = match post.conversations.live_session(sid, now) {
            Some(s) => crate::session::spec_recent(
                s.messages,
                pre.settings.history_limit as int,
            ),
            None => Seq::<MessageView>::empty(),
        };
        let system = match spec_custom_prompt(pre, ctx.env, ctx.sender_id, now) {
            Some(p) => p,
            None => pre.settings.system_prompt@,
        };
        chat_msgs(system, hist, ctx.env is Group)
    }

    /// Validates the turn, records it, and assembles the outbound
    /// request; an image that is not already reachable over HTTP asks
    /// for a fetch instead.
    pub fn begin_reply(&self, state: &mut BotState, ctx: &MessageContext, now: u64) -> (r: Result<
        LlmStep,
        ReplyError,
    >)
        requires
            old(state).inv(),
        ensures
            final(state).inv(),
            llm_begin_post(
                *self,
                *old(state),
                *final(state),
                ctx@,
                now,
                match r {
                    Ok(step) => Ok(step@),
                    Err(e) => Err(e@),
                },
            ),
    {
        let (content, images) = extract_content_and_images(&ctx.message);
        if is_blank(content.as_str()) && images.len() == 0 {
            return Err(ReplyError(String::from_str("empty message content")));
        }
        let sid = session_of(&ctx.env, ctx.sender_id);
        let username: Option<String> = match &ctx.env {
            Env::Group { .. } => Some(display_name(ctx)),
            Env::Private => None,
        };
        state.conversations.add_user_message_with_info(
            sid,
            content.clone(),
            ctx.sender_id,
            username,
            now,
        );
        let system = match resolve_custom_prompt(state, ctx, now) {
            Some(p) => p,
            None => state.settings.system_prompt.clone(),
        };
        let history = state.conversations.get_conversation_history(
            sid,
            state.settings.history_limit,
            now,
        );
        let group_scope = matches!(ctx.env, Env::Group { .. });
        let mut messages = build_chat_messages(system.as_str(), &history, group_scope);
        if images.len() == 0 {
            return Ok(
                LlmStep::Ready(
                    ChatRequest {
                        model: self.model.clone(),
                        messages,
                        max_tokens: self.max_tokens,
                        stream: false,
                    },
                ),
            );
        }
        let first = &images[0];
        match &first.url {
            Some(u) => {
                if starts_with_str(u.as_str(), "http://") || starts_with_str(
                    u.as_str(),
                    "https://",
                ) {
                    attach_image_url_exec(&mut messages, u.clone());
                    Ok(
                        LlmStep::Ready(
                            ChatRequest {
                                model: self.model.clone(),
                                messages,
                                max_tokens: self.max_tokens,
                                stream: false,
                            },
                        ),
                    )
                } else {
                    Ok(
                        LlmStep::NeedsFetch(
                            FetchPending {
                                url: u.clone(),
                                file: first.file.clone(),
                                request: ChatRequest {
                                    model: self.model.clone(),
                                    messages,
                                    max_tokens: self.max_tokens,
                                    stream: false,
                                },
                            },
                        ),
                    )
                }
            },
            None => {
                let mut note = String::from_str(" [image file: ");
                note.append(first.file.as_str());
                note.append("]");
                append_to_last_text_exec(&mut messages, note.as_str());
                Ok(
                    LlmStep::Ready(
                        ChatRequest {
                            model: self.model.clone(),
                            messages,
                            max_tokens: self.max_tokens,
                            stream: false,
                        },
                    ),
                )
            },
        }
    }

    /// Finishes a request that waited on an image fetch: fetched bytes
    /// are inlined as a data address; a failed or oversized fetch
    /// degrades to a text-only request with an unavailability note.
    pub fn attach_fetch(&self, pending: FetchPending, fetched: Option<Vec<u8>>) -> (r: ChatRequest)
        ensures
            r@.model == pending@.request.model,
            r@.max_tokens == pending@.request.max_tokens,
            r@.stream == pending@.request.stream,
            match fetched {
                Some(bytes) => if bytes@.len() <= MAX_IMAGE_BYTES {
                    r@.messages == attach_image_url(
                        pending@.request.messages,
                        data_uri(mime_of(pending@.url), bytes@),
                    )
                } else {
                    r@.messages == append_to_last_text(
                        pending@.request.messages,
                        " [image: "@ + pending@.file + ", unavailable]"@,
                    )
                },
                None => r@.messages == append_to_last_text(
                    pending@.request.messages,
                    " [image: "@ + pending@.file + ", unavailable]"@,
                ),
            },
    {
        let FetchPending { url, file, request } = pending;
        let mut request = request;
        let usable = match &fetched {
            Some(bytes) => bytes.len() <= MAX_IMAGE_BYTES,
            None => false,
        };
        if usable {
            let bytes = match fetched {
                Some(b) => b,
                None => {
                    proof {
                        assert(false);
                    }
                    unreached()
                },
            };
            let mime = guess_mime(url.as_str());
            let uri = build_data_uri(mime.as_str(), &bytes);
            attach_image_url_exec(&mut request.messages, uri);
            request
        } else {
            let mut note = String::from_str(" [image: ");
            note.append(file.as_str());
            note.append(", unavailable]");
            append_to_last_text_exec(&mut request.messages, note.as_str());
            request
        }
    }

    /// Folds the upstream outcome back: a well-formed answer with at
    /// least one choice becomes the assistant's turn and is recorded;
    /// everything else is an error and leaves the session alone.
    pub fn complete_reply(
        &self,
        state: &mut BotState,
        ctx: &MessageContext,
        outcome: LlmOutcome,
        now: u64,
    ) -> (r: Result<MessageContent, ReplyError>)
        requires
            old(state).inv(),
        ensures
            final(state).inv(),
            llm_complete_post(
                *old(state),
                *final(state),
                ctx@,
                outcome@,
                now,
                match r {
                    Ok(c) => Ok(c@),
                    Err(e) => Err(e@),
                },
            ),
    {
        match outcome {
            LlmOutcome::TransportFailed(d) => {
                let mut m = String::from_str("the completion request failed: ");
                m.append(d.as_str());
                Err(ReplyError(m))
            },
            LlmOutcome::HttpError { status, body } => {
                let mut m = String::from_str("the completion endpoint returned status ");
                m.append(u64_to_string(status as u64).as_str());
                m.append(": ");
                m.append(body.as_str());
                Err(ReplyError(m))
            },
            LlmOutcome::Malformed(d) => {
                let mut m = String::from_str("failed to parse the completion response: ");
                m.append(d.as_str());
                Err(ReplyError(m))
            },
            LlmOutcome::Answer(resp) => {
                if resp.choices.len() == 0 {
                    return Err(ReplyError(String::from_str("no response from the model")));
                }
                let text = flatten_content_exec(&resp.choices[0].message.content);
                let sid = session_of(&ctx.env, ctx.sender_id);
                state.conversations.add_assistant_message(sid, text.clone(), now);
                Ok(MessageContent::Text(text))
            },
        }
    }
}

} // verus!
