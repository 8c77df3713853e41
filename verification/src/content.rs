//! The canonical content model and the normalizer that builds it from
//! heterogeneous platform segments.

use vstd::prelude::*;

use crate::text::{is_blank, spec_is_blank, str_eq};

verus! {

/// Mathematical image of [`ImageInfo`].
pub ghost struct ImageInfoView {
    pub file: Seq<char>,
    pub url: Option<Seq<char>>,
    pub summary: Option<Seq<char>>,
    pub sub_type: Option<u32>,
    pub file_size: Option<u64>,
    pub key: Option<Seq<char>>,
    pub emoji_id: Option<Seq<char>>,
    pub emoji_package_id: Option<Seq<char>>,
}

/// Everything the platform tells us about one image attachment.
#[derive(Clone, Debug)]
pub struct ImageInfo {
    pub file: String,
    pub url: Option<String>,
    pub summary: Option<String>,
    pub sub_type: Option<u32>,
    pub file_size: Option<u64>,
    pub key: Option<String>,
    pub emoji_id: Option<String>,
    pub emoji_package_id: Option<String>,
}

impl View for ImageInfo {
    type V = ImageInfoView;

    open spec fn view(&self) -> ImageInfoView {
        ImageInfoView {
            file: self.file@,
            url: self.url.deep_view(),
            summary: self.summary.deep_view(),
            sub_type: self.sub_type,
            file_size: self.file_size,
            key: self.key.deep_view(),
            emoji_id: self.emoji_id.deep_view(),
            emoji_package_id: self.emoji_package_id.deep_view(),
        }
    }
}

impl DeepView for ImageInfo {
    type V = ImageInfoView;

    open spec fn deep_view(&self) -> ImageInfoView {
        self.view()
    }
}

fn clone_opt_string(o: &Option<String>) -> (r: Option<String>)
    ensures
        r.deep_view() == o.deep_view(),
{
    match o {
        Some(s) => Some(s.clone()),
        None => None,
    }
}

impl ImageInfo {
    /// A field-for-field copy whose view equals this one's.
    pub fn duplicate(&self) -> (r: Self)
        ensures
            r@ == self@,
    {
        ImageInfo {
            file: self.file.clone(),
            url: clone_opt_string(&self.url),
            summary: clone_opt_string(&self.summary),
            sub_type: self.sub_type,
            file_size: self.file_size,
            key: clone_opt_string(&self.key),
            emoji_id: clone_opt_string(&self.emoji_id),
            emoji_package_id: clone_opt_string(&self.emoji_package_id),
        }
    }
}

/// Mathematical image of [`FileAttachment`].
pub ghost struct FileAttachmentView {
    pub name: Seq<char>,
    pub content: Seq<u8>,
    pub mime_type: Option<Seq<char>>,
}

/// A file carried inline by the transport: its name, raw bytes, and an
/// optional MIME type.
#[derive(Clone, Debug)]
pub struct FileAttachment {
    pub name: String,
    pub content: Vec<u8>,
    pub mime_type: Option<String>,
}

impl View for FileAttachment {
    type V = FileAttachmentView;

    open spec fn view(&self) -> FileAttachmentView {
        FileAttachmentView {
            name: self.name@,
            content: self.content@,
            mime_type: self.mime_type.deep_view(),
        }
    }
}

impl DeepView for FileAttachment {
    type V = FileAttachmentView;

    open spec fn deep_view(&self) -> FileAttachmentView {
        self.view()
    }
}

/// Mathematical image of [`MessageSegment`].
pub ghost enum SegmentView {
    Text { text: Seq<char> },
    Image { image_info: ImageInfoView },
    At { qq: Seq<char> },
    Face { id: u32 },
}

/// One canonical segment of a mixed message.
#[derive(Clone, Debug)]
pub enum MessageSegment {
    Text { text: String },
    Image { image_info: ImageInfo },
    At { qq: String },
    Face { id: u32 },
}

impl View for MessageSegment {
    type V = SegmentView;

    open spec fn view(&self) -> SegmentView {
        match self {
            MessageSegment::Text { text } => SegmentView::Text { text: text@ },
            MessageSegment::Image { image_info } => SegmentView::Image {
                image_info: image_info@,
            },
            MessageSegment::At { qq } => SegmentView::At { qq: qq@ },
            MessageSegment::Face { id } => SegmentView::Face { id: *id },
        }
    }
}

impl DeepView for MessageSegment {
    type V = SegmentView;

    open spec fn deep_view(&self) -> SegmentView {
        self.view()
    }
}

impl MessageSegment {
    pub fn duplicate(&self) -> (r: Self)
        ensures
            r@ == self@,
    {
        match self {
            MessageSegment::Text { text } => MessageSegment::Text { text: text.clone() },
            MessageSegment::Image { image_info } => MessageSegment::Image {
                image_info: image_info.duplicate(),
            },
            MessageSegment::At { qq } => MessageSegment::At { qq: qq.clone() },
            MessageSegment::Face { id } => MessageSegment::Face { id: *id },
        }
    }
}

/// Mathematical image of [`MessageContent`].
pub ghost enum ContentView {
    Text(Seq<char>),
    Image(FileAttachmentView),
    File(FileAttachmentView),
    Mixed(Seq<SegmentView>),
}

/// Canonical message content: a plain text, a bare attachment, or an
/// ordered run of segments.
#[derive(Clone, Debug)]
pub enum MessageContent {
    Text(String),
    Image(FileAttachment),
    File(FileAttachment),
    Mixed(Vec<MessageSegment>),
}

impl View for MessageContent {
    type V = ContentView;

    open spec fn view(&self) -> ContentView {
        match self {
            MessageContent::Text(t) => ContentView::Text(t@),
            MessageContent::Image(a) => ContentView::Image(a@),
            MessageContent::File(a) => ContentView::File(a@),
            MessageContent::Mixed(ss) => ContentView::Mixed(ss.deep_view()),
        }
    }
}

/// Mathematical image of [`RawSegment`].
pub ghost struct RawSegmentView {
    pub kind: Seq<char>,
    pub text: Option<Seq<char>>,
    pub file: Option<Seq<char>>,
    pub url: Option<Seq<char>>,
    pub summary: Option<Seq<char>>,
    pub sub_type: Option<u32>,
    pub file_size: Option<u64>,
    pub key: Option<Seq<char>>,
    pub emoji_id: Option<Seq<char>>,
    pub emoji_package_id: Option<Seq<char>>,
    pub qq: Option<Seq<char>>,
    pub face_id: Option<u32>,
}

/// One segment exactly as the platform delivered it: a kind tag plus
/// whichever fields that kind populates.  Unknown kinds simply carry a tag
/// this crate does not recognize.
#[derive(Clone, Debug)]
pub struct RawSegment {
    pub kind: String,
    pub text: Option<String>,
    pub file: Option<String>,
    pub url: Option<String>,
    pub summary: Option<String>,
    pub sub_type: Option<u32>,
    pub file_size: Option<u64>,
    pub key: Option<String>,
    pub emoji_id: Option<String>,
    pub emoji_package_id: Option<String>,
    pub qq: Option<String>,
    pub face_id: Option<u32>,
}

impl View for RawSegment {
    type V = RawSegmentView;

    open spec fn view(&self) -> RawSegmentView {
        RawSegmentView {
            kind: self.kind@,
            text: self.text.deep_view(),
            file: self.file.deep_view(),
            url: self.url.deep_view(),
            summary: self.summary.deep_view(),
            sub_type: self.sub_type,
            file_size: self.file_size,
            key: self.key.deep_view(),
            emoji_id: self.emoji_id.deep_view(),
            emoji_package_id: self.emoji_package_id.deep_view(),
            qq: self.qq.deep_view(),
            face_id: self.face_id,
        }
    }
}

impl DeepView for RawSegment {
    type V = RawSegmentView;

    open spec fn deep_view(&self) -> RawSegmentView {
        self.view()
    }
}

impl RawSegment {
    /// A raw segment with only a kind tag; every field empty.
    pub fn of_kind(kind: String) -> (r: Self)
        ensures
            r@.kind == kind@,
            r@.text is None,
            r@.file is None,
            r@.url is None,
            r@.summary is None,
            r@.sub_type is None,
            r@.file_size is None,
            r@.key is None,
            r@.emoji_id is None,
            r@.emoji_package_id is None,
            r@.qq is None,
            r@.face_id is None,
    {
        RawSegment {
            kind,
            text: None,
            file: None,
            url: None,
            summary: None,
            sub_type: None,
            file_size: None,
            key: None,
            emoji_id: None,
            emoji_package_id: None,
            qq: None,
            face_id: None,
        }
    }
}

/// What the normalizer makes of one raw segment: a canonical segment, or
/// nothing (blank text, an incomplete segment, or an unrecognized kind).
pub open spec fn seg_of_raw(r: RawSegmentView) -> Option<SegmentView> {
    if r.kind == "text"@ {
        match r.text {
            Some(t) => if spec_is_blank(t) {
                None
            } else {
                Some(SegmentView::Text { text: t })
            },
            None => None,
        }
    } else if r.kind == "image"@ {
        Some(
            SegmentView::Image {
                image_info: ImageInfoView {
                    file: match r.file {
                        Some(f) => f,
                        None => "unknown"@,
                    },
                    url: r.url,
                    summary: r.summary,
                    sub_type: r.sub_type,
                    file_size: r.file_size,
                    key: r.key,
                    emoji_id: r.emoji_id,
                    emoji_package_id: r.emoji_package_id,
                },
            },
        )
    } else if r.kind == "at"@ {
        match r.qq {
            Some(q) => Some(SegmentView::At { qq: q }),
            None => None,
        }
    } else if r.kind == "face"@ {
        match r.face_id {
            Some(id) => Some(SegmentView::Face { id }),
            None => None,
        }
    } else {
        None
    }
}

/// The canonical segments a run of raw segments normalizes to, in order.
pub open spec fn segs_of_raws(rs: Seq<RawSegmentView>) -> Seq<SegmentView>
    decreases rs.len(),
{
    if rs.len() == 0 {
        Seq::empty()
    } else {
        segs_of_raws(rs.drop_last()) + (match seg_of_raw(rs.last()) {
            Some(s) => seq![s],
            None => Seq::empty(),
        })
    }
}

/// A single text segment collapses to plain text; everything else stays
/// mixed.  No segments at all yield the empty text.
pub open spec fn collapse(segs: Seq<SegmentView>) -> ContentView {
    if segs.len() == 0 {
        ContentView::Text(Seq::empty())
    } else if segs.len() == 1 && segs[0] is Text {
        ContentView::Text(segs[0]->Text_text)
    } else {
        ContentView::Mixed(segs)
    }
}

fn seg_of_raw_exec(r: &RawSegment) -> (s: Option<MessageSegment>)
    ensures
        s.deep_view() == seg_of_raw(r@),
{
    if str_eq(self_kind(r), "text") {
        match &r.text {
            Some(t) => {
                if is_blank(t.as_str()) {
                    None
                } else {
                    Some(MessageSegment::Text { text: t.clone() })
                }
            },
            None => None,
        }
    } else if str_eq(self_kind(r), "image") {
        let file = match &r.file {
            Some(f) => f.clone(),
            None => String::from_str("unknown"),
        };
        Some(
            MessageSegment::Image {
                image_info: ImageInfo {
                    file,
                    url: clone_opt_string(&r.url),
                    summary: clone_opt_string(&r.summary),
                    sub_type: r.sub_type,
                    file_size: r.file_size,
                    key: clone_opt_string(&r.key),
                    emoji_id: clone_opt_string(&r.emoji_id),
                    emoji_package_id: clone_opt_string(&r.emoji_package_id),
                },
            },
        )
    } else if str_eq(self_kind(r), "at") {
        match &r.qq {
            Some(q) => Some(MessageSegment::At { qq: q.clone() }),
            None => None,
        }
    } else if str_eq(self_kind(r), "face") {
        match r.face_id {
            Some(id) => Some(MessageSegment::Face { id }),
            None => None,
        }
    } else {
        None
    }
}

fn self_kind(r: &RawSegment) -> (k: &str)
    ensures
        k@ == r@.kind,
{
    r.kind.as_str()
}

/// Normalizes an ordered run of platform segments into canonical content.
///
/// Blank text segments are dropped, image segments become [`ImageInfo`]
/// records, and segments of unrecognized kind are skipped without error.
/// A lone text segment collapses to [`MessageContent::Text`].
pub fn normalize(raws: &Vec<RawSegment>) -> (r: MessageContent)
    ensures
        r@ == collapse(segs_of_raws(raws.deep_view())),
{
    let ghost rs = raws.deep_view();
    let mut segs: Vec<MessageSegment> = Vec::new();
    let mut i: usize = 0;
    proof {
        assert(rs.take(0) =~= Seq::<RawSegmentView>::empty());
        assert(segs.deep_view() =~~= segs_of_raws(rs.take(0)));
    }
    while i < raws.len()
        invariant
            i <= raws.len(),
            rs == raws.deep_view(),
            rs.len() == raws.len(),
            segs.deep_view() =~~= segs_of_raws(rs.take(i as int)),
        decreases raws.len() - i,
    {
        let ghost prior = segs.deep_view();
        match seg_of_raw_exec(&raws[i]) {
            Some(s) => {
                segs.push(s);
            },
            None => {},
        }
        proof {
            assert(rs.take(i + 1).drop_last() =~= rs.take(i as int));
            assert(rs.take(i + 1).last() == rs[i as int]);
            assert(segs.deep_view() =~~= segs_of_raws(rs.take(i + 1)));
        }
        i += 1;
    }
    proof {
        assert(rs.take(rs.len() as int) =~= rs);
    }
    if segs.len() == 0 {
        MessageContent::Text(String::new())
    } else if segs.len() == 1 {
        let only_text = match &segs[0] {
            MessageSegment::Text { text } => Some(text.clone()),
            _ => None,
        };
        match only_text {
            Some(t) => MessageContent::Text(t),
            None => MessageContent::Mixed(segs),
        }
    } else {
        MessageContent::Mixed(segs)
    }
}

/// The text payloads of a segment run, in order.
pub open spec fn texts_of(ss: Seq<SegmentView>) -> Seq<Seq<char>>
    decreases ss.len(),
{
    if ss.len() == 0 {
        Seq::empty()
    } else {
        texts_of(ss.drop_last()) + (match ss.last() {
            SegmentView::Text { text } => seq![text],
            _ => Seq::empty(),
        })
    }
}

/// The image records of a segment run, in order.
pub open spec fn images_of(ss: Seq<SegmentView>) -> Seq<ImageInfoView>
    decreases ss.len(),
{
    if ss.len() == 0 {
        Seq::empty()
    } else {
        images_of(ss.drop_last()) + (match ss.last() {
            SegmentView::Image { image_info } => seq![image_info],
            _ => Seq::empty(),
        })
    }
}

/// Pieces joined by a single space.
pub open spec fn join_space(ts: Seq<Seq<char>>) -> Seq<char>
    decreases ts.len(),
{
    if ts.len() == 0 {
        Seq::empty()
    } else if ts.len() == 1 {
        ts[0]
    } else {
        join_space(ts.drop_last()) + seq![' '] + ts.last()
    }
}

/// Whether the content carries any non-blank text.  For mixed content a
/// text segment counts as such even when blank, matching the transport's
/// own notion of a text-bearing message.
pub open spec fn spec_has_text(c: ContentView) -> bool {
    match c {
        ContentView::Text(t) => !spec_is_blank(t),
        ContentView::Mixed(ss) => exists|i: int| 0 <= i < ss.len() && ss[i] is Text,
        _ => false,
    }
}

/// The flattened text of the content: the text itself, or all text
/// segments joined by single spaces.
pub open spec fn spec_text_of(c: ContentView) -> Seq<char> {
    match c {
        ContentView::Text(t) => t,
        ContentView::Mixed(ss) => join_space(texts_of(ss)),
        _ => Seq::empty(),
    }
}

pub open spec fn spec_has_image(c: ContentView) -> bool {
    match c {
        ContentView::Image(_) => true,
        ContentView::Mixed(ss) => exists|i: int| 0 <= i < ss.len() && ss[i] is Image,
        _ => false,
    }
}

/// The image records of the content, in order.  Only mixed content
/// carries them; a bare attachment has no [`ImageInfo`] record.
pub open spec fn spec_images_of(c: ContentView) -> Seq<ImageInfoView> {
    match c {
        ContentView::Mixed(ss) => images_of(ss),
        _ => Seq::empty(),
    }
}

impl MessageContent {
    pub fn has_text(&self) -> (r: bool)
        ensures
            r == spec_has_text(self@),
    {
        match self {
            MessageContent::Text(text) => !is_blank(text.as_str()),
            MessageContent::Mixed(segments) => {
                let ghost ss = segments.deep_view();
                let mut i: usize = 0;
                while i < segments.len()
                    invariant
                        i <= segments.len(),
                        ss == segments.deep_view(),
                        ss.len() == segments.len(),
                        self@ == ContentView::Mixed(ss),
                        forall|k: int| 0 <= k < i ==> !(ss[k] is Text),
                    decreases segments.len() - i,
                {
                    match &segments[i] {
                        MessageSegment::Text { .. } => {
                            proof {
                                assert(ss[i as int] is Text);
                            }
                            return true;
                        },
                        _ => {},
                    }
                    i += 1;
                }
                false
            },
            _ => false,
        }
    }

    pub fn get_text(&self) -> (r: String)
        ensures
            r@ == spec_text_of(self@),
    {
        match self {
            MessageContent::Text(text) => text.clone(),
            MessageContent::Mixed(segments) => {
                let ghost ss = segments.deep_view();
                let mut acc = String::new();
                let mut any = false;
                let mut i: usize = 0;
                proof {
                    assert(ss.take(0) =~= Seq::<SegmentView>::empty());
                    assert(texts_of(ss.take(0)) =~~= Seq::<Seq<char>>::empty());
                }
                while i < segments.len()
                    invariant
                        i <= segments.len(),
                        ss == segments.deep_view(),
                        ss.len() == segments.len(),
                        any == (texts_of(ss.take(i as int)).len() > 0),
                        acc@ == join_space(texts_of(ss.take(i as int))),
                    decreases segments.len() - i,
                {
                    let ghost pieces = texts_of(ss.take(i as int));
                    proof {
                        assert(ss.take(i + 1).drop_last() =~= ss.take(i as int));
                        assert(ss.take(i + 1).last() == ss[i as int]);
                    }
                    match &segments[i] {
                        MessageSegment::Text { text } => {
                            if any {
                                acc.append(" ");
                                proof {
                                    reveal_strlit(" ");
                                }
                            }
                            acc.append(text.as_str());
                            any = true;
                            proof {
                                let np = texts_of(ss.take(i + 1));
                                assert(np =~= pieces.push(text@));
                                assert(np.drop_last() =~= pieces);
                                if pieces.len() == 0 {
                                    assert(acc@ =~= join_space(np));
                                } else {
                                    assert(acc@ =~= join_space(np));
                                }
                            }
                        },
                        _ => {
                            proof {
                                assert(texts_of(ss.take(i + 1)) =~= pieces);
                            }
                        },
                    }
                    i += 1;
                }
                proof {
                    assert(ss.take(ss.len() as int) =~= ss);
                }
                acc
            },
            _ => String::new(),
        }
    }

    pub fn has_image(&self) -> (r: bool)
        ensures
            r == spec_has_image(self@),
    {
        match self {
            MessageContent::Image(_) => true,
            MessageContent::Mixed(segments) => {
                let ghost ss = segments.deep_view();
                let mut i: usize = 0;
                while i < segments.len()
                    invariant
                        i <= segments.len(),
                        ss == segments.deep_view(),
                        ss.len() == segments.len(),
                        self@ == ContentView::Mixed(ss),
                        forall|k: int| 0 <= k < i ==> !(ss[k] is Image),
                    decreases segments.len() - i,
                {
                    match &segments[i] {
                        MessageSegment::Image { .. } => {
                            proof {
                                assert(ss[i as int] is Image);
                            }
                            return true;
                        },
                        _ => {},
                    }
                    i += 1;
                }
                false
            },
            _ => false,
        }
    }

    pub fn get_images(&self) -> (r: Vec<ImageInfo>)
        ensures
            r.deep_view() == spec_images_of(self@),
    {
        let mut out: Vec<ImageInfo> = Vec::new();
        match self {
            MessageContent::Mixed(segments) => {
                let ghost ss = segments.deep_view();
                let mut i: usize = 0;
                proof {
                    assert(ss.take(0) =~= Seq::<SegmentView>::empty());
                    assert(out.deep_view() =~~= images_of(ss.take(0)));
                }
                while i < segments.len()
                    invariant
                        i <= segments.len(),
                        ss == segments.deep_view(),
                        ss.len() == segments.len(),
                        out.deep_view() =~~= images_of(ss.take(i as int)),
                    decreases segments.len() - i,
                {
                    proof {
                        assert(ss.take(i + 1).drop_last() =~= ss.take(i as int));
                        assert(ss.take(i + 1).last() == ss[i as int]);
                    }
                    match &segments[i] {
                        MessageSegment::Image { image_info } => {
                            out.push(image_info.duplicate());
                        },
                        _ => {},
                    }
                    proof {
                        assert(out.deep_view() =~~= images_of(ss.take(i + 1)));
                    }
                    i += 1;
                }
                proof {
                    assert(ss.take(ss.len() as int) =~= ss);
                }
                out
            },
            _ => out,
        }
    }

    pub fn duplicate(&self) -> (r: Self)
        ensures
            r@ == self@,
    {
        match self {
            MessageContent::Text(t) => MessageContent::Text(t.clone()),
            MessageContent::Image(a) => MessageContent::Image(a.duplicate()),
            MessageContent::File(a) => MessageContent::File(a.duplicate()),
            MessageContent::Mixed(ss) => {
                let mut out: Vec<MessageSegment> = Vec::new();
                let mut i: usize = 0;
                while i < ss.len()
                    invariant
                        i <= ss.len(),
                        out.deep_view() =~~= ss.deep_view().take(i as int),
                    decreases ss.len() - i,
                {
                    let ghost prior = out.deep_view();
                    out.push(ss[i].duplicate());
                    proof {
                        assert(out.deep_view() =~~= prior.push(ss[i as int]@));
                        assert(out.deep_view() =~~= ss.deep_view().take(i + 1));
                    }
                    i += 1;
                }
                proof {
                    assert(ss.deep_view().take(ss.len() as int) =~= ss.deep_view());
                }
                MessageContent::Mixed(out)
            },
        }
    }
}

impl FileAttachment {
    pub fn duplicate(&self) -> (r: Self)
        ensures
            r@ == self@,
    {
        FileAttachment {
            name: self.name.clone(),
            content: clone_bytes(&self.content),
            mime_type: clone_opt_string(&self.mime_type),
        }
    }
}

fn clone_bytes(v: &Vec<u8>) -> (r: Vec<u8>)
    ensures
        r@ == v@,
{
    let mut out: Vec<u8> = Vec::new();
    let mut i: usize = 0;
    while i < v.len()
        invariant
            i <= v.len(),
            out@ =~= v@.take(i as int),
        decreases v.len() - i,
    {
        out.push(v[i]);
        proof {
            assert(out@ =~= v@.take(i + 1));
        }
        i += 1;
    }
    proof {
        assert(v@.take(v@.len() as int) =~= v@);
    }
    out
}

} // verus!
