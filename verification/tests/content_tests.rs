use qqbot_core::content::{MessageContent, MessageSegment, RawSegment, normalize};

fn text_seg(t: &str) -> RawSegment {
    let mut s = RawSegment::of_kind("text".to_string());
    s.text = Some(t.to_string());
    s
}

fn image_seg(file: &str) -> RawSegment {
    let mut s = RawSegment::of_kind("image".to_string());
    s.file = Some(file.to_string());
    s
}

#[test]
fn normalize_drops_blank_text_and_keeps_order() {
    let raws = vec![text_seg("  "), image_seg("a.png"), text_seg("hi")];
    let content = normalize(&raws);
    match &content {
        MessageContent::Mixed(segments) => {
            assert_eq!(segments.len(), 2);
            assert!(matches!(&segments[0], MessageSegment::Image { image_info } if image_info.file == "a.png"));
            assert!(matches!(&segments[1], MessageSegment::Text { text } if text == "hi"));
        },
        _ => panic!("expected mixed content"),
    }
    assert!(content.has_text());
    assert!(content.has_image());
    assert_eq!(content.get_text(), "hi");
}

#[test]
fn normalize_skips_unknown_kinds() {
    let raws = vec![RawSegment::of_kind("video".to_string()), text_seg("hello")];
    let content = normalize(&raws);
    assert!(matches!(&content, MessageContent::Text(t) if t == "hello"));
}

#[test]
fn normalize_collapses_single_text_and_handles_empty() {
    let content = normalize(&vec![text_seg("only")]);
    assert!(matches!(&content, MessageContent::Text(t) if t == "only"));

    let empty = normalize(&Vec::new());
    assert!(matches!(&empty, MessageContent::Text(t) if t.is_empty()));
    assert!(!empty.has_text());
    assert!(!empty.has_image());
}

#[test]
fn get_text_joins_text_segments_with_single_spaces() {
    let raws = vec![text_seg("one"), image_seg("p.png"), text_seg("two"), text_seg("three")];
    let content = normalize(&raws);
    assert_eq!(content.get_text(), "one two three");
}

#[test]
fn get_images_returns_image_records_in_order() {
    let raws = vec![image_seg("a.png"), text_seg("x"), image_seg("b.jpg")];
    let content = normalize(&raws);
    let images = content.get_images();
    assert_eq!(images.len(), 2);
    assert_eq!(images[0].file, "a.png");
    assert_eq!(images[1].file, "b.jpg");
}

#[test]
fn mention_and_sticker_segments_survive_normalization() {
    let mut at = RawSegment::of_kind("at".to_string());
    at.qq = Some("42".to_string());
    let mut face = RawSegment::of_kind("face".to_string());
    face.face_id = Some(7);
    let content = normalize(&vec![at, face]);
    match &content {
        MessageContent::Mixed(segments) => {
            assert!(matches!(&segments[0], MessageSegment::At { qq } if qq == "42"));
            assert!(matches!(&segments[1], MessageSegment::Face { id } if *id == 7));
        },
        _ => panic!("expected mixed content"),
    }
    assert!(!content.has_text());
    assert!(!content.has_image());
}
