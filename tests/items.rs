use pastepaw_core::{clip_to_item, clip_type_name, i64_to_decimal, Clip, ClipType};

fn clip(kind: ClipType, content: Vec<u8>, folder: Option<i64>, created_at: i64) -> Clip {
    Clip {
        id: 7,
        uuid: "u-7".to_string(),
        clip_type: kind,
        content,
        text_preview: "prev".to_string(),
        content_hash: "h".to_string(),
        folder_id: folder,
        is_deleted: false,
        is_thumbnail: false,
        source_app: Some("App".to_string()),
        source_icon: None,
        metadata: Some("{}".to_string()),
        created_at,
        last_accessed: created_at,
    }
}

#[test]
fn text_clip_becomes_item() {
    let item = clip_to_item(&clip(ClipType::Text, "héllo".as_bytes().to_vec(), Some(12), 0), false);
    assert_eq!(item.id, "u-7");
    assert_eq!(item.clip_type, "text");
    assert_eq!(item.content, "héllo");
    assert_eq!(item.preview, "prev");
    assert_eq!(item.folder_id.as_deref(), Some("12"));
    assert_eq!(item.created_at, "1970-01-01T00:00:00+00:00");
    assert_eq!(item.source_app.as_deref(), Some("App"));
    assert_eq!(item.metadata.as_deref(), Some("{}"));
}

#[test]
fn image_clip_content_is_base64_unless_previewing() {
    let c = clip(ClipType::Image, vec![0xff, 0x00, 0x10], None, 1_700_000_000);
    let item = clip_to_item(&c, false);
    assert_eq!(item.clip_type, "image");
    assert_eq!(item.content, "/wAQ");
    assert!(item.folder_id.is_none());
    assert_eq!(item.created_at, "2023-11-14T22:13:20+00:00");
    assert_eq!(clip_to_item(&c, true).content, "");
}

#[test]
fn time_outside_the_calendar_is_left_empty() {
    let item = clip_to_item(&clip(ClipType::Text, b"x".to_vec(), None, i64::MAX), false);
    assert_eq!(item.created_at, "");
}

#[test]
fn signed_decimals() {
    assert_eq!(i64_to_decimal(0), "0");
    assert_eq!(i64_to_decimal(-45), "-45");
    assert_eq!(i64_to_decimal(i64::MAX), "9223372036854775807");
    assert_eq!(i64_to_decimal(i64::MIN), "-9223372036854775808");
    assert_eq!(clip_type_name(ClipType::Url), "url");
    assert_eq!(clip_type_name(ClipType::Html), "html");
}
