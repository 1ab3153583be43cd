use pastepaw_core::{
    calculate_hash, ingest_clipboard_change, next_paste_step, paste_clip,
    process_clipboard_change, set_ignore_hash, set_last_stable_hash, AppSettings, ClipEntry,
    ClipStore, ClipType, ClipboardSnapshot, ImageCandidate, ImageStorage, IngestOutcome,
    IngestionCoordinator, OwnerInfo, PastePayload, PasteStep, UpsertOutcome,
};
use std::io::Cursor;

fn owner(exe: &str) -> OwnerInfo {
    OwnerInfo {
        display_name: Some(exe.to_string()),
        icon: Some(format!("icon-{}", exe)),
        identifier: Some(exe.to_string()),
        full_path: Some(format!("C:\\Apps\\{}", exe)),
        is_explicit: true,
    }
}

fn text_snapshot(text: &str) -> ClipboardSnapshot {
    ClipboardSnapshot { image_candidates: Vec::new(), text: Some(text.to_string()) }
}

fn text_entry(text: &str) -> ClipEntry {
    ClipEntry {
        clip_type: ClipType::Text,
        content: text.as_bytes().to_vec(),
        full_image: None,
        preview: text.to_string(),
        hash: calculate_hash(text.as_bytes()),
        metadata: None,
    }
}

fn encoded(w: u32, h: u32, format: image::ImageOutputFormat) -> Vec<u8> {
    let img = image::RgbaImage::from_fn(w, h, |x, y| image::Rgba([(x * 7) as u8, (y * 3) as u8, 128, 255]));
    let mut buf = Vec::new();
    image::DynamicImage::ImageRgba8(img).write_to(&mut Cursor::new(&mut buf), format).unwrap();
    buf
}

fn image_snapshot(bytes: Vec<u8>, kind: &str) -> ClipboardSnapshot {
    ClipboardSnapshot {
        image_candidates: vec![ImageCandidate { source_type: kind.to_string(), bytes }],
        text: Some("fallback text".to_string()),
    }
}

#[test]
fn copying_same_text_twice_keeps_one_row() {
    let mut coord = IngestionCoordinator::new();
    let mut store = ClipStore::new();
    let settings = AppSettings::default();
    let first = ingest_clipboard_change(&mut coord, &mut store, &settings, &owner("a.exe"), &text_snapshot("Hello"), 100);
    assert!(matches!(first, IngestOutcome::Stored { upsert: UpsertOutcome::Inserted { id: 1, .. }, self_paste: false, .. }));
    let second = ingest_clipboard_change(&mut coord, &mut store, &settings, &owner("a.exe"), &text_snapshot("Hello"), 200);
    assert!(matches!(second, IngestOutcome::Unchanged));
    assert_eq!(store.len(), 1);
    assert_eq!(store.get(0).created_at, 100);
    assert_eq!(store.get(0).text_preview, "Hello");
    assert_eq!(store.get(0).content_hash, calculate_hash(b"Hello"));
}

#[test]
fn stable_hash_skips_without_touching_the_store() {
    let mut coord = IngestionCoordinator::new();
    let mut store = ClipStore::new();
    let settings = AppSettings::default();
    set_last_stable_hash(&mut coord, calculate_hash(b"Hello"));
    let r = process_clipboard_change(&mut coord, &mut store, &settings, &owner("a.exe"), text_entry("Hello"), 5, "u-1".to_string());
    assert!(matches!(r, IngestOutcome::Unchanged));
    assert_eq!(store.len(), 0);
}

#[test]
fn reoccurrence_updates_recency_and_attribution_only() {
    let mut coord = IngestionCoordinator::new();
    let mut store = ClipStore::new();
    let settings = AppSettings::default();
    process_clipboard_change(&mut coord, &mut store, &settings, &owner("a.exe"), text_entry("Hello"), 10, "u-1".to_string());
    process_clipboard_change(&mut coord, &mut store, &settings, &owner("b.exe"), text_entry("World"), 20, "u-2".to_string());
    let r = process_clipboard_change(&mut coord, &mut store, &settings, &owner("c.exe"), text_entry("Hello"), 30, "u-3".to_string());
    match r {
        IngestOutcome::Stored { upsert: UpsertOutcome::Updated { id, uuid }, self_paste: false, .. } => {
            assert_eq!(id, 1);
            assert_eq!(uuid, "u-1");
        }
        other => panic!("unexpected {:?}", other),
    }
    assert_eq!(store.len(), 2);
    let row = store.get(0);
    assert_eq!(row.uuid, "u-1");
    assert_eq!(row.id, 1);
    assert_eq!(row.created_at, 30);
    assert_eq!(row.last_accessed, 10);
    assert_eq!(row.source_app.as_deref(), Some("c.exe"));
    assert_eq!(row.source_icon.as_deref(), Some("icon-c.exe"));
    assert_eq!(row.content, b"Hello".to_vec());
    assert_eq!(store.get(1).created_at, 20);
}

#[test]
fn soft_deleted_row_is_resurrected() {
    let mut coord = IngestionCoordinator::new();
    let mut store = ClipStore::new();
    let settings = AppSettings::default();
    process_clipboard_change(&mut coord, &mut store, &settings, &owner("a.exe"), text_entry("Hello"), 10, "u-1".to_string());
    assert!(store.delete_clip(1));
    assert!(store.get(0).is_deleted);
    assert!(!store.delete_clip(42));
    process_clipboard_change(&mut coord, &mut store, &settings, &owner("a.exe"), text_entry("Other"), 15, "u-2".to_string());
    let r = process_clipboard_change(&mut coord, &mut store, &settings, &owner("a.exe"), text_entry("Hello"), 20, "u-3".to_string());
    assert!(matches!(r, IngestOutcome::Stored { upsert: UpsertOutcome::Updated { id: 1, .. }, .. }));
    assert_eq!(store.len(), 2);
    assert!(!store.get(0).is_deleted);
    assert_eq!(store.get(0).uuid, "u-1");
    assert_eq!(store.get(0).created_at, 20);
}

#[test]
fn new_content_under_a_taken_uuid_is_rejected() {
    let mut coord = IngestionCoordinator::new();
    let mut store = ClipStore::new();
    let settings = AppSettings::default();
    process_clipboard_change(&mut coord, &mut store, &settings, &owner("a.exe"), text_entry("Hello"), 10, "u-1".to_string());
    let r = process_clipboard_change(&mut coord, &mut store, &settings, &owner("a.exe"), text_entry("Other"), 11, "u-1".to_string());
    assert!(matches!(r, IngestOutcome::Stored { upsert: UpsertOutcome::Rejected, .. }));
    assert_eq!(store.len(), 1);
}

#[test]
fn ignored_app_yields_no_row() {
    let mut coord = IngestionCoordinator::new();
    let mut store = ClipStore::new();
    let mut settings = AppSettings::default();
    settings.ignored_apps.push("blocked.exe".to_string());
    let r = ingest_clipboard_change(&mut coord, &mut store, &settings, &owner("Blocked.exe"), &text_snapshot("secret"), 1);
    assert!(matches!(r, IngestOutcome::Filtered));
    assert_eq!(store.len(), 0);
    process_clipboard_change(&mut coord, &mut store, &settings, &owner("a.exe"), text_entry("Hello"), 2, "u-1".to_string());
    process_clipboard_change(&mut coord, &mut store, &settings, &owner("a.exe"), text_entry("Other"), 2, "u-2".to_string());
    let r = process_clipboard_change(&mut coord, &mut store, &settings, &owner("BLOCKED.EXE"), text_entry("Hello"), 3, "u-3".to_string());
    assert!(matches!(r, IngestOutcome::Filtered));
    assert_eq!(store.len(), 2);
    assert_eq!(store.get(0).created_at, 2);
    assert_eq!(store.get(0).source_app.as_deref(), Some("a.exe"));
}

#[test]
fn ghost_clip_is_dropped_when_configured() {
    let mut coord = IngestionCoordinator::new();
    let mut store = ClipStore::new();
    let mut settings = AppSettings::default();
    settings.ignore_ghost_clips = true;
    let mut guessed = owner("a.exe");
    guessed.is_explicit = false;
    let r = ingest_clipboard_change(&mut coord, &mut store, &settings, &guessed, &text_snapshot("x"), 1);
    assert!(matches!(r, IngestOutcome::Filtered));
    assert_eq!(store.len(), 0);
}

#[test]
fn blank_clipboard_is_no_content() {
    let mut coord = IngestionCoordinator::new();
    let mut store = ClipStore::new();
    let settings = AppSettings::default();
    let r = ingest_clipboard_change(&mut coord, &mut store, &settings, &owner("a.exe"), &text_snapshot("  \n"), 1);
    assert!(matches!(r, IngestOutcome::NoContent));
    let empty = ClipboardSnapshot { image_candidates: Vec::new(), text: None };
    let r = ingest_clipboard_change(&mut coord, &mut store, &settings, &owner("a.exe"), &empty, 1);
    assert!(matches!(r, IngestOutcome::NoContent));
    assert_eq!(store.len(), 0);
}

#[test]
fn paste_back_token_still_bumps_recency() {
    let mut coord = IngestionCoordinator::new();
    let mut store = ClipStore::new();
    let settings = AppSettings::default();
    process_clipboard_change(&mut coord, &mut store, &settings, &owner("a.exe"), text_entry("H2 text"), 10, "u-1".to_string());
    process_clipboard_change(&mut coord, &mut store, &settings, &owner("a.exe"), text_entry("later"), 20, "u-2".to_string());
    let payload = paste_clip(&mut coord, &mut store, &"u-1".to_string(), 30).unwrap();
    assert!(matches!(payload, PastePayload::Text(ref t) if t == "H2 text"));
    assert_eq!(store.get(0).created_at, 30);
    let r = process_clipboard_change(&mut coord, &mut store, &settings, &owner("b.exe"), text_entry("H2 text"), 40, "u-3".to_string());
    assert!(matches!(r, IngestOutcome::Stored { upsert: UpsertOutcome::Updated { id: 1, .. }, self_paste: true, .. }));
    assert_eq!(store.len(), 2);
    assert_eq!(store.get(0).created_at, 40);
    let again = process_clipboard_change(&mut coord, &mut store, &settings, &owner("b.exe"), text_entry("later"), 50, "u-4".to_string());
    assert!(matches!(again, IngestOutcome::Stored { self_paste: false, .. }));
}

#[test]
fn ignore_token_is_consumed_by_the_next_ingestion() {
    let mut coord = IngestionCoordinator::new();
    let mut store = ClipStore::new();
    let settings = AppSettings::default();
    set_ignore_hash(&mut coord, calculate_hash(b"expected"));
    let r = process_clipboard_change(&mut coord, &mut store, &settings, &owner("a.exe"), text_entry("other"), 1, "u-1".to_string());
    assert!(matches!(r, IngestOutcome::Stored { self_paste: false, .. }));
    let r = process_clipboard_change(&mut coord, &mut store, &settings, &owner("a.exe"), text_entry("expected"), 2, "u-2".to_string());
    assert!(matches!(r, IngestOutcome::Stored { self_paste: false, .. }));
}

#[test]
fn paste_of_unknown_clip_fails() {
    let mut coord = IngestionCoordinator::new();
    let mut store = ClipStore::new();
    assert!(paste_clip(&mut coord, &mut store, &"missing".to_string(), 1).is_err());
}

#[test]
fn paste_write_is_tried_five_times() {
    assert_eq!(next_paste_step(1, true), PasteStep::Done);
    assert_eq!(next_paste_step(1, false), PasteStep::Retry);
    assert_eq!(next_paste_step(4, false), PasteStep::Retry);
    assert_eq!(next_paste_step(5, false), PasteStep::GiveUp);
    assert_eq!(next_paste_step(5, true), PasteStep::Done);
}

#[test]
fn image_is_preferred_over_text_and_reused_across_codecs() {
    let mut coord = IngestionCoordinator::new();
    let mut store = ClipStore::new();
    let settings = AppSettings::default();
    let png = encoded(600, 300, image::ImageOutputFormat::Png);
    let r = ingest_clipboard_change(&mut coord, &mut store, &settings, &owner("a.exe"), &image_snapshot(png.clone(), "public.png"), 10);
    let uuid = match r {
        IngestOutcome::Stored { upsert: UpsertOutcome::Inserted { uuid, .. }, .. } => uuid,
        other => panic!("unexpected {:?}", other),
    };
    assert_eq!(uuid.len(), 36);
    assert_eq!(store.len(), 1);
    let row = store.get(0).clone();
    assert_eq!(row.clip_type, ClipType::Image);
    assert_eq!(row.text_preview, "[Image]");
    assert!(row.is_thumbnail);
    let thumb = image::load_from_memory(&row.content).unwrap();
    assert_eq!((thumb.width(), thumb.height()), (256, 128));
    let meta = row.metadata.clone().unwrap();
    assert!(meta.starts_with("{\"format\":\"png\",\"height\":300,\"size_bytes\":"));
    assert!(meta.ends_with(",\"width\":600}"));
    assert_ne!(row.content_hash, calculate_hash(&png));

    // An unrelated copy in between, then the same picture saved as BMP.
    ingest_clipboard_change(&mut coord, &mut store, &settings, &owner("a.exe"), &text_snapshot("between"), 15);
    let bmp = encoded(600, 300, image::ImageOutputFormat::Bmp);
    let r = ingest_clipboard_change(&mut coord, &mut store, &settings, &owner("b.exe"), &image_snapshot(bmp, "public.bmp"), 20);
    match r {
        IngestOutcome::Stored { upsert: UpsertOutcome::Updated { uuid: again, id }, .. } => {
            assert_eq!(again, uuid);
            assert_eq!(id, row.id);
        }
        other => panic!("unexpected {:?}", other),
    }
    assert_eq!(store.len(), 2);
    assert_eq!(store.get(0).created_at, 20);
    assert_eq!(store.get(0).source_app.as_deref(), Some("b.exe"));
    assert_eq!(store.get(0).uuid, uuid);
}

#[test]
fn undecodable_candidate_falls_through_to_the_next() {
    let mut coord = IngestionCoordinator::new();
    let mut store = ClipStore::new();
    let settings = AppSettings::default();
    let snap = ClipboardSnapshot {
        image_candidates: vec![
            ImageCandidate { source_type: "public.png".to_string(), bytes: b"not an image".to_vec() },
            ImageCandidate { source_type: "public.bmp".to_string(), bytes: encoded(8, 4, image::ImageOutputFormat::Bmp) },
        ],
        text: Some("text".to_string()),
    };
    let r = ingest_clipboard_change(&mut coord, &mut store, &settings, &owner("a.exe"), &snap, 1);
    assert!(matches!(r, IngestOutcome::Stored { .. }));
    assert_eq!(store.get(0).clip_type, ClipType::Image);
    let only_bad = ClipboardSnapshot {
        image_candidates: vec![ImageCandidate { source_type: "public.png".to_string(), bytes: vec![1, 2, 3] }],
        text: Some(" fallback ".to_string()),
    };
    ingest_clipboard_change(&mut coord, &mut store, &settings, &owner("a.exe"), &only_bad, 2);
    assert_eq!(store.get(1).clip_type, ClipType::Text);
    assert_eq!(store.get(1).content, b"fallback".to_vec());
}

#[test]
fn full_image_goes_to_file_or_falls_back_to_blob() {
    let mut store = ClipStore::new();
    store.record_full_image("u-1".to_string(), vec![1, 2, 3], Some("/data/u-1.png".to_string()), 5);
    store.record_full_image("u-2".to_string(), vec![4, 5], None, 6);
    store.record_full_image("u-1".to_string(), vec![9; 10], None, 7);
    let first = store.full_image(&"u-1".to_string()).unwrap();
    assert!(matches!(first.storage, ImageStorage::Db(ref b) if *b == vec![9; 10]));
    assert_eq!(first.file_size, 10);
    assert_eq!(first.created_at, 7);
    assert_eq!(first.mime_type, "image/png");
    let second = store.full_image(&"u-2".to_string()).unwrap();
    assert!(matches!(second.storage, ImageStorage::Db(ref b) if *b == vec![4, 5]));
    assert!(store.full_image(&"u-3".to_string()).is_none());
    store.record_full_image("u-3".to_string(), vec![7; 4], Some("/data/u-3.png".to_string()), 8);
    let third = store.full_image(&"u-3".to_string()).unwrap();
    assert!(matches!(third.storage, ImageStorage::File(ref p) if p == "/data/u-3.png"));
    assert_eq!(third.file_size, 4);
}

#[test]
fn hard_delete_reports_the_orphaned_image_file() {
    let mut coord = IngestionCoordinator::new();
    let mut store = ClipStore::new();
    let settings = AppSettings::default();
    process_clipboard_change(&mut coord, &mut store, &settings, &owner("a.exe"), text_entry("one"), 1, "u-1".to_string());
    process_clipboard_change(&mut coord, &mut store, &settings, &owner("a.exe"), text_entry("two"), 2, "u-2".to_string());
    process_clipboard_change(&mut coord, &mut store, &settings, &owner("a.exe"), text_entry("three"), 3, "u-3".to_string());
    store.record_full_image("u-1".to_string(), vec![1], Some("/img/u-1.png".to_string()), 1);
    store.record_full_image("u-2".to_string(), vec![2], None, 2);
    assert_eq!(store.hard_delete_clip(1), Some(Some("/img/u-1.png".to_string())));
    assert!(store.full_image(&"u-1".to_string()).is_none());
    assert_eq!(store.hard_delete_clip(2), Some(None));
    assert!(store.full_image(&"u-2".to_string()).is_none());
    assert_eq!(store.hard_delete_clip(3), Some(None));
    assert_eq!(store.hard_delete_clip(3), None);
    assert_eq!(store.len(), 0);
    // The content can come back as a fresh row.
    let r = process_clipboard_change(&mut coord, &mut store, &settings, &owner("a.exe"), text_entry("one"), 9, "u-9".to_string());
    assert!(matches!(r, IngestOutcome::Stored { upsert: UpsertOutcome::Inserted { id: 4, .. }, .. }));
}
