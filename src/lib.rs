//! Clipboard ingestion core: debouncing, content extraction, content-addressed
//! hashing, self-paste suppression, source attribution, policy filtering and the
//! deduplicating upsert against the clip store.

mod ai;
mod attribution;
mod debounce;
mod hashing;
mod imaging;
mod items;
mod legacy;
mod ingest;
mod models;
mod module_info;
mod ordering;
mod paste;
mod policy;
mod store;
mod text;

pub use ai::{chat_completions_url, system_prompt, trim_trailing_slashes, AiAction, AiConfig};
pub use attribution::{
    get_clipboard_owner_app_info, get_frontmost_app_info, is_own_app, AppSnapshot,
    FrontmostTracker, OwnerInfo, OwnerProbe, ProcessProbe,
};
pub use debounce::{lemma_burst_settles_on_last, DebounceOutcome, Debouncer};
pub use hashing::{calculate_hash, lemma_hash_deterministic};
pub use imaging::{
    create_image_thumbnail, image_metadata_json, read_clipboard_image_fast, thumbnail_dimensions,
    ClipboardImageRead, ImageCandidate, RgbaImage,
};
pub use items::{clip_to_item, clip_type_name, i64_to_decimal};
pub use ingest::{
    extract_content, image_entry, ingest_clipboard_change, process_clipboard_change,
    set_ignore_hash, set_last_stable_hash, ClipboardSnapshot, IngestOutcome, IngestionCoordinator,
};
pub use legacy::{
    apply_legacy_setting, parse_bool, parse_i64, replace_ignored_apps, same_text,
};
pub use models::{AppSettings, ClipboardItem, FolderItem, SettingsManager};
pub use module_info::{
    bgra_to_rgba, icon_png_base64, pick_description, pick_translation, version_queries,
};
pub use ordering::{sort_names, text_less_or_equal};
pub use paste::{
    is_accessibility_enabled, next_paste_step, paste_clip, should_send_paste_input, PastePayload,
    PasteStep, PASTE_RETRY_DELAY_MS, PASTE_WRITE_ATTEMPTS,
};
pub use policy::{is_ignored, lemma_ignored_owner_is_refused, passes_policy};
pub use store::{
    lemma_first_occurrence_adds_one_row, lemma_reoccurrence_updates_in_place, Clip, ClipEntry,
    ClipFullImage, ClipStore, ClipType, ImageStorage, UpsertOutcome,
};
pub use text::{extract_text, text_preview, TextContent};
