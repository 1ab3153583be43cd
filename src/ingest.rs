use vstd::prelude::*;
use vstd::string::*;
use crate::attribution::OwnerInfo;
use crate::debounce::{outcome_of, DebounceOutcome, Debouncer};
use crate::imaging::{
    create_image_thumbnail, image_metadata_json, read_clipboard_image_fast, ClipboardImageRead,
    ImageCandidate, THUMBNAIL_MAX_EDGE,
};
use crate::models::AppSettings;
use crate::policy::{passes_policy, policy_allows};
use crate::store::{
    has_hash, hash_index, new_clip, refreshed, ClipEntry, ClipStore, ClipType, UpsertOutcome,
};
use crate::imaging::{read_from, readable, thumbnail_of, image_metadata};
use crate::text::{extract_text, preview_of, trimmed};
use crate::hashing::content_hash_of;
use vstd::utf8::encode_utf8;

verus! {

/// Process-wide ingestion state: the debounce generation, the last stable
/// hash and the one-shot ignore token left by a paste-back.
pub struct IngestionCoordinator {
    debouncer: Debouncer,
    last_stable_hash: Option<String>,
    ignore_hash: Option<String>,
}

pub open spec fn hash_view(h: Option<String>) -> Option<Seq<char>> {
    match h {
        Some(s) => Some(s@),
        None => None,
    }
}

impl IngestionCoordinator {
    pub closed spec fn generation(&self) -> u64 {
        self.debouncer.generation()
    }

    pub closed spec fn last_stable(&self) -> Option<Seq<char>> {
        hash_view(self.last_stable_hash)
    }

    pub closed spec fn ignore_token(&self) -> Option<Seq<char>> {
        hash_view(self.ignore_hash)
    }

    pub fn new() -> (r: IngestionCoordinator)
        ensures
            r.generation() == 0,
            r.last_stable() is None,
            r.ignore_token() is None,
    {
        IngestionCoordinator { debouncer: Debouncer::new(), last_stable_hash: None, ignore_hash: None }
    }

    /// The number of change notifications registered so far.
    pub fn current_generation(&self) -> (r: u64)
        ensures
            r == self.generation(),
    {
        self.debouncer.current_generation()
    }

    /// Registers a raw change notification; the returned ticket is checked
    /// with `settle` once the debounce delay has passed.
    pub fn on_clipboard_event(&mut self) -> (ticket: u64)
        requires
            old(self).generation() < u64::MAX,
        ensures
            final(self).generation() == old(self).generation() + 1,
            ticket == final(self).generation(),
            final(self).last_stable() == old(self).last_stable(),
            final(self).ignore_token() == old(self).ignore_token(),
    {
        self.debouncer.register_event()
    }

    /// Whether the event holding `ticket` is still the newest.
    pub fn settle(&self, ticket: u64) -> (r: DebounceOutcome)
        ensures
            r == outcome_of(self.generation(), ticket),
    {
        self.debouncer.settle(ticket)
    }
}

/// Arms the one-shot ignore token, just before the application writes `hash`'s
/// content to the clipboard itself.
pub fn set_ignore_hash(coordinator: &mut IngestionCoordinator, hash: String)
    ensures
        final(coordinator).ignore_token() == Some(hash@),
        final(coordinator).last_stable() == old(coordinator).last_stable(),
        final(coordinator).generation() == old(coordinator).generation(),
{
    coordinator.ignore_hash = Some(hash);
}

/// Records `hash` as the last stable content.
pub fn set_last_stable_hash(coordinator: &mut IngestionCoordinator, hash: String)
    ensures
        final(coordinator).last_stable() == Some(hash@),
        final(coordinator).ignore_token() == old(coordinator).ignore_token(),
        final(coordinator).generation() == old(coordinator).generation(),
{
    coordinator.last_stable_hash = Some(hash);
}

/// What one ingestion attempt came to.
#[derive(Debug, Clone)]
pub enum IngestOutcome {
    /// The clipboard held nothing to keep.
    NoContent,
    /// The hash equals the last stable hash: nothing was written.
    Unchanged,
    /// A policy gate dropped the clip: nothing was written.
    Filtered,
    /// The store was written.
    Stored {
        upsert: UpsertOutcome,
        /// Whether the content was the application's own paste-back.
        self_paste: bool,
        /// For an image, the full PNG, to be kept beside the row.
        full_image: Option<Vec<u8>>,
    },
}

/// Runs one settled clipboard change through the filters and into the store:
/// skipped when its hash equals the last stable hash; otherwise the hash
/// becomes the last stable one, the ignore token is consumed (a match still
/// proceeds and is reported), the policy gates apply, and the clip is upserted
/// under its content hash.
pub fn process_clipboard_change(
    coordinator: &mut IngestionCoordinator,
    store: &mut ClipStore,
    settings: &AppSettings,
    owner: &OwnerInfo,
    entry: ClipEntry,
    now: i64,
    new_uuid: String,
) -> (r: IngestOutcome)
    requires
        old(store).wf(),
    ensures
        final(store).wf(),
        final(coordinator).generation() == old(coordinator).generation(),
        old(coordinator).last_stable() == Some(entry.hash@) ==> {
            &&& r is Unchanged
            &&& *final(store) == *old(store)
            &&& final(coordinator).last_stable() == old(coordinator).last_stable()
            &&& final(coordinator).ignore_token() == old(coordinator).ignore_token()
        },
        old(coordinator).last_stable() != Some(entry.hash@) ==> {
            &&& final(coordinator).last_stable() == Some(entry.hash@)
            &&& final(coordinator).ignore_token() is None
            &&& if !policy_allows(settings.ignore_ghost_clips, settings.ignored_apps@, *owner) {
                &&& r is Filtered
                &&& *final(store) == *old(store)
            } else {
                &&& r matches IngestOutcome::Stored { upsert, self_paste, full_image }
                    && self_paste == (old(coordinator).ignore_token() == Some(entry.hash@))
                    && full_image == entry.full_image
                &&& final(store).images() == old(store).images()
                &&& has_hash(old(store).clips(), entry.hash@) ==> {
                    let k = hash_index(old(store).clips(), entry.hash@);
                    let c = old(store).clips()[k];
                    &&& final(store).clips() == old(store).clips().update(k, refreshed(c, entry, *owner, now))
                    &&& r matches IngestOutcome::Stored { upsert, .. }
                        && upsert matches UpsertOutcome::Updated { id, uuid } && id == c.id && uuid == c.uuid
                }
                &&& !has_hash(old(store).clips(), entry.hash@) ==> {
                    if old(store).next_id() == i64::MAX || crate::store::has_uuid(old(store).clips(), new_uuid@) {
                        final(store).clips() == old(store).clips()
                    } else {
                        final(store).clips() == old(store).clips().push(
                            new_clip(old(store).next_id(), new_uuid, entry, *owner, now),
                        )
                    }
                }
            }
        },
{
    if let Some(last) = &coordinator.last_stable_hash {
        if *last == entry.hash {
            return IngestOutcome::Unchanged;
        }
    }
    coordinator.last_stable_hash = Some(entry.hash.clone());
    let token = coordinator.ignore_hash.take();
    let self_paste = match &token {
        Some(t) => *t == entry.hash,
        None => false,
    };
    if !passes_policy(settings, owner) {
        return IngestOutcome::Filtered;
    }
    let mut entry = entry;
    let full_image = entry.full_image.take();
    let upsert = store.upsert_clip(entry, owner, now, new_uuid);
    IngestOutcome::Stored { upsert, self_paste, full_image }
}

/// Placeholder preview of an image clip.
pub const IMAGE_PREVIEW: &'static str = "[Image]";

/// What the clipboard offered at a settled change.
#[derive(Debug, Clone)]
pub struct ClipboardSnapshot {
    /// Image representations, in the order they should be tried.
    pub image_candidates: Vec<ImageCandidate>,
    /// The text representation, if any.
    pub text: Option<String>,
}

/// `e` is the image clip made from `x`: the thumbnail (or, when none can be
/// made, the full PNG) as content, the full PNG kept apart, the pixel hash as
/// key, and the image's description as metadata.
pub open spec fn image_entry_of(e: ClipEntry, x: ClipboardImageRead) -> bool {
    let thumb = match thumbnail_of(x.png_bytes@, THUMBNAIL_MAX_EDGE) {
        Some(t) => t,
        None => x.png_bytes@,
    };
    &&& e.clip_type == ClipType::Image
    &&& e.content@ == thumb
    &&& e.full_image matches Some(f) && f@ == x.png_bytes@
    &&& e.preview@ == IMAGE_PREVIEW@
    &&& e.hash == x.raw_hash
    &&& e.metadata matches Some(m) && m@ == image_metadata(
        x.width as nat,
        x.height as nat,
        x.png_bytes@.len(),
        thumb.len(),
    )
}

/// `e` is the text clip made from raw text `t`.
pub open spec fn text_entry_of(e: ClipEntry, t: Seq<char>) -> bool {
    &&& e.clip_type == ClipType::Text
    &&& e.content@ == encode_utf8(trimmed(t))
    &&& e.full_image is None
    &&& e.preview@ == preview_of(trimmed(t))
    &&& e.hash@ == content_hash_of(encode_utf8(trimmed(t)))
    &&& e.metadata is None
}

/// Whether the snapshot offers a decodable image.
pub open spec fn has_image(s: ClipboardSnapshot) -> bool {
    exists|i: int| 0 <= i < s.image_candidates@.len() && readable(#[trigger] s.image_candidates@[i].bytes@)
}

/// Whether the snapshot offers nothing to keep: no decodable image, and no
/// text with anything left after trimming.
pub open spec fn no_content(s: ClipboardSnapshot) -> bool {
    &&& !has_image(s)
    &&& match s.text {
        Some(t) => trimmed(t@).len() == 0,
        None => true,
    }
}

/// `e` is what the snapshot yields: the first decodable image wins; text is
/// used only when there is none.
pub open spec fn extracted(s: ClipboardSnapshot, e: ClipEntry) -> bool {
    if has_image(s) {
        exists|i: int, x: ClipboardImageRead| 0 <= i < s.image_candidates@.len() && {
            &&& #[trigger] read_from(x, s.image_candidates@[i])
            &&& forall|j: int| 0 <= j < i ==> !readable(#[trigger] s.image_candidates@[j].bytes@)
            &&& image_entry_of(e, x)
        }
    } else {
        s.text matches Some(t) && text_entry_of(e, t@)
    }
}

/// Builds the image clip for `x`.
pub fn image_entry(x: ClipboardImageRead) -> (e: ClipEntry)
    ensures
        image_entry_of(e, x),
{
    let thumb = match create_image_thumbnail(x.png_bytes.as_slice(), THUMBNAIL_MAX_EDGE) {
        Ok(t) => t,
        Err(_) => {
            let copy = x.png_bytes.clone();
            assert(copy@ =~= x.png_bytes@);
            copy
        },
    };
    let metadata = image_metadata_json(x.width, x.height, x.png_bytes.len() as u64, thumb.len() as u64);
    ClipEntry {
        clip_type: ClipType::Image,
        content: thumb,
        full_image: Some(x.png_bytes),
        preview: IMAGE_PREVIEW.to_owned(),
        hash: x.raw_hash,
        metadata: Some(metadata),
    }
}

/// Reads a snapshot: images are probed before text, and text is trimmed, with
/// nothing kept when nothing is left.
pub fn extract_content(snapshot: &ClipboardSnapshot) -> (r: Option<ClipEntry>)
    ensures
        r is None <==> no_content(*snapshot),
        r matches Some(e) ==> extracted(*snapshot, e),
{
    match read_clipboard_image_fast(&snapshot.image_candidates) {
        Ok(x) => {
            let ghost xs = x;
            let e = image_entry(x);
            assert(extracted(*snapshot, e)) by {
                let i = choose|i: int| 0 <= i < snapshot.image_candidates@.len() && {
                    &&& read_from(xs, #[trigger] snapshot.image_candidates@[i])
                    &&& forall|j: int| 0 <= j < i ==> !readable(#[trigger] snapshot.image_candidates@[j].bytes@)
                };
                assert(image_entry_of(e, xs));
            }
            Some(e)
        },
        Err(_) => match &snapshot.text {
            None => None,
            Some(t) => match extract_text(t.as_str()) {
                None => None,
                Some(tc) => Some(ClipEntry {
                    clip_type: ClipType::Text,
                    content: tc.bytes,
                    full_image: None,
                    preview: tc.preview,
                    hash: tc.hash,
                    metadata: None,
                }),
            },
        },
    }
}

/// Relies on `uuid::Uuid::new_v4` and its `Display`: a random version-4 uuid in
/// hyphenated form, 36 characters.
#[verifier::external_body]
fn new_uuid() -> (r: String)
    ensures
        r@.len() == 36,
{
    uuid::Uuid::new_v4().to_string()
}

/// Handles one settled clipboard change end to end: reads the snapshot, and,
/// when it holds something, runs it through `process_clipboard_change` under a
/// fresh random uuid.
pub fn ingest_clipboard_change(
    coordinator: &mut IngestionCoordinator,
    store: &mut ClipStore,
    settings: &AppSettings,
    owner: &OwnerInfo,
    snapshot: &ClipboardSnapshot,
    now: i64,
) -> (r: IngestOutcome)
    requires
        old(store).wf(),
    ensures
        final(store).wf(),
        final(coordinator).generation() == old(coordinator).generation(),
        no_content(*snapshot) ==> {
            &&& r is NoContent
            &&& *final(store) == *old(store)
            &&& *final(coordinator) == *old(coordinator)
        },
        !no_content(*snapshot) ==> exists|e: ClipEntry| {
            &&& #[trigger] extracted(*snapshot, e)
            &&& old(coordinator).last_stable() == Some(e.hash@) ==> {
                &&& r is Unchanged
                &&& *final(store) == *old(store)
            }
            &&& old(coordinator).last_stable() != Some(e.hash@)
                && !policy_allows(settings.ignore_ghost_clips, settings.ignored_apps@, *owner) ==> {
                &&& r is Filtered
                &&& *final(store) == *old(store)
            }
            &&& old(coordinator).last_stable() != Some(e.hash@)
                && policy_allows(settings.ignore_ghost_clips, settings.ignored_apps@, *owner) ==> {
                &&& r is Stored
                &&& final(store).images() == old(store).images()
                &&& has_hash(old(store).clips(), e.hash@) ==> {
                    let k = hash_index(old(store).clips(), e.hash@);
                    final(store).clips() == old(store).clips().update(
                        k,
                        refreshed(old(store).clips()[k], e, *owner, now),
                    )
                }
                &&& !has_hash(old(store).clips(), e.hash@) ==> {
                    ||| final(store).clips() == old(store).clips()
                    ||| exists|u: String| u@.len() == 36 && final(store).clips() == old(store).clips().push(
                        #[trigger] new_clip(old(store).next_id(), u, e, *owner, now),
                    )
                }
            }
        },
{
    match extract_content(snapshot) {
        None => IngestOutcome::NoContent,
        Some(entry) => {
            let ghost e = entry;
            let uuid = new_uuid();
            let ghost u = uuid;
            let r = process_clipboard_change(coordinator, store, settings, owner, entry, now, uuid);
            assert(extracted(*snapshot, e));
            assert(u@.len() == 36);
            r
        },
    }
}

} // verus!
