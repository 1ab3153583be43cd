use vstd::prelude::*;
use crate::attribution::OwnerInfo;

verus! {

/// Kind of a clip's payload.
#[derive(Debug, Clone, Copy, PartialEq, Eq, Structural)]
pub enum ClipType {
    Text,
    Image,
    Html,
    Url,
}

/// One stored clip. Times are seconds since the Unix epoch.
#[derive(Debug, Clone)]
pub struct Clip {
    pub id: i64,
    /// Stable public identity; never changes once assigned.
    pub uuid: String,
    pub clip_type: ClipType,
    /// The text's bytes, or for an image its thumbnail.
    pub content: Vec<u8>,
    pub text_preview: String,
    /// Content hash: the deduplication key.
    pub content_hash: String,
    pub folder_id: Option<i64>,
    pub is_deleted: bool,
    /// Whether `content` is a downscaled surrogate of a full image kept apart.
    pub is_thumbnail: bool,
    pub source_app: Option<String>,
    pub source_icon: Option<String>,
    pub metadata: Option<String>,
    /// Recency marker, moved forward on every re-occurrence.
    pub created_at: i64,
    pub last_accessed: i64,
}

/// A clip as read from the clipboard, ready to be stored.
#[derive(Debug, Clone)]
pub struct ClipEntry {
    pub clip_type: ClipType,
    /// The text's bytes, or for an image its thumbnail.
    pub content: Vec<u8>,
    /// For an image, the full canonical PNG.
    pub full_image: Option<Vec<u8>>,
    pub preview: String,
    pub hash: String,
    /// For an image, its description as JSON.
    pub metadata: Option<String>,
}

/// Where the full-fidelity bytes of an image clip are kept.
#[derive(Debug, Clone)]
pub enum ImageStorage {
    /// In a file at this path.
    File(String),
    /// In the record itself.
    Db(Vec<u8>),
}

/// Companion record holding the full image of an image clip.
#[derive(Debug, Clone)]
pub struct ClipFullImage {
    pub clip_uuid: String,
    pub storage: ImageStorage,
    pub file_size: usize,
    pub mime_type: String,
    pub created_at: i64,
}

/// What an upsert did.
#[derive(Debug, Clone)]
pub enum UpsertOutcome {
    /// The row with the same content hash was refreshed.
    Updated { id: i64, uuid: String },
    /// A new row was added.
    Inserted { id: i64, uuid: String },
    /// Nothing was written: the uuid was taken or no id was left.
    Rejected,
}

/// The row that a first occurrence of `e` becomes.
pub open spec fn new_clip(id: i64, uuid: String, e: ClipEntry, owner: OwnerInfo, now: i64) -> Clip {
    Clip {
        id,
        uuid,
        clip_type: e.clip_type,
        content: e.content,
        text_preview: e.preview,
        content_hash: e.hash,
        folder_id: None,
        is_deleted: false,
        is_thumbnail: e.clip_type == ClipType::Image,
        source_app: owner.display_name,
        source_icon: owner.icon,
        metadata: if e.clip_type == ClipType::Image { e.metadata } else { None },
        created_at: now,
        last_accessed: now,
    }
}

/// The row `c` after a re-occurrence of its content: recency bump, tombstone
/// cleared, attribution refreshed, and for an image the thumbnail and metadata
/// replaced.
pub open spec fn refreshed(c: Clip, e: ClipEntry, owner: OwnerInfo, now: i64) -> Clip {
    if e.clip_type == ClipType::Image {
        Clip {
            created_at: now,
            is_deleted: false,
            source_app: owner.display_name,
            source_icon: owner.icon,
            content: e.content,
            text_preview: e.preview,
            metadata: e.metadata,
            is_thumbnail: true,
            ..c
        }
    } else {
        Clip {
            created_at: now,
            is_deleted: false,
            source_app: owner.display_name,
            source_icon: owner.icon,
            ..c
        }
    }
}

/// Whether some row of `clips` has content hash `h`.
pub open spec fn has_hash(clips: Seq<Clip>, h: Seq<char>) -> bool {
    exists|k: int| 0 <= k < clips.len() && (#[trigger] clips[k]).content_hash@ == h
}

/// The row holding content hash `h`.
pub open spec fn hash_index(clips: Seq<Clip>, h: Seq<char>) -> int {
    choose|k: int| 0 <= k < clips.len() && (#[trigger] clips[k]).content_hash@ == h
}

/// Whether some row of `clips` has uuid `u`.
pub open spec fn has_uuid(clips: Seq<Clip>, u: Seq<char>) -> bool {
    exists|k: int| 0 <= k < clips.len() && (#[trigger] clips[k]).uuid@ == u
}

/// Rows are told apart by id, by uuid and by content hash, and every id lies
/// below the next one to be handed out.
pub open spec fn clips_wf(clips: Seq<Clip>, next_id: i64) -> bool {
    &&& next_id >= 1
    &&& forall|k: int| 0 <= k < clips.len() ==> 1 <= (#[trigger] clips[k]).id < next_id
    &&& forall|i: int, j: int|
        0 <= i < clips.len() && 0 <= j < clips.len() && i != j ==> {
            &&& (#[trigger] clips[i]).id != (#[trigger] clips[j]).id
            &&& clips[i].uuid@ != clips[j].uuid@
            &&& clips[i].content_hash@ != clips[j].content_hash@
        }
}

/// In-memory model of the clip store: one row per content hash, and at most one
/// full-image record per clip.
pub struct ClipStore {
    clips: Vec<Clip>,
    images: Vec<ClipFullImage>,
    next_id: i64,
}

impl ClipStore {
    pub closed spec fn clips(&self) -> Seq<Clip> {
        self.clips@
    }

    pub closed spec fn images(&self) -> Seq<ClipFullImage> {
        self.images@
    }

    pub closed spec fn next_id(&self) -> i64 {
        self.next_id
    }

    pub open spec fn wf(&self) -> bool {
        &&& clips_wf(self.clips(), self.next_id())
        &&& forall|i: int, j: int|
            0 <= i < self.images().len() && 0 <= j < self.images().len() && i != j
                ==> (#[trigger] self.images()[i]).clip_uuid@ != (#[trigger] self.images()[j]).clip_uuid@
    }

    pub fn new() -> (r: ClipStore)
        ensures
            r.wf(),
            r.clips().len() == 0,
            r.images().len() == 0,
    {
        ClipStore { clips: Vec::new(), images: Vec::new(), next_id: 1 }
    }

    /// Number of rows, deleted ones included.
    pub fn len(&self) -> (r: usize)
        ensures
            r == self.clips().len(),
    {
        self.clips.len()
    }

    /// The row at position `i`.
    pub fn get(&self, i: usize) -> (r: &Clip)
        requires
            i < self.clips().len(),
        ensures
            *r == self.clips()[i as int],
    {
        &self.clips[i]
    }

    /// Position of the row holding content hash `hash`, deleted or not.
    pub fn find_by_hash(&self, hash: &String) -> (r: Option<usize>)
        requires
            self.wf(),
        ensures
            r is None <==> !has_hash(self.clips(), hash@),
            r matches Some(k) ==> k == hash_index(self.clips(), hash@)
                && k < self.clips().len(),
    {
        let mut i: usize = 0;
        while i < self.clips.len()
            invariant
                self.wf(),
                i <= self.clips@.len(),
                forall|j: int| 0 <= j < i ==> (#[trigger] self.clips@[j]).content_hash@ != hash@,
            decreases self.clips@.len() - i,
        {
            if self.clips[i].content_hash == *hash {
                let ghost k = hash_index(self.clips@, hash@);
                assert(self.clips@[k].content_hash@ == hash@);
                proof {
                    if k != i as int {
                        assert(self.clips@[k].content_hash@ != self.clips@[i as int].content_hash@);
                    }
                }
                return Some(i);
            }
            i = i + 1;
        }
        None
    }

    fn uuid_taken(&self, uuid: &String) -> (r: bool)
        ensures
            r == has_uuid(self.clips(), uuid@),
    {
        let mut i: usize = 0;
        while i < self.clips.len()
            invariant
                i <= self.clips@.len(),
                forall|j: int| 0 <= j < i ==> (#[trigger] self.clips@[j]).uuid@ != uuid@,
            decreases self.clips@.len() - i,
        {
            if self.clips[i].uuid == *uuid {
                return true;
            }
            i = i + 1;
        }
        false
    }

    /// Stores `entry`: refreshes the row with the same content hash if there is
    /// one (deleted or not), keeping its id and uuid; otherwise adds a row
    /// under `new_uuid` and the next id.
    pub fn upsert_clip(&mut self, entry: ClipEntry, owner: &OwnerInfo, now: i64, new_uuid: String) -> (r: UpsertOutcome)
        requires
            old(self).wf(),
        ensures
            final(self).wf(),
            final(self).images() == old(self).images(),
            has_hash(old(self).clips(), entry.hash@) ==> {
                let k = hash_index(old(self).clips(), entry.hash@);
                let c = old(self).clips()[k];
                &&& final(self).clips() == old(self).clips().update(k, refreshed(c, entry, *owner, now))
                &&& r matches UpsertOutcome::Updated { id, uuid } && id == c.id && uuid == c.uuid
            },
            !has_hash(old(self).clips(), entry.hash@) ==> {
                if old(self).next_id() == i64::MAX || has_uuid(old(self).clips(), new_uuid@) {
                    &&& final(self).clips() == old(self).clips()
                    &&& r is Rejected
                } else {
                    &&& final(self).clips() == old(self).clips().push(
                        new_clip(old(self).next_id(), new_uuid, entry, *owner, now),
                    )
                    &&& r matches UpsertOutcome::Inserted { id, uuid }
                        && id == old(self).next_id() && uuid == new_uuid
                }
            },
    {
        match self.find_by_hash(&entry.hash) {
            Some(k) => {
                let ghost before = self.clips@;
                let id = self.clips[k].id;
                let uuid = self.clips[k].uuid.clone();
                let is_image = entry.clip_type == ClipType::Image;
                self.clips[k].created_at = now;
                self.clips[k].is_deleted = false;
                self.clips[k].source_app = owner.display_name.clone();
                self.clips[k].source_icon = owner.icon.clone();
                if is_image {
                    self.clips[k].content = entry.content;
                    self.clips[k].text_preview = entry.preview;
                    self.clips[k].metadata = entry.metadata;
                    self.clips[k].is_thumbnail = true;
                }
                assert(self.clips@ =~= before.update(k as int, refreshed(before[k as int], entry, *owner, now)));
                assert forall|i: int, j: int|
                    0 <= i < self.clips@.len() && 0 <= j < self.clips@.len() && i != j implies {
                        &&& (#[trigger] self.clips@[i]).id != (#[trigger] self.clips@[j]).id
                        &&& self.clips@[i].uuid@ != self.clips@[j].uuid@
                        &&& self.clips@[i].content_hash@ != self.clips@[j].content_hash@
                    } by {
                    assert(before[i].id != before[j].id);
                }
                assert forall|m: int| 0 <= m < self.clips@.len() implies 1 <= (#[trigger] self.clips@[m]).id < self.next_id by {
                    assert(1 <= before[m].id < self.next_id);
                }
                UpsertOutcome::Updated { id, uuid }
            },
            None => {
                if self.next_id == i64::MAX || self.uuid_taken(&new_uuid) {
                    return UpsertOutcome::Rejected;
                }
                let id = self.next_id;
                let is_image = entry.clip_type == ClipType::Image;
                let row = Clip {
                    id,
                    uuid: new_uuid.clone(),
                    clip_type: entry.clip_type,
                    content: entry.content,
                    text_preview: entry.preview,
                    content_hash: entry.hash,
                    folder_id: None,
                    is_deleted: false,
                    is_thumbnail: is_image,
                    source_app: owner.display_name.clone(),
                    source_icon: owner.icon.clone(),
                    metadata: if is_image { entry.metadata } else { None },
                    created_at: now,
                    last_accessed: now,
                };
                let ghost before = self.clips@;
                self.clips.push(row);
                self.next_id = id + 1;
                assert forall|i: int, j: int|
                    0 <= i < self.clips@.len() && 0 <= j < self.clips@.len() && i != j implies {
                        &&& (#[trigger] self.clips@[i]).id != (#[trigger] self.clips@[j]).id
                        &&& self.clips@[i].uuid@ != self.clips@[j].uuid@
                        &&& self.clips@[i].content_hash@ != self.clips@[j].content_hash@
                    } by {
                    if i == before.len() {
                        assert(before[j].id < id);
                        assert(before[j] == self.clips@[j]);
                    } else if j == before.len() {
                        assert(before[i].id < id);
                        assert(before[i] == self.clips@[i]);
                    } else {
                        assert(before[i] == self.clips@[i]);
                        assert(before[j] == self.clips@[j]);
                    }
                }
                assert forall|m: int| 0 <= m < self.clips@.len() implies 1 <= (#[trigger] self.clips@[m]).id < self.next_id by {
                    if m < before.len() {
                        assert(before[m] == self.clips@[m]);
                    }
                }
                UpsertOutcome::Inserted { id, uuid: new_uuid }
            },
        }
    }

    /// Soft-deletes the row with id `id`; returns whether there was one.
    pub fn delete_clip(&mut self, id: i64) -> (found: bool)
        requires
            old(self).wf(),
        ensures
            final(self).wf(),
            final(self).images() == old(self).images(),
            final(self).clips().len() == old(self).clips().len(),
            found == exists|k: int| 0 <= k < old(self).clips().len() && (#[trigger] old(self).clips()[k]).id == id,
            forall|k: int| 0 <= k < old(self).clips().len() ==> (#[trigger] final(self).clips()[k]) == if old(self).clips()[k].id == id {
                Clip { is_deleted: true, ..old(self).clips()[k] }
            } else {
                old(self).clips()[k]
            },
    {
        let mut i: usize = 0;
        while i < self.clips.len()
            invariant
                self.wf(),
                self.images@ == old(self).images@,
                self.next_id == old(self).next_id,
                i <= self.clips@.len(),
                self.clips@ == old(self).clips@,
                forall|j: int| 0 <= j < i ==> (#[trigger] self.clips@[j]).id != id,
            decreases self.clips@.len() - i,
        {
            if self.clips[i].id == id {
                let ghost before = self.clips@;
                self.clips[i].is_deleted = true;
                assert forall|k: int| 0 <= k < before.len() implies (#[trigger] self.clips@[k]) == if before[k].id == id {
                    Clip { is_deleted: true, ..before[k] }
                } else {
                    before[k]
                } by {
                    if k != i as int {
                        assert(before[k].id != before[i as int].id);
                    }
                }
                assert forall|a: int, b: int|
                    0 <= a < self.clips@.len() && 0 <= b < self.clips@.len() && a != b implies {
                        &&& (#[trigger] self.clips@[a]).id != (#[trigger] self.clips@[b]).id
                        &&& self.clips@[a].uuid@ != self.clips@[b].uuid@
                        &&& self.clips@[a].content_hash@ != self.clips@[b].content_hash@
                    } by {
                    assert(before[a].id != before[b].id);
                }
                assert forall|m: int| 0 <= m < self.clips@.len() implies 1 <= (#[trigger] self.clips@[m]).id < self.next_id by {
                    assert(1 <= before[m].id < self.next_id);
                }
                return true;
            }
            i = i + 1;
        }
        assert forall|k: int| 0 <= k < old(self).clips().len() implies (#[trigger] self.clips@[k]) == old(self).clips()[k] by {}
        false
    }

    /// Position of the row with uuid `uuid`, deleted or not.
    pub fn find_by_uuid(&self, uuid: &String) -> (r: Option<usize>)
        requires
            self.wf(),
        ensures
            r is None <==> !has_uuid(self.clips(), uuid@),
            r matches Some(k) ==> k < self.clips().len() && self.clips()[k as int].uuid@ == uuid@,
    {
        let mut i: usize = 0;
        while i < self.clips.len()
            invariant
                i <= self.clips@.len(),
                forall|j: int| 0 <= j < i ==> (#[trigger] self.clips@[j]).uuid@ != uuid@,
            decreases self.clips@.len() - i,
        {
            if self.clips[i].uuid == *uuid {
                return Some(i);
            }
            i = i + 1;
        }
        None
    }

    /// Moves the row at position `k` to the top of the recency order.
    pub fn bump_recency(&mut self, k: usize, now: i64)
        requires
            old(self).wf(),
            k < old(self).clips().len(),
        ensures
            final(self).wf(),
            final(self).images() == old(self).images(),
            final(self).clips() == old(self).clips().update(
                k as int,
                Clip { created_at: now, ..old(self).clips()[k as int] },
            ),
    {
        let ghost before = self.clips@;
        self.clips[k].created_at = now;
        assert(self.clips@ =~= before.update(k as int, Clip { created_at: now, ..before[k as int] }));
        assert forall|i: int, j: int|
            0 <= i < self.clips@.len() && 0 <= j < self.clips@.len() && i != j implies {
                &&& (#[trigger] self.clips@[i]).id != (#[trigger] self.clips@[j]).id
                &&& self.clips@[i].uuid@ != self.clips@[j].uuid@
                &&& self.clips@[i].content_hash@ != self.clips@[j].content_hash@
            } by {
            assert(before[i].id != before[j].id);
        }
        assert forall|m: int| 0 <= m < self.clips@.len() implies 1 <= (#[trigger] self.clips@[m]).id < self.next_id by {
            assert(1 <= before[m].id < self.next_id);
        }
    }

    /// The full-image record of clip `clip_uuid`, if any; readers branch on its
    /// storage to reach the bytes.
    pub fn full_image(&self, clip_uuid: &String) -> (r: Option<&ClipFullImage>)
        ensures
            r is None <==> !(exists|k: int| 0 <= k < self.images().len() && (#[trigger] self.images()[k]).clip_uuid@ == clip_uuid@),
            r matches Some(rec) ==> rec.clip_uuid@ == clip_uuid@ && self.images().contains(*rec),
    {
        match self.find_image(clip_uuid) {
            Some(k) => Some(&self.images[k]),
            None => None,
        }
    }

    /// Position of the row with id `id`.
    fn find_by_id(&self, id: i64) -> (r: Option<usize>)
        requires
            self.wf(),
        ensures
            r is None <==> !(exists|k: int| 0 <= k < self.clips().len() && (#[trigger] self.clips()[k]).id == id),
            r matches Some(k) ==> k < self.clips().len() && self.clips()[k as int].id == id,
    {
        let mut i: usize = 0;
        while i < self.clips.len()
            invariant
                i <= self.clips@.len(),
                forall|j: int| 0 <= j < i ==> (#[trigger] self.clips@[j]).id != id,
            decreases self.clips@.len() - i,
        {
            if self.clips[i].id == id {
                return Some(i);
            }
            i = i + 1;
        }
        None
    }

    /// Removes the row with id `id` for good, with its full-image record.
    /// Returns `None` when there is no such row; otherwise the path of the
    /// image file that is now orphaned and must be deleted, if the full image
    /// was kept in a file.
    pub fn hard_delete_clip(&mut self, id: i64) -> (r: Option<Option<String>>)
        requires
            old(self).wf(),
        ensures
            final(self).wf(),
            !(exists|k: int| 0 <= k < old(self).clips().len() && (#[trigger] old(self).clips()[k]).id == id) ==> {
                &&& r is None
                &&& *final(self) == *old(self)
            },
            forall|k: int| 0 <= k < old(self).clips().len() && (#[trigger] old(self).clips()[k]).id == id ==> {
                let u = old(self).clips()[k].uuid@;
                &&& final(self).clips() == old(self).clips().remove(k)
                &&& r is Some
                &&& !(exists|j: int| 0 <= j < final(self).images().len() && (#[trigger] final(self).images()[j]).clip_uuid@ == u)
                &&& forall|j: int| 0 <= j < old(self).images().len() && (#[trigger] old(self).images()[j]).clip_uuid@ == u ==> {
                    &&& final(self).images() == old(self).images().remove(j)
                    &&& r == Some(match old(self).images()[j].storage {
                        ImageStorage::File(p) => Some(p),
                        ImageStorage::Db(_) => None::<String>,
                    })
                }
                &&& !(exists|j: int| 0 <= j < old(self).images().len() && (#[trigger] old(self).images()[j]).clip_uuid@ == u) ==> {
                    &&& final(self).images() == old(self).images()
                    &&& r == Some(None::<String>)
                }
            },
    {
        let k = match self.find_by_id(id) {
            Some(k) => k,
            None => return None,
        };
        let ghost before = self.clips@;
        let ghost images_before = self.images@;
        proof {
            assert forall|m: int| 0 <= m < before.len() && (#[trigger] before[m]).id == id implies m == k as int by {
                if m != k as int {
                    assert(before[m].id != before[k as int].id);
                }
            }
        }
        let row = self.clips.remove(k);
        assert forall|i: int, j: int|
            0 <= i < self.clips@.len() && 0 <= j < self.clips@.len() && i != j implies {
                &&& (#[trigger] self.clips@[i]).id != (#[trigger] self.clips@[j]).id
                &&& self.clips@[i].uuid@ != self.clips@[j].uuid@
                &&& self.clips@[i].content_hash@ != self.clips@[j].content_hash@
            } by {
            let bi = if i < k as int { i } else { i + 1 };
            let bj = if j < k as int { j } else { j + 1 };
            assert(before[bi] == self.clips@[i]);
            assert(before[bj] == self.clips@[j]);
            assert(before[bi].id != before[bj].id);
        }
        assert forall|m: int| 0 <= m < self.clips@.len() implies 1 <= (#[trigger] self.clips@[m]).id < self.next_id by {
            let bm = if m < k as int { m } else { m + 1 };
            assert(before[bm] == self.clips@[m]);
        }
        let ghost u = row.uuid@;
        match self.find_image(&row.uuid) {
            None => Some(None),
            Some(j) => {
                proof {
                    assert forall|m: int| 0 <= m < images_before.len() && (#[trigger] images_before[m]).clip_uuid@ == u implies m == j as int by {
                        if m != j as int {
                            assert(images_before[m].clip_uuid@ != images_before[j as int].clip_uuid@);
                        }
                    }
                }
                let rec = self.images.remove(j);
                assert forall|a: int, b: int|
                    0 <= a < self.images@.len() && 0 <= b < self.images@.len() && a != b
                        implies (#[trigger] self.images@[a]).clip_uuid@ != (#[trigger] self.images@[b]).clip_uuid@ by {
                    let ba = if a < j as int { a } else { a + 1 };
                    let bb = if b < j as int { b } else { b + 1 };
                    assert(images_before[ba] == self.images@[a]);
                    assert(images_before[bb] == self.images@[b]);
                }
                assert forall|m: int| 0 <= m < self.images@.len() implies (#[trigger] self.images@[m]).clip_uuid@ != u by {
                    let bm = if m < j as int { m } else { m + 1 };
                    assert(images_before[bm] == self.images@[m]);
                    assert(images_before[bm].clip_uuid@ != images_before[j as int].clip_uuid@);
                }
                match rec.storage {
                    ImageStorage::File(p) => Some(Some(p)),
                    ImageStorage::Db(_) => Some(None),
                }
            },
        }
    }

    /// Position of the full-image record of clip `clip_uuid`.
    fn find_image(&self, clip_uuid: &String) -> (r: Option<usize>)
        ensures
            r is None <==> !(exists|k: int| 0 <= k < self.images().len() && (#[trigger] self.images()[k]).clip_uuid@ == clip_uuid@),
            r matches Some(k) ==> k < self.images().len() && self.images()[k as int].clip_uuid@ == clip_uuid@,
    {
        let mut i: usize = 0;
        while i < self.images.len()
            invariant
                i <= self.images@.len(),
                forall|j: int| 0 <= j < i ==> (#[trigger] self.images@[j]).clip_uuid@ != clip_uuid@,
            decreases self.images@.len() - i,
        {
            if self.images[i].clip_uuid == *clip_uuid {
                return Some(i);
            }
            i = i + 1;
        }
        None
    }

    /// Stores the full image of clip `clip_uuid`, replacing an earlier record of
    /// it: in the file at `file_path` when writing it succeeded, else in the
    /// record itself.
    pub fn record_full_image(&mut self, clip_uuid: String, png: Vec<u8>, file_path: Option<String>, now: i64)
        requires
            old(self).wf(),
        ensures
            final(self).wf(),
            final(self).clips() == old(self).clips(),
            exists|k: int| 0 <= k < final(self).images().len() && {
                let rec = #[trigger] final(self).images()[k];
                &&& full_image_record(rec, clip_uuid, png@, file_path, now)
                &&& if exists|j: int| 0 <= j < old(self).images().len() && (#[trigger] old(self).images()[j]).clip_uuid@ == clip_uuid@ {
                    final(self).images() == old(self).images().update(k, rec)
                } else {
                    final(self).images() == old(self).images().push(rec)
                }
            },
    {
        let size = png.len();
        let storage = match file_path {
            Some(path) => ImageStorage::File(path),
            None => ImageStorage::Db(png),
        };
        let rec = ClipFullImage {
            clip_uuid: clip_uuid.clone(),
            storage,
            file_size: size,
            mime_type: "image/png".to_owned(),
            created_at: now,
        };
        let ghost before = self.images@;
        match self.find_image(&clip_uuid) {
            Some(k) => {
                self.images.set(k, rec);
                assert(self.images@[k as int] == rec);
                assert forall|i: int, j: int|
                    0 <= i < self.images@.len() && 0 <= j < self.images@.len() && i != j
                        implies (#[trigger] self.images@[i]).clip_uuid@ != (#[trigger] self.images@[j]).clip_uuid@ by {
                    if i != k as int && j != k as int {
                        assert(before[i].clip_uuid@ != before[j].clip_uuid@);
                    } else if i == k as int {
                        assert(before[j].clip_uuid@ != before[k as int].clip_uuid@);
                    } else {
                        assert(before[i].clip_uuid@ != before[k as int].clip_uuid@);
                    }
                }
            },
            None => {
                self.images.push(rec);
                assert(self.images@[before.len() as int] == rec);
                assert forall|i: int, j: int|
                    0 <= i < self.images@.len() && 0 <= j < self.images@.len() && i != j
                        implies (#[trigger] self.images@[i]).clip_uuid@ != (#[trigger] self.images@[j]).clip_uuid@ by {
                    if i < before.len() && j < before.len() {
                        assert(before[i].clip_uuid@ != before[j].clip_uuid@);
                    } else if i < before.len() {
                        assert(before[i] == self.images@[i]);
                    } else {
                        assert(before[j] == self.images@[j]);
                    }
                }
            },
        }
    }
}

/// `rec` is the full-image record of clip `clip_uuid` holding `png`: file-backed
/// at `file_path` when there is one, else holding the bytes.
pub open spec fn full_image_record(rec: ClipFullImage, clip_uuid: String, png: Seq<u8>, file_path: Option<String>, now: i64) -> bool {
    &&& rec.clip_uuid == clip_uuid
    &&& rec.file_size == png.len()
    &&& rec.mime_type@ == "image/png"@
    &&& rec.created_at == now
    &&& match file_path {
        Some(p) => rec.storage == ImageStorage::File(p),
        None => rec.storage matches ImageStorage::Db(b) && b@ == png,
    }
}

/// A re-occurrence of stored content rewrites that row in place and adds none:
/// the row keeps its id, uuid, content hash, kind and folder; its recency
/// becomes `now`, its tombstone is cleared (a deleted row is resurrected) and
/// its attribution is the new owner's; a text row changes in nothing else, an
/// image row takes the new thumbnail and metadata; every other row is
/// untouched, and hashes stay unique.
pub proof fn lemma_reoccurrence_updates_in_place(
    clips: Seq<Clip>,
    next_id: i64,
    e: ClipEntry,
    owner: OwnerInfo,
    now: i64,
)
    requires
        clips_wf(clips, next_id),
        has_hash(clips, e.hash@),
    ensures
        ({
            let k = hash_index(clips, e.hash@);
            let old_row = clips[k];
            let after = clips.update(k, refreshed(old_row, e, owner, now));
            &&& after.len() == clips.len()
            &&& clips_wf(after, next_id)
            &&& after[k].id == old_row.id
            &&& after[k].uuid == old_row.uuid
            &&& after[k].content_hash == old_row.content_hash
            &&& after[k].clip_type == old_row.clip_type
            &&& after[k].folder_id == old_row.folder_id
            &&& after[k].created_at == now
            &&& !after[k].is_deleted
            &&& after[k].source_app == owner.display_name
            &&& after[k].source_icon == owner.icon
            &&& e.clip_type != ClipType::Image ==> {
                &&& after[k].content == old_row.content
                &&& after[k].text_preview == old_row.text_preview
                &&& after[k].metadata == old_row.metadata
                &&& after[k].is_thumbnail == old_row.is_thumbnail
            }
            &&& e.clip_type == ClipType::Image ==> {
                &&& after[k].content == e.content
                &&& after[k].metadata == e.metadata
                &&& after[k].is_thumbnail
            }
            &&& forall|j: int| 0 <= j < clips.len() && j != k ==> after[j] == clips[j]
        }),
{
    let k = hash_index(clips, e.hash@);
    let after = clips.update(k, refreshed(clips[k], e, owner, now));
    assert forall|i: int, j: int|
        0 <= i < after.len() && 0 <= j < after.len() && i != j implies {
            &&& (#[trigger] after[i]).id != (#[trigger] after[j]).id
            &&& after[i].uuid@ != after[j].uuid@
            &&& after[i].content_hash@ != after[j].content_hash@
        } by {
        assert(clips[i].id != clips[j].id);
    }
    assert forall|m: int| 0 <= m < after.len() implies 1 <= (#[trigger] after[m]).id < next_id by {
        assert(1 <= clips[m].id < next_id);
    }
}

/// A first occurrence adds exactly one row, holding the new content under the
/// given id and uuid, live and attributed to its owner, and leaves the others.
pub proof fn lemma_first_occurrence_adds_one_row(
    clips: Seq<Clip>,
    next_id: i64,
    e: ClipEntry,
    owner: OwnerInfo,
    now: i64,
    uuid: String,
)
    requires
        clips_wf(clips, next_id),
        next_id < i64::MAX,
        !has_hash(clips, e.hash@),
        !has_uuid(clips, uuid@),
    ensures
        ({
            let after = clips.push(new_clip(next_id, uuid, e, owner, now));
            &&& after.len() == clips.len() + 1
            &&& clips_wf(after, (next_id + 1) as i64)
            &&& after.last().content_hash == e.hash
            &&& after.last().uuid == uuid
            &&& !after.last().is_deleted
            &&& after.last().created_at == now
            &&& after.last().source_app == owner.display_name
            &&& has_hash(after, e.hash@)
        }),
{
    let after = clips.push(new_clip(next_id, uuid, e, owner, now));
    assert forall|i: int, j: int|
        0 <= i < after.len() && 0 <= j < after.len() && i != j implies {
            &&& (#[trigger] after[i]).id != (#[trigger] after[j]).id
            &&& after[i].uuid@ != after[j].uuid@
            &&& after[i].content_hash@ != after[j].content_hash@
        } by {
        if i < clips.len() && j < clips.len() {
            assert(clips[i].id != clips[j].id);
        } else if i < clips.len() {
            assert(1 <= clips[i].id < next_id);
            assert(after[i] == clips[i]);
        } else {
            assert(1 <= clips[j].id < next_id);
            assert(after[j] == clips[j]);
        }
    }
    assert forall|m: int| 0 <= m < after.len() implies 1 <= (#[trigger] after[m]).id < next_id + 1 by {
        if m < clips.len() {
            assert(after[m] == clips[m]);
        }
    }
    assert(after[clips.len() as int].content_hash@ == e.hash@);
}

} // verus!
