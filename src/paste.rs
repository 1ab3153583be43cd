use vstd::prelude::*;
use vstd::utf8::{decode_utf8, valid_utf8};
use crate::ingest::{set_ignore_hash, IngestionCoordinator};
use crate::store::{has_uuid, Clip, ClipStore, ClipType};

verus! {

/// How many times a clipboard write is tried before the paste-back gives up.
pub const PASTE_WRITE_ATTEMPTS: u32 = 5;

/// Delay between two write attempts, in milliseconds.
pub const PASTE_RETRY_DELAY_MS: u64 = 100;

/// Relies on `String::from_utf8_lossy`: valid UTF-8 is decoded as it is.
#[verifier::external_body]
pub(crate) fn utf8_lossy(bytes: &[u8]) -> (r: String)
    ensures
        valid_utf8(bytes@) ==> r@ == decode_utf8(bytes@),
{
    String::from_utf8_lossy(bytes).into_owned()
}

/// What the paste-back writes to the clipboard.
#[derive(Debug, Clone)]
pub enum PastePayload {
    /// PNG bytes of an image clip.
    Image(Vec<u8>),
    /// The text of a text clip.
    Text(String),
}

/// The row with uuid `u`.
pub open spec fn uuid_index(clips: Seq<Clip>, u: Seq<char>) -> int {
    choose|k: int| 0 <= k < clips.len() && (#[trigger] clips[k]).uuid@ == u
}

/// Prepares pasting the clip with uuid `id`: arms the ignore token with its
/// hash, so the echo of the write is recognised, bumps its recency, and
/// returns what to write.
pub fn paste_clip(
    coordinator: &mut IngestionCoordinator,
    store: &mut ClipStore,
    id: &String,
    now: i64,
) -> (r: Result<PastePayload, String>)
    requires
        old(store).wf(),
    ensures
        final(store).wf(),
        !has_uuid(old(store).clips(), id@) ==> {
            &&& r is Err
            &&& *final(store) == *old(store)
            &&& *final(coordinator) == *old(coordinator)
        },
        has_uuid(old(store).clips(), id@) ==> {
            let k = uuid_index(old(store).clips(), id@);
            let c = old(store).clips()[k];
            &&& final(store).clips() == old(store).clips().update(k, Clip { created_at: now, ..c })
            &&& final(store).images() == old(store).images()
            &&& final(coordinator).ignore_token() == Some(c.content_hash@)
            &&& final(coordinator).last_stable() == old(coordinator).last_stable()
            &&& final(coordinator).generation() == old(coordinator).generation()
            &&& c.clip_type == ClipType::Image ==> (r matches Ok(PastePayload::Image(b)) && b@ == c.content@)
            &&& c.clip_type != ClipType::Image ==> (r matches Ok(PastePayload::Text(t))
                && (valid_utf8(c.content@) ==> t@ == decode_utf8(c.content@)))
        },
{
    let k = match store.find_by_uuid(id) {
        Some(k) => k,
        None => return Err("Clip not found".to_owned()),
    };
    proof {
        let j = uuid_index(store.clips(), id@);
        if j != k as int {
            assert(store.clips()[j].uuid@ != store.clips()[k as int].uuid@);
        }
    }
    let c = store.get(k);
    let hash = c.content_hash.clone();
    let payload = if c.clip_type == ClipType::Image {
        let b = c.content.clone();
        assert(b@ =~= c.content@);
        PastePayload::Image(b)
    } else {
        PastePayload::Text(utf8_lossy(c.content.as_slice()))
    };
    set_ignore_hash(coordinator, hash);
    store.bump_recency(k, now);
    Ok(payload)
}

/// What the paste-back does after a write attempt.
#[derive(Debug, Clone, Copy, PartialEq, Eq, Structural)]
pub enum PasteStep {
    /// The write succeeded.
    Done,
    /// The write failed; wait `PASTE_RETRY_DELAY_MS` and try again.
    Retry,
    /// The write failed on the last allowed attempt.
    GiveUp,
}

/// Decides the next step after write attempt number `attempt` (counting from
/// one) succeeded or failed: writes are tried at most `PASTE_WRITE_ATTEMPTS` times.
pub fn next_paste_step(attempt: u32, write_ok: bool) -> (r: PasteStep)
    ensures
        write_ok ==> r == PasteStep::Done,
        !write_ok && attempt < PASTE_WRITE_ATTEMPTS ==> r == PasteStep::Retry,
        !write_ok && attempt >= PASTE_WRITE_ATTEMPTS ==> r == PasteStep::GiveUp,
{
    if write_ok {
        PasteStep::Done
    } else if attempt < PASTE_WRITE_ATTEMPTS {
        PasteStep::Retry
    } else {
        PasteStep::GiveUp
    }
}

/// Whether synthetic key input is permitted. `platform_trust` is the
/// platform's answer where it gates input on an accessibility grant, and
/// `None` where it does not gate input at all.
pub fn is_accessibility_enabled(platform_trust: Option<bool>) -> (r: bool)
    ensures
        r == match platform_trust {
            Some(t) => t,
            None => true,
        },
{
    match platform_trust {
        Some(t) => t,
        None => true,
    }
}

/// Whether a successful paste-back is followed by a synthetic paste keystroke:
/// only when auto-paste is on and input is permitted.
pub fn should_send_paste_input(auto_paste: bool, platform_trust: Option<bool>) -> (r: bool)
    ensures
        r == (auto_paste && match platform_trust {
            Some(t) => t,
            None => true,
        }),
{
    auto_paste && is_accessibility_enabled(platform_trust)
}

} // verus!
