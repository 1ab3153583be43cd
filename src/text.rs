use vstd::prelude::*;
use vstd::string::*;
use vstd::utf8::encode_utf8;
use crate::hashing::{calculate_hash, content_hash_of};

verus! {

/// Longest preview kept for a text clip, in Unicode scalar values.
pub const PREVIEW_CHARS: usize = 200;

/// A string with its leading and trailing whitespace removed.
pub uninterp spec fn trimmed(s: Seq<char>) -> Seq<char>;

/// Relies on `str::trim`: drops leading and trailing whitespace; the result is
/// never longer than its input.
#[verifier::external_body]
fn trim_str(s: &str) -> (r: &str)
    ensures
        r@ == trimmed(s@),
        r@.len() <= s@.len(),
{
    s.trim()
}

/// The preview of a text: its first `PREVIEW_CHARS` scalar values.
pub open spec fn preview_of(s: Seq<char>) -> Seq<char> {
    if s.len() <= PREVIEW_CHARS {
        s
    } else {
        s.subrange(0, PREVIEW_CHARS as int)
    }
}

/// The first 200 Unicode scalar values of `text`; whole characters only, so a
/// multi-byte character is never split.
pub fn text_preview(text: &str) -> (r: String)
    ensures
        r@ == preview_of(text@),
        r@.len() <= PREVIEW_CHARS,
{
    let n = text.unicode_len();
    let end = if n <= PREVIEW_CHARS { n } else { PREVIEW_CHARS };
    let head = text.substring_char(0, end);
    assert(text@.subrange(0, text@.len() as int) == text@);
    head.to_owned()
}

/// What the reader keeps of a text clip.
pub struct TextContent {
    /// UTF-8 bytes of the trimmed text.
    pub bytes: Vec<u8>,
    /// Content hash of `bytes`.
    pub hash: String,
    /// First characters of the trimmed text.
    pub preview: String,
}

/// Turns raw clipboard text into clip content: trims it, skips it when nothing
/// is left, hashes its UTF-8 bytes and cuts its preview.
pub fn extract_text(raw: &str) -> (r: Option<TextContent>)
    ensures
        r is None <==> trimmed(raw@).len() == 0,
        r matches Some(t) ==> {
            &&& t.bytes@ == encode_utf8(trimmed(raw@))
            &&& t.hash@ == content_hash_of(t.bytes@)
            &&& t.preview@ == preview_of(trimmed(raw@))
        },
{
    let t = trim_str(raw);
    if t.unicode_len() == 0 {
        return None;
    }
    let bytes = t.as_bytes_vec();
    let hash = calculate_hash(bytes.as_slice());
    let preview = text_preview(t);
    Some(TextContent { bytes, hash, preview })
}

} // verus!
