use vstd::prelude::*;
use vstd::string::*;
use vstd::utf8::{decode_utf8, valid_utf8};
use crate::hashing::push_char;
use crate::imaging::{decimal, push_decimal};
use crate::models::ClipboardItem;
use crate::module_info::{base64_encode, base64_of};
use crate::paste::utf8_lossy;
use crate::store::{Clip, ClipType};

verus! {

/// The RFC 3339 text of a Unix time in UTC, or nothing when the time lies
/// outside the calendar's range.
pub uninterp spec fn rfc3339_of(secs: i64) -> Option<Seq<char>>;

pub open spec fn text_view(r: Option<String>) -> Option<Seq<char>> {
    match r {
        Some(s) => Some(s@),
        None => None,
    }
}

/// Relies on `chrono::DateTime::<Utc>::from_timestamp` and `to_rfc3339`:
/// `None` outside the representable range, else the time as RFC 3339 text.
#[verifier::external_body]
fn rfc3339(secs: i64) -> (r: Option<String>)
    ensures
        text_view(r) == rfc3339_of(secs),
{
    chrono::DateTime::<chrono::Utc>::from_timestamp(secs, 0).map(|t| t.to_rfc3339())
}

/// The name of a clip type as the interface knows it.
pub open spec fn clip_type_text(t: ClipType) -> Seq<char> {
    match t {
        ClipType::Text => "text"@,
        ClipType::Image => "image"@,
        ClipType::Html => "html"@,
        ClipType::Url => "url"@,
    }
}

pub fn clip_type_name(t: ClipType) -> (r: &'static str)
    ensures
        r@ == clip_type_text(t),
{
    match t {
        ClipType::Text => "text",
        ClipType::Image => "image",
        ClipType::Html => "html",
        ClipType::Url => "url",
    }
}

/// Decimal notation of a signed integer, with a leading `-` when negative.
pub open spec fn signed_decimal(n: i64) -> Seq<char> {
    if n < 0 {
        seq!['-'] + decimal((-n) as nat)
    } else {
        decimal(n as nat)
    }
}

pub fn i64_to_decimal(n: i64) -> (r: String)
    ensures
        r@ == signed_decimal(n),
{
    let mut s = String::new();
    if n < 0 {
        push_char(&mut s, '-');
        let magnitude: u64 = if n == i64::MIN { 9_223_372_036_854_775_808u64 } else { (-n) as u64 };
        push_decimal(&mut s, magnitude);
    } else {
        push_decimal(&mut s, n as u64);
    }
    assert(s@ =~= signed_decimal(n));
    s
}

/// What the interface shows of a clip's payload: nothing for an image in
/// preview mode, base64 of the thumbnail for an image, else the text.
pub open spec fn item_content_ok(content: Seq<char>, c: Clip, preview_only: bool) -> bool {
    if c.clip_type == ClipType::Image {
        if preview_only { content.len() == 0 } else { content == base64_of(c.content@) }
    } else {
        valid_utf8(c.content@) ==> content == decode_utf8(c.content@)
    }
}

/// Turns a stored clip into what the interface lists. Its time becomes RFC 3339
/// text, left empty for a time outside the calendar's range.
pub fn clip_to_item(clip: &Clip, preview_only: bool) -> (r: ClipboardItem)
    requires
        clip.content@.len() <= usize::MAX / 2,
    ensures
        r.id == clip.uuid,
        r.clip_type@ == clip_type_text(clip.clip_type),
        item_content_ok(r.content@, *clip, preview_only),
        r.preview == clip.text_preview,
        clip.folder_id is None ==> r.folder_id is None,
        clip.folder_id matches Some(f) ==> (r.folder_id matches Some(s) && s@ == signed_decimal(f)),
        r.created_at@ == match rfc3339_of(clip.created_at) {
            Some(t) => t,
            None => Seq::<char>::empty(),
        },
        r.source_app == clip.source_app,
        r.source_icon == clip.source_icon,
        r.metadata == clip.metadata,
{
    let content = if clip.clip_type == ClipType::Image {
        if preview_only { String::new() } else { base64_encode(clip.content.as_slice()) }
    } else {
        utf8_lossy(clip.content.as_slice())
    };
    let folder_id = match clip.folder_id {
        Some(f) => Some(i64_to_decimal(f)),
        None => None,
    };
    let created_at = match rfc3339(clip.created_at) {
        Some(t) => t,
        None => String::new(),
    };
    ClipboardItem {
        id: clip.uuid.clone(),
        clip_type: clip_type_name(clip.clip_type).to_owned(),
        content,
        preview: clip.text_preview.clone(),
        folder_id,
        created_at,
        source_app: clip.source_app.clone(),
        source_icon: clip.source_icon.clone(),
        metadata: clip.metadata.clone(),
    }
}

} // verus!
