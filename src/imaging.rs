use vstd::prelude::*;
use vstd::string::*;
use image::ImageEncoder;
use crate::hashing::{calculate_hash, content_hash_of, push_char};

verus! {

/// Longest edge of a thumbnail, in pixels.
pub const THUMBNAIL_MAX_EDGE: u32 = 256;

/// A decoded image as 8-bit RGBA rows, four bytes per pixel.
#[derive(Debug, Clone)]
pub struct RgbaImage {
    pub width: u32,
    pub height: u32,
    pub pixels: Vec<u8>,
}

/// What decoding an encoded image (PNG, JPEG, WebP, GIF, BMP, TIFF) to RGBA
/// yields: width, height and pixel bytes, or nothing when it cannot be decoded.
pub uninterp spec fn decoded_rgba(encoded: Seq<u8>) -> Option<(u32, u32, Seq<u8>)>;

/// The PNG encoding of an RGBA image, or nothing when the encoder fails.
pub uninterp spec fn png_encoding(width: u32, height: u32, pixels: Seq<u8>) -> Option<Seq<u8>>;

/// The pixels of an RGBA image resampled to `to_w` by `to_h` with a triangle filter.
pub uninterp spec fn resized_rgba(width: u32, height: u32, pixels: Seq<u8>, to_w: u32, to_h: u32) -> Seq<u8>;

pub open spec fn rgba_view(r: Option<RgbaImage>) -> Option<(u32, u32, Seq<u8>)> {
    match r {
        Some(img) => Some((img.width, img.height, img.pixels@)),
        None => None,
    }
}

pub open spec fn bytes_view(r: Option<Vec<u8>>) -> Option<Seq<u8>> {
    match r {
        Some(v) => Some(v@),
        None => None,
    }
}

/// Relies on `image::load_from_memory` with `DynamicImage::to_rgba8`: guesses the
/// format, decodes, and converts to RGBA, four bytes per pixel.
#[verifier::external_body]
fn decode_rgba(encoded: &[u8]) -> (r: Option<RgbaImage>)
    ensures
        rgba_view(r) == decoded_rgba(encoded@),
        r matches Some(img) ==> img.pixels@.len() == 4 * img.width * img.height,
{
    match image::load_from_memory(encoded) {
        Ok(img) => {
            let rgba = img.to_rgba8();
            Some(RgbaImage { width: rgba.width(), height: rgba.height(), pixels: rgba.into_raw() })
        },
        Err(_) => None,
    }
}

/// Relies on `image::codecs::png::PngEncoder::write_image` with RGBA8 input,
/// which panics unless the buffer holds exactly four bytes per pixel.
#[verifier::external_body]
pub(crate) fn encode_png_pixels(pixels: &[u8], width: u32, height: u32) -> (r: Option<Vec<u8>>)
    requires
        pixels@.len() == 4 * width * height,
    ensures
        bytes_view(r) == png_encoding(width, height, pixels@),
{
    let mut out = Vec::new();
    match image::codecs::png::PngEncoder::new(&mut out).write_image(pixels, width, height, image::ColorType::Rgba8) {
        Ok(()) => Some(out),
        Err(_) => None,
    }
}

/// Relies on `image::imageops::resize` with `FilterType::Triangle` on an RGBA
/// buffer: the result has four bytes for each of `to_w * to_h` pixels.
#[verifier::external_body]
fn resize_rgba(pixels: Vec<u8>, width: u32, height: u32, to_w: u32, to_h: u32) -> (r: Vec<u8>)
    requires
        pixels@.len() == 4 * width * height,
        1 <= to_w <= width,
        1 <= to_h <= height,
    ensures
        r@ == resized_rgba(width, height, pixels@, to_w, to_h),
        r@.len() == 4 * to_w * to_h,
{
    let src = image::RgbaImage::from_raw(width, height, pixels).unwrap();
    image::imageops::resize(&src, to_w, to_h, image::imageops::FilterType::Triangle).into_raw()
}

/// `num / den` rounded to the nearest integer, halves rounded up.
pub open spec fn round_div(num: nat, den: nat) -> nat
    recommends
        den > 0,
{
    (2 * num + den) / (2 * den)
}

pub open spec fn at_least_one(n: nat) -> nat {
    if n == 0 { 1 } else { n }
}

/// Size of the thumbnail of a `w` by `h` image bounded by `max_edge`: unchanged
/// when the longest edge already fits, else the longest edge becomes `max_edge`
/// and the other keeps the aspect ratio, rounded, never below one pixel.
pub open spec fn thumbnail_size(w: nat, h: nat, max_edge: nat) -> (nat, nat)
    recommends
        w > 0,
        h > 0,
{
    let longest = if w > h { w } else { h };
    if max_edge >= longest {
        (w, h)
    } else {
        (at_least_one(round_div(w * max_edge, longest)), at_least_one(round_div(h * max_edge, longest)))
    }
}

/// Computes `thumbnail_size` for a non-empty image.
pub fn thumbnail_dimensions(width: u32, height: u32, max_edge: u32) -> (r: (u32, u32))
    requires
        width > 0,
        height > 0,
    ensures
        r.0 as nat == thumbnail_size(width as nat, height as nat, max_edge as nat).0,
        r.1 as nat == thumbnail_size(width as nat, height as nat, max_edge as nat).1,
        1 <= r.0 <= width,
        1 <= r.1 <= height,
{
    let longest: u32 = if width > height { width } else { height };
    if max_edge >= longest {
        return (width, height);
    }
    let w = width as u128;
    let h = height as u128;
    let m = max_edge as u128;
    let l = longest as u128;
    assert(w * m <= l * m) by (nonlinear_arith) requires w <= l;
    assert(h * m <= l * m) by (nonlinear_arith) requires h <= l;
    assert(l * m <= 0xffff_ffff * 0xffff_ffff) by (nonlinear_arith) requires l <= 0xffff_ffff, m <= 0xffff_ffff;
    let tw = (2 * (w * m) + l) / (2 * l);
    let th = (2 * (h * m) + l) / (2 * l);
    assert(tw <= w) by (nonlinear_arith)
        requires tw == (2 * (w * m) + l) / (2 * l), m < l, l > 0, w > 0;
    assert(th <= h) by (nonlinear_arith)
        requires th == (2 * (h * m) + l) / (2 * l), m < l, l > 0, h > 0;
    let tw32: u32 = if tw == 0 { 1 } else { tw as u32 };
    let th32: u32 = if th == 0 { 1 } else { th as u32 };
    (tw32, th32)
}

/// The PNG thumbnail of `content` bounded by `max_edge`, or why there is none.
pub open spec fn thumbnail_of(content: Seq<u8>, max_edge: u32) -> Option<Seq<u8>> {
    match decoded_rgba(content) {
        None => None,
        Some((w, h, p)) => {
            if w == 0 || h == 0 {
                None
            } else {
                let (tw, th) = thumbnail_size(w as nat, h as nat, max_edge as nat);
                let px = if tw == w && th == h { p } else { resized_rgba(w, h, p, tw as u32, th as u32) };
                png_encoding(tw as u32, th as u32, px)
            }
        },
    }
}

/// Re-encodes an image as a PNG whose longest edge is at most `max_edge`,
/// keeping the aspect ratio; a smaller image keeps its size but is still
/// re-encoded.
pub fn create_image_thumbnail(content: &[u8], max_edge: u32) -> (r: Result<Vec<u8>, String>)
    ensures
        thumbnail_of(content@, max_edge) is None ==> r is Err,
        thumbnail_of(content@, max_edge) matches Some(b) ==> (r matches Ok(v) && v@ == b),
{
    let img = match decode_rgba(content) {
        Some(img) => img,
        None => return Err("image could not be decoded".to_owned()),
    };
    if img.width == 0 || img.height == 0 {
        return Err("Invalid image dimensions".to_owned());
    }
    let (tw, th) = thumbnail_dimensions(img.width, img.height, max_edge);
    let w = img.width;
    let h = img.height;
    let pixels = if tw == w && th == h {
        img.pixels
    } else {
        resize_rgba(img.pixels, w, h, tw, th)
    };
    match encode_png_pixels(pixels.as_slice(), tw, th) {
        Some(out) => Ok(out),
        None => Err("thumbnail could not be encoded".to_owned()),
    }
}

/// One representation offered by the clipboard, in the order it should be tried.
#[derive(Debug, Clone)]
pub struct ImageCandidate {
    /// Name of the representation, such as `public.png`.
    pub source_type: String,
    /// Its encoded bytes.
    pub bytes: Vec<u8>,
}

/// The image taken from the clipboard.
#[derive(Debug, Clone)]
pub struct ClipboardImageRead {
    /// Canonical PNG encoding.
    pub png_bytes: Vec<u8>,
    pub width: u32,
    pub height: u32,
    /// Content hash of the decoded pixels.
    pub raw_hash: String,
    /// The representation it came from.
    pub source_type: String,
}

/// Whether `bytes` decode and re-encode as PNG.
pub open spec fn readable(bytes: Seq<u8>) -> bool {
    match decoded_rgba(bytes) {
        Some(d) => png_encoding(d.0, d.1, d.2) is Some,
        None => false,
    }
}

/// `x` is what reading candidate `c` yields: its size, the PNG of its pixels and
/// the hash of those pixels.
pub open spec fn read_from(x: ClipboardImageRead, c: ImageCandidate) -> bool {
    match decoded_rgba(c.bytes@) {
        Some(d) => {
            &&& x.width == d.0
            &&& x.height == d.1
            &&& png_encoding(d.0, d.1, d.2) == Some(x.png_bytes@)
            &&& x.raw_hash@ == content_hash_of(d.2)
            &&& x.source_type == c.source_type
        },
        None => false,
    }
}

/// Takes the first candidate that decodes, re-encodes it as PNG and hashes its
/// decoded pixels; a candidate that fails is passed over for the next.
pub fn read_clipboard_image_fast(candidates: &Vec<ImageCandidate>) -> (r: Result<ClipboardImageRead, String>)
    ensures
        r is Ok <==> exists|i: int| 0 <= i < candidates@.len() && readable(#[trigger] candidates@[i].bytes@),
        r matches Ok(x) ==> exists|i: int| 0 <= i < candidates@.len() && {
            &&& read_from(x, #[trigger] candidates@[i])
            &&& forall|j: int| 0 <= j < i ==> !readable(#[trigger] candidates@[j].bytes@)
        },
{
    let mut i: usize = 0;
    while i < candidates.len()
        invariant
            i <= candidates@.len(),
            forall|j: int| 0 <= j < i ==> !readable(#[trigger] candidates@[j].bytes@),
        decreases candidates@.len() - i,
    {
        let c = &candidates[i];
        if let Some(img) = decode_rgba(c.bytes.as_slice()) {
            if let Some(png) = encode_png_pixels(img.pixels.as_slice(), img.width, img.height) {
                let raw_hash = calculate_hash(img.pixels.as_slice());
                let x = ClipboardImageRead {
                    png_bytes: png,
                    width: img.width,
                    height: img.height,
                    raw_hash,
                    source_type: c.source_type.clone(),
                };
                assert(read_from(x, candidates@[i as int]));
                return Ok(x);
            }
        }
        i = i + 1;
    }
    Err("no supported image content on the clipboard".to_owned())
}

/// Decimal digit for a value below ten.
pub open spec fn digit(n: nat) -> char {
    ('0' as u8 + n) as char
}

/// Decimal notation of `n`, without leading zeros.
pub open spec fn decimal(n: nat) -> Seq<char>
    decreases n,
{
    if n < 10 {
        seq![digit(n)]
    } else {
        decimal(n / 10).push(digit(n % 10))
    }
}

pub(crate) fn push_decimal(s: &mut String, n: u64)
    ensures
        final(s)@ == old(s)@ + decimal(n as nat),
    decreases n,
{
    if n >= 10 {
        push_decimal(s, n / 10);
    }
    let d = (n % 10) as u8;
    push_char(s, ('0' as u8 + d) as char);
    assert(final(s)@ =~= old(s)@ + decimal(n as nat));
}

/// The metadata of an image clip as JSON, keys in alphabetical order.
pub open spec fn image_metadata(width: nat, height: nat, size_bytes: nat, thumbnail_size_bytes: nat) -> Seq<char> {
    "{\"format\":\"png\",\"height\":"@ + decimal(height) + ",\"size_bytes\":"@ + decimal(size_bytes)
        + ",\"thumbnail_size_bytes\":"@ + decimal(thumbnail_size_bytes) + ",\"width\":"@ + decimal(width) + "}"@
}

/// Describes an image clip: its size, format and byte counts, as JSON.
pub fn image_metadata_json(width: u32, height: u32, size_bytes: u64, thumbnail_size_bytes: u64) -> (r: String)
    ensures
        r@ == image_metadata(width as nat, height as nat, size_bytes as nat, thumbnail_size_bytes as nat),
{
    let mut s = String::new();
    s.append("{\"format\":\"png\",\"height\":");
    push_decimal(&mut s, height as u64);
    s.append(",\"size_bytes\":");
    push_decimal(&mut s, size_bytes);
    s.append(",\"thumbnail_size_bytes\":");
    push_decimal(&mut s, thumbnail_size_bytes);
    s.append(",\"width\":");
    push_decimal(&mut s, width as u64);
    s.append("}");
    assert(s@ =~= image_metadata(width as nat, height as nat, size_bytes as nat, thumbnail_size_bytes as nat));
    s
}

} // verus!
