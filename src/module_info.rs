use vstd::prelude::*;
use vstd::string::*;
use base64::Engine;
use crate::hashing::{hex_lower, to_hex_lower};
use crate::imaging::{bytes_view, png_encoding};

verus! {

/// Language preferred when a module's version resource offers several.
pub const PREFERRED_LANGUAGE: u16 = 0x0804;

/// Position of the last (language, codepage) pair among the first `n` of `words`
/// whose language is the preferred one.
pub open spec fn last_preferred(words: Seq<u16>, n: nat) -> Option<int>
    decreases n,
{
    if n == 0 {
        None
    } else if words[2 * (n - 1)] == PREFERRED_LANGUAGE {
        Some(n - 1)
    } else {
        last_preferred(words, (n - 1) as nat)
    }
}

/// The (language, codepage) pair whose strings are read from a translation
/// table of alternating language and codepage words: the last pair in the
/// preferred language, else the first pair; none when the table holds no pair.
pub open spec fn chosen_translation(words: Seq<u16>) -> Option<(u16, u16)> {
    if words.len() < 2 {
        None
    } else {
        match last_preferred(words, words.len() / 2) {
            Some(i) => Some((words[2 * i], words[2 * i + 1])),
            None => Some((words[0], words[1])),
        }
    }
}

/// Chooses the (language, codepage) pair to read strings from.
pub fn pick_translation(words: &[u16]) -> (r: Option<(u16, u16)>)
    ensures
        r == chosen_translation(words@),
{
    let total = words.len();
    let n = total / 2;
    if n == 0 {
        return None;
    }
    let mut chosen = (words[0], words[1]);
    let mut i: usize = 0;
    while i < n
        invariant
            total == words@.len(),
            n == total / 2,
            n >= 1,
            i <= n,
            chosen == match last_preferred(words@, i as nat) {
                Some(j) => (words@[2 * j], words@[2 * j + 1]),
                None => (words@[0], words@[1]),
            },
            forall|j: int| #![trigger last_preferred(words@, j as nat)] 0 <= j <= i ==>
                (last_preferred(words@, j as nat) matches Some(k) ==> 0 <= k < j),
        decreases n - i,
    {
        assert(2 * i + 1 < words@.len());
        if words[2 * i] == PREFERRED_LANGUAGE {
            chosen = (words[2 * i], words[2 * i + 1]);
        }
        i = i + 1;
        assert forall|j: int| #![trigger last_preferred(words@, j as nat)] 0 <= j <= i implies
            (last_preferred(words@, j as nat) matches Some(k) ==> 0 <= k < j) by {
            if j == i as int {
                assert(last_preferred(words@, j as nat) == if words@[2 * (j - 1)] == PREFERRED_LANGUAGE {
                    Some(j - 1)
                } else {
                    last_preferred(words@, (j - 1) as nat)
                });
            }
        }
    }
    Some(chosen)
}

/// Four lowercase hex digits of a 16-bit value.
pub open spec fn hex4(v: u16) -> Seq<char> {
    hex_lower(seq![(v / 256) as u8, (v % 256) as u8])
}

/// Names of the version strings tried for a module's description, in order.
pub open spec fn description_keys() -> Seq<Seq<char>> {
    seq!["FileDescription"@, "ProductName"@]
}

/// The version-resource path of string `key` in the given translation.
pub open spec fn string_query(lang: u16, codepage: u16, key: Seq<char>) -> Seq<char> {
    "\\StringFileInfo\\"@ + hex4(lang) + hex4(codepage) + "\\"@ + key
}

fn push_hex4(s: &mut String, v: u16)
    ensures
        final(s)@ == old(s)@ + hex4(v),
{
    let bytes: [u8; 2] = [(v / 256) as u8, (v % 256) as u8];
    let digits = to_hex_lower(&bytes);
    assert(bytes@ =~= seq![(v / 256) as u8, (v % 256) as u8]);
    s.append(digits.as_str());
}

/// The paths to query, in order, for a module's description.
pub fn version_queries(lang: u16, codepage: u16) -> (r: Vec<String>)
    ensures
        r@.len() == 2,
        r@[0]@ == string_query(lang, codepage, description_keys()[0]),
        r@[1]@ == string_query(lang, codepage, description_keys()[1]),
{
    let mut prefix = String::new();
    prefix.append("\\StringFileInfo\\");
    push_hex4(&mut prefix, lang);
    push_hex4(&mut prefix, codepage);
    prefix.append("\\");
    let first = prefix.clone().concat("FileDescription");
    let second = prefix.concat("ProductName");
    let mut r = Vec::new();
    r.push(first);
    r.push(second);
    r
}

/// Text decoded from UTF-16 code units, unpaired surrogates replaced.
pub uninterp spec fn utf16_lossy(units: Seq<u16>) -> Seq<char>;

/// Relies on `String::from_utf16_lossy`: decodes UTF-16, replacing unpaired
/// surrogates; the text depends on the code units alone.
#[verifier::external_body]
fn decode_utf16(units: &[u16]) -> (r: String)
    ensures
        r@ == utf16_lossy(units@),
{
    String::from_utf16_lossy(units)
}

/// A version string value without its terminating NUL, if it has one.
pub open spec fn without_nul(units: Seq<u16>) -> Seq<u16> {
    if units.len() > 0 && units.last() == 0 { units.drop_last() } else { units }
}

/// The first value, in order, that still holds something once its terminating
/// NUL is dropped.
pub open spec fn first_description(values: Seq<Option<Vec<u16>>>) -> Option<int>
    decreases values.len(),
{
    if values.len() == 0 {
        None
    } else {
        match first_description(values.drop_last()) {
            Some(i) => Some(i),
            None => match values.last() {
                Some(v) if without_nul(v@).len() > 0 => Some(values.len() - 1),
                _ => None,
            },
        }
    }
}

/// Picks a module's description from the values found for each query of
/// `version_queries` (`None` where the query found nothing).
pub fn pick_description(values: &Vec<Option<Vec<u16>>>) -> (r: Option<String>)
    ensures
        r is None <==> first_description(values@) is None,
        first_description(values@) matches Some(i) ==> (values@[i] matches Some(v)
            && r matches Some(s) && s@ == utf16_lossy(without_nul(v@))),
{
    let mut i: usize = 0;
    while i < values.len()
        invariant
            i <= values@.len(),
            first_description(values@.subrange(0, i as int)) is None,
        decreases values@.len() - i,
    {
        assert(values@.subrange(0, i + 1).drop_last() =~= values@.subrange(0, i as int));
        if let Some(v) = &values[i] {
            let n = v.len();
            let len = if n > 0 && v[n - 1] == 0 { n - 1 } else { n };
            if len > 0 {
                let mut units: Vec<u16> = Vec::new();
                let mut j: usize = 0;
                while j < len
                    invariant
                        len <= v@.len(),
                        j <= len,
                        units@ == v@.subrange(0, j as int),
                    decreases len - j,
                {
                    units.push(v[j]);
                    assert(units@ =~= v@.subrange(0, j + 1));
                    j = j + 1;
                }
                assert(units@ =~= without_nul(v@));
                assert(first_description(values@.subrange(0, i + 1)) == Some(i as int));
                proof {
                    lemma_first_description_prefix(values@, (i + 1) as int);
                }
                return Some(decode_utf16(units.as_slice()));
            }
        }
        i = i + 1;
    }
    assert(values@.subrange(0, values@.len() as int) =~= values@);
    None
}

/// A value found in a prefix stays the first one in the whole sequence.
proof fn lemma_first_description_prefix(values: Seq<Option<Vec<u16>>>, n: int)
    requires
        0 <= n <= values.len(),
        first_description(values.subrange(0, n)) is Some,
    ensures
        first_description(values) == first_description(values.subrange(0, n)),
    decreases values.len() - n,
{
    if n < values.len() {
        assert(values.subrange(0, n + 1).drop_last() =~= values.subrange(0, n));
        lemma_first_description_prefix(values, n + 1);
    } else {
        assert(values.subrange(0, n) =~= values);
    }
}

/// `pixels` with the first and third byte of each whole four-byte pixel swapped,
/// turning BGRA into RGBA; a trailing partial pixel is left as it is.
pub open spec fn swapped_red_blue(pixels: Seq<u8>) -> Seq<u8> {
    Seq::new(pixels.len(), |i: int|
        if i < pixels.len() - pixels.len() % 4 && i % 4 == 0 {
            pixels[i + 2]
        } else if i < pixels.len() - pixels.len() % 4 && i % 4 == 2 {
            pixels[i - 2]
        } else {
            pixels[i]
        })
}

/// Reorders BGRA pixels into RGBA in place.
pub fn bgra_to_rgba(pixels: &mut Vec<u8>)
    ensures
        final(pixels)@ == swapped_red_blue(old(pixels)@),
{
    let ghost orig = pixels@;
    let n = pixels.len();
    let whole = n - n % 4;
    let mut i: usize = 0;
    while i < whole
        invariant
            n == orig.len(),
            whole == n - n % 4,
            pixels@.len() == n,
            i % 4 == 0,
            i <= whole,
            forall|k: int| 0 <= k < i ==> #[trigger] pixels@[k] == swapped_red_blue(orig)[k],
            forall|k: int| i <= k < n ==> #[trigger] pixels@[k] == orig[k],
        decreases whole - i,
    {
        let b = pixels[i];
        let r = pixels[i + 2];
        pixels.set(i, r);
        pixels.set(i + 2, b);
        i = i + 4;
    }
    assert(pixels@ =~= swapped_red_blue(orig));
}

/// Standard base64 with padding.
pub uninterp spec fn base64_of(bytes: Seq<u8>) -> Seq<char>;

/// Relies on `base64::engine::general_purpose::STANDARD.encode`: padded standard
/// base64, four characters per started group of three bytes; it panics only when
/// that length overflows.
#[verifier::external_body]
pub(crate) fn base64_encode(bytes: &[u8]) -> (r: String)
    requires
        bytes@.len() <= usize::MAX / 2,
    ensures
        r@ == base64_of(bytes@),
        r@.len() == 4 * ((bytes@.len() + 2) / 3),
{
    base64::engine::general_purpose::STANDARD.encode(bytes)
}

/// An icon read as BGRA rows, as PNG in base64; none when the buffer does not
/// hold exactly `width * height` pixels or the encoder fails.
pub fn icon_png_base64(bgra: Vec<u8>, width: u32, height: u32) -> (r: Option<String>)
    ensures
        bgra@.len() != 4 * width * height ==> r is None,
        bgra@.len() == 4 * width * height ==> match png_encoding(width, height, swapped_red_blue(bgra@)) {
            None => r is None,
            Some(png) => (png.len() <= usize::MAX / 2 ==> (r matches Some(s) && s@ == base64_of(png))),
        },
{
    let w = width as u64;
    let h = height as u64;
    assert(w * h <= 0xffff_ffff * 0xffff_ffff) by (nonlinear_arith) requires w <= 0xffff_ffff, h <= 0xffff_ffff;
    let len = bgra.len() as u64;
    let pixel_count = w * h;
    assert(4 * width * height == 4 * pixel_count) by (nonlinear_arith)
        requires
            pixel_count == w * h,
            w == width,
            h == height,
    ;
    assert(len == 4 * pixel_count <==> (len % 4 == 0 && len / 4 == pixel_count));
    if len % 4 != 0 || len / 4 != pixel_count {
        return None;
    }
    let mut pixels = bgra;
    bgra_to_rgba(&mut pixels);
    let png = match crate::imaging::encode_png_pixels(pixels.as_slice(), width, height) {
        Some(p) => p,
        None => return None,
    };
    if png.len() > usize::MAX / 2 {
        return None;
    }
    Some(base64_encode(png.as_slice()))
}

} // verus!
