use vstd::prelude::*;
use vstd::string::*;
use crate::models::{contains_name, distinct_names, AppSettings};

verus! {

/// Exact equality of two strings.
pub fn same_text(a: &str, b: &str) -> (r: bool)
    ensures
        r == (a@ == b@),
{
    let n = a.unicode_len();
    if n != b.unicode_len() {
        return false;
    }
    let mut i: usize = 0;
    while i < n
        invariant
            n == a@.len(),
            n == b@.len(),
            i <= n,
            forall|j: int| 0 <= j < i ==> #[trigger] a@[j] == b@[j],
        decreases n - i,
    {
        if a.get_char(i) != b.get_char(i) {
            return false;
        }
        i = i + 1;
    }
    assert(a@ =~= b@);
    true
}

pub open spec fn is_digit(c: char) -> bool {
    48 <= c as u32 && c as u32 <= 57
}

/// Value of a run of decimal digits.
pub open spec fn digits_value(s: Seq<char>) -> int
    decreases s.len(),
{
    if s.len() == 0 {
        0
    } else {
        digits_value(s.drop_last()) * 10 + (s.last() as u32 - 48)
    }
}

/// `s` without a leading sign.
pub open spec fn unsigned_part(s: Seq<char>) -> Seq<char> {
    if s.len() > 0 && (s[0] == '-' || s[0] == '+') { s.drop_first() } else { s }
}

pub open spec fn all_digits(s: Seq<char>) -> bool {
    forall|i: int| 0 <= i < s.len() ==> is_digit(#[trigger] s[i])
}

/// What `str::parse::<i64>` accepts: an optional sign, then one or more
/// decimal digits, with a value in range.
pub open spec fn parsed_i64(s: Seq<char>) -> Option<i64> {
    let neg = s.len() > 0 && s[0] == '-';
    let body = unsigned_part(s);
    if body.len() == 0 || !all_digits(body) {
        None
    } else {
        let v = if neg { -digits_value(body) } else { digits_value(body) };
        if i64::MIN <= v && v <= i64::MAX { Some(v as i64) } else { None }
    }
}

proof fn lemma_digits_prefix(s: Seq<char>, i: int)
    requires
        0 <= i <= s.len(),
        forall|k: int| 0 <= k < s.len() ==> is_digit(#[trigger] s[k]),
    ensures
        0 <= digits_value(s.subrange(0, i)) <= digits_value(s),
    decreases s.len() - i,
{
    if i < s.len() {
        lemma_digits_prefix(s, i + 1);
        assert(s.subrange(0, i + 1).drop_last() =~= s.subrange(0, i));
        assert(is_digit(s[i]));
    } else {
        assert(s.subrange(0, i) =~= s);
        lemma_digits_nonneg(s);
    }
}

proof fn lemma_digits_nonneg(s: Seq<char>)
    requires
        forall|k: int| 0 <= k < s.len() ==> is_digit(#[trigger] s[k]),
    ensures
        digits_value(s) >= 0,
    decreases s.len(),
{
    if s.len() > 0 {
        let p = s.drop_last();
        assert forall|k: int| 0 <= k < p.len() implies is_digit(#[trigger] p[k]) by {
            assert(p[k] == s[k]);
        }
        lemma_digits_nonneg(p);
        assert(is_digit(s[s.len() - 1]));
    }
}

/// Parses a signed decimal integer as `str::parse::<i64>` does.
pub fn parse_i64(s: &str) -> (r: Option<i64>)
    ensures
        r == parsed_i64(s@),
{
    let n = s.unicode_len();
    if n == 0 {
        return None;
    }
    let first = s.get_char(0);
    let neg = first == '-';
    let start: usize = if first == '-' || first == '+' { 1 } else { 0 };
    if start >= n {
        return None;
    }
    let ghost body = s@.subrange(start as int, n as int);
    assert(body =~= unsigned_part(s@));
    let limit: u128 = 9_223_372_036_854_775_808;
    let mut acc: u128 = 0;
    let mut i: usize = start;
    while i < n
        invariant
            n == s@.len(),
            start <= i <= n,
            limit == 9_223_372_036_854_775_808u128,
            body == s@.subrange(start as int, n as int),
            body == unsigned_part(s@),
            acc as int == digits_value(body.subrange(0, i - start)),
            acc <= limit,
            forall|k: int| 0 <= k < i - start ==> is_digit(#[trigger] body[k]),
        decreases n - i,
    {
        let c = s.get_char(i);
        let code = c as u32;
        assert(body[i - start] == c);
        if code < 48 || code > 57 {
            proof {
                let k = i - start;
                assert(!is_digit(body[k]));
                assert(!all_digits(body));
            }
            return None;
        }
        assert(body.subrange(0, i - start + 1).drop_last() =~= body.subrange(0, i - start));
        acc = acc * 10 + (code - 48) as u128;
        i = i + 1;
        if acc > limit {
            proof {
                if all_digits(body) {
                    lemma_digits_prefix(body, i - start);
                    assert(digits_value(body) > i64::MAX);
                    assert(-digits_value(body) < i64::MIN);
                }
            }
            return None;
        }
    }
    assert(body.subrange(0, n - start) =~= body);
    if neg {
        if acc == limit { Some(i64::MIN) } else { Some(-(acc as i64)) }
    } else if acc == limit {
        None
    } else {
        Some(acc as i64)
    }
}

/// What `str::parse::<bool>` accepts: exactly `true` or `false`.
pub open spec fn parsed_bool(s: Seq<char>) -> Option<bool> {
    if s == "true"@ { Some(true) } else if s == "false"@ { Some(false) } else { None }
}

pub fn parse_bool(s: &str) -> (r: Option<bool>)
    ensures
        r == parsed_bool(s@),
{
    if same_text(s, "true") {
        Some(true)
    } else if same_text(s, "false") {
        Some(false)
    } else {
        None
    }
}

/// The settings after one stored (key, value) pair of the older key-value
/// settings table is applied: text settings take the value, numeric and flag
/// settings take it only when it parses, and unknown keys change nothing.
pub open spec fn legacy_applied(s: AppSettings, key: Seq<char>, value: String) -> AppSettings {
    if key == "theme"@ { AppSettings { theme: value, ..s } }
    else if key == "mica_effect"@ { AppSettings { mica_effect: value, ..s } }
    else if key == "language"@ { AppSettings { language: value, ..s } }
    else if key == "hotkey"@ { AppSettings { hotkey: value, ..s } }
    else if key == "ai_provider"@ { AppSettings { ai_provider: value, ..s } }
    else if key == "ai_api_key"@ { AppSettings { ai_api_key: value, ..s } }
    else if key == "ai_model"@ { AppSettings { ai_model: value, ..s } }
    else if key == "ai_base_url"@ { AppSettings { ai_base_url: value, ..s } }
    else if key == "ai_prompt_summarize"@ { AppSettings { ai_prompt_summarize: value, ..s } }
    else if key == "ai_prompt_translate"@ { AppSettings { ai_prompt_translate: value, ..s } }
    else if key == "ai_prompt_explain_code"@ { AppSettings { ai_prompt_explain_code: value, ..s } }
    else if key == "ai_prompt_fix_grammar"@ { AppSettings { ai_prompt_fix_grammar: value, ..s } }
    else if key == "ai_title_summarize"@ { AppSettings { ai_title_summarize: value, ..s } }
    else if key == "ai_title_translate"@ { AppSettings { ai_title_translate: value, ..s } }
    else if key == "ai_title_explain_code"@ { AppSettings { ai_title_explain_code: value, ..s } }
    else if key == "ai_title_fix_grammar"@ { AppSettings { ai_title_fix_grammar: value, ..s } }
    else if key == "max_items"@ {
        match parsed_i64(value@) { Some(v) => AppSettings { max_items: v, ..s }, None => s }
    } else if key == "auto_delete_days"@ {
        match parsed_i64(value@) { Some(v) => AppSettings { auto_delete_days: v, ..s }, None => s }
    } else if key == "auto_paste"@ {
        match parsed_bool(value@) { Some(b) => AppSettings { auto_paste: b, ..s }, None => s }
    } else if key == "ignore_ghost_clips"@ {
        match parsed_bool(value@) { Some(b) => AppSettings { ignore_ghost_clips: b, ..s }, None => s }
    } else {
        s
    }
}

/// Applies one stored (key, value) pair of the older key-value settings table.
pub fn apply_legacy_setting(settings: &mut AppSettings, key: &str, value: String)
    ensures
        *final(settings) == legacy_applied(*old(settings), key@, value),
{
    if same_text(key, "theme") { settings.theme = value; }
    else if same_text(key, "mica_effect") { settings.mica_effect = value; }
    else if same_text(key, "language") { settings.language = value; }
    else if same_text(key, "hotkey") { settings.hotkey = value; }
    else if same_text(key, "ai_provider") { settings.ai_provider = value; }
    else if same_text(key, "ai_api_key") { settings.ai_api_key = value; }
    else if same_text(key, "ai_model") { settings.ai_model = value; }
    else if same_text(key, "ai_base_url") { settings.ai_base_url = value; }
    else if same_text(key, "ai_prompt_summarize") { settings.ai_prompt_summarize = value; }
    else if same_text(key, "ai_prompt_translate") { settings.ai_prompt_translate = value; }
    else if same_text(key, "ai_prompt_explain_code") { settings.ai_prompt_explain_code = value; }
    else if same_text(key, "ai_prompt_fix_grammar") { settings.ai_prompt_fix_grammar = value; }
    else if same_text(key, "ai_title_summarize") { settings.ai_title_summarize = value; }
    else if same_text(key, "ai_title_translate") { settings.ai_title_translate = value; }
    else if same_text(key, "ai_title_explain_code") { settings.ai_title_explain_code = value; }
    else if same_text(key, "ai_title_fix_grammar") { settings.ai_title_fix_grammar = value; }
    else if same_text(key, "max_items") {
        if let Some(v) = parse_i64(value.as_str()) { settings.max_items = v; }
    } else if same_text(key, "auto_delete_days") {
        if let Some(v) = parse_i64(value.as_str()) { settings.auto_delete_days = v; }
    } else if same_text(key, "auto_paste") {
        if let Some(b) = parse_bool(value.as_str()) { settings.auto_paste = b; }
    } else if same_text(key, "ignore_ghost_clips") {
        if let Some(b) = parse_bool(value.as_str()) { settings.ignore_ghost_clips = b; }
    }
}

/// Replaces the ignored applications by `apps`, each name kept once, in order
/// of first appearance.
pub fn replace_ignored_apps(settings: &mut AppSettings, apps: Vec<String>)
    ensures
        final(settings).wf(),
        forall|n: Seq<char>| contains_name(final(settings).ignored_apps@, n) == contains_name(apps@, n),
        final(settings).theme == old(settings).theme,
        final(settings).max_items == old(settings).max_items,
        final(settings).ignore_ghost_clips == old(settings).ignore_ghost_clips,
{
    let mut kept: Vec<String> = Vec::new();
    let mut i: usize = 0;
    while i < apps.len()
        invariant
            i <= apps@.len(),
            distinct_names(kept@),
            forall|n: Seq<char>| contains_name(kept@, n) == contains_name(apps@.subrange(0, i as int), n),
        decreases apps@.len() - i,
    {
        let name = apps[i].clone();
        let ghost prefix = apps@.subrange(0, i as int);
        let ghost next = apps@.subrange(0, i + 1);
        assert(next =~= prefix.push(apps@[i as int]));
        let mut found = false;
        let mut j: usize = 0;
        while j < kept.len()
            invariant
                j <= kept@.len(),
                found == exists|k: int| 0 <= k < j && #[trigger] kept@[k]@ == name@,
            decreases kept@.len() - j,
        {
            if kept[j] == name {
                found = true;
            }
            j = j + 1;
        }
        let ghost before = kept@;
        if !found {
            kept.push(name);
            assert forall|a: int, b: int|
                0 <= a < kept@.len() && 0 <= b < kept@.len() && a != b implies #[trigger] kept@[a]@ != #[trigger] kept@[b]@ by {
                if a < before.len() && b < before.len() {
                    assert(before[a]@ != before[b]@);
                } else if a < before.len() {
                    assert(kept@[a] == before[a]);
                } else {
                    assert(kept@[b] == before[b]);
                }
            }
        }
        assert forall|n: Seq<char>| contains_name(kept@, n) == contains_name(next, n) by {
            if contains_name(next, n) {
                let k = choose|k: int| 0 <= k < next.len() && #[trigger] next[k]@ == n;
                if k < prefix.len() {
                    assert(prefix[k]@ == n);
                    assert(contains_name(before, n));
                    let m = choose|m: int| 0 <= m < before.len() && #[trigger] before[m]@ == n;
                    assert(kept@[m] == before[m]);
                } else if !found {
                    assert(kept@[before.len() as int]@ == n);
                } else {
                    let m = choose|m: int| 0 <= m < before.len() && #[trigger] before[m]@ == name@;
                    assert(kept@[m]@ == n);
                }
            }
            if contains_name(kept@, n) {
                let m = choose|m: int| 0 <= m < kept@.len() && #[trigger] kept@[m]@ == n;
                if m < before.len() {
                    assert(kept@[m] == before[m]);
                    assert(contains_name(before, n));
                    let k = choose|k: int| 0 <= k < prefix.len() && #[trigger] prefix[k]@ == n;
                    assert(next[k] == prefix[k]);
                } else {
                    assert(next[i as int]@ == n);
                }
            }
        }
        i = i + 1;
    }
    assert(apps@.subrange(0, apps@.len() as int) =~= apps@);
    settings.ignored_apps = kept;
}

} // verus!
