use vstd::prelude::*;
use vstd::string::*;
use crate::models::contains_name;

verus! {

/// Lexicographic order of strings by code point, the order of `String`'s `Ord`.
pub open spec fn text_le(a: Seq<char>, b: Seq<char>) -> bool
    decreases a.len(),
{
    if a.len() == 0 {
        true
    } else if b.len() == 0 {
        false
    } else if (a[0] as u32) < (b[0] as u32) {
        true
    } else if (a[0] as u32) > (b[0] as u32) {
        false
    } else {
        text_le(a.drop_first(), b.drop_first())
    }
}

pub proof fn lemma_text_le_total(a: Seq<char>, b: Seq<char>)
    ensures
        text_le(a, b) || text_le(b, a),
    decreases a.len(),
{
    if a.len() > 0 && b.len() > 0 && a[0] as u32 == b[0] as u32 {
        lemma_text_le_total(a.drop_first(), b.drop_first());
    }
}

pub proof fn lemma_text_le_transitive(a: Seq<char>, b: Seq<char>, c: Seq<char>)
    requires
        text_le(a, b),
        text_le(b, c),
    ensures
        text_le(a, c),
    decreases a.len(),
{
    if a.len() > 0 && b.len() > 0 && c.len() > 0 && a[0] as u32 == b[0] as u32 && b[0] as u32 == c[0] as u32 {
        lemma_text_le_transitive(a.drop_first(), b.drop_first(), c.drop_first());
    }
}

/// Compares two strings by code point.
pub fn text_less_or_equal(a: &str, b: &str) -> (r: bool)
    ensures
        r == text_le(a@, b@),
{
    let na = a.unicode_len();
    let nb = b.unicode_len();
    let mut i: usize = 0;
    assert(a@.skip(0) =~= a@);
    assert(b@.skip(0) =~= b@);
    while i < na && i < nb
        invariant
            na == a@.len(),
            nb == b@.len(),
            i <= na,
            i <= nb,
            text_le(a@, b@) == text_le(a@.skip(i as int), b@.skip(i as int)),
        decreases na - i,
    {
        let ca = a.get_char(i) as u32;
        let cb = b.get_char(i) as u32;
        assert(a@.skip(i as int)[0] == a@[i as int]);
        assert(b@.skip(i as int)[0] == b@[i as int]);
        if ca < cb {
            return true;
        }
        if ca > cb {
            return false;
        }
        assert(a@.skip(i as int).drop_first() =~= a@.skip(i + 1));
        assert(b@.skip(i as int).drop_first() =~= b@.skip(i + 1));
        i = i + 1;
    }
    i == na
}

/// Every earlier name is ordered before every later one.
pub open spec fn sorted_names(v: Seq<String>) -> bool {
    forall|i: int, j: int| 0 <= i < j < v.len() ==> text_le(#[trigger] v[i]@, #[trigger] v[j]@)
}

/// `names` in ascending code-point order.
pub fn sort_names(names: Vec<String>) -> (r: Vec<String>)
    ensures
        r@.len() == names@.len(),
        sorted_names(r@),
        forall|n: Seq<char>| contains_name(r@, n) == contains_name(names@, n),
{
    let mut out: Vec<String> = Vec::new();
    let mut i: usize = 0;
    while i < names.len()
        invariant
            i <= names@.len(),
            out@.len() == i,
            sorted_names(out@),
            forall|n: Seq<char>| contains_name(out@, n) == contains_name(names@.subrange(0, i as int), n),
        decreases names@.len() - i,
    {
        let x = names[i].clone();
        let mut p: usize = 0;
        while p < out.len() && text_less_or_equal(out[p].as_str(), x.as_str())
            invariant
                p <= out@.len(),
                forall|k: int| 0 <= k < p ==> text_le(#[trigger] out@[k]@, x@),
            decreases out@.len() - p,
        {
            p = p + 1;
        }
        let ghost before = out@;
        proof {
            if p < before.len() {
                lemma_text_le_total(before[p as int]@, x@);
            }
        }
        out.insert(p, x);
        let ghost after = out@;
        assert(after == before.insert(p as int, x));
        assert forall|a: int, b: int| 0 <= a < b < after.len() implies text_le(#[trigger] after[a]@, #[trigger] after[b]@) by {
            if a < p && b < p {
                assert(after[a] == before[a] && after[b] == before[b]);
            } else if a < p && b == p {
            } else if a < p && b > p {
                assert(after[a] == before[a] && after[b] == before[b - 1]);
                assert(text_le(before[a]@, before[b - 1]@));
            } else if a == p {
                assert(after[b] == before[b - 1]);
                if b - 1 > p {
                    assert(text_le(before[p as int]@, before[b - 1]@));
                    lemma_text_le_transitive(x@, before[p as int]@, before[b - 1]@);
                }
            } else {
                assert(after[a] == before[a - 1] && after[b] == before[b - 1]);
            }
        }
        let ghost prefix = names@.subrange(0, i as int);
        let ghost next = names@.subrange(0, i + 1);
        assert(next =~= prefix.push(names@[i as int]));
        assert forall|n: Seq<char>| contains_name(after, n) == contains_name(next, n) by {
            if contains_name(after, n) {
                let m = choose|m: int| 0 <= m < after.len() && #[trigger] after[m]@ == n;
                if m < p {
                    assert(after[m] == before[m]);
                    assert(contains_name(before, n));
                    let k = choose|k: int| 0 <= k < prefix.len() && #[trigger] prefix[k]@ == n;
                    assert(next[k] == prefix[k]);
                } else if m == p {
                    assert(next[i as int]@ == n);
                } else {
                    assert(after[m] == before[m - 1]);
                    assert(contains_name(before, n));
                    let k = choose|k: int| 0 <= k < prefix.len() && #[trigger] prefix[k]@ == n;
                    assert(next[k] == prefix[k]);
                }
            }
            if contains_name(next, n) {
                let k = choose|k: int| 0 <= k < next.len() && #[trigger] next[k]@ == n;
                if k < i {
                    assert(prefix[k] == next[k]);
                    assert(contains_name(prefix, n));
                    assert(contains_name(before, n));
                    let m = choose|m: int| 0 <= m < before.len() && #[trigger] before[m]@ == n;
                    if m < p { assert(after[m] == before[m]); } else { assert(after[m + 1] == before[m]); }
                } else {
                    assert(after[p as int]@ == n);
                }
            }
        }
        i = i + 1;
    }
    assert(names@.subrange(0, names@.len() as int) =~= names@);
    out
}

} // verus!
