//! Canonical package versions derived from a release tag and its publication
//! timestamp.
use vstd::prelude::*;
use vstd::string::*;

verus! {

/// Whether `c` is one of the ASCII digits `0` to `9`.
pub open spec fn is_digit(c: char) -> bool {
    '0' <= c && c <= '9'
}

/// Whether `c` is dropped from a timestamp when it becomes a version.
pub open spec fn is_timestamp_separator(c: char) -> bool {
    c == '-' || c == ':' || c == 'T' || c == 'Z'
}

/// The timestamp with every separator character removed.
pub open spec fn strip_separators(s: Seq<char>) -> Seq<char>
    decreases s.len(),
{
    if s.len() == 0 {
        s
    } else if is_timestamp_separator(s[0]) {
        strip_separators(s.drop_first())
    } else {
        seq![s[0]] + strip_separators(s.drop_first())
    }
}

/// The version used when neither the tag nor a timestamp gives one.
pub open spec fn fallback_version() -> Seq<char> {
    seq!['0', '.', '0', '.', '0']
}

/// The canonical version of a release: a `v` followed by a digit is stripped,
/// a tag that starts with a digit is kept, otherwise the timestamp without
/// separators, otherwise `0.0.0`.
pub open spec fn derive_version(tag: Seq<char>, published: Option<Seq<char>>) -> Seq<char> {
    if tag.len() >= 2 && tag[0] == 'v' && is_digit(tag[1]) {
        tag.skip(1)
    } else if tag.len() >= 1 && is_digit(tag[0]) {
        tag
    } else {
        match published {
            Some(p) => strip_separators(p),
            None => fallback_version(),
        }
    }
}

/// The view of an optional string slice.
pub open spec fn opt_view(s: Option<&str>) -> Option<Seq<char>> {
    match s {
        Some(t) => Some(t@),
        None => None,
    }
}

fn is_ascii_digit(c: char) -> (r: bool)
    ensures
        r == is_digit(c),
{
    '0' <= c && c <= '9'
}

/// `s` with every timestamp separator removed.
pub fn remove_separators(s: &str) -> (r: String)
    ensures
        r@ == strip_separators(s@),
{
    let n = s.unicode_len();
    let mut out = String::new();
    let mut k: usize = 0;
    assert(s@.skip(0) =~= s@);
    assert(out@ + strip_separators(s@) =~= strip_separators(s@));
    while k < n
        invariant
            n == s@.len(),
            k <= n,
            strip_separators(s@) == out@ + strip_separators(s@.skip(k as int)),
        decreases n - k,
    {
        let c = s.get_char(k);
        assert(s@.skip(k as int).drop_first() =~= s@.skip(k + 1));
        if !(c == '-' || c == ':' || c == 'T' || c == 'Z') {
            out.append(s.substring_char(k, k + 1));
            assert(s@.subrange(k as int, k + 1) =~= seq![c]);
        }
        k = k + 1;
    }
    assert(s@.skip(n as int) =~= Seq::<char>::empty());
    assert(out@ + Seq::<char>::empty() =~= out@);
    out
}

/// Derives the canonical version of a release from its tag and, where the
/// tag carries no version, from its publication timestamp.
pub fn extract_deb_version(tag: &str, published_at: Option<&str>) -> (r: String)
    ensures
        r@ == derive_version(tag@, opt_view(published_at)),
{
    let n = tag.unicode_len();
    if n >= 2 && tag.get_char(0) == 'v' && is_ascii_digit(tag.get_char(1)) {
        String::from_str(tag.substring_char(1, n))
    } else if n >= 1 && is_ascii_digit(tag.get_char(0)) {
        String::from_str(tag)
    } else {
        match published_at {
            Some(d) => remove_separators(d),
            None => {
                let r = String::from_str("0.0.0");
                proof {
                    reveal_strlit("0.0.0");
                }
                assert(r@ =~= fallback_version());
                r
            },
        }
    }
}

} // verus!
