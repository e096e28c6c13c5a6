//! Decoding of the source host's release and tag listings, JSON arrays of
//! objects, into plain entries.
use vstd::prelude::*;
use crate::resolve::{opt_string_view, ReleaseEntry, TagEntry};

verus! {

/// For a JSON text whose top level is an array: for each element in order,
/// the string held under `key` when the element is an object whose `key`
/// field is a string. `None` when the text is not JSON or not an array.
pub uninterp spec fn json_array_texts(body: Seq<char>, key: Seq<char>) -> Option<Seq<Option<Seq<char>>>>;

/// The view of a decoded list of optional strings.
pub open spec fn texts_view(r: Option<Vec<Option<String>>>) -> Option<Seq<Option<Seq<char>>>> {
    match r {
        Some(v) => Some(v@.map_values(|o: Option<String>| opt_string_view(o))),
        None => None,
    }
}

/// Relies on serde_json::from_str, Value::as_array, Value::get and
/// Value::as_str: the text is parsed as a JSON value, which must be an array;
/// each element gives the string under `key`, or nothing.
#[verifier::external_body]
fn array_field_texts(body: &str, key: &str) -> (r: Option<Vec<Option<String>>>)
    ensures
        texts_view(r) == json_array_texts(body@, key@),
{
    let value: serde_json::Value = serde_json::from_str(body).ok()?;
    let items = value.as_array()?;
    Some(items.iter().map(|item| item.get(key).and_then(|v| v.as_str()).map(String::from)).collect())
}

/// The fields of a release entry that the resolver reads.
pub open spec fn release_entry_view(e: ReleaseEntry) -> (Option<Seq<char>>, Option<Seq<char>>, Option<Seq<char>>) {
    (opt_string_view(e.tag_name), opt_string_view(e.published_at), opt_string_view(e.tarball_url))
}

/// Three field lists of one listing joined element by element; `None` when
/// their lengths differ.
pub open spec fn joined_fields(
    tags: Seq<Option<Seq<char>>>,
    published: Seq<Option<Seq<char>>>,
    urls: Seq<Option<Seq<char>>>,
) -> Option<Seq<(Option<Seq<char>>, Option<Seq<char>>, Option<Seq<char>>)>> {
    if tags.len() == published.len() && published.len() == urls.len() {
        Some(Seq::new(tags.len(), |i: int| (tags[i], published[i], urls[i])))
    } else {
        None
    }
}

/// The release listing held by a JSON text: each release's `tag_name`,
/// `published_at` and `tarball_url`.
pub open spec fn release_listing(body: Seq<char>) -> Option<Seq<(Option<Seq<char>>, Option<Seq<char>>, Option<Seq<char>>)>> {
    match (
        json_array_texts(body, "tag_name"@),
        json_array_texts(body, "published_at"@),
        json_array_texts(body, "tarball_url"@),
    ) {
        (Some(t), Some(p), Some(u)) => joined_fields(t, p, u),
        _ => None,
    }
}

fn copy_text(s: &Option<String>) -> (r: Option<String>)
    ensures
        opt_string_view(r) == opt_string_view(*s),
{
    match s {
        Some(t) => Some(t.clone()),
        None => None,
    }
}

/// Joins the decoded fields of a release listing into entries.
pub fn release_entries(
    tags: &Vec<Option<String>>,
    published: &Vec<Option<String>>,
    urls: &Vec<Option<String>>,
) -> (r: Option<Vec<ReleaseEntry>>)
    ensures
        match r {
            Some(v) => joined_fields(
                tags@.map_values(|o: Option<String>| opt_string_view(o)),
                published@.map_values(|o: Option<String>| opt_string_view(o)),
                urls@.map_values(|o: Option<String>| opt_string_view(o)),
            ) == Some(v@.map_values(|e: ReleaseEntry| release_entry_view(e))),
            None => joined_fields(
                tags@.map_values(|o: Option<String>| opt_string_view(o)),
                published@.map_values(|o: Option<String>| opt_string_view(o)),
                urls@.map_values(|o: Option<String>| opt_string_view(o)),
            ) is None,
        },
{
    if tags.len() != published.len() || published.len() != urls.len() {
        return None;
    }
    let ghost t = tags@.map_values(|o: Option<String>| opt_string_view(o));
    let ghost p = published@.map_values(|o: Option<String>| opt_string_view(o));
    let ghost u = urls@.map_values(|o: Option<String>| opt_string_view(o));
    let mut out: Vec<ReleaseEntry> = Vec::new();
    let mut i: usize = 0;
    while i < tags.len()
        invariant
            i <= tags.len(),
            tags.len() == published.len() && published.len() == urls.len(),
            t == tags@.map_values(|o: Option<String>| opt_string_view(o)),
            p == published@.map_values(|o: Option<String>| opt_string_view(o)),
            u == urls@.map_values(|o: Option<String>| opt_string_view(o)),
            out@.len() == i,
            forall|k: int| 0 <= k < i ==> #[trigger] release_entry_view(out@[k]) == (t[k], p[k], u[k]),
        decreases tags.len() - i,
    {
        let e = ReleaseEntry {
            tag_name: copy_text(&tags[i]),
            published_at: copy_text(&published[i]),
            tarball_url: copy_text(&urls[i]),
        };
        out.push(e);
        assert(release_entry_view(out@[i as int]) == (t[i as int], p[i as int], u[i as int]));
        i = i + 1;
    }
    assert(out@.map_values(|e: ReleaseEntry| release_entry_view(e)) =~= Seq::new(
        t.len(),
        |k: int| (t[k], p[k], u[k]),
    ));
    Some(out)
}

/// Decodes a release listing; `None` when the text is not a JSON array.
pub fn parse_releases(body: &str) -> (r: Option<Vec<ReleaseEntry>>)
    ensures
        match r {
            Some(v) => release_listing(body@) == Some(v@.map_values(|e: ReleaseEntry| release_entry_view(e))),
            None => release_listing(body@) is None,
        },
{
    proof {
        reveal_strlit("tag_name");
        reveal_strlit("published_at");
        reveal_strlit("tarball_url");
    }
    let t = array_field_texts(body, "tag_name");
    let p = array_field_texts(body, "published_at");
    let u = array_field_texts(body, "tarball_url");
    match (t, p, u) {
        (Some(t), Some(p), Some(u)) => release_entries(&t, &p, &u),
        _ => None,
    }
}

/// Decodes a tag listing: each tag's `name`; `None` when the text is not a
/// JSON array.
pub fn parse_tags(body: &str) -> (r: Option<Vec<TagEntry>>)
    ensures
        match r {
            Some(v) => json_array_texts(body@, "name"@) == Some(
                v@.map_values(|e: TagEntry| opt_string_view(e.name)),
            ),
            None => json_array_texts(body@, "name"@) is None,
        },
{
    proof {
        reveal_strlit("name");
    }
    let names = match array_field_texts(body, "name") {
        Some(n) => n,
        None => return None,
    };
    let ghost nv = names@.map_values(|o: Option<String>| opt_string_view(o));
    let mut out: Vec<TagEntry> = Vec::new();
    let mut i: usize = 0;
    while i < names.len()
        invariant
            i <= names.len(),
            nv == names@.map_values(|o: Option<String>| opt_string_view(o)),
            out@.len() == i,
            forall|k: int| 0 <= k < i ==> #[trigger] opt_string_view(out@[k].name) == nv[k],
        decreases names.len() - i,
    {
        out.push(TagEntry { name: copy_text(&names[i]) });
        assert(opt_string_view(out@[i as int].name) == nv[i as int]);
        i = i + 1;
    }
    assert(out@.map_values(|e: TagEntry| opt_string_view(e.name)) =~= nv);
    Some(out)
}

} // verus!
