use mkdeb::listing::{parse_releases, parse_tags, release_entries};
use mkdeb::resolve::{scan_releases, scan_tags, ReleaseScan};

#[test]
fn release_listing_decoded() {
    let body = r#"[
        {"tag_name": "v1.2.3", "published_at": "2024-01-02T03:04:05Z", "tarball_url": "https://x/t1"},
        {"tag_name": "nightly", "published_at": null, "tarball_url": "https://x/t2"},
        {"name": "no tag"}
    ]"#;
    let rels = parse_releases(body).unwrap();
    assert_eq!(rels.len(), 3);
    assert_eq!(rels[0].tag_name.as_deref(), Some("v1.2.3"));
    assert_eq!(rels[0].published_at.as_deref(), Some("2024-01-02T03:04:05Z"));
    assert_eq!(rels[0].tarball_url.as_deref(), Some("https://x/t1"));
    assert_eq!(rels[1].published_at, None);
    assert_eq!(rels[2].tag_name, None);
    match scan_releases(&rels, None) {
        ReleaseScan::Found(g) => {
            assert_eq!(g.version, "1.2.3");
            assert_eq!(g.tarball_url, "https://x/t1");
        }
        _ => panic!("release not found"),
    }
}

#[test]
fn listing_must_be_array() {
    assert!(parse_releases(r#"{"message": "Not Found"}"#).is_none());
    assert!(parse_releases("not json").is_none());
    assert!(parse_tags(r#"{"message": "Not Found"}"#).is_none());
    assert_eq!(parse_releases("[]").unwrap().len(), 0);
}

#[test]
fn tag_listing_decoded() {
    let tags = parse_tags(r#"[{"name": "v2.0"}, {"name": 7}, {"commit": {}}]"#).unwrap();
    assert_eq!(tags.len(), 3);
    assert_eq!(tags[0].name.as_deref(), Some("v2.0"));
    assert_eq!(tags[1].name, None);
    assert_eq!(tags[2].name, None);
    let r = scan_tags("o/p", &tags, Some("2.0")).unwrap();
    assert_eq!(r.tarball_url, "https://api.github.com/repos/o/p/tarball/v2.0");
}

#[test]
fn release_fields_joined() {
    let t = vec![Some("v1".to_string()), None];
    let p = vec![None, Some("2024".to_string())];
    let u = vec![Some("u1".to_string()), Some("u2".to_string())];
    let rels = release_entries(&t, &p, &u).unwrap();
    assert_eq!(rels.len(), 2);
    assert_eq!(rels[0].tag_name.as_deref(), Some("v1"));
    assert_eq!(rels[0].tarball_url.as_deref(), Some("u1"));
    assert_eq!(rels[1].published_at.as_deref(), Some("2024"));
    assert!(release_entries(&t, &p, &vec![None]).is_none());
}
