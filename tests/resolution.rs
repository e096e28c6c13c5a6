use mkdeb::resolve::{resolve, scan_releases, scan_tags, tarball_url_for_tag, ReleaseEntry, ReleaseScan, TagEntry};
use mkdeb::version::{extract_deb_version, remove_separators};

fn release(tag: Option<&str>, published: Option<&str>, url: Option<&str>) -> ReleaseEntry {
    ReleaseEntry {
        tag_name: tag.map(String::from),
        published_at: published.map(String::from),
        tarball_url: url.map(String::from),
    }
}

fn tag(name: &str) -> TagEntry {
    TagEntry { name: Some(name.to_string()) }
}

#[test]
fn version_strips_v_before_digit() {
    assert_eq!(extract_deb_version("v1.2.3", None), "1.2.3");
    assert_eq!(extract_deb_version("v0", Some("2024-01-02T03:04:05Z")), "0");
}

#[test]
fn version_keeps_tag_starting_with_digit() {
    assert_eq!(extract_deb_version("2.0.1-rc1", Some("2024-01-02T03:04:05Z")), "2.0.1-rc1");
}

#[test]
fn version_from_timestamp() {
    assert_eq!(extract_deb_version("nightly", Some("2024-01-02T03:04:05Z")), "20240102030405");
    assert_eq!(extract_deb_version("vnext", Some("2024-01-02T03:04:05Z")), "20240102030405");
}

#[test]
fn version_fallback_without_timestamp() {
    assert_eq!(extract_deb_version("nightly", None), "0.0.0");
    assert_eq!(extract_deb_version("", None), "0.0.0");
    assert_eq!(extract_deb_version("v", None), "0.0.0");
}

#[test]
fn separators_removed() {
    assert_eq!(remove_separators("a-b:cTdZe"), "abcde");
    assert_eq!(remove_separators(""), "");
}

#[test]
fn release_preferred_over_tag() {
    let rels = vec![
        release(Some("v2.0.0"), None, Some("https://example.com/r2")),
        release(Some("v1.0.0"), None, Some("https://example.com/r1")),
    ];
    let tags = vec![tag("v3.0.0"), tag("v1.0.0")];
    let r = resolve("o/p", &rels, &tags, None).unwrap();
    assert_eq!(r.tag, "v2.0.0");
    assert_eq!(r.version, "2.0.0");
    assert_eq!(r.tarball_url, "https://example.com/r2");
    let r = resolve("o/p", &rels, &tags, Some("1.0.0")).unwrap();
    assert_eq!(r.tarball_url, "https://example.com/r1");
}

#[test]
fn tags_used_when_no_release_fits() {
    let rels = vec![release(Some("v2.0.0"), None, Some("https://example.com/r2"))];
    let tags = vec![tag("v3.0.0"), tag("v1.5")];
    let r = resolve("o/p", &rels, &tags, Some("1.5")).unwrap();
    assert_eq!(r.tag, "v1.5");
    assert_eq!(r.version, "1.5");
    assert_eq!(r.tarball_url, "https://api.github.com/repos/o/p/tarball/v1.5");
}

#[test]
fn nothing_fits() {
    let rels = vec![release(Some("v2.0.0"), None, Some("u"))];
    let tags = vec![tag("v3.0.0")];
    assert!(resolve("o/p", &rels, &tags, Some("9")).is_none());
    assert!(resolve("o/p", &Vec::new(), &Vec::new(), None).is_none());
}

#[test]
fn release_without_tag_stops_resolution() {
    let rels = vec![release(None, None, Some("u")), release(Some("v1.0"), None, Some("u1"))];
    assert!(matches!(scan_releases(&rels, None), ReleaseScan::Malformed));
    assert!(resolve("o/p", &rels, &vec![tag("v1.0")], None).is_none());
}

#[test]
fn fitting_release_without_url_stops_resolution() {
    let rels = vec![release(Some("v1.0"), None, None)];
    assert!(matches!(scan_releases(&rels, Some("1.0")), ReleaseScan::Malformed));
    assert!(matches!(scan_releases(&rels, Some("2.0")), ReleaseScan::NoMatch));
}

#[test]
fn release_versions_use_timestamp() {
    let rels = vec![release(Some("nightly"), Some("2024-01-02T03:04:05Z"), Some("u"))];
    match scan_releases(&rels, Some("20240102030405")) {
        ReleaseScan::Found(g) => assert_eq!(g.version, "20240102030405"),
        _ => panic!("release not found"),
    }
}

#[test]
fn tag_without_name_stops_tag_scan() {
    let tags = vec![TagEntry { name: None }, tag("v1.0")];
    assert!(scan_tags("o/p", &tags, None).is_none());
    let tags = vec![tag("latest")];
    assert_eq!(scan_tags("o/p", &tags, Some("0.0.0")).unwrap().version, "0.0.0");
}

#[test]
fn tag_archive_location() {
    assert_eq!(tarball_url_for_tag("me/tool", "v1"), "https://api.github.com/repos/me/tool/tarball/v1");
}
