//! Release resolution: picks the release, or failing that the tag, whose
//! derived version is the one requested.
use vstd::prelude::*;
use vstd::string::*;
use crate::version::{derive_version, extract_deb_version, opt_view};

verus! {

/// A resolved release: its tag, the location of its source archive and its
/// canonical version.
pub struct GithubRelease {
    pub tag: String,
    pub tarball_url: String,
    pub version: String,
}

impl View for GithubRelease {
    type V = (Seq<char>, Seq<char>, Seq<char>);

    open spec fn view(&self) -> (Seq<char>, Seq<char>, Seq<char>) {
        (self.tag@, self.tarball_url@, self.version@)
    }
}

/// One entry of a repository's release listing, as far as it could be read.
pub struct ReleaseEntry {
    pub tag_name: Option<String>,
    pub published_at: Option<String>,
    pub tarball_url: Option<String>,
}

/// One entry of a repository's tag listing, as far as it could be read.
pub struct TagEntry {
    pub name: Option<String>,
}

/// What a scan of the release listing found.
pub enum ReleaseScan {
    /// The first release whose version fits.
    Found(GithubRelease),
    /// An entry before any fitting one has no tag, or the fitting one has no
    /// archive location: resolution gives up.
    Malformed,
    /// No release fits; the tag listing is consulted next.
    NoMatch,
}

/// Where a scan of a listing stops.
pub enum ScanStop {
    Hit(int),
    Broken,
    Miss,
}

/// The view of an optional string.
pub open spec fn opt_string_view(s: Option<String>) -> Option<Seq<char>> {
    match s {
        Some(t) => Some(t@),
        None => None,
    }
}

/// Whether a derived version satisfies the request: any version when none was
/// requested, else exactly the requested one.
pub open spec fn version_fits(requested: Option<Seq<char>>, derived: Seq<char>) -> bool {
    match requested {
        Some(v) => v == derived,
        None => true,
    }
}

/// The version derived from a release entry that has a tag.
pub open spec fn release_version(e: ReleaseEntry) -> Seq<char> {
    derive_version(e.tag_name->0@, opt_string_view(e.published_at))
}

/// The version derived from a tag entry that has a name; tags carry no
/// timestamp.
pub open spec fn tag_version(e: TagEntry) -> Seq<char> {
    derive_version(e.name->0@, None)
}

/// Where the scan of the release listing from position `i` stops.
pub open spec fn release_scan(rels: Seq<ReleaseEntry>, requested: Option<Seq<char>>, i: int) -> ScanStop
    decreases rels.len() - i,
{
    if i < 0 || i >= rels.len() {
        ScanStop::Miss
    } else if rels[i].tag_name is None {
        ScanStop::Broken
    } else if version_fits(requested, release_version(rels[i])) {
        if rels[i].tarball_url is None {
            ScanStop::Broken
        } else {
            ScanStop::Hit(i)
        }
    } else {
        release_scan(rels, requested, i + 1)
    }
}

/// Where the scan of the tag listing from position `i` stops.
pub open spec fn tag_scan(tags: Seq<TagEntry>, requested: Option<Seq<char>>, i: int) -> ScanStop
    decreases tags.len() - i,
{
    if i < 0 || i >= tags.len() {
        ScanStop::Miss
    } else if tags[i].name is None {
        ScanStop::Broken
    } else if version_fits(requested, tag_version(tags[i])) {
        ScanStop::Hit(i)
    } else {
        tag_scan(tags, requested, i + 1)
    }
}

/// The source-archive location that the host gives a tag of a repository.
pub open spec fn tag_archive_url(repo: Seq<char>, tag: Seq<char>) -> Seq<char> {
    "https://api.github.com/repos/"@ + repo + "/tarball/"@ + tag
}

/// The release that a release entry resolves to.
pub open spec fn release_of_entry(e: ReleaseEntry) -> (Seq<char>, Seq<char>, Seq<char>) {
    (e.tag_name->0@, e.tarball_url->0@, release_version(e))
}

/// The release that a tag entry resolves to.
pub open spec fn release_of_tag(repo: Seq<char>, e: TagEntry) -> (Seq<char>, Seq<char>, Seq<char>) {
    (e.name->0@, tag_archive_url(repo, e.name->0@), tag_version(e))
}

/// The whole resolution rule: the first fitting release, else the first
/// fitting tag, else nothing.
pub open spec fn resolution(
    repo: Seq<char>,
    rels: Seq<ReleaseEntry>,
    tags: Seq<TagEntry>,
    requested: Option<Seq<char>>,
) -> Option<(Seq<char>, Seq<char>, Seq<char>)> {
    match release_scan(rels, requested, 0) {
        ScanStop::Hit(i) => Some(release_of_entry(rels[i])),
        ScanStop::Broken => None,
        ScanStop::Miss => match tag_scan(tags, requested, 0) {
            ScanStop::Hit(i) => Some(release_of_tag(repo, tags[i])),
            _ => None,
        },
    }
}

fn same_text(a: &str, b: &str) -> (r: bool)
    ensures
        r == (a@ == b@),
{
    String::from_str(a) == String::from_str(b)
}

fn fits(requested: Option<&str>, derived: &String) -> (r: bool)
    ensures
        r == version_fits(opt_view(requested), derived@),
{
    match requested {
        Some(v) => same_text(v, derived.as_str()),
        None => true,
    }
}

fn opt_as_str(s: &Option<String>) -> (r: Option<&str>)
    ensures
        opt_view(r) == opt_string_view(*s),
{
    match s {
        Some(t) => Some(t.as_str()),
        None => None,
    }
}

/// Scans the release listing, newest first, for the first release whose
/// derived version fits the requested one.
pub fn scan_releases(releases: &Vec<ReleaseEntry>, version: Option<&str>) -> (r: ReleaseScan)
    ensures
        match release_scan(releases@, opt_view(version), 0) {
            ScanStop::Hit(i) => r matches ReleaseScan::Found(g) && g@ == release_of_entry(releases@[i]),
            ScanStop::Broken => r is Malformed,
            ScanStop::Miss => r is NoMatch,
        },
{
    let mut i: usize = 0;
    while i < releases.len()
        invariant
            i <= releases.len(),
            release_scan(releases@, opt_view(version), 0) == release_scan(releases@, opt_view(version), i as int),
        decreases releases.len() - i,
    {
        let e = &releases[i];
        match &e.tag_name {
            None => return ReleaseScan::Malformed,
            Some(tag) => {
                let rel_ver = extract_deb_version(tag.as_str(), opt_as_str(&e.published_at));
                if fits(version, &rel_ver) {
                    match &e.tarball_url {
                        None => return ReleaseScan::Malformed,
                        Some(url) => {
                            return ReleaseScan::Found(
                                GithubRelease { tag: tag.clone(), tarball_url: url.clone(), version: rel_ver },
                            );
                        },
                    }
                }
            },
        }
        i = i + 1;
    }
    ReleaseScan::NoMatch
}

/// The source-archive location that the host gives `tag` of `repo`.
pub fn tarball_url_for_tag(repo: &str, tag: &str) -> (r: String)
    ensures
        r@ == tag_archive_url(repo@, tag@),
{
    let p = "https://api.github.com/repos/";
    let q = "/tarball/";
    proof {
        reveal_strlit("https://api.github.com/repos/");
        reveal_strlit("/tarball/");
    }
    let mut url = String::from_str(p);
    url.append(repo);
    url.append(q);
    url.append(tag);
    url
}

/// Scans the tag listing for the first tag whose derived version fits the
/// requested one, and gives it the host's tag-archive location.
pub fn scan_tags(repo: &str, tags: &Vec<TagEntry>, version: Option<&str>) -> (r: Option<GithubRelease>)
    ensures
        match tag_scan(tags@, opt_view(version), 0) {
            ScanStop::Hit(i) => r matches Some(g) && g@ == release_of_tag(repo@, tags@[i]),
            _ => r is None,
        },
{
    let mut i: usize = 0;
    while i < tags.len()
        invariant
            i <= tags.len(),
            tag_scan(tags@, opt_view(version), 0) == tag_scan(tags@, opt_view(version), i as int),
        decreases tags.len() - i,
    {
        match &tags[i].name {
            None => return None,
            Some(name) => {
                let rel_ver = extract_deb_version(name.as_str(), None);
                if fits(version, &rel_ver) {
                    let url = tarball_url_for_tag(repo, name.as_str());
                    return Some(GithubRelease { tag: name.clone(), tarball_url: url, version: rel_ver });
                }
            },
        }
        i = i + 1;
    }
    None
}

/// Resolves a repository's release from its release and tag listings: the
/// first fitting release, else the first fitting tag.
pub fn resolve(repo: &str, releases: &Vec<ReleaseEntry>, tags: &Vec<TagEntry>, version: Option<&str>) -> (r: Option<GithubRelease>)
    ensures
        match r {
            Some(g) => resolution(repo@, releases@, tags@, opt_view(version)) == Some(g@),
            None => resolution(repo@, releases@, tags@, opt_view(version)) is None,
        },
{
    match scan_releases(releases, version) {
        ReleaseScan::Found(g) => Some(g),
        ReleaseScan::Malformed => None,
        ReleaseScan::NoMatch => scan_tags(repo, tags, version),
    }
}

proof fn lemma_release_scan_hits(
    rels: Seq<ReleaseEntry>,
    requested: Option<Seq<char>>,
    i: int,
    j: int,
)
    requires
        0 <= i <= j < rels.len(),
        forall|k: int| 0 <= k <= j ==> rels[k].tag_name is Some && rels[k].tarball_url is Some,
        version_fits(requested, release_version(rels[j])),
    ensures
        release_scan(rels, requested, i) matches ScanStop::Hit(k) && i <= k <= j && version_fits(
            requested,
            release_version(rels[k]),
        ),
    decreases j - i,
{
    if !version_fits(requested, release_version(rels[i])) {
        lemma_release_scan_hits(rels, requested, i + 1, j);
    }
}

/// A fitting release is preferred to every tag: when the release listing
/// holds one whose version fits, and its entries up to it are complete,
/// resolution gives a fitting release of that listing, whatever the tags.
pub proof fn lemma_release_preferred(
    repo: Seq<char>,
    rels: Seq<ReleaseEntry>,
    tags: Seq<TagEntry>,
    requested: Option<Seq<char>>,
    j: int,
)
    requires
        0 <= j < rels.len(),
        forall|k: int| 0 <= k <= j ==> rels[k].tag_name is Some && rels[k].tarball_url is Some,
        version_fits(requested, release_version(rels[j])),
    ensures
        exists|i: int|
            0 <= i <= j && version_fits(requested, release_version(rels[i])) && resolution(
                repo,
                rels,
                tags,
                requested,
            ) == Some(#[trigger] release_of_entry(rels[i])),
{
    lemma_release_scan_hits(rels, requested, 0, j);
    if let ScanStop::Hit(k) = release_scan(rels, requested, 0) {
        assert(resolution(repo, rels, tags, requested) == Some(release_of_entry(rels[k])));
    }
}

} // verus!
