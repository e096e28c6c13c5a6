//! The packaging metadata block written into the staged tree.
use vstd::prelude::*;
use vstd::string::*;

verus! {

/// The fields of the packaging metadata block.
pub struct ControlMetadata<'a> {
    pub name: &'a str,
    pub version: &'a str,
    pub arch: &'a str,
    pub maintainer: Option<&'a str>,
    pub description: Option<&'a str>,
    pub deps: Option<&'a str>,
    pub build_deps: Option<&'a str>,
}

/// `value`, or `default` when there is none.
pub open spec fn or_default(value: Option<&str>, default: Seq<char>) -> Seq<char> {
    match value {
        Some(v) => v@,
        None => default,
    }
}

/// One `Key: value` line.
pub open spec fn field_line(key: Seq<char>, value: Seq<char>) -> Seq<char> {
    key + ": "@ + value + "\n"@
}

/// A line that appears only when its value is present.
pub open spec fn optional_line(key: Seq<char>, value: Option<&str>) -> Seq<char> {
    match value {
        Some(v) => field_line(key, v@),
        None => Seq::empty(),
    }
}

/// The maintainer named when the package gives none.
pub open spec fn default_maintainer() -> Seq<char> {
    "mkdeb <noreply@example.com>"@
}

/// The description used when the package gives none.
pub open spec fn default_description() -> Seq<char> {
    "Auto-packaged by mkdeb"@
}

/// The metadata block: the five mandatory fields in order, then `Depends` and
/// `Build-Depends` where present.
pub open spec fn control_block(meta: ControlMetadata) -> Seq<char> {
    field_line("Package"@, meta.name@) + field_line("Version"@, meta.version@) + field_line(
        "Architecture"@,
        meta.arch@,
    ) + field_line("Maintainer"@, or_default(meta.maintainer, default_maintainer()))
        + field_line("Description"@, or_default(meta.description, default_description()))
        + optional_line("Depends"@, meta.deps) + optional_line("Build-Depends"@, meta.build_deps)
}

fn push_field(out: &mut String, key: &str, value: &str)
    ensures
        final(out)@ == old(out)@ + field_line(key@, value@),
{
    let sep = ": ";
    let nl = "\n";
    proof {
        reveal_strlit(": ");
        reveal_strlit("\n");
    }
    out.append(key);
    out.append(sep);
    out.append(value);
    out.append(nl);
    assert(final(out)@ =~= old(out)@ + field_line(key@, value@));
}

/// Renders the packaging metadata block.
pub fn control_contents(meta: &ControlMetadata) -> (r: String)
    ensures
        r@ == control_block(*meta),
{
    proof {
        reveal_strlit("Package");
        reveal_strlit("Version");
        reveal_strlit("Architecture");
        reveal_strlit("Maintainer");
        reveal_strlit("Description");
        reveal_strlit("Depends");
        reveal_strlit("Build-Depends");
        reveal_strlit("mkdeb <noreply@example.com>");
        reveal_strlit("Auto-packaged by mkdeb");
    }
    let mut out = String::new();
    push_field(&mut out, "Package", meta.name);
    push_field(&mut out, "Version", meta.version);
    push_field(&mut out, "Architecture", meta.arch);
    let maintainer = match meta.maintainer {
        Some(m) => m,
        None => "mkdeb <noreply@example.com>",
    };
    push_field(&mut out, "Maintainer", maintainer);
    let description = match meta.description {
        Some(d) => d,
        None => "Auto-packaged by mkdeb",
    };
    push_field(&mut out, "Description", description);
    let ghost mandatory = out@;
    if let Some(d) = meta.deps {
        push_field(&mut out, "Depends", d);
    }
    let ghost with_deps = out@;
    assert(with_deps =~= mandatory + optional_line("Depends"@, meta.deps));
    if let Some(b) = meta.build_deps {
        push_field(&mut out, "Build-Depends", b);
    }
    assert(out@ =~= with_deps + optional_line("Build-Depends"@, meta.build_deps));
    assert(out@ =~= control_block(*meta));
    out
}

} // verus!
