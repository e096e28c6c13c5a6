use mkdeb::command::{interpolate, shell_command, substitute_destdir};
use mkdeb::naming::archive_file_name;
use mkdeb::version::extract_deb_version;

#[test]
fn placeholder_replaced_twice() {
    let r = interpolate("mkdir -p {destdir}/bin && cp x {destdir}/bin", Some("/stage/pkg"));
    assert_eq!(r, "mkdir -p /stage/pkg/bin && cp x /stage/pkg/bin");
}

#[test]
fn template_unchanged_without_destdir() {
    assert_eq!(interpolate("make DESTDIR={destdir} install", None), "make DESTDIR={destdir} install");
}

#[test]
fn partial_placeholder_kept() {
    assert_eq!(substitute_destdir("{destdi {destdir}}", "/d"), "{destdi /d}");
    assert_eq!(substitute_destdir("", "/d"), "");
    assert_eq!(substitute_destdir("{destdir}", ""), "");
}

#[test]
fn shell_line_fail_fast() {
    assert_eq!(shell_command("make", 0, None), "set -e; make");
    assert_eq!(shell_command("make", 1, Some("/x")), "set -e; make");
}

#[test]
fn shell_line_traced_at_highest_verbosity() {
    assert_eq!(shell_command("cp a {destdir}", 2, Some("/x")), "set -xe; cp a /x");
}

#[test]
fn end_to_end_names() {
    let version = extract_deb_version("v1.2.3", None);
    assert_eq!(archive_file_name("foo", &version), "foo-1.2.3.deb");
    assert_eq!(
        shell_command("echo configuring > {destdir}/marker", 0, Some("/w/src/pkg")),
        "set -e; echo configuring > /w/src/pkg/marker"
    );
}

#[test]
fn log_records_end_lines() {
    use_record("building", "building\n");
    use_record("", "\n");
}

fn use_record(line: &str, expected: &str) {
    assert_eq!(mkdeb::capture::log_record(line), expected);
}
