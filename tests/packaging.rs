use mkdeb::control::{control_contents, ControlMetadata};
use mkdeb::fetch::{DownloadProgress, TransferError};
use mkdeb::naming::{archive_file_name, log_file_name, work_dir_name};
use mkdeb::package::{first_duplicate_name, Package};
use mkdeb::pipeline::{is_same_version, single_directory, Phase};
use mkdeb::select::{select_packages, split_names};

fn pkg(name: &str) -> Package {
    Package {
        name: name.to_string(),
        repo: format!("o/{}", name),
        version: None,
        configure: None,
        build: None,
        install: None,
        deps: None,
        build_deps: None,
        maintainer: None,
        description: None,
    }
}

#[test]
fn control_block_defaults() {
    let meta = ControlMetadata {
        name: "foo",
        version: "1.2.3",
        arch: "amd64",
        maintainer: None,
        description: None,
        deps: None,
        build_deps: None,
    };
    assert_eq!(
        control_contents(&meta),
        "Package: foo\nVersion: 1.2.3\nArchitecture: amd64\nMaintainer: mkdeb <noreply@example.com>\nDescription: Auto-packaged by mkdeb\n"
    );
}

#[test]
fn control_block_optional_fields() {
    let meta = ControlMetadata {
        name: "foo",
        version: "1",
        arch: "arm64",
        maintainer: Some("Me <me@x>"),
        description: Some("A tool"),
        deps: Some("libc6"),
        build_deps: Some("gcc"),
    };
    assert_eq!(
        control_contents(&meta),
        "Package: foo\nVersion: 1\nArchitecture: arm64\nMaintainer: Me <me@x>\nDescription: A tool\nDepends: libc6\nBuild-Depends: gcc\n"
    );
}

#[test]
fn file_names() {
    assert_eq!(archive_file_name("foo", "1.2.3"), "foo-1.2.3.deb");
    assert_eq!(work_dir_name("foo", "1.2.3"), "foo-1.2.3");
    assert_eq!(log_file_name("foo", Phase::Configure, "20240102-030405"), "foo-configure-20240102-030405.log");
    assert_eq!(log_file_name("foo", Phase::Build, "t"), "foo-build-t.log");
    assert_eq!(log_file_name("foo", Phase::Install, "t"), "foo-install-t.log");
}

#[test]
fn one_top_directory_required() {
    assert_eq!(single_directory(&vec![false, true]), Some(1));
    assert_eq!(single_directory(&vec![true, false, true]), None);
    assert_eq!(single_directory(&vec![false]), None);
    assert_eq!(single_directory(&Vec::new()), None);
}

#[test]
fn installed_version_comparison() {
    assert!(is_same_version(Some("1.2.3"), "1.2.3"));
    assert!(!is_same_version(Some("1.2.2"), "1.2.3"));
    assert!(!is_same_version(None, "1.2.3"));
}

#[test]
fn download_length_checked() {
    let mut p = DownloadProgress::new(Some(10));
    assert!(p.is_determinate());
    p.record(4);
    p.record(6);
    assert_eq!(p.finish(), Ok(10));
    let mut q = DownloadProgress::new(Some(10));
    q.record(3);
    assert_eq!(q.finish(), Err(TransferError::LengthMismatch { declared: 10, received: 3 }));
    let mut u = DownloadProgress::new(None);
    assert!(!u.is_determinate());
    u.record(7);
    assert_eq!(u.finish(), Ok(7));
    assert!(u.can_record(5));
    assert!(!u.can_record(u64::MAX));
}

#[test]
fn package_names_split() {
    assert_eq!(split_names("a,b,,c"), vec!["a", "b", "", "c"]);
    assert_eq!(split_names(""), vec![""]);
}

#[test]
fn packages_selected() {
    let pkgs = vec![pkg("a"), pkg("b"), pkg("c")];
    assert_eq!(select_packages(&pkgs, true, None), Some(vec![0, 1, 2]));
    assert_eq!(select_packages(&pkgs, false, Some("c,a,x")), Some(vec![0, 2]));
    assert_eq!(select_packages(&pkgs, false, None), None);
}

#[test]
fn duplicate_names_found() {
    assert_eq!(first_duplicate_name(&vec![pkg("a"), pkg("b"), pkg("a"), pkg("b")]), Some(2));
    assert_eq!(first_duplicate_name(&vec![pkg("a"), pkg("b")]), None);
}
