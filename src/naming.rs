//! Names of the files and directories a build produces.
use vstd::prelude::*;
use vstd::string::*;
use crate::pipeline::Phase;

verus! {

/// The name of a command phase in log file names.
pub open spec fn phase_name(p: Phase) -> Seq<char> {
    match p {
        Phase::Configure => "configure"@,
        Phase::Build => "build"@,
        Phase::Install => "install"@,
    }
}

/// `name-version`: the persistent work directory of a build.
pub open spec fn work_dir_name_of(name: Seq<char>, version: Seq<char>) -> Seq<char> {
    name + "-"@ + version
}

/// `name-version.deb`: the archive a build produces.
pub open spec fn archive_name_of(name: Seq<char>, version: Seq<char>) -> Seq<char> {
    work_dir_name_of(name, version) + ".deb"@
}

/// `name-phase-timestamp.log`: the log of one command phase.
pub open spec fn log_name_of(name: Seq<char>, p: Phase, timestamp: Seq<char>) -> Seq<char> {
    name + "-"@ + phase_name(p) + "-"@ + timestamp + ".log"@
}

/// The name of a command phase.
pub fn phase_label(p: Phase) -> (r: &'static str)
    ensures
        r@ == phase_name(p),
{
    proof {
        reveal_strlit("configure");
        reveal_strlit("build");
        reveal_strlit("install");
    }
    match p {
        Phase::Configure => "configure",
        Phase::Build => "build",
        Phase::Install => "install",
    }
}

/// The persistent work directory name of a package version.
pub fn work_dir_name(name: &str, version: &str) -> (r: String)
    ensures
        r@ == work_dir_name_of(name@, version@),
{
    proof {
        reveal_strlit("-");
    }
    let mut s = String::from_str(name);
    s.append("-");
    s.append(version);
    s
}

/// The file name of the archive built for a package version.
pub fn archive_file_name(name: &str, version: &str) -> (r: String)
    ensures
        r@ == archive_name_of(name@, version@),
{
    proof {
        reveal_strlit(".deb");
    }
    let mut s = work_dir_name(name, version);
    s.append(".deb");
    s
}

/// The log file name of a command phase of a package.
pub fn log_file_name(name: &str, p: Phase, timestamp: &str) -> (r: String)
    ensures
        r@ == log_name_of(name@, p, timestamp@),
{
    proof {
        reveal_strlit("-");
        reveal_strlit(".log");
    }
    let mut s = String::from_str(name);
    s.append("-");
    s.append(phase_label(p));
    s.append("-");
    s.append(timestamp);
    s.append(".log");
    s
}

} // verus!
