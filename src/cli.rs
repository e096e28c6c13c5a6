//! The options that select what a run does.
use vstd::prelude::*;

verus! {

/// The options of one run: verbosity, configuration location, which packages
/// to handle, whether to install or only list, and where to log and build.
pub struct CliArgs {
    pub verbose: u8,
    pub debug: bool,
    pub config: Option<String>,
    pub install: bool,
    pub list: bool,
    pub all: bool,
    pub packages: Option<String>,
    pub log: bool,
    pub log_dir: Option<String>,
    pub build_root: Option<String>,
}

} // verus!
