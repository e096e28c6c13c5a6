//! The per-package build state machine. Each step takes the outcome of the
//! previous action and names the next one; the caller performs the actions.
use vstd::prelude::*;
use crate::package::Package;
use vstd::string::*;

verus! {

/// A command stage of a build, run in this order.
#[derive(PartialEq, Eq, Structural, Clone, Copy)]
pub enum Phase {
    Configure,
    Build,
    Install,
}

/// Where a package's build stands.
#[derive(PartialEq, Eq, Structural, Clone, Copy)]
pub enum Stage {
    Resolving,
    CheckingInstalled,
    Fetching,
    Unpacking,
    Running(Phase),
    Packaging,
    InstallingLocally,
    Done,
    AlreadyInstalled,
    Aborted,
}

/// The outcome of the action last asked for.
#[derive(PartialEq, Eq, Structural, Clone, Copy)]
pub enum Event {
    /// The resolver found a release.
    Resolved,
    /// The resolver found none.
    NotFound,
    /// The host was asked for the installed version; whether it equals the
    /// resolved one.
    InstalledChecked { same_version: bool },
    /// The action finished without error.
    Succeeded,
    /// The action failed.
    Failed,
}

/// What the caller does next.
#[derive(PartialEq, Eq, Structural, Clone, Copy)]
pub enum Action {
    /// Ask the host for the installed version of the package.
    QueryInstalled,
    /// Fetch the source archive into the work directory.
    Fetch,
    /// Unpack the archive and prepare the staging directory.
    Unpack,
    /// Run the command of this phase in the extracted tree.
    RunCommand(Phase),
    /// Write the metadata into the staged tree and build the archive.
    Package,
    /// Install the produced archive on the host.
    InstallArchive,
    /// The package is built; go on with the next one.
    Finish,
    /// The same version is installed: end the whole run successfully.
    StopRun,
    /// Abort the run with a failure.
    Abort,
    /// Nothing is left to do for this package.
    Idle,
}

/// Which stages a package's build goes through.
#[derive(PartialEq, Eq, Structural, Clone, Copy)]
pub struct BuildPlan {
    pub install_mode: bool,
    pub configure: bool,
    pub build: bool,
    pub install: bool,
}

/// The first stage from `p` on (in phase order) whose command is present,
/// else packaging.
pub open spec fn stage_from(plan: BuildPlan, p: Phase) -> Stage {
    match p {
        Phase::Configure => if plan.configure {
            Stage::Running(Phase::Configure)
        } else if plan.build {
            Stage::Running(Phase::Build)
        } else if plan.install {
            Stage::Running(Phase::Install)
        } else {
            Stage::Packaging
        },
        Phase::Build => if plan.build {
            Stage::Running(Phase::Build)
        } else if plan.install {
            Stage::Running(Phase::Install)
        } else {
            Stage::Packaging
        },
        Phase::Install => if plan.install {
            Stage::Running(Phase::Install)
        } else {
            Stage::Packaging
        },
    }
}

/// The stage after a phase's command succeeded.
pub open spec fn stage_after(plan: BuildPlan, p: Phase) -> Stage {
    match p {
        Phase::Configure => stage_from(plan, Phase::Build),
        Phase::Build => stage_from(plan, Phase::Install),
        Phase::Install => Stage::Packaging,
    }
}

/// The action that entering a working stage asks for.
pub open spec fn action_of(s: Stage) -> Action {
    match s {
        Stage::Running(p) => Action::RunCommand(p),
        Stage::Packaging => Action::Package,
        _ => Action::Idle,
    }
}

/// One step of the machine: the next stage and the action it asks for.
pub open spec fn transition(plan: BuildPlan, s: Stage, e: Event) -> (Stage, Action) {
    match s {
        Stage::Resolving => match e {
            Event::Resolved => if plan.install_mode {
                (Stage::CheckingInstalled, Action::QueryInstalled)
            } else {
                (Stage::Fetching, Action::Fetch)
            },
            _ => (Stage::Aborted, Action::Abort),
        },
        Stage::CheckingInstalled => match e {
            Event::InstalledChecked { same_version } => if same_version {
                (Stage::AlreadyInstalled, Action::StopRun)
            } else {
                (Stage::Fetching, Action::Fetch)
            },
            _ => (Stage::Aborted, Action::Abort),
        },
        Stage::Fetching => match e {
            Event::Succeeded => (Stage::Unpacking, Action::Unpack),
            _ => (Stage::Aborted, Action::Abort),
        },
        Stage::Unpacking => match e {
            Event::Succeeded => (
                stage_from(plan, Phase::Configure),
                action_of(stage_from(plan, Phase::Configure)),
            ),
            _ => (Stage::Aborted, Action::Abort),
        },
        Stage::Running(p) => match e {
            Event::Succeeded => (stage_after(plan, p), action_of(stage_after(plan, p))),
            _ => (Stage::Aborted, Action::Abort),
        },
        Stage::Packaging => match e {
            Event::Succeeded => if plan.install_mode {
                (Stage::InstallingLocally, Action::InstallArchive)
            } else {
                (Stage::Done, Action::Finish)
            },
            _ => (Stage::Aborted, Action::Abort),
        },
        Stage::InstallingLocally => match e {
            Event::Succeeded => (Stage::Done, Action::Finish),
            _ => (Stage::Aborted, Action::Abort),
        },
        Stage::Done => (Stage::Done, Action::Idle),
        Stage::AlreadyInstalled => (Stage::AlreadyInstalled, Action::Idle),
        Stage::Aborted => (Stage::Aborted, Action::Idle),
    }
}

/// The actions that a sequence of outcomes draws from the machine, started in
/// stage `s`.
pub open spec fn actions_from(plan: BuildPlan, s: Stage, events: Seq<Event>) -> Seq<Action>
    decreases events.len(),
{
    if events.len() == 0 {
        Seq::empty()
    } else {
        let (next, a) = transition(plan, s, events[0]);
        seq![a] + actions_from(plan, next, events.drop_first())
    }
}

/// Whether an action touches the sources, runs a command or packages.
pub open spec fn is_build_work(a: Action) -> bool {
    match a {
        Action::Fetch | Action::Unpack | Action::RunCommand(_) | Action::Package
        | Action::InstallArchive => true,
        _ => false,
    }
}

/// The build of one package.
pub struct Orchestrator {
    pub plan: BuildPlan,
    pub stage: Stage,
}

impl BuildPlan {
    /// The plan of a package: a command stage runs only where its command is
    /// present.
    pub fn for_package(pkg: &Package, install_mode: bool) -> (r: BuildPlan)
        ensures
            r.install_mode == install_mode,
            r.configure == pkg.configure is Some,
            r.build == pkg.build is Some,
            r.install == pkg.install is Some,
    {
        BuildPlan {
            install_mode,
            configure: pkg.configure.is_some(),
            build: pkg.build.is_some(),
            install: pkg.install.is_some(),
        }
    }
}

fn next_command_stage(plan: BuildPlan, p: Phase) -> (r: Stage)
    ensures
        r == stage_from(plan, p),
{
    let configure = match p {
        Phase::Configure => plan.configure,
        _ => false,
    };
    let build = match p {
        Phase::Install => false,
        _ => plan.build,
    };
    if configure {
        Stage::Running(Phase::Configure)
    } else if build {
        Stage::Running(Phase::Build)
    } else if plan.install {
        Stage::Running(Phase::Install)
    } else {
        Stage::Packaging
    }
}

fn entering(s: Stage) -> (r: (Stage, Action))
    ensures
        r == (s, action_of(s)),
{
    match s {
        Stage::Running(p) => (s, Action::RunCommand(p)),
        Stage::Packaging => (s, Action::Package),
        _ => (s, Action::Idle),
    }
}

impl Orchestrator {
    /// A build that starts by resolving the release; the first action is to
    /// resolve it.
    pub fn new(plan: BuildPlan) -> (r: Orchestrator)
        ensures
            r.plan == plan,
            r.stage == Stage::Resolving,
    {
        Orchestrator { plan, stage: Stage::Resolving }
    }

    /// Takes the outcome of the last action and returns the next action.
    pub fn step(&mut self, event: Event) -> (a: Action)
        ensures
            final(self).plan == old(self).plan,
            (final(self).stage, a) == transition(old(self).plan, old(self).stage, event),
    {
        let plan = self.plan;
        let abort = (Stage::Aborted, Action::Abort);
        let (next, action) = match self.stage {
            Stage::Resolving => match event {
                Event::Resolved => if plan.install_mode {
                    (Stage::CheckingInstalled, Action::QueryInstalled)
                } else {
                    (Stage::Fetching, Action::Fetch)
                },
                _ => abort,
            },
            Stage::CheckingInstalled => match event {
                Event::InstalledChecked { same_version } => if same_version {
                    (Stage::AlreadyInstalled, Action::StopRun)
                } else {
                    (Stage::Fetching, Action::Fetch)
                },
                _ => abort,
            },
            Stage::Fetching => match event {
                Event::Succeeded => (Stage::Unpacking, Action::Unpack),
                _ => abort,
            },
            Stage::Unpacking => match event {
                Event::Succeeded => entering(next_command_stage(plan, Phase::Configure)),
                _ => abort,
            },
            Stage::Running(p) => match event {
                Event::Succeeded => match p {
                    Phase::Configure => entering(next_command_stage(plan, Phase::Build)),
                    Phase::Build => entering(next_command_stage(plan, Phase::Install)),
                    Phase::Install => (Stage::Packaging, Action::Package),
                },
                _ => abort,
            },
            Stage::Packaging => match event {
                Event::Succeeded => if plan.install_mode {
                    (Stage::InstallingLocally, Action::InstallArchive)
                } else {
                    (Stage::Done, Action::Finish)
                },
                _ => abort,
            },
            Stage::InstallingLocally => match event {
                Event::Succeeded => (Stage::Done, Action::Finish),
                _ => abort,
            },
            Stage::Done => (Stage::Done, Action::Idle),
            Stage::AlreadyInstalled => (Stage::AlreadyInstalled, Action::Idle),
            Stage::Aborted => (Stage::Aborted, Action::Idle),
        };
        self.stage = next;
        action
    }
}

/// A finished, skipped or aborted build asks for nothing more, whatever
/// outcomes follow.
pub proof fn lemma_terminal_stays_idle(plan: BuildPlan, s: Stage, events: Seq<Event>)
    requires
        s == Stage::Done || s == Stage::AlreadyInstalled || s == Stage::Aborted,
    ensures
        actions_from(plan, s, events).len() == events.len(),
        forall|k: int|
            0 <= k < events.len() ==> #[trigger] actions_from(plan, s, events)[k] == Action::Idle,
    decreases events.len(),
{
    if events.len() > 0 {
        lemma_terminal_stays_idle(plan, s, events.drop_first());
        let rest = actions_from(plan, s, events.drop_first());
        assert(actions_from(plan, s, events) == seq![Action::Idle] + rest);
        assert forall|k: int| 0 <= k < events.len() implies #[trigger] actions_from(
            plan,
            s,
            events,
        )[k] == Action::Idle by {
            if k > 0 {
                assert(actions_from(plan, s, events)[k] == rest[k - 1]);
            }
        }
    }
}

/// A failing configure command aborts the build: the run is aborted at once,
/// and no later build or install command, packaging or installation is asked
/// for, whatever outcomes follow.
pub proof fn lemma_failed_configure_stops(plan: BuildPlan, events: Seq<Event>)
    ensures
        actions_from(plan, Stage::Running(Phase::Configure), seq![Event::Failed] + events)[0]
            == Action::Abort,
        forall|k: int|
            0 <= k < events.len() + 1 ==> !is_build_work(
                #[trigger] actions_from(plan, Stage::Running(Phase::Configure), seq![Event::Failed] + events)[k],
            ),
{
    let all = seq![Event::Failed] + events;
    assert(all.drop_first() =~= events);
    lemma_terminal_stays_idle(plan, Stage::Aborted, events);
    let acts = actions_from(plan, Stage::Running(Phase::Configure), all);
    assert(acts == seq![Action::Abort] + actions_from(plan, Stage::Aborted, events));
    assert forall|k: int| 0 <= k < events.len() + 1 implies !is_build_work(#[trigger] acts[k]) by {
        if k > 0 {
            assert(acts[k] == actions_from(plan, Stage::Aborted, events)[k - 1]);
        }
    }
}

/// In install mode, when the installed version equals the resolved one, the
/// run ends successfully right after the query: nothing is fetched, unpacked,
/// run or packaged, whatever outcomes follow.
pub proof fn lemma_installed_short_circuit(plan: BuildPlan, events: Seq<Event>)
    requires
        plan.install_mode,
    ensures
        ({
            let acts = actions_from(
                plan,
                Stage::Resolving,
                seq![Event::Resolved, Event::InstalledChecked { same_version: true }] + events,
            );
            &&& acts[0] == Action::QueryInstalled
            &&& acts[1] == Action::StopRun
            &&& forall|k: int| 0 <= k < events.len() + 2 ==> !is_build_work(#[trigger] acts[k])
        }),
{
    let checked = Event::InstalledChecked { same_version: true };
    let all = seq![Event::Resolved, checked] + events;
    let tail = seq![checked] + events;
    assert(all.drop_first() =~= tail);
    assert(tail.drop_first() =~= events);
    lemma_terminal_stays_idle(plan, Stage::AlreadyInstalled, events);
    let rest = actions_from(plan, Stage::AlreadyInstalled, events);
    let acts = actions_from(plan, Stage::Resolving, all);
    assert(actions_from(plan, Stage::CheckingInstalled, tail) == seq![Action::StopRun] + rest);
    assert(acts == seq![Action::QueryInstalled] + (seq![Action::StopRun] + rest));
    assert forall|k: int| 0 <= k < events.len() + 2 implies !is_build_work(#[trigger] acts[k]) by {
        if k > 1 {
            assert(acts[k] == rest[k - 2]);
        }
    }
}

/// How many entries are directories.
pub open spec fn directory_count(is_dir: Seq<bool>) -> nat
    decreases is_dir.len(),
{
    if is_dir.len() == 0 {
        0
    } else {
        (if is_dir.last() { 1nat } else { 0nat }) + directory_count(is_dir.drop_last())
    }
}

/// The position of the one directory among the entries of an unpacked work
/// directory; `None` when there is no directory or more than one, which marks
/// the archive as malformed.
pub fn single_directory(is_dir: &Vec<bool>) -> (r: Option<usize>)
    ensures
        match r {
            Some(i) => directory_count(is_dir@) == 1 && i < is_dir@.len() && is_dir@[i as int],
            None => directory_count(is_dir@) != 1,
        },
{
    let mut found: Option<usize> = None;
    let mut count: usize = 0;
    let mut i: usize = 0;
    while i < is_dir.len()
        invariant
            i <= is_dir.len(),
            count == directory_count(is_dir@.take(i as int)),
            count <= i,
            count == 0 ==> found is None,
            count > 0 ==> found is Some,
            found matches Some(k) ==> k < i && is_dir@[k as int],
        decreases is_dir.len() - i,
    {
        assert(is_dir@.take(i + 1).drop_last() =~= is_dir@.take(i as int));
        if is_dir[i] {
            if count == 0 {
                found = Some(i);
            }
            count = count + 1;
        }
        i = i + 1;
    }
    assert(is_dir@.take(i as int) =~= is_dir@);
    if count == 1 {
        found
    } else {
        None
    }
}

/// Whether the host's installed version of a package equals the resolved one.
pub fn is_same_version(installed: Option<&str>, version: &str) -> (r: bool)
    ensures
        r == (installed matches Some(v) && v@ == version@),
{
    match installed {
        Some(v) => {
            let a = String::from_str(v);
            let b = String::from_str(version);
            a == b
        },
        None => false,
    }
}

} // verus!
