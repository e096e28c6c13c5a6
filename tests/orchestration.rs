use mkdeb::package::Package;
use mkdeb::pipeline::{Action, BuildPlan, Event, Orchestrator, Phase, Stage};

fn plan(install_mode: bool, configure: bool, build: bool, install: bool) -> BuildPlan {
    BuildPlan { install_mode, configure, build, install }
}

#[test]
fn full_build_order() {
    let mut o = Orchestrator::new(plan(true, true, true, true));
    assert!(o.stage == Stage::Resolving);
    assert!(o.step(Event::Resolved) == Action::QueryInstalled);
    assert!(o.step(Event::InstalledChecked { same_version: false }) == Action::Fetch);
    assert!(o.step(Event::Succeeded) == Action::Unpack);
    assert!(o.step(Event::Succeeded) == Action::RunCommand(Phase::Configure));
    assert!(o.step(Event::Succeeded) == Action::RunCommand(Phase::Build));
    assert!(o.step(Event::Succeeded) == Action::RunCommand(Phase::Install));
    assert!(o.step(Event::Succeeded) == Action::Package);
    assert!(o.step(Event::Succeeded) == Action::InstallArchive);
    assert!(o.step(Event::Succeeded) == Action::Finish);
    assert!(o.stage == Stage::Done);
}

#[test]
fn absent_stages_skipped() {
    let mut o = Orchestrator::new(plan(false, true, false, false));
    assert!(o.step(Event::Resolved) == Action::Fetch);
    assert!(o.step(Event::Succeeded) == Action::Unpack);
    assert!(o.step(Event::Succeeded) == Action::RunCommand(Phase::Configure));
    assert!(o.step(Event::Succeeded) == Action::Package);
    assert!(o.step(Event::Succeeded) == Action::Finish);
    let mut n = Orchestrator::new(plan(false, false, false, true));
    n.step(Event::Resolved);
    n.step(Event::Succeeded);
    assert!(n.step(Event::Succeeded) == Action::RunCommand(Phase::Install));
}

#[test]
fn failing_configure_stops_everything() {
    let mut o = Orchestrator::new(plan(false, true, true, true));
    o.step(Event::Resolved);
    o.step(Event::Succeeded);
    assert!(o.step(Event::Succeeded) == Action::RunCommand(Phase::Configure));
    assert!(o.step(Event::Failed) == Action::Abort);
    assert!(o.stage == Stage::Aborted);
    assert!(o.step(Event::Succeeded) == Action::Idle);
    assert!(o.step(Event::Succeeded) == Action::Idle);
}

#[test]
fn installed_version_short_circuits() {
    let mut o = Orchestrator::new(plan(true, true, true, true));
    assert!(o.step(Event::Resolved) == Action::QueryInstalled);
    assert!(o.step(Event::InstalledChecked { same_version: true }) == Action::StopRun);
    assert!(o.stage == Stage::AlreadyInstalled);
    assert!(o.step(Event::Succeeded) == Action::Idle);
}

#[test]
fn not_found_aborts() {
    let mut o = Orchestrator::new(plan(false, false, false, false));
    assert!(o.step(Event::NotFound) == Action::Abort);
    let mut f = Orchestrator::new(plan(false, false, false, false));
    f.step(Event::Resolved);
    assert!(f.step(Event::Failed) == Action::Abort);
}

#[test]
fn plan_follows_package() {
    let p = Package {
        name: "foo".to_string(),
        repo: "o/foo".to_string(),
        version: None,
        configure: Some("echo configuring > {destdir}/marker".to_string()),
        build: None,
        install: None,
        deps: None,
        build_deps: None,
        maintainer: None,
        description: None,
    };
    let b = BuildPlan::for_package(&p, false);
    assert!(b == plan(false, true, false, false));
}
