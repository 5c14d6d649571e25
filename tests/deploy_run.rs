use harddots::config::{Application, HarddotsConfig};
use harddots::error::HarddotsError;
use harddots::host::{Host, OsType};
use harddots::link::{link_plan, LinkPlan};
use harddots::run::{DeployAction, DeployEvent, DeployRun, Stage};

fn starship() -> Application {
    Application::new(
        "starship".to_string(),
        "/tmp/h/starship.toml".to_string(),
        "starship/starship.toml".to_string(),
        Some("starship".to_string()),
        None,
        None,
    )
}

fn manifest(apps: Vec<Application>) -> HarddotsConfig {
    HarddotsConfig {
        git_repo: "https://example.test/dots.git".to_string(),
        cache_dir: Some("/c".to_string()),
        applications: apps,
    }
}

fn mac() -> Host {
    Host { os_type: OsType::MacOS, root_cmd: "sudo".to_string() }
}

fn link(source: &str, target: &str) -> DeployAction {
    DeployAction::Link { source: source.to_string(), target: target.to_string() }
}

#[test]
fn deploy_all_empty_manifest_finishes_at_once() {
    let m = manifest(vec![]);
    let mut run = DeployRun::start(&m, "all", false, None).unwrap();
    assert_eq!(run.step(&m, &mac(), DeployEvent::Proceed), DeployAction::Done("Successfully deployed all".to_string()));
    assert_eq!(run.stage, Stage::Finished);
}

#[test]
fn deploy_starship_installs_then_links() {
    let m = manifest(vec![starship()]);
    let h = mac();
    let mut run = DeployRun::start(&m, "starship", false, None).unwrap();
    assert_eq!(run.step(&m, &h, DeployEvent::Proceed), DeployAction::QueryPackage("starship".to_string()));
    assert_eq!(run.step(&m, &h, DeployEvent::Queried(false)), DeployAction::InstallPackage("starship".to_string()));
    assert_eq!(
        run.step(&m, &h, DeployEvent::Installed(true)),
        DeployAction::CheckSource("/c/starship/starship.toml".to_string())
    );
    assert_eq!(
        run.step(&m, &h, DeployEvent::SourceExists(true)),
        link("/c/starship/starship.toml", "/tmp/h/starship.toml")
    );
    assert_eq!(
        run.step(&m, &h, DeployEvent::Proceed),
        DeployAction::Done("Successfully deployed starship".to_string())
    );
}

#[test]
fn deploy_starship_dry_run_changes_nothing() {
    let m = manifest(vec![starship()]);
    let h = mac();
    let mut run = DeployRun::start(&m, "starship", true, None).unwrap();
    assert_eq!(run.step(&m, &h, DeployEvent::Proceed), DeployAction::QueryPackage("starship".to_string()));
    assert_eq!(run.step(&m, &h, DeployEvent::Queried(false)), DeployAction::WouldInstall("starship".to_string()));
    assert_eq!(
        run.step(&m, &h, DeployEvent::Proceed),
        DeployAction::CheckSource("/c/starship/starship.toml".to_string())
    );
    assert_eq!(
        run.step(&m, &h, DeployEvent::SourceExists(true)),
        DeployAction::WouldLink {
            source: "/c/starship/starship.toml".to_string(),
            target: "/tmp/h/starship.toml".to_string(),
        }
    );
    assert_eq!(
        run.step(&m, &h, DeployEvent::Proceed),
        DeployAction::Done("Dry run completed, no changes made.".to_string())
    );
}

#[test]
fn deploy_without_package_for_host_only_links() {
    let m = manifest(vec![starship()]);
    let h = Host { os_type: OsType::Debian, root_cmd: String::new() };
    let mut run = DeployRun::start(&m, "all", false, Some("/home/u".to_string())).unwrap();
    assert_eq!(
        run.step(&m, &h, DeployEvent::Proceed),
        DeployAction::CheckSource("/c/starship/starship.toml".to_string())
    );
}

#[test]
fn deploy_installed_package_goes_to_link() {
    let m = manifest(vec![starship()]);
    let h = mac();
    let mut run = DeployRun::start(&m, "all", false, None).unwrap();
    run.step(&m, &h, DeployEvent::Proceed);
    assert_eq!(
        run.step(&m, &h, DeployEvent::Queried(true)),
        DeployAction::CheckSource("/c/starship/starship.toml".to_string())
    );
}

#[test]
fn deploy_fails_fast_on_install_failure() {
    let mut other = starship();
    other.name = "other".to_string();
    let m = manifest(vec![starship(), other]);
    let h = mac();
    let mut run = DeployRun::start(&m, "all", false, None).unwrap();
    run.step(&m, &h, DeployEvent::Proceed);
    run.step(&m, &h, DeployEvent::Queried(false));
    assert_eq!(
        run.step(&m, &h, DeployEvent::Installed(false)),
        DeployAction::Fail(HarddotsError::PackageInstallFailed("starship".to_string()))
    );
    assert_eq!(run.stage, Stage::Finished);
}

#[test]
fn deploy_fails_on_missing_source() {
    let m = manifest(vec![starship()]);
    let h = Host { os_type: OsType::Unknown, root_cmd: String::new() };
    let mut run = DeployRun::start(&m, "all", true, None).unwrap();
    run.step(&m, &h, DeployEvent::Proceed);
    assert_eq!(
        run.step(&m, &h, DeployEvent::SourceExists(false)),
        DeployAction::Fail(HarddotsError::SourceMissing("/c/starship/starship.toml".to_string()))
    );
}

#[test]
fn deploy_walks_applications_in_order() {
    let mut second = starship();
    second.name = "second".to_string();
    second.source_git_path = "second/conf".to_string();
    second.target_path = "~/.second".to_string();
    let m = manifest(vec![starship(), second]);
    let h = Host { os_type: OsType::Alpine, root_cmd: String::new() };
    let mut run = DeployRun::start(&m, "all", false, Some("/home/u".to_string())).unwrap();
    run.step(&m, &h, DeployEvent::Proceed);
    assert_eq!(
        run.step(&m, &h, DeployEvent::SourceExists(true)),
        link("/c/starship/starship.toml", "/tmp/h/starship.toml")
    );
    assert_eq!(run.step(&m, &h, DeployEvent::Proceed), DeployAction::CheckSource("/c/second/conf".to_string()));
    assert_eq!(run.step(&m, &h, DeployEvent::SourceExists(true)), link("/c/second/conf", "/home/u/.second"));
    assert_eq!(run.step(&m, &h, DeployEvent::Proceed), DeployAction::Done("Successfully deployed all".to_string()));
}

#[test]
fn deploy_unknown_selector_fails_to_start() {
    let m = manifest(vec![starship()]);
    let r = DeployRun::start(&m, "bar", false, None);
    assert_eq!(r.err(), Some(HarddotsError::UnknownApplication("bar".to_string())));
}

#[test]
fn deploy_event_out_of_order_fails() {
    let m = manifest(vec![starship()]);
    let mut run = DeployRun::start(&m, "all", false, None).unwrap();
    let r = run.step(&m, &mac(), DeployEvent::Installed(true));
    assert!(matches!(r, DeployAction::Fail(HarddotsError::Other(_))));
    assert_eq!(run.stage, Stage::Finished);
}

fn collect_links(m: &HarddotsConfig, h: &Host) -> Vec<DeployAction> {
    let mut run = DeployRun::start(m, "all", false, Some("/home/u".to_string())).unwrap();
    let mut links = Vec::new();
    let mut event = DeployEvent::Proceed;
    loop {
        event = match run.step(m, h, event) {
            DeployAction::QueryPackage(_) => DeployEvent::Queried(true),
            DeployAction::CheckSource(_) => DeployEvent::SourceExists(true),
            a @ DeployAction::Link { .. } => {
                links.push(a);
                DeployEvent::Proceed
            }
            DeployAction::Done(_) => return links,
            other => panic!("unexpected action {:?}", other),
        };
    }
}

#[test]
fn deploy_twice_links_the_same_pairs_and_keeps_them() {
    let mut second = starship();
    second.name = "second".to_string();
    second.target_path = "~/.second".to_string();
    let m = manifest(vec![starship(), second]);
    let h = mac();
    let first = collect_links(&m, &h);
    assert_eq!(
        first,
        vec![link("/c/starship/starship.toml", "/tmp/h/starship.toml"), link("/c/starship/starship.toml", "/home/u/.second")]
    );
    assert_eq!(collect_links(&m, &h), first);
    // On the second run each target already is the source's file.
    assert_eq!(link_plan(true, true), LinkPlan::Keep);
}
