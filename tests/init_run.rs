use harddots::config::HarddotsConfig;
use harddots::error::HarddotsError;
use harddots::init::{InitAction, InitEvent, InitRun, InitStage};

fn manifest() -> HarddotsConfig {
    HarddotsConfig { git_repo: "https://example.test/dots.git".to_string(), cache_dir: None, applications: vec![] }
}

fn words(v: &[&str]) -> Vec<String> {
    v.iter().map(|s| s.to_string()).collect()
}

const CACHE: &str = "/home/u/.cache/harddots";

#[test]
fn init_absent_cache_clones_then_second_init_is_noop() {
    let m = manifest();
    let mut run = InitRun::new(&m, Some("/home/u"));
    assert_eq!(run.dir, CACHE);
    assert_eq!(run.step(InitEvent::Proceed), InitAction::CheckGitDir(format!("{}/.git", CACHE)));
    assert_eq!(
        run.step(InitEvent::GitDirExists(false)),
        InitAction::Clone(words(&["git", "clone", "https://example.test/dots.git", CACHE]))
    );
    assert_eq!(
        run.step(InitEvent::Cloned(true)),
        InitAction::Done(format!("Successfully cloned repository to {}", CACHE))
    );

    let mut again = InitRun::new(&m, Some("/home/u"));
    again.step(InitEvent::Proceed);
    assert_eq!(
        again.step(InitEvent::GitDirExists(true)),
        InitAction::ReadOrigin(words(&["git", "-C", CACHE, "remote", "get-url", "origin"]))
    );
    assert_eq!(
        again.step(InitEvent::OriginRead("https://example.test/dots.git\n".to_string())),
        InitAction::Done(format!("Repository already initialized at {}", CACHE))
    );
    assert_eq!(again.stage, InitStage::Finished);
}

#[test]
fn init_foreign_cache_fails_with_mismatch() {
    let mut run = InitRun::new(&manifest(), Some("/home/u"));
    run.step(InitEvent::Proceed);
    run.step(InitEvent::GitDirExists(true));
    assert_eq!(
        run.step(InitEvent::OriginRead("https://other.test/x.git\n".to_string())),
        InitAction::Fail(HarddotsError::CacheMismatch {
            dir: CACHE.to_string(),
            existing_url: "https://other.test/x.git\n".to_string(),
        })
    );
}

#[test]
fn init_clone_failure_is_git_failure() {
    let mut run = InitRun::new(&manifest(), Some("/home/u"));
    run.step(InitEvent::Proceed);
    run.step(InitEvent::GitDirExists(false));
    assert_eq!(run.step(InitEvent::Cloned(false)), InitAction::Fail(HarddotsError::GitFailure("clone".to_string())));
}

#[test]
fn init_unreadable_origin_is_git_failure() {
    let mut run = InitRun::new(&manifest(), None);
    assert_eq!(run.dir, "~/.cache/harddots");
    run.step(InitEvent::Proceed);
    run.step(InitEvent::GitDirExists(true));
    assert_eq!(
        run.step(InitEvent::OriginFailed("error: No such remote 'origin'\n".to_string())),
        InitAction::Fail(HarddotsError::GitFailure(
            "Failed to get remote URL for ~/.cache/harddots: error: No such remote 'origin'\n".to_string()
        ))
    );
}

#[test]
fn init_event_out_of_order_fails() {
    let mut run = InitRun::new(&manifest(), None);
    assert!(matches!(run.step(InitEvent::Cloned(true)), InitAction::Fail(HarddotsError::Other(_))));
}
