use harddots::config::{Application, HarddotsConfig};
use harddots::error::HarddotsError;

fn app(name: &str) -> Application {
    Application::new(
        name.to_string(),
        format!("~/.{}", name),
        format!("{}/.{}", name, name),
        None,
        None,
        None,
    )
}

fn manifest(names: &[&str]) -> HarddotsConfig {
    HarddotsConfig {
        git_repo: "https://example.test/dots.git".to_string(),
        cache_dir: None,
        applications: names.iter().map(|n| app(n)).collect(),
    }
}

fn names(m: &HarddotsConfig) -> Vec<String> {
    m.applications.iter().map(|a| a.name.clone()).collect()
}

#[test]
fn add_appends_new_application() {
    let mut m = manifest(&["starship"]);
    assert!(m.add(app("foo")).is_ok());
    assert_eq!(names(&m), vec!["starship".to_string(), "foo".to_string()]);
}

#[test]
fn add_to_empty_manifest() {
    let mut m = manifest(&[]);
    assert!(m.add(app("foo")).is_ok());
    assert_eq!(names(&m), vec!["foo".to_string()]);
}

#[test]
fn add_duplicate_fails_and_leaves_manifest() {
    let mut m = manifest(&["foo", "bar"]);
    let dup = Application::new(
        "foo".to_string(),
        "~/.foo".to_string(),
        "foo/.foo".to_string(),
        None,
        Some("foo-pkg".to_string()),
        None,
    );
    let r = m.add(dup);
    assert_eq!(r, Err(HarddotsError::DuplicateApplication("foo".to_string())));
    assert_eq!(names(&m), vec!["foo".to_string(), "bar".to_string()]);
    assert_eq!(m.applications[0].target_path, "~/.foo");
    assert!(m.applications[0].packages.is_empty());
}

#[test]
fn remove_present_application() {
    let mut m = manifest(&["a", "b", "c"]);
    assert!(m.remove("b", false));
    assert_eq!(names(&m), vec!["a".to_string(), "c".to_string()]);
}

#[test]
fn remove_absent_application_is_noop() {
    let mut m = manifest(&["a", "b"]);
    assert!(!m.remove("zzz", true));
    assert_eq!(names(&m), vec!["a".to_string(), "b".to_string()]);
    assert_eq!(m.git_repo, "https://example.test/dots.git");
}

#[test]
fn remove_from_empty_manifest() {
    let mut m = manifest(&[]);
    assert!(!m.remove("a", false));
    assert!(m.applications.is_empty());
}

#[test]
fn new_application_builds_package_map() {
    let a = Application::new(
        "foo".to_string(),
        "~/.foo".to_string(),
        "foo/.foo".to_string(),
        Some("foo-mac".to_string()),
        None,
        Some("foo-alp".to_string()),
    );
    assert_eq!(a.packages.len(), 2);
    assert_eq!(a.package_for("macos"), Some("foo-mac".to_string()));
    assert_eq!(a.package_for("debian"), None);
    assert_eq!(a.package_for("alpine"), Some("foo-alp".to_string()));
    assert_eq!(a.version, None);
    assert!(a.custom_install.is_none());
}

#[test]
fn position_finds_first_match() {
    let m = manifest(&["a", "b", "c"]);
    assert_eq!(m.position("c"), Some(2));
    assert_eq!(m.position("d"), None);
}

#[test]
fn validate_accepts_well_formed_manifest() {
    assert_eq!(manifest(&["a", "b"]).validate(), Ok(()));
    assert_eq!(manifest(&[]).validate(), Ok(()));
}

#[test]
fn validate_rejects_duplicate_names() {
    let m = manifest(&["a", "b", "a"]);
    assert_eq!(m.validate(), Err(HarddotsError::DuplicateApplication("a".to_string())));
}

#[test]
fn validate_rejects_duplicate_package_keys() {
    let mut m = manifest(&["a"]);
    m.applications[0].packages = vec![
        ("macos".to_string(), "x".to_string()),
        ("macos".to_string(), "y".to_string()),
    ];
    assert!(matches!(m.validate(), Err(HarddotsError::Other(_))));
}
