use harddots::error::HarddotsError;
use harddots::host::{Host, OsType};
use harddots::package::{install_command, install_result, query_command};

fn host(os: OsType, root: &str) -> Host {
    Host { os_type: os, root_cmd: root.to_string() }
}

fn words(v: &[&str]) -> Vec<String> {
    v.iter().map(|s| s.to_string()).collect()
}

#[test]
fn detect_macos() {
    let h = Host::detect("macos", None, true, true);
    assert_eq!(h.os_type, OsType::MacOS);
    assert_eq!(h.root_cmd, "sudo");
}

#[test]
fn detect_linux_families() {
    assert_eq!(Host::detect("linux", Some("debian"), false, true).os_type, OsType::Debian);
    assert_eq!(Host::detect("linux", Some("alpine"), false, false).os_type, OsType::Alpine);
    assert_eq!(Host::detect("linux", Some("arch"), false, false).os_type, OsType::Unknown);
    assert_eq!(Host::detect("linux", None, false, false).os_type, OsType::Unknown);
    assert_eq!(Host::detect("windows", Some("debian"), false, false).os_type, OsType::Unknown);
}

#[test]
fn detect_root_command() {
    assert_eq!(Host::detect("linux", None, false, true).root_cmd, "doas");
    assert_eq!(Host::detect("linux", None, false, false).root_cmd, "");
}

#[test]
fn os_keys() {
    assert_eq!(OsType::MacOS.to_string(), "macos");
    assert_eq!(OsType::Debian.to_string(), "debian");
    assert_eq!(OsType::Alpine.to_string(), "alpine");
    assert_eq!(OsType::Unknown.to_string(), "unknown");
}

#[test]
fn package_manager_commands() {
    assert_eq!(host(OsType::MacOS, "").package_manager_cmd(), Some("brew install"));
    assert_eq!(host(OsType::Debian, "").package_manager_cmd(), Some("apt install -y"));
    assert_eq!(host(OsType::Alpine, "").package_manager_cmd(), Some("apk add"));
    assert_eq!(host(OsType::Unknown, "").package_manager_cmd(), None);
}

#[test]
fn query_commands_per_family() {
    assert_eq!(query_command(&host(OsType::MacOS, "sudo"), "git"), Ok(words(&["brew", "info", "git"])));
    assert_eq!(query_command(&host(OsType::Debian, "sudo"), "git"), Ok(words(&["dpkg", "-l", "git"])));
    assert_eq!(query_command(&host(OsType::Alpine, ""), "git"), Ok(words(&["apk", "info", "-e", "git"])));
    assert_eq!(query_command(&host(OsType::Unknown, ""), "git"), Err(HarddotsError::UnsupportedOS));
}

#[test]
fn install_commands_prefixed_with_root() {
    assert_eq!(
        install_command(&host(OsType::Debian, "sudo"), "foo"),
        Ok(words(&["sudo", "apt", "install", "-y", "foo"]))
    );
    assert_eq!(install_command(&host(OsType::Alpine, "doas"), "foo"), Ok(words(&["doas", "apk", "add", "foo"])));
    assert_eq!(install_command(&host(OsType::MacOS, ""), "starship"), Ok(words(&["brew", "install", "starship"])));
    assert_eq!(install_command(&host(OsType::Unknown, "sudo"), "foo"), Err(HarddotsError::UnsupportedOS));
}

#[test]
fn install_outcome() {
    assert_eq!(install_result(true, "foo"), Ok(()));
    assert_eq!(install_result(false, "foo"), Err(HarddotsError::PackageInstallFailed("foo".to_string())));
}

#[test]
fn error_from_message() {
    let e: HarddotsError = "boom".into();
    assert_eq!(e, HarddotsError::Other("boom".to_string()));
    assert_eq!(HarddotsError::other("x"), HarddotsError::Other("x".to_string()));
}
