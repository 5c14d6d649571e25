use vstd::prelude::*;

verus! {

/// The coarse OS family that selects the package manager.
#[derive(Debug, Clone, Copy, PartialEq, Eq, Structural)]
pub enum OsType {
    MacOS,
    Debian,
    Alpine,
    Unknown,
}

/// The machine a command runs on.
#[derive(Debug, Clone)]
pub struct Host {
    pub os_type: OsType,
    /// `"sudo"`, `"doas"` or empty when neither is available.
    pub root_cmd: String,
}

/// The key under which an application's `packages` map names the package for
/// this family; a stable part of the manifest schema.
pub open spec fn os_key(os: OsType) -> Seq<char> {
    match os {
        OsType::MacOS => "macos"@,
        OsType::Debian => "debian"@,
        OsType::Alpine => "alpine"@,
        OsType::Unknown => "unknown"@,
    }
}

/// The family named by the OS identifier and, on Linux, the `ID` field of the
/// OS-release metadata (`None` when that file could not be read).
pub open spec fn os_type_of(os_name: Seq<char>, release_id: Option<Seq<char>>) -> OsType {
    if os_name == "macos"@ {
        OsType::MacOS
    } else if os_name == "linux"@ {
        match release_id {
            Some(id) => if id == "debian"@ {
                OsType::Debian
            } else if id == "alpine"@ {
                OsType::Alpine
            } else {
                OsType::Unknown
            },
            None => OsType::Unknown,
        }
    } else {
        OsType::Unknown
    }
}

/// The privilege-escalation command: the first of `sudo`, `doas` found.
pub open spec fn root_cmd_of(has_sudo: bool, has_doas: bool) -> Seq<char> {
    if has_sudo {
        "sudo"@
    } else if has_doas {
        "doas"@
    } else {
        Seq::empty()
    }
}

/// The install command of each family, without the package argument.
pub open spec fn install_cmd_of(os: OsType) -> Option<Seq<char>> {
    match os {
        OsType::MacOS => Some("brew install"@),
        OsType::Debian => Some("apt install -y"@),
        OsType::Alpine => Some("apk add"@),
        OsType::Unknown => None,
    }
}

fn str_eq(a: &str, b: &str) -> (r: bool)
    ensures
        r == (a@ == b@),
{
    let a = a.to_owned();
    let b = b.to_owned();
    a == b
}

impl OsType {
    /// The lowercase identifier of the family (`macos`, `debian`, `alpine`,
    /// `unknown`).
    pub fn to_string(&self) -> (r: String)
        ensures
            r@ == os_key(*self),
    {
        match self {
            OsType::MacOS => "macos".to_owned(),
            OsType::Debian => "debian".to_owned(),
            OsType::Alpine => "alpine".to_owned(),
            OsType::Unknown => "unknown".to_owned(),
        }
    }

    /// Classifies the OS identifier (`std::env::consts::OS`) and the OS-release
    /// `ID`, as read by the caller.
    pub fn classify(os_name: &str, release_id: Option<&str>) -> (r: OsType)
        ensures
            r == os_type_of(
                os_name@,
                match release_id {
                    Some(id) => Some(id@),
                    None => None,
                },
            ),
    {
        if str_eq(os_name, "macos") {
            OsType::MacOS
        } else if str_eq(os_name, "linux") {
            match release_id {
                Some(id) => if str_eq(id, "debian") {
                    OsType::Debian
                } else if str_eq(id, "alpine") {
                    OsType::Alpine
                } else {
                    OsType::Unknown
                },
                None => OsType::Unknown,
            }
        } else {
            OsType::Unknown
        }
    }
}

impl Host {
    /// The host described by what the caller probed: the OS identifier, the
    /// OS-release `ID` (`None` when unreadable) and whether `sudo` and `doas`
    /// are on `PATH`. Never fails.
    pub fn detect(os_name: &str, release_id: Option<&str>, has_sudo: bool, has_doas: bool) -> (r: Host)
        ensures
            r.os_type == os_type_of(
                os_name@,
                match release_id {
                    Some(id) => Some(id@),
                    None => None,
                },
            ),
            r.root_cmd@ == root_cmd_of(has_sudo, has_doas),
    {
        let os_type = OsType::classify(os_name, release_id);
        let root_cmd = if has_sudo {
            "sudo".to_owned()
        } else if has_doas {
            "doas".to_owned()
        } else {
            String::new()
        };
        Host { os_type, root_cmd }
    }

    /// The install command of the host's family, `None` for an unknown family.
    pub fn package_manager_cmd(&self) -> (r: Option<&str>)
        ensures
            match (r, install_cmd_of(self.os_type)) {
                (Some(c), Some(s)) => c@ == s,
                (None, None) => true,
                _ => false,
            },
    {
        match self.os_type {
            OsType::MacOS => Some("brew install"),
            OsType::Debian => Some("apt install -y"),
            OsType::Alpine => Some("apk add"),
            OsType::Unknown => None,
        }
    }
}

} // verus!
