use vstd::prelude::*;
use crate::error::HarddotsError;
use crate::host::{Host, OsType};

verus! {

/// The text of each word of a command line.
pub open spec fn argv_view(v: Seq<String>) -> Seq<Seq<char>> {
    v.map_values(|s: String| s@)
}

/// The command that asks whether `pkg` is installed; its exit status is the
/// answer. `None` for an unknown family.
pub open spec fn query_argv(os: OsType, pkg: Seq<char>) -> Option<Seq<Seq<char>>> {
    match os {
        OsType::MacOS => Some(seq!["brew"@, "info"@, pkg]),
        OsType::Debian => Some(seq!["dpkg"@, "-l"@, pkg]),
        OsType::Alpine => Some(seq!["apk"@, "info"@, "-e"@, pkg]),
        OsType::Unknown => None,
    }
}

/// The command that installs `pkg`, prefixed with the privilege-escalation
/// command when there is one. `None` for an unknown family.
pub open spec fn install_argv(os: OsType, root_cmd: Seq<char>, pkg: Seq<char>) -> Option<Seq<Seq<char>>> {
    let base = match os {
        OsType::MacOS => Some(seq!["brew"@, "install"@, pkg]),
        OsType::Debian => Some(seq!["apt"@, "install"@, "-y"@, pkg]),
        OsType::Alpine => Some(seq!["apk"@, "add"@, pkg]),
        OsType::Unknown => None,
    };
    match base {
        Some(b) => if root_cmd.len() == 0 {
            Some(b)
        } else {
            Some(seq![root_cmd].add(b))
        },
        None => None,
    }
}

fn word(s: &str) -> (r: String)
    ensures
        r@ == s@,
{
    s.to_owned()
}

/// The query command for `package` on `host`; fails with `UnsupportedOS` on an
/// unknown family.
pub fn query_command(host: &Host, package: &str) -> (r: Result<Vec<String>, HarddotsError>)
    ensures
        match query_argv(host.os_type, package@) {
            Some(a) => r.is_ok() && argv_view(r.unwrap()@) == a,
            None => r == Err::<Vec<String>, HarddotsError>(HarddotsError::UnsupportedOS),
        },
{
    let v = match host.os_type {
        OsType::MacOS => vec![word("brew"), word("info"), word(package)],
        OsType::Debian => vec![word("dpkg"), word("-l"), word(package)],
        OsType::Alpine => vec![word("apk"), word("info"), word("-e"), word(package)],
        OsType::Unknown => return Err(HarddotsError::UnsupportedOS),
    };
    assert(argv_view(v@) =~= query_argv(host.os_type, package@).unwrap());
    Ok(v)
}

/// The install command for `package` on `host`; fails with `UnsupportedOS` on
/// an unknown family.
pub fn install_command(host: &Host, package: &str) -> (r: Result<Vec<String>, HarddotsError>)
    ensures
        match install_argv(host.os_type, host.root_cmd@, package@) {
            Some(a) => r.is_ok() && argv_view(r.unwrap()@) == a,
            None => r == Err::<Vec<String>, HarddotsError>(HarddotsError::UnsupportedOS),
        },
{
    let base = match host.os_type {
        OsType::MacOS => vec![word("brew"), word("install"), word(package)],
        OsType::Debian => vec![word("apt"), word("install"), word("-y"), word(package)],
        OsType::Alpine => vec![word("apk"), word("add"), word(package)],
        OsType::Unknown => return Err(HarddotsError::UnsupportedOS),
    };
    let ghost b = argv_view(base@);
    let mut v: Vec<String> = Vec::new();
    if !host.root_cmd.as_str().is_empty() {
        v.push(host.root_cmd.clone());
    }
    let ghost start = argv_view(v@);
    let mut i: usize = 0;
    while i < base.len()
        invariant
            i <= base@.len(),
            b == argv_view(base@),
            argv_view(v@) =~= start + b.subrange(0, i as int),
        decreases base@.len() - i,
    {
        let ghost before = v@;
        let w = base[i].clone();
        v.push(w);
        assert(v@ == before.push(base@[i as int]));
        assert(argv_view(v@) =~= argv_view(before).push(b[i as int]));
        assert(argv_view(v@) =~= start + b.subrange(0, i + 1));
        i = i + 1;
    }
    assert(b.subrange(0, b.len() as int) =~= b);
    assert(argv_view(v@) =~= install_argv(host.os_type, host.root_cmd@, package@).unwrap());
    Ok(v)
}

/// The outcome of an install command: fails with `PackageInstallFailed` unless
/// it succeeded.
pub fn install_result(succeeded: bool, package: &str) -> (r: Result<(), HarddotsError>)
    ensures
        succeeded <==> r.is_ok(),
        !succeeded ==> (r matches Err(HarddotsError::PackageInstallFailed(p)) && p@ == package@),
{
    if succeeded {
        Ok(())
    } else {
        Err(HarddotsError::PackageInstallFailed(package.to_owned()))
    }
}

} // verus!
