use vstd::prelude::*;
use crate::config::{Application, HarddotsConfig, has_app, first_named, package_under, opt_view};
use crate::error::HarddotsError;
use crate::host::{Host, OsType, os_key};
use crate::paths::{expand_tilde, tilde_expanded, opt_str_view};

verus! {

/// The cache location when the manifest names none.
pub open spec fn default_cache_dir() -> Seq<char> {
    "~/.cache/harddots"@
}

/// The cache location as written in the manifest.
pub open spec fn cache_dir_text(config: HarddotsConfig) -> Seq<char> {
    match config.cache_dir {
        Some(d) => d@,
        None => default_cache_dir(),
    }
}

/// The positions of the applications that a selector names: all of them, in
/// declaration order, for `all`; else the one of that name.
pub open spec fn selected(apps: Seq<Application>, selector: Seq<char>, r: Seq<usize>) -> bool {
    if selector == "all"@ {
        r.len() == apps.len() && forall|i: int| 0 <= i < r.len() ==> #[trigger] r[i] == i
    } else {
        r.len() == 1 && first_named(apps, selector, r[0] as int)
    }
}

/// Whether selecting with `selector` fails: it names no application.
pub open spec fn select_applications_fails(config: HarddotsConfig, selector: Seq<char>) -> bool {
    selector != "all"@ && !has_app(config.applications@, selector)
}

/// Selects the applications to deploy: every one for `all`, else the one
/// named by the selector, which fails with `UnknownApplication` when no
/// application has that name.
pub fn select_applications(config: &HarddotsConfig, selector: &str) -> (r: Result<
    Vec<usize>,
    HarddotsError,
>)
    ensures
        r.is_err() <==> select_applications_fails(*config, selector@),
        match r {
            Ok(v) => selected(config.applications@, selector@, v@),
            Err(e) => e matches HarddotsError::UnknownApplication(n) && n@ == selector@,
        },
{
    if selector.to_owned() == "all".to_owned() {
        let mut v: Vec<usize> = Vec::new();
        let mut i: usize = 0;
        while i < config.applications.len()
            invariant
                i <= config.applications@.len(),
                v@.len() == i,
                forall|j: int| 0 <= j < i ==> #[trigger] v@[j] == j,
            decreases config.applications@.len() - i,
        {
            v.push(i);
            i = i + 1;
        }
        Ok(v)
    } else {
        match config.position(selector) {
            Some(i) => Ok(vec![i]),
            None => Err(HarddotsError::UnknownApplication(selector.to_owned())),
        }
    }
}

/// The package to check for `app` on `host`: the one its `packages` map names
/// under the host family's key; none on an unknown family.
pub fn package_to_check(app: &Application, host: &Host) -> (r: Option<String>)
    requires
        app.wf(),
    ensures
        opt_view(r) == if host.os_type == OsType::Unknown {
            None
        } else {
            package_under(app.packages@, os_key(host.os_type))
        },
{
    if host.os_type == OsType::Unknown {
        None
    } else {
        let key = host.os_type.to_string();
        app.package_for(key.as_str())
    }
}

/// What the package step does once the package's presence is known.
#[derive(Debug, Clone, Copy, PartialEq, Eq, Structural)]
pub enum PackageAction {
    /// Already installed: nothing to do.
    Present,
    /// Missing, and this is a dry run: report it only.
    WouldInstall,
    /// Missing: install it.
    Install,
}

pub fn package_action(installed: bool, dry_run: bool) -> (r: PackageAction)
    ensures
        r == if installed {
            PackageAction::Present
        } else if dry_run {
            PackageAction::WouldInstall
        } else {
            PackageAction::Install
        },
{
    if installed {
        PackageAction::Present
    } else if dry_run {
        PackageAction::WouldInstall
    } else {
        PackageAction::Install
    }
}

/// What the link step does once the source's presence is known.
#[derive(Debug, Clone, Copy, PartialEq, Eq, Structural)]
pub enum LinkAction {
    /// Dry run: report it only.
    WouldLink,
    /// Materialize the link.
    Link,
}

/// The link step: fails with `SourceMissing` when the source is not in the
/// cache, dry run or not.
pub fn link_action(source: &str, source_exists: bool, dry_run: bool) -> (r: Result<
    LinkAction,
    HarddotsError,
>)
    ensures
        !source_exists ==> (r matches Err(HarddotsError::SourceMissing(p)) && p@ == source@),
        source_exists ==> r == Ok::<LinkAction, HarddotsError>(
            if dry_run {
                LinkAction::WouldLink
            } else {
                LinkAction::Link
            },
        ),
{
    if !source_exists {
        Err(HarddotsError::SourceMissing(source.to_owned()))
    } else if dry_run {
        Ok(LinkAction::WouldLink)
    } else {
        Ok(LinkAction::Link)
    }
}

/// The cache directory, tilde-expanded against `home`.
pub fn cache_dir(config: &HarddotsConfig, home: Option<&str>) -> (r: String)
    ensures
        r@ == tilde_expanded(cache_dir_text(*config), opt_str_view(home)),
{
    match &config.cache_dir {
        Some(d) => expand_tilde(d.as_str(), home),
        None => {
            let d = "~/.cache/harddots";
            expand_tilde(d, home)
        },
    }
}

/// The file inside the cache that `app` materializes: the expanded cache
/// directory, `/`, and the application's source path.
pub fn source_path(config: &HarddotsConfig, app: &Application, home: Option<&str>) -> (r: String)
    ensures
        r@ == tilde_expanded(cache_dir_text(*config), opt_str_view(home)) + "/"@
            + app.source_git_path@,
{
    let dir = cache_dir(config, home);
    let with_sep = dir.concat("/");
    with_sep.concat(app.source_git_path.as_str())
}

/// Where `app` is materialized: its target path, tilde-expanded.
pub fn target_path(app: &Application, home: Option<&str>) -> (r: String)
    ensures
        r@ == tilde_expanded(app.target_path@, opt_str_view(home)),
{
    expand_tilde(app.target_path.as_str(), home)
}

/// The line reported once a deploy run has succeeded.
pub fn finish_message(selector: &str, dry_run: bool) -> (r: String)
    ensures
        r@ == if dry_run {
            "Dry run completed, no changes made."@
        } else {
            "Successfully deployed "@ + selector@
        },
{
    if dry_run {
        "Dry run completed, no changes made.".to_owned()
    } else {
        "Successfully deployed ".to_owned().concat(selector)
    }
}

} // verus!
