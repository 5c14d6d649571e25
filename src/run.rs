use vstd::prelude::*;
use crate::config::{HarddotsConfig, package_under, opt_view};
use crate::deploy::{
    cache_dir_text, finish_message, link_action, package_action, package_to_check, select_applications,
    select_applications_fails, selected, source_path, target_path, LinkAction, PackageAction,
};
use crate::error::HarddotsError;
use crate::package::install_result;
use crate::host::{Host, OsType, os_key};
use crate::paths::tilde_expanded;
use crate::link::{deploy_links, sources_stable, lemma_deploy_idempotent, lemma_deploy_links_targets};

verus! {

/// Where a deploy run stands, and so which event it waits for.
#[derive(Debug, Clone, Copy, PartialEq, Eq, Structural)]
pub enum Stage {
    /// Waits for `Proceed` to start the next selected application.
    Next,
    /// Waits for `Queried`: whether the application's package is installed.
    AwaitQuery,
    /// Waits for `Installed`: whether the install command succeeded.
    AwaitInstall,
    /// Waits for `Proceed` after a reported dry-run install.
    CheckSource,
    /// Waits for `SourceExists`: whether the source is in the cache.
    AwaitSource,
    /// The run is over.
    Finished,
}

/// What the caller observed after carrying out the last action.
#[derive(Debug, Clone, Copy, PartialEq, Eq, Structural)]
pub enum DeployEvent {
    Proceed,
    Queried(bool),
    Installed(bool),
    SourceExists(bool),
}

/// What the caller is to do next.
#[derive(Debug, Clone, PartialEq, Eq)]
pub enum DeployAction {
    /// Ask whether the package is installed; answer with `Queried`.
    QueryPackage(String),
    /// Install the package; answer with `Installed`.
    InstallPackage(String),
    /// Dry run: report that the package would be installed; answer `Proceed`.
    WouldInstall(String),
    /// Check that the source exists; answer with `SourceExists`.
    CheckSource(String),
    /// Materialize the hardlink; answer `Proceed`.
    Link { source: String, target: String },
    /// Dry run: report the link; answer `Proceed`.
    WouldLink { source: String, target: String },
    /// The run succeeded; report this line.
    Done(String),
    /// The run failed.
    Fail(HarddotsError),
}

/// The contents of an action.
pub enum Act {
    QueryPackage(Seq<char>),
    InstallPackage(Seq<char>),
    WouldInstall(Seq<char>),
    CheckSource(Seq<char>),
    Link(Seq<char>, Seq<char>),
    WouldLink(Seq<char>, Seq<char>),
    Done(Seq<char>),
    SourceMissing(Seq<char>),
    InstallFailed(Seq<char>),
    OutOfOrder,
}

impl DeployAction {
    pub open spec fn act(self) -> Act {
        match self {
            DeployAction::QueryPackage(p) => Act::QueryPackage(p@),
            DeployAction::InstallPackage(p) => Act::InstallPackage(p@),
            DeployAction::WouldInstall(p) => Act::WouldInstall(p@),
            DeployAction::CheckSource(s) => Act::CheckSource(s@),
            DeployAction::Link { source, target } => Act::Link(source@, target@),
            DeployAction::WouldLink { source, target } => Act::WouldLink(source@, target@),
            DeployAction::Done(m) => Act::Done(m@),
            DeployAction::Fail(HarddotsError::SourceMissing(p)) => Act::SourceMissing(p@),
            DeployAction::Fail(HarddotsError::PackageInstallFailed(p)) => Act::InstallFailed(p@),
            DeployAction::Fail(_) => Act::OutOfOrder,
        }
    }
}

/// A deploy run over the applications that a selector names, one at a time in
/// order: the package step, then the link step; the first failure ends it.
#[derive(Debug, Clone)]
pub struct DeployRun {
    pub selector: String,
    /// Positions in the manifest of the selected applications.
    pub selection: Vec<usize>,
    /// Position in `selection` of the application at hand.
    pub pos: usize,
    pub stage: Stage,
    pub dry_run: bool,
    /// The home directory for tilde expansion.
    pub home: Option<String>,
}

/// Every package map of the manifest has unique keys.
pub open spec fn apps_wf(config: HarddotsConfig) -> bool {
    forall|i: int| 0 <= i < config.applications@.len() ==> #[trigger] config.applications@[i].wf()
}

/// The package that the package step checks for application `i`.
pub open spec fn package_of(config: HarddotsConfig, host: Host, i: int) -> Option<Seq<char>> {
    if host.os_type == OsType::Unknown {
        None
    } else {
        package_under(config.applications@[i].packages@, os_key(host.os_type))
    }
}

pub open spec fn source_of(config: HarddotsConfig, i: int, home: Option<String>) -> Seq<char> {
    tilde_expanded(cache_dir_text(config), opt_view(home)) + "/"@
        + config.applications@[i].source_git_path@
}

pub open spec fn target_of(config: HarddotsConfig, i: int, home: Option<String>) -> Seq<char> {
    tilde_expanded(config.applications@[i].target_path@, opt_view(home))
}

pub open spec fn done_text(selector: Seq<char>, dry_run: bool) -> Seq<char> {
    if dry_run {
        "Dry run completed, no changes made."@
    } else {
        "Successfully deployed "@ + selector
    }
}

/// The stage, position and action that follow `event` in a run.
pub open spec fn transition(run: DeployRun, config: HarddotsConfig, host: Host, event: DeployEvent) -> (
    Stage,
    int,
    Act,
) {
    let pos = run.pos as int;
    let i = run.selection@[pos] as int;
    let src = source_of(config, i, run.home);
    match (run.stage, event) {
        (Stage::Next, DeployEvent::Proceed) => if pos >= run.selection@.len() {
            (Stage::Finished, pos, Act::Done(done_text(run.selector@, run.dry_run)))
        } else {
            match package_of(config, host, i) {
                Some(p) => (Stage::AwaitQuery, pos, Act::QueryPackage(p)),
                None => (Stage::AwaitSource, pos, Act::CheckSource(src)),
            }
        },
        (Stage::AwaitQuery, DeployEvent::Queried(installed)) => if installed {
            (Stage::AwaitSource, pos, Act::CheckSource(src))
        } else if run.dry_run {
            (Stage::CheckSource, pos, Act::WouldInstall(package_of(config, host, i).unwrap()))
        } else {
            (Stage::AwaitInstall, pos, Act::InstallPackage(package_of(config, host, i).unwrap()))
        },
        (Stage::AwaitInstall, DeployEvent::Installed(ok)) => if ok {
            (Stage::AwaitSource, pos, Act::CheckSource(src))
        } else {
            (Stage::Finished, pos, Act::InstallFailed(package_of(config, host, i).unwrap()))
        },
        (Stage::CheckSource, DeployEvent::Proceed) => (Stage::AwaitSource, pos, Act::CheckSource(src)),
        (Stage::AwaitSource, DeployEvent::SourceExists(exists)) => if !exists {
            (Stage::Finished, pos, Act::SourceMissing(src))
        } else if run.dry_run {
            (Stage::Next, pos + 1, Act::WouldLink(src, target_of(config, i, run.home)))
        } else {
            (Stage::Next, pos + 1, Act::Link(src, target_of(config, i, run.home)))
        },
        _ => (Stage::Finished, pos, Act::OutOfOrder),
    }
}

/// The `(source, target)` pair that a run links, in order, for each selected
/// application.
pub open spec fn run_links(config: HarddotsConfig, selection: Seq<usize>, home: Option<String>) -> Seq<
    (Seq<char>, Seq<char>),
> {
    selection.map_values(|i: usize| (source_of(config, i as int, home), target_of(config, i as int, home)))
}

/// Deploying twice leaves the filesystem as deploying once: applying the links
/// of a run a second time changes nothing, when every source is present in the
/// cache and no target lies on a source (a deploy never writes into the cache).
pub proof fn lemma_run_idempotent(
    config: HarddotsConfig,
    selection: Seq<usize>,
    home: Option<String>,
    fs: Map<Seq<char>, nat>,
)
    requires
        sources_stable(fs, run_links(config, selection, home)),
    ensures
        deploy_links(deploy_links(fs, run_links(config, selection, home)), run_links(config, selection, home))
            == deploy_links(fs, run_links(config, selection, home)),
{
    lemma_deploy_idempotent(fs, run_links(config, selection, home));
}

/// After a run whose applications have distinct targets, every source present
/// and no target on a source, each target has the inode of its source.
pub proof fn lemma_run_links_targets(
    config: HarddotsConfig,
    selection: Seq<usize>,
    home: Option<String>,
    fs: Map<Seq<char>, nat>,
)
    requires
        sources_stable(fs, run_links(config, selection, home)),
        forall|a: int, b: int|
            0 <= a < selection.len() && 0 <= b < selection.len() && a != b ==> target_of(
                config,
                #[trigger] selection[a] as int,
                home,
            ) != target_of(config, #[trigger] selection[b] as int, home),
    ensures
        forall|k: int|
            0 <= k < selection.len() ==> {
                let i = #[trigger] selection[k] as int;
                let after = deploy_links(fs, run_links(config, selection, home));
                after.contains_key(target_of(config, i, home)) && after[target_of(config, i, home)]
                    == fs[source_of(config, i, home)]
            },
{
    let links = run_links(config, selection, home);
    assert forall|a: int, b: int|
        0 <= a < links.len() && 0 <= b < links.len() && a != b implies #[trigger] links[a].1
        != #[trigger] links[b].1 by {
        assert(links[a].1 == target_of(config, selection[a] as int, home));
        assert(links[b].1 == target_of(config, selection[b] as int, home));
    }
    lemma_deploy_links_targets(fs, links);
    assert forall|k: int| 0 <= k < selection.len() implies {
        let i = #[trigger] selection[k] as int;
        let after = deploy_links(fs, links);
        after.contains_key(target_of(config, i, home)) && after[target_of(config, i, home)]
            == fs[source_of(config, i, home)]
    } by {
        assert(links[k] == (source_of(config, selection[k] as int, home), target_of(config, selection[k] as int, home)));
        assert(deploy_links(fs, links).contains_key(links[k].1));
    }
}

/// An application with no package for the host's family (every application
/// on an unknown host) gets no package step: in every state of a run at that
/// application, the next action neither queries nor installs a package nor
/// fails an install, and starting the application goes straight to its link
/// step.
pub proof fn lemma_no_package_skips_package_step(
    run: DeployRun,
    config: HarddotsConfig,
    host: Host,
    event: DeployEvent,
)
    requires
        run.wf(config, host),
        run.pos < run.selection@.len(),
        package_of(config, host, run.selection@[run.pos as int] as int).is_none(),
    ensures
        !(transition(run, config, host, event).2 is QueryPackage),
        !(transition(run, config, host, event).2 is InstallPackage),
        !(transition(run, config, host, event).2 is WouldInstall),
        !(transition(run, config, host, event).2 is InstallFailed),
        run.stage == Stage::Next && event == DeployEvent::Proceed ==> transition(run, config, host, event)
            == (Stage::AwaitSource, run.pos as int, Act::CheckSource(
            source_of(config, run.selection@[run.pos as int] as int, run.home),
        )),
{
}

/// A run goes through its applications in order and stops at the first
/// failure: each step stays at the application at hand or moves to the next;
/// a link is made only for the application at hand, as `run_links` gives it,
/// and then moves on; a failure finishes the run, and a finished run makes no
/// link.
pub proof fn lemma_run_in_order_fail_fast(
    run: DeployRun,
    config: HarddotsConfig,
    host: Host,
    event: DeployEvent,
)
    requires
        run.wf(config, host),
    ensures
        ({
            let (stage, pos, act) = transition(run, config, host, event);
            &&& pos == run.pos || pos == run.pos + 1
            &&& act matches Act::Link(s, t) ==> (s, t) == run_links(config, run.selection@, run.home)[run.pos as int]
                && pos == run.pos + 1 && stage == Stage::Next
            &&& (act is SourceMissing || act is InstallFailed || act is OutOfOrder) ==> stage
                == Stage::Finished && pos == run.pos
            &&& run.stage == Stage::Finished ==> act is OutOfOrder
        }),
{
}

impl DeployRun {
    /// The run is consistent with `config`: it selects manifest positions, and
    /// an application is at hand in every stage but `Next` and `Finished`; once
    /// the package step has found a package, there is one.
    pub open spec fn wf(&self, config: HarddotsConfig, host: Host) -> bool {
        &&& apps_wf(config)
        &&& forall|k: int|
            0 <= k < self.selection@.len() ==> #[trigger] self.selection@[k]
                < config.applications@.len()
        &&& self.pos <= self.selection@.len()
        &&& (self.stage != Stage::Next && self.stage != Stage::Finished) ==> self.pos
            < self.selection@.len()
        &&& (self.stage == Stage::AwaitQuery || self.stage == Stage::AwaitInstall || self.stage
            == Stage::CheckSource) ==> package_of(config, host, self.selection@[self.pos as int] as int).is_some()
    }

    /// Starts a run of the applications that `selector` names (see
    /// `select_applications`); fails with `UnknownApplication` as it does.
    pub fn start(config: &HarddotsConfig, selector: &str, dry_run: bool, home: Option<String>) -> (r: Result<
        DeployRun,
        HarddotsError,
    >)
        ensures
            r.is_err() <==> select_applications_fails(*config, selector@),
            match r {
                Ok(run) => selected(config.applications@, selector@, run.selection@) && run.pos == 0
                    && run.stage == Stage::Next && run.dry_run == dry_run && run.home == home
                    && run.selector@ == selector@,
                Err(e) => e matches HarddotsError::UnknownApplication(n) && n@ == selector@,
            },
    {
        let selection = select_applications(config, selector)?;
        Ok(DeployRun { selector: selector.to_owned(), selection, pos: 0, stage: Stage::Next, dry_run, home })
    }

    /// Takes the event that answers the last action and says what to do next.
    /// An event that does not answer the last action ends the run with a failure.
    pub fn step(&mut self, config: &HarddotsConfig, host: &Host, event: DeployEvent) -> (r: DeployAction)
        requires
            old(self).wf(*config, *host),
        ensures
            final(self).wf(*config, *host),
            final(self).selection == old(self).selection,
            final(self).selector == old(self).selector,
            final(self).dry_run == old(self).dry_run,
            final(self).home == old(self).home,
            (final(self).stage, final(self).pos as int, r.act()) == transition(
                *old(self),
                *config,
                *host,
                event,
            ),
            r.act() matches Act::Link(s, t) ==> (s, t) == run_links(
                *config,
                old(self).selection@,
                old(self).home,
            )[old(self).pos as int],
    {
        let home = match &self.home {
            Some(h) => Some(h.as_str()),
            None => None,
        };
        match (self.stage, event) {
            (Stage::Next, DeployEvent::Proceed) => {
                if self.pos >= self.selection.len() {
                    self.stage = Stage::Finished;
                    return DeployAction::Done(finish_message(self.selector.as_str(), self.dry_run));
                }
                let i = self.selection[self.pos];
                let app = &config.applications[i];
                match package_to_check(app, host) {
                    Some(p) => {
                        self.stage = Stage::AwaitQuery;
                        DeployAction::QueryPackage(p)
                    },
                    None => {
                        self.stage = Stage::AwaitSource;
                        DeployAction::CheckSource(source_path(config, app, home))
                    },
                }
            },
            (Stage::AwaitQuery, DeployEvent::Queried(installed)) => {
                let i = self.selection[self.pos];
                let app = &config.applications[i];
                match package_action(installed, self.dry_run) {
                    PackageAction::Present => {
                        self.stage = Stage::AwaitSource;
                        DeployAction::CheckSource(source_path(config, app, home))
                    },
                    PackageAction::WouldInstall => {
                        self.stage = Stage::CheckSource;
                        DeployAction::WouldInstall(package_to_check(app, host).unwrap())
                    },
                    PackageAction::Install => {
                        self.stage = Stage::AwaitInstall;
                        DeployAction::InstallPackage(package_to_check(app, host).unwrap())
                    },
                }
            },
            (Stage::AwaitInstall, DeployEvent::Installed(ok)) => {
                let i = self.selection[self.pos];
                let app = &config.applications[i];
                let p = package_to_check(app, host).unwrap();
                match install_result(ok, p.as_str()) {
                    Ok(()) => {
                        self.stage = Stage::AwaitSource;
                        DeployAction::CheckSource(source_path(config, app, home))
                    },
                    Err(e) => {
                        self.stage = Stage::Finished;
                        DeployAction::Fail(e)
                    },
                }
            },
            (Stage::CheckSource, DeployEvent::Proceed) => {
                let i = self.selection[self.pos];
                let app = &config.applications[i];
                self.stage = Stage::AwaitSource;
                DeployAction::CheckSource(source_path(config, app, home))
            },
            (Stage::AwaitSource, DeployEvent::SourceExists(exists)) => {
                let pos = self.pos;
                let n = self.selection.len();
                assert(pos < n);
                let i = self.selection[pos];
                let app = &config.applications[i];
                let source = source_path(config, app, home);
                match link_action(source.as_str(), exists, self.dry_run) {
                    Err(e) => {
                        self.stage = Stage::Finished;
                        DeployAction::Fail(e)
                    },
                    Ok(action) => {
                        let target = target_path(app, home);
                        self.stage = Stage::Next;
                        self.pos = pos + 1;
                        match action {
                            LinkAction::WouldLink => DeployAction::WouldLink { source, target },
                            LinkAction::Link => DeployAction::Link { source, target },
                        }
                    },
                }
            },
            _ => {
                self.stage = Stage::Finished;
                DeployAction::Fail(HarddotsError::Other("deploy event out of order".to_owned()))
            },
        }
    }
}

} // verus!
