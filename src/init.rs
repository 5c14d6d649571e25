use vstd::prelude::*;
use crate::config::HarddotsConfig;
use crate::deploy::{cache_dir, cache_dir_text};
use crate::error::HarddotsError;
use crate::git::{clone_action, clone_command, remote_url_command, trim_of, CloneAction};
use crate::package::argv_view;
use crate::paths::{tilde_expanded, opt_str_view};

verus! {

/// Where an init run stands, and so which event it waits for.
#[derive(Debug, Clone, Copy, PartialEq, Eq, Structural)]
pub enum InitStage {
    /// Waits for `Proceed`.
    Start,
    /// Waits for `GitDirExists`: whether the cache holds a `.git` entry.
    AwaitGitDir,
    /// Waits for `OriginRead` with the cache's `origin` URL, or for
    /// `OriginFailed` with what git wrote to its error stream.
    AwaitOrigin,
    /// Waits for `Cloned`: whether `git clone` succeeded.
    AwaitClone,
    /// The run is over.
    Finished,
}

/// What the caller observed after carrying out the last action.
#[derive(Debug, Clone, PartialEq, Eq)]
pub enum InitEvent {
    Proceed,
    GitDirExists(bool),
    OriginRead(String),
    OriginFailed(String),
    Cloned(bool),
}

/// What the caller is to do next.
#[derive(Debug, Clone, PartialEq, Eq)]
pub enum InitAction {
    /// Check whether this path exists; answer with `GitDirExists`.
    CheckGitDir(String),
    /// Run this command and capture its output; answer with `OriginRead` and
    /// its standard output when it succeeds, else with `OriginFailed` and its
    /// standard error.
    ReadOrigin(Vec<String>),
    /// Create the cache's missing parent directories, then run this command;
    /// answer with `Cloned`.
    Clone(Vec<String>),
    /// The run succeeded; report this line.
    Done(String),
    /// The run failed.
    Fail(HarddotsError),
}

/// The contents of an action.
pub enum InitAct {
    CheckGitDir(Seq<char>),
    ReadOrigin(Seq<Seq<char>>),
    Clone(Seq<Seq<char>>),
    Done(Seq<char>),
    Mismatch(Seq<char>, Seq<char>),
    GitFailed(Seq<char>),
    OutOfOrder,
}

impl InitAction {
    pub open spec fn act(self) -> InitAct {
        match self {
            InitAction::CheckGitDir(p) => InitAct::CheckGitDir(p@),
            InitAction::ReadOrigin(a) => InitAct::ReadOrigin(argv_view(a@)),
            InitAction::Clone(a) => InitAct::Clone(argv_view(a@)),
            InitAction::Done(m) => InitAct::Done(m@),
            InitAction::Fail(HarddotsError::CacheMismatch { dir, existing_url }) => InitAct::Mismatch(
                dir@,
                existing_url@,
            ),
            InitAction::Fail(HarddotsError::GitFailure(m)) => InitAct::GitFailed(m@),
            InitAction::Fail(_) => InitAct::OutOfOrder,
        }
    }
}

/// A run of `init`: clones the manifest's repository into the cache unless
/// the cache already holds a clone of it, and never touches a cache that holds
/// another repository.
#[derive(Debug, Clone)]
pub struct InitRun {
    pub url: String,
    /// The cache directory, expanded.
    pub dir: String,
    pub stage: InitStage,
}

/// The message of a failed read of the cache's `origin`: the cache directory
/// and what git wrote to its error stream.
pub open spec fn origin_failure_text(dir: Seq<char>, stderr: Seq<char>) -> Seq<char> {
    "Failed to get remote URL for "@ + dir + ": "@ + stderr
}

/// The stage and action that follow `event` in an init run.
pub open spec fn init_transition(run: InitRun, event: InitEvent) -> (InitStage, InitAct) {
    let dir = run.dir@;
    let url = run.url@;
    match (run.stage, event) {
        (InitStage::Start, InitEvent::Proceed) => (InitStage::AwaitGitDir, InitAct::CheckGitDir(dir + "/.git"@)),
        (InitStage::AwaitGitDir, InitEvent::GitDirExists(true)) => (
            InitStage::AwaitOrigin,
            InitAct::ReadOrigin(seq!["git"@, "-C"@, dir, "remote"@, "get-url"@, "origin"@]),
        ),
        (InitStage::AwaitGitDir, InitEvent::GitDirExists(false)) => (
            InitStage::AwaitClone,
            InitAct::Clone(seq!["git"@, "clone"@, url, dir]),
        ),
        (InitStage::AwaitOrigin, InitEvent::OriginFailed(stderr)) => (
            InitStage::Finished,
            InitAct::GitFailed(origin_failure_text(dir, stderr@)),
        ),
        (InitStage::AwaitOrigin, InitEvent::OriginRead(o)) => if trim_of(o@) == trim_of(url) {
            (InitStage::Finished, InitAct::Done("Repository already initialized at "@ + dir))
        } else {
            (InitStage::Finished, InitAct::Mismatch(dir, o@))
        },
        (InitStage::AwaitClone, InitEvent::Cloned(ok)) => if ok {
            (InitStage::Finished, InitAct::Done("Successfully cloned repository to "@ + dir))
        } else {
            (InitStage::Finished, InitAct::GitFailed("clone"@))
        },
        _ => (InitStage::Finished, InitAct::OutOfOrder),
    }
}

impl InitRun {
    /// A run for the manifest's repository and its cache directory, expanded
    /// against `home`.
    pub fn new(config: &HarddotsConfig, home: Option<&str>) -> (r: InitRun)
        ensures
            r.url@ == config.git_repo@,
            r.dir@ == tilde_expanded(cache_dir_text(*config), opt_str_view(home)),
            r.stage == InitStage::Start,
    {
        InitRun { url: config.git_repo.clone(), dir: cache_dir(config, home), stage: InitStage::Start }
    }

    /// Takes the event that answers the last action and says what to do next.
    /// An event that does not answer the last action ends the run with a failure.
    pub fn step(&mut self, event: InitEvent) -> (r: InitAction)
        ensures
            final(self).url == old(self).url,
            final(self).dir == old(self).dir,
            (final(self).stage, r.act()) == init_transition(*old(self), event),
            old(self).stage == InitStage::AwaitOrigin ==> !(r is Clone),
            old(self).stage == InitStage::AwaitOrigin ==> match event {
                InitEvent::OriginRead(o) => (r is Done) <==> trim_of(o@) == trim_of(old(self).url@),
                InitEvent::OriginFailed(e) => r matches InitAction::Fail(HarddotsError::GitFailure(m))
                    && m@ == origin_failure_text(old(self).dir@, e@),
                _ => true,
            },
    {
        match (self.stage, event) {
            (InitStage::Start, InitEvent::Proceed) => {
                self.stage = InitStage::AwaitGitDir;
                InitAction::CheckGitDir(self.dir.clone().concat("/.git"))
            },
            (InitStage::AwaitGitDir, InitEvent::GitDirExists(true)) => {
                self.stage = InitStage::AwaitOrigin;
                InitAction::ReadOrigin(remote_url_command(self.dir.as_str()))
            },
            (InitStage::AwaitGitDir, InitEvent::GitDirExists(false)) => {
                self.stage = InitStage::AwaitClone;
                InitAction::Clone(clone_command(self.url.as_str(), self.dir.as_str()))
            },
            (InitStage::AwaitOrigin, InitEvent::OriginFailed(stderr)) => {
                self.stage = InitStage::Finished;
                let msg = "Failed to get remote URL for ".to_owned().concat(self.dir.as_str()).concat(": ").concat(
                    stderr.as_str(),
                );
                InitAction::Fail(HarddotsError::GitFailure(msg))
            },
            (InitStage::AwaitOrigin, InitEvent::OriginRead(o)) => {
                self.stage = InitStage::Finished;
                match clone_action(self.url.as_str(), self.dir.as_str(), Some(o.as_str())) {
                    Ok(CloneAction::AlreadyCloned) => InitAction::Done(
                        "Repository already initialized at ".to_owned().concat(self.dir.as_str()),
                    ),
                    Ok(CloneAction::Clone) => vstd::pervasive::unreached(),
                    Err(e) => InitAction::Fail(e),
                }
            },
            (InitStage::AwaitClone, InitEvent::Cloned(ok)) => {
                self.stage = InitStage::Finished;
                if ok {
                    InitAction::Done("Successfully cloned repository to ".to_owned().concat(self.dir.as_str()))
                } else {
                    InitAction::Fail(HarddotsError::GitFailure("clone".to_owned()))
                }
            },
            _ => {
                self.stage = InitStage::Finished;
                InitAction::Fail(HarddotsError::Other("init event out of order".to_owned()))
            },
        }
    }
}

} // verus!
