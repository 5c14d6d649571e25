//! A dotfile manager: a manifest of applications, each with a config file kept in
//! a Git repository cache, materialised at its target through a hardlink, with
//! the OS package installed where missing.
//!
//! Every decision lives here and is verified; the process spawning, filesystem
//! probing and manifest file I/O are left to the caller, which hands the
//! outcomes back as plain values.
//!
//! - `host`: the OS family and privilege-escalation command of a machine.
//! - `config`: the manifest and its `add` / `remove` primitives.
//! - `package`: package query and install commands per family.
//! - `paths`: tilde expansion.
//! - `git`: cache inspection and the clone decision.
//! - `link`: the hardlink policy, with a filesystem model and its laws.
//! - `deploy`: the per-application decisions of a deploy.
//! - `run`: a deploy run as a state machine driven by observed events.
//! - `init`: an init run as a state machine driven by observed events.

pub mod error;
pub mod host;
pub mod config;
pub mod package;
pub mod paths;
pub mod git;
pub mod link;
pub mod deploy;
pub mod run;
pub mod init;
