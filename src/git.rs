use vstd::prelude::*;
use crate::error::HarddotsError;
use crate::package::argv_view;

verus! {

/// A character of Unicode's `White_Space` property.
pub open spec fn is_white_space(c: char) -> bool {
    let u = c as u32;
    (0x9 <= u && u <= 0xD) || u == 0x20 || u == 0x85 || u == 0xA0 || u == 0x1680 || (0x2000 <= u
        && u <= 0x200A) || u == 0x2028 || u == 0x2029 || u == 0x202F || u == 0x205F || u == 0x3000
}

/// The text without its leading white space.
pub open spec fn trim_start_of(s: Seq<char>) -> Seq<char>
    decreases s.len(),
{
    if s.len() > 0 && is_white_space(s[0]) {
        trim_start_of(s.drop_first())
    } else {
        s
    }
}

/// The text without its trailing white space.
pub open spec fn trim_end_of(s: Seq<char>) -> Seq<char>
    decreases s.len(),
{
    if s.len() > 0 && is_white_space(s.last()) {
        trim_end_of(s.drop_last())
    } else {
        s
    }
}

/// The text without its leading and trailing white space.
pub open spec fn trim_of(s: Seq<char>) -> Seq<char> {
    trim_end_of(trim_start_of(s))
}

/// Relies on str::trim: it removes leading and trailing characters of
/// Unicode's `White_Space` property.
#[verifier::external_body]
fn trimmed(s: &str) -> (r: String)
    ensures
        r@ == trim_of(s@),
{
    s.trim().to_owned()
}

/// Whether a clone is needed once the cache has been inspected.
#[derive(Debug, Clone, Copy, PartialEq, Eq, Structural)]
pub enum CloneAction {
    /// The cache already holds a clone of the requested repository.
    AlreadyCloned,
    /// The cache holds no repository: clone into it.
    Clone,
}

pub open spec fn is_mismatch_error(e: HarddotsError, dir: Seq<char>, existing: Seq<char>) -> bool {
    match e {
        HarddotsError::CacheMismatch { dir: d, existing_url: u } => d@ == dir && u@ == existing,
        _ => false,
    }
}

/// Decides a clone into `cache_dir` from texts already trimmed: the requested
/// URL, and the cache's `origin` URL (`None` when the cache holds no
/// repository) as read and as trimmed. Equal URLs need nothing; different ones
/// fail with `CacheMismatch`, which reports the URL as read.
pub fn clone_decision(
    cache_dir: &str,
    existing_origin: Option<&str>,
    origin_trimmed: &str,
    url_trimmed: &str,
) -> (r: Result<CloneAction, HarddotsError>)
    ensures
        match existing_origin {
            None => r == Ok::<CloneAction, HarddotsError>(CloneAction::Clone),
            Some(o) => if origin_trimmed@ == url_trimmed@ {
                r == Ok::<CloneAction, HarddotsError>(CloneAction::AlreadyCloned)
            } else {
                r.is_err() && is_mismatch_error(r->Err_0, cache_dir@, o@)
            },
        },
{
    match existing_origin {
        None => Ok(CloneAction::Clone),
        Some(o) => {
            if origin_trimmed.to_owned() == url_trimmed.to_owned() {
                Ok(CloneAction::AlreadyCloned)
            } else {
                Err(HarddotsError::CacheMismatch { dir: cache_dir.to_owned(), existing_url: o.to_owned() })
            }
        },
    }
}

/// Decides a clone of `url` into `cache_dir`. `existing_origin` is the `origin`
/// remote URL of the repository already in the cache, `None` when the cache
/// holds none. A cache of the same repository (URLs equal once trimmed) needs
/// nothing; a cache of another repository is never overwritten: that fails
/// with `CacheMismatch`.
pub fn clone_action(url: &str, cache_dir: &str, existing_origin: Option<&str>) -> (r: Result<
    CloneAction,
    HarddotsError,
>)
    ensures
        match existing_origin {
            None => r == Ok::<CloneAction, HarddotsError>(CloneAction::Clone),
            Some(o) => if trim_of(o@) == trim_of(url@) {
                r == Ok::<CloneAction, HarddotsError>(CloneAction::AlreadyCloned)
            } else {
                r.is_err() && is_mismatch_error(r->Err_0, cache_dir@, o@)
            },
        },
{
    match existing_origin {
        None => clone_decision(cache_dir, None, "", ""),
        Some(o) => {
            let current = trimmed(o);
            let wanted = trimmed(url);
            clone_decision(cache_dir, Some(o), current.as_str(), wanted.as_str())
        },
    }
}

/// `git clone <url> <dir>`.
pub fn clone_command(url: &str, dir: &str) -> (r: Vec<String>)
    ensures
        argv_view(r@) == seq!["git"@, "clone"@, url@, dir@],
{
    let r = vec!["git".to_owned(), "clone".to_owned(), url.to_owned(), dir.to_owned()];
    assert(argv_view(r@) =~= seq!["git"@, "clone"@, url@, dir@]);
    r
}

/// `git -C <dir> remote get-url origin`: prints the URL of the cache's origin.
pub fn remote_url_command(dir: &str) -> (r: Vec<String>)
    ensures
        argv_view(r@) == seq!["git"@, "-C"@, dir@, "remote"@, "get-url"@, "origin"@],
{
    let r = vec![
        "git".to_owned(),
        "-C".to_owned(),
        dir.to_owned(),
        "remote".to_owned(),
        "get-url".to_owned(),
        "origin".to_owned(),
    ];
    assert(argv_view(r@) =~= seq!["git"@, "-C"@, dir@, "remote"@, "get-url"@, "origin"@]);
    r
}

/// `git -C <dir> pull --ff-only`: fast-forwards the cache.
pub fn update_command(dir: &str) -> (r: Vec<String>)
    ensures
        argv_view(r@) == seq!["git"@, "-C"@, dir@, "pull"@, "--ff-only"@],
{
    let r = vec![
        "git".to_owned(),
        "-C".to_owned(),
        dir.to_owned(),
        "pull".to_owned(),
        "--ff-only".to_owned(),
    ];
    assert(argv_view(r@) =~= seq!["git"@, "-C"@, dir@, "pull"@, "--ff-only"@]);
    r
}

/// The outcome of a `git` command described by `what`: fails with
/// `GitFailure` unless it succeeded.
pub fn git_result(succeeded: bool, what: &str) -> (r: Result<(), HarddotsError>)
    ensures
        succeeded <==> r.is_ok(),
        !succeeded ==> (r matches Err(HarddotsError::GitFailure(m)) && m@ == what@),
{
    if succeeded {
        Ok(())
    } else {
        Err(HarddotsError::GitFailure(what.to_owned()))
    }
}

} // verus!
