use vstd::prelude::*;

verus! {

/// Everything that can go wrong in a command.
///
/// Errors of the filesystem, of the manifest parser and of the serializer
/// carry the underlying message as text.
#[derive(Debug, Clone, PartialEq, Eq)]
pub enum HarddotsError {
    Io(String),
    TomlParse(String),
    TomlSerialize(String),
    DuplicateApplication(String),
    UnknownApplication(String),
    SourceMissing(String),
    CacheMismatch { dir: String, existing_url: String },
    GitFailure(String),
    PackageInstallFailed(String),
    UnsupportedOS,
    Other(String),
}

impl HarddotsError {
    /// The catch-all error, with a human-readable message.
    pub fn other(message: &str) -> (r: HarddotsError)
        ensures
            r matches HarddotsError::Other(m) && m@ == message@,
    {
        HarddotsError::Other(message.to_owned())
    }
}

impl From<&str> for HarddotsError {
    /// The catch-all error with `message`; see `HarddotsError::other`.
    fn from(message: &str) -> (r: HarddotsError) {
        HarddotsError::other(message)
    }
}

/// `from` claims no result in contracts: two strings with the same text are not
/// known to be the same value, so the error that `from` returns is stated by
/// `HarddotsError::other`, which it calls.
impl vstd::std_specs::convert::FromSpecImpl<&str> for HarddotsError {
    open spec fn obeys_from_spec() -> bool {
        false
    }

    open spec fn from_spec(message: &str) -> HarddotsError {
        HarddotsError::Other(choose|m: String| #[trigger] m@ == message@)
    }
}

} // verus!
