//! The kinds of failure that the library reports.
use vstd::prelude::*;

verus! {

/// What went wrong.
#[derive(Copy, Clone, Eq, PartialEq, Debug, Structural)]
pub enum ErrorKind {
    /// The acoustic fingerprint could not be generated.
    AcousticID,
    /// The metadata resolver gave no answer for a fingerprint.
    AcousticIDMetadata,
    /// An audio file could not be converted.
    Conversion,
    /// The store failed to read or write.
    Database,
    /// A single-row fetch found no row.
    NotFound,
}

/// A failure: its kind, and the lower-level cause as text where there is one.
#[derive(Clone, Debug)]
pub struct MyError {
    pub inner: ErrorKind,
    pub cause: Option<String>,
}

impl MyError {
    /// A failure of `kind` with no lower-level cause.
    pub fn from_kind(kind: ErrorKind) -> (r: MyError)
        ensures
            r.inner == kind,
            r.cause is None,
    {
        MyError { inner: kind, cause: None }
    }

    /// A failure of `kind` caused by `cause`.
    pub fn with_cause(kind: ErrorKind, cause: String) -> (r: MyError)
        ensures
            r.inner == kind,
            r.cause == Some(cause),
    {
        MyError { inner: kind, cause: Some(cause) }
    }

    /// The kind of this failure.
    pub fn kind(&self) -> (r: ErrorKind)
        ensures
            r == self.inner,
    {
        self.inner
    }
}

} // verus!
