//! The error taxonomy of the scaffolding pipeline.
//!
//! Every error is fatal: the pipeline aborts on the first one and the caller
//! exits nonzero. The variants that carry data carry plain integers, so the
//! type supports structural equality in contracts and in tests.
use vstd::prelude::*;

verus! {

/// An unrecoverable failure of the scaffolding pipeline.
#[derive(Clone, Copy, Debug, PartialEq, Eq, Structural)]
pub enum ScaffoldError {
    /// The URL does not match the provider's tree-URL shape.
    MalformedUrl,
    /// The URL's host is neither of the known forges and no explicit
    /// provider was given.
    UnsupportedProvider,
    /// Neither the "heads" nor the "tags" archive exists for the ref.
    RefNotFound,
    /// An archive request answered with a status other than 200 or 404.
    UnexpectedStatus { code: u16 },
    /// A subprocess (git or a postscript) exited nonzero.
    SubprocessFailure { code: i32 },
    /// A filesystem operation failed.
    FilesystemError,
    /// Unpacking the archive did not yield exactly one top-level entry.
    MultipleTopLevelEntries,
}

impl ScaffoldError {
    /// A fixed diagnostic line for each variant, for the caller to print.
    pub fn describe(&self) -> (r: String)
        ensures
            r@ == match *self {
                ScaffoldError::MalformedUrl => "the URL does not match the provider's tree-URL shape"@,
                ScaffoldError::UnsupportedProvider => "unsupported URL host; pass an explicit provider type"@,
                ScaffoldError::RefNotFound => "no branch or tag archive exists for the requested ref"@,
                ScaffoldError::UnexpectedStatus { code } => "unexpected HTTP status from the archive endpoint"@,
                ScaffoldError::SubprocessFailure { code } => "a subprocess exited with a nonzero status"@,
                ScaffoldError::FilesystemError => "a filesystem operation failed"@,
                ScaffoldError::MultipleTopLevelEntries => "the archive did not unpack to exactly one top-level entry"@,
            },
    {
        match *self {
            ScaffoldError::MalformedUrl => {
                String::from_str("the URL does not match the provider's tree-URL shape")
            },
            ScaffoldError::UnsupportedProvider => {
                String::from_str("unsupported URL host; pass an explicit provider type")
            },
            ScaffoldError::RefNotFound => {
                String::from_str("no branch or tag archive exists for the requested ref")
            },
            ScaffoldError::UnexpectedStatus { code: _ } => {
                String::from_str("unexpected HTTP status from the archive endpoint")
            },
            ScaffoldError::SubprocessFailure { code: _ } => {
                String::from_str("a subprocess exited with a nonzero status")
            },
            ScaffoldError::FilesystemError => {
                String::from_str("a filesystem operation failed")
            },
            ScaffoldError::MultipleTopLevelEntries => {
                String::from_str("the archive did not unpack to exactly one top-level entry")
            },
        }
    }
}

} // verus!
