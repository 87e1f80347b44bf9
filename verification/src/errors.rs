//! The error taxonomy of the client library.

use vstd::prelude::*;

verus! {

/// Every failure of the library is one of these.
///
/// - `ConfigError`: a required piece of startup configuration is missing;
///   the field names the missing environment variable.
/// - `NotFoundError`: an expected local input is missing; the field names
///   the path.
/// - `InvalidArgument`: a caller-supplied value violates a precondition;
///   the field names the offending value.
/// - `RemoteError`: a failure originating from the remote service or the
///   transport; the field carries the service's message unchanged.
/// - `IOError`: a local filesystem failure; the field carries the message.
#[derive(Debug)]
pub enum StorageError {
    ConfigError(String),
    NotFoundError(String),
    InvalidArgument(String),
    RemoteError(String),
    IOError(String),
}

impl StorageError {
    /// The contextual detail attached to the error: the missing variable,
    /// the absent path, the rejected value, or the underlying message.
    pub fn detail(&self) -> (r: &str)
        ensures
            r@ == self.detail_spec(),
    {
        match self {
            StorageError::ConfigError(s) => s.as_str(),
            StorageError::NotFoundError(s) => s.as_str(),
            StorageError::InvalidArgument(s) => s.as_str(),
            StorageError::RemoteError(s) => s.as_str(),
            StorageError::IOError(s) => s.as_str(),
        }
    }

    pub open spec fn detail_spec(&self) -> Seq<char> {
        match self {
            StorageError::ConfigError(s) => s@,
            StorageError::NotFoundError(s) => s@,
            StorageError::InvalidArgument(s) => s@,
            StorageError::RemoteError(s) => s@,
            StorageError::IOError(s) => s@,
        }
    }
}

} // verus!
