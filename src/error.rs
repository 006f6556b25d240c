//! Failures of the cache, each fatal to the invocation that meets it.

use vstd::prelude::*;
use vstd::string::StringExecFns;

verus! {

#[derive(Debug, Clone, Copy, PartialEq, Eq, Structural)]
pub enum CacheError {
    /// A cache file or directory could not be read or written.
    Io,
    /// The scaffold tool failed to start or reported failure.
    Subprocess,
    /// A manifest is not a document of the expected shape; it is reported and
    /// left as it is.
    ManifestCorruption,
}

impl CacheError {
    /// The process exit status that reports the failure.
    pub fn exit_code(&self) -> (r: i32)
        ensures
            *self == CacheError::Io ==> r == 72,
            *self == CacheError::ManifestCorruption ==> r == 72,
            *self == CacheError::Subprocess ==> r == 2,
    {
        match self {
            CacheError::Io => 72,
            CacheError::Subprocess => 2,
            CacheError::ManifestCorruption => 72,
        }
    }

    /// A short description of the failure.
    pub fn describe(&self) -> (r: String)
        ensures
            *self == CacheError::Io ==> r@ == "cache file or directory could not be accessed"@,
            *self == CacheError::Subprocess ==> r@ == "scaffold tool failed"@,
            *self == CacheError::ManifestCorruption ==> r@ == "manifest is malformed"@,
    {
        match self {
            CacheError::Io => String::from_str("cache file or directory could not be accessed"),
            CacheError::Subprocess => String::from_str("scaffold tool failed"),
            CacheError::ManifestCorruption => String::from_str("manifest is malformed"),
        }
    }
}

} // verus!
