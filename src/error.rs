//! Why a resolution failed.
use vstd::prelude::*;

verus! {

/// The ways one resolution can fail. Each ends that resolution; none is retried.
#[derive(Clone, Debug)]
pub enum ResolveError {
    /// The release feed could not be read.
    ReleaseUnavailable { cause: String },
    /// The latest release has no asset of the expected name.
    AssetNotFound { expected_name: String },
    /// The version directory could not be created.
    DirectoryCreateFailed { path: String, cause: String },
    /// The archive could not be downloaded or unpacked.
    DownloadFailed { cause: String },
    /// The unpacked binary could not be marked executable.
    PermissionMarkFailed { cause: String },
    /// The working directory could not be listed for cleanup.
    DirectoryListFailed { cause: String },
}

} // verus!
