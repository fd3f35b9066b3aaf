//! The ways a run can fail.

use vstd::prelude::*;

verus! {

/// Why a resolution, download or installation did not go through.
#[derive(Debug)]
pub enum InstallError {
    /// The version request is not one to three dot-separated integers.
    Parse,
    /// The release index could not be reached, refused the request, or sent
    /// text that holds no version of the requested major and minor.
    Resolution,
    /// Not even minor version 0 of the requested major is published.
    NoVersionsAvailable,
    /// The installer for the resolved version does not exist upstream.
    VersionNotFound,
    /// The installer download answered with another failure status.
    DownloadFailed { product_version: String },
    /// A 64-bit runtime was requested on a 32-bit operating system.
    Configuration,
    /// The network failed while probing the index.
    Transport,
}

} // verus!
