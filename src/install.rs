//! The installer download: its address, and what its status means.

use crate::error::InstallError;
use crate::index::{STATUS_NOT_FOUND, STATUS_OK};
use crate::layout::{architecture_tag, arch_tag, channel_path, installer_prefix, runtime_channel_path, runtime_installer_prefix, Architecture, Runtime, BASE_URL};
use crate::semantic::{semver_text, SemVer};
use vstd::prelude::*;
use vstd::string::*;

verus! {

/// Where the installer of a release is published: the release's directory in
/// the channel, and a file name made of the channel, the product version and
/// the architecture.
pub open spec fn installer_url(
    arch: Architecture,
    runtime: Runtime,
    version: (u64, u64, u64, Seq<char>, Seq<char>),
    product_version: Seq<char>,
) -> Seq<char> {
    BASE_URL@ + channel_path(runtime) + "/"@ + semver_text(version) + "/"@ + installer_prefix(runtime)
        + product_version + "-win-"@ + arch_tag(arch) + ".exe"@
}

pub fn download_url(arch: Architecture, runtime: Runtime, version: &SemVer, product_version: &str) -> (r: String)
    ensures
        r@ == installer_url(arch, runtime, version@, product_version@),
{
    let mut r = String::from_str(BASE_URL);
    r.append(runtime_channel_path(runtime));
    r.append("/");
    r.append(version.to_text().as_str());
    r.append("/");
    r.append(runtime_installer_prefix(runtime));
    r.append(product_version);
    r.append("-win-");
    r.append(architecture_tag(arch));
    r.append(".exe");
    r
}

/// What the status of the installer download means: go on and launch it, the
/// release does not exist upstream, or the download failed.
pub fn check_download_status(status: u16, product_version: &str) -> (r: Result<(), InstallError>)
    ensures
        status == STATUS_OK <==> r is Ok,
        status == STATUS_NOT_FOUND ==> r is Err && r->Err_0 is VersionNotFound,
        status != STATUS_OK && status != STATUS_NOT_FOUND ==> r is Err && r->Err_0 is DownloadFailed
            && r->Err_0->product_version@ == product_version@,
{
    if status == STATUS_OK {
        Ok(())
    } else if status == STATUS_NOT_FOUND {
        Err(InstallError::VersionNotFound)
    } else {
        Err(InstallError::DownloadFailed { product_version: String::from_str(product_version) })
    }
}

} // verus!
