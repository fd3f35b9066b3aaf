//! The remote release index: its addresses, its answers, and the product
//! version that names an installer file.

use crate::error::InstallError;
use crate::layout::{channel_path, runtime_channel_path, Runtime, BASE_URL, CDN_URL};
use crate::semantic::{semver_text, SemVer};
use crate::text::{decimal, decimal_of, trim_text, trimmed};
use vstd::prelude::*;
use vstd::string::*;

verus! {

/// What came back from one request to the index.
pub enum IndexReply {
    /// The server answered with this status and body.
    Response { status: u16, body: String },
    /// The server could not be reached.
    Unreachable,
}

pub const STATUS_OK: u16 = 200;

pub const STATUS_NOT_FOUND: u16 = 404;

pub open spec fn is_success(reply: IndexReply) -> bool {
    reply is Response && reply->status == STATUS_OK
}

pub open spec fn is_not_found(reply: IndexReply) -> bool {
    reply is Response && reply->status == STATUS_NOT_FOUND
}

/// The marker that names the newest release of `major.minor` in a channel.
pub open spec fn latest_url(runtime: Runtime, major: u64, minor: u64) -> Seq<char> {
    BASE_URL@ + channel_path(runtime) + "/"@ + decimal_of(major as nat) + "."@ + decimal_of(
        minor as nat,
    ) + "/latest.version"@
}

pub fn latest_version_url(runtime: Runtime, major: u64, minor: u64) -> (r: String)
    ensures
        r@ == latest_url(runtime, major, minor),
{
    let mut r = String::from_str(BASE_URL);
    r.append(runtime_channel_path(runtime));
    r.append("/");
    r.append(decimal(major).as_str());
    r.append(".");
    r.append(decimal(minor).as_str());
    r.append("/latest.version");
    r
}

/// The text resource that holds the product version of a release.
pub open spec fn product_url(runtime: Runtime, version: (u64, u64, u64, Seq<char>, Seq<char>)) -> Seq<char> {
    match runtime {
        Runtime::AspCore => BASE_URL@ + "/aspnetcore/Runtime/"@ + semver_text(version)
            + "/productVersion.txt"@,
        _ => CDN_URL@ + "/Runtime/"@ + semver_text(version) + "/productVersion.txt"@,
    }
}

pub fn product_version_url(runtime: Runtime, version: &SemVer) -> (r: String)
    ensures
        r@ == product_url(runtime, version@),
{
    let mut r = match runtime {
        Runtime::AspCore => {
            let mut r = String::from_str(BASE_URL);
            r.append("/aspnetcore/Runtime/");
            r
        },
        _ => {
            let mut r = String::from_str(CDN_URL);
            r.append("/Runtime/");
            r
        },
    };
    r.append(version.to_text().as_str());
    r.append("/productVersion.txt");
    r
}

/// The product version that a reply to `product_version_url` gives: the
/// trimmed body on success, and the release's own text on any other status.
pub fn find_product_version(version: &SemVer, reply: &IndexReply) -> (r: Result<String, InstallError>)
    ensures
        is_success(*reply) ==> r is Ok && r->Ok_0@ == trimmed(reply->body@),
        reply is Response && !is_success(*reply) ==> r is Ok && r->Ok_0@ == semver_text(version@),
        reply is Unreachable ==> r is Err && r->Err_0 is Transport,
{
    match reply {
        IndexReply::Response { status, body } => {
            if *status == STATUS_OK {
                Ok(trim_text(body.as_str()))
            } else {
                Ok(version.to_text())
            }
        },
        IndexReply::Unreachable => Err(InstallError::Transport),
    }
}

} // verus!
