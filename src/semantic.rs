//! Concrete semantic versions, as the release index and the install
//! directories name them, read and compared through the `semver` crate.

use crate::request::DotnetVersion;
use crate::text::{decimal, decimal_of};
use vstd::prelude::*;
use vstd::string::*;

verus! {

#[verifier::external_type_specification]
#[verifier::external_body]
pub struct ExSemverVersion(semver::Version);

/// A concrete release version: major, minor, patch, pre-release and build
/// metadata, kept beside the `semver` value it was read into.
pub struct SemVer {
    major: u64,
    minor: u64,
    patch: u64,
    pre: String,
    build: String,
    inner: semver::Version,
}

impl View for SemVer {
    type V = (u64, u64, u64, Seq<char>, Seq<char>);

    closed spec fn view(&self) -> (u64, u64, u64, Seq<char>, Seq<char>) {
        (self.major, self.minor, self.patch, self.pre@, self.build@)
    }
}

/// What `semver::Version::parse` reads from a text, when it accepts it.
pub uninterp spec fn semver_parse(s: Seq<char>) -> Option<(u64, u64, u64, Seq<char>, Seq<char>)>;

/// Relies on `semver::Version::parse`: accepts the text when it is a semantic
/// version, and then its fields are those of the result.
#[verifier::external_body]
fn parse_semver(s: &str) -> (r: Option<SemVer>)
    ensures
        match r {
            Some(v) => semver_parse(s@) == Some(v@),
            None => semver_parse(s@) is None,
        },
{
    match semver::Version::parse(s) {
        Ok(v) => Some(SemVer {
            major: v.major,
            minor: v.minor,
            patch: v.patch,
            pre: v.pre.as_str().to_string(),
            build: v.build.as_str().to_string(),
            inner: v,
        }),
        Err(_) => None,
    }
}

/// Relies on `semver::Version::new`: the given numbers, with empty
/// pre-release and build metadata.
#[verifier::external_body]
fn semver_new(major: u64, minor: u64, patch: u64) -> (r: SemVer)
    ensures
        r@ == (major, minor, patch, Seq::<char>::empty(), Seq::<char>::empty()),
{
    let v = semver::Version::new(major, minor, patch);
    SemVer {
        major: v.major,
        minor: v.minor,
        patch: v.patch,
        pre: v.pre.as_str().to_string(),
        build: v.build.as_str().to_string(),
        inner: v,
    }
}

/// Whether a version lies in the range that a request stands for: no
/// pre-release, the request's major, and its minor and patch where it gives
/// them. Request `5` admits every `5.x.y`; request `5.1` every `5.1.x`.
pub open spec fn request_admits(req: DotnetVersion, v: (u64, u64, u64, Seq<char>, Seq<char>)) -> bool {
    &&& v.3.len() == 0
    &&& v.0 == req.major
    &&& (req.minor matches Some(m) ==> v.1 == m)
    &&& (req.patch matches Some(p) ==> v.2 == p)
}

/// Relies on `semver::VersionReq::matches`, with the request turned into the
/// one exact comparator that `semver::VersionReq::parse` makes of `=5` or
/// `=5.1`: it compares the major, the minor and patch where given, and the
/// (empty) pre-release.
#[verifier::external_body]
fn req_matches(req: &DotnetVersion, v: &SemVer) -> (r: bool)
    requires
        req.wf(),
    ensures
        r == request_admits(*req, v@),
{
    let range = semver::VersionReq {
        comparators: vec![semver::Comparator {
            op: semver::Op::Exact,
            major: req.major,
            minor: req.minor,
            patch: req.patch,
            pre: semver::Prerelease::EMPTY,
        }],
    };
    range.matches(&v.inner)
}

/// The text form `major.minor.patch`, then `-pre` and `+build` when present.
pub open spec fn semver_text(v: (u64, u64, u64, Seq<char>, Seq<char>)) -> Seq<char> {
    let core = decimal_of(v.0 as nat) + "."@ + decimal_of(v.1 as nat) + "."@ + decimal_of(
        v.2 as nat,
    );
    let with_pre = if v.3.len() > 0 {
        core + "-"@ + v.3
    } else {
        core
    };
    if v.4.len() > 0 {
        with_pre + "+"@ + v.4
    } else {
        with_pre
    }
}

impl SemVer {
    /// The release `major.minor.patch`.
    pub fn new(major: u64, minor: u64, patch: u64) -> (r: SemVer)
        ensures
            r@ == (major, minor, patch, Seq::<char>::empty(), Seq::<char>::empty()),
    {
        semver_new(major, minor, patch)
    }

    /// Reads a semantic version; `None` when the text is not one.
    pub fn parse(s: &str) -> (r: Option<SemVer>)
        ensures
            match r {
                Some(v) => semver_parse(s@) == Some(v@),
                None => semver_parse(s@) is None,
            },
    {
        parse_semver(s)
    }

    pub fn major(&self) -> (r: u64)
        ensures
            r == self@.0,
    {
        self.major
    }

    pub fn minor(&self) -> (r: u64)
        ensures
            r == self@.1,
    {
        self.minor
    }

    pub fn patch(&self) -> (r: u64)
        ensures
            r == self@.2,
    {
        self.patch
    }

    /// Whether this version lies in the range that `req` stands for.
    pub fn satisfies(&self, req: &DotnetVersion) -> (r: bool)
        requires
            req.wf(),
        ensures
            r == request_admits(*req, self@),
    {
        req_matches(req, self)
    }

    /// The version written out.
    pub fn to_text(&self) -> (r: String)
        ensures
            r@ == semver_text(self@),
    {
        let mut r = decimal(self.major);
        r.append(".");
        r.append(decimal(self.minor).as_str());
        r.append(".");
        r.append(decimal(self.patch).as_str());
        if self.pre.as_str().unicode_len() > 0 {
            r.append("-");
            r.append(self.pre.as_str());
        }
        if self.build.as_str().unicode_len() > 0 {
            r.append("+");
            r.append(self.build.as_str());
        }
        r
    }
}

} // verus!
