//! A runtime version as a user asks for it: a major version, and maybe a
//! minor version and a patch.

use crate::error::InstallError;
use crate::text::{decimal, decimal_of, parse_u64, split_on, split_text, u64_of, views_of};
use vstd::prelude::*;
use vstd::string::*;

verus! {

/// A possibly partial version request, such as `5`, `5.1` or `5.1.3`.
#[derive(Clone, Copy, Debug)]
pub struct DotnetVersion {
    pub major: u64,
    pub minor: Option<u64>,
    pub patch: Option<u64>,
}

/// The request that a text writes: one to three dot-separated integers.
pub open spec fn request_of(s: Seq<char>) -> Option<DotnetVersion> {
    let ps = split_on(s, '.');
    if 1 <= ps.len() <= 3 && (forall|k: int| 0 <= k < ps.len() ==> (#[trigger] u64_of(ps[k])) is Some) {
        Some(
            DotnetVersion {
                major: u64_of(ps[0])->0,
                minor: if ps.len() >= 2 {
                    Some(u64_of(ps[1])->0)
                } else {
                    None
                },
                patch: if ps.len() == 3 {
                    Some(u64_of(ps[2])->0)
                } else {
                    None
                },
            },
        )
    } else {
        None
    }
}

/// The request written out: only trailing components are ever left off.
pub open spec fn request_text(v: DotnetVersion) -> Seq<char> {
    match v.minor {
        None => decimal_of(v.major as nat),
        Some(m) => match v.patch {
            None => decimal_of(v.major as nat) + "."@ + decimal_of(m as nat),
            Some(p) => decimal_of(v.major as nat) + "."@ + decimal_of(m as nat) + "."@
                + decimal_of(p as nat),
        },
    }
}

impl DotnetVersion {
    /// A patch is only given together with a minor version.
    pub open spec fn wf(&self) -> bool {
        self.patch is Some ==> self.minor is Some
    }

    /// Major, minor and patch are all given.
    pub open spec fn is_full(&self) -> bool {
        self.minor is Some && self.patch is Some
    }

    /// Reads a request such as `5`, `5.1` or `5.1.3`.
    pub fn parse(s: &str) -> (r: Result<DotnetVersion, InstallError>)
        ensures
            match r {
                Ok(v) => request_of(s@) == Some(v) && v.wf(),
                Err(e) => request_of(s@) is None && e is Parse,
            },
    {
        let parts = split_text(s, '.');
        let ghost ps = views_of(parts@);
        let mut values: Vec<u64> = Vec::new();
        let mut i: usize = 0;
        while i < parts.len()
            invariant
                i <= parts@.len(),
                values@.len() == i,
                ps == views_of(parts@),
                ps == split_on(s@, '.'),
                forall|k: int| 0 <= k < i ==> u64_of(#[trigger] ps[k]) == Some(values@[k]),
            decreases parts.len() - i,
        {
            assert(ps[i as int] == parts@[i as int]@);
            match parse_u64(parts[i]) {
                Some(n) => values.push(n),
                None => {
                    assert(u64_of(ps[i as int]) is None);
                    return Err(InstallError::Parse);
                },
            }
            i = i + 1;
        }
        assert(forall|k: int| 0 <= k < ps.len() ==> (#[trigger] u64_of(ps[k])) is Some);
        if values.len() == 1 {
            Ok(DotnetVersion { major: values[0], minor: None, patch: None })
        } else if values.len() == 2 {
            Ok(DotnetVersion { major: values[0], minor: Some(values[1]), patch: None })
        } else if values.len() == 3 {
            Ok(DotnetVersion { major: values[0], minor: Some(values[1]), patch: Some(values[2]) })
        } else {
            Err(InstallError::Parse)
        }
    }

    /// Writes the request out as it was given.
    pub fn to_text(&self) -> (r: String)
        ensures
            r@ == request_text(*self),
    {
        let mut r = decimal(self.major);
        if let Some(minor) = self.minor {
            r.append(".");
            r.append(decimal(minor).as_str());
            if let Some(patch) = self.patch {
                r.append(".");
                r.append(decimal(patch).as_str());
            }
        }
        r
    }
}

} // verus!
