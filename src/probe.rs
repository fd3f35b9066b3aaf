//! Whether a release that satisfies the request is already installed.

use crate::request::DotnetVersion;
use crate::semantic::{request_admits, semver_parse, SemVer};
use vstd::prelude::*;

verus! {

/// One entry of a channel's install directory.
pub struct DirEntry {
    pub name: String,
    pub is_dir: bool,
}

/// The entry is a directory named by a version in the request's range.
pub open spec fn installs(request: DotnetVersion, entry: DirEntry) -> bool {
    &&& entry.is_dir
    &&& semver_parse(entry.name@) matches Some(v)
    &&& request_admits(request, v)
}

/// Decides from the listing of a channel's install directory, `None` when the
/// directory does not exist, whether a satisfying release is installed.
/// Entries whose names are not versions are passed over.
pub fn is_installed(request: &DotnetVersion, listing: Option<&Vec<DirEntry>>) -> (r: bool)
    requires
        request.wf(),
    ensures
        r == match listing {
            Some(entries) => exists|i: int|
                0 <= i < entries@.len() && installs(*request, #[trigger] entries@[i]),
            None => false,
        },
{
    let entries = match listing {
        None => return false,
        Some(entries) => entries,
    };
    let mut i: usize = 0;
    while i < entries.len()
        invariant
            i <= entries@.len(),
            request.wf(),
            listing == Some(entries),
            forall|k: int| 0 <= k < i ==> !installs(*request, #[trigger] entries@[k]),
        decreases entries.len() - i,
    {
        let entry = &entries[i];
        if entry.is_dir {
            if let Some(v) = SemVer::parse(entry.name.as_str()) {
                if v.satisfies(request) {
                    assert(installs(*request, entries@[i as int]));
                    assert(listing->0@[i as int] == entries@[i as int]);
                    assert(exists|j: int| 0 <= j < listing->0@.len() && installs(*request, #[trigger] listing->0@[j]));
                    return true;
                }
            }
        }
        i = i + 1;
    }
    false
}

/// Entries whose names are not semantic versions never make a request count
/// as installed, whatever else the listing holds.
pub proof fn unparsable_names_never_install(request: DotnetVersion, entries: Seq<DirEntry>)
    requires
        forall|i: int| 0 <= i < entries.len() ==> semver_parse((#[trigger] entries[i]).name@) is None,
    ensures
        !exists|i: int| 0 <= i < entries.len() && installs(request, #[trigger] entries[i]),
{
}

/// Adding entries whose names are not semantic versions to a listing, at any
/// positions, never changes whether a satisfying release is found: such an
/// entry never counts, and never hides one that does.
pub proof fn unparsable_names_change_nothing(request: DotnetVersion, listing: Seq<DirEntry>, extended: Seq<DirEntry>)
    requires
        forall|i: int| 0 <= i < listing.len() ==> exists|j: int|
            0 <= j < extended.len() && extended[j] == #[trigger] listing[i],
        forall|j: int| 0 <= j < extended.len() ==> semver_parse((#[trigger] extended[j]).name@) is None
            || exists|i: int| 0 <= i < listing.len() && listing[i] == extended[j],
    ensures
        (exists|i: int| 0 <= i < listing.len() && installs(request, #[trigger] listing[i])) == (exists|j: int|
            0 <= j < extended.len() && installs(request, #[trigger] extended[j])),
{
    if exists|i: int| 0 <= i < listing.len() && installs(request, #[trigger] listing[i]) {
        let i = choose|i: int| 0 <= i < listing.len() && installs(request, #[trigger] listing[i]);
        let j = choose|j: int| 0 <= j < extended.len() && extended[j] == listing[i];
        assert(installs(request, extended[j]));
    }
    if exists|j: int| 0 <= j < extended.len() && installs(request, #[trigger] extended[j]) {
        let j = choose|j: int| 0 <= j < extended.len() && installs(request, #[trigger] extended[j]);
        assert(semver_parse(extended[j].name@) is Some);
        let i = choose|i: int| 0 <= i < listing.len() && listing[i] == extended[j];
        assert(installs(request, listing[i]));
    }
}

} // verus!
