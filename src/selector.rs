//! Chooses the concrete release for a possibly partial request, one index
//! request at a time: the caller fetches each address and hands the reply back.

use crate::error::InstallError;
use crate::index::{is_not_found, is_success, latest_url, latest_version_url, IndexReply, STATUS_NOT_FOUND, STATUS_OK};
use crate::layout::Runtime;
use crate::request::DotnetVersion;
use crate::semantic::{semver_parse, SemVer};
use crate::text::{last_line, last_line_of};
use vstd::prelude::*;

verus! {

/// What the selector is waiting for.
#[derive(Clone, Copy, Debug)]
pub enum Stage {
    /// Whether minor version `candidate` of the requested major is published.
    Probing { candidate: u64 },
    /// The newest release of the requested major and this minor.
    Latest { minor: u64 },
}

/// A resolution in progress.
#[derive(Clone, Copy, Debug)]
pub struct VersionSelector {
    pub runtime: Runtime,
    pub request: DotnetVersion,
    pub stage: Stage,
}

/// What the caller does next.
pub enum SelectStep {
    /// Fetch `url` from the index and hand the reply to `next`.
    Fetch { url: String, next: VersionSelector },
    /// The release to install.
    Resolved(SemVer),
    /// The resolution failed.
    Failed(InstallError),
}

/// The minor version whose marker a stage asks for.
pub open spec fn stage_minor(stage: Stage) -> u64 {
    match stage {
        Stage::Probing { candidate } => candidate,
        Stage::Latest { minor } => minor,
    }
}

impl VersionSelector {
    /// A selector only exists for a partial request; it probes minors only
    /// when the request gives none, and fetches the given minor's marker when
    /// it does.
    pub open spec fn wf(&self) -> bool {
        &&& self.request.wf()
        &&& !self.request.is_full()
        &&& match self.stage {
            Stage::Probing { .. } => self.request.minor is None,
            Stage::Latest { minor } => self.request.minor is None || self.request.minor == Some(
                minor,
            ),
        }
    }

    /// The address this selector waits on.
    pub open spec fn url(&self) -> Seq<char> {
        latest_url(self.runtime, self.request.major, stage_minor(self.stage))
    }
}

/// `step` asks for the marker that `next` waits on, and hands its reply to `next`.
pub open spec fn fetches(step: SelectStep, next: VersionSelector) -> bool {
    &&& step is Fetch
    &&& step->next == next
    &&& step->url@ == next.url()
    &&& next.wf()
}

pub open spec fn fails_with_resolution(step: SelectStep) -> bool {
    step is Failed && step->Failed_0 is Resolution
}

/// The first step for a request: a full request is its own answer; otherwise
/// the marker of the given minor, or of minor 0 to start probing.
pub open spec fn start_gives(runtime: Runtime, request: DotnetVersion, step: SelectStep) -> bool {
    if request.is_full() {
        &&& step is Resolved
        &&& step->Resolved_0@ == (
            request.major,
            request.minor->0,
            request.patch->0,
            Seq::<char>::empty(),
            Seq::<char>::empty(),
        )
    } else if request.minor is Some {
        fetches(
            step,
            VersionSelector { runtime, request, stage: Stage::Latest { minor: request.minor->0 } },
        )
    } else {
        fetches(step, VersionSelector { runtime, request, stage: Stage::Probing { candidate: 0 } })
    }
}

/// The step that follows a reply.
///
/// While probing, the first not-found minor ends the scan and the one before
/// it is the newest; any other status moves on to the next minor. The newest
/// release of the chosen minor is the last non-empty line of its marker, which
/// must name a release of that major and minor.
pub open spec fn reply_gives(sel: VersionSelector, reply: IndexReply, step: SelectStep) -> bool {
    match sel.stage {
        Stage::Probing { candidate } => if reply is Unreachable {
            step is Failed && step->Failed_0 is Transport
        } else if is_not_found(reply) {
            if candidate == 0 {
                step is Failed && step->Failed_0 is NoVersionsAvailable
            } else {
                fetches(
                    step,
                    VersionSelector {
                        runtime: sel.runtime,
                        request: sel.request,
                        stage: Stage::Latest { minor: (candidate - 1) as u64 },
                    },
                )
            }
        } else if candidate == u64::MAX {
            fails_with_resolution(step)
        } else {
            fetches(
                step,
                VersionSelector {
                    runtime: sel.runtime,
                    request: sel.request,
                    stage: Stage::Probing { candidate: (candidate + 1) as u64 },
                },
            )
        },
        Stage::Latest { .. } => if is_success(reply) {
            match last_line(reply->body@) {
                Some(line) => match semver_parse(line) {
                    Some(v) => if v.0 == sel.request.major && v.1 == stage_minor(sel.stage) {
                        step is Resolved && step->Resolved_0@ == v
                    } else {
                        fails_with_resolution(step)
                    },
                    None => fails_with_resolution(step),
                },
                None => fails_with_resolution(step),
            }
        } else {
            fails_with_resolution(step)
        },
    }
}

/// The newest published minor, once minor `not_found_at` came back not found:
/// the one before it, or none at all when even minor 0 is missing.
pub fn find_newest_minor(not_found_at: u64) -> (r: Result<u64, InstallError>)
    ensures
        not_found_at == 0 ==> r is Err && r->Err_0 is NoVersionsAvailable,
        not_found_at > 0 ==> r == Ok::<u64, InstallError>((not_found_at - 1) as u64),
{
    if not_found_at > 0 {
        Ok(not_found_at - 1)
    } else {
        Err(InstallError::NoVersionsAvailable)
    }
}

fn fetch(next: VersionSelector) -> (r: SelectStep)
    requires
        next.wf(),
    ensures
        fetches(r, next),
{
    let url = latest_version_url(next.runtime, next.request.major, match next.stage {
        Stage::Probing { candidate } => candidate,
        Stage::Latest { minor } => minor,
    });
    SelectStep::Fetch { url, next }
}

impl VersionSelector {
    /// Starts resolving `request`. A request with major, minor and patch is
    /// resolved at once, without asking the index.
    pub fn find_best_version(runtime: Runtime, request: DotnetVersion) -> (r: SelectStep)
        requires
            request.wf(),
        ensures
            start_gives(runtime, request, r),
    {
        match (request.minor, request.patch) {
            (Some(minor), Some(patch)) => SelectStep::Resolved(SemVer::new(request.major, minor, patch)),
            (Some(minor), None) => fetch(VersionSelector { runtime, request, stage: Stage::Latest { minor } }),
            (None, _) => fetch(VersionSelector { runtime, request, stage: Stage::Probing { candidate: 0 } }),
        }
    }

    /// Takes the reply to the address this selector waits on.
    pub fn on_reply(self, reply: &IndexReply) -> (r: SelectStep)
        requires
            self.wf(),
        ensures
            reply_gives(self, *reply, r),
    {
        match self.stage {
            Stage::Probing { candidate } => match reply {
                IndexReply::Unreachable => SelectStep::Failed(InstallError::Transport),
                IndexReply::Response { status, .. } => {
                    if *status == STATUS_NOT_FOUND {
                        match find_newest_minor(candidate) {
                            Ok(minor) => fetch(VersionSelector { stage: Stage::Latest { minor }, ..self }),
                            Err(e) => SelectStep::Failed(e),
                        }
                    } else if candidate == u64::MAX {
                        SelectStep::Failed(InstallError::Resolution)
                    } else {
                        fetch(VersionSelector { stage: Stage::Probing { candidate: candidate + 1 }, ..self })
                    }
                },
            },
            Stage::Latest { minor } => match reply {
                IndexReply::Response { status, body } if *status == STATUS_OK => {
                    match last_line_of(body.as_str()) {
                        Some(line) => match SemVer::parse(line) {
                            Some(v) => if v.major() == self.request.major && v.minor() == minor {
                                SelectStep::Resolved(v)
                            } else {
                                SelectStep::Failed(InstallError::Resolution)
                            },
                            None => SelectStep::Failed(InstallError::Resolution),
                        },
                        None => SelectStep::Failed(InstallError::Resolution),
                    }
                },
                _ => SelectStep::Failed(InstallError::Resolution),
            },
        }
    }
}

/// A partial request starts from the index, never from a made-up version:
/// the first step asks for a marker and keeps the request and the channel.
pub proof fn partial_request_starts_at_index(runtime: Runtime, request: DotnetVersion, step: SelectStep)
    requires
        request.wf(),
        !request.is_full(),
        start_gives(runtime, request, step),
    ensures
        step is Fetch,
        step->next.wf(),
        step->next.request == request,
        step->next.runtime == runtime,
{
}

/// A partial request is resolved within its own major and, when it gives one,
/// its own minor. Each step keeps the request and the channel, every marker
/// asked for lies under the requested major and minor, and a resolution has
/// the requested major and minor; only the omitted components are chosen.
pub proof fn partial_request_keeps_major_and_minor(sel: VersionSelector, reply: IndexReply, step: SelectStep)
    requires
        sel.wf(),
        reply_gives(sel, reply, step),
    ensures
        sel.url() == latest_url(sel.runtime, sel.request.major, stage_minor(sel.stage)),
        sel.request.minor matches Some(m) ==> stage_minor(sel.stage) == m,
        step is Fetch ==> step->next.request == sel.request && step->next.runtime == sel.runtime
            && step->next.wf(),
        step is Resolved ==> step->Resolved_0@.0 == sel.request.major,
        step is Resolved ==> (sel.request.minor matches Some(m) ==> step->Resolved_0@.1 == m),
        step is Resolved ==> sel.stage is Latest && is_success(reply) && last_line(reply->body@) is Some
            && semver_parse(last_line(reply->body@)->0) == Some(step->Resolved_0@),
{
}

} // verus!
