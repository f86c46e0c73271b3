//! The download orchestrator of a small desktop media downloader: it
//! classifies a pasted URL as a single video or a playlist, resolves the
//! per-OS destination folder, builds the exact invocation of the external
//! `youtube-dl` tool, and maps the process's exit code to a user-visible
//! status. The surrounding program owns the window and the process spawns;
//! every decision in between is made here.

pub mod classify;
pub mod command;
pub mod folder;
pub mod form;
pub mod outcome;

use vstd::prelude::*;

use crate::classify::{classify, spec_classify};
use crate::command::{build, spec_args, spec_executable, CommandSpec, DownloadRequest, DownloadTarget};
use crate::folder::{download_supported, resolve_folder, resolve_folder_with, spec_folder, FolderError};

verus! {

/// Kind of download target, decided by looking at the URL alone.
#[derive(Clone, Copy, Debug, PartialEq, Eq, Structural)]
pub enum TargetKind {
    SingleVideo,
    Playlist,
}

/// The host operating system, as far as this library tells them apart.
/// Downloads are supported on Windows and macOS only; revealing a folder
/// also works on Linux.
#[derive(Clone, Copy, Debug, PartialEq, Eq, Structural)]
pub enum HostOs {
    Windows,
    MacOs,
    Linux,
    Other,
}

/// Everything a download needs: where it lands and what to run.
pub struct DownloadPlan {
    pub target: DownloadTarget,
    pub command: CommandSpec,
}

/// A plan is right for a request, OS and home/profile value when the target
/// carries that OS, the kind the URL classifies to and the folder resolved
/// from that value, and the command is exactly the one built for them.
pub open spec fn plan_matches(
    plan: DownloadPlan,
    req: DownloadRequest,
    os: HostOs,
    home: Seq<char>,
) -> bool {
    &&& plan.target.os == os
    &&& plan.target.kind == spec_classify(req.url@)
    &&& plan.target.folder@ == spec_folder(os, home)
    &&& plan.command.executable@ == spec_executable()
    &&& plan.command.args.deep_view() == spec_args(plan.target, req)
}

/// Decide a download from a given home/profile value: classify the URL,
/// derive the target and build the command. A pure function of its three
/// arguments; it fails exactly on the platforms without a folder policy.
pub fn plan_download_with(req: &DownloadRequest, os: HostOs, home: &str) -> (r: Result<
    DownloadPlan,
    FolderError,
>)
    ensures
        download_supported(os) ==> r is Ok && plan_matches(r->Ok_0, *req, os, home@),
        !download_supported(os) ==> r is Err && r->Err_0 is UnsupportedPlatform,
{
    let folder = match resolve_folder_with(os, home) {
        Ok(f) => f,
        Err(e) => {
            return Err(e);
        },
    };
    let kind = classify(req.url.as_str());
    let target = DownloadTarget { kind, os, folder };
    let command = build(&target, req);
    Ok(DownloadPlan { target, command })
}

/// Decide a download, reading the user-profile variable from the process
/// environment: the one step whose value the arguments do not fix. Of a
/// success, the plan is right for some home value; the failures are exactly
/// an unsupported platform or an unreadable variable.
pub fn plan_download(req: &DownloadRequest, os: HostOs) -> (r: Result<DownloadPlan, FolderError>)
    ensures
        r is Ok ==> download_supported(os) && exists|home: Seq<char>|
            plan_matches(r->Ok_0, *req, os, home),
        !download_supported(os) ==> r is Err && r->Err_0 is UnsupportedPlatform,
        download_supported(os) && r is Err ==> r->Err_0 is EnvVarUnset,
{
    let folder = match resolve_folder(os) {
        Ok(f) => f,
        Err(e) => {
            return Err(e);
        },
    };
    let ghost home: Seq<char> = choose|home: Seq<char>| folder@ == spec_folder(os, home);
    let kind = classify(req.url.as_str());
    let target = DownloadTarget { kind, os, folder };
    let command = build(&target, req);
    let plan = DownloadPlan { target, command };
    let result: Result<DownloadPlan, FolderError> = Ok(plan);
    proof {
        assert(plan_matches(result->Ok_0, *req, os, home));
        assert(exists|h: Seq<char>| plan_matches(result->Ok_0, *req, os, h));
    }
    result
}

/// Folder resolution is pure in the OS and the environment value: plans for
/// two requests on the same OS and home value share their destination
/// folder, whatever their URLs, audio-only flags or naming choices.
pub proof fn lemma_folder_independent_of_request(
    p1: DownloadPlan,
    req1: DownloadRequest,
    p2: DownloadPlan,
    req2: DownloadRequest,
    os: HostOs,
    home: Seq<char>,
)
    requires
        plan_matches(p1, req1, os, home),
        plan_matches(p2, req2, os, home),
    ensures
        p1.target.folder@ == p2.target.folder@,
{
}

} // verus!
