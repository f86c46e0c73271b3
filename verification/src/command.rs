//! Command building: turn a download target and the user's request into the
//! exact argument list handed to the external `youtube-dl` executable. The
//! arguments are a discrete array, so nothing in them is ever subject to
//! shell interpretation.

use vstd::prelude::*;
use vstd::string::StringExecFns;

use crate::{HostOs, TargetKind};

verus! {

/// How files downloaded as part of a playlist are named.
#[derive(Clone, Copy, Debug, PartialEq, Eq, Structural)]
pub enum PlaylistNaming {
    ByOrder,
    ByChannel,
}

/// The form values a single download is asked with. Built fresh per submit
/// action and discarded afterwards.
pub struct DownloadRequest {
    pub url: String,
    pub audio_only: bool,
    /// Absent means playlists are always named by channel.
    pub playlist_naming: Option<PlaylistNaming>,
}

/// Where and as what a download lands: derived from the URL and the host OS.
pub struct DownloadTarget {
    pub kind: TargetKind,
    pub os: HostOs,
    /// Absolute path of the destination folder.
    pub folder: String,
}

/// A fully determined invocation of the external downloader.
pub struct CommandSpec {
    pub executable: String,
    pub args: Vec<String>,
}

/// The playlist naming that is in effect: a missing choice defaults to
/// naming by channel.
pub open spec fn effective_naming(naming: Option<PlaylistNaming>) -> PlaylistNaming {
    match naming {
        Some(n) => n,
        None => PlaylistNaming::ByChannel,
    }
}

/// The file-naming pattern appended to the destination folder; the
/// placeholder tokens are substituted by the external tool, never here.
pub open spec fn naming_pattern(kind: TargetKind, naming: PlaylistNaming) -> Seq<char> {
    match kind {
        TargetKind::SingleVideo => "%(title)s.%(ext)s"@,
        TargetKind::Playlist => match naming {
            PlaylistNaming::ByOrder => "%(playlist_index)s-%(title)s.%(ext)s"@,
            PlaylistNaming::ByChannel => "%(channel)s-%(title)s.%(ext)s"@,
        },
    }
}

/// The native path separator of the host OS.
pub open spec fn spec_path_sep(os: HostOs) -> Seq<char> {
    match os {
        HostOs::Windows => "\\"@,
        _ => "/"@,
    }
}

/// The output-path template: folder, separator, naming pattern.
pub open spec fn output_template(target: DownloadTarget, naming: PlaylistNaming) -> Seq<char> {
    target.folder@ + spec_path_sep(target.os) + naming_pattern(target.kind, naming)
}

/// The fixed name of the external downloader.
pub open spec fn spec_executable() -> Seq<char> {
    "youtube-dl"@
}

/// The exact argument list of a built command: the optional audio-only
/// format pair, then continue-on-error, then the output template, then the
/// URL as the final positional argument.
pub open spec fn spec_args(target: DownloadTarget, req: DownloadRequest) -> Seq<Seq<char>> {
    let tail = seq![
        "-ci"@,
        "-o"@,
        output_template(target, effective_naming(req.playlist_naming)),
        req.url@,
    ];
    if req.audio_only {
        seq!["-f"@, "140"@] + tail
    } else {
        tail
    }
}

/// The native path separator of the host OS.
pub fn path_sep(os: HostOs) -> (r: &'static str)
    ensures
        r@ == spec_path_sep(os),
{
    match os {
        HostOs::Windows => "\\",
        _ => "/",
    }
}

/// The file-naming pattern for a target kind and playlist-naming choice.
pub fn naming_pattern_str(kind: TargetKind, naming: PlaylistNaming) -> (r: &'static str)
    ensures
        r@ == naming_pattern(kind, naming),
{
    match kind {
        TargetKind::SingleVideo => "%(title)s.%(ext)s",
        TargetKind::Playlist => match naming {
            PlaylistNaming::ByOrder => "%(playlist_index)s-%(title)s.%(ext)s",
            PlaylistNaming::ByChannel => "%(channel)s-%(title)s.%(ext)s",
        },
    }
}

/// Build the external invocation for a target and request.
pub fn build(target: &DownloadTarget, req: &DownloadRequest) -> (cmd: CommandSpec)
    ensures
        cmd.executable@ == spec_executable(),
        cmd.args.deep_view() == spec_args(*target, *req),
{
    let mut args: Vec<String> = Vec::new();
    if req.audio_only {
        args.push(String::from_str("-f"));
        args.push(String::from_str("140"));
    }
    args.push(String::from_str("-ci"));
    args.push(String::from_str("-o"));
    let naming = match req.playlist_naming {
        Some(n) => n,
        None => PlaylistNaming::ByChannel,
    };
    let mut template = target.folder.clone();
    template.append(path_sep(target.os));
    template.append(naming_pattern_str(target.kind, naming));
    args.push(template);
    args.push(req.url.clone());
    let cmd = CommandSpec { executable: String::from_str("youtube-dl"), args };
    proof {
        assert(cmd.args.deep_view() =~= spec_args(*target, *req));
    }
    cmd
}

/// The builder is deterministic and pure: two command specs built from the
/// same target and request agree byte for byte, in executable and in every
/// argument.
pub proof fn lemma_build_deterministic(
    target: DownloadTarget,
    req: DownloadRequest,
    a: CommandSpec,
    b: CommandSpec,
)
    requires
        a.executable@ == spec_executable(),
        a.args.deep_view() == spec_args(target, req),
        b.executable@ == spec_executable(),
        b.args.deep_view() == spec_args(target, req),
    ensures
        a.executable@ == b.executable@,
        a.args.deep_view() == b.args.deep_view(),
{
}

/// With the audio-only flag set, the arguments begin with the pair `-f 140`
/// immediately followed by `-ci`, whatever the target kind, folder, naming
/// choice or URL; without it they begin with `-ci`.
pub proof fn lemma_audio_flag_position(target: DownloadTarget, req: DownloadRequest)
    ensures
        req.audio_only ==> ({
            let args = spec_args(target, req);
            &&& args.len() == 6
            &&& args[0] == "-f"@
            &&& args[1] == "140"@
            &&& args[2] == "-ci"@
        }),
        !req.audio_only ==> ({
            let args = spec_args(target, req);
            &&& args.len() == 4
            &&& args[0] == "-ci"@
        }),
{
}

/// Template selection is exhaustive over the three (kind, naming)
/// combinations, and never yields an empty pattern or template.
pub proof fn lemma_template_total(target: DownloadTarget, naming: PlaylistNaming)
    ensures
        naming_pattern(target.kind, naming).len() > 0,
        output_template(target, naming).len() > 0,
        target.kind is SingleVideo ==> naming_pattern(target.kind, naming) == "%(title)s.%(ext)s"@,
        target.kind is Playlist && naming is ByOrder ==> naming_pattern(target.kind, naming)
            == "%(playlist_index)s-%(title)s.%(ext)s"@,
        target.kind is Playlist && naming is ByChannel ==> naming_pattern(target.kind, naming)
            == "%(channel)s-%(title)s.%(ext)s"@,
{
    reveal_strlit("%(title)s.%(ext)s");
    reveal_strlit("%(playlist_index)s-%(title)s.%(ext)s");
    reveal_strlit("%(channel)s-%(title)s.%(ext)s");
}

} // verus!
