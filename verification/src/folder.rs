//! Destination-folder resolution and the folder-reveal command. The folder
//! is the platform's media directory under the user profile: `Videos` under
//! `%USERPROFILE%` on Windows, `Movies` under `$HOME` on macOS, and a fatal
//! unsupported-platform condition anywhere else. The environment lookup
//! itself goes through `shellexpand`; everything around it is pure and
//! verified for every value the environment could hold.

use vstd::prelude::*;
use vstd::string::StringExecFns;

use crate::HostOs;
use crate::command::{path_sep, spec_path_sep};

verus! {

/// Why a destination folder could not be resolved.
#[derive(Clone, Copy, Debug, PartialEq, Eq, Structural)]
pub enum FolderError {
    /// The host OS is neither Windows nor macOS: a fatal condition with no
    /// fallback path.
    UnsupportedPlatform,
    /// The user-profile/home environment variable could not be read: a
    /// fatal configuration error, there is no default.
    EnvVarUnset,
}

/// Downloads are supported only where a destination folder policy exists.
pub open spec fn download_supported(os: HostOs) -> bool {
    os is Windows || os is MacOs
}

/// The `$VAR` reference that names the platform's user-profile variable.
pub open spec fn spec_home_reference(os: HostOs) -> Seq<char> {
    match os {
        HostOs::Windows => "$USERPROFILE"@,
        _ => "$HOME"@,
    }
}

/// The media folder name under the user profile, per OS.
pub open spec fn spec_folder_name(os: HostOs) -> Seq<char> {
    match os {
        HostOs::Windows => "Videos"@,
        _ => "Movies"@,
    }
}

/// The resolved destination folder for a given home/profile value.
pub open spec fn spec_folder(os: HostOs, home: Seq<char>) -> Seq<char> {
    home + spec_path_sep(os) + spec_folder_name(os)
}

/// The `$VAR` reference to expand for an OS, or the unsupported-platform
/// error where no folder policy exists.
pub fn home_reference(os: HostOs) -> (r: Result<&'static str, FolderError>)
    ensures
        download_supported(os) ==> r is Ok && r->Ok_0@ == spec_home_reference(os),
        !download_supported(os) ==> r is Err && r->Err_0 is UnsupportedPlatform,
{
    match os {
        HostOs::Windows => Ok("$USERPROFILE"),
        HostOs::MacOs => Ok("$HOME"),
        HostOs::Linux => Err(FolderError::UnsupportedPlatform),
        HostOs::Other => Err(FolderError::UnsupportedPlatform),
    }
}

/// The pure part of folder resolution: join a given home/profile value with
/// the OS's media folder name using the native separator. Fixing the OS and
/// that value fixes the folder; nothing else enters.
pub fn resolve_folder_with(os: HostOs, home: &str) -> (r: Result<String, FolderError>)
    ensures
        download_supported(os) ==> r is Ok && r->Ok_0@ == spec_folder(os, home@),
        !download_supported(os) ==> r is Err && r->Err_0 is UnsupportedPlatform,
{
    match os {
        HostOs::Windows => Ok(join_home(os, home)),
        HostOs::MacOs => Ok(join_home(os, home)),
        HostOs::Linux => Err(FolderError::UnsupportedPlatform),
        HostOs::Other => Err(FolderError::UnsupportedPlatform),
    }
}

/// Join a home/profile value with the OS's media folder name.
fn join_home(os: HostOs, home: &str) -> (folder: String)
    ensures
        folder@ == spec_folder(os, home@),
{
    let mut folder = String::from_str(home);
    folder.append(path_sep(os));
    match os {
        HostOs::Windows => folder.append("Videos"),
        _ => folder.append("Movies"),
    }
    folder
}

/// Relies on shellexpand::env: replaces each `$VAR` reference in the input
/// with the process environment's value for VAR, erring when a referenced
/// variable is unset or not unicode. The result depends on the environment,
/// so nothing is promised of the value.
#[verifier::external_body]
fn expand_env(reference: &str) -> (r: Option<String>) {
    match shellexpand::env(reference) {
        Ok(value) => Some(value.into_owned()),
        Err(_) => None,
    }
}

/// Resolve the per-OS destination folder at call time: the user-profile
/// variable's value joined with the OS's media folder name. The value comes
/// from the process environment, so of a success only the shape is
/// promised: some home value joined exactly as `spec_folder` says.
pub fn resolve_folder(os: HostOs) -> (r: Result<String, FolderError>)
    ensures
        !download_supported(os) ==> r is Err && r->Err_0 is UnsupportedPlatform,
        r is Ok ==> download_supported(os) && exists|home: Seq<char>|
            r->Ok_0@ == spec_folder(os, home),
        download_supported(os) && r is Err ==> r->Err_0 is EnvVarUnset,
{
    let reference = match home_reference(os) {
        Ok(s) => s,
        Err(e) => {
            return Err(e);
        },
    };
    match expand_env(reference) {
        Some(home) => {
            match resolve_folder_with(os, home.as_str()) {
                Ok(folder) => {
                    proof {
                        assert(folder@ == spec_folder(os, home@));
                    }
                    Ok(folder)
                },
                Err(e) => Err(e),
            }
        },
        None => Err(FolderError::EnvVarUnset),
    }
}

/// The OS-native file-manager reveal command, taking the folder as its sole
/// argument; no such command is known for other platforms.
pub fn reveal_command(os: HostOs) -> (r: Result<&'static str, FolderError>)
    ensures
        os is Windows ==> r is Ok && r->Ok_0@ == "explorer"@,
        os is MacOs ==> r is Ok && r->Ok_0@ == "open"@,
        os is Linux ==> r is Ok && r->Ok_0@ == "xdg-open"@,
        os is Other ==> r is Err && r->Err_0 is UnsupportedPlatform,
{
    match os {
        HostOs::Windows => Ok("explorer"),
        HostOs::MacOs => Ok("open"),
        HostOs::Linux => Ok("xdg-open"),
        HostOs::Other => Err(FolderError::UnsupportedPlatform),
    }
}

} // verus!
