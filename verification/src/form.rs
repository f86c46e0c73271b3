//! The form state and its reducer. The single window's mutable state is an
//! explicit value, and each user action is a pure transition on it that may
//! ask the surrounding program to start a download or to reveal the
//! destination folder; the outcome of a finished download is applied by a
//! second transition. The state machine per download is a single linear
//! path: idle, downloading, then a completed or failed status line.

use vstd::prelude::*;
use vstd::string::StringExecFns;

use crate::command::{DownloadRequest, PlaylistNaming};
use crate::outcome::{status_text, DownloadOutcome};

verus! {

/// The form values the window binds to its widgets.
pub struct FormState {
    pub url: String,
    pub audio_only: bool,
    pub playlist_naming: Option<PlaylistNaming>,
    /// The last status string retained for display.
    pub status_line: String,
}

/// A discrete user action on the form.
pub enum Message {
    URLInputTextChanged(String),
    URLInputReturnPressed,
    ToggleAudioOnly(bool),
    PlaylistOptionChanged(PlaylistNaming),
    ShowResultsPressed,
    ProcessOutputTextChanged(String),
}

/// What the surrounding program is asked to do after a transition.
pub enum UiAction {
    /// Nothing beyond the state change itself.
    Stay,
    /// Run the external downloader for this request, then hand the outcome
    /// back through `apply_outcome`.
    StartDownload(DownloadRequest),
    /// Open the destination folder in the OS file browser.
    ShowFolder,
}

impl FormState {
    /// The initial form: empty fields, playlist naming preselected by order.
    pub fn new() -> (s: FormState)
        ensures
            s.url@ == Seq::<char>::empty(),
            s.audio_only == false,
            s.playlist_naming == Some(PlaylistNaming::ByOrder),
            s.status_line@ == Seq::<char>::empty(),
    {
        FormState {
            url: String::new(),
            audio_only: false,
            playlist_naming: Some(PlaylistNaming::ByOrder),
            status_line: String::new(),
        }
    }

    /// One step of the reducer: apply a user action to the form and say
    /// what the surrounding program should do next.
    pub fn update(&mut self, msg: Message) -> (action: UiAction)
        ensures
            match msg {
                Message::URLInputTextChanged(v) => {
                    &&& final(self).url == v
                    &&& final(self).status_line@ == "Status: Not started"@
                    &&& final(self).audio_only == old(self).audio_only
                    &&& final(self).playlist_naming == old(self).playlist_naming
                    &&& action is Stay
                },
                Message::URLInputReturnPressed => {
                    &&& *final(self) == *old(self)
                    &&& action matches UiAction::StartDownload(req)
                        && req.url == old(self).url
                        && req.audio_only == old(self).audio_only
                        && req.playlist_naming == old(self).playlist_naming
                },
                Message::ToggleAudioOnly(b) => {
                    &&& *final(self) == FormState { audio_only: b, ..*old(self) }
                    &&& action is Stay
                },
                Message::PlaylistOptionChanged(n) => {
                    &&& *final(self) == FormState { playlist_naming: Some(n), ..*old(self) }
                    &&& action is Stay
                },
                Message::ShowResultsPressed => {
                    &&& *final(self) == *old(self)
                    &&& action is ShowFolder
                },
                Message::ProcessOutputTextChanged(v) => {
                    &&& *final(self) == FormState { status_line: v, ..*old(self) }
                    &&& action is Stay
                },
            },
    {
        match msg {
            Message::URLInputTextChanged(v) => {
                self.status_line = String::from_str("Status: Not started");
                self.url = v;
                UiAction::Stay
            },
            Message::URLInputReturnPressed => {
                UiAction::StartDownload(
                    DownloadRequest {
                        url: self.url.clone(),
                        audio_only: self.audio_only,
                        playlist_naming: self.playlist_naming,
                    },
                )
            },
            Message::ToggleAudioOnly(b) => {
                self.audio_only = b;
                UiAction::Stay
            },
            Message::PlaylistOptionChanged(n) => {
                self.playlist_naming = Some(n);
                UiAction::Stay
            },
            Message::ShowResultsPressed => UiAction::ShowFolder,
            Message::ProcessOutputTextChanged(v) => {
                self.status_line = v;
                UiAction::Stay
            },
        }
    }

    /// Apply the outcome of a finished download: only the status line
    /// changes, to the user-visible text for the outcome.
    pub fn apply_outcome(&mut self, outcome: DownloadOutcome)
        ensures
            final(self).url == old(self).url,
            final(self).audio_only == old(self).audio_only,
            final(self).playlist_naming == old(self).playlist_naming,
            outcome.succeeded ==> final(self).status_line@ == "Completed"@,
            !outcome.succeeded ==> final(self).status_line@ == "Failed"@,
    {
        self.status_line = String::from_str(status_text(&outcome));
    }
}

} // verus!
