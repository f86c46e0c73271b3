use rusty_tube::command::PlaylistNaming;
use rusty_tube::form::{FormState, Message, UiAction};
use rusty_tube::outcome::DownloadOutcome;

#[test]
fn initial_form() {
    let s = FormState::new();
    assert_eq!(s.url, "");
    assert!(!s.audio_only);
    assert_eq!(s.playlist_naming, Some(PlaylistNaming::ByOrder));
    assert_eq!(s.status_line, "");
}

#[test]
fn typing_a_url_resets_the_status() {
    let mut s = FormState::new();
    s.apply_outcome(DownloadOutcome { succeeded: false });
    let action = s.update(Message::URLInputTextChanged(String::from("https://example.com/w")));
    assert!(matches!(action, UiAction::Stay));
    assert_eq!(s.url, "https://example.com/w");
    assert_eq!(s.status_line, "Status: Not started");
}

#[test]
fn toggling_audio_only() {
    let mut s = FormState::new();
    let action = s.update(Message::ToggleAudioOnly(true));
    assert!(matches!(action, UiAction::Stay));
    assert!(s.audio_only);
    s.update(Message::ToggleAudioOnly(false));
    assert!(!s.audio_only);
}

#[test]
fn choosing_playlist_naming() {
    let mut s = FormState::new();
    let action = s.update(Message::PlaylistOptionChanged(PlaylistNaming::ByChannel));
    assert!(matches!(action, UiAction::Stay));
    assert_eq!(s.playlist_naming, Some(PlaylistNaming::ByChannel));
}

#[test]
fn submitting_asks_for_a_download_of_the_form_values() {
    let mut s = FormState::new();
    s.update(Message::URLInputTextChanged(String::from("https://example.com/playlist?list=XYZ")));
    s.update(Message::ToggleAudioOnly(true));
    let action = s.update(Message::URLInputReturnPressed);
    match action {
        UiAction::StartDownload(req) => {
            assert_eq!(req.url, "https://example.com/playlist?list=XYZ");
            assert!(req.audio_only);
            assert_eq!(req.playlist_naming, Some(PlaylistNaming::ByOrder));
        }
        _ => panic!("submit must start a download"),
    }
}

#[test]
fn show_results_asks_to_open_the_folder() {
    let mut s = FormState::new();
    let action = s.update(Message::ShowResultsPressed);
    assert!(matches!(action, UiAction::ShowFolder));
}

#[test]
fn status_line_can_be_edited() {
    let mut s = FormState::new();
    let action = s.update(Message::ProcessOutputTextChanged(String::from("hello")));
    assert!(matches!(action, UiAction::Stay));
    assert_eq!(s.status_line, "hello");
}

#[test]
fn successful_outcome_shows_completed() {
    let mut s = FormState::new();
    s.apply_outcome(DownloadOutcome::from_exit_code(0));
    assert_eq!(s.status_line, "Completed");
}

#[test]
fn failed_outcome_shows_failed() {
    let mut s = FormState::new();
    s.apply_outcome(DownloadOutcome::from_exit_code(1));
    assert_eq!(s.status_line, "Failed");
}
