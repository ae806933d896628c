use audio_downloader::application::{ApplicationState, Effect, Message};
use audio_downloader::job::Stage;
use audio_downloader::log::{JobOutcome, LogLine, Phase, StreamTag};

fn strings(items: &[&str]) -> Vec<String> {
    items.iter().map(|s| s.to_string()).collect()
}

fn idle(effect: Effect) -> bool {
    matches!(effect, Effect::Idle)
}

#[test]
fn starts_with_the_playlist_folder_of_the_home_directory() {
    let state = ApplicationState::with_home(Some("/home/ada".to_string()));
    assert_eq!(state.directory_path(), "/home/ada/Music/PLAYLIST_NAME");
    assert_eq!(state.yt_url(), "");
    assert!(state.logs().is_empty());
    assert!(!state.is_busy());
    assert_eq!(state.transcript(), "");
}

#[test]
fn starts_with_a_relative_folder_where_no_home_is_known() {
    let state = ApplicationState::with_home(None);
    assert_eq!(state.directory_path(), "Music/PLAYLIST_NAME");
}

#[test]
fn home_directory_that_ends_in_a_separator_gets_no_second_one() {
    let state = ApplicationState::with_home(Some("/".to_string()));
    assert_eq!(state.directory_path(), "/Music/PLAYLIST_NAME");
}

#[test]
fn new_state_points_into_a_music_folder() {
    let state = ApplicationState::new();
    assert!(state.directory_path().ends_with("Music/PLAYLIST_NAME"));
    assert_eq!(state.yt_url(), "");
    assert!(!state.is_busy());
    assert!(state.logs().is_empty());
}

#[test]
fn edits_replace_the_inputs() {
    let mut state = ApplicationState::with_home(None);
    assert!(idle(state.update(Message::YoutubeUrlChanged("https://example.test/a".to_string()))));
    assert!(idle(state.update(Message::DirectoryPathChanged("/tmp/out".to_string()))));
    assert_eq!(state.yt_url(), "https://example.test/a");
    assert_eq!(state.directory_path(), "/tmp/out");
    assert!(idle(state.update(Message::YoutubeUrlChanged(String::new()))));
    assert_eq!(state.yt_url(), "");
    assert_eq!(state.directory_path(), "/tmp/out");
}

#[test]
fn download_request_submits_a_job_from_the_inputs() {
    let mut state = ApplicationState::with_home(None);
    state.update(Message::YoutubeUrlChanged("https://example.test/watch?v=abc".to_string()));
    state.update(Message::DirectoryPathChanged("/tmp/out".to_string()));
    match state.update(Message::DownloadYt) {
        Effect::Run(job) => {
            assert_eq!(job.source_url(), "https://example.test/watch?v=abc");
            assert_eq!(job.target_directory(), "/tmp/out");
            assert_eq!(job.stage(), Stage::Submitted);
        }
        Effect::Idle => panic!("expected a job"),
    }
    assert!(state.is_busy());
}

#[test]
fn second_request_is_dropped_while_a_job_runs() {
    let mut state = ApplicationState::with_home(None);
    assert!(!idle(state.update(Message::DownloadYt)));
    assert!(idle(state.update(Message::DownloadYt)));
    assert!(idle(state.update(Message::DownloadYt)));
    assert!(state.is_busy());
}

#[test]
fn end_of_a_job_makes_room_for_the_next() {
    let mut state = ApplicationState::with_home(None);
    assert!(!idle(state.update(Message::DownloadYt)));
    assert!(idle(state.update(Message::Completed)));
    assert!(!state.is_busy());
    assert!(!idle(state.update(Message::DownloadYt)));
    assert!(idle(state.update(Message::DownloadFailed("no".to_string()))));
    assert!(!state.is_busy());
    assert!(!idle(state.update(Message::DownloadYt)));
}

#[test]
fn log_lines_are_appended_in_order() {
    let mut state = ApplicationState::with_home(None);
    assert!(idle(state.update(Message::LogUpdated("one".to_string()))));
    assert!(idle(state.update(Message::LogUpdated("two".to_string()))));
    assert!(idle(state.update(Message::LogUpdated(String::new()))));
    assert!(idle(state.update(Message::LogUpdated("four".to_string()))));
    assert_eq!(state.logs(), &strings(&["one", "two", "", "four"]));
    assert_eq!(state.transcript(), "one\ntwo\n\nfour");
}

#[test]
fn transcript_of_one_line_has_no_newline() {
    let mut state = ApplicationState::with_home(None);
    state.update(Message::LogUpdated("only".to_string()));
    assert_eq!(state.transcript(), "only");
}

#[test]
fn failure_is_one_line_in_the_log() {
    let mut state = ApplicationState::with_home(None);
    state.update(Message::LogUpdated("before".to_string()));
    state.update(Message::DownloadYt);
    state.update(Message::DownloadFailed("provisioning downloader failed: x".to_string()));
    assert_eq!(
        state.logs(),
        &strings(&["before", "Download failed: provisioning downloader failed: x"])
    );
}

#[test]
fn copy_and_clear_change_nothing() {
    let mut state = ApplicationState::with_home(Some("/home/ada".to_string()));
    state.update(Message::LogUpdated("kept".to_string()));
    state.update(Message::DownloadYt);
    assert!(idle(state.update(Message::CopyLogsPressed)));
    assert!(idle(state.update(Message::ClearLogsPressed)));
    assert_eq!(state.logs(), &strings(&["kept"]));
    assert!(state.is_busy());
    assert_eq!(state.directory_path(), "/home/ada/Music/PLAYLIST_NAME");
}

#[test]
fn outcome_becomes_the_closing_message() {
    assert_eq!(
        Message::from_outcome(JobOutcome::Success("Download finished".to_string())),
        Message::Completed
    );
    assert_eq!(
        Message::from_outcome(JobOutcome::Failure("why".to_string())),
        Message::DownloadFailed("why".to_string())
    );
}

#[test]
fn log_line_becomes_a_log_message() {
    let line = LogLine {
        text: "[download] 100%".to_string(),
        stream: StreamTag::Stdout,
        phase: Phase::Download,
    };
    assert_eq!(Message::from_log(line), Message::LogUpdated("[download] 100%".to_string()));
}
