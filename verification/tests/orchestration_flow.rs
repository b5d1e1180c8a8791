//! The orchestrator walked transition by transition, and the output locator.

use media_bot::downloader::{basename, locate_latest, DirEntryInfo, Downloader};
use media_bot::models::{DownloadError, DownloadRequest, YtDlpFormat, YtDlpVideoInfo};
use media_bot::orchestration::{OrchestrationAction, OrchestrationEvent, OrchestrationState};

fn downloader(max: u64) -> Downloader {
    Downloader::new("./downloads".to_string(), max)
}

fn request(url: &str) -> DownloadRequest {
    DownloadRequest { url: url.to_string(), chat_id: 7, message_id: 42 }
}

fn sample_info() -> YtDlpVideoInfo {
    YtDlpVideoInfo {
        title: "my clip: one".to_string(),
        duration: Some(33),
        thumbnail: Some("https://i.example/t.jpg".to_string()),
        formats: vec![YtDlpFormat {
            format_id: "22".to_string(),
            ext: "mp4".to_string(),
            filesize: Some(1_000_000),
            url: None,
        }],
    }
}

fn entry(path: &str, modified_nanos: u64) -> DirEntryInfo {
    DirEntryInfo { path: path.to_string(), modified_nanos }
}

#[test]
fn happy_path_reaches_completed_within_limit() {
    let d = downloader(2_000_000_000);
    let (state, action) = d.start(&request("https://youtube.com/watch?v=abc"));
    let url = match &action {
        OrchestrationAction::FetchMetadata { url } => url.clone(),
        other => panic!("expected metadata fetch, got {:?}", other),
    };
    assert_eq!(url, "https://youtube.com/watch?v=abc");

    let (state, action) = d.step(state, OrchestrationEvent::MetadataReady { info: sample_info() });
    match &action {
        OrchestrationAction::RunDownload { url, format_id, output_template } => {
            assert_eq!(url, "https://youtube.com/watch?v=abc");
            assert_eq!(format_id, "22");
            assert_eq!(output_template, "./downloads/my_clip__one.%(ext)s");
        }
        other => panic!("expected download invocation, got {:?}", other),
    }

    let (state, action) = d.step(state, OrchestrationEvent::DownloadFinished);
    match &action {
        OrchestrationAction::ScanOutputDir { dir } => assert_eq!(dir, "./downloads"),
        other => panic!("expected directory scan, got {:?}", other),
    }

    let entries = vec![
        entry("./downloads/old.mp4", 100),
        entry("./downloads/my_clip__one.mp4", 900),
    ];
    let (state, action) = d.step(state, OrchestrationEvent::OutputScanned { entries });
    match &action {
        OrchestrationAction::MeasureFile { path } => {
            assert_eq!(path, "./downloads/my_clip__one.mp4")
        }
        other => panic!("expected file measurement, got {:?}", other),
    }

    let (state, action) = d.step(state, OrchestrationEvent::FileMeasured { size: 950_000 });
    assert!(matches!(action, OrchestrationAction::Report));
    match state {
        OrchestrationState::Completed { result } => {
            assert_eq!(result.file_path, "./downloads/my_clip__one.mp4");
            assert_eq!(result.file_name, "my_clip__one.mp4");
            assert_eq!(result.file_size, 950_000);
            assert!(result.file_size <= 2_000_000_000);
            assert_eq!(result.duration, Some(33));
            assert_eq!(result.thumbnail, Some("https://i.example/t.jpg".to_string()));
        }
        other => panic!("expected completion, got {:?}", other),
    }
}

#[test]
fn oversized_file_is_deleted_and_reported_too_large() {
    let d = downloader(2_000_000_000);
    let state = OrchestrationState::Located {
        file_path: "./downloads/big.mp4".to_string(),
        duration: None,
        thumbnail: None,
    };
    let (state, action) = d.step(state, OrchestrationEvent::FileMeasured { size: 3_000_000_000 });
    match &action {
        OrchestrationAction::DeleteFile { path } => assert_eq!(path, "./downloads/big.mp4"),
        other => panic!("expected deletion of the partial artifact, got {:?}", other),
    }
    match state {
        OrchestrationState::Failed { error: DownloadError::FileTooLarge { size, max } } => {
            assert_eq!(size, 3_000_000_000);
            assert_eq!(max, 2_000_000_000);
        }
        other => panic!("expected a too-large failure, got {:?}", other),
    }
}

#[test]
fn tool_failure_carries_diagnostics() {
    let d = downloader(1_000);
    let (state, _) = d.start(&request("https://x.com/u/status/1"));
    let (state, action) =
        d.step(state, OrchestrationEvent::ToolFailed { detail: "boom".to_string() });
    assert!(matches!(action, OrchestrationAction::Report));
    match state {
        OrchestrationState::Failed { error: DownloadError::ToolInvocation(detail) } => {
            assert_eq!(detail, "boom")
        }
        other => panic!("expected a tool failure, got {:?}", other),
    }
}

#[test]
fn unparsable_metadata_fails_the_request() {
    let d = downloader(1_000);
    let (state, _) = d.start(&request("https://youtu.be/abc"));
    let (state, action) = d.step(state, OrchestrationEvent::MetadataUnparsable);
    assert!(matches!(action, OrchestrationAction::Report));
    assert!(matches!(
        state,
        OrchestrationState::Failed { error: DownloadError::MetadataParse }
    ));
}

#[test]
fn no_fitting_format_fails_before_any_download() {
    let d = downloader(2_000_000_000);
    let (state, _) = d.start(&request("https://youtu.be/abc"));
    let info = YtDlpVideoInfo {
        title: "t".to_string(),
        duration: None,
        thumbnail: None,
        formats: vec![YtDlpFormat {
            format_id: "a".to_string(),
            ext: "mp4".to_string(),
            filesize: None,
            url: None,
        }],
    };
    let (state, action) = d.step(state, OrchestrationEvent::MetadataReady { info });
    assert!(matches!(action, OrchestrationAction::Report));
    assert!(matches!(
        state,
        OrchestrationState::Failed { error: DownloadError::NoSuitableFormat }
    ));
}

#[test]
fn timeout_fails_from_any_waiting_state() {
    let d = downloader(1_000);
    let (state, _) = d.start(&request("https://youtu.be/abc"));
    let (state, action) = d.step(state, OrchestrationEvent::TimedOut);
    assert!(matches!(action, OrchestrationAction::Report));
    assert!(matches!(state, OrchestrationState::Failed { error: DownloadError::Timeout }));
}

#[test]
fn empty_scan_reports_output_not_found() {
    let d = downloader(1_000);
    let state = OrchestrationState::Downloaded { duration: None, thumbnail: None };
    let (state, action) = d.step(state, OrchestrationEvent::OutputScanned { entries: vec![] });
    assert!(matches!(action, OrchestrationAction::Report));
    assert!(matches!(
        state,
        OrchestrationState::Failed { error: DownloadError::OutputNotFound }
    ));
}

#[test]
fn locator_picks_most_recent_entry() {
    let entries = vec![entry("a", 5), entry("b", 50), entry("c", 20)];
    assert_eq!(locate_latest(&entries).unwrap(), "b");
}

#[test]
fn locator_tie_keeps_first() {
    let entries = vec![entry("a", 50), entry("b", 50)];
    assert_eq!(locate_latest(&entries).unwrap(), "a");
}

#[test]
fn locator_empty_directory_is_an_error() {
    let entries: Vec<DirEntryInfo> = vec![];
    assert!(matches!(locate_latest(&entries), Err(DownloadError::OutputNotFound)));
}

#[test]
fn locator_ignores_epoch_timestamps() {
    let entries = vec![entry("a", 0), entry("b", 0)];
    assert!(matches!(locate_latest(&entries), Err(DownloadError::OutputNotFound)));
}

#[test]
fn basename_strips_directories() {
    assert_eq!(basename("./downloads/a/b/clip.mp4"), "clip.mp4");
    assert_eq!(basename("clip.mp4"), "clip.mp4");
    assert_eq!(basename("dir/"), "");
}
