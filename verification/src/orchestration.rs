//! The download orchestrator as an explicit state machine. The driver loop
//! performs the outside work (spawning the external tool, scanning the
//! output directory, measuring and deleting files) and feeds each outcome
//! back as an event; every decision between two pieces of outside work is
//! made here.

use vstd::prelude::*;
use crate::downloader::{
    basename, latest_at, locate_latest, selects, spec_basename, spec_output_template, DirEntryInfo,
    Downloader, format_fits,
};
use crate::models::{DownloadError, DownloadRequest, DownloadResult, YtDlpVideoInfo};
use crate::utils::spec_is_valid_url;

verus! {

/// Where one request stands. `Completed` and `Failed` are terminal.
#[derive(Debug)]
pub enum OrchestrationState {
    /// The request was accepted; the metadata fetch is in flight.
    Received { url: String },
    /// Metadata arrived and a format was chosen; the download invocation is
    /// in flight.
    FormatChosen { url: String, duration: Option<u64>, thumbnail: Option<String>, format_id: String },
    /// The tool finished; the output-directory scan is in flight.
    Downloaded { duration: Option<u64>, thumbnail: Option<String> },
    /// The produced file was located; its size measurement is in flight.
    Located { file_path: String, duration: Option<u64>, thumbnail: Option<String> },
    /// The size check passed and the result was assembled.
    Completed { result: DownloadResult },
    /// The request failed; the error says why.
    Failed { error: DownloadError },
}

/// The outcome of one piece of outside work, fed back by the driver loop.
#[derive(Debug)]
pub enum OrchestrationEvent {
    /// The metadata invocation succeeded and its output decoded.
    MetadataReady { info: YtDlpVideoInfo },
    /// The metadata invocation succeeded but its output did not decode.
    MetadataUnparsable,
    /// The external tool exited non-zero; carries its captured diagnostics.
    ToolFailed { detail: String },
    /// The download invocation exited successfully.
    DownloadFinished,
    /// The output directory was scanned.
    OutputScanned { entries: Vec<DirEntryInfo> },
    /// The located file was measured on disk.
    FileMeasured { size: u64 },
    /// The per-request deadline expired.
    TimedOut,
}

/// What the driver loop must do next.
#[derive(Debug)]
pub enum OrchestrationAction {
    /// Invoke the external tool in metadata mode for this URL.
    FetchMetadata { url: String },
    /// Invoke the external tool in download mode.
    RunDownload { url: String, format_id: String, output_template: String },
    /// Scan the output directory and report its entries.
    ScanOutputDir { dir: String },
    /// Measure the located file's on-disk size.
    MeasureFile { path: String },
    /// Delete this partial artifact, then report the failure.
    DeleteFile { path: String },
    /// Terminal: report the completed result or the failure to the user.
    Report,
}

/// Which events may arrive in which state. A timeout may interrupt any
/// non-terminal state; every other event answers the action that the state
/// is waiting on.
pub open spec fn accepts(state: OrchestrationState, event: OrchestrationEvent) -> bool {
    ||| event is TimedOut && !(state is Completed) && !(state is Failed)
    ||| state is Received && (event is MetadataReady || event is MetadataUnparsable
        || event is ToolFailed)
    ||| state is FormatChosen && (event is DownloadFinished || event is ToolFailed)
    ||| state is Downloaded && event is OutputScanned
    ||| state is Located && event is FileMeasured
}

impl Downloader {
    /// Opens an orchestration for a validated request. Requests whose URL is
    /// not on the platform allowlist are rejected before this point, so no
    /// tool invocation ever happens for them.
    pub fn start(&self, request: &DownloadRequest) -> (r: (
        OrchestrationState,
        OrchestrationAction,
    ))
        requires
            spec_is_valid_url(request.url@),
        ensures
            r.0 matches OrchestrationState::Received { url } && url@ == request.url@,
            r.1 matches OrchestrationAction::FetchMetadata { url } && url@ == request.url@,
    {
        (
            OrchestrationState::Received { url: request.url.clone() },
            OrchestrationAction::FetchMetadata { url: request.url.clone() },
        )
    }

    /// One transition of the orchestration: consumes the state and the event
    /// that answers it, and returns the next state with the next piece of
    /// outside work.
    pub fn step(&self, state: OrchestrationState, event: OrchestrationEvent) -> (r: (
        OrchestrationState,
        OrchestrationAction,
    ))
        requires
            accepts(state, event),
        ensures
            event is TimedOut ==> {
                &&& r.0 matches OrchestrationState::Failed { error }
                &&& error is Timeout
                &&& r.1 is Report
            },
            state matches OrchestrationState::Received { url } ==> {
                &&& event matches OrchestrationEvent::MetadataReady { info } ==> {
                    if exists|i: int|
                        0 <= i < info.formats@.len() && format_fits(
                            #[trigger] info.formats@[i],
                            self.max_file_size,
                        ) {
                        &&& r.0 matches OrchestrationState::FormatChosen {
                            url: u2,
                            duration,
                            thumbnail,
                            format_id,
                        }
                        &&& u2@ == url@
                        &&& duration == info.duration
                        &&& thumbnail == info.thumbnail
                        &&& exists|i: int|
                            #[trigger] selects(info.formats@, self.max_file_size, i) && format_id@
                                == info.formats@[i].format_id@
                        &&& r.1 matches OrchestrationAction::RunDownload {
                            url: u3,
                            format_id: f3,
                            output_template,
                        }
                        &&& u3@ == url@
                        &&& f3@ == format_id@
                        &&& output_template@ == spec_output_template(
                            self.download_path@,
                            info.title@,
                        )
                    } else {
                        &&& r.0 matches OrchestrationState::Failed { error }
                        &&& error is NoSuitableFormat
                        &&& r.1 is Report
                    }
                }
                &&& event matches OrchestrationEvent::ToolFailed { detail } ==> {
                    &&& r.0 matches OrchestrationState::Failed { error }
                    &&& error matches DownloadError::ToolInvocation(d) && d@ == detail@
                    &&& r.1 is Report
                }
                &&& event is MetadataUnparsable ==> {
                    &&& r.0 matches OrchestrationState::Failed { error }
                    &&& error is MetadataParse
                    &&& r.1 is Report
                }
            },
            state matches OrchestrationState::FormatChosen { url, duration, thumbnail, format_id }
                ==> {
                &&& event is DownloadFinished ==> {
                    &&& r.0 matches OrchestrationState::Downloaded { duration: d2, thumbnail: t2 }
                    &&& d2 == duration
                    &&& t2 == thumbnail
                    &&& r.1 matches OrchestrationAction::ScanOutputDir { dir } && dir@
                        == self.download_path@
                }
                &&& event matches OrchestrationEvent::ToolFailed { detail } ==> {
                    &&& r.0 matches OrchestrationState::Failed { error }
                    &&& error matches DownloadError::ToolInvocation(d) && d@ == detail@
                    &&& r.1 is Report
                }
            },
            state matches OrchestrationState::Downloaded { duration, thumbnail } ==> {
                &&& event matches OrchestrationEvent::OutputScanned { entries } ==> {
                    if exists|i: int|
                        0 <= i < entries@.len() && #[trigger] entries@[i].modified_nanos > 0 {
                        &&& r.0 matches OrchestrationState::Located {
                            file_path,
                            duration: d2,
                            thumbnail: t2,
                        }
                        &&& d2 == duration
                        &&& t2 == thumbnail
                        &&& exists|i: int|
                            latest_at(entries@, i) && file_path@ == #[trigger] entries@[i].path@
                        &&& r.1 matches OrchestrationAction::MeasureFile { path } && path@
                            == file_path@
                    } else {
                        &&& r.0 matches OrchestrationState::Failed { error }
                        &&& error is OutputNotFound
                        &&& r.1 is Report
                    }
                }
            },
            state matches OrchestrationState::Located { file_path, duration, thumbnail } ==> {
                &&& event matches OrchestrationEvent::FileMeasured { size } ==> {
                    if size <= self.max_file_size {
                        &&& r.0 matches OrchestrationState::Completed { result }
                        &&& result.file_path@ == file_path@
                        &&& result.file_name@ == spec_basename(file_path@)
                        &&& result.file_size == size
                        &&& result.duration == duration
                        &&& result.thumbnail == thumbnail
                        &&& r.1 is Report
                    } else {
                        &&& r.0 matches OrchestrationState::Failed { error }
                        &&& error matches DownloadError::FileTooLarge { size: s, max: m }
                        &&& s == size
                        &&& m == self.max_file_size
                        &&& r.1 matches OrchestrationAction::DeleteFile { path } && path@
                            == file_path@
                    }
                }
            },
            r.0 matches OrchestrationState::Completed { result } ==> result.file_size
                <= self.max_file_size,
    {
        match (state, event) {
            (_, OrchestrationEvent::TimedOut) => (
                OrchestrationState::Failed { error: DownloadError::Timeout },
                OrchestrationAction::Report,
            ),
            (
                OrchestrationState::Received { url },
                OrchestrationEvent::MetadataReady { info },
            ) => {
                match self.choose_best_format(&info) {
                    Ok(format_id) => {
                        let output_template = self.output_template(info.title.as_str());
                        let action = OrchestrationAction::RunDownload {
                            url: url.clone(),
                            format_id: format_id.clone(),
                            output_template,
                        };
                        (
                            OrchestrationState::FormatChosen {
                                url,
                                duration: info.duration,
                                thumbnail: info.thumbnail,
                                format_id,
                            },
                            action,
                        )
                    },
                    Err(e) => (
                        OrchestrationState::Failed { error: e },
                        OrchestrationAction::Report,
                    ),
                }
            },
            (OrchestrationState::Received { .. }, OrchestrationEvent::ToolFailed { detail }) => (
                OrchestrationState::Failed { error: DownloadError::ToolInvocation(detail) },
                OrchestrationAction::Report,
            ),
            (OrchestrationState::Received { .. }, OrchestrationEvent::MetadataUnparsable) => (
                OrchestrationState::Failed { error: DownloadError::MetadataParse },
                OrchestrationAction::Report,
            ),
            (
                OrchestrationState::FormatChosen { duration, thumbnail, .. },
                OrchestrationEvent::DownloadFinished,
            ) => (
                OrchestrationState::Downloaded { duration, thumbnail },
                OrchestrationAction::ScanOutputDir { dir: self.download_path.clone() },
            ),
            (
                OrchestrationState::FormatChosen { .. },
                OrchestrationEvent::ToolFailed { detail },
            ) => (
                OrchestrationState::Failed { error: DownloadError::ToolInvocation(detail) },
                OrchestrationAction::Report,
            ),
            (
                OrchestrationState::Downloaded { duration, thumbnail },
                OrchestrationEvent::OutputScanned { entries },
            ) => {
                match locate_latest(&entries) {
                    Ok(file_path) => {
                        let action = OrchestrationAction::MeasureFile {
                            path: file_path.clone(),
                        };
                        (
                            OrchestrationState::Located { file_path, duration, thumbnail },
                            action,
                        )
                    },
                    Err(e) => (
                        OrchestrationState::Failed { error: e },
                        OrchestrationAction::Report,
                    ),
                }
            },
            (
                OrchestrationState::Located { file_path, duration, thumbnail },
                OrchestrationEvent::FileMeasured { size },
            ) => {
                if size <= self.max_file_size {
                    let file_name = basename(file_path.as_str());
                    (
                        OrchestrationState::Completed {
                            result: DownloadResult {
                                file_path,
                                file_name,
                                file_size: size,
                                duration,
                                thumbnail,
                            },
                        },
                        OrchestrationAction::Report,
                    )
                } else {
                    let action = OrchestrationAction::DeleteFile { path: file_path };
                    (
                        OrchestrationState::Failed {
                            error: DownloadError::FileTooLarge {
                                size,
                                max: self.max_file_size,
                            },
                        },
                        action,
                    )
                }
            },
            _ => {
                proof {
                    assert(false);
                }
                unreached()
            },
        }
    }
}

} // verus!
