//! Value types passed between the request handler, the format selector and
//! the download orchestrator, and the error taxonomy shared by all of them.

use vstd::prelude::*;

verus! {

/// One download request, created per incoming chat message and consumed once
/// by the orchestrator.
#[derive(Debug, Clone)]
pub struct DownloadRequest {
    pub url: String,
    pub chat_id: i64,
    pub message_id: i32,
}

/// One downloadable encoding/container variant of a video, as enumerated by
/// the external tool's metadata. A missing size means the entry cannot be
/// size-gated and is never selected.
#[derive(Debug, Clone)]
pub struct YtDlpFormat {
    pub format_id: String,
    pub ext: String,
    pub filesize: Option<u64>,
    pub url: Option<String>,
}

/// Metadata for one video, decoded from the external tool's structured
/// output. The duration is carried as whole seconds.
#[derive(Debug, Clone)]
pub struct YtDlpVideoInfo {
    pub title: String,
    pub duration: Option<u64>,
    pub thumbnail: Option<String>,
    pub formats: Vec<YtDlpFormat>,
}

/// The outcome of a completed download: a file on disk whose measured size
/// passed the configured cap at construction time.
#[derive(Debug, Clone)]
pub struct DownloadResult {
    pub file_path: String,
    pub file_name: String,
    pub file_size: u64,
    pub duration: Option<u64>,
    pub thumbnail: Option<String>,
}

/// Everything that can go wrong in one request, as a tagged variant so that
/// callers branch on the cause instead of matching error text.
#[derive(Debug, Clone)]
pub enum DownloadError {
    /// The external tool exited non-zero; carries its captured diagnostics.
    ToolInvocation(String),
    /// The tool's structured metadata output could not be decoded.
    MetadataParse,
    /// No advertised format fits the size budget.
    NoSuitableFormat,
    /// The post-download scan of the output directory found nothing.
    OutputNotFound,
    /// The authoritative post-download size check failed.
    FileTooLarge { size: u64, max: u64 },
    /// The per-request deadline expired.
    Timeout,
}

} // verus!
