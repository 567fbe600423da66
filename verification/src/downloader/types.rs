//! Download task data model shared with the front end.

use vstd::prelude::*;

verus! {

/// Progress of one byte range of a download (closed interval `start..=end`).
#[derive(Clone, Debug, PartialEq, Eq, Structural)]
pub struct DownloadChunk {
    /// Chunk number, from 0.
    pub id: usize,
    /// First byte offset in the target file.
    pub start: u64,
    /// Last byte offset in the target file.
    pub end: u64,
    /// Bytes of this chunk already downloaded.
    pub downloaded: u64,
    /// Whether the whole chunk has been downloaded.
    pub is_finished: bool,
}

/// Life-cycle state of a task.
#[derive(Clone, Copy, Debug, PartialEq, Eq, Structural)]
pub enum TaskStatus {
    Pending,
    Downloading,
    Paused,
    Completed,
    Failed,
    Cancelled,
}

/// What probing a URL found out.
#[derive(Clone, Debug)]
pub struct UrlMeta {
    /// Total size in bytes (0 when unknown).
    pub total_bytes: u64,
    /// Whether the server serves byte ranges.
    pub supports_range: bool,
    /// File name from the server or from the URL.
    pub suggested_filename: String,
}

} // verus!
