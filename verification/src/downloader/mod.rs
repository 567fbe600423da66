//! Multi-threaded downloader: URL handling, chunk planning and the task model.

pub mod types;
pub mod engine;
pub mod client;
pub mod filename;
