//! Verified core of the OmniBox Windows toolbox: metric quality model, report
//! sanitizer, download planning, storage descriptor decoding and the pure
//! decision logic behind the system tools.

pub mod text;
pub mod strs;
pub mod numparse;
pub mod bytes;
pub mod quality;
pub mod sorting;
pub mod downloader;
pub mod sysinfo;
pub mod sanitizer;
pub mod report;
pub mod settings;
pub mod tools;
pub mod tweaks;
pub mod unrestrict;
pub mod hardware;
pub mod working_set;
pub mod cloaker;
pub mod launch;
pub mod markdown;
pub mod session;
