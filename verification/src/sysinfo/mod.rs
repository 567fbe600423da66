//! Decoding and decision logic of the system information collectors.

pub mod storage;
pub mod battery;
pub mod memory;
pub mod cpu;
pub mod network;
pub mod devices;
pub mod gpu;
pub mod display_audio;
pub mod diagnostics;
pub mod processes;
pub mod windows_env;
pub mod dev_env;
pub mod computer_os;
