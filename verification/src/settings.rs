//! Launcher items, hidden-file records and application settings, with the
//! defaults used on first run and the rule that decides when a stored file
//! is read and when the defaults stand in for it.

use vstd::prelude::*;
use crate::text::str_chars;
use crate::strs::{trim, trim_bounds, CharClass};

verus! {

/// File that holds the launcher items.
pub const LAUNCHER_CONFIG_FILE: &'static str = "launcher_items.json";
/// File that holds the hidden-file records.
pub const CLOAKED_ITEMS_FILE: &'static str = "cloaked_items.json";
/// File that holds the application settings.
pub const APP_SETTINGS_FILE: &'static str = "app_settings.json";

/// A program the launcher can start.
#[derive(Clone, Debug)]
pub struct LaunchItem {
    /// Unique id.
    pub id: String,
    /// Display name.
    pub name: String,
    /// Program or script to start.
    pub path: String,
    /// Extra command-line arguments.
    pub args: String,
    /// Working directory, if one is set.
    pub work_dir: Option<String>,
    /// Start without a window.
    pub silent: bool,
    /// Whether the item is enabled.
    pub enabled: bool,
}

/// Application-wide settings.
#[derive(Clone, Debug)]
pub struct AppSettings {
    /// Prefer running with administrator rights.
    pub run_as_admin_default: bool,
    /// Interface language (`zh-CN` or `en-US`).
    pub language: String,
    /// Start with Windows.
    pub auto_start: bool,
    /// Start minimised when started with Windows.
    pub start_minimized: bool,
    /// Closing the window hides it in the tray instead of quitting.
    pub close_to_tray: bool,
    /// Trim memory automatically.
    pub auto_clean_memory: bool,
    /// Memory load (percent) at which automatic trimming starts.
    pub auto_clean_threshold: u32,
}

/// A file or folder hidden by the cloaking tool.
#[derive(Clone, Debug)]
pub struct CloakedItem {
    /// Unique id.
    pub id: String,
    /// Display name.
    pub name: String,
    /// Full path of the file or folder.
    pub path: String,
    /// Whether it is a folder.
    pub is_dir: bool,
    /// When it was added (milliseconds since the epoch).
    pub added_at: u64,
    /// Whether it is hidden right now.
    pub is_cloaked: bool,
    /// Free-form note.
    pub note: String,
}

/// The settings used before any were saved.
pub open spec fn default_settings(s: AppSettings) -> bool {
    &&& !s.run_as_admin_default
    &&& s.language@ == "zh-CN"@
    &&& !s.auto_start
    &&& !s.start_minimized
    &&& !s.close_to_tray
    &&& !s.auto_clean_memory
    &&& s.auto_clean_threshold == 80
}

impl Default for AppSettings {
    fn default() -> (s: Self)
        ensures
            default_settings(s),
    {
        AppSettings {
            run_as_admin_default: false,
            language: "zh-CN".to_owned(),
            auto_start: false,
            start_minimized: false,
            close_to_tray: false,
            auto_clean_memory: false,
            auto_clean_threshold: 80,
        }
    }
}

/// A default launcher item: enabled, no arguments, no working directory.
pub open spec fn default_item(it: LaunchItem, id: Seq<char>, name: Seq<char>, path: Seq<char>) -> bool {
    &&& it.id@ == id
    &&& it.name@ == name
    &&& it.path@ == path
    &&& it.args@ == Seq::<char>::empty()
    &&& it.work_dir is None
    &&& !it.silent
    &&& it.enabled
}

fn make_default_item(id: &str, name: &str, path: &str) -> (it: LaunchItem)
    ensures
        default_item(it, id@, name@, path@),
{
    let args = String::new();
    LaunchItem {
        id: id.to_owned(),
        name: name.to_owned(),
        path: path.to_owned(),
        args,
        work_dir: None,
        silent: false,
        enabled: true,
    }
}

/// The launcher items of a first run: Notepad and Calculator, named by their
/// system program names only.
pub fn get_default_launch_items() -> (items: Vec<LaunchItem>)
    ensures
        items@.len() == 2,
        default_item(items@[0], "default-notepad"@, "记事本"@, "notepad.exe"@),
        default_item(items@[1], "default-calc"@, "计算器"@, "calc.exe"@),
{
    let mut items: Vec<LaunchItem> = Vec::new();
    items.push(make_default_item("default-notepad", "记事本", "notepad.exe"));
    items.push(make_default_item("default-calc", "计算器", "calc.exe"));
    items
}

/// What to do with a stored configuration file.
#[derive(Clone, Copy, Debug, PartialEq, Eq, Structural)]
pub enum StoredConfig {
    /// The file is missing or holds only white space: use the defaults.
    UseDefaults,
    /// The file has content: parse it, and report a failure.
    Parse,
}

/// A file is read only where it exists and holds more than white space.
pub open spec fn stored_config_spec(present: bool, content: Seq<char>) -> StoredConfig {
    if !present || trim(content, CharClass::Whitespace).len() == 0 {
        StoredConfig::UseDefaults
    } else {
        StoredConfig::Parse
    }
}

/// Decides whether a stored configuration is parsed or replaced by defaults.
pub fn classify_stored_config(present: bool, content: &str) -> (r: StoredConfig)
    ensures
        r == stored_config_spec(present, content@),
{
    if !present {
        return StoredConfig::UseDefaults;
    }
    let chars = str_chars(content);
    let (a, b) = trim_bounds(chars.as_slice(), CharClass::Whitespace);
    if a == b {
        StoredConfig::UseDefaults
    } else {
        StoredConfig::Parse
    }
}

} // verus!
