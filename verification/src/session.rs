//! The browser session migrator: its defaults, the independent CDP browser
//! it starts (arguments, endpoint, health check, launcher script) and the
//! one it keeps track of, and the SHA-256 fingerprints of session files.

use vstd::prelude::*;
use sha2::Digest;
use crate::quality::owned;
use crate::text::{concat_str, decimal, push_decimal, hex_lower, push_hex_lower, str_chars};
use crate::report::{JsonValue, JsonView, jv, opt_jv, json_parse};

verus! {

/// The defaults shown by the session migrator.
pub struct SessionMigratorDefaults {
    pub default_chrome_profile: String,
    pub default_edge_profile: String,
    pub sessions_dir: String,
    pub default_domain: String,
    pub default_site_url: String,
    pub default_port: u16,
}

/// Where and with what a session bundle was exported.
pub struct ExportMetadata {
    pub exported_at: String,
    pub operating_system: String,
    pub browser: String,
    pub browser_version: String,
    pub user_agent: String,
    pub accept_language: String,
    pub timezone: String,
    pub screen_resolution: String,
}

/// The CDP browser started by the migrator.
pub struct RunningBrowserInfo {
    pub browser: String,
    pub endpoint: String,
    pub port: u16,
    pub profile_dir: String,
    pub pid: u32,
    pub browser_version: String,
    pub is_running: bool,
}

/// The defaults: the given profile and session directories, the demo site
/// and the usual debugging port.
pub fn get_defaults(chrome_profile: &str, edge_profile: &str, sessions_dir: &str) -> (d: SessionMigratorDefaults)
    ensures
        d.default_chrome_profile@ == chrome_profile@,
        d.default_edge_profile@ == edge_profile@,
        d.sessions_dir@ == sessions_dir@,
        d.default_domain@ == "bilibili.com"@,
        d.default_site_url@ == "https://www.bilibili.com/"@,
        d.default_port == 9222,
{
    SessionMigratorDefaults {
        default_chrome_profile: owned(chrome_profile),
        default_edge_profile: owned(edge_profile),
        sessions_dir: owned(sessions_dir),
        default_domain: owned("bilibili.com"),
        default_site_url: owned("https://www.bilibili.com/"),
        default_port: 9222,
    }
}

/// A copy of a browser record.
pub fn copy_info(i: &RunningBrowserInfo) -> (c: RunningBrowserInfo)
    ensures
        c == *i,
{
    RunningBrowserInfo {
        browser: i.browser.clone(),
        endpoint: i.endpoint.clone(),
        port: i.port,
        profile_dir: i.profile_dir.clone(),
        pid: i.pid,
        browser_version: i.browser_version.clone(),
        is_running: i.is_running,
    }
}

/// The status of the tracked browser: while its process is alive
/// (`alive`), its record marked running; once it has exited the record is
/// dropped and there is none.
pub fn get_running_cdp_status(slot: &mut Option<RunningBrowserInfo>, alive: bool) -> (r: Option<RunningBrowserInfo>)
    ensures
        match *old(slot) {
            None => r is None && *final(slot) is None,
            Some(i) => if alive {
                let expected = RunningBrowserInfo { is_running: true, ..i };
                r == Some(expected) && *final(slot) == Some(expected)
            } else {
                r is None && *final(slot) is None
            },
        },
{
    match slot {
        None => None,
        Some(info) => {
            if alive {
                info.is_running = true;
                Some(copy_info(info))
            } else {
                *slot = None;
                None
            }
        },
    }
}

/// Forgets the tracked browser (its process is stopped by the caller).
pub fn stop_local_cdp(slot: &mut Option<RunningBrowserInfo>) -> (r: Result<(), String>)
    ensures
        *final(slot) is None,
        r is Ok,
{
    *slot = None;
    Ok(())
}

/// The endpoint of a local CDP port.
pub fn cdp_endpoint(port: u16) -> (s: String)
    ensures
        s@ == "http://127.0.0.1:"@ + decimal(port as nat),
{
    let mut s = owned("http://127.0.0.1:");
    push_decimal(&mut s, port as u64);
    s
}

/// The arguments the browser is started with: bound to the loopback
/// address, on `port`, with its own profile directory.
pub open spec fn cdp_args_spec(port: u16, profile_dir: Seq<char>) -> Seq<Seq<char>> {
    seq![
        "--remote-debugging-address=127.0.0.1"@,
        "--remote-debugging-port="@ + decimal(port as nat),
        "--user-data-dir="@ + profile_dir,
        "--no-first-run"@,
        "--no-default-browser-check"@,
        "--remote-allow-origins=*"@,
    ]
}

/// The browser's arguments (see [`cdp_args_spec`]).
pub fn cdp_launch_args(port: u16, profile_dir: &str) -> (v: Vec<String>)
    ensures
        v@.map_values(|a: String| a@) == cdp_args_spec(port, profile_dir@),
{
    let mut v: Vec<String> = Vec::new();
    v.push(owned("--remote-debugging-address=127.0.0.1"));
    let mut p = owned("--remote-debugging-port=");
    push_decimal(&mut p, port as u64);
    v.push(p);
    v.push(concat_str("--user-data-dir=", profile_dir));
    v.push(owned("--no-first-run"));
    v.push(owned("--no-default-browser-check"));
    v.push(owned("--remote-allow-origins=*"));
    assert(v@.map_values(|a: String| a@) =~= cdp_args_spec(port, profile_dir@));
    v
}

/// The health-check request for `/json/version`.
pub fn cdp_version_request(port: u16) -> (s: String)
    ensures
        s@ == "GET /json/version HTTP/1.1\r\nHost: 127.0.0.1:"@ + decimal(port as nat)
            + "\r\nConnection: close\r\nAccept: application/json\r\n\r\n"@,
{
    let mut s = owned("GET /json/version HTTP/1.1\r\nHost: 127.0.0.1:");
    push_decimal(&mut s, port as u64);
    concat_str(s.as_str(), "\r\nConnection: close\r\nAccept: application/json\r\n\r\n")
}

/// The `Browser` member of a document, when it is an object whose
/// `Browser` member is a string.
pub open spec fn browser_member(v: JsonView) -> Option<Seq<char>> {
    match v {
        JsonView::Object(es) => member_text(es, "Browser"@),
        _ => None,
    }
}

/// The text of the first member named `name`, if it is a string.
pub open spec fn member_text(es: Seq<(Seq<char>, JsonView)>, name: Seq<char>) -> Option<Seq<char>>
    decreases es.len(),
{
    if es.len() == 0 {
        None
    } else if es[0].0 == name {
        match es[0].1 {
            JsonView::Str(t) => Some(t),
            _ => None,
        }
    } else {
        member_text(es.drop_first(), name)
    }
}

/// What a health-check response says: nothing until it is `200 OK`; then
/// the `Browser` member of its JSON body, or a generic ready text.
pub open spec fn cdp_response_spec(buf: Seq<char>) -> Option<Seq<char>> {
    if !crate::strs::contains_seq(buf, "200 OK"@) {
        None
    } else {
        let found = match crate::strs::find_sub(buf, "\r\n\r\n"@) {
            Some(i) => match json_parse(buf.skip(i + 4)) {
                Some(v) => browser_member(v),
                None => None,
            },
            None => None,
        };
        match found {
            Some(b) => Some(b),
            None => Some("Chromium / CDP Ready"@),
        }
    }
}

fn browser_of(v: &JsonValue) -> (r: Option<String>)
    ensures
        match r {
            Some(t) => browser_member(jv(*v)) == Some(t@),
            None => browser_member(jv(*v)) is None,
        },
{
    let es = match v {
        JsonValue::Object(es) => es,
        _ => { return None; },
    };
    proof { crate::report::lemma_jv_entries(es@); }
    let ghost view = crate::report::jv_entries(es@);
    assert(jv(*v) == JsonView::Object(view));
    let n = es.len();
    let mut i: usize = 0;
    assert(view.skip(0) =~= view);
    while i < n
        invariant
            n == es@.len() == view.len(),
            i <= n,
            view == crate::report::jv_entries(es@),
            jv(*v) == JsonView::Object(view),
            forall|k: int| 0 <= k < es@.len() ==> #[trigger] view[k] == (es@[k].0@, jv(es@[k].1)),
            member_text(view, "Browser"@) == member_text(view.skip(i as int), "Browser"@),
        decreases n - i,
    {
        let ghost tail = view.skip(i as int);
        assert(tail[0] == view[i as int]);
        assert(tail[0] == (es@[i as int].0@, jv(es@[i as int].1)));
        assert(tail.drop_first() =~= view.skip(i + 1));
        if crate::text::str_eq(es[i].0.as_str(), "Browser") {
            assert(tail[0].0 == "Browser"@);
            match &es[i].1 {
                JsonValue::Str(t) => {
                    assert(jv(es@[i as int].1) == JsonView::Str(t@));
                    return Some(t.clone());
                },
                _ => {
                    assert(!(jv(es@[i as int].1) is Str));
                    return None;
                },
            }
        }
        i += 1;
    }
    assert(view.skip(n as int) =~= Seq::<(Seq<char>, JsonView)>::empty());
    None
}

/// Reads a health-check response (see [`cdp_response_spec`]).
pub fn parse_cdp_version_response(buffer: &str) -> (r: Option<String>)
    ensures
        match r {
            Some(t) => cdp_response_spec(buffer@) == Some(t@),
            None => cdp_response_spec(buffer@) is None,
        },
{
    if !crate::strs::str_contains(buffer, "200 OK") {
        return None;
    }
    let cs = str_chars(buffer);
    let cl = cs.len();
    let sep = str_chars("\r\n\r\n");
    proof { reveal_strlit("\r\n\r\n"); }
    assert(sep@.len() == 4);
    let found = match crate::strs::find_sub_chars(cs.as_slice(), sep.as_slice()) {
        None => None,
        Some(i) => {
            assert(i + 4 <= cs@.len());
            let body_chars = crate::strs::sub_chars(cs.as_slice(), i + 4, cl);
            assert(body_chars@ =~= buffer@.skip(i + 4));
            let body = crate::text::chars_to_string(body_chars.as_slice());
            match crate::report::parse_json(body.as_str()) {
                None => None,
                Some(v) => browser_of(&v),
            }
        },
    };
    match found {
        Some(b) => Some(b),
        None => Some(owned("Chromium / CDP Ready")),
    }
}

/// The error when the browser did not answer on `port` in time.
pub fn cdp_timeout_error(port: u16) -> (e: String)
    ensures
        e@ == "在限定时间内浏览器未能响应本地 CDP 端口 (http://127.0.0.1:"@ + decimal(port as nat) + ")"@,
{
    let mut e = owned("在限定时间内浏览器未能响应本地 CDP 端口 (http://127.0.0.1:");
    push_decimal(&mut e, port as u64);
    concat_str(e.as_str(), ")")
}

// ---------------------------------------------------------------------------
// Paths and the launcher script.

/// `str::to_lowercase`: the Unicode lower-case mapping. Only named here.
pub uninterp spec fn unicode_lowercase(s: Seq<char>) -> Seq<char>;

/// Lower-cases text (`str::to_lowercase`). Claims: the result is the
/// named Unicode lower-case mapping of the text.
#[verifier::external_body]
fn to_lowercase(s: &str) -> (r: String)
    ensures
        r@ == unicode_lowercase(s@),
{
    s.to_lowercase()
}

/// A Windows path separator.
pub open spec fn is_separator(c: char) -> bool {
    c == '\\' || c == '/'
}

/// `base` joined with the relative `part` as `PathBuf::push` does on
/// Windows: a backslash in between unless `base` is empty, ends with a
/// separator or is a bare drive (`C:`).
pub open spec fn join_spec(base: Seq<char>, part: Seq<char>) -> Seq<char> {
    if base.len() == 0 || is_separator(base.last())
        || (base.len() == 2 && base[1] == ':' && (('a' <= base[0] && base[0] <= 'z') || ('A' <= base[0] && base[0] <= 'Z'))) {
        base + part
    } else {
        base + "\\"@ + part
    }
}

/// Joins a relative part to a Windows path (see [`join_spec`]).
pub fn join_path(base: &str, part: &str) -> (r: String)
    ensures
        r@ == join_spec(base@, part@),
{
    let b = str_chars(base);
    let n = b.len();
    if n == 0 || b[n - 1] == '\\' || b[n - 1] == '/'
        || (n == 2 && b[1] == ':' && (('a' <= b[0] && b[0] <= 'z') || ('A' <= b[0] && b[0] <= 'Z'))) {
        concat_str(base, part)
    } else {
        let with_sep = concat_str(base, "\\");
        concat_str(with_sep.as_str(), part)
    }
}

/// Which browser a name means, by its lower-case form.
#[derive(Clone, Copy, Debug, PartialEq, Eq, Structural)]
pub enum BrowserKind {
    Chrome,
    Edge,
}

/// The install locations tried for a browser, in order.
pub open spec fn candidates_spec(kind: BrowserKind, prog_files: Seq<char>, prog_files_x86: Seq<char>, local_app_data: Seq<char>)
    -> Seq<Seq<char>>
{
    match kind {
        BrowserKind::Chrome => seq![
            join_spec(prog_files, "Google\\Chrome\\Application\\chrome.exe"@),
            join_spec(prog_files_x86, "Google\\Chrome\\Application\\chrome.exe"@),
            join_spec(local_app_data, "Google\\Chrome\\Application\\chrome.exe"@),
        ],
        BrowserKind::Edge => seq![
            join_spec(prog_files_x86, "Microsoft\\Edge\\Application\\msedge.exe"@),
            join_spec(prog_files, "Microsoft\\Edge\\Application\\msedge.exe"@),
            join_spec(local_app_data, "Microsoft\\Edge\\Application\\msedge.exe"@),
        ],
    }
}

/// The install locations tried for `browser` (`chrome` or `edge` once
/// lower-cased), or the error naming an unsupported browser.
pub fn browser_candidates(browser: &str, prog_files: &str, prog_files_x86: &str, local_app_data: &str)
    -> (r: Result<Vec<String>, String>)
    ensures
        match r {
            Ok(v) => {
                let kind = if unicode_lowercase(browser@) == "chrome"@ { BrowserKind::Chrome } else { BrowserKind::Edge };
                &&& (unicode_lowercase(browser@) == "chrome"@ || unicode_lowercase(browser@) == "edge"@)
                &&& v@.map_values(|x: String| x@) == candidates_spec(kind, prog_files@, prog_files_x86@, local_app_data@)
            },
            Err(e) => unicode_lowercase(browser@) != "chrome"@ && unicode_lowercase(browser@) != "edge"@
                && e@ == "不支持的浏览器类型: "@ + unicode_lowercase(browser@) + "，仅支持 chrome 或 edge"@,
        },
{
    let lower = to_lowercase(browser);
    let mut v: Vec<String> = Vec::new();
    if crate::text::str_eq(lower.as_str(), "chrome") {
        let exe = "Google\\Chrome\\Application\\chrome.exe";
        v.push(join_path(prog_files, exe));
        v.push(join_path(prog_files_x86, exe));
        v.push(join_path(local_app_data, exe));
        assert(v@.map_values(|x: String| x@) =~= candidates_spec(BrowserKind::Chrome, prog_files@, prog_files_x86@, local_app_data@));
        Ok(v)
    } else if crate::text::str_eq(lower.as_str(), "edge") {
        let exe = "Microsoft\\Edge\\Application\\msedge.exe";
        v.push(join_path(prog_files_x86, exe));
        v.push(join_path(prog_files, exe));
        v.push(join_path(local_app_data, exe));
        proof { reveal_strlit("chrome"); reveal_strlit("edge"); }
        assert("chrome"@ != "edge"@) by { assert("chrome"@[0] != "edge"@[0]); }
        assert(v@.map_values(|x: String| x@) =~= candidates_spec(BrowserKind::Edge, prog_files@, prog_files_x86@, local_app_data@));
        Ok(v)
    } else {
        let head = concat_str("不支持的浏览器类型: ", lower.as_str());
        Err(concat_str(head.as_str(), "，仅支持 chrome 或 edge"))
    }
}

/// The executable looked up in `PATH`: `msedge.exe` for `edge` (any ASCII
/// case), else `chrome.exe`.
pub fn browser_exe_name(browser: &str) -> (s: String)
    ensures
        s@ == (if crate::strs::lower_seq(browser@) == "edge"@ { "msedge.exe"@ } else { "chrome.exe"@ }),
{
    if crate::sysinfo::windows_env::eq_ignore_ascii_case(browser, "edge") {
        proof { reveal_strlit("edge"); assert(crate::strs::lower_seq("edge"@) =~= "edge"@); }
        owned("msedge.exe")
    } else {
        proof { reveal_strlit("edge"); assert(crate::strs::lower_seq("edge"@) =~= "edge"@); }
        owned("chrome.exe")
    }
}

/// The error when no browser executable was found.
pub fn browser_not_found(browser: &str) -> (e: String)
    ensures
        e@ == "未找到 "@ + (if crate::strs::lower_seq(browser@) == "edge"@ { "Microsoft Edge"@ } else { "Google Chrome"@ })
            + "。请先安装浏览器，或确认其已加入系统 PATH。"@,
{
    proof { reveal_strlit("edge"); assert(crate::strs::lower_seq("edge"@) =~= "edge"@); }
    let name = if crate::sysinfo::windows_env::eq_ignore_ascii_case(browser, "edge") { "Microsoft Edge" } else { "Google Chrome" };
    let head = concat_str("未找到 ", name);
    concat_str(head.as_str(), "。请先安装浏览器，或确认其已加入系统 PATH。")
}

/// The migrator's own profile directory for a browser under
/// `%LOCALAPPDATA%`.
pub fn get_default_profile_dir(local_app_data: &str, browser: &str) -> (s: String)
    ensures
        s@ == join_spec(join_spec(join_spec(local_app_data@, "BrowserSessionMigrator"@), "profiles"@),
            unicode_lowercase(browser@) + "-cdp"@),
{
    let lower = to_lowercase(browser);
    let a = join_path(local_app_data, "BrowserSessionMigrator");
    let b = join_path(a.as_str(), "profiles");
    let leaf = concat_str(lower.as_str(), "-cdp");
    join_path(b.as_str(), leaf.as_str())
}

/// The directory of saved sessions under `%APPDATA%`.
pub fn sessions_dir(app_data: &str) -> (s: String)
    ensures
        s@ == join_spec(join_spec(app_data@, "OmniBox"@), "sessions"@),
{
    let a = join_path(app_data, "OmniBox");
    join_path(a.as_str(), "sessions")
}

/// The profile to use: the given one trimmed, or the default when blank.
pub fn choose_profile_dir(requested: &str, default_dir: &str) -> (s: String)
    ensures
        s@ == (if crate::strs::trim(requested@, crate::strs::CharClass::Whitespace).len() == 0 { default_dir@ }
            else { crate::strs::trim(requested@, crate::strs::CharClass::Whitespace) }),
{
    let t = crate::strs::trim_chars(str_chars(requested).as_slice(), crate::strs::CharClass::Whitespace);
    if t.len() == 0 { owned(default_dir) } else { crate::text::chars_to_string(t.as_slice()) }
}

/// The file name of the launcher script of a browser.
pub fn launcher_script_name(browser: &str) -> (s: String)
    ensures
        s@ == "BrowserSessionMigrator-"@ + unicode_lowercase(browser@) + "-cdp.cmd"@,
{
    let lower = to_lowercase(browser);
    let head = concat_str("BrowserSessionMigrator-", lower.as_str());
    concat_str(head.as_str(), "-cdp.cmd")
}

/// The launcher script: starts `executable` on `port` with `profile` and
/// nothing else.
pub fn launcher_script(executable: &str, port: u16, profile: &str) -> (s: String)
    ensures
        s@ == "@echo off\r\nsetlocal EnableExtensions\r\nstart \"\" \""@ + executable@
            + "\" --remote-debugging-address=127.0.0.1 --remote-debugging-port="@ + decimal(port as nat)
            + " --user-data-dir=\""@ + profile@
            + "\" --no-first-run --no-default-browser-check --remote-allow-origins=*\r\nexit /b 0\r\n"@,
{
    let a = concat_str("@echo off\r\nsetlocal EnableExtensions\r\nstart \"\" \"", executable);
    let mut b = concat_str(a.as_str(), "\" --remote-debugging-address=127.0.0.1 --remote-debugging-port=");
    push_decimal(&mut b, port as u64);
    let c = concat_str(b.as_str(), " --user-data-dir=\"");
    let d = concat_str(c.as_str(), profile);
    concat_str(d.as_str(), "\" --no-first-run --no-default-browser-check --remote-allow-origins=*\r\nexit /b 0\r\n")
}

// ---------------------------------------------------------------------------
// Session files.

/// SHA-256 of a byte sequence (FIPS 180-4). Only named here.
pub uninterp spec fn sha256(bytes: Seq<u8>) -> Seq<u8>;

/// Hashes bytes with the `sha2` crate's `Sha256`. Claims: the digest is the
/// named SHA-256 of the bytes and has 32 bytes.
#[verifier::external_body]
fn sha256_digest(bytes: &[u8]) -> (d: Vec<u8>)
    ensures
        d@ == sha256(bytes@),
        d@.len() == 32,
{
    let mut hasher = sha2::Sha256::new();
    hasher.update(bytes);
    hasher.finalize().to_vec()
}

/// Two lower-case hex digits per byte.
pub open spec fn hex_bytes(d: Seq<u8>) -> Seq<char>
    decreases d.len(),
{
    if d.len() == 0 { Seq::empty() } else { hex_bytes(d.drop_last()) + hex_lower(d.last() as u64, 2) }
}

/// The SHA-256 fingerprint of content, in lower-case hex.
pub fn sha256_hex(bytes: &[u8]) -> (s: String)
    ensures
        s@ == hex_bytes(sha256(bytes@)),
        s@.len() == 64,
{
    let d = sha256_digest(bytes);
    let mut s = String::new();
    for i in 0..d.len()
        invariant
            d@.len() == 32,
            s@ == hex_bytes(d@.take(i as int)),
            s@.len() == 2 * i,
    {
        assert(d@.take(i + 1).drop_last() =~= d@.take(i as int));
        push_hex_lower(&mut s, d[i] as u64, 2);
        proof { crate::text::lemma_hex_lower_len(d[i as int] as u64, 2); }
    }
    assert(d@.take(32) =~= d@);
    s
}

/// The error for a file that does not exist.
pub fn file_missing_error(path: &str) -> (e: String)
    ensures
        e@ == "文件不存在: "@ + path@,
{
    concat_str("文件不存在: ", path)
}

/// The largest session file read, in bytes (20 MiB).
pub const MAX_SESSION_FILE_BYTES: u64 = 20971520;

/// Refuses a session file larger than the limit.
pub fn check_session_file_size(len: u64) -> (r: Result<(), String>)
    ensures
        match r {
            Ok(()) => len <= MAX_SESSION_FILE_BYTES,
            Err(e) => len > MAX_SESSION_FILE_BYTES && e@ == "会话文件超过 20MB 安全限制"@,
        },
{
    if len > MAX_SESSION_FILE_BYTES { Err(owned("会话文件超过 20MB 安全限制")) } else { Ok(()) }
}

} // verus!
