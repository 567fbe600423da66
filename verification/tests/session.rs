use omnibox::session::{
    browser_candidates, browser_exe_name, browser_not_found, cdp_endpoint, cdp_launch_args,
    cdp_timeout_error, cdp_version_request, check_session_file_size, choose_profile_dir,
    get_default_profile_dir, file_missing_error, get_defaults, get_running_cdp_status, join_path,
    launcher_script, launcher_script_name, parse_cdp_version_response, sessions_dir,
    sha256_hex, stop_local_cdp, RunningBrowserInfo, MAX_SESSION_FILE_BYTES,
};

fn info() -> RunningBrowserInfo {
    RunningBrowserInfo {
        browser: "chrome".to_string(),
        endpoint: "http://127.0.0.1:9222".to_string(),
        port: 9222,
        profile_dir: "C:\\p".to_string(),
        pid: 77,
        browser_version: "Chrome/120".to_string(),
        is_running: false,
    }
}

#[test]
fn defaults_name_the_site_and_port() {
    let d = get_defaults("C:\\c", "C:\\e", "C:\\s");
    assert_eq!(d.default_chrome_profile, "C:\\c");
    assert_eq!(d.default_edge_profile, "C:\\e");
    assert_eq!(d.sessions_dir, "C:\\s");
    assert_eq!(d.default_domain, "bilibili.com");
    assert_eq!(d.default_site_url, "https://www.bilibili.com/");
    assert_eq!(d.default_port, 9222);
}

#[test]
fn running_status_follows_liveness() {
    let mut slot = Some(info());
    let r = get_running_cdp_status(&mut slot, true).unwrap();
    assert!(r.is_running);
    assert_eq!(r.pid, 77);
    assert!(slot.as_ref().unwrap().is_running);
    let gone = get_running_cdp_status(&mut slot, false);
    assert!(gone.is_none());
    assert!(slot.is_none());
    let mut empty: Option<RunningBrowserInfo> = None;
    assert!(get_running_cdp_status(&mut empty, true).is_none());
    let mut s2 = Some(info());
    assert_eq!(stop_local_cdp(&mut s2), Ok(()));
    assert!(s2.is_none());
}

#[test]
fn cdp_texts() {
    assert_eq!(cdp_endpoint(9222), "http://127.0.0.1:9222");
    assert_eq!(
        cdp_launch_args(9333, "C:\\prof"),
        vec![
            "--remote-debugging-address=127.0.0.1".to_string(),
            "--remote-debugging-port=9333".to_string(),
            "--user-data-dir=C:\\prof".to_string(),
            "--no-first-run".to_string(),
            "--no-default-browser-check".to_string(),
            "--remote-allow-origins=*".to_string(),
        ]
    );
    assert_eq!(
        cdp_version_request(9222),
        "GET /json/version HTTP/1.1\r\nHost: 127.0.0.1:9222\r\nConnection: close\r\nAccept: application/json\r\n\r\n"
    );
    assert_eq!(
        cdp_timeout_error(9222),
        "在限定时间内浏览器未能响应本地 CDP 端口 (http://127.0.0.1:9222)"
    );
}

#[test]
fn version_response_is_read_from_the_body() {
    let ok = "HTTP/1.1 200 OK\r\nContent-Type: application/json\r\n\r\n{\"Browser\": \"Chrome/120.0\", \"Protocol-Version\": \"1.3\"}";
    assert_eq!(parse_cdp_version_response(ok), Some("Chrome/120.0".to_string()));
    let no_member = "HTTP/1.1 200 OK\r\n\r\n{\"x\": 1}";
    assert_eq!(parse_cdp_version_response(no_member), Some("Chromium / CDP Ready".to_string()));
    let bad_json = "HTTP/1.1 200 OK\r\n\r\nnot json";
    assert_eq!(parse_cdp_version_response(bad_json), Some("Chromium / CDP Ready".to_string()));
    assert_eq!(parse_cdp_version_response("HTTP/1.1 404 Not Found\r\n\r\n"), None);
}

#[test]
fn paths_join_like_windows() {
    assert_eq!(join_path("C:\\a", "b"), "C:\\a\\b");
    assert_eq!(join_path("C:\\a\\", "b"), "C:\\a\\b");
    assert_eq!(join_path("C:", "b"), "C:b");
    assert_eq!(join_path("", "b"), "b");
    assert_eq!(sessions_dir("C:\\Users\\u\\AppData\\Roaming"), "C:\\Users\\u\\AppData\\Roaming\\OmniBox\\sessions");
    assert_eq!(
        get_default_profile_dir("C:\\L", "Chrome"),
        "C:\\L\\BrowserSessionMigrator\\profiles\\chrome-cdp"
    );
    assert_eq!(choose_profile_dir("  ", "C:\\d"), "C:\\d");
    assert_eq!(choose_profile_dir(" C:\\x ", "C:\\d"), "C:\\x");
}

#[test]
fn browser_locations() {
    let c = browser_candidates("Chrome", "C:\\PF", "C:\\PF86", "C:\\L").unwrap();
    assert_eq!(
        c,
        vec![
            "C:\\PF\\Google\\Chrome\\Application\\chrome.exe".to_string(),
            "C:\\PF86\\Google\\Chrome\\Application\\chrome.exe".to_string(),
            "C:\\L\\Google\\Chrome\\Application\\chrome.exe".to_string(),
        ]
    );
    let e = browser_candidates("edge", "C:\\PF", "C:\\PF86", "C:\\L").unwrap();
    assert_eq!(e[0], "C:\\PF86\\Microsoft\\Edge\\Application\\msedge.exe");
    assert_eq!(
        browser_candidates("Firefox", "a", "b", "c"),
        Err("不支持的浏览器类型: firefox，仅支持 chrome 或 edge".to_string())
    );
    assert_eq!(browser_exe_name("EDGE"), "msedge.exe");
    assert_eq!(browser_exe_name("chrome"), "chrome.exe");
    assert_eq!(
        browser_not_found("edge"),
        "未找到 Microsoft Edge。请先安装浏览器，或确认其已加入系统 PATH。"
    );
    assert_eq!(
        browser_not_found("chrome"),
        "未找到 Google Chrome。请先安装浏览器，或确认其已加入系统 PATH。"
    );
}

#[test]
fn launcher_script_text() {
    assert_eq!(launcher_script_name("Edge"), "BrowserSessionMigrator-edge-cdp.cmd");
    assert_eq!(
        launcher_script("C:\\e.exe", 9222, "C:\\p"),
        "@echo off\r\nsetlocal EnableExtensions\r\nstart \"\" \"C:\\e.exe\" --remote-debugging-address=127.0.0.1 --remote-debugging-port=9222 --user-data-dir=\"C:\\p\" --no-first-run --no-default-browser-check --remote-allow-origins=*\r\nexit /b 0\r\n"
    );
}

#[test]
fn session_file_checks() {
    assert_eq!(
        sha256_hex(b"abc"),
        "ba7816bf8f01cfea414140de5dae2223b00361a396177a9cb410ff61f20015ad"
    );
    assert_eq!(
        sha256_hex(b""),
        "e3b0c44298fc1c149afbf4c8996fb92427ae41e4649b934ca495991b7852b855"
    );
    assert_eq!(file_missing_error("C:\\s.json"), "文件不存在: C:\\s.json");
    assert_eq!(check_session_file_size(MAX_SESSION_FILE_BYTES), Ok(()));
    assert_eq!(
        check_session_file_size(MAX_SESSION_FILE_BYTES + 1),
        Err("会话文件超过 20MB 安全限制".to_string())
    );
}
