use omnibox::launch::{
    batch_launch_results, launch_failed, launched_result, plan_launch, skipped_result, CREATE_NO_WINDOW, SW_HIDE,
    SW_SHOWNORMAL,
};
use omnibox::settings::LaunchItem;

fn item(path: &str, args: &str, work_dir: Option<&str>, silent: bool) -> LaunchItem {
    LaunchItem {
        id: "id-1".to_string(),
        name: "Item".to_string(),
        path: path.to_string(),
        args: args.to_string(),
        work_dir: work_dir.map(|s| s.to_string()),
        silent,
        enabled: true,
    }
}

#[test]
fn test_launch_process_empty_path() {
    let it = LaunchItem {
        id: "test-empty-path".to_string(),
        name: "Test Empty Path".to_string(),
        path: "   ".to_string(),
        args: "".to_string(),
        work_dir: None,
        silent: false,
        enabled: true,
    };
    let res = plan_launch(&it);
    assert!(res.is_err(), "空路径应返回错误");
}

#[test]
fn path_is_quoted_and_args_trimmed() {
    let p = plan_launch(&item("  C:\\Program Files\\app.exe ", "  -x 1  ", None, false)).unwrap();
    assert_eq!(p.command_line, "\"C:\\Program Files\\app.exe\" -x 1");
    assert_eq!(p.work_dir, None);
    assert_eq!(p.creation_flags, 0);
    assert_eq!(p.show_window, SW_SHOWNORMAL);
}

#[test]
fn quoted_path_is_kept_and_silent_hides_window() {
    let p = plan_launch(&item("\"C:\\cmd.exe\"", "", Some("C:\\"), true)).unwrap();
    assert_eq!(p.command_line, "\"C:\\cmd.exe\"");
    assert_eq!(p.work_dir, Some("C:\\".to_string()));
    assert_eq!(p.creation_flags, CREATE_NO_WINDOW);
    assert_eq!(p.show_window, SW_HIDE);
}

#[test]
fn blank_work_dir_is_dropped() {
    let p = plan_launch(&item("cmd.exe", "/c exit 0", Some("  "), false)).unwrap();
    assert_eq!(p.command_line, "\"cmd.exe\" /c exit 0");
    assert_eq!(p.work_dir, None);
}

#[test]
fn batch_results() {
    let s = skipped_result(item("notepad.exe", "", None, false));
    assert!(!s.success);
    assert_eq!(s.pid, None);
    assert_eq!(s.error, Some("启动项未启用，已跳过".to_string()));
    let ok = launched_result(item("cmd.exe", "", None, false), Ok(1234));
    assert!(ok.success);
    assert_eq!(ok.pid, Some(1234));
    assert_eq!(ok.error, None);
    let bad = launched_result(item("x.exe", "", None, false), Err("boom".to_string()));
    assert!(!bad.success);
    assert_eq!(bad.error, Some("boom".to_string()));
    assert_eq!(
        launch_failed("x.exe", 2),
        "启动进程失败: \"x.exe\", Windows 错误码: 2"
    );
}

#[test]
fn batch_results_skip_disabled_items_and_keep_going_after_a_failure() {
    let mut a = item("a.exe", "", None, false);
    a.id = "a".to_string();
    let mut b = item("b.exe", "", None, false);
    b.id = "b".to_string();
    b.enabled = false;
    let mut c = item("c.exe", "", None, false);
    c.id = "c".to_string();
    let mut d = item("d.exe", "", None, false);
    d.id = "d".to_string();
    let items = vec![a, b, c, d];
    let outcomes = vec![Some(Err("boom".to_string())), None, Some(Ok(42)), Some(Ok(7))];
    let r = batch_launch_results(&items, &outcomes);
    assert_eq!(r.len(), 4);
    let ids: Vec<&str> = r.iter().map(|x| x.id.as_str()).collect();
    assert_eq!(ids, vec!["a", "b", "c", "d"]);
    assert!(!r[0].success && r[0].pid.is_none() && r[0].error.as_deref() == Some("boom"));
    assert!(!r[1].success && r[1].pid.is_none());
    assert_eq!(r[1].error.as_deref(), Some("启动项未启用，已跳过"));
    assert!(r[2].success && r[2].pid == Some(42) && r[2].error.is_none());
    assert!(r[3].success && r[3].pid == Some(7) && r[3].error.is_none());
    for x in &r {
        assert_eq!(x.success, x.pid.is_some());
        assert_eq!(x.success, x.error.is_none());
    }
}
