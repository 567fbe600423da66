use omnibox::cloaker::{
    cloak_attributes, cloak_failed, cloak_target_path, find_record, is_path_cloaked,
    record_cloaked, refresh_cloaked_flags, send_to_launcher, set_cloaked_flag,
    uncloak_attributes, uncloak_failed, FILE_ATTRIBUTE_HIDDEN, FILE_ATTRIBUTE_NORMAL,
    FILE_ATTRIBUTE_SYSTEM, INVALID_FILE_ATTRIBUTES,
};
use omnibox::settings::{CloakedItem, LaunchItem};

const ARCHIVE: u32 = 0x20;

fn rec(id: &str, path: &str, cloaked: bool) -> CloakedItem {
    CloakedItem {
        id: id.to_string(),
        name: "n".to_string(),
        path: path.to_string(),
        is_dir: false,
        added_at: 1,
        is_cloaked: cloaked,
        note: "old".to_string(),
    }
}

#[test]
fn cloak_then_uncloak_attributes_round_trip() {
    // A plain file is not hidden; hiding it makes it hidden; unhiding makes it visible.
    assert_eq!(is_path_cloaked("f", ARCHIVE), Ok(false));
    let hidden = cloak_attributes("f", ARCHIVE).unwrap();
    assert_eq!(hidden, ARCHIVE | FILE_ATTRIBUTE_SYSTEM | FILE_ATTRIBUTE_HIDDEN);
    assert_eq!(is_path_cloaked("f", hidden), Ok(true));
    let visible = uncloak_attributes("f", hidden).unwrap();
    assert_eq!(visible, ARCHIVE);
    assert_eq!(is_path_cloaked("f", visible), Ok(false));
    // Nothing left after removing the two bits: normal.
    assert_eq!(
        uncloak_attributes("f", FILE_ATTRIBUTE_SYSTEM | FILE_ATTRIBUTE_HIDDEN),
        Ok(FILE_ATTRIBUTE_NORMAL)
    );
    // Hidden alone is not deep hiding.
    assert_eq!(is_path_cloaked("f", FILE_ATTRIBUTE_HIDDEN), Ok(false));
}

#[test]
fn unreadable_attributes_are_errors() {
    assert_eq!(
        is_path_cloaked("C:\\x", INVALID_FILE_ATTRIBUTES),
        Err("无法读取路径属性或路径不存在: C:\\x".to_string())
    );
    assert_eq!(
        cloak_attributes("C:\\x", INVALID_FILE_ATTRIBUTES),
        Err("无法找到目标路径: C:\\x".to_string())
    );
    assert_eq!(
        uncloak_attributes("C:\\x", INVALID_FILE_ATTRIBUTES),
        Err("无法找到目标路径: C:\\x".to_string())
    );
    assert_eq!(cloak_failed("a"), "设置深度隐藏属性失败，请检查文件权限: a");
    assert_eq!(uncloak_failed("a"), "恢复文件可见属性失败，请检查文件权限: a");
}

#[test]
fn target_path_is_trimmed_and_unquoted() {
    assert_eq!(cloak_target_path("  \"C:\\a b\\c.txt\"  "), "C:\\a b\\c.txt");
    assert_eq!(cloak_target_path("\"\"x\""), "x");
    assert_eq!(cloak_target_path("plain"), "plain");
}

#[test]
fn recording_a_new_and_an_existing_path() {
    let mut list = vec![rec("cloak-1", "C:\\A.txt", false)];
    let r = record_cloaked(&mut list, "c:\\a.TXT", "a.txt", false, Some("memo".to_string()), 99);
    assert_eq!(list.len(), 1);
    assert_eq!(r.id, "cloak-1");
    assert!(r.is_cloaked);
    assert_eq!(r.note, "memo");
    assert!(list[0].is_cloaked);
    let r2 = record_cloaked(&mut list, "C:\\B", "B", true, None, 1700);
    assert_eq!(list.len(), 2);
    assert_eq!(r2.id, "cloak-1700");
    assert_eq!(r2.name, "B");
    assert_eq!(r2.path, "C:\\B");
    assert!(r2.is_dir);
    assert_eq!(r2.added_at, 1700);
    assert_eq!(r2.note, "");
    assert_eq!(list[1].id, r2.id);
    assert!(list[1].is_cloaked);
}

#[test]
fn finding_and_flagging_records() {
    let mut list = vec![rec("a", "C:\\1", true), rec("b", "C:\\2", true)];
    assert_eq!(find_record(&list, "b"), Some(1));
    assert_eq!(find_record(&list, "z"), None);
    set_cloaked_flag(&mut list, 1, false);
    assert!(!list[1].is_cloaked);
    assert!(list[0].is_cloaked);
    refresh_cloaked_flags(&mut list, &vec![Some(false), None]);
    assert!(!list[0].is_cloaked);
    assert!(!list[1].is_cloaked);
}

#[test]
fn sending_to_launcher_reuses_or_appends() {
    let c = rec("cloak-5", "C:\\tools\\x.exe", true);
    let mut launchers: Vec<LaunchItem> = Vec::new();
    let r = send_to_launcher(&mut launchers, &c, Some("C:\\tools".to_string()), true, 42);
    assert_eq!(r.id, "launch-from-cloak-42");
    assert_eq!(r.name, "🔒 n");
    assert_eq!(r.path, "C:\\tools\\x.exe");
    assert_eq!(r.args, "");
    assert_eq!(r.work_dir, Some("C:\\tools".to_string()));
    assert!(r.silent);
    assert!(r.enabled);
    assert_eq!(launchers.len(), 1);
    let again = send_to_launcher(&mut launchers, &rec("o", "c:\\TOOLS\\X.EXE", true), None, false, 43);
    assert_eq!(again.id, "launch-from-cloak-42");
    assert_eq!(launchers.len(), 1);
}
