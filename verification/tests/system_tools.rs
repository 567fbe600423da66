use omnibox::settings::{classify_stored_config, get_default_launch_items, AppSettings, StoredConfig};
use omnibox::tools::{get_system_tools_list, shell_execute_succeeded};
use omnibox::tweaks::{get_all_tweaks, service_reports_disabled, tweak_plan, TweakProbe, TweakStep};
use omnibox::unrestrict::{
    build_report, count_blocked_host_lines, get_restriction_overview, hosts_backup_path,
    removable_acl_repair, unrestrict_all_network, CommandOutput, HostsFile, RepairOutcomes,
    RestrictionProbe, RootGrant, UnrestrictStepResult,
};

fn quiet_probe() -> TweakProbe {
    TweakProbe {
        update_service_disabled: false,
        no_auto_update_policy: false,
        anti_spyware_disabled_policy: false,
        realtime_monitoring_disabled_policy: false,
        search_service_disabled: false,
        sysmain_service_disabled: false,
        hibernation_file_present: true,
        telemetry_service_disabled: false,
        telemetry_policy_off: false,
        widgets_policy_off: false,
    }
}

fn cmd(ok: bool, text: &str) -> CommandOutput {
    CommandOutput { ok, output: text.to_string() }
}

fn clean_system() -> RestrictionProbe {
    RestrictionProbe {
        usbstor_start: Some("    Start    REG_DWORD    0x3".to_string()),
        removable_policy_machine: false,
        removable_policy_user: false,
        write_protect: None,
        device_install_policy: false,
        no_view_on_drive_machine: false,
        no_view_on_drive_user: false,
        no_drives_machine: false,
        no_drives_user: false,
        mountpoints2_present: true,
        removable_roots: vec![],
        proxy_enable: Some("    ProxyEnable    REG_DWORD    0x0".to_string()),
        auto_config_url: false,
        winhttp_query: cmd(true, "当前的 WinHTTP 代理服务器设置:\n    直接访问(没有代理服务器)。"),
        hosts: HostsFile::Text("# comment\n127.0.0.1 localhost\n".to_string()),
        network_policy_present: false,
    }
}

fn outcomes(ok: bool) -> RepairOutcomes {
    RepairOutcomes {
        usbstor_set: cmd(ok, "set"),
        removable_machine_delete: cmd(ok, "m"),
        removable_user_delete: cmd(ok, "u"),
        write_protect_delete: cmd(ok, "wp"),
        write_protect_fallback_ok: ok,
        device_install_delete: cmd(ok, "di"),
        mountpoints2_delete: cmd(ok, "mp"),
        root_grants: vec![],
        automount: cmd(ok, "mv"),
        pnp_rescan: cmd(ok, "pnp"),
        winhttp_reset: cmd(ok, "wh"),
        hosts_timestamp: 42,
        hosts_write: Ok(()),
        winsock_reset: cmd(ok, "ws"),
        tcpip_reset: cmd(ok, "ip"),
        dns_flush: cmd(ok, "dns"),
        firewall_reset: cmd(ok, "fw"),
        adapters_enable: cmd(ok, "na"),
    }
}

fn step(id: &str, category: &str, status: &str) -> UnrestrictStepResult {
    UnrestrictStepResult {
        id: id.to_string(),
        title: id.to_string(),
        category: category.to_string(),
        status: status.to_string(),
        message: String::new(),
        details: None,
    }
}

#[test]
fn test_get_default_launch_items() {
    let defaults = get_default_launch_items();
    assert_eq!(defaults.len(), 2, "默认启动项数量应为 2");

    let notepad = &defaults[0];
    assert_eq!(notepad.id, "default-notepad");
    assert_eq!(notepad.name, "记事本");
    assert_eq!(notepad.path, "notepad.exe");
    assert!(notepad.enabled);

    let calc = &defaults[1];
    assert_eq!(calc.id, "default-calc");
    assert_eq!(calc.name, "计算器");
    assert_eq!(calc.path, "calc.exe");
    assert!(calc.enabled);
}

#[test]
fn default_settings_use_chinese_and_eighty_percent() {
    let s = AppSettings::default();
    assert_eq!(s.language, "zh-CN");
    assert_eq!(s.auto_clean_threshold, 80);
    assert!(!s.auto_start && !s.close_to_tray && !s.run_as_admin_default);
}

#[test]
fn stored_config_blank_or_missing_uses_defaults() {
    assert_eq!(classify_stored_config(false, "[1]"), StoredConfig::UseDefaults);
    assert_eq!(classify_stored_config(true, " \n\t "), StoredConfig::UseDefaults);
    assert_eq!(classify_stored_config(true, "[]"), StoredConfig::Parse);
}

#[test]
fn test_system_tools_list_completeness() {
    let tools = get_system_tools_list();
    assert!(tools.len() >= 15, "系统工具库应包含不少于 15 种常用工具");
    assert!(tools.iter().any(|t| t.id == "gpedit"), "应包含组策略编辑器");
    assert!(tools.iter().any(|t| t.id == "regedit"), "应包含注册表编辑器");
    assert!(tools.iter().any(|t| t.id == "compmgmt"), "应包含计算机管理");
}

#[test]
fn tool_catalogue_is_complete_and_launch_threshold_is_32() {
    let tools = get_system_tools_list();
    assert_eq!(tools.len(), 23);
    assert_eq!(tools[22].command, "powershell.exe");
    assert!(!shell_execute_succeeded(32));
    assert!(shell_execute_succeeded(33));
}

#[test]
fn test_system_tweaks_list() {
    let tweaks = get_all_tweaks(&quiet_probe());
    assert!(tweaks.len() >= 5, "系统调优项目应至少包含 5 项");
    assert!(tweaks.iter().any(|t| t.id == "windows_update"), "应包含 Windows 更新开关");
    assert!(tweaks.iter().any(|t| t.id == "windows_defender"), "应包含 Defender 开关");
}

#[test]
fn tweak_states_follow_services_and_policies() {
    let mut p = quiet_probe();
    p.no_auto_update_policy = true;
    p.hibernation_file_present = false;
    let tweaks = get_all_tweaks(&p);
    assert_eq!(tweaks.len(), 7);
    assert!(tweaks[0].is_disabled);
    assert!(!tweaks[1].is_disabled);
    assert!(tweaks[2].is_disabled);
    assert!(tweaks.iter().all(|t| t.requires_admin));
    assert!(service_reports_disabled("        START_TYPE         : 4   DISABLED"));
    assert!(!service_reports_disabled("        START_TYPE         : 2   AUTO_START"));
}

#[test]
fn tweak_plan_lists_steps_and_rejects_unknown_ids() {
    let plan = tweak_plan("windows_update", true).unwrap();
    assert_eq!(plan.len(), 3);
    assert!(!plan[0].must_succeed && plan[2].must_succeed);
    match &plan[2].step {
        TweakStep::SetDword { value_name, value, .. } => {
            assert_eq!(value_name, "NoAutoUpdate");
            assert_eq!(*value, 1);
        }
        _ => panic!("policy write expected"),
    }
    let restore = tweak_plan("widgets", false).unwrap();
    assert!(matches!(&restore[0].step, TweakStep::DeleteValue { value_name, .. } if value_name == "AllowNewsAndInterests"));
    assert_eq!(tweak_plan("bogus", true).unwrap_err(), "未知的调优项目: bogus");
}

#[test]
fn test_restriction_overview_structure() {
    let overview = get_restriction_overview(&clean_system());
    assert!(overview.details.len() >= 17, "预检项数量应至少包含 17 项检查");

    let usb_steps: Vec<_> = overview.details.iter().filter(|s| s.category == "usb").collect();
    let net_steps: Vec<_> = overview.details.iter().filter(|s| s.category == "network").collect();
    assert_eq!(usb_steps.len(), 9, "USB 预检项应为 9 项");
    assert_eq!(net_steps.len(), 8, "网络预检项应为 8 项");

    for step in &overview.details {
        assert!(!step.id.is_empty(), "id 不能为空");
        assert!(!step.title.is_empty(), "title 不能为空");
        assert!(matches!(step.status.as_str(), "clean" | "fixed" | "warning" | "failed"));
    }
}

#[test]
fn overview_counts_failed_checks_per_category() {
    let mut p = clean_system();
    p.usbstor_start = Some("Start REG_DWORD 0x4".to_string());
    p.no_drives_user = true;
    p.hosts = HostsFile::Text("0.0.0.0 ads.example\r\n127.0.0.1 LOCALHOST\n".to_string());
    let overview = get_restriction_overview(&p);
    assert_eq!(overview.usb_issues_count, 2);
    assert_eq!(overview.network_issues_count, 1);
    assert!(overview.usb_restricted && overview.network_restricted);
    assert_eq!(overview.details[11].message, "检测到 Hosts 文件中存在 1 条可能导致网络受限的域名封锁规则");
}

#[test]
fn test_build_report_aggregation() {
    let mock_steps = vec![
        UnrestrictStepResult {
            id: "step1".to_string(),
            title: "测试1".to_string(),
            category: "usb".to_string(),
            status: "fixed".to_string(),
            message: "已修复".to_string(),
            details: None,
        },
        UnrestrictStepResult {
            id: "step2".to_string(),
            title: "测试2".to_string(),
            category: "network".to_string(),
            status: "clean".to_string(),
            message: "正常".to_string(),
            details: None,
        },
        UnrestrictStepResult {
            id: "step3".to_string(),
            title: "测试3".to_string(),
            category: "usb".to_string(),
            status: "failed".to_string(),
            message: "失败".to_string(),
            details: None,
        },
    ];

    let report = build_report(mock_steps, true);
    assert_eq!(report.total_steps, 3);
    assert_eq!(report.fixed_count, 1);
    assert_eq!(report.clean_count, 1);
    assert_eq!(report.failed_count, 1);
    assert!(!report.success, "存在 failed 项时总体 success 应为 false");
}

#[test]
fn report_messages_and_reboot_flag() {
    let ok = build_report(vec![step("a", "usb", "fixed"), step("b", "usb", "clean")], true);
    assert!(ok.success && ok.needs_reboot);
    assert_eq!(ok.message, "已成功完成全量解除！共修复 1 项限制策略，其余 1 项本身处于正常状态。");
    let quiet = build_report(vec![step("a", "usb", "clean")], true);
    assert!(!quiet.needs_reboot);
    assert_eq!(quiet.message, "全盘排查完毕，未检测到任何系统级封锁策略，所有功能均处于正常通行状态。");
    let bad = build_report(vec![step("a", "usb", "failed"), step("b", "usb", "warning")], false);
    assert_eq!(bad.message, "解除流程已执行，修复了 0 项限制，但有 1 项未能成功处理 (可能缺少管理员提权)。");
}

#[test]
fn hosts_rules_are_counted_line_by_line() {
    assert_eq!(count_blocked_host_lines(""), 0);
    assert_eq!(count_blocked_host_lines("  127.0.0.1 evil.example  \n# 0.0.0.0 x\n0.0.0.0 BroadcastHost\n0.0.0.0 a.b"), 2);
    assert_eq!(hosts_backup_path(7), "C:\\Windows\\System32\\drivers\\etc\\hosts.bak_7");
}

#[test]
fn acl_repair_reports_failed_roots() {
    let grants = vec![
        RootGrant { root: "E:\\".to_string(), everyone_ok: false, users_ok: true },
        RootGrant { root: "F:\\".to_string(), everyone_ok: false, users_ok: false },
    ];
    let r = removable_acl_repair(&grants);
    assert_eq!(r.status, "warning");
    assert_eq!(
        r.message,
        "已修复盘符 [E:\\] 的访问权限，但盘符 [F:\\] 响应异常 (可能为写保护硬件锁或需格式化)"
    );
}

#[test]
fn network_repair_on_clean_system_needs_no_reboot_unless_fixed() {
    let report = unrestrict_all_network(&clean_system(), &outcomes(true));
    assert_eq!(report.total_steps, 8);
    assert_eq!(report.fixed_count, 5);
    assert!(report.needs_reboot && report.success);
}
