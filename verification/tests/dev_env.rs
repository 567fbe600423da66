use omnibox::quality::MetricQuality;
use omnibox::sysinfo::dev_env::{
    append_bounded, collect_dev_environment, dev_tool_targets, executable_query,
    exit_wait_step, first_output_line, has_path_separator, metric_from_probe,
    parse_tool_output, pathext_extensions, probe_result, unavailable_probe, ChildPoll,
    ProbeOutcome, WaitStep, MAX_TOOL_OUTPUT_BYTES,
};

#[test]
fn tool_version_can_be_read_from_stderr_and_has_deadline() {
    let result = parse_tool_output(b"", b"Python 3.12.0\r\n", 0);
    assert_eq!(result.version.as_deref(), Some("Python 3.12.0"));
}

#[test]
fn tool_output_failures_are_not_versions() {
    let empty = parse_tool_output(b"", b"  \n", 0);
    assert!(!empty.installed);
    assert_eq!(empty.quality, MetricQuality::Unavailable);
    assert_eq!(empty.error.as_deref(), Some("工具未返回版本信息"));
    let failed = parse_tool_output(b"", b"boom\nmore", 2);
    assert_eq!(failed.quality, MetricQuality::ReadError);
    assert_eq!(failed.error.as_deref(), Some("boom"));
    let silent = parse_tool_output(b"", b"", 1);
    assert_eq!(silent.error.as_deref(), Some("工具进程返回非零退出码"));
    assert_eq!(first_output_line(b"\nsecond"), None);
    assert_eq!(first_output_line(b"  git version 2.44  \r\nx").as_deref(), Some("git version 2.44"));
}

#[test]
fn output_is_bounded() {
    let mut out = vec![0u8; MAX_TOOL_OUTPUT_BYTES - 3];
    append_bounded(&mut out, &[1, 2, 3, 4, 5]);
    assert_eq!(out.len(), MAX_TOOL_OUTPUT_BYTES);
    assert_eq!(&out[MAX_TOOL_OUTPUT_BYTES - 3..], &[1, 2, 3]);
    append_bounded(&mut out, &[9]);
    assert_eq!(out.len(), MAX_TOOL_OUTPUT_BYTES);
}

#[test]
fn waiting_respects_the_deadline() {
    assert_eq!(exit_wait_step(true, ChildPoll::Exited(0), true), WaitStep::TimedOut);
    assert_eq!(exit_wait_step(false, ChildPoll::Exited(3), true), WaitStep::Exited(3));
    assert_eq!(exit_wait_step(false, ChildPoll::Exited(3), false), WaitStep::TimedOut);
    assert_eq!(exit_wait_step(false, ChildPoll::Running, true), WaitStep::Sleep);
    assert_eq!(exit_wait_step(false, ChildPoll::Failed, true), WaitStep::Lost);
}

#[test]
fn probe_outcomes_keep_the_path_and_reason() {
    let p = probe_result(None, &ProbeOutcome::TimedOut);
    assert_eq!(p.error.as_deref(), Some("工具不在 PATH 中"));
    assert_eq!(p.path, None);
    let p = probe_result(Some("C:\\bin\\git.exe".to_string()), &ProbeOutcome::TimedOut);
    assert_eq!(p.quality, MetricQuality::Unavailable);
    assert_eq!(p.error.as_deref(), Some("工具探测超时"));
    assert_eq!(p.path.as_deref(), Some("C:\\bin\\git.exe"));
    let p = probe_result(
        Some("C:\\bin\\git.exe".to_string()),
        &ProbeOutcome::Finished { stdout: b"git version 2.44\n".to_vec(), stderr: Vec::new(), exit_code: 0 },
    );
    assert!(p.installed);
    assert_eq!(p.version.as_deref(), Some("git version 2.44"));
    assert_eq!(p.path.as_deref(), Some("C:\\bin\\git.exe"));
    assert_eq!(unavailable_probe("x").quality, MetricQuality::Unavailable);
}

#[test]
fn probe_metrics_only_carry_values_when_good() {
    let m = metric_from_probe(Some(true), MetricQuality::Good, None, "", 1);
    assert_eq!(m.value, Some(true));
    let m = metric_from_probe(None::<bool>, MetricQuality::Good, None, "", 1);
    assert_eq!(m.quality, MetricQuality::Unavailable);
    assert_eq!(m.error.as_deref(), Some("工具探测未返回有效值"));
    let m = metric_from_probe(Some(true), MetricQuality::ReadError, Some("bad"), "", 1);
    assert_eq!(m.value, None);
    assert_eq!(m.quality, MetricQuality::ReadError);
    let m = metric_from_probe(Some(1u32), MetricQuality::Stale, None, "", 1);
    assert_eq!(m.quality, MetricQuality::Unavailable);
}

#[test]
fn environment_lists_one_entry_per_tool() {
    let targets = dev_tool_targets();
    assert_eq!(targets.len(), 10);
    assert_eq!(targets[7].label, "PowerShell");
    assert_eq!(targets[7].args.len(), 2);
    let results = (0..10)
        .map(|i| (unavailable_probe("工具不在 PATH 中"), i as u64))
        .collect::<Vec<_>>();
    let env = collect_dev_environment(results);
    assert_eq!(env.tools.len(), 10);
    assert_eq!(env.tools[0].name, "Rust");
    assert_eq!(env.tools[9].name, "WSL");
    assert_eq!(env.tools[9].path.value, None);
    assert_eq!(env.tools[9].installed.timestamp, 9);
}

#[test]
fn commands_and_extensions_are_parsed() {
    assert_eq!(executable_query("  git "), Some("git".to_string()));
    assert_eq!(executable_query("   "), None);
    assert!(has_path_separator("C:\\bin\\git"));
    assert!(has_path_separator("./git"));
    assert!(!has_path_separator("git"));
    assert_eq!(pathext_extensions(Some(".COM;.EXE;;..BAT;")), vec!["COM", "EXE", "BAT"]);
    assert_eq!(pathext_extensions(None), vec!["COM", "EXE", "BAT", "CMD"]);
    assert_eq!(pathext_extensions(Some("")), Vec::<String>::new());
}
