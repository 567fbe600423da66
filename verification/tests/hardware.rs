use omnibox::hardware::{
    collect_partitions, cpu_brand_name, cpu_usage_tenths, describe_partition,
    estimated_physical_cores, filetime_to_u64, format_uptime, gpu_detail, network_rate_metric,
    perf_figures, primary_gpu_name, query_network_speed, shown_cpu_usage_tenths, split_drive_strings, strip_backslashes,
    DriveReading, IfRow, PerfReading,
};
use omnibox::quality::MetricQuality;
use omnibox::working_set::{clean_figures, count_trimmed, memory_figures, TrimOutcome};

fn w(s: &str) -> Vec<u16> {
    let mut v: Vec<u16> = s.encode_utf16().collect();
    v.push(0);
    v
}

#[test]
fn filetime_joins_halves() {
    assert_eq!(filetime_to_u64(0, 5), 5);
    assert_eq!(filetime_to_u64(1, 0), 1u64 << 32);
    assert_eq!(filetime_to_u64(0xFFFF_FFFF, 0xFFFF_FFFF), u64::MAX);
}

#[test]
fn cpu_brand_from_registry_reading() {
    let units = w("  Intel(R) Core(TM) i7  ");
    let len = (units.len() * 2) as u32;
    assert_eq!(cpu_brand_name(&Some((units, len))), "Intel(R) Core(TM) i7");
    assert_eq!(cpu_brand_name(&None), "Generic x64 Processor");
    assert_eq!(cpu_brand_name(&Some((w("   "), 8))), "Generic x64 Processor");
}

#[test]
fn cpu_usage_between_two_samples() {
    // idle 250 of 1000 total: 75.0 %.
    assert_eq!(cpu_usage_tenths(Some((0, 0, 0)), (250, 500, 500)), Some(750));
    assert_eq!(cpu_usage_tenths(None, (1, 2, 3)), None);
    // No time passed.
    assert_eq!(cpu_usage_tenths(Some((5, 5, 5)), (5, 5, 5)), None);
    // Rounded half up: 1 busy of 3 is 33.3 %.
    assert_eq!(cpu_usage_tenths(Some((0, 0, 0)), (2, 3, 0)), Some(333));
}

#[test]
fn gpu_name_skips_remote_and_basic_adapters() {
    let names = vec![w("Microsoft Remote Display Adapter Rdp"), w("Microsoft Basic Render Driver"), w("NVIDIA GeForce RTX 4070")];
    assert_eq!(primary_gpu_name(&names), "NVIDIA GeForce RTX 4070");
    assert_eq!(primary_gpu_name(&vec![]), "集成显卡 / Microsoft 基本显示适配器");
    let g = gpu_detail("X");
    assert_eq!(g.name, "X");
    assert_eq!(g.status, "DirectX 12 (FL 12.1) · WDDM 3.1 运行正常");
}

#[test]
fn cores_and_uptime() {
    assert_eq!(estimated_physical_cores(16), 8);
    assert_eq!(estimated_physical_cores(2), 1);
    assert_eq!(estimated_physical_cores(0), 1);
    assert_eq!(format_uptime(90061), "1天 01:01:01");
}

#[test]
fn drive_strings_and_partitions() {
    let mut buf: Vec<u16> = Vec::new();
    buf.extend(w("C:\\"));
    buf.extend(w("D:\\"));
    buf.push(0);
    let len = (buf.len() - 1) as u32;
    let roots = split_drive_strings(&buf, len);
    assert_eq!(roots.len(), 2);
    assert_eq!(String::from_utf16_lossy(&roots[1]), "D:\\");
    assert_eq!(strip_backslashes("C:\\\\"), "C:");
    let sys = DriveReading { root: "C:\\".encode_utf16().collect(), space: Some((250, 1000)), volume_name: w(""), fs_name: w("NTFS") };
    let data = DriveReading { root: "D:\\".encode_utf16().collect(), space: Some((0, 400)), volume_name: w("Data"), fs_name: w("") };
    let gone = DriveReading { root: "E:\\".encode_utf16().collect(), space: None, volume_name: w(""), fs_name: w("") };
    let p = describe_partition(&sys).unwrap();
    assert_eq!(p.letter, "C:");
    assert_eq!(p.label, "系统盘 (C:)");
    assert!(p.is_system_drive);
    assert_eq!(p.used_bytes, 750);
    assert_eq!(p.usage_tenths, 750);
    assert!(describe_partition(&gone).is_none());
    let all = collect_partitions(&vec![sys, gone, data]);
    assert_eq!(all.len(), 2);
    assert_eq!(all[1].label, "Data (D:)");
    assert_eq!(all[1].file_system, "NTFS");
    assert_eq!(all[1].usage_tenths, 1000);
}

#[test]
fn network_speed_from_interface_table() {
    let rows = vec![
        IfRow { if_type: 24, oper_status: 1, in_octets: 999, out_octets: 999, description: w("Loopback"), alias: w("lo") },
        IfRow { if_type: 6, oper_status: 1, in_octets: 3000, out_octets: 1000, description: w("Ethernet"), alias: w("eth") },
        IfRow { if_type: 71, oper_status: 2, in_octets: 5, out_octets: 5, description: w("WiFi"), alias: w("wlan") },
    ];
    let n = query_network_speed(&Ok(rows), Some((1000, 500)), 2_000_000_000, 7);
    assert_eq!(n.adapter_name, "Ethernet");
    assert_eq!(n.total_rx_bytes.value, Some(3000));
    assert_eq!(n.total_tx_bytes.value, Some(1000));
    assert_eq!(n.rx_speed_bps.value, Some(1000));
    assert_eq!(n.tx_speed_bps.value, Some(250));
    assert_eq!(n.rx_speed_bps.quality, MetricQuality::Good);
    let first = network_rate_metric(None, 10, 1, 7);
    assert_eq!(first.value, None);
    assert_eq!(first.quality, MetricQuality::Unsupported);
    let back = network_rate_metric(Some(20), 10, 1, 7);
    assert_eq!(back.quality, MetricQuality::Invalid);
    assert_eq!(back.error, Some("累计计数器回退，无法计算速率".to_string()));
    let failed = query_network_speed(&Err(5), None, 1, 7);
    assert_eq!(failed.adapter_name, "");
    assert_eq!(failed.rx_speed_bps.value, None);
    assert_eq!(failed.total_rx_bytes.error, Some("GetIfTable2 失败，无法读取累计接收字节".to_string()));
}

#[test]
fn performance_figures_and_fallback() {
    let r = PerfReading { process_count: 10, thread_count: 20, handle_count: 30, commit_total: 2, commit_limit: 4, kernel_paged: 1, kernel_nonpaged: 3, page_size: 4096 };
    let f = perf_figures(Some(r), 0, 0);
    assert_eq!(f.committed_bytes, 8192);
    assert_eq!(f.commit_limit_bytes, 16384);
    assert_eq!(f.non_paged_pool_bytes, 12288);
    let d = perf_figures(None, 5, 9);
    assert_eq!(d.process_count, 250);
    assert_eq!(d.thread_count, 3200);
    assert_eq!(d.handle_count, 110000);
    assert_eq!(d.committed_bytes, 5);
    assert_eq!(d.commit_limit_bytes, 9);
    assert_eq!(d.paged_pool_bytes, 600 * 1024 * 1024);
    assert_eq!(d.non_paged_pool_bytes, 400 * 1024 * 1024);
}

#[test]
fn memory_and_trim_figures() {
    let m = memory_figures(16_000_000_000, 8_000_000_000);
    assert_eq!(m.used_ram, 8_000_000_000);
    assert_eq!(m.usage_hundredths, 5000);
    let odd = memory_figures(3, 2);
    assert_eq!(odd.usage_hundredths, 3333);
    assert_eq!(memory_figures(0, 0).usage_hundredths, 0);
    assert_eq!(memory_figures(5, 9).used_ram, 0);
    let outcomes = vec![
        TrimOutcome { pid: 1, trimmed: true },
        TrimOutcome { pid: 2, trimmed: false },
        TrimOutcome { pid: 3, trimmed: true },
    ];
    assert_eq!(count_trimmed(&outcomes), 2);
    let c = clean_figures(1000, 400, 2, true, false);
    assert_eq!(c.freed_bytes, 600);
    assert_eq!(c.standby_freed_bytes, 600);
    assert_eq!(c.clean_mode, "PCL2 深度内核优化 (待机缓存+全工作集)");
    let s = clean_figures(400, 1000, 2, false, false);
    assert_eq!(s.freed_bytes, 0);
    assert_eq!(s.clean_mode, "标准工作集修剪 (以管理员运行可激活内核待机优化)");
}

#[test]
fn shown_cpu_usage_falls_back_to_fifteen_percent() {
    assert_eq!(shown_cpu_usage_tenths(None, (1, 2, 3)), 150);
    assert_eq!(shown_cpu_usage_tenths(Some((0, 0, 0)), (250, 500, 500)), 750);
    assert_eq!(shown_cpu_usage_tenths(Some((9, 9, 9)), (9, 9, 9)), 150);
}
