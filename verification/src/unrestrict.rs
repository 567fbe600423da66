//! Lifting USB-storage and network restrictions: how each check reads what the
//! system reported, what each check and repair step reports back, and how the
//! steps add up to an overview or a report.

use vstd::prelude::*;
use crate::text::{decimal, push_decimal, push_str_chars, str_chars, str_eq, concat_str};
use crate::strs::{contains_seq, contains_chars, lower_seq, lower_chars, str_contains, str_contains_lower, first_in, find_class, trim, trim_bounds, sub_chars, starts_with, starts_with_at, CharClass};

verus! {

/// Outcome of one check or repair step.
#[derive(Clone, Debug)]
pub struct UnrestrictStepResult {
    /// Step id.
    pub id: String,
    /// Step title.
    pub title: String,
    /// `usb` or `network`.
    pub category: String,
    /// `fixed`, `clean`, `warning` or `failed`.
    pub status: String,
    /// What was found or done.
    pub message: String,
    /// Technical details, if any.
    pub details: Option<String>,
}

/// Summary of a run of repair steps.
#[derive(Clone, Debug)]
pub struct UnrestrictReport {
    /// No step failed.
    pub success: bool,
    /// Number of steps.
    pub total_steps: usize,
    /// Steps that lifted a restriction.
    pub fixed_count: usize,
    /// Steps that found nothing to lift.
    pub clean_count: usize,
    /// Steps that failed.
    pub failed_count: usize,
    /// Every step, in order.
    pub steps: Vec<UnrestrictStepResult>,
    /// A restart is needed for network stack resets to take effect.
    pub needs_reboot: bool,
    /// Summary sentence.
    pub message: String,
}

/// Result of the read-only pre-check.
#[derive(Clone, Debug)]
pub struct RestrictionOverview {
    /// Some USB check failed.
    pub usb_restricted: bool,
    /// Some network check failed.
    pub network_restricted: bool,
    /// Number of failed USB checks.
    pub usb_issues_count: usize,
    /// Number of failed network checks.
    pub network_issues_count: usize,
    /// Every check, in order.
    pub details: Vec<UnrestrictStepResult>,
}

/// Number of steps whose status is `st`.
pub open spec fn count_status(steps: Seq<UnrestrictStepResult>, st: Seq<char>) -> nat
    decreases steps.len(),
{
    if steps.len() == 0 {
        0
    } else {
        count_status(steps.drop_last(), st) + if steps.last().status@ == st { 1nat } else { 0nat }
    }
}

/// Number of steps of category `cat` whose status is `st`.
pub open spec fn count_in(steps: Seq<UnrestrictStepResult>, cat: Seq<char>, st: Seq<char>) -> nat
    decreases steps.len(),
{
    if steps.len() == 0 {
        0
    } else {
        count_in(steps.drop_last(), cat, st) + if steps.last().category@ == cat
            && steps.last().status@ == st { 1nat } else { 0nat }
    }
}

pub proof fn lemma_count_status_bound(steps: Seq<UnrestrictStepResult>, st: Seq<char>)
    ensures
        count_status(steps, st) <= steps.len(),
    decreases steps.len(),
{
    if steps.len() > 0 {
        lemma_count_status_bound(steps.drop_last(), st);
    }
}

pub proof fn lemma_count_in_bound(steps: Seq<UnrestrictStepResult>, cat: Seq<char>, st: Seq<char>)
    ensures
        count_in(steps, cat, st) <= steps.len(),
    decreases steps.len(),
{
    if steps.len() > 0 {
        lemma_count_in_bound(steps.drop_last(), cat, st);
    }
}

fn count_steps(steps: &Vec<UnrestrictStepResult>, cat: Option<&str>, st: &str) -> (n: usize)
    ensures
        match cat {
            Some(c) => n == count_in(steps@, c@, st@),
            None => n == count_status(steps@, st@),
        },
{
    let len = steps.len();
    let mut n: usize = 0;
    let mut i: usize = 0;
    while i < len
        invariant
            i <= len == steps@.len(),
            match cat {
                Some(c) => n == count_in(steps@.take(i as int), c@, st@),
                None => n == count_status(steps@.take(i as int), st@),
            },
        decreases len - i,
    {
        proof {
            assert(steps@.take(i + 1).drop_last() =~= steps@.take(i as int));
            lemma_count_status_bound(steps@.take(i as int), st@);
            match cat {
                Some(c) => lemma_count_in_bound(steps@.take(i as int), c@, st@),
                None => {},
            }
        }
        let s = &steps[i];
        let hit = match cat {
            Some(c) => str_eq(s.category.as_str(), c) && str_eq(s.status.as_str(), st),
            None => str_eq(s.status.as_str(), st),
        };
        if hit {
            n = n + 1;
        }
        i += 1;
    }
    assert(steps@.take(len as int) =~= steps@);
    n
}

/// The summary sentence of a report.
pub open spec fn report_message(fixed: nat, clean: nat, failed: nat) -> Seq<char> {
    if failed == 0 {
        if fixed > 0 {
            "已成功完成全量解除！共修复 "@ + decimal(fixed) + " 项限制策略，其余 "@ + decimal(clean)
                + " 项本身处于正常状态。"@
        } else {
            "全盘排查完毕，未检测到任何系统级封锁策略，所有功能均处于正常通行状态。"@
        }
    } else {
        "解除流程已执行，修复了 "@ + decimal(fixed) + " 项限制，但有 "@ + decimal(failed)
            + " 项未能成功处理 (可能缺少管理员提权)。"@
    }
}

/// Adds up repair steps: counts by status, success when none failed, and a
/// restart asked for only where the run allows it and something was fixed.
pub fn build_report(steps: Vec<UnrestrictStepResult>, needs_reboot_flag: bool) -> (r: UnrestrictReport)
    ensures
        r.steps@ == steps@,
        r.total_steps == steps@.len(),
        r.fixed_count == count_status(steps@, "fixed"@),
        r.clean_count == count_status(steps@, "clean"@),
        r.failed_count == count_status(steps@, "failed"@),
        r.success == (r.failed_count == 0),
        r.needs_reboot == (needs_reboot_flag && r.fixed_count > 0),
        r.message@ == report_message(r.fixed_count as nat, r.clean_count as nat, r.failed_count as nat),
{
    let total_steps = steps.len();
    let fixed_count = count_steps(&steps, None, "fixed");
    let clean_count = count_steps(&steps, None, "clean");
    let failed_count = count_steps(&steps, None, "failed");
    let success = failed_count == 0;
    let mut message = String::new();
    if success {
        if fixed_count > 0 {
            push_str_chars(&mut message, "已成功完成全量解除！共修复 ");
            push_decimal(&mut message, fixed_count as u64);
            push_str_chars(&mut message, " 项限制策略，其余 ");
            push_decimal(&mut message, clean_count as u64);
            push_str_chars(&mut message, " 项本身处于正常状态。");
        } else {
            push_str_chars(&mut message, "全盘排查完毕，未检测到任何系统级封锁策略，所有功能均处于正常通行状态。");
        }
    } else {
        push_str_chars(&mut message, "解除流程已执行，修复了 ");
        push_decimal(&mut message, fixed_count as u64);
        push_str_chars(&mut message, " 项限制，但有 ");
        push_decimal(&mut message, failed_count as u64);
        push_str_chars(&mut message, " 项未能成功处理 (可能缺少管理员提权)。");
    }
    UnrestrictReport {
        success,
        total_steps,
        fixed_count,
        clean_count,
        failed_count,
        steps,
        needs_reboot: needs_reboot_flag && fixed_count > 0,
        message,
    }
}

/// Adds up pre-check steps: a category is restricted when one of its checks
/// failed.
pub fn overview_from_steps(steps: Vec<UnrestrictStepResult>) -> (r: RestrictionOverview)
    ensures
        r.details@ == steps@,
        r.usb_issues_count == count_in(steps@, "usb"@, "failed"@),
        r.network_issues_count == count_in(steps@, "network"@, "failed"@),
        r.usb_restricted == (r.usb_issues_count > 0),
        r.network_restricted == (r.network_issues_count > 0),
{
    let usb_issues_count = count_steps(&steps, Some("usb"), "failed");
    let network_issues_count = count_steps(&steps, Some("network"), "failed");
    RestrictionOverview {
        usb_restricted: usb_issues_count > 0,
        network_restricted: network_issues_count > 0,
        usb_issues_count,
        network_issues_count,
        details: steps,
    }
}

} // verus!

verus! {

/// Exit status and captured text of a system command (stdout and stderr,
/// trimmed).
#[derive(Clone, Debug)]
pub struct CommandOutput {
    /// The command ran and exited with success.
    pub ok: bool,
    /// What it printed.
    pub output: String,
}

/// Model of a step result.
pub struct StepSpec {
    pub id: Seq<char>,
    pub title: Seq<char>,
    pub category: Seq<char>,
    pub status: Seq<char>,
    pub message: Seq<char>,
    pub details: Option<Seq<char>>,
}

/// The model of an optional string.
pub open spec fn opt_view(o: Option<String>) -> Option<Seq<char>> {
    match o {
        Some(s) => Some(s@),
        None => None,
    }
}

/// The model of a step result.
pub open spec fn step_view(r: UnrestrictStepResult) -> StepSpec {
    StepSpec {
        id: r.id@,
        title: r.title@,
        category: r.category@,
        status: r.status@,
        message: r.message@,
        details: opt_view(r.details),
    }
}

/// A step model from its parts.
pub open spec fn mk_spec(
    id: Seq<char>,
    title: Seq<char>,
    category: Seq<char>,
    status: Seq<char>,
    message: Seq<char>,
    details: Option<Seq<char>>,
) -> StepSpec {
    StepSpec { id, title, category, status, message, details }
}

fn mk(id: &str, title: &str, category: &str, status: &str, message: String, details: Option<String>) -> (r: UnrestrictStepResult)
    ensures
        step_view(r) == mk_spec(id@, title@, category@, status@, message@, opt_view(details)),
{
    UnrestrictStepResult {
        id: id.to_owned(),
        title: title.to_owned(),
        category: category.to_owned(),
        status: status.to_owned(),
        message,
        details,
    }
}

/// `reg query` output shows a given DWORD, either as lower-cased hex text
/// (`hex`) or after a space (`spaced`).
pub open spec fn reg_dword_is(query: Option<Seq<char>>, hex: Seq<char>, spaced: Seq<char>) -> bool {
    match query {
        Some(q) => contains_seq(lower_seq(q), hex) || contains_seq(q, spaced),
        None => false,
    }
}

/// The `USBSTOR` service is disabled: its `Start` value reads 4.
pub open spec fn usbstor_disabled_spec(query: Option<Seq<char>>) -> bool {
    reg_dword_is(query, "0x4"@, " 4"@)
}

/// Whether a `reg query` of the `USBSTOR` `Start` value shows it disabled.
pub fn usbstor_disabled(query: &Option<String>) -> (b: bool)
    ensures
        b == usbstor_disabled_spec(opt_view(*query)),
{
    match query {
        Some(q) => str_contains_lower(q.as_str(), "0x4") || str_contains(q.as_str(), " 4"),
        None => false,
    }
}

/// A flag value (`WriteProtect`, `ProxyEnable`) is set: it reads 1.
pub open spec fn flag_set_spec(query: Option<Seq<char>>) -> bool {
    match query {
        Some(q) => contains_seq(q, "0x1"@) || contains_seq(q, " 1"@),
        None => false,
    }
}

/// Whether a `reg query` of a flag value shows it set to 1.
pub fn flag_set(query: &Option<String>) -> (b: bool)
    ensures
        b == flag_set_spec(opt_view(*query)),
{
    match query {
        Some(q) => str_contains(q.as_str(), "0x1") || str_contains(q.as_str(), " 1"),
        None => false,
    }
}

/// WinHTTP uses a proxy: `netsh winhttp show proxy` succeeded and reported
/// no direct access, in either language.
pub open spec fn winhttp_restricted_spec(query: CommandOutput) -> bool {
    query.ok && !contains_seq(query.output@, "直接访问"@) && !contains_seq(
        lower_seq(query.output@),
        "direct access"@,
    )
}

/// Whether `netsh winhttp show proxy` shows a proxy in use.
pub fn winhttp_restricted(query: &CommandOutput) -> (b: bool)
    ensures
        b == winhttp_restricted_spec(*query),
{
    query.ok && !str_contains(query.output.as_str(), "直接访问") && !str_contains_lower(
        query.output.as_str(),
        "direct access",
    )
}

} // verus!

verus! {
/// USB storage driver service (`USBSTOR`): disabled when its start type is 4.
pub open spec fn usbstor_service_step_spec(restricted: bool, apply_fix: bool, fix: CommandOutput) -> StepSpec {
    if !restricted {
        mk_spec("usbstor_service"@, "USB 存储服务驱动 (USBSTOR)"@, "usb"@, "clean"@, "USB 存储服务启动模式正常 (未被系统禁用)"@, None)
    } else if !apply_fix {
        mk_spec("usbstor_service"@, "USB 存储服务驱动 (USBSTOR)"@, "usb"@, "failed"@, "检测到 USBSTOR 驱动服务启动项被强制置为禁用 (4)"@, Some("注册表项: "@ + "HKLM\\SYSTEM\\CurrentControlSet\\Services\\USBSTOR"@))
    } else if fix.ok {
        mk_spec("usbstor_service"@, "USB 存储服务驱动 (USBSTOR)"@, "usb"@, "fixed"@, "已成功将 USB 存储驱动服务恢复为按需自启状态 (Start=3)"@, Some(fix.output@))
    } else {
        mk_spec("usbstor_service"@, "USB 存储服务驱动 (USBSTOR)"@, "usb"@, "failed"@, "尝试恢复 USBSTOR 失败，请确保以系统管理员身份运行"@, Some(fix.output@))
    }
}

/// USB storage driver service (`USBSTOR`): disabled when its start type is 4.
pub fn usbstor_service_step(restricted: bool, apply_fix: bool, fix: &CommandOutput) -> (r: UnrestrictStepResult)
    ensures
        step_view(r) == usbstor_service_step_spec(restricted, apply_fix, *fix),
{
    if !restricted {
        mk("usbstor_service", "USB 存储服务驱动 (USBSTOR)", "usb", "clean", "USB 存储服务启动模式正常 (未被系统禁用)".to_owned(), None)
    } else if !apply_fix {
        mk("usbstor_service", "USB 存储服务驱动 (USBSTOR)", "usb", "failed", "检测到 USBSTOR 驱动服务启动项被强制置为禁用 (4)".to_owned(), Some(concat_str("注册表项: ", "HKLM\\SYSTEM\\CurrentControlSet\\Services\\USBSTOR")))
    } else if fix.ok {
        mk("usbstor_service", "USB 存储服务驱动 (USBSTOR)", "usb", "fixed", "已成功将 USB 存储驱动服务恢复为按需自启状态 (Start=3)".to_owned(), Some(fix.output.clone()))
    } else {
        mk("usbstor_service", "USB 存储服务驱动 (USBSTOR)", "usb", "failed", "尝试恢复 USBSTOR 失败，请确保以系统管理员身份运行".to_owned(), Some(fix.output.clone()))
    }
}

/// Global write protection (the `WriteProtect` value of `StorageDevicePolicies`); the repair deletes the value and, where that fails, sets it to 0.
pub open spec fn storage_device_policies_step_spec(restricted: bool, apply_fix: bool, fix: CommandOutput, fallback_ok: bool) -> StepSpec {
    if !restricted {
        mk_spec("storage_device_policies"@, "全局磁盘写保护策略 (WriteProtect)"@, "usb"@, "clean"@, "系统未启用全局磁盘写保护强制限制"@, None)
    } else if !apply_fix {
        mk_spec("storage_device_policies"@, "全局磁盘写保护策略 (WriteProtect)"@, "usb"@, "failed"@, "检测到 StorageDevicePolicies 处于开启状态，U 盘将被强制只读"@, Some("注册表项: "@ + "HKLM\\SYSTEM\\CurrentControlSet\\Control\\StorageDevicePolicies"@))
    } else if fix.ok || fallback_ok {
        mk_spec("storage_device_policies"@, "全局磁盘写保护策略 (WriteProtect)"@, "usb"@, "fixed"@, "已成功解除存储设备全局只读写保护锁定"@, Some(fix.output@))
    } else {
        mk_spec("storage_device_policies"@, "全局磁盘写保护策略 (WriteProtect)"@, "usb"@, "failed"@, "解除写保护策略失败，需要管理员权限"@, Some(fix.output@))
    }
}

/// Global write protection (the `WriteProtect` value of `StorageDevicePolicies`); the repair deletes the value and, where that fails, sets it to 0.
pub fn storage_device_policies_step(restricted: bool, apply_fix: bool, fix: &CommandOutput, fallback_ok: bool) -> (r: UnrestrictStepResult)
    ensures
        step_view(r) == storage_device_policies_step_spec(restricted, apply_fix, *fix, fallback_ok),
{
    if !restricted {
        mk("storage_device_policies", "全局磁盘写保护策略 (WriteProtect)", "usb", "clean", "系统未启用全局磁盘写保护强制限制".to_owned(), None)
    } else if !apply_fix {
        mk("storage_device_policies", "全局磁盘写保护策略 (WriteProtect)", "usb", "failed", "检测到 StorageDevicePolicies 处于开启状态，U 盘将被强制只读".to_owned(), Some(concat_str("注册表项: ", "HKLM\\SYSTEM\\CurrentControlSet\\Control\\StorageDevicePolicies")))
    } else if fix.ok || fallback_ok {
        mk("storage_device_policies", "全局磁盘写保护策略 (WriteProtect)", "usb", "fixed", "已成功解除存储设备全局只读写保护锁定".to_owned(), Some(fix.output.clone()))
    } else {
        mk("storage_device_policies", "全局磁盘写保护策略 (WriteProtect)", "usb", "failed", "解除写保护策略失败，需要管理员权限".to_owned(), Some(fix.output.clone()))
    }
}

/// Policy that blocks installing drivers for new devices.
pub open spec fn device_install_step_spec(present: bool, apply_fix: bool, fix: CommandOutput) -> StepSpec {
    if !present {
        mk_spec("device_install_restrictions"@, "新硬件驱动安装限制 (DeviceInstall)"@, "usb"@, "clean"@, "未发现限制新硬件驱动自动安装的策略"@, None)
    } else if !apply_fix {
        mk_spec("device_install_restrictions"@, "新硬件驱动安装限制 (DeviceInstall)"@, "usb"@, "failed"@, "检测到驱动安装拦截策略，插入全新 U 盘可能无法正常识别硬件"@, Some("注册表项: "@ + "HKLM\\SOFTWARE\\Policies\\Microsoft\\Windows\\DeviceInstall\\Restrictions"@))
    } else if fix.ok {
        mk_spec("device_install_restrictions"@, "新硬件驱动安装限制 (DeviceInstall)"@, "usb"@, "fixed"@, "已彻底清除硬件驱动安装限制策略树，新硬件可自由加载驱动"@, Some(fix.output@))
    } else {
        mk_spec("device_install_restrictions"@, "新硬件驱动安装限制 (DeviceInstall)"@, "usb"@, "failed"@, "清除驱动安装限制策略树失败"@, Some(fix.output@))
    }
}

/// Policy that blocks installing drivers for new devices.
pub fn device_install_step(present: bool, apply_fix: bool, fix: &CommandOutput) -> (r: UnrestrictStepResult)
    ensures
        step_view(r) == device_install_step_spec(present, apply_fix, *fix),
{
    if !present {
        mk("device_install_restrictions", "新硬件驱动安装限制 (DeviceInstall)", "usb", "clean", "未发现限制新硬件驱动自动安装的策略".to_owned(), None)
    } else if !apply_fix {
        mk("device_install_restrictions", "新硬件驱动安装限制 (DeviceInstall)", "usb", "failed", "检测到驱动安装拦截策略，插入全新 U 盘可能无法正常识别硬件".to_owned(), Some(concat_str("注册表项: ", "HKLM\\SOFTWARE\\Policies\\Microsoft\\Windows\\DeviceInstall\\Restrictions")))
    } else if fix.ok {
        mk("device_install_restrictions", "新硬件驱动安装限制 (DeviceInstall)", "usb", "fixed", "已彻底清除硬件驱动安装限制策略树，新硬件可自由加载驱动".to_owned(), Some(fix.output.clone()))
    } else {
        mk("device_install_restrictions", "新硬件驱动安装限制 (DeviceInstall)", "usb", "failed", "清除驱动安装限制策略树失败".to_owned(), Some(fix.output.clone()))
    }
}

/// Explorer policies that hide drives or refuse opening them (`NoViewOnDrive`, `NoDrives`).
pub open spec fn explorer_drive_step_spec(restricted: bool, apply_fix: bool) -> StepSpec {
    if !restricted {
        mk_spec("explorer_drive_restrictions"@, "资源管理器盘符访问权限策略 (NoViewOnDrive)"@, "usb"@, "clean"@, "资源管理器未配置 NoViewOnDrive 或 NoDrives 访问阻断策略"@, None)
    } else if !apply_fix {
        mk_spec("explorer_drive_restrictions"@, "资源管理器盘符访问权限策略 (NoViewOnDrive)"@, "usb"@, "failed"@, "检测到 NoViewOnDrive 策略存在，会导致双击 U 盘时弹窗提示无法访问！"@, Some("涉及策略: NoViewOnDrive / NoDrives"@))
    } else {
        mk_spec("explorer_drive_restrictions"@, "资源管理器盘符访问权限策略 (NoViewOnDrive)"@, "usb"@, "fixed"@, "已成功清除 NoViewOnDrive 和 NoDrives 盘符访问限制，恢复双击打开权限"@, None)
    }
}

/// Explorer policies that hide drives or refuse opening them (`NoViewOnDrive`, `NoDrives`).
pub fn explorer_drive_step(restricted: bool, apply_fix: bool) -> (r: UnrestrictStepResult)
    ensures
        step_view(r) == explorer_drive_step_spec(restricted, apply_fix),
{
    if !restricted {
        mk("explorer_drive_restrictions", "资源管理器盘符访问权限策略 (NoViewOnDrive)", "usb", "clean", "资源管理器未配置 NoViewOnDrive 或 NoDrives 访问阻断策略".to_owned(), None)
    } else if !apply_fix {
        mk("explorer_drive_restrictions", "资源管理器盘符访问权限策略 (NoViewOnDrive)", "usb", "failed", "检测到 NoViewOnDrive 策略存在，会导致双击 U 盘时弹窗提示无法访问！".to_owned(), Some("涉及策略: NoViewOnDrive / NoDrives".to_owned()))
    } else {
        mk("explorer_drive_restrictions", "资源管理器盘符访问权限策略 (NoViewOnDrive)", "usb", "fixed", "已成功清除 NoViewOnDrive 和 NoDrives 盘符访问限制，恢复双击打开权限".to_owned(), None)
    }
}

/// Explorer's `MountPoints2` cache; never counted as a restriction, reset by the repair.
pub open spec fn mountpoints2_step_spec(present: bool, apply_fix: bool, fix: CommandOutput) -> StepSpec {
    if !present {
        mk_spec("mountpoints2_cache"@, "驱动器挂载点与 Shell 动作缓存 (MountPoints2)"@, "usb"@, "clean"@, "挂载点缓存无异常"@, None)
    } else if !apply_fix {
        mk_spec("mountpoints2_cache"@, "驱动器挂载点与 Shell 动作缓存 (MountPoints2)"@, "usb"@, "clean"@, "已就绪，一键解除时将自动重置损坏的挂载点残留指令"@, None)
    } else if fix.ok {
        mk_spec("mountpoints2_cache"@, "驱动器挂载点与 Shell 动作缓存 (MountPoints2)"@, "usb"@, "fixed"@, "已重置资源管理器 MountPoints2 挂载点缓存，消除 autorun 劫持或双击无响应"@, Some(fix.output@))
    } else {
        mk_spec("mountpoints2_cache"@, "驱动器挂载点与 Shell 动作缓存 (MountPoints2)"@, "usb"@, "warning"@, "部分挂载点缓存正在被 Explorer 占用，建议解除后重启资源管理器"@, Some(fix.output@))
    }
}

/// Explorer's `MountPoints2` cache; never counted as a restriction, reset by the repair.
pub fn mountpoints2_step(present: bool, apply_fix: bool, fix: &CommandOutput) -> (r: UnrestrictStepResult)
    ensures
        step_view(r) == mountpoints2_step_spec(present, apply_fix, *fix),
{
    if !present {
        mk("mountpoints2_cache", "驱动器挂载点与 Shell 动作缓存 (MountPoints2)", "usb", "clean", "挂载点缓存无异常".to_owned(), None)
    } else if !apply_fix {
        mk("mountpoints2_cache", "驱动器挂载点与 Shell 动作缓存 (MountPoints2)", "usb", "clean", "已就绪，一键解除时将自动重置损坏的挂载点残留指令".to_owned(), None)
    } else if fix.ok {
        mk("mountpoints2_cache", "驱动器挂载点与 Shell 动作缓存 (MountPoints2)", "usb", "fixed", "已重置资源管理器 MountPoints2 挂载点缓存，消除 autorun 劫持或双击无响应".to_owned(), Some(fix.output.clone()))
    } else {
        mk("mountpoints2_cache", "驱动器挂载点与 Shell 动作缓存 (MountPoints2)", "usb", "warning", "部分挂载点缓存正在被 Explorer 占用，建议解除后重启资源管理器".to_owned(), Some(fix.output.clone()))
    }
}

/// Automatic mounting of new volumes (`mountvol /e`).
pub open spec fn disk_automount_step_spec(apply_fix: bool, fix: CommandOutput) -> StepSpec {
    if !apply_fix {
        mk_spec("disk_automount"@, "新卷自动装入机制 (mountvol / automount)"@, "usb"@, "clean"@, "卷装载管理器处于正常响应状态"@, None)
    } else if fix.ok {
        mk_spec("disk_automount"@, "新卷自动装入机制 (mountvol / automount)"@, "usb"@, "fixed"@, "已重新启用新基本卷自动装入机制 (mountvol /e)"@, Some(fix.output@))
    } else {
        mk_spec("disk_automount"@, "新卷自动装入机制 (mountvol / automount)"@, "usb"@, "warning"@, "配置自动装载命令已执行"@, Some(fix.output@))
    }
}

/// Automatic mounting of new volumes (`mountvol /e`).
pub fn disk_automount_step(apply_fix: bool, fix: &CommandOutput) -> (r: UnrestrictStepResult)
    ensures
        step_view(r) == disk_automount_step_spec(apply_fix, *fix),
{
    if !apply_fix {
        mk("disk_automount", "新卷自动装入机制 (mountvol / automount)", "usb", "clean", "卷装载管理器处于正常响应状态".to_owned(), None)
    } else if fix.ok {
        mk("disk_automount", "新卷自动装入机制 (mountvol / automount)", "usb", "fixed", "已重新启用新基本卷自动装入机制 (mountvol /e)".to_owned(), Some(fix.output.clone()))
    } else {
        mk("disk_automount", "新卷自动装入机制 (mountvol / automount)", "usb", "warning", "配置自动装载命令已执行".to_owned(), Some(fix.output.clone()))
    }
}

/// Plug-and-play rescan (`pnputil /scan-devices`).
pub open spec fn pnp_rescan_step_spec(apply_fix: bool, fix: CommandOutput) -> StepSpec {
    if !apply_fix {
        mk_spec("pnp_rescan"@, "硬件即插即用重新枚举 (PnP Rescan)"@, "usb"@, "clean"@, "设备总线就绪"@, None)
    } else if fix.ok {
        mk_spec("pnp_rescan"@, "硬件即插即用重新枚举 (PnP Rescan)"@, "usb"@, "fixed"@, "已触发 Windows 即插即用硬件总线全盘重新扫描，已挂起设备已刷新联机"@, Some(fix.output@))
    } else {
        mk_spec("pnp_rescan"@, "硬件即插即用重新枚举 (PnP Rescan)"@, "usb"@, "clean"@, "硬件重新扫描指令已发送"@, Some(fix.output@))
    }
}

/// Plug-and-play rescan (`pnputil /scan-devices`).
pub fn pnp_rescan_step(apply_fix: bool, fix: &CommandOutput) -> (r: UnrestrictStepResult)
    ensures
        step_view(r) == pnp_rescan_step_spec(apply_fix, *fix),
{
    if !apply_fix {
        mk("pnp_rescan", "硬件即插即用重新枚举 (PnP Rescan)", "usb", "clean", "设备总线就绪".to_owned(), None)
    } else if fix.ok {
        mk("pnp_rescan", "硬件即插即用重新枚举 (PnP Rescan)", "usb", "fixed", "已触发 Windows 即插即用硬件总线全盘重新扫描，已挂起设备已刷新联机".to_owned(), Some(fix.output.clone()))
    } else {
        mk("pnp_rescan", "硬件即插即用重新枚举 (PnP Rescan)", "usb", "clean", "硬件重新扫描指令已发送".to_owned(), Some(fix.output.clone()))
    }
}

/// System proxy or PAC script forced on for the user.
pub open spec fn system_proxy_step_spec(restricted: bool, apply_fix: bool) -> StepSpec {
    if !restricted {
        mk_spec("system_proxy"@, "系统级网络代理与 PAC 脚本"@, "network"@, "clean"@, "系统代理处于关闭状态，直连网络正常"@, None)
    } else if !apply_fix {
        mk_spec("system_proxy"@, "系统级网络代理与 PAC 脚本"@, "network"@, "failed"@, "检测到系统强制开启了代理服务器或自动 PAC 脚本，可能导致断网或流量劫持"@, Some("注册表位置: "@ + "HKCU\\Software\\Microsoft\\Windows\\CurrentVersion\\Internet Settings"@))
    } else {
        mk_spec("system_proxy"@, "系统级网络代理与 PAC 脚本"@, "network"@, "fixed"@, "已完全关闭系统级代理服务器并清除自动 PAC 脚本配置，恢复直连网络"@, None)
    }
}

/// System proxy or PAC script forced on for the user.
pub fn system_proxy_step(restricted: bool, apply_fix: bool) -> (r: UnrestrictStepResult)
    ensures
        step_view(r) == system_proxy_step_spec(restricted, apply_fix),
{
    if !restricted {
        mk("system_proxy", "系统级网络代理与 PAC 脚本", "network", "clean", "系统代理处于关闭状态，直连网络正常".to_owned(), None)
    } else if !apply_fix {
        mk("system_proxy", "系统级网络代理与 PAC 脚本", "network", "failed", "检测到系统强制开启了代理服务器或自动 PAC 脚本，可能导致断网或流量劫持".to_owned(), Some(concat_str("注册表位置: ", "HKCU\\Software\\Microsoft\\Windows\\CurrentVersion\\Internet Settings")))
    } else {
        mk("system_proxy", "系统级网络代理与 PAC 脚本", "network", "fixed", "已完全关闭系统级代理服务器并清除自动 PAC 脚本配置，恢复直连网络".to_owned(), None)
    }
}

/// WinHTTP proxy; restricted when `netsh winhttp show proxy` succeeds without reporting direct access.
pub open spec fn winhttp_proxy_step_spec(query: CommandOutput, apply_fix: bool, fix: CommandOutput) -> StepSpec {
    if !winhttp_restricted_spec(query) {
        mk_spec("winhttp_proxy"@, "WinHTTP 基础底层网络代理"@, "network"@, "clean"@, "WinHTTP 底层服务代理为直接访问 (DIRECT)"@, None)
    } else if !apply_fix {
        mk_spec("winhttp_proxy"@, "WinHTTP 基础底层网络代理"@, "network"@, "failed"@, "检测到 WinHTTP 底层存在代理拦截规则，部分系统服务与无界面应用可能无法联网"@, Some(query.output@))
    } else if fix.ok {
        mk_spec("winhttp_proxy"@, "WinHTTP 基础底层网络代理"@, "network"@, "fixed"@, "已成功重置 WinHTTP 代理为默认直接连接 (Direct Access)"@, Some(fix.output@))
    } else {
        mk_spec("winhttp_proxy"@, "WinHTTP 基础底层网络代理"@, "network"@, "failed"@, "重置 WinHTTP 代理失败"@, Some(fix.output@))
    }
}

/// WinHTTP proxy; restricted when `netsh winhttp show proxy` succeeds without reporting direct access.
pub fn winhttp_proxy_step(query: &CommandOutput, apply_fix: bool, fix: &CommandOutput) -> (r: UnrestrictStepResult)
    ensures
        step_view(r) == winhttp_proxy_step_spec(*query, apply_fix, *fix),
{
    if !winhttp_restricted(query) {
        mk("winhttp_proxy", "WinHTTP 基础底层网络代理", "network", "clean", "WinHTTP 底层服务代理为直接访问 (DIRECT)".to_owned(), None)
    } else if !apply_fix {
        mk("winhttp_proxy", "WinHTTP 基础底层网络代理", "network", "failed", "检测到 WinHTTP 底层存在代理拦截规则，部分系统服务与无界面应用可能无法联网".to_owned(), Some(query.output.clone()))
    } else if fix.ok {
        mk("winhttp_proxy", "WinHTTP 基础底层网络代理", "network", "fixed", "已成功重置 WinHTTP 代理为默认直接连接 (Direct Access)".to_owned(), Some(fix.output.clone()))
    } else {
        mk("winhttp_proxy", "WinHTTP 基础底层网络代理", "network", "failed", "重置 WinHTTP 代理失败".to_owned(), Some(fix.output.clone()))
    }
}

/// Winsock catalog reset (`netsh winsock reset`).
pub open spec fn winsock_step_spec(apply_fix: bool, fix: CommandOutput) -> StepSpec {
    if !apply_fix {
        mk_spec("winsock_catalog"@, "Winsock 目录与网络协议套接字"@, "network"@, "clean"@, "网络协议栈就绪"@, None)
    } else if fix.ok {
        mk_spec("winsock_catalog"@, "Winsock 目录与网络协议套接字"@, "network"@, "fixed"@, "已成功重置 Winsock 目录，清除第三方网络劫持与 LSP 驱动损坏 (需重启系统生效)"@, Some(fix.output@))
    } else {
        mk_spec("winsock_catalog"@, "Winsock 目录与网络协议套接字"@, "network"@, "failed"@, "重置 Winsock 失败，需要系统管理员权限"@, Some(fix.output@))
    }
}

/// Winsock catalog reset (`netsh winsock reset`).
pub fn winsock_step(apply_fix: bool, fix: &CommandOutput) -> (r: UnrestrictStepResult)
    ensures
        step_view(r) == winsock_step_spec(apply_fix, *fix),
{
    if !apply_fix {
        mk("winsock_catalog", "Winsock 目录与网络协议套接字", "network", "clean", "网络协议栈就绪".to_owned(), None)
    } else if fix.ok {
        mk("winsock_catalog", "Winsock 目录与网络协议套接字", "network", "fixed", "已成功重置 Winsock 目录，清除第三方网络劫持与 LSP 驱动损坏 (需重启系统生效)".to_owned(), Some(fix.output.clone()))
    } else {
        mk("winsock_catalog", "Winsock 目录与网络协议套接字", "network", "failed", "重置 Winsock 失败，需要系统管理员权限".to_owned(), Some(fix.output.clone()))
    }
}

/// TCP/IP stack reset (`netsh int ip reset`).
pub open spec fn tcpip_step_spec(apply_fix: bool, fix: CommandOutput) -> StepSpec {
    if !apply_fix {
        mk_spec("tcpip_stack"@, "TCP/IP 底层传输协议栈"@, "network"@, "clean"@, "传输层配置就绪"@, None)
    } else if fix.ok {
        mk_spec("tcpip_stack"@, "TCP/IP 底层传输协议栈"@, "network"@, "fixed"@, "已成功重置 TCP/IP 核心网络堆栈 (需重启系统彻底生效)"@, Some(fix.output@))
    } else {
        mk_spec("tcpip_stack"@, "TCP/IP 底层传输协议栈"@, "network"@, "warning"@, "TCP/IP 重置指令已执行，部分注册表分支受系统保护"@, Some(fix.output@))
    }
}

/// TCP/IP stack reset (`netsh int ip reset`).
pub fn tcpip_step(apply_fix: bool, fix: &CommandOutput) -> (r: UnrestrictStepResult)
    ensures
        step_view(r) == tcpip_step_spec(apply_fix, *fix),
{
    if !apply_fix {
        mk("tcpip_stack", "TCP/IP 底层传输协议栈", "network", "clean", "传输层配置就绪".to_owned(), None)
    } else if fix.ok {
        mk("tcpip_stack", "TCP/IP 底层传输协议栈", "network", "fixed", "已成功重置 TCP/IP 核心网络堆栈 (需重启系统彻底生效)".to_owned(), Some(fix.output.clone()))
    } else {
        mk("tcpip_stack", "TCP/IP 底层传输协议栈", "network", "warning", "TCP/IP 重置指令已执行，部分注册表分支受系统保护".to_owned(), Some(fix.output.clone()))
    }
}

/// DNS resolver cache flush (`ipconfig /flushdns`).
pub open spec fn dns_cache_step_spec(apply_fix: bool, fix: CommandOutput) -> StepSpec {
    if !apply_fix {
        mk_spec("dns_cache"@, "本地 DNS 解析缓存 (DNS Resolver Cache)"@, "network"@, "clean"@, "DNS 服务运行中"@, None)
    } else if fix.ok {
        mk_spec("dns_cache"@, "本地 DNS 解析缓存 (DNS Resolver Cache)"@, "network"@, "fixed"@, "已完全清空本地 DNS 解析缓存，消除过期或污染的解析记录"@, Some(fix.output@))
    } else {
        mk_spec("dns_cache"@, "本地 DNS 解析缓存 (DNS Resolver Cache)"@, "network"@, "clean"@, "DNS 刷新命令已执行"@, Some(fix.output@))
    }
}

/// DNS resolver cache flush (`ipconfig /flushdns`).
pub fn dns_cache_step(apply_fix: bool, fix: &CommandOutput) -> (r: UnrestrictStepResult)
    ensures
        step_view(r) == dns_cache_step_spec(apply_fix, *fix),
{
    if !apply_fix {
        mk("dns_cache", "本地 DNS 解析缓存 (DNS Resolver Cache)", "network", "clean", "DNS 服务运行中".to_owned(), None)
    } else if fix.ok {
        mk("dns_cache", "本地 DNS 解析缓存 (DNS Resolver Cache)", "network", "fixed", "已完全清空本地 DNS 解析缓存，消除过期或污染的解析记录".to_owned(), Some(fix.output.clone()))
    } else {
        mk("dns_cache", "本地 DNS 解析缓存 (DNS Resolver Cache)", "network", "clean", "DNS 刷新命令已执行".to_owned(), Some(fix.output.clone()))
    }
}

/// Firewall reset to defaults (`netsh advfirewall reset`).
pub open spec fn firewall_step_spec(apply_fix: bool, fix: CommandOutput) -> StepSpec {
    if !apply_fix {
        mk_spec("firewall_rules"@, "Windows 高级安全防火墙策略"@, "network"@, "clean"@, "防火墙运行中"@, None)
    } else if fix.ok {
        mk_spec("firewall_rules"@, "Windows 高级安全防火墙策略"@, "network"@, "fixed"@, "已恢复 Windows 防火墙出厂默认策略，清除所有恶意的出站/入站端口与程序封锁"@, Some(fix.output@))
    } else {
        mk_spec("firewall_rules"@, "Windows 高级安全防火墙策略"@, "network"@, "failed"@, "重置防火墙失败，需要管理员权限"@, Some(fix.output@))
    }
}

/// Firewall reset to defaults (`netsh advfirewall reset`).
pub fn firewall_step(apply_fix: bool, fix: &CommandOutput) -> (r: UnrestrictStepResult)
    ensures
        step_view(r) == firewall_step_spec(apply_fix, *fix),
{
    if !apply_fix {
        mk("firewall_rules", "Windows 高级安全防火墙策略", "network", "clean", "防火墙运行中".to_owned(), None)
    } else if fix.ok {
        mk("firewall_rules", "Windows 高级安全防火墙策略", "network", "fixed", "已恢复 Windows 防火墙出厂默认策略，清除所有恶意的出站/入站端口与程序封锁".to_owned(), Some(fix.output.clone()))
    } else {
        mk("firewall_rules", "Windows 高级安全防火墙策略", "network", "failed", "重置防火墙失败，需要管理员权限".to_owned(), Some(fix.output.clone()))
    }
}

/// Network-connection policies and disabled adapters; the repair removes the policies and enables every disabled adapter.
pub open spec fn network_adapters_step_spec(policy_present: bool, apply_fix: bool, fix: CommandOutput) -> StepSpec {
    if !apply_fix && policy_present {
        mk_spec("network_adapters"@, "网卡硬件与网络连接策略"@, "network"@, "failed"@, "检测到网络连接策略组存在限制项"@, Some("注册表项: "@ + "HKLM\\SOFTWARE\\Policies\\Microsoft\\Windows\\Network Connections"@))
    } else if !apply_fix {
        mk_spec("network_adapters"@, "网卡硬件与网络连接策略"@, "network"@, "clean"@, "网络连接策略正常"@, None)
    } else if fix.ok {
        mk_spec("network_adapters"@, "网卡硬件与网络连接策略"@, "network"@, "fixed"@, "已清除网络连接策略限制，并自动扫描唤醒所有被禁用的物理与无线网卡适配器"@, Some(fix.output@))
    } else {
        mk_spec("network_adapters"@, "网卡硬件与网络连接策略"@, "network"@, "warning"@, "已清除网络连接策略限制，并自动扫描唤醒所有被禁用的物理与无线网卡适配器"@, Some(fix.output@))
    }
}

/// Network-connection policies and disabled adapters; the repair removes the policies and enables every disabled adapter.
pub fn network_adapters_step(policy_present: bool, apply_fix: bool, fix: &CommandOutput) -> (r: UnrestrictStepResult)
    ensures
        step_view(r) == network_adapters_step_spec(policy_present, apply_fix, *fix),
{
    if !apply_fix && policy_present {
        mk("network_adapters", "网卡硬件与网络连接策略", "network", "failed", "检测到网络连接策略组存在限制项".to_owned(), Some(concat_str("注册表项: ", "HKLM\\SOFTWARE\\Policies\\Microsoft\\Windows\\Network Connections")))
    } else if !apply_fix {
        mk("network_adapters", "网卡硬件与网络连接策略", "network", "clean", "网络连接策略正常".to_owned(), None)
    } else if fix.ok {
        mk("network_adapters", "网卡硬件与网络连接策略", "network", "fixed", "已清除网络连接策略限制，并自动扫描唤醒所有被禁用的物理与无线网卡适配器".to_owned(), Some(fix.output.clone()))
    } else {
        mk("network_adapters", "网卡硬件与网络连接策略", "network", "warning", "已清除网络连接策略限制，并自动扫描唤醒所有被禁用的物理与无线网卡适配器".to_owned(), Some(fix.output.clone()))
    }
}

} // verus!

verus! {

/// `parts` joined with `sep` between neighbours.
pub open spec fn join_spec(parts: Seq<Seq<char>>, sep: Seq<char>) -> Seq<char>
    decreases parts.len(),
{
    if parts.len() == 0 {
        Seq::empty()
    } else if parts.len() == 1 {
        parts[0]
    } else {
        join_spec(parts.drop_last(), sep) + sep + parts.last()
    }
}

/// The models of a list of strings.
pub open spec fn strings_view(v: Seq<String>) -> Seq<Seq<char>> {
    Seq::new(v.len(), |i: int| v[i]@)
}

/// `parts` joined with `sep`.
pub fn join_strings(parts: &Vec<String>, sep: &str) -> (r: String)
    ensures
        r@ == join_spec(strings_view(parts@), sep@),
{
    let n = parts.len();
    let mut r = String::new();
    let mut i: usize = 0;
    while i < n
        invariant
            i <= n == parts@.len(),
            r@ == join_spec(strings_view(parts@.take(i as int)), sep@),
        decreases n - i,
    {
        let ghost before = strings_view(parts@.take(i as int));
        if i > 0 {
            push_str_chars(&mut r, sep);
        }
        push_str_chars(&mut r, parts[i].as_str());
        proof {
            let next = strings_view(parts@.take(i + 1));
            assert(next.drop_last() =~= before);
            assert(next.last() == parts@[i as int]@);
            if i == 0 {
                assert(next.len() == 1);
                assert(r@ =~= next[0]);
            }
        }
        i += 1;
    }
    assert(parts@.take(n as int) =~= parts@);
    r
}

/// Notes of the repair of the removable-storage policies: one per policy
/// tree that was present, in machine-then-user order.
pub open spec fn removable_notes(
    hklm: bool,
    hkcu: bool,
    fix_hklm: CommandOutput,
    fix_hkcu: CommandOutput,
) -> Seq<Seq<char>> {
    (if hklm {
        seq![
            if fix_hklm.ok {
                "已彻底清理计算机级可移动设备读写拦截策略树"@
            } else {
                "清理计算机级策略失败: "@ + fix_hklm.output@
            },
        ]
    } else {
        Seq::empty()
    }) + (if hkcu {
        seq![
            if fix_hkcu.ok {
                "已彻底清理当前用户级可移动设备拦截策略树"@
            } else {
                "清理用户级策略失败: "@ + fix_hkcu.output@
            },
        ]
    } else {
        Seq::empty()
    })
}

/// Group-policy blocks on removable storage, per machine (`hklm`) and per
/// user (`hkcu`); the repair deletes each policy tree that is present.
pub open spec fn removable_storage_step_spec(
    hklm: bool,
    hkcu: bool,
    apply_fix: bool,
    fix_hklm: CommandOutput,
    fix_hkcu: CommandOutput,
) -> StepSpec {
    let id = "removable_storage_policy"@;
    let title = "可移动存储组策略封锁 (RemovableStorageDevices)"@;
    if !hklm && !hkcu {
        mk_spec(id, title, "usb"@, "clean"@, "未发现可移动介质组策略读写封锁项"@, None)
    } else if !apply_fix {
        mk_spec(id, title, "usb"@, "failed"@, "检测到组策略中存在针对可移动磁盘设备的读写禁止策略"@,
            Some("涉及策略项: HKLM/HKCU 下的 RemovableStorageDevices"@))
    } else {
        mk_spec(id, title, "usb"@, "fixed"@,
            "已全量清除组策略针对 U 盘/移动介质的所有 Deny_All/Deny_Read/Deny_Write 封锁"@,
            Some(join_spec(removable_notes(hklm, hkcu, fix_hklm, fix_hkcu), "；"@)))
    }
}

/// Group-policy blocks on removable storage (see [`removable_storage_step_spec`]).
pub fn removable_storage_step(
    hklm: bool,
    hkcu: bool,
    apply_fix: bool,
    fix_hklm: &CommandOutput,
    fix_hkcu: &CommandOutput,
) -> (r: UnrestrictStepResult)
    ensures
        step_view(r) == removable_storage_step_spec(hklm, hkcu, apply_fix, *fix_hklm, *fix_hkcu),
{
    let id = "removable_storage_policy";
    let title = "可移动存储组策略封锁 (RemovableStorageDevices)";
    if !hklm && !hkcu {
        return mk(id, title, "usb", "clean", "未发现可移动介质组策略读写封锁项".to_owned(), None);
    }
    if !apply_fix {
        return mk(id, title, "usb", "failed", "检测到组策略中存在针对可移动磁盘设备的读写禁止策略".to_owned(),
            Some("涉及策略项: HKLM/HKCU 下的 RemovableStorageDevices".to_owned()));
    }
    let mut notes: Vec<String> = Vec::new();
    if hklm {
        if fix_hklm.ok {
            notes.push("已彻底清理计算机级可移动设备读写拦截策略树".to_owned());
        } else {
            notes.push(concat_str("清理计算机级策略失败: ", fix_hklm.output.as_str()));
        }
    }
    if hkcu {
        if fix_hkcu.ok {
            notes.push("已彻底清理当前用户级可移动设备拦截策略树".to_owned());
        } else {
            notes.push(concat_str("清理用户级策略失败: ", fix_hkcu.output.as_str()));
        }
    }
    assert(strings_view(notes@) =~= removable_notes(hklm, hkcu, *fix_hklm, *fix_hkcu));
    let joined = join_strings(&notes, "；");
    mk(id, title, "usb", "fixed",
        "已全量清除组策略针对 U 盘/移动介质的所有 Deny_All/Deny_Read/Deny_Write 封锁".to_owned(),
        Some(joined))
}

} // verus!

verus! {

/// Outcome of granting access on one removable drive root: first to
/// `Everyone`, then, where that failed, to `Users`.
#[derive(Clone, Debug)]
pub struct RootGrant {
    /// Drive root such as `E:\`.
    pub root: String,
    /// `icacls <root> /grant Everyone:(OI)(CI)F` succeeded.
    pub everyone_ok: bool,
    /// `icacls <root> /grant Users:(OI)(CI)F` succeeded (tried only after the first failed).
    pub users_ok: bool,
}

/// Roots whose grant succeeded (`ok`) or failed (`!ok`), in order.
pub open spec fn grant_roots(grants: Seq<RootGrant>, ok: bool) -> Seq<Seq<char>>
    decreases grants.len(),
{
    if grants.len() == 0 {
        Seq::empty()
    } else {
        let prev = grant_roots(grants.drop_last(), ok);
        let g = grants.last();
        if (g.everyone_ok || g.users_ok) == ok {
            prev.push(g.root@)
        } else {
            prev
        }
    }
}

/// Title of the removable-root access check.
pub open spec fn acl_title() -> Seq<char> {
    "可移动卷根目录访问权限 (ACL/Everyone 授权)"@
}

/// The check of access rights on mounted removable drives.
pub open spec fn removable_acl_check_spec(roots: Seq<Seq<char>>) -> StepSpec {
    if roots.len() == 0 {
        mk_spec("removable_volume_acls"@, acl_title(), "usb"@, "clean"@,
            "当前系统暂未检测到插入的物理 U 盘设备 (已挂载 0 个可移动盘符)"@, None)
    } else {
        mk_spec("removable_volume_acls"@, acl_title(), "usb"@, "clean"@,
            "检测到已插入 U 盘设备: ["@ + join_spec(roots, ", "@) + "]，一键解除时将自动修复根权限"@, None)
    }
}

/// The repair of access rights on mounted removable drives.
pub open spec fn removable_acl_repair_spec(grants: Seq<RootGrant>) -> StepSpec {
    let good = join_spec(grant_roots(grants, true), ", "@);
    let bad = grant_roots(grants, false);
    if grants.len() == 0 {
        mk_spec("removable_volume_acls"@, acl_title(), "usb"@, "clean"@,
            "当前系统暂未检测到插入的物理 U 盘设备 (已挂载 0 个可移动盘符)"@, None)
    } else if bad.len() > 0 {
        mk_spec("removable_volume_acls"@, acl_title(), "usb"@, "warning"@,
            "已修复盘符 ["@ + good + "] 的访问权限，但盘符 ["@ + join_spec(bad, ", "@)
                + "] 响应异常 (可能为写保护硬件锁或需格式化)"@, None)
    } else {
        mk_spec("removable_volume_acls"@, acl_title(), "usb"@, "fixed"@,
            "已为当前 U 盘盘符 ["@ + good + "] 授予完整 Everyone/Users 读写与执行权限，彻底解决双击拒绝访问"@, None)
    }
}

/// Pre-check of access rights on the mounted removable drives `roots`.
pub fn removable_acl_check(roots: &Vec<String>) -> (r: UnrestrictStepResult)
    ensures
        step_view(r) == removable_acl_check_spec(strings_view(roots@)),
{
    if roots.len() == 0 {
        return mk("removable_volume_acls", "可移动卷根目录访问权限 (ACL/Everyone 授权)", "usb", "clean",
            "当前系统暂未检测到插入的物理 U 盘设备 (已挂载 0 个可移动盘符)".to_owned(), None);
    }
    let mut msg = "检测到已插入 U 盘设备: [".to_owned();
    let joined = join_strings(roots, ", ");
    push_str_chars(&mut msg, joined.as_str());
    push_str_chars(&mut msg, "]，一键解除时将自动修复根权限");
    mk("removable_volume_acls", "可移动卷根目录访问权限 (ACL/Everyone 授权)", "usb", "clean", msg, None)
}

/// Repair of access rights from the grant outcome on each removable root.
pub fn removable_acl_repair(grants: &Vec<RootGrant>) -> (r: UnrestrictStepResult)
    ensures
        step_view(r) == removable_acl_repair_spec(grants@),
{
    let n = grants.len();
    if n == 0 {
        return mk("removable_volume_acls", "可移动卷根目录访问权限 (ACL/Everyone 授权)", "usb", "clean",
            "当前系统暂未检测到插入的物理 U 盘设备 (已挂载 0 个可移动盘符)".to_owned(), None);
    }
    let mut good: Vec<String> = Vec::new();
    let mut bad: Vec<String> = Vec::new();
    let mut i: usize = 0;
    while i < n
        invariant
            i <= n == grants@.len(),
            strings_view(good@) == grant_roots(grants@.take(i as int), true),
            strings_view(bad@) == grant_roots(grants@.take(i as int), false),
        decreases n - i,
    {
        let g = &grants[i];
        let ghost gb = strings_view(good@);
        let ghost bb = strings_view(bad@);
        if g.everyone_ok || g.users_ok {
            good.push(g.root.clone());
        } else {
            bad.push(g.root.clone());
        }
        proof {
            assert(grants@.take(i + 1).drop_last() =~= grants@.take(i as int));
            assert(grants@.take(i + 1).last() == grants@[i as int]);
            if g.everyone_ok || g.users_ok {
                assert(strings_view(good@) =~= gb.push(g.root@));
                assert(strings_view(bad@) =~= bb);
            } else {
                assert(strings_view(bad@) =~= bb.push(g.root@));
                assert(strings_view(good@) =~= gb);
            }
        }
        i += 1;
    }
    assert(grants@.take(n as int) =~= grants@);
    let good_text = join_strings(&good, ", ");
    if bad.len() > 0 {
        let mut msg = "已修复盘符 [".to_owned();
        push_str_chars(&mut msg, good_text.as_str());
        push_str_chars(&mut msg, "] 的访问权限，但盘符 [");
        let bad_text = join_strings(&bad, ", ");
        push_str_chars(&mut msg, bad_text.as_str());
        push_str_chars(&mut msg, "] 响应异常 (可能为写保护硬件锁或需格式化)");
        mk("removable_volume_acls", "可移动卷根目录访问权限 (ACL/Everyone 授权)", "usb", "warning", msg, None)
    } else {
        let mut msg = "已为当前 U 盘盘符 [".to_owned();
        push_str_chars(&mut msg, good_text.as_str());
        push_str_chars(&mut msg, "] 授予完整 Everyone/Users 读写与执行权限，彻底解决双击拒绝访问");
        mk("removable_volume_acls", "可移动卷根目录访问权限 (ACL/Everyone 授权)", "usb", "fixed", msg, None)
    }
}

} // verus!

verus! {

/// The lines of a text: the pieces between line feeds (a carriage return
/// left at a line's end is white space and trimmed away with it).
pub open spec fn split_lines(s: Seq<char>) -> Seq<Seq<char>>
    decreases s.len(),
{
    let i = first_in(s, CharClass::Is('\n'));
    if i < 0 || i >= s.len() {
        seq![s]
    } else {
        seq![s.take(i)] + split_lines(s.skip(i + 1))
    }
}

/// A hosts line that sends a real host name to the loopback or null address:
/// not blank, not a comment, starting with `127.0.0.1` or `0.0.0.0`, and
/// naming neither `localhost` nor `broadcasthost` in any case.
pub open spec fn blocking_host_line(line: Seq<char>) -> bool {
    let t = trim(line, CharClass::Whitespace);
    &&& t.len() > 0
    &&& t[0] != '#'
    &&& starts_with(t, "127.0.0.1"@) || starts_with(t, "0.0.0.0"@)
    &&& !contains_seq(lower_seq(t), "localhost"@)
    &&& !contains_seq(lower_seq(t), "broadcasthost"@)
}

/// Number of blocking lines.
pub open spec fn count_blocking(lines: Seq<Seq<char>>) -> nat
    decreases lines.len(),
{
    if lines.len() == 0 {
        0
    } else {
        (if blocking_host_line(lines[0]) { 1nat } else { 0nat }) + count_blocking(lines.drop_first())
    }
}

/// Number of blocking rules in a hosts file.
pub open spec fn hosts_blocked_count(content: Seq<char>) -> nat {
    count_blocking(split_lines(content))
}

fn is_blocking_line(line: &[char]) -> (b: bool)
    ensures
        b == blocking_host_line(line@),
{
    let (a, e) = trim_bounds(line, CharClass::Whitespace);
    let t = sub_chars(line, a, e);
    if t.len() == 0 || t[0] == '#' {
        return false;
    }
    assert(t@.skip(0) =~= t@);
    let loopback = str_chars("127.0.0.1");
    let null_addr = str_chars("0.0.0.0");
    if !starts_with_at(t.as_slice(), 0, loopback.as_slice()) && !starts_with_at(t.as_slice(), 0, null_addr.as_slice()) {
        return false;
    }
    let low = lower_chars(t.as_slice());
    let localhost = str_chars("localhost");
    let broadcast = str_chars("broadcasthost");
    !contains_chars(low.as_slice(), localhost.as_slice()) && !contains_chars(low.as_slice(), broadcast.as_slice())
}

/// Counts the rules of a hosts file that block a real host name.
pub fn count_blocked_host_lines(content: &str) -> (n: usize)
    ensures
        n == hosts_blocked_count(content@),
{
    let cs = str_chars(content);
    let len = cs.len();
    let mut count: usize = 0;
    let mut i: usize = 0;
    assert(cs@.skip(0) =~= cs@);
    loop
        invariant
            i <= len == cs@.len(),
            cs@ == content@,
            count <= i,
            count + count_blocking(split_lines(cs@.skip(i as int))) == hosts_blocked_count(content@),
        decreases len - i,
    {
        let rest = sub_chars(cs.as_slice(), i, len);
        assert(rest@ =~= cs@.skip(i as int));
        match find_class(rest.as_slice(), CharClass::Is('\n')) {
            None => {
                let hit = is_blocking_line(rest.as_slice());
                assert(split_lines(rest@) == seq![rest@]);
                assert(seq![rest@].drop_first() =~= Seq::<Seq<char>>::empty());
                assert(count_blocking(Seq::<Seq<char>>::empty()) == 0);
                assert(count_blocking(seq![rest@]) == if hit { 1nat } else { 0nat });
                if hit {
                    count = count + 1;
                }
                return count;
            },
            Some(k) => {
                let line = sub_chars(rest.as_slice(), 0, k);
                assert(line@ =~= rest@.take(k as int));
                let hit = is_blocking_line(line.as_slice());
                let ghost tail = split_lines(rest@.skip(k + 1));
                assert(split_lines(rest@) == seq![rest@.take(k as int)] + tail);
                assert((seq![rest@.take(k as int)] + tail).drop_first() =~= tail);
                assert(rest@.skip(k + 1) =~= cs@.skip(i + k + 1));
                if hit {
                    count = count + 1;
                }
                i = i + k + 1;
            },
        }
    }
}

/// What could be read of the hosts file.
#[derive(Clone, Debug)]
pub enum HostsFile {
    /// The file does not exist.
    Missing,
    /// It exists but could not be read.
    Unreadable,
    /// Its text.
    Text(String),
}

/// Where the hosts file is backed up before it is reset.
pub open spec fn hosts_backup_path_spec(timestamp: u64) -> Seq<char> {
    "C:\\Windows\\System32\\drivers\\etc\\hosts.bak_"@ + decimal(timestamp as nat)
}

/// Path of the backup taken at `timestamp` (seconds since the epoch).
pub fn hosts_backup_path(timestamp: u64) -> (p: String)
    ensures
        p@ == hosts_backup_path_spec(timestamp),
{
    let mut p = "C:\\Windows\\System32\\drivers\\etc\\hosts.bak_".to_owned();
    push_decimal(&mut p, timestamp);
    p
}

/// The hosts file check and reset; `write` is the outcome of writing the
/// clean file after the backup taken at `timestamp`.
pub open spec fn hosts_file_step_spec(
    file: HostsFile,
    apply_fix: bool,
    timestamp: u64,
    write: Result<(), Seq<char>>,
) -> StepSpec {
    let id = "hosts_file"@;
    let title = "系统 Hosts 域名解析映射表"@;
    match file {
        HostsFile::Missing => mk_spec(id, title, "network"@, "clean"@,
            "Hosts 文件默认标准 (不存在额外重定向文件)"@, None),
        HostsFile::Unreadable => mk_spec(id, title, "network"@, "clean"@,
            "读取 Hosts 文件受阻，可能需要提权"@, None),
        HostsFile::Text(content) => {
            let n = hosts_blocked_count(content@);
            if n == 0 {
                mk_spec(id, title, "network"@, "clean"@,
                    "Hosts 映射表纯净，未发现域名恶意屏蔽或重定向条目"@, None)
            } else if !apply_fix {
                mk_spec(id, title, "network"@, "failed"@,
                    "检测到 Hosts 文件中存在 "@ + decimal(n) + " 条可能导致网络受限的域名封锁规则"@, None)
            } else {
                match write {
                    Ok(_) => mk_spec(id, title, "network"@, "fixed"@,
                        "已清除 "@ + decimal(n) + " 条域名屏蔽规则，恢复标准解析 (原文件已备份为: hosts.bak_"@
                            + decimal(timestamp as nat) + ")"@,
                        Some(hosts_backup_path_spec(timestamp))),
                    Err(e) => mk_spec(id, title, "network"@, "failed"@,
                        "重置 Hosts 文件失败 (需要管理员权限): "@ + e, None),
                }
            }
        },
    }
}

/// The model of a write outcome.
pub open spec fn write_view(w: Result<(), String>) -> Result<(), Seq<char>> {
    match w {
        Ok(_) => Ok(()),
        Err(e) => Err(e@),
    }
}

/// The hosts file check and reset (see [`hosts_file_step_spec`]).
pub fn hosts_file_step(file: &HostsFile, apply_fix: bool, timestamp: u64, write: &Result<(), String>) -> (r: UnrestrictStepResult)
    ensures
        step_view(r) == hosts_file_step_spec(*file, apply_fix, timestamp, write_view(*write)),
{
    let id = "hosts_file";
    let title = "系统 Hosts 域名解析映射表";
    match file {
        HostsFile::Missing => mk(id, title, "network", "clean", "Hosts 文件默认标准 (不存在额外重定向文件)".to_owned(), None),
        HostsFile::Unreadable => mk(id, title, "network", "clean", "读取 Hosts 文件受阻，可能需要提权".to_owned(), None),
        HostsFile::Text(content) => {
            let n = count_blocked_host_lines(content.as_str());
            if n == 0 {
                mk(id, title, "network", "clean", "Hosts 映射表纯净，未发现域名恶意屏蔽或重定向条目".to_owned(), None)
            } else if !apply_fix {
                let mut msg = "检测到 Hosts 文件中存在 ".to_owned();
                push_decimal(&mut msg, n as u64);
                push_str_chars(&mut msg, " 条可能导致网络受限的域名封锁规则");
                mk(id, title, "network", "failed", msg, None)
            } else {
                match write {
                    Ok(_) => {
                        let mut msg = "已清除 ".to_owned();
                        push_decimal(&mut msg, n as u64);
                        push_str_chars(&mut msg, " 条域名屏蔽规则，恢复标准解析 (原文件已备份为: hosts.bak_");
                        push_decimal(&mut msg, timestamp);
                        push_str_chars(&mut msg, ")");
                        mk(id, title, "network", "fixed", msg, Some(hosts_backup_path(timestamp)))
                    },
                    Err(e) => mk(id, title, "network", "failed", concat_str("重置 Hosts 文件失败 (需要管理员权限): ", e.as_str()), None),
                }
            }
        },
    }
}

} // verus!

verus! {

/// What the read-only checks found on the system.
#[derive(Clone, Debug)]
pub struct RestrictionProbe {
    /// `reg query` of the `USBSTOR` service's `Start` value, if it succeeded.
    pub usbstor_start: Option<String>,
    /// The machine-wide `RemovableStorageDevices` policy key exists.
    pub removable_policy_machine: bool,
    /// The per-user `RemovableStorageDevices` policy key exists.
    pub removable_policy_user: bool,
    /// `reg query` of `StorageDevicePolicies\WriteProtect`, if it succeeded.
    pub write_protect: Option<String>,
    /// The `DeviceInstall\Restrictions` policy key exists.
    pub device_install_policy: bool,
    /// `NoViewOnDrive` is set machine-wide.
    pub no_view_on_drive_machine: bool,
    /// `NoViewOnDrive` is set for the user.
    pub no_view_on_drive_user: bool,
    /// `NoDrives` is set machine-wide.
    pub no_drives_machine: bool,
    /// `NoDrives` is set for the user.
    pub no_drives_user: bool,
    /// The `MountPoints2` cache key exists.
    pub mountpoints2_present: bool,
    /// Roots of the mounted removable drives.
    pub removable_roots: Vec<String>,
    /// `reg query` of `ProxyEnable`, if it succeeded.
    pub proxy_enable: Option<String>,
    /// An `AutoConfigURL` value is set.
    pub auto_config_url: bool,
    /// `netsh winhttp show proxy`.
    pub winhttp_query: CommandOutput,
    /// The hosts file.
    pub hosts: HostsFile,
    /// The `Network Connections` policy key exists.
    pub network_policy_present: bool,
}

/// What the repair commands reported.
#[derive(Debug)]
pub struct RepairOutcomes {
    /// Setting `USBSTOR\Start` to 3.
    pub usbstor_set: CommandOutput,
    /// Deleting the machine-wide removable-storage policy tree.
    pub removable_machine_delete: CommandOutput,
    /// Deleting the per-user removable-storage policy tree.
    pub removable_user_delete: CommandOutput,
    /// Deleting `WriteProtect`.
    pub write_protect_delete: CommandOutput,
    /// Setting `WriteProtect` to 0 after the deletion failed.
    pub write_protect_fallback_ok: bool,
    /// Deleting the device-installation policy tree.
    pub device_install_delete: CommandOutput,
    /// Deleting the `MountPoints2` cache.
    pub mountpoints2_delete: CommandOutput,
    /// Granting access on each removable root.
    pub root_grants: Vec<RootGrant>,
    /// `mountvol /e`.
    pub automount: CommandOutput,
    /// `pnputil /scan-devices`.
    pub pnp_rescan: CommandOutput,
    /// `netsh winhttp reset proxy`.
    pub winhttp_reset: CommandOutput,
    /// Seconds since the epoch when the hosts file was backed up.
    pub hosts_timestamp: u64,
    /// Writing the clean hosts file.
    pub hosts_write: Result<(), String>,
    /// `netsh winsock reset`.
    pub winsock_reset: CommandOutput,
    /// `netsh int ip reset`.
    pub tcpip_reset: CommandOutput,
    /// `ipconfig /flushdns`.
    pub dns_flush: CommandOutput,
    /// `netsh advfirewall reset`.
    pub firewall_reset: CommandOutput,
    /// Enabling every disabled adapter.
    pub adapters_enable: CommandOutput,
}

/// Some Explorer drive policy is set.
pub open spec fn explorer_restricted(p: RestrictionProbe) -> bool {
    p.no_view_on_drive_machine || p.no_view_on_drive_user || p.no_drives_machine || p.no_drives_user
}

/// A proxy is forced on, or a PAC script configured.
pub open spec fn proxy_restricted(p: RestrictionProbe) -> bool {
    flag_set_spec(opt_view(p.proxy_enable)) || p.auto_config_url
}

/// The models of step results.
pub open spec fn steps_view(s: Seq<UnrestrictStepResult>) -> Seq<StepSpec> {
    Seq::new(s.len(), |i: int| step_view(s[i]))
}

/// The seventeen pre-checks, USB first, then network. The pre-check runs no
/// repair command, so what stands for a repair outcome is any value.
pub open spec fn precheck_spec(p: RestrictionProbe) -> Seq<StepSpec> {
    let none = arbitrary::<CommandOutput>();
    seq![
        usbstor_service_step_spec(usbstor_disabled_spec(opt_view(p.usbstor_start)), false, none),
        removable_storage_step_spec(p.removable_policy_machine, p.removable_policy_user, false, none, none),
        storage_device_policies_step_spec(flag_set_spec(opt_view(p.write_protect)), false, none, false),
        device_install_step_spec(p.device_install_policy, false, none),
        explorer_drive_step_spec(explorer_restricted(p), false),
        mountpoints2_step_spec(p.mountpoints2_present, false, none),
        removable_acl_check_spec(strings_view(p.removable_roots@)),
        disk_automount_step_spec(false, none),
        pnp_rescan_step_spec(false, none),
        system_proxy_step_spec(proxy_restricted(p), false),
        winhttp_proxy_step_spec(p.winhttp_query, false, none),
        hosts_file_step_spec(p.hosts, false, 0, Ok(())),
        winsock_step_spec(false, none),
        tcpip_step_spec(false, none),
        dns_cache_step_spec(false, none),
        firewall_step_spec(false, none),
        network_adapters_step_spec(p.network_policy_present, false, none),
    ]
}

/// The nine USB repairs.
pub open spec fn usb_repair_spec(p: RestrictionProbe, o: RepairOutcomes) -> Seq<StepSpec> {
    seq![
        usbstor_service_step_spec(usbstor_disabled_spec(opt_view(p.usbstor_start)), true, o.usbstor_set),
        removable_storage_step_spec(p.removable_policy_machine, p.removable_policy_user, true,
            o.removable_machine_delete, o.removable_user_delete),
        storage_device_policies_step_spec(flag_set_spec(opt_view(p.write_protect)), true,
            o.write_protect_delete, o.write_protect_fallback_ok),
        device_install_step_spec(p.device_install_policy, true, o.device_install_delete),
        explorer_drive_step_spec(explorer_restricted(p), true),
        mountpoints2_step_spec(p.mountpoints2_present, true, o.mountpoints2_delete),
        removable_acl_repair_spec(o.root_grants@),
        disk_automount_step_spec(true, o.automount),
        pnp_rescan_step_spec(true, o.pnp_rescan),
    ]
}

/// The eight network repairs.
pub open spec fn network_repair_spec(p: RestrictionProbe, o: RepairOutcomes) -> Seq<StepSpec> {
    seq![
        system_proxy_step_spec(proxy_restricted(p), true),
        winhttp_proxy_step_spec(p.winhttp_query, true, o.winhttp_reset),
        hosts_file_step_spec(p.hosts, true, o.hosts_timestamp, write_view(o.hosts_write)),
        winsock_step_spec(true, o.winsock_reset),
        tcpip_step_spec(true, o.tcpip_reset),
        dns_cache_step_spec(true, o.dns_flush),
        firewall_step_spec(true, o.firewall_reset),
        network_adapters_step_spec(p.network_policy_present, true, o.adapters_enable),
    ]
}

fn usb_steps(p: &RestrictionProbe, o: &RepairOutcomes, apply_fix: bool, steps: &mut Vec<UnrestrictStepResult>)
    ensures
        final(steps)@.len() == old(steps)@.len() + 9,
        final(steps)@.take(old(steps)@.len() as int) == old(steps)@,
        apply_fix ==> steps_view(final(steps)@.skip(old(steps)@.len() as int)) == usb_repair_spec(*p, *o),
        !apply_fix ==> steps_view(final(steps)@.skip(old(steps)@.len() as int)) == precheck_spec(*p).take(9),
{
    let ghost start = old(steps)@.len() as int;
    let explorer = p.no_view_on_drive_machine || p.no_view_on_drive_user || p.no_drives_machine
        || p.no_drives_user;
    steps.push(usbstor_service_step(usbstor_disabled(&p.usbstor_start), apply_fix, &o.usbstor_set));
    steps.push(removable_storage_step(p.removable_policy_machine, p.removable_policy_user, apply_fix,
        &o.removable_machine_delete, &o.removable_user_delete));
    steps.push(storage_device_policies_step(flag_set(&p.write_protect), apply_fix,
        &o.write_protect_delete, apply_fix && o.write_protect_fallback_ok));
    steps.push(device_install_step(p.device_install_policy, apply_fix, &o.device_install_delete));
    steps.push(explorer_drive_step(explorer, apply_fix));
    steps.push(mountpoints2_step(p.mountpoints2_present, apply_fix, &o.mountpoints2_delete));
    if apply_fix {
        steps.push(removable_acl_repair(&o.root_grants));
    } else {
        steps.push(removable_acl_check(&p.removable_roots));
    }
    steps.push(disk_automount_step(apply_fix, &o.automount));
    steps.push(pnp_rescan_step(apply_fix, &o.pnp_rescan));
    assert(steps@.take(start) =~= old(steps)@);
    if apply_fix {
        assert(steps_view(steps@.skip(start)) =~= usb_repair_spec(*p, *o));
    } else {
        assert(steps_view(steps@.skip(start)) =~= precheck_spec(*p).take(9));
    }
}

fn network_steps(p: &RestrictionProbe, o: &RepairOutcomes, apply_fix: bool, steps: &mut Vec<UnrestrictStepResult>)
    ensures
        final(steps)@.len() == old(steps)@.len() + 8,
        final(steps)@.take(old(steps)@.len() as int) == old(steps)@,
        apply_fix ==> steps_view(final(steps)@.skip(old(steps)@.len() as int)) == network_repair_spec(*p, *o),
        !apply_fix ==> steps_view(final(steps)@.skip(old(steps)@.len() as int)) == precheck_spec(*p).skip(9),
{
    let ghost start = old(steps)@.len() as int;
    let proxy = flag_set(&p.proxy_enable) || p.auto_config_url;
    steps.push(system_proxy_step(proxy, apply_fix));
    steps.push(winhttp_proxy_step(&p.winhttp_query, apply_fix, &o.winhttp_reset));
    if apply_fix {
        steps.push(hosts_file_step(&p.hosts, true, o.hosts_timestamp, &o.hosts_write));
    } else {
        steps.push(hosts_file_step(&p.hosts, false, 0, &Ok(())));
    }
    steps.push(winsock_step(apply_fix, &o.winsock_reset));
    steps.push(tcpip_step(apply_fix, &o.tcpip_reset));
    steps.push(dns_cache_step(apply_fix, &o.dns_flush));
    steps.push(firewall_step(apply_fix, &o.firewall_reset));
    steps.push(network_adapters_step(p.network_policy_present, apply_fix, &o.adapters_enable));
    assert(steps@.take(start) =~= old(steps)@);
    if apply_fix {
        assert(steps_view(steps@.skip(start)) =~= network_repair_spec(*p, *o));
    } else {
        assert(steps_view(steps@.skip(start)) =~= precheck_spec(*p).skip(9));
    }
}

} // verus!

verus! {

/// Runs every check without changing anything: nine USB checks, then eight
/// network checks, and counts the failed ones per category.
pub fn get_restriction_overview(p: &RestrictionProbe) -> (r: RestrictionOverview)
    ensures
        steps_view(r.details@) == precheck_spec(*p),
        r.usb_issues_count == count_in(r.details@, "usb"@, "failed"@),
        r.network_issues_count == count_in(r.details@, "network"@, "failed"@),
        r.usb_restricted == (r.usb_issues_count > 0),
        r.network_restricted == (r.network_issues_count > 0),
{
    let none = RepairOutcomes {
        usbstor_set: CommandOutput { ok: false, output: String::new() },
        removable_machine_delete: CommandOutput { ok: false, output: String::new() },
        removable_user_delete: CommandOutput { ok: false, output: String::new() },
        write_protect_delete: CommandOutput { ok: false, output: String::new() },
        write_protect_fallback_ok: false,
        device_install_delete: CommandOutput { ok: false, output: String::new() },
        mountpoints2_delete: CommandOutput { ok: false, output: String::new() },
        root_grants: Vec::new(),
        automount: CommandOutput { ok: false, output: String::new() },
        pnp_rescan: CommandOutput { ok: false, output: String::new() },
        winhttp_reset: CommandOutput { ok: false, output: String::new() },
        hosts_timestamp: 0,
        hosts_write: Ok(()),
        winsock_reset: CommandOutput { ok: false, output: String::new() },
        tcpip_reset: CommandOutput { ok: false, output: String::new() },
        dns_flush: CommandOutput { ok: false, output: String::new() },
        firewall_reset: CommandOutput { ok: false, output: String::new() },
        adapters_enable: CommandOutput { ok: false, output: String::new() },
    };
    let mut steps: Vec<UnrestrictStepResult> = Vec::new();
    usb_steps(p, &none, false, &mut steps);
    let ghost mid = steps@;
    network_steps(p, &none, false, &mut steps);
    assert(steps_view(steps@) =~= steps_view(mid) + steps_view(steps@.skip(9)));
    assert(steps_view(mid) =~= steps_view(mid.skip(0)));
    assert(precheck_spec(*p) =~= precheck_spec(*p).take(9) + precheck_spec(*p).skip(9));
    overview_from_steps(steps)
}

/// A report over the given steps (see [`build_report`]).
pub open spec fn report_of(r: UnrestrictReport, steps: Seq<StepSpec>, reboot_allowed: bool) -> bool {
    &&& steps_view(r.steps@) == steps
    &&& r.total_steps == r.steps@.len()
    &&& r.fixed_count == count_status(r.steps@, "fixed"@)
    &&& r.clean_count == count_status(r.steps@, "clean"@)
    &&& r.failed_count == count_status(r.steps@, "failed"@)
    &&& r.success == (r.failed_count == 0)
    &&& r.needs_reboot == (reboot_allowed && r.fixed_count > 0)
    &&& r.message@ == report_message(r.fixed_count as nat, r.clean_count as nat, r.failed_count as nat)
}

/// Lifts every USB restriction; USB repairs never ask for a restart.
pub fn unrestrict_all_usb(p: &RestrictionProbe, o: &RepairOutcomes) -> (r: UnrestrictReport)
    ensures
        report_of(r, usb_repair_spec(*p, *o), false),
{
    let mut steps: Vec<UnrestrictStepResult> = Vec::new();
    usb_steps(p, o, true, &mut steps);
    assert(steps@.skip(0) =~= steps@);
    build_report(steps, false)
}

/// Lifts every network restriction; a restart is asked for once something
/// was fixed.
pub fn unrestrict_all_network(p: &RestrictionProbe, o: &RepairOutcomes) -> (r: UnrestrictReport)
    ensures
        report_of(r, network_repair_spec(*p, *o), true),
{
    let mut steps: Vec<UnrestrictStepResult> = Vec::new();
    network_steps(p, o, true, &mut steps);
    assert(steps@.skip(0) =~= steps@);
    build_report(steps, true)
}

/// Lifts every USB restriction, then every network restriction.
pub fn unrestrict_all_everything(p: &RestrictionProbe, o: &RepairOutcomes) -> (r: UnrestrictReport)
    ensures
        report_of(r, usb_repair_spec(*p, *o) + network_repair_spec(*p, *o), true),
{
    let mut steps: Vec<UnrestrictStepResult> = Vec::new();
    usb_steps(p, o, true, &mut steps);
    let ghost mid = steps@;
    network_steps(p, o, true, &mut steps);
    assert(steps_view(steps@) =~= steps_view(mid) + steps_view(steps@.skip(9)));
    assert(mid.skip(0) =~= mid);
    build_report(steps, true)
}

} // verus!
