//! Quick switches for Windows features (automatic updates, Defender real-time
//! protection, hibernation, search indexing, SysMain, telemetry, widgets):
//! how their state is read from what the system reports, and which service,
//! registry and power steps turn each of them off or back on.

use vstd::prelude::*;
use crate::text::{str_chars, str_eq, concat_str};
use crate::strs::{find_sub, find_sub_chars};

verus! {

/// A feature switch and its current state.
#[derive(Clone, Debug)]
pub struct SystemTweakItem {
    /// Unique id.
    pub id: String,
    /// Display title.
    pub title: String,
    /// What switching it off does.
    pub description: String,
    /// Expected benefit.
    pub impact: String,
    /// Whether the feature is switched off now.
    pub is_disabled: bool,
    /// Whether switching needs administrator rights.
    pub requires_admin: bool,
}

/// What was read from the system about each feature.
#[derive(Clone, Copy, Debug)]
pub struct TweakProbe {
    /// `sc qc wuauserv` reports the service disabled.
    pub update_service_disabled: bool,
    /// The `NoAutoUpdate` policy is 1.
    pub no_auto_update_policy: bool,
    /// The `DisableAntiSpyware` policy is 1.
    pub anti_spyware_disabled_policy: bool,
    /// The `DisableRealtimeMonitoring` policy is 1.
    pub realtime_monitoring_disabled_policy: bool,
    /// `sc qc WSearch` reports the service disabled.
    pub search_service_disabled: bool,
    /// `sc qc SysMain` reports the service disabled.
    pub sysmain_service_disabled: bool,
    /// `C:\hiberfil.sys` exists.
    pub hibernation_file_present: bool,
    /// `sc qc DiagTrack` reports the service disabled.
    pub telemetry_service_disabled: bool,
    /// The `AllowTelemetry` policy is 0.
    pub telemetry_policy_off: bool,
    /// The `AllowNewsAndInterests` policy is 0.
    pub widgets_policy_off: bool,
}

/// `sc qc` output says the start type is disabled.
pub open spec fn reports_disabled(sc_output: Seq<char>) -> bool {
    find_sub(sc_output, "DISABLED"@) is Some
}

/// Whether `sc qc` output shows a disabled service.
pub fn service_reports_disabled(sc_output: &str) -> (b: bool)
    ensures
        b == reports_disabled(sc_output@),
{
    let text = str_chars(sc_output);
    let word = str_chars("DISABLED");
    proof {
        reveal_strlit("DISABLED");
    }
    find_sub_chars(text.as_slice(), word.as_slice()).is_some()
}

/// Fixed texts of one switch: id, title, description and impact.
pub type TweakRow = (Seq<char>, Seq<char>, Seq<char>, Seq<char>);

/// The switches in display order.
pub open spec fn tweak_table() -> Seq<TweakRow> {
    seq![
        ("windows_update"@, "Windows 自动更新"@, "彻底拦截并禁用 Windows Update 强制后台下载、打补丁与自动重启更新行为。"@, "杜绝打扰 · 锁定稳定版本"@),
        ("windows_defender"@, "Windows Defender 安全中心实时防护"@, "关闭 Defender 后台实时扫描与 Antimalware Service 进程的高 CPU/磁盘占用。"@, "显著降低 CPU 占用 · 防止误报拦截"@),
        ("hibernation"@, "系统休眠功能 (hiberfil.sys)"@, "关闭系统深度休眠，彻底删除 C 盘根目录下与物理内存同等大小的巨大休眠文件。"@, "立即释放 8GB ~ 32GB 磁盘空间"@),
        ("windows_search"@, "Windows 搜索索引服务 (WSearch)"@, "关闭后台全盘文件检索与数据库频繁读写，解决机械硬盘或低配系统 100% 磁盘占用问题。"@, "缓解磁盘 100% 卡顿"@),
        ("sysmain"@, "SysMain (SuperFetch) 预加载服务"@, "禁用 Windows 自动在后台将常用软件填满物理内存的预取行为，降低内存常驻压力。"@, "减少后台读写 · 避免内存占用虚高"@),
        ("telemetry"@, "诊断数据与用户体验遥测 (DiagTrack)"@, "禁用微软后台遥测、键盘打字数据收集与使用习惯上传服务，守护个人数据隐私。"@, "杜绝隐私回传 · 减少后台进程"@),
        ("widgets"@, "任务栏小组件与资讯看板"@, "关闭 Windows 11 任务栏左侧天气资讯小组件及其依赖的后台 Edge Webview 进程。"@, "节省内存常驻 · 净化任务栏"@),
    ]
}

/// Whether each switch is off, in display order: a feature counts as off
/// when its service is disabled or its policy says so, hibernation when its
/// file is gone.
pub open spec fn tweak_states(p: TweakProbe) -> Seq<bool> {
    seq![
        p.update_service_disabled || p.no_auto_update_policy,
        p.anti_spyware_disabled_policy || p.realtime_monitoring_disabled_policy,
        !p.hibernation_file_present,
        p.search_service_disabled,
        p.sysmain_service_disabled,
        p.telemetry_service_disabled || p.telemetry_policy_off,
        p.widgets_policy_off,
    ]
}

/// Each switch reads its own part of the probe: Windows Update is off when
/// its service is disabled or the `NoAutoUpdate` policy is set; Defender
/// when either of its policies is set; hibernation when its file is gone;
/// search, SysMain and widgets exactly by their own flag; telemetry when its
/// service is disabled or its policy is off. No switch reads another's flags.
pub proof fn lemma_tweak_states_read_own_flags(p: TweakProbe)
    ensures
        tweak_table().len() == 7 && tweak_states(p).len() == 7,
        tweak_table()[0].0 == "windows_update"@ && tweak_states(p)[0] == (p.update_service_disabled || p.no_auto_update_policy),
        tweak_table()[1].0 == "windows_defender"@
            && tweak_states(p)[1] == (p.anti_spyware_disabled_policy || p.realtime_monitoring_disabled_policy),
        tweak_table()[2].0 == "hibernation"@ && tweak_states(p)[2] == !p.hibernation_file_present,
        tweak_table()[3].0 == "windows_search"@ && tweak_states(p)[3] == p.search_service_disabled,
        tweak_table()[4].0 == "sysmain"@ && tweak_states(p)[4] == p.sysmain_service_disabled,
        tweak_table()[5].0 == "telemetry"@ && tweak_states(p)[5] == (p.telemetry_service_disabled || p.telemetry_policy_off),
        tweak_table()[6].0 == "widgets"@ && tweak_states(p)[6] == p.widgets_policy_off,
{
}

/// An item shows a row of the table with the given state; every switch needs
/// administrator rights.
pub open spec fn tweak_is(t: SystemTweakItem, row: TweakRow, disabled: bool) -> bool {
    &&& t.id@ == row.0
    &&& t.title@ == row.1
    &&& t.description@ == row.2
    &&& t.impact@ == row.3
    &&& t.is_disabled == disabled
    &&& t.requires_admin
}

fn tweak(id: &str, title: &str, description: &str, impact: &str, disabled: bool) -> (t: SystemTweakItem)
    ensures
        tweak_is(t, (id@, title@, description@, impact@), disabled),
{
    SystemTweakItem {
        id: id.to_owned(),
        title: title.to_owned(),
        description: description.to_owned(),
        impact: impact.to_owned(),
        is_disabled: disabled,
        requires_admin: true,
    }
}

/// All switches with the state read from the system.
pub fn get_all_tweaks(p: &TweakProbe) -> (items: Vec<SystemTweakItem>)
    ensures
        items@.len() == tweak_table().len(),
        forall|i: int|
            0 <= i < items@.len() ==> #[trigger] tweak_is(items@[i], tweak_table()[i], tweak_states(*p)[i]),
        items@[0].id@ == "windows_update"@ && items@[0].is_disabled == (p.update_service_disabled || p.no_auto_update_policy),
        items@[1].id@ == "windows_defender"@
            && items@[1].is_disabled == (p.anti_spyware_disabled_policy || p.realtime_monitoring_disabled_policy),
        items@[2].id@ == "hibernation"@ && items@[2].is_disabled == !p.hibernation_file_present,
        items@[3].id@ == "windows_search"@ && items@[3].is_disabled == p.search_service_disabled,
        items@[4].id@ == "sysmain"@ && items@[4].is_disabled == p.sysmain_service_disabled,
        items@[5].id@ == "telemetry"@ && items@[5].is_disabled == (p.telemetry_service_disabled || p.telemetry_policy_off),
        items@[6].id@ == "widgets"@ && items@[6].is_disabled == p.widgets_policy_off,
{
    let update_disabled = p.update_service_disabled || p.no_auto_update_policy;
    let defender_disabled = p.anti_spyware_disabled_policy || p.realtime_monitoring_disabled_policy;
    let hibernate_disabled = !p.hibernation_file_present;
    let telemetry_disabled = p.telemetry_service_disabled || p.telemetry_policy_off;
    let mut items: Vec<SystemTweakItem> = Vec::new();
    items.push(tweak("windows_update", "Windows 自动更新", "彻底拦截并禁用 Windows Update 强制后台下载、打补丁与自动重启更新行为。", "杜绝打扰 · 锁定稳定版本", update_disabled));
    items.push(tweak("windows_defender", "Windows Defender 安全中心实时防护", "关闭 Defender 后台实时扫描与 Antimalware Service 进程的高 CPU/磁盘占用。", "显著降低 CPU 占用 · 防止误报拦截", defender_disabled));
    items.push(tweak("hibernation", "系统休眠功能 (hiberfil.sys)", "关闭系统深度休眠，彻底删除 C 盘根目录下与物理内存同等大小的巨大休眠文件。", "立即释放 8GB ~ 32GB 磁盘空间", hibernate_disabled));
    items.push(tweak("windows_search", "Windows 搜索索引服务 (WSearch)", "关闭后台全盘文件检索与数据库频繁读写，解决机械硬盘或低配系统 100% 磁盘占用问题。", "缓解磁盘 100% 卡顿", p.search_service_disabled));
    items.push(tweak("sysmain", "SysMain (SuperFetch) 预加载服务", "禁用 Windows 自动在后台将常用软件填满物理内存的预取行为，降低内存常驻压力。", "减少后台读写 · 避免内存占用虚高", p.sysmain_service_disabled));
    items.push(tweak("telemetry", "诊断数据与用户体验遥测 (DiagTrack)", "禁用微软后台遥测、键盘打字数据收集与使用习惯上传服务，守护个人数据隐私。", "杜绝隐私回传 · 减少后台进程", telemetry_disabled));
    items.push(tweak("widgets", "任务栏小组件与资讯看板", "关闭 Windows 11 任务栏左侧天气资讯小组件及其依赖的后台 Edge Webview 进程。", "节省内存常驻 · 净化任务栏", p.widgets_policy_off));
    proof {
        assert(tweak_is(items@[0], tweak_table()[0], tweak_states(*p)[0]));
        assert(tweak_is(items@[1], tweak_table()[1], tweak_states(*p)[1]));
        assert(tweak_is(items@[2], tweak_table()[2], tweak_states(*p)[2]));
        assert(tweak_is(items@[3], tweak_table()[3], tweak_states(*p)[3]));
        assert(tweak_is(items@[4], tweak_table()[4], tweak_states(*p)[4]));
        assert(tweak_is(items@[5], tweak_table()[5], tweak_states(*p)[5]));
        assert(tweak_is(items@[6], tweak_table()[6], tweak_states(*p)[6]));
    }
    items
}

} // verus!

verus! {

/// One step of switching a feature.
#[derive(Clone, Debug)]
pub enum TweakStep {
    /// `sc` stops and disables the service, or sets it to start
    /// automatically and starts it.
    Service { name: String, disable: bool },
    /// Write a DWORD policy value under `HKEY_LOCAL_MACHINE`.
    SetDword { subkey: String, value_name: String, value: u32 },
    /// Delete a policy value under `HKEY_LOCAL_MACHINE`.
    DeleteValue { subkey: String, value_name: String },
    /// `powercfg /h on` or `powercfg /h off`.
    Hibernation { enable: bool },
}

/// A step and whether its failure aborts the switch (otherwise it is
/// attempted and its outcome ignored).
#[derive(Clone, Debug)]
pub struct PlannedStep {
    pub step: TweakStep,
    pub must_succeed: bool,
}

/// Model of a step.
pub enum StepView {
    Service(Seq<char>, bool),
    SetDword(Seq<char>, Seq<char>, u32),
    DeleteValue(Seq<char>, Seq<char>),
    Hibernation(bool),
}

/// The model of a step.
pub open spec fn step_view(s: TweakStep) -> StepView {
    match s {
        TweakStep::Service { name, disable } => StepView::Service(name@, disable),
        TweakStep::SetDword { subkey, value_name, value } => StepView::SetDword(subkey@, value_name@, value),
        TweakStep::DeleteValue { subkey, value_name } => StepView::DeleteValue(subkey@, value_name@),
        TweakStep::Hibernation { enable } => StepView::Hibernation(enable),
    }
}

/// The models of planned steps.
pub open spec fn plan_view(p: Seq<PlannedStep>) -> Seq<(StepView, bool)> {
    Seq::new(p.len(), |i: int| (step_view(p[i].step), p[i].must_succeed))
}

/// Writes the policy when switching off, removes it when switching back on.
pub open spec fn policy_step(disable: bool, subkey: Seq<char>, name: Seq<char>, value: u32) -> (StepView, bool) {
    if disable {
        (StepView::SetDword(subkey, name, value), true)
    } else {
        (StepView::DeleteValue(subkey, name), false)
    }
}

/// The steps that switch feature `id` off (`disable`) or back on; `None` for
/// an unknown feature.
pub open spec fn tweak_plan_spec(id: Seq<char>, disable: bool) -> Option<Seq<(StepView, bool)>> {
    if id == "windows_update"@ {
        Some(seq![
            (StepView::Service("wuauserv"@, disable), false),
            (StepView::Service("WaaSMedicSvc"@, disable), false),
            policy_step(disable, "SOFTWARE\\Policies\\Microsoft\\Windows\\WindowsUpdate\\AU"@, "NoAutoUpdate"@, 1),
        ])
    } else if id == "windows_defender"@ {
        Some(seq![
            policy_step(disable, "SOFTWARE\\Policies\\Microsoft\\Windows Defender"@, "DisableAntiSpyware"@, 1),
            policy_step(disable, "SOFTWARE\\Policies\\Microsoft\\Windows Defender\\Real-Time Protection"@, "DisableRealtimeMonitoring"@, 1),
        ])
    } else if id == "hibernation"@ {
        Some(seq![(StepView::Hibernation(!disable), true)])
    } else if id == "windows_search"@ {
        Some(seq![(StepView::Service("WSearch"@, disable), true)])
    } else if id == "sysmain"@ {
        Some(seq![(StepView::Service("SysMain"@, disable), true)])
    } else if id == "telemetry"@ {
        Some(seq![
            (StepView::Service("DiagTrack"@, disable), false),
            policy_step(disable, "SOFTWARE\\Policies\\Microsoft\\Windows\\DataCollection"@, "AllowTelemetry"@, 0),
        ])
    } else if id == "widgets"@ {
        Some(seq![policy_step(disable, "SOFTWARE\\Policies\\Microsoft\\Dsh"@, "AllowNewsAndInterests"@, 0)])
    } else {
        None
    }
}

/// The message for an unknown feature.
pub open spec fn unknown_tweak_message(id: Seq<char>) -> Seq<char> {
    "未知的调优项目: "@ + id
}

fn service_step(name: &str, disable: bool, must_succeed: bool) -> (s: PlannedStep)
    ensures
        step_view(s.step) == StepView::Service(name@, disable),
        s.must_succeed == must_succeed,
{
    PlannedStep { step: TweakStep::Service { name: name.to_owned(), disable }, must_succeed }
}

fn policy(disable: bool, subkey: &str, name: &str, value: u32) -> (s: PlannedStep)
    ensures
        (step_view(s.step), s.must_succeed) == policy_step(disable, subkey@, name@, value),
{
    if disable {
        PlannedStep {
            step: TweakStep::SetDword { subkey: subkey.to_owned(), value_name: name.to_owned(), value },
            must_succeed: true,
        }
    } else {
        PlannedStep {
            step: TweakStep::DeleteValue { subkey: subkey.to_owned(), value_name: name.to_owned() },
            must_succeed: false,
        }
    }
}

/// The steps that switch a feature off or back on, in order; an unknown
/// feature is refused with a message that names it.
pub fn tweak_plan(id: &str, disable: bool) -> (r: Result<Vec<PlannedStep>, String>)
    ensures
        match r {
            Ok(steps) => tweak_plan_spec(id@, disable) == Some(plan_view(steps@)),
            Err(msg) => tweak_plan_spec(id@, disable) is None && msg@ == unknown_tweak_message(id@),
        },
{
    let mut steps: Vec<PlannedStep> = Vec::new();
    if str_eq(id, "windows_update") {
        steps.push(service_step("wuauserv", disable, false));
        steps.push(service_step("WaaSMedicSvc", disable, false));
        steps.push(policy(disable, "SOFTWARE\\Policies\\Microsoft\\Windows\\WindowsUpdate\\AU", "NoAutoUpdate", 1));
    } else if str_eq(id, "windows_defender") {
        steps.push(policy(disable, "SOFTWARE\\Policies\\Microsoft\\Windows Defender", "DisableAntiSpyware", 1));
        steps.push(policy(disable, "SOFTWARE\\Policies\\Microsoft\\Windows Defender\\Real-Time Protection", "DisableRealtimeMonitoring", 1));
    } else if str_eq(id, "hibernation") {
        steps.push(PlannedStep { step: TweakStep::Hibernation { enable: !disable }, must_succeed: true });
    } else if str_eq(id, "windows_search") {
        steps.push(service_step("WSearch", disable, true));
    } else if str_eq(id, "sysmain") {
        steps.push(service_step("SysMain", disable, true));
    } else if str_eq(id, "telemetry") {
        steps.push(service_step("DiagTrack", disable, false));
        steps.push(policy(disable, "SOFTWARE\\Policies\\Microsoft\\Windows\\DataCollection", "AllowTelemetry", 0));
    } else if str_eq(id, "widgets") {
        steps.push(policy(disable, "SOFTWARE\\Policies\\Microsoft\\Dsh", "AllowNewsAndInterests", 0));
    } else {
        return Err(concat_str("未知的调优项目: ", id));
    }
    assert(plan_view(steps@) =~= tweak_plan_spec(id@, disable)->0);
    Ok(steps)
}

} // verus!
