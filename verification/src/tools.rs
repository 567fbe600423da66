//! The catalogue of built-in Windows administration and diagnostic tools,
//! and the rule that decides whether a launch went through.

use vstd::prelude::*;

verus! {

/// A built-in Windows tool the toolbox can open.
#[derive(Clone, Debug)]
pub struct SystemToolItem {
    /// Unique id.
    pub id: String,
    /// Display name.
    pub name: String,
    /// What the tool does.
    pub description: String,
    /// `admin`, `diag`, `config` or `network`.
    pub category: String,
    /// Program, snap-in or control panel item to open.
    pub command: String,
    /// Icon shown next to it.
    pub icon_name: String,
}

/// One catalogue row: id, name, description, category, command, icon.
pub type ToolRow = (Seq<char>, Seq<char>, Seq<char>, Seq<char>, Seq<char>, Seq<char>);

/// An item carries exactly the fields of a catalogue row.
pub open spec fn tool_is(t: SystemToolItem, row: ToolRow) -> bool {
    &&& t.id@ == row.0
    &&& t.name@ == row.1
    &&& t.description@ == row.2
    &&& t.category@ == row.3
    &&& t.command@ == row.4
    &&& t.icon_name@ == row.5
}

/// The catalogue, grouped as administration, diagnostics, configuration, and
/// network and security tools.
pub open spec fn tool_table() -> Seq<ToolRow> {
    seq![
        ("gpedit"@, "组策略编辑器"@, "配置 Windows 用户权限、安全策略与系统核心行为 (gpedit.msc)"@, "admin"@, "gpedit.msc"@, "ShieldCheck"@),
        ("regedit"@, "注册表编辑器"@, "查看与修改 Windows 核心配置键值 (regedit.exe)"@, "admin"@, "regedit.exe"@, "Database"@),
        ("compmgmt"@, "计算机管理"@, "集成管理事件、共享文件夹、本地用户和磁盘 (compmgmt.msc)"@, "admin"@, "compmgmt.msc"@, "MonitorCheck"@),
        ("services"@, "系统服务管理"@, "管理 Windows 后台服务的启动类型与运行状态 (services.msc)"@, "admin"@, "services.msc"@, "Cog"@),
        ("devmgmt"@, "设备管理器"@, "查看和更新显卡、声卡、主板等硬件设备驱动 (devmgmt.msc)"@, "admin"@, "devmgmt.msc"@, "HardDrive"@),
        ("diskmgmt"@, "磁盘管理"@, "格式化分区、调整驱动器卷大小与盘符 (diskmgmt.msc)"@, "admin"@, "diskmgmt.msc"@, "PieChart"@),
        ("taskmgr"@, "任务管理器"@, "查看实时进程、启动项与详细性能 (taskmgr.exe)"@, "admin"@, "taskmgr.exe"@, "Activity"@),
        ("fsmgmt"@, "共享文件夹管理"@, "查看和管理当前局域网共享资源与会话 (fsmgmt.msc)"@, "admin"@, "fsmgmt.msc"@, "FolderSymlink"@),
        ("resmon"@, "资源监视器"@, "深度排查哪个进程占用了 CPU、内存、磁盘与网络 (resmon.exe)"@, "diag"@, "resmon.exe"@, "Gauge"@),
        ("perfmon"@, "性能监视器"@, "分析系统日志与高级计数器报表 (perfmon.msc)"@, "diag"@, "perfmon.msc"@, "LineChart"@),
        ("eventvwr"@, "事件查看器"@, "排查系统崩溃、应用程序报错与安全审计日志 (eventvwr.msc)"@, "diag"@, "eventvwr.msc"@, "FileText"@),
        ("dxdiag"@, "DirectX 诊断工具"@, "全面检测显卡驱动、显存、声卡与图形接口状态 (dxdiag.exe)"@, "diag"@, "dxdiag.exe"@, "Cpu"@),
        ("msinfo32"@, "系统信息摘要"@, "查看 BIOS 版本、主板芯片、硬件资源分配详表 (msinfo32.exe)"@, "diag"@, "msinfo32.exe"@, "Info"@),
        ("msconfig"@, "系统配置 (msconfig)"@, "配置引导启动选项、安全模式与系统服务引导 (msconfig.exe)"@, "config"@, "msconfig.exe"@, "Sliders"@),
        ("sysprop"@, "高级系统属性 & 环境变量"@, "快速编辑系统 PATH 环境变量、虚拟内存与系统保护 (SystemPropertiesAdvanced)"@, "config"@, "SystemPropertiesAdvanced.exe"@, "Variable"@),
        ("control"@, "经典控制面板"@, "开启 Windows 经典控制中心所有功能 (control.exe)"@, "config"@, "control.exe"@, "LayoutGrid"@),
        ("cleanmgr"@, "磁盘清理工具"@, "清理 Windows 旧更新备份、临时文件与回收站 (cleanmgr.exe)"@, "config"@, "cleanmgr.exe"@, "Sparkles"@),
        ("wf"@, "高级安全 Windows 防火墙"@, "设置入站/出站端口拦截策略与自定义网络规则 (wf.msc)"@, "network"@, "wf.msc"@, "Shield"@),
        ("ncpa"@, "网络连接适配器面板"@, "快速修改本地以太网、WLAN 的 IPv4/IPv6 与 DNS 属性 (ncpa.cpl)"@, "network"@, "ncpa.cpl"@, "Network"@),
        ("secpol"@, "本地安全策略"@, "配置密码安全度、账户锁定与审核策略 (secpol.msc)"@, "network"@, "secpol.msc"@, "Key"@),
        ("mstsc"@, "远程桌面连接 (RDP)"@, "连接远程 Windows 服务器与桌面主机 (mstsc.exe)"@, "network"@, "mstsc.exe"@, "ScreenShare"@),
        ("cmd_admin"@, "命令提示符 (CMD)"@, "启动 Windows 命令解释器环境 (cmd.exe)"@, "network"@, "cmd.exe"@, "Terminal"@),
        ("powershell"@, "Windows PowerShell"@, "强大的自动化与脚本终端环境 (powershell.exe)"@, "network"@, "powershell.exe"@, "TerminalSquare"@),
    ]
}

fn tool(id: &str, name: &str, description: &str, category: &str, command: &str, icon_name: &str) -> (t: SystemToolItem)
    ensures
        tool_is(t, (id@, name@, description@, category@, command@, icon_name@)),
{
    SystemToolItem {
        id: id.to_owned(),
        name: name.to_owned(),
        description: description.to_owned(),
        category: category.to_owned(),
        command: command.to_owned(),
        icon_name: icon_name.to_owned(),
    }
}

/// The whole catalogue, in display order.
pub fn get_system_tools_list() -> (items: Vec<SystemToolItem>)
    ensures
        items@.len() == tool_table().len(),
        forall|i: int| 0 <= i < items@.len() ==> #[trigger] tool_is(items@[i], tool_table()[i]),
{
    let mut items: Vec<SystemToolItem> = Vec::new();
    items.push(tool("gpedit", "组策略编辑器", "配置 Windows 用户权限、安全策略与系统核心行为 (gpedit.msc)", "admin", "gpedit.msc", "ShieldCheck"));
    items.push(tool("regedit", "注册表编辑器", "查看与修改 Windows 核心配置键值 (regedit.exe)", "admin", "regedit.exe", "Database"));
    items.push(tool("compmgmt", "计算机管理", "集成管理事件、共享文件夹、本地用户和磁盘 (compmgmt.msc)", "admin", "compmgmt.msc", "MonitorCheck"));
    items.push(tool("services", "系统服务管理", "管理 Windows 后台服务的启动类型与运行状态 (services.msc)", "admin", "services.msc", "Cog"));
    items.push(tool("devmgmt", "设备管理器", "查看和更新显卡、声卡、主板等硬件设备驱动 (devmgmt.msc)", "admin", "devmgmt.msc", "HardDrive"));
    items.push(tool("diskmgmt", "磁盘管理", "格式化分区、调整驱动器卷大小与盘符 (diskmgmt.msc)", "admin", "diskmgmt.msc", "PieChart"));
    items.push(tool("taskmgr", "任务管理器", "查看实时进程、启动项与详细性能 (taskmgr.exe)", "admin", "taskmgr.exe", "Activity"));
    items.push(tool("fsmgmt", "共享文件夹管理", "查看和管理当前局域网共享资源与会话 (fsmgmt.msc)", "admin", "fsmgmt.msc", "FolderSymlink"));
    items.push(tool("resmon", "资源监视器", "深度排查哪个进程占用了 CPU、内存、磁盘与网络 (resmon.exe)", "diag", "resmon.exe", "Gauge"));
    items.push(tool("perfmon", "性能监视器", "分析系统日志与高级计数器报表 (perfmon.msc)", "diag", "perfmon.msc", "LineChart"));
    items.push(tool("eventvwr", "事件查看器", "排查系统崩溃、应用程序报错与安全审计日志 (eventvwr.msc)", "diag", "eventvwr.msc", "FileText"));
    items.push(tool("dxdiag", "DirectX 诊断工具", "全面检测显卡驱动、显存、声卡与图形接口状态 (dxdiag.exe)", "diag", "dxdiag.exe", "Cpu"));
    items.push(tool("msinfo32", "系统信息摘要", "查看 BIOS 版本、主板芯片、硬件资源分配详表 (msinfo32.exe)", "diag", "msinfo32.exe", "Info"));
    items.push(tool("msconfig", "系统配置 (msconfig)", "配置引导启动选项、安全模式与系统服务引导 (msconfig.exe)", "config", "msconfig.exe", "Sliders"));
    items.push(tool("sysprop", "高级系统属性 & 环境变量", "快速编辑系统 PATH 环境变量、虚拟内存与系统保护 (SystemPropertiesAdvanced)", "config", "SystemPropertiesAdvanced.exe", "Variable"));
    items.push(tool("control", "经典控制面板", "开启 Windows 经典控制中心所有功能 (control.exe)", "config", "control.exe", "LayoutGrid"));
    items.push(tool("cleanmgr", "磁盘清理工具", "清理 Windows 旧更新备份、临时文件与回收站 (cleanmgr.exe)", "config", "cleanmgr.exe", "Sparkles"));
    items.push(tool("wf", "高级安全 Windows 防火墙", "设置入站/出站端口拦截策略与自定义网络规则 (wf.msc)", "network", "wf.msc", "Shield"));
    items.push(tool("ncpa", "网络连接适配器面板", "快速修改本地以太网、WLAN 的 IPv4/IPv6 与 DNS 属性 (ncpa.cpl)", "network", "ncpa.cpl", "Network"));
    items.push(tool("secpol", "本地安全策略", "配置密码安全度、账户锁定与审核策略 (secpol.msc)", "network", "secpol.msc", "Key"));
    items.push(tool("mstsc", "远程桌面连接 (RDP)", "连接远程 Windows 服务器与桌面主机 (mstsc.exe)", "network", "mstsc.exe", "ScreenShare"));
    items.push(tool("cmd_admin", "命令提示符 (CMD)", "启动 Windows 命令解释器环境 (cmd.exe)", "network", "cmd.exe", "Terminal"));
    items.push(tool("powershell", "Windows PowerShell", "强大的自动化与脚本终端环境 (powershell.exe)", "network", "powershell.exe", "TerminalSquare"));
    proof {
        assert(tool_is(items@[0], tool_table()[0]));
        assert(tool_is(items@[1], tool_table()[1]));
        assert(tool_is(items@[2], tool_table()[2]));
        assert(tool_is(items@[3], tool_table()[3]));
        assert(tool_is(items@[4], tool_table()[4]));
        assert(tool_is(items@[5], tool_table()[5]));
        assert(tool_is(items@[6], tool_table()[6]));
        assert(tool_is(items@[7], tool_table()[7]));
        assert(tool_is(items@[8], tool_table()[8]));
        assert(tool_is(items@[9], tool_table()[9]));
        assert(tool_is(items@[10], tool_table()[10]));
        assert(tool_is(items@[11], tool_table()[11]));
        assert(tool_is(items@[12], tool_table()[12]));
        assert(tool_is(items@[13], tool_table()[13]));
        assert(tool_is(items@[14], tool_table()[14]));
        assert(tool_is(items@[15], tool_table()[15]));
        assert(tool_is(items@[16], tool_table()[16]));
        assert(tool_is(items@[17], tool_table()[17]));
        assert(tool_is(items@[18], tool_table()[18]));
        assert(tool_is(items@[19], tool_table()[19]));
        assert(tool_is(items@[20], tool_table()[20]));
        assert(tool_is(items@[21], tool_table()[21]));
        assert(tool_is(items@[22], tool_table()[22]));
    }
    items
}

/// `ShellExecuteW` reports success with a value above 32; anything else makes
/// the launcher fall back to `cmd /c start`.
pub fn shell_execute_succeeded(result: usize) -> (ok: bool)
    ensures
        ok == (result > 32),
{
    result > 32
}

} // verus!
