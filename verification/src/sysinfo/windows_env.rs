//! Windows environment: startup entries and installed applications as the
//! registry returns them (strictly decoded, never filled with sample text),
//! and security figures that have no reliable provider yet.

use vstd::prelude::*;
use crate::quality::{MetricQuality, MetricValue, metric_absent, owned};
use crate::strs::{trim, trim_chars, CharClass, lower_seq, lower_chars};
use crate::text::{str_chars, chars_to_string};
use crate::sysinfo::cpu::{le_units, REG_SZ, REG_EXPAND_SZ};
use crate::sysinfo::devices::{REG_MULTI_SZ, units_of, zero_index, decode_text_prefix};
use crate::sysinfo::computer_os::first_zero_unit;

verus! {

/// Largest registry value read, in bytes.
pub const MAX_REGISTRY_DATA_BYTES: usize = 65536;
/// Largest registry name read, in UTF-16 units.
pub const MAX_REGISTRY_NAME_CHARS: usize = 65536;
/// First name buffer, in UTF-16 units.
pub const INITIAL_REGISTRY_NAME_CHARS: usize = 256;
/// First data buffer, in bytes.
pub const INITIAL_REGISTRY_DATA_BYTES: usize = 1024;

// ---------------------------------------------------------------------------
// Decoding registry strings.

/// Every unit from `i` on is NUL.
pub open spec fn all_zero_from(units: Seq<u16>, i: int) -> bool {
    forall|j: int| i <= j < units.len() ==> units[j] == 0
}

/// First NUL at or after `i` (`units.len()` when there is none).
pub open spec fn next_zero(units: Seq<u16>, i: int) -> int
    decreases units.len() - i,
{
    if i < 0 || i >= units.len() {
        units.len() as int
    } else if units[i] == 0 {
        i
    } else {
        next_zero(units, i + 1)
    }
}

/// The segments of a `REG_MULTI_SZ` from `start` on are valid UTF-16 and
/// end in an empty segment followed by nothing but NULs.
pub open spec fn multi_sz_ok(units: Seq<u16>, start: int) -> bool
    decreases units.len() - start,
{
    let z = next_zero(units, start);
    if start < 0 || start > units.len() || z >= units.len() {
        false
    } else if z == start {
        all_zero_from(units, start)
    } else {
        proof { lemma_next_zero_ge(units, start); }
        crate::text::utf16_strict(units.subrange(start, z)) is Some && multi_sz_ok(units, z + 1)
    }
}

/// The first NUL at or after `i` is not before `i`.
pub proof fn lemma_next_zero_ge(units: Seq<u16>, i: int)
    requires
        0 <= i <= units.len(),
    ensures
        i <= next_zero(units, i),
    decreases units.len() - i,
{
    if i < units.len() && units[i] != 0 {
        lemma_next_zero_ge(units, i + 1);
    }
}

/// A registry string value: a string type, an even length, a NUL
/// terminator; for `REG_SZ`/`REG_EXPAND_SZ` nothing but NULs after it and a
/// NUL last; for `REG_MULTI_SZ` a double NUL at the end and every segment
/// valid; then the first string, valid UTF-16, trimmed, and not blank.
pub open spec fn env_string_spec(data_type: u32, bytes: Seq<u8>) -> Option<Seq<char>> {
    if (data_type != REG_SZ && data_type != REG_EXPAND_SZ && data_type != REG_MULTI_SZ) || bytes.len() % 2 != 0 {
        None
    } else {
        let units = le_units(bytes);
        let end = first_zero_unit(units);
        if end >= units.len() {
            None
        } else if data_type != REG_MULTI_SZ && (units.last() != 0 || !all_zero_from(units, end + 1)) {
            None
        } else if data_type == REG_MULTI_SZ && !(units.len() >= 2 && units[units.len() - 2] == 0 && units.last() == 0
            && multi_sz_ok(units, 0)) {
            None
        } else {
            match crate::text::utf16_strict(units.take(end)) {
                None => None,
                Some(t) => {
                    let v = trim(t, CharClass::Whitespace);
                    if v.len() == 0 { None } else { Some(v) }
                },
            }
        }
    }
}

proof fn lemma_next_zero_at(units: Seq<u16>, st: int, idx: int)
    requires
        0 <= st <= idx < units.len(),
        units[idx] == 0,
        forall|j: int| st <= j < idx ==> units[j] != 0,
    ensures
        next_zero(units, st) == idx,
    decreases idx - st,
{
    if st < idx {
        lemma_next_zero_at(units, st + 1, idx);
    }
}

proof fn lemma_next_zero_none(units: Seq<u16>, st: int)
    requires
        0 <= st <= units.len(),
        forall|j: int| st <= j < units.len() ==> units[j] != 0,
    ensures
        next_zero(units, st) == units.len(),
    decreases units.len() - st,
{
    if st < units.len() {
        lemma_next_zero_none(units, st + 1);
    }
}

fn all_zero_exec(units: &[u16], from: usize) -> (r: bool)
    ensures
        r == all_zero_from(units@, from as int),
{
    let mut j = from;
    while j < units.len()
        invariant
            from <= j <= units@.len() || (j == from && from > units@.len()),
            forall|t: int| from <= t < j && t < units@.len() ==> units@[t] == 0,
        decreases units@.len() - j,
    {
        if units[j] != 0 {
            return false;
        }
        j += 1;
    }
    true
}

fn multi_sz_check(units: &[u16]) -> (r: bool)
    ensures
        r == multi_sz_ok(units@, 0),
{
    let n = units.len();
    let mut start: usize = 0;
    let mut index: usize = 0;
    while index < n
        invariant
            n == units@.len(),
            start <= index <= n,
            forall|j: int| start <= j < index ==> units@[j] != 0,
            multi_sz_ok(units@, 0) == multi_sz_ok(units@, start as int),
        decreases n - index,
    {
        if units[index] == 0 {
            proof { lemma_next_zero_at(units@, start as int, index as int); }
            if index == start {
                return all_zero_exec(units, index);
            }
            let seg = vstd::slice::slice_subrange(units, start, index);
            assert(seg@ =~= units@.subrange(start as int, index as int));
            match crate::text::string_from_utf16(seg) {
                None => { return false; },
                Some(_) => {},
            }
            start = index + 1;
        }
        index += 1;
    }
    proof { lemma_next_zero_none(units@, start as int); }
    false
}

/// Decodes a registry string value (see [`env_string_spec`]).
pub fn decode_env_string(data_type: u32, data: &[u8]) -> (r: Option<String>)
    ensures
        match r {
            Some(s) => env_string_spec(data_type, data@) == Some(s@),
            None => env_string_spec(data_type, data@) is None,
        },
{
    if (data_type != REG_SZ && data_type != REG_EXPAND_SZ && data_type != REG_MULTI_SZ) || data.len() % 2 != 0 {
        return None;
    }
    let units = units_of(data);
    let end = zero_index(units.as_slice());
    if end >= units.len() {
        return None;
    }
    let m = units.len();
    if data_type != REG_MULTI_SZ {
        if units[m - 1] != 0 || !all_zero_exec(units.as_slice(), end + 1) {
            return None;
        }
    } else {
        if !(m >= 2 && units[m - 2] == 0 && units[m - 1] == 0) || !multi_sz_check(units.as_slice()) {
            return None;
        }
    }
    match decode_text_prefix(units.as_slice(), end) {
        None => None,
        Some(v) => if v.as_str().is_empty() { None } else { Some(v) },
    }
}

// ---------------------------------------------------------------------------
// Buffer sizes for the registry reads.

/// The first data buffer for a value of `required` bytes; `None` above the
/// limit.
pub fn initial_query_capacity(required: usize) -> (c: Option<usize>)
    ensures
        c == (if required > MAX_REGISTRY_DATA_BYTES { None::<usize> }
            else if required > INITIAL_REGISTRY_DATA_BYTES { Some(required) }
            else { Some(INITIAL_REGISTRY_DATA_BYTES) }),
{
    if required > MAX_REGISTRY_DATA_BYTES {
        None
    } else if required > INITIAL_REGISTRY_DATA_BYTES {
        Some(required)
    } else {
        Some(INITIAL_REGISTRY_DATA_BYTES)
    }
}

/// `v * 2`, saturating at `usize::MAX`.
pub open spec fn doubled(v: usize) -> usize {
    if 2 * v > usize::MAX { usize::MAX } else { (2 * v) as usize }
}

fn double_saturating(v: usize) -> (d: usize)
    ensures
        d == doubled(v),
{
    match v.checked_mul(2) {
        Some(d) => d,
        None => usize::MAX,
    }
}

/// The buffer to retry with after `ERROR_MORE_DATA`: the reported size or
/// twice the current one, whichever is larger; `None` when that does not
/// grow the buffer or exceeds the limit.
pub open spec fn next_capacity_spec(capacity: usize, reported: usize) -> Option<usize> {
    let next = if reported > doubled(capacity) { reported } else { doubled(capacity) };
    if next <= capacity || next > MAX_REGISTRY_DATA_BYTES { None } else { Some(next) }
}

/// Grows a value buffer (see [`next_capacity_spec`]).
pub fn next_query_capacity(capacity: usize, reported: usize) -> (c: Option<usize>)
    ensures
        c == next_capacity_spec(capacity, reported),
{
    let d = double_saturating(capacity);
    let next = if reported > d { reported } else { d };
    if next <= capacity || next > MAX_REGISTRY_DATA_BYTES { None } else { Some(next) }
}

/// The name buffer to retry with after `ERROR_MORE_DATA` when `name_len`
/// units were reported: room for the name and its NUL or twice the current
/// buffer, capped; `None` when the name is over the limit or nothing grows.
pub open spec fn next_name_capacity_spec(capacity: usize, name_len: usize) -> Option<usize> {
    let required = if name_len == usize::MAX { usize::MAX } else { (name_len + 1) as usize };
    let next = if required > doubled(capacity) { required } else { doubled(capacity) };
    if required > MAX_REGISTRY_NAME_CHARS || next <= capacity {
        None
    } else {
        Some(if next > MAX_REGISTRY_NAME_CHARS { MAX_REGISTRY_NAME_CHARS } else { next })
    }
}

/// Grows a name buffer (see [`next_name_capacity_spec`]).
pub fn next_name_capacity(capacity: usize, name_len: usize) -> (c: Option<usize>)
    ensures
        c == next_name_capacity_spec(capacity, name_len),
{
    let required = if name_len == usize::MAX { usize::MAX } else { name_len + 1 };
    let d = double_saturating(capacity);
    let next = if required > d { required } else { d };
    if required > MAX_REGISTRY_NAME_CHARS || next <= capacity {
        None
    } else {
        Some(if next > MAX_REGISTRY_NAME_CHARS { MAX_REGISTRY_NAME_CHARS } else { next })
    }
}

/// The name and data buffers to retry a value enumeration with; `None`
/// when either is over its limit or either would not grow.
pub open spec fn next_enum_buffers_spec(name_cap: usize, data_cap: usize, name_len: usize, data_len: usize)
    -> Option<(usize, usize)>
{
    let required_name = if name_len == usize::MAX { usize::MAX } else { (name_len + 1) as usize };
    let next_name = if required_name > doubled(name_cap) { required_name } else { doubled(name_cap) };
    let next_data = if data_len > doubled(data_cap) { data_len } else { doubled(data_cap) };
    if required_name > MAX_REGISTRY_NAME_CHARS || data_len > MAX_REGISTRY_DATA_BYTES
        || next_name <= name_cap || next_data <= data_cap {
        None
    } else {
        Some((if next_name > MAX_REGISTRY_NAME_CHARS { MAX_REGISTRY_NAME_CHARS } else { next_name },
            if next_data > MAX_REGISTRY_DATA_BYTES { MAX_REGISTRY_DATA_BYTES } else { next_data }))
    }
}

/// Grows the buffers of a value enumeration (see [`next_enum_buffers_spec`]).
pub fn next_enum_buffers(name_cap: usize, data_cap: usize, name_len: usize, data_len: usize) -> (r: Option<(usize, usize)>)
    ensures
        r == next_enum_buffers_spec(name_cap, data_cap, name_len, data_len),
{
    let required_name = if name_len == usize::MAX { usize::MAX } else { name_len + 1 };
    let dn = double_saturating(name_cap);
    let dd = double_saturating(data_cap);
    let next_name = if required_name > dn { required_name } else { dn };
    let next_data = if data_len > dd { data_len } else { dd };
    if required_name > MAX_REGISTRY_NAME_CHARS || data_len > MAX_REGISTRY_DATA_BYTES
        || next_name <= name_cap || next_data <= data_cap {
        None
    } else {
        Some((if next_name > MAX_REGISTRY_NAME_CHARS { MAX_REGISTRY_NAME_CHARS } else { next_name },
            if next_data > MAX_REGISTRY_DATA_BYTES { MAX_REGISTRY_DATA_BYTES } else { next_data }))
    }
}

// ---------------------------------------------------------------------------
// Startup entries and installed applications.

/// One startup entry.
pub struct StartupEntry {
    pub name: String,
    pub command: String,
    /// "HKCU\\Run", "HKLM\\RunOnce", ...
    pub source: String,
    pub enabled: bool,
}

/// One installed application.
pub struct InstalledAppEntry {
    pub name: String,
    pub version: MetricValue<String>,
    pub publisher: MetricValue<String>,
    pub install_date: MetricValue<String>,
    pub install_location: MetricValue<String>,
}

/// Security figures.
pub struct SecurityStatusInfo {
    pub secure_boot_enabled: MetricValue<bool>,
    pub tpm_present: MetricValue<bool>,
    pub tpm_version: MetricValue<String>,
    pub defender_enabled: MetricValue<bool>,
    pub defender_realtime_protection: MetricValue<bool>,
    pub firewall_domain_enabled: MetricValue<bool>,
    pub firewall_private_enabled: MetricValue<bool>,
    pub firewall_public_enabled: MetricValue<bool>,
}

/// One service.
pub struct ServiceSummaryItem {
    pub name: String,
    pub display_name: String,
    pub status: String,
}

/// The Windows environment.
pub struct WindowsEnvSnapshot {
    pub startup_items: Vec<StartupEntry>,
    pub installed_apps_sample: Vec<InstalledAppEntry>,
    pub security_status: SecurityStatusInfo,
    pub active_services_sample: Vec<ServiceSummaryItem>,
}

/// A registry value as `RegQueryValueExW`/`RegEnumValueW` returned it.
pub struct RegistryValueReading {
    pub data_type: u32,
    pub data: Vec<u8>,
}

/// The values read under one uninstall subkey (`None` where the value
/// could not be read).
pub struct UninstallAppReading {
    pub name: Option<RegistryValueReading>,
    pub version: Option<RegistryValueReading>,
    pub publisher: Option<RegistryValueReading>,
    pub install_date: Option<RegistryValueReading>,
    pub install_location: Option<RegistryValueReading>,
}

/// One value enumerated under a Run/RunOnce key: the label of the key, the
/// value's name as returned, and its data.
pub struct RunValueReading {
    pub source: String,
    pub name_units: Vec<u16>,
    pub value: RegistryValueReading,
}

/// Source name of the uninstall data.
pub open spec fn registry_source() -> Seq<char> {
    "Windows_Registry_Uninstall"@
}

/// The text of a registry value, if it decodes.
pub open spec fn reg_text(v: Option<RegistryValueReading>) -> Option<Seq<char>> {
    match v {
        None => None,
        Some(r) => env_string_spec(r.data_type, r.data@),
    }
}

/// Decodes an optional registry value.
pub fn read_registry_text(v: &Option<RegistryValueReading>) -> (r: Option<String>)
    ensures
        match r {
            Some(s) => reg_text(*v) == Some(s@),
            None => reg_text(*v) is None,
        },
{
    match v {
        None => None,
        Some(x) => decode_env_string(x.data_type, x.data.as_slice()),
    }
}

/// The metric of an optional registry text: the trimmed text, or no value
/// when the registry gave none or only blanks.
pub open spec fn registry_metric_ok(m: MetricValue<String>, value: Option<Seq<char>>, ts: u64) -> bool {
    match value {
        Some(v) if trim(v, CharClass::Whitespace).len() > 0 => crate::quality::text_metric_present(m,
            trim(v, CharClass::Whitespace), ""@, MetricQuality::Good, registry_source(), ts),
        _ => metric_absent(m, ""@, MetricQuality::Unavailable, registry_source(), "注册表未提供该字段"@, ts),
    }
}

/// The view of an optional string slice.
pub open spec fn opt_text(v: Option<&str>) -> Option<Seq<char>> {
    match v {
        Some(s) => Some(s@),
        None => None,
    }
}

/// Turns an optional registry text into a metric; a missing field gets no
/// sample text.
pub fn registry_metric(value: Option<&str>, timestamp: u64) -> (m: MetricValue<String>)
    ensures
        registry_metric_ok(m, opt_text(value), timestamp),
{
    match value {
        Some(v) => {
            let cs = str_chars(v);
            let t = trim_chars(cs.as_slice(), CharClass::Whitespace);
            if t.len() > 0 {
                MetricValue::good_at(chars_to_string(t.as_slice()), "", "Windows_Registry_Uninstall", timestamp)
            } else {
                MetricValue::unavailable_at("", "Windows_Registry_Uninstall", "注册表未提供该字段", timestamp)
            }
        },
        None => MetricValue::unavailable_at("", "Windows_Registry_Uninstall", "注册表未提供该字段", timestamp),
    }
}

/// An application from its registry fields; the install location is not
/// among them.
pub fn app_from_registry_values(
    name: Option<&str>,
    version: Option<&str>,
    publisher: Option<&str>,
    install_date: Option<&str>,
    timestamp: u64,
) -> (a: InstalledAppEntry)
    ensures
        a.name@ == (match name { Some(n) => trim(n@, CharClass::Whitespace), None => Seq::<char>::empty() }),
        registry_metric_ok(a.version, opt_text(version), timestamp),
        registry_metric_ok(a.publisher, opt_text(publisher), timestamp),
        registry_metric_ok(a.install_date, opt_text(install_date), timestamp),
        metric_absent(a.install_location, ""@, MetricQuality::Unavailable, registry_source(),
            "注册表 helper 未提供安装位置"@, timestamp),
{
    let n = match name {
        Some(n) => {
            let cs = str_chars(n);
            chars_to_string(trim_chars(cs.as_slice(), CharClass::Whitespace).as_slice())
        },
        None => String::new(),
    };
    InstalledAppEntry {
        name: n,
        version: registry_metric(version, timestamp),
        publisher: registry_metric(publisher, timestamp),
        install_date: registry_metric(install_date, timestamp),
        install_location: MetricValue::unavailable_at("", "Windows_Registry_Uninstall",
            "注册表 helper 未提供安装位置", timestamp),
    }
}

/// The name an application is listed under.
pub open spec fn app_name(r: UninstallAppReading) -> Seq<char> {
    trim(reg_text(r.name)->0, CharClass::Whitespace)
}

/// `a` lists the application read as `r`.
pub open spec fn app_ok(a: InstalledAppEntry, r: UninstallAppReading, ts: u64) -> bool {
    &&& a.name@ == app_name(r)
    &&& registry_metric_ok(a.version, reg_text(r.version), ts)
    &&& registry_metric_ok(a.publisher, reg_text(r.publisher), ts)
    &&& registry_metric_ok(a.install_date, reg_text(r.install_date), ts)
    &&& registry_metric_ok(a.install_location, reg_text(r.install_location), ts)
}

/// Which readings are listed: those with a name, unless an application
/// listed before has the same name up to ASCII case.
pub open spec fn kept_apps(rs: Seq<UninstallAppReading>) -> Seq<int>
    decreases rs.len(),
{
    if rs.len() == 0 {
        Seq::empty()
    } else {
        let prev = kept_apps(rs.drop_last());
        if reg_text(rs.last().name) is None {
            prev
        } else if exists|k: int| 0 <= k < prev.len()
            && lower_seq(app_name(rs[#[trigger] prev[k]])) == lower_seq(app_name(rs.last())) {
            prev
        } else {
            prev.push(rs.len() - 1)
        }
    }
}

proof fn lemma_kept_apps_bounds(rs: Seq<UninstallAppReading>)
    ensures
        forall|k: int| 0 <= k < kept_apps(rs).len() ==> 0 <= #[trigger] kept_apps(rs)[k] < rs.len(),
    decreases rs.len(),
{
    if rs.len() > 0 {
        lemma_kept_apps_bounds(rs.drop_last());
        let prev = kept_apps(rs.drop_last());
        assert(kept_apps(rs) == prev || kept_apps(rs) == prev.push(rs.len() - 1));
    }
}

/// Whether two names are equal up to ASCII case.
pub fn eq_ignore_ascii_case(a: &str, b: &str) -> (r: bool)
    ensures
        r == (lower_seq(a@) == lower_seq(b@)),
{
    let x = lower_chars(str_chars(a).as_slice());
    let y = lower_chars(str_chars(b).as_slice());
    if x.len() != y.len() {
        assert(x@.len() != y@.len());
        return false;
    }
    let mut i: usize = 0;
    while i < x.len()
        invariant
            i <= x@.len() == y@.len(),
            x@ == lower_seq(a@),
            y@ == lower_seq(b@),
            forall|t: int| 0 <= t < i ==> x@[t] == y@[t],
        decreases x@.len() - i,
    {
        if x[i] != y[i] {
            assert(x@[i as int] != y@[i as int]);
            return false;
        }
        i += 1;
    }
    assert(x@ =~= y@);
    true
}

/// Lists the installed applications of the uninstall readings, in order,
/// one per name up to ASCII case.
pub fn merge_installed_apps(readings: &Vec<UninstallAppReading>, timestamp: u64) -> (out: Vec<InstalledAppEntry>)
    ensures
        out@.len() == kept_apps(readings@).len(),
        forall|k: int| 0 <= k < out@.len() ==> app_ok(#[trigger] out@[k], readings@[kept_apps(readings@)[k]], timestamp),
{
    let mut out: Vec<InstalledAppEntry> = Vec::new();
    let n = readings.len();
    for i in 0..n
        invariant
            n == readings@.len(),
            out@.len() == kept_apps(readings@.take(i as int)).len(),
            forall|k: int| 0 <= k < out@.len() ==> app_ok(#[trigger] out@[k], readings@[kept_apps(readings@.take(i as int))[k]], timestamp),
    {
        let ghost before = readings@.take(i as int);
        let ghost prev = kept_apps(before);
        proof {
            lemma_kept_apps_bounds(before);
            assert(readings@.take(i + 1).drop_last() =~= before);
            assert(readings@.take(i + 1).last() == readings@[i as int]);
            assert forall|k: int| 0 <= k < prev.len() implies readings@.take(i + 1)[#[trigger] prev[k]] == readings@[prev[k]] by {}
        }
        let r = &readings[i];
        match read_registry_text(&r.name) {
            None => {},
            Some(name) => {
                let version = read_registry_text(&r.version);
                let publisher = read_registry_text(&r.publisher);
                let install_date = read_registry_text(&r.install_date);
                let location = read_registry_text(&r.install_location);
                let mut app = app_from_registry_values(
                    Some(name.as_str()),
                    match &version { Some(v) => Some(v.as_str()), None => None },
                    match &publisher { Some(v) => Some(v.as_str()), None => None },
                    match &install_date { Some(v) => Some(v.as_str()), None => None },
                    timestamp,
                );
                app.install_location = registry_metric(match &location { Some(v) => Some(v.as_str()), None => None }, timestamp);
                let mut dup = false;
                let mut k: usize = 0;
                while k < out.len() && !dup
                    invariant
                        k <= out@.len() == prev.len(),
                        app.name@ == app_name(readings@[i as int]),
                        forall|t: int| 0 <= t < out@.len() ==> app_ok(#[trigger] out@[t], readings@[prev[t]], timestamp),
                        dup <==> exists|t: int| 0 <= t < k && lower_seq(app_name(readings@[#[trigger] prev[t]])) == lower_seq(app_name(readings@[i as int])),
                    decreases out@.len() - k + (if dup { 0int } else { 1int }),
                {
                    assert(out@[k as int].name@ == app_name(readings@[prev[k as int]]));
                    if eq_ignore_ascii_case(out[k].name.as_str(), app.name.as_str()) {
                        dup = true;
                    }
                    k += 1;
                }
                if !dup {
                    out.push(app);
                }
            },
        }
    }
    assert(readings@.take(n as int) =~= readings@);
    out
}

/// The startup entry of a value: its name decoded strictly and trimmed,
/// not blank, and its data a registry string.
pub open spec fn run_entry_spec(r: RunValueReading) -> Option<(Seq<char>, Seq<char>, Seq<char>)> {
    match crate::text::utf16_strict(r.name_units@) {
        None => None,
        Some(n) => {
            let name = trim(n, CharClass::Whitespace);
            if name.len() == 0 {
                None
            } else {
                match env_string_spec(r.value.data_type, r.value.data@) {
                    None => None,
                    Some(c) => Some((name, c, r.source@)),
                }
            }
        },
    }
}

/// What a startup entry shows: name, command, source, enabled.
pub open spec fn startup_view(e: StartupEntry) -> (Seq<char>, Seq<char>, Seq<char>, bool) {
    (e.name@, e.command@, e.source@, e.enabled)
}

/// The startup entry of one enumerated value, if it has a name and a
/// command.
pub fn startup_from_reading(r: &RunValueReading) -> (e: Option<StartupEntry>)
    ensures
        match e {
            None => run_entry_spec(*r) is None,
            Some(e) => run_entry_spec(*r) matches Some(v)
                && startup_view(e) == (v.0, v.1, v.2, true),
        },
{
    let text = match crate::text::string_from_utf16(r.name_units.as_slice()) {
        None => { return None; },
        Some(t) => t,
    };
    let cs = str_chars(text.as_str());
    let t = trim_chars(cs.as_slice(), CharClass::Whitespace);
    if t.len() == 0 {
        return None;
    }
    let command = match decode_env_string(r.value.data_type, r.value.data.as_slice()) {
        None => { return None; },
        Some(c) => c,
    };
    Some(StartupEntry { name: chars_to_string(t.as_slice()), command, source: owned(r.source.as_str()), enabled: true })
}

/// Which values are listed: those that make an entry, unless an equal
/// entry was listed before.
pub open spec fn kept_runs(rs: Seq<RunValueReading>) -> Seq<int>
    decreases rs.len(),
{
    if rs.len() == 0 {
        Seq::empty()
    } else {
        let prev = kept_runs(rs.drop_last());
        match run_entry_spec(rs.last()) {
            None => prev,
            Some(v) => if exists|k: int| 0 <= k < prev.len() && run_entry_spec(rs[#[trigger] prev[k]]) == Some(v) {
                prev
            } else {
                prev.push(rs.len() - 1)
            },
        }
    }
}

proof fn lemma_kept_runs_bounds(rs: Seq<RunValueReading>)
    ensures
        forall|k: int| 0 <= k < kept_runs(rs).len() ==> 0 <= #[trigger] kept_runs(rs)[k] < rs.len()
            && run_entry_spec(rs[kept_runs(rs)[k]]) is Some,
    decreases rs.len(),
{
    if rs.len() > 0 {
        lemma_kept_runs_bounds(rs.drop_last());
    }
}

/// `e` is the entry of reading `r`.
pub open spec fn run_ok(e: StartupEntry, r: RunValueReading) -> bool {
    run_entry_spec(r) matches Some(v) && startup_view(e) == (v.0, v.1, v.2, true)
}

fn same_entry(a: &StartupEntry, b: &StartupEntry) -> (r: bool)
    ensures
        r == (startup_view(*a) == startup_view(*b)),
{
    crate::text::str_eq(a.name.as_str(), b.name.as_str())
        && crate::text::str_eq(a.command.as_str(), b.command.as_str())
        && crate::text::str_eq(a.source.as_str(), b.source.as_str())
        && a.enabled == b.enabled
}

/// Lists the startup entries of the enumerated values, in order, without
/// repeating an equal entry.
pub fn merge_startup_entries(readings: &Vec<RunValueReading>) -> (out: Vec<StartupEntry>)
    ensures
        out@.len() == kept_runs(readings@).len(),
        forall|k: int| 0 <= k < out@.len() ==> run_ok(#[trigger] out@[k], readings@[kept_runs(readings@)[k]]),
{
    let mut out: Vec<StartupEntry> = Vec::new();
    let n = readings.len();
    for i in 0..n
        invariant
            n == readings@.len(),
            out@.len() == kept_runs(readings@.take(i as int)).len(),
            forall|k: int| 0 <= k < out@.len() ==> run_ok(#[trigger] out@[k], readings@[kept_runs(readings@.take(i as int))[k]]),
    {
        let ghost before = readings@.take(i as int);
        let ghost prev = kept_runs(before);
        proof {
            lemma_kept_runs_bounds(before);
            assert(readings@.take(i + 1).drop_last() =~= before);
            assert(readings@.take(i + 1).last() == readings@[i as int]);
            assert forall|k: int| 0 <= k < prev.len() implies readings@.take(i + 1)[#[trigger] prev[k]] == readings@[prev[k]] by {}
        }
        match startup_from_reading(&readings[i]) {
            None => {},
            Some(e) => {
                let mut dup = false;
                let mut k: usize = 0;
                while k < out.len() && !dup
                    invariant
                        k <= out@.len() == prev.len(),
                        run_ok(e, readings@[i as int]),
                        forall|t: int| 0 <= t < out@.len() ==> run_ok(#[trigger] out@[t], readings@[prev[t]]),
                        dup <==> exists|t: int| 0 <= t < k && run_entry_spec(readings@[#[trigger] prev[t]]) == run_entry_spec(readings@[i as int]),
                    decreases out@.len() - k + (if dup { 0int } else { 1int }),
                {
                    assert(run_ok(out@[k as int], readings@[prev[k as int]]));
                    if same_entry(&out[k], &e) {
                        dup = true;
                    }
                    k += 1;
                }
                if !dup {
                    out.push(e);
                }
            },
        }
    }
    assert(readings@.take(n as int) =~= readings@);
    out
}

// ---------------------------------------------------------------------------
// The snapshot.

/// Source name of the security figures.
pub open spec fn security_source() -> Seq<char> {
    "Windows_SecurityProvider"@
}

/// A security figure without a reliable provider.
pub open spec fn security_unknown<T>(m: MetricValue<T>, ts: u64) -> bool {
    metric_absent(m, ""@, MetricQuality::Unsupported, security_source(),
        "未接入可靠的 Secure Boot/TPM/Defender/Firewall Provider"@, ts)
}

/// A security figure that cannot be read reliably: no value, `Unsupported`.
pub fn unsupported_security<T>(timestamp: u64) -> (m: MetricValue<T>)
    ensures
        security_unknown(m, timestamp),
{
    MetricValue::unsupported_at("", "Windows_SecurityProvider",
        "未接入可靠的 Secure Boot/TPM/Defender/Firewall Provider", timestamp)
}

/// The Windows environment of the enumerated startup values and uninstall
/// readings; every security figure unsupported and no service listed (no
/// service provider exists yet).
pub fn collect_windows_env(runs: &Vec<RunValueReading>, apps: &Vec<UninstallAppReading>, timestamp: u64)
    -> (w: WindowsEnvSnapshot)
    ensures
        w.startup_items@.len() == kept_runs(runs@).len(),
        forall|k: int| 0 <= k < w.startup_items@.len() ==> run_ok(#[trigger] w.startup_items@[k], runs@[kept_runs(runs@)[k]]),
        w.installed_apps_sample@.len() == kept_apps(apps@).len(),
        forall|k: int| 0 <= k < w.installed_apps_sample@.len() ==> app_ok(#[trigger] w.installed_apps_sample@[k], apps@[kept_apps(apps@)[k]], timestamp),
        security_unknown(w.security_status.secure_boot_enabled, timestamp),
        security_unknown(w.security_status.tpm_present, timestamp),
        security_unknown(w.security_status.tpm_version, timestamp),
        security_unknown(w.security_status.defender_enabled, timestamp),
        security_unknown(w.security_status.defender_realtime_protection, timestamp),
        security_unknown(w.security_status.firewall_domain_enabled, timestamp),
        security_unknown(w.security_status.firewall_private_enabled, timestamp),
        security_unknown(w.security_status.firewall_public_enabled, timestamp),
        w.active_services_sample@.len() == 0,
{
    WindowsEnvSnapshot {
        startup_items: merge_startup_entries(runs),
        installed_apps_sample: merge_installed_apps(apps, timestamp),
        security_status: SecurityStatusInfo {
            secure_boot_enabled: unsupported_security(timestamp),
            tpm_present: unsupported_security(timestamp),
            tpm_version: unsupported_security(timestamp),
            defender_enabled: unsupported_security(timestamp),
            defender_realtime_protection: unsupported_security(timestamp),
            firewall_domain_enabled: unsupported_security(timestamp),
            firewall_private_enabled: unsupported_security(timestamp),
            firewall_public_enabled: unsupported_security(timestamp),
        },
        active_services_sample: Vec::new(),
    }
}

} // verus!
