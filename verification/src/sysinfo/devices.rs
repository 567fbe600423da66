//! Plug-and-play devices from SetupAPI: property strings decoded from the
//! returned UTF-16 bytes, vendor and product ids taken only from well-formed
//! hardware-id tokens, and devices grouped by bus without deduplication.

use vstd::prelude::*;
use crate::quality::{CollectionStatus, CollectorResult, MetricQuality, stable_device_id, owned};
use crate::strs::{trim, trim_chars, CharClass, upper_seq, upper_chars, starts_with, starts_with_at};
use crate::text::{str_chars, chars_to_string};
use crate::sysinfo::cpu::{le_units, REG_SZ, REG_EXPAND_SZ};
use crate::sysinfo::computer_os::first_zero_unit;

verus! {

/// `REG_MULTI_SZ`.
pub const REG_MULTI_SZ: u32 = 7;

/// A plug-and-play device.
#[derive(Clone, Debug)]
pub struct PnpDeviceEntry {
    pub device_name: String,
    pub friendly_name: String,
    pub manufacturer: String,
    pub device_class: String,
    pub hardware_id: String,
    pub instance_id: String,
    pub vendor_id: Option<String>,
    pub product_id: Option<String>,
    /// `USB`, `PCI` or `PnP`.
    pub bus_type: String,
}

/// Devices grouped by bus.
#[derive(Clone, Debug)]
pub struct DevicesSnapshot {
    pub usb_devices: Vec<PnpDeviceEntry>,
    pub pci_devices: Vec<PnpDeviceEntry>,
    pub other_pnp_devices: Vec<PnpDeviceEntry>,
}

/// Ends with two NUL code units.
pub open spec fn double_terminated(units: Seq<u16>) -> bool {
    units.len() >= 2 && units[units.len() - 2] == 0 && units.last() == 0
}

/// The first string of a device property: a string type, an even length, a
/// NUL before the end, for `REG_MULTI_SZ` a double NUL at the end, and valid
/// UTF-16; trimmed.
pub open spec fn device_string_spec(data_type: u32, bytes: Seq<u8>) -> Option<Seq<char>> {
    if (data_type != REG_SZ && data_type != REG_EXPAND_SZ && data_type != REG_MULTI_SZ) || bytes.len() % 2 != 0 {
        None
    } else {
        let units = le_units(bytes);
        let end = first_zero_unit(units);
        if end >= units.len() || (data_type == REG_MULTI_SZ && !double_terminated(units)) {
            None
        } else {
            match crate::text::utf16_strict(units.take(end)) {
                None => None,
                Some(t) => Some(trim(t, CharClass::Whitespace)),
            }
        }
    }
}

pub(crate) fn units_of(bytes: &[u8]) -> (units: Vec<u16>)
    requires
        bytes@.len() % 2 == 0,
    ensures
        units@ == le_units(bytes@),
{
    let n = bytes.len();
    let mut units: Vec<u16> = Vec::new();
    let mut i: usize = 0;
    while i < n / 2
        invariant
            n == bytes@.len(),
            n % 2 == 0,
            i <= n / 2,
            units@ =~= le_units(bytes@).take(i as int),
        decreases n / 2 - i,
    {
        let lo = bytes[2 * i] as u16;
        let hi = bytes[2 * i + 1] as u16;
        units.push(lo + 256 * hi);
        i += 1;
    }
    assert(le_units(bytes@).take((n / 2) as int) =~= le_units(bytes@));
    units
}

pub(crate) fn zero_index(units: &[u16]) -> (e: usize)
    ensures
        e as int == first_zero_unit(units@),
        e <= units@.len(),
{
    let n = units.len();
    let mut end: usize = 0;
    assert(units@.skip(0) =~= units@);
    while end < n && units[end] != 0
        invariant
            end <= n == units@.len(),
            first_zero_unit(units@) == end + first_zero_unit(units@.skip(end as int)),
        decreases n - end,
    {
        assert(units@.skip(end as int).drop_first() =~= units@.skip(end + 1));
        end += 1;
    }
    if end == n {
        assert(units@.skip(n as int) =~= Seq::<u16>::empty());
    }
    end
}

pub(crate) fn decode_text_prefix(units: &[u16], end: usize) -> (r: Option<String>)
    requires
        end <= units@.len(),
    ensures
        match r {
            Some(s) => crate::text::utf16_strict(units@.take(end as int)) matches Some(t) && s@ == trim(t, CharClass::Whitespace),
            None => crate::text::utf16_strict(units@.take(end as int)) is None,
        },
{
    let head = vstd::slice::slice_subrange(units, 0, end);
    assert(head@ =~= units@.take(end as int));
    match crate::text::string_from_utf16(head) {
        None => None,
        Some(text) => {
            let cs = str_chars(text.as_str());
            let t = trim_chars(cs.as_slice(), CharClass::Whitespace);
            Some(chars_to_string(t.as_slice()))
        },
    }
}

/// Decodes a device property (see [`device_string_spec`]).
pub fn decode_device_string(data_type: u32, bytes: &[u8]) -> (r: Option<String>)
    ensures
        match r {
            Some(s) => device_string_spec(data_type, bytes@) == Some(s@),
            None => device_string_spec(data_type, bytes@) is None,
        },
{
    if (data_type != REG_SZ && data_type != REG_EXPAND_SZ && data_type != REG_MULTI_SZ) || bytes.len() % 2 != 0 {
        return None;
    }
    let units = units_of(bytes);
    let end = zero_index(units.as_slice());
    if end >= units.len() {
        return None;
    }
    if data_type == REG_MULTI_SZ {
        let m = units.len();
        if !(m >= 2 && units[m - 2] == 0 && units[m - 1] == 0) {
            return None;
        }
    }
    decode_text_prefix(units.as_slice(), end)
}

/// A device instance id: the returned code units up to the first NUL, valid
/// UTF-16, trimmed; empty text otherwise.
pub open spec fn instance_id_spec(units: Seq<u16>) -> Seq<char> {
    let end = first_zero_unit(units);
    if end >= units.len() {
        Seq::empty()
    } else {
        match crate::text::utf16_strict(units.take(end)) {
            None => Seq::empty(),
            Some(t) => trim(t, CharClass::Whitespace),
        }
    }
}

/// Decodes the code units returned for a device instance id.
pub fn decode_instance_id(units: &[u16]) -> (s: String)
    ensures
        s@ == instance_id_spec(units@),
{
    let end = zero_index(units);
    if end >= units.len() {
        return String::new();
    }
    match decode_text_prefix(units, end) {
        Some(s) => s,
        None => String::new(),
    }
}

/// The instance-id key of a device: hashed, never the id itself.
pub fn device_key(instance_id: &str) -> (k: String)
    ensures
        k@ == crate::quality::device_id_spec("pnp"@, seq![instance_id@]),
{
    let ids: [&str; 1] = [instance_id];
    let r = stable_device_id("pnp", &ids);
    assert(crate::quality::str_views(ids@) =~= seq![instance_id@]);
    r
}

/// ASCII letter or digit.
pub open spec fn ascii_alnum(c: char) -> bool {
    ('0' <= c && c <= '9') || ('a' <= c && c <= 'z') || ('A' <= c && c <= 'Z')
}

/// ASCII hexadecimal digit.
pub open spec fn ascii_hex(c: char) -> bool {
    ('0' <= c && c <= '9') || ('a' <= c && c <= 'f') || ('A' <= c && c <= 'F')
}

/// `token` occurs at `st` of `u` as a well-formed id field: at the start or
/// after `\`, `&` or `#`, followed by exactly four hex digits that end the
/// field.
pub open spec fn token_at(u: Seq<char>, token: Seq<char>, st: int) -> bool {
    let vs = st + token.len();
    &&& 0 <= st
    &&& vs + 4 <= u.len()
    &&& u.subrange(st, vs) == token
    &&& (st == 0 || u[st - 1] == '\\' || u[st - 1] == '&' || u[st - 1] == '#')
    &&& forall|k: int| vs <= k < vs + 4 ==> #[trigger] ascii_hex(u[k])
    &&& (vs + 4 == u.len() || (!ascii_alnum(u[vs + 4]) && u[vs + 4] != '_'))
}

/// The value of the first well-formed field `token` in the upper-cased id,
/// searching from `st`.
pub open spec fn find_token_from(u: Seq<char>, token: Seq<char>, st: int) -> Option<Seq<char>>
    decreases u.len() - st,
{
    if st < 0 || st >= u.len() || st + token.len() > u.len() {
        None
    } else if token_at(u, token, st) {
        Some(u.subrange(st + token.len(), st + token.len() + 4))
    } else {
        find_token_from(u, token, st + 1)
    }
}

/// The four hex digits after the first well-formed `token` field of a
/// hardware id (matched without regard to ASCII case, returned upper-case).
pub open spec fn hex_token_spec(hardware_id: Seq<char>, token: Seq<char>) -> Option<Seq<char>> {
    find_token_from(upper_seq(hardware_id), token, 0)
}

fn is_ascii_hex(c: char) -> (b: bool)
    ensures
        b == ascii_hex(c),
{
    ('0' <= c && c <= '9') || ('a' <= c && c <= 'f') || ('A' <= c && c <= 'F')
}

#[verifier::loop_isolation(false)]
fn token_found_at(u: &[char], token: &[char], st: usize) -> (b: bool)
    requires
        st + token@.len() <= u@.len(),
    ensures
        b == token_at(u@, token@, st as int),
{
    let n = u.len();
    let vs = st + token.len();
    if n - vs < 4 {
        return false;
    }
    let hit = starts_with_at(u, st, token);
    if !hit {
        proof {
            if u@.subrange(st as int, vs as int) == token@ {
                assert(u@.skip(st as int).take(token@.len() as int) =~= u@.subrange(st as int, vs as int));
            }
        }
        return false;
    }
    assert(u@.skip(st as int).take(token@.len() as int) =~= u@.subrange(st as int, vs as int));
    if !(st == 0 || u[st - 1] == '\\' || u[st - 1] == '&' || u[st - 1] == '#') {
        return false;
    }
    let mut k: usize = vs;
    while k < vs + 4
        invariant
            vs <= k <= vs + 4 <= n == u@.len(),
            forall|j: int| vs <= j < k ==> #[trigger] ascii_hex(u@[j]),
        decreases vs + 4 - k,
    {
        if !is_ascii_hex(u[k]) {
            assert(!ascii_hex(u@[k as int]));
            return false;
        }
        k += 1;
    }
    if vs + 4 == n {
        return true;
    }
    let c = u[vs + 4];
    let alnum = ('0' <= c && c <= '9') || ('a' <= c && c <= 'z') || ('A' <= c && c <= 'Z');
    !alnum && c != '_'
}

/// Finds a hardware-id field such as `VID_` (see [`hex_token_spec`]).
pub fn find_hex_token(hardware_id: &str, token: &str) -> (r: Option<String>)
    ensures
        match r {
            Some(s) => hex_token_spec(hardware_id@, token@) == Some(s@),
            None => hex_token_spec(hardware_id@, token@) is None,
        },
{
    let cs = str_chars(hardware_id);
    let u = upper_chars(cs.as_slice());
    let t = str_chars(token);
    let n = u.len();
    let m = t.len();
    if m > n {
        return None;
    }
    let mut st: usize = 0;
    while st <= n - m
        invariant
            m <= n == u@.len(),
            m == t@.len(),
            t@ == token@,
            u@ == upper_seq(hardware_id@),
            st <= n - m + 1,
            find_token_from(u@, t@, 0) == find_token_from(u@, t@, st as int),
        decreases n - m + 1 - st,
    {
        if token_found_at(u.as_slice(), t.as_slice(), st) {
            let v = crate::strs::sub_chars(u.as_slice(), st + m, st + m + 4);
            return Some(chars_to_string(v.as_slice()));
        }
        if st == n - m {
            assert(find_token_from(u@, t@, st + 1) is None);
            return None;
        }
        st += 1;
    }
    None
}

/// Vendor id (`VID_`, else `VEN_`) and product id (`PID_`, else `DEV_`).
pub open spec fn vid_pid_spec(hwid: Seq<char>) -> (Option<Seq<char>>, Option<Seq<char>>) {
    let v = match hex_token_spec(hwid, "VID_"@) { Some(x) => Some(x), None => hex_token_spec(hwid, "VEN_"@) };
    let p = match hex_token_spec(hwid, "PID_"@) { Some(x) => Some(x), None => hex_token_spec(hwid, "DEV_"@) };
    (v, p)
}

/// The model of an optional string.
pub open spec fn opt_text(o: Option<String>) -> Option<Seq<char>> {
    match o { Some(s) => Some(s@), None => None }
}

/// Extracts vendor and product ids from a hardware id.
pub fn extract_vid_pid(hwid: &str) -> (r: (Option<String>, Option<String>))
    ensures
        (opt_text(r.0), opt_text(r.1)) == vid_pid_spec(hwid@),
{
    let v = match find_hex_token(hwid, "VID_") {
        Some(x) => Some(x),
        None => find_hex_token(hwid, "VEN_"),
    };
    let p = match find_hex_token(hwid, "PID_") {
        Some(x) => Some(x),
        None => find_hex_token(hwid, "DEV_"),
    };
    (v, p)
}

/// Bus of a device from the prefix of its hardware id, in any case.
pub open spec fn bus_type_spec(hwid: Seq<char>) -> Seq<char> {
    let u = upper_seq(hwid);
    if starts_with(u, "USB\\"@) || starts_with(u, "USBSTOR\\"@) {
        "USB"@
    } else if starts_with(u, "PCI\\"@) {
        "PCI"@
    } else {
        "PnP"@
    }
}

/// `c` is the ASCII letter `upper` in either case.
pub open spec fn letter_either_case(c: char, upper: char) -> bool {
    c == upper || c as u32 == upper as u32 + 32
}

/// Hardware ids that start with `USB\` or `USBSTOR\` are on the USB bus,
/// and those that start with `PCI\` on the PCI bus, whatever the case of
/// the letters.
pub proof fn lemma_bus_type_by_prefix(hwid: Seq<char>)
    ensures
        hwid.len() >= 4 && letter_either_case(hwid[0], 'U') && letter_either_case(hwid[1], 'S')
            && letter_either_case(hwid[2], 'B') && hwid[3] == '\\'
            ==> bus_type_spec(hwid) == "USB"@,
        hwid.len() >= 8 && letter_either_case(hwid[0], 'U') && letter_either_case(hwid[1], 'S')
            && letter_either_case(hwid[2], 'B') && letter_either_case(hwid[3], 'S')
            && letter_either_case(hwid[4], 'T') && letter_either_case(hwid[5], 'O')
            && letter_either_case(hwid[6], 'R') && hwid[7] == '\\'
            ==> bus_type_spec(hwid) == "USB"@,
        hwid.len() >= 4 && letter_either_case(hwid[0], 'P') && letter_either_case(hwid[1], 'C')
            && letter_either_case(hwid[2], 'I') && hwid[3] == '\\'
            ==> bus_type_spec(hwid) == "PCI"@,
{
    reveal_strlit("USB\\");
    reveal_strlit("USBSTOR\\");
    reveal_strlit("PCI\\");
    let u = upper_seq(hwid);
    assert forall|k: int| 0 <= k < hwid.len() implies #[trigger] u[k] == crate::strs::ascii_upper(hwid[k]) by {}
    if hwid.len() >= 4 && letter_either_case(hwid[0], 'U') && letter_either_case(hwid[1], 'S')
        && letter_either_case(hwid[2], 'B') && hwid[3] == '\\' {
        assert(u[0] == 'U' && u[1] == 'S' && u[2] == 'B' && u[3] == '\\');
        assert(u.take(4) =~= "USB\\"@);
    }
    if hwid.len() >= 8 && letter_either_case(hwid[0], 'U') && letter_either_case(hwid[1], 'S')
        && letter_either_case(hwid[2], 'B') && letter_either_case(hwid[3], 'S')
        && letter_either_case(hwid[4], 'T') && letter_either_case(hwid[5], 'O')
        && letter_either_case(hwid[6], 'R') && hwid[7] == '\\' {
        assert(u[0] == 'U' && u[1] == 'S' && u[2] == 'B' && u[3] == 'S');
        assert(u[4] == 'T' && u[5] == 'O' && u[6] == 'R' && u[7] == '\\');
        assert(u.take(8) =~= "USBSTOR\\"@);
    }
    if hwid.len() >= 4 && letter_either_case(hwid[0], 'P') && letter_either_case(hwid[1], 'C')
        && letter_either_case(hwid[2], 'I') && hwid[3] == '\\' {
        assert(u[0] == 'P' && u[1] == 'C' && u[2] == 'I' && u[3] == '\\');
        assert(u.take(4) =~= "PCI\\"@);
        assert(!starts_with(u, "USB\\"@)) by {
            if starts_with(u, "USB\\"@) {
                assert(u.take(4)[0] == 'U');
            }
        }
        assert(!starts_with(u, "USBSTOR\\"@)) by {
            if starts_with(u, "USBSTOR\\"@) {
                assert(u.take(8)[0] == 'U');
            }
        }
    }
}

/// Classifies a device's bus from its hardware id.
pub fn classify_bus_type(hwid: &str) -> (r: &'static str)
    ensures
        r@ == bus_type_spec(hwid@),
{
    let cs = str_chars(hwid);
    let u = upper_chars(cs.as_slice());
    assert(u@.skip(0) =~= u@);
    let usb = str_chars("USB\\");
    let usbstor = str_chars("USBSTOR\\");
    let pci = str_chars("PCI\\");
    if starts_with_at(u.as_slice(), 0, usb.as_slice()) || starts_with_at(u.as_slice(), 0, usbstor.as_slice()) {
        "USB"
    } else if starts_with_at(u.as_slice(), 0, pci.as_slice()) {
        "PCI"
    } else {
        "PnP"
    }
}

} // verus!

verus! {

/// What SetupAPI returned for one device: each property as its registry type
/// and bytes (`None` where reading failed) and the instance id code units.
#[derive(Clone, Debug)]
pub struct DeviceReadings {
    pub description: Option<(u32, Vec<u8>)>,
    pub friendly_name: Option<(u32, Vec<u8>)>,
    pub manufacturer: Option<(u32, Vec<u8>)>,
    pub device_class: Option<(u32, Vec<u8>)>,
    pub hardware_id: Option<(u32, Vec<u8>)>,
    pub instance_id: Option<Vec<u16>>,
}

/// A property's text: its decoded first string, or empty text.
pub open spec fn property_text(p: Option<(u32, Vec<u8>)>) -> Seq<char> {
    match p {
        Some((t, b)) => match device_string_spec(t, b@) { Some(s) => s, None => Seq::empty() },
        None => Seq::empty(),
    }
}

fn property_string(p: &Option<(u32, Vec<u8>)>) -> (s: String)
    ensures
        s@ == property_text(*p),
{
    match p {
        Some((t, b)) => match decode_device_string(*t, b.as_slice()) {
            Some(s) => s,
            None => String::new(),
        },
        None => String::new(),
    }
}

/// An entry built from a device's readings: named by its friendly name, or
/// its description where that is empty.
pub open spec fn entry_ok(e: PnpDeviceEntry, r: DeviceReadings) -> bool {
    let friendly = property_text(r.friendly_name);
    let hwid = property_text(r.hardware_id);
    &&& e.friendly_name@ == friendly
    &&& e.device_name@ == (if friendly.len() > 0 { friendly } else { property_text(r.description) })
    &&& e.manufacturer@ == property_text(r.manufacturer)
    &&& e.device_class@ == property_text(r.device_class)
    &&& e.hardware_id@ == hwid
    &&& e.instance_id@ == (match r.instance_id { Some(u) => instance_id_spec(u@), None => Seq::<char>::empty() })
    &&& (opt_text(e.vendor_id), opt_text(e.product_id)) == vid_pid_spec(hwid)
    &&& e.bus_type@ == bus_type_spec(hwid)
}

/// Builds the entry of one device.
pub fn build_device_entry(r: &DeviceReadings) -> (e: PnpDeviceEntry)
    ensures
        entry_ok(e, *r),
{
    let desc = property_string(&r.description);
    let friendly = property_string(&r.friendly_name);
    let manufacturer = property_string(&r.manufacturer);
    let device_class = property_string(&r.device_class);
    let hardware_id = property_string(&r.hardware_id);
    let instance_id = match &r.instance_id {
        Some(u) => decode_instance_id(u.as_slice()),
        None => String::new(),
    };
    let (vendor_id, product_id) = extract_vid_pid(hardware_id.as_str());
    let bus = classify_bus_type(hardware_id.as_str());
    let device_name = if !friendly.as_str().is_empty() { friendly.clone() } else { desc };
    PnpDeviceEntry {
        device_name,
        friendly_name: friendly,
        manufacturer,
        device_class,
        hardware_id,
        instance_id,
        vendor_id,
        product_id,
        bus_type: owned(bus),
    }
}

/// Indices of the devices on bus `bus`, in enumeration order.
pub open spec fn devices_on(rs: Seq<DeviceReadings>, bus: Seq<char>) -> Seq<int>
    decreases rs.len(),
{
    if rs.len() == 0 {
        Seq::empty()
    } else {
        let prev = devices_on(rs.drop_last(), bus);
        if bus_type_spec(property_text(rs.last().hardware_id)) == bus { prev.push(rs.len() - 1) } else { prev }
    }
}

/// `list` holds exactly the devices at `idx`, built from their readings.
pub open spec fn group_ok(list: Seq<PnpDeviceEntry>, rs: Seq<DeviceReadings>, idx: Seq<int>) -> bool {
    &&& list.len() == idx.len()
    &&& forall|j: int| 0 <= j < list.len() ==> #[trigger] entry_ok(list[j], rs[idx[j]])
}

/// A bus name other than USB and PCI is listed with the other devices.
pub open spec fn other_bus(b: Seq<char>) -> bool {
    b != "USB"@ && b != "PCI"@
}

/// Indices of the devices on neither USB nor PCI.
pub open spec fn devices_elsewhere(rs: Seq<DeviceReadings>) -> Seq<int>
    decreases rs.len(),
{
    if rs.len() == 0 {
        Seq::empty()
    } else {
        let prev = devices_elsewhere(rs.drop_last());
        if other_bus(bus_type_spec(property_text(rs.last().hardware_id))) { prev.push(rs.len() - 1) } else { prev }
    }
}

/// Every device lands in exactly one group.
pub proof fn lemma_groups_partition(rs: Seq<DeviceReadings>)
    ensures
        devices_on(rs, "USB"@).len() + devices_on(rs, "PCI"@).len() + devices_elsewhere(rs).len() == rs.len(),
    decreases rs.len(),
{
    if rs.len() > 0 {
        lemma_groups_partition(rs.drop_last());
        reveal_strlit("USB");
        reveal_strlit("PCI");
        assert("USB"@ != "PCI"@) by {
            assert("USB"@[0] != "PCI"@[0]);
        }
    }
}

/// Groups every enumerated device by bus, keeping duplicates and order.
pub fn collect_devices_snapshot(rs: &Vec<DeviceReadings>) -> (s: DevicesSnapshot)
    ensures
        group_ok(s.usb_devices@, rs@, devices_on(rs@, "USB"@)),
        group_ok(s.pci_devices@, rs@, devices_on(rs@, "PCI"@)),
        group_ok(s.other_pnp_devices@, rs@, devices_elsewhere(rs@)),
{
    let mut usb: Vec<PnpDeviceEntry> = Vec::new();
    let mut pci: Vec<PnpDeviceEntry> = Vec::new();
    let mut other: Vec<PnpDeviceEntry> = Vec::new();
    let n = rs.len();
    let mut i: usize = 0;
    while i < n
        invariant
            i <= n == rs@.len(),
            group_ok(usb@, rs@, devices_on(rs@.take(i as int), "USB"@)),
            group_ok(pci@, rs@, devices_on(rs@.take(i as int), "PCI"@)),
            group_ok(other@, rs@, devices_elsewhere(rs@.take(i as int))),
        decreases n - i,
    {
        let e = build_device_entry(&rs[i]);
        let bus = classify_bus_type(e.hardware_id.as_str());
        proof {
            assert(rs@.take(i + 1).drop_last() =~= rs@.take(i as int));
            assert(rs@.take(i + 1).last() == rs@[i as int]);
            reveal_strlit("USB");
            reveal_strlit("PCI");
            reveal_strlit("PnP");
            assert("USB"@ != "PCI"@) by { assert("USB"@[0] != "PCI"@[0]); }
        }
        if crate::text::str_eq(bus, "USB") {
            usb.push(e);
        } else if crate::text::str_eq(bus, "PCI") {
            pci.push(e);
        } else {
            other.push(e);
        }
        i += 1;
    }
    assert(rs@.take(n as int) =~= rs@);
    DevicesSnapshot { usb_devices: usb, pci_devices: pci, other_pnp_devices: other }
}

/// The snapshot with its collection status: `Good` with the device count, or
/// the enumeration failure's quality.
pub fn collect_devices_snapshot_with_status(rs: &Vec<DeviceReadings>, failure: Option<MetricQuality>, ts: u64) -> (r: CollectorResult<DevicesSnapshot>)
    ensures
        failure is None ==> (group_ok(r.value.usb_devices@, rs@, devices_on(rs@, "USB"@))
            && group_ok(r.value.pci_devices@, rs@, devices_on(rs@, "PCI"@))
            && group_ok(r.value.other_pnp_devices@, rs@, devices_elsewhere(rs@))
            && r.status.quality == MetricQuality::Good && r.status.error is None),
        failure matches Some(q) ==> (r.value.usb_devices@.len() == 0 && r.value.pci_devices@.len() == 0
            && r.value.other_pnp_devices@.len() == 0 && r.status.quality == q
            && (r.status.error matches Some(e) && e@ == "SetupAPI device enumeration failed"@)),
        failure is None ==> r.status.item_count == (if rs@.len() <= u32::MAX { Some(rs@.len() as u32) } else { None }),
        r.status.source@ == "SetupAPI"@,
        r.status.timestamp == ts,
        !r.status.truncated,
{
    match failure {
        Some(q) => {
            let snapshot = DevicesSnapshot { usb_devices: Vec::new(), pci_devices: Vec::new(), other_pnp_devices: Vec::new() };
            CollectorResult {
                status: crate::quality::collection_status_for("SetupAPI", q, 0, false, Some("SetupAPI device enumeration failed"), ts),
                value: snapshot,
            }
        },
        None => {
            let snapshot = collect_devices_snapshot(rs);
            let total = rs.len();
            proof {
                lemma_groups_partition(rs@);
            }
            let count = snapshot.usb_devices.len() + snapshot.pci_devices.len() + snapshot.other_pnp_devices.len();
            CollectorResult {
                status: crate::quality::collection_status_for("SetupAPI", MetricQuality::Good, count, false, None, ts),
                value: snapshot,
            }
        },
    }
}

} // verus!
