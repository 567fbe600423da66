//! Decoding of storage IOCTL replies: the storage device descriptor and the
//! NVMe protocol-data descriptor, with every offset checked against the
//! returned length.

use vstd::prelude::*;
use crate::bytes::{le_u32, read_u32_le, le_u16, le_u128, read_u16_le, read_u128_le};
use crate::quality::{owned, stable_device_id, text_view};
use crate::quality::{MetricQuality, MetricValue, metric_present, metric_absent, current_timestamp_ms};
use crate::strs::{CharClass, trim, trim_chars};
use crate::text::{str_chars, chars_to_string, utf8_lossy, string_from_utf8_lossy};

verus! {

/// `STORAGE_PROPERTY_ID` of the protocol-specific device property.
pub const STORAGE_DEVICE_PROTOCOL_SPECIFIC_PROPERTY: u32 = 50;
/// Fixed part of `STORAGE_DEVICE_DESCRIPTOR` in bytes.
pub const STORAGE_DEVICE_DESCRIPTOR_FIXED_SIZE: usize = 36;
/// Size of `STORAGE_PROTOCOL_SPECIFIC_DATA` in bytes.
pub const STORAGE_PROTOCOL_SPECIFIC_DATA_SIZE: usize = 52;
/// Size of `STORAGE_PROTOCOL_DATA_DESCRIPTOR` in bytes.
pub const STORAGE_PROTOCOL_DATA_DESCRIPTOR_SIZE: usize = 60;
/// Size of `STORAGE_PROPERTY_QUERY` with protocol-specific data in bytes.
pub const STORAGE_PROPERTY_QUERY_PROTOCOL_SIZE: usize = 60;
/// Header (`Version`, `Size`) of the protocol data descriptor in bytes.
pub const STORAGE_PROTOCOL_DATA_DESCRIPTOR_HEADER_SIZE: usize = 8;
/// `ProtocolTypeNvme`.
pub const PROTOCOL_TYPE_NVME: u32 = 3;
/// `NVMeDataTypeLogPage`.
pub const NVME_DATA_TYPE_LOG_PAGE: u32 = 2;
/// Length of the NVMe SMART / Health log page.
pub const NVME_HEALTH_LOG_LEN: usize = 512;

/// Validated fields of a storage device descriptor.
#[derive(Clone, Debug, PartialEq, Default)]
pub struct StorageDescriptor {
    pub vendor: Option<String>,
    pub product: Option<String>,
    pub revision: Option<String>,
    pub serial: Option<String>,
    pub bus_type: Option<String>,
    pub removable: Option<bool>,
}

/// Character view of an optional string.
pub open spec fn opt_view(o: Option<String>) -> Option<Seq<char>> {
    match o {
        Some(s) => Some(s@),
        None => None,
    }
}

/// Name of a `STORAGE_BUS_TYPE` value.
pub open spec fn bus_name(bus_type: u32) -> Option<Seq<char>> {
    if bus_type == 1 { Some("SCSI"@) }
    else if bus_type == 2 { Some("ATAPI"@) }
    else if bus_type == 3 { Some("ATA"@) }
    else if bus_type == 4 { Some("IEEE 1394"@) }
    else if bus_type == 5 { Some("SSA"@) }
    else if bus_type == 6 { Some("Fibre Channel"@) }
    else if bus_type == 7 { Some("USB"@) }
    else if bus_type == 8 { Some("RAID"@) }
    else if bus_type == 9 { Some("iSCSI"@) }
    else if bus_type == 10 { Some("SAS"@) }
    else if bus_type == 11 { Some("SATA"@) }
    else if bus_type == 12 { Some("SD Card"@) }
    else if bus_type == 13 { Some("MMC"@) }
    else if bus_type == 14 { Some("Virtual"@) }
    else if bus_type == 15 { Some("File-backed Virtual"@) }
    else if bus_type == 16 { Some("Spaces"@) }
    else if bus_type == 17 { Some("NVMe"@) }
    else if bus_type == 18 { Some("SCM"@) }
    else if bus_type == 19 { Some("UFS"@) }
    else { None }
}

/// Name of a storage bus type, `None` for values Windows does not define.
pub fn bus_type_to_string(bus_type: u32) -> (r: Option<&'static str>)
    ensures
        match r {
            Some(s) => bus_name(bus_type) == Some(s@),
            None => bus_name(bus_type) is None,
        },
{
    match bus_type {
        1 => Some("SCSI"),
        2 => Some("ATAPI"),
        3 => Some("ATA"),
        4 => Some("IEEE 1394"),
        5 => Some("SSA"),
        6 => Some("Fibre Channel"),
        7 => Some("USB"),
        8 => Some("RAID"),
        9 => Some("iSCSI"),
        10 => Some("SAS"),
        11 => Some("SATA"),
        12 => Some("SD Card"),
        13 => Some("MMC"),
        14 => Some("Virtual"),
        15 => Some("File-backed Virtual"),
        16 => Some("Spaces"),
        17 => Some("NVMe"),
        18 => Some("SCM"),
        19 => Some("UFS"),
        _ => None,
    }
}

/// Index of the first zero byte.
pub open spec fn first_zero(b: Seq<u8>) -> Option<int>
    decreases b.len(),
{
    if b.len() == 0 {
        None
    } else if b[0] == 0 {
        Some(0)
    } else {
        match first_zero(b.drop_first()) {
            Some(i) => Some(i + 1),
            None => None,
        }
    }
}

fn find_zero(b: &[u8], from: usize, to: usize) -> (r: Option<usize>)
    requires
        from <= to <= b@.len(),
    ensures
        match r {
            Some(i) => from <= i < to && first_zero(b@.subrange(from as int, to as int)) == Some(i - from),
            None => first_zero(b@.subrange(from as int, to as int)) is None,
        },
{
    let mut i = from;
    while i < to
        invariant
            from <= i <= to <= b@.len(),
            first_zero(b@.subrange(from as int, to as int)) == (match first_zero(b@.subrange(i as int, to as int)) {
                Some(j) => Some(j + (i - from)),
                None => None,
            }),
        decreases to - i,
    {
        if b[i] == 0 {
            assert(b@.subrange(i as int, to as int)[0] == 0);
            return Some(i);
        }
        assert(b@.subrange(i as int, to as int).drop_first() =~= b@.subrange(i + 1, to as int));
        i += 1;
    }
    None
}

/// A string field of the descriptor: offset 0 means absent; otherwise the
/// offset must lie inside `valid_len` past the fixed header and the text must
/// be NUL-terminated before `valid_len`; blank text counts as absent.
pub open spec fn descriptor_string_spec(buf: Seq<u8>, valid_len: nat, offset: u32) -> Result<Option<Seq<char>>, MetricQuality> {
    if offset == 0 {
        Ok(None)
    } else if (offset as nat) < STORAGE_DEVICE_DESCRIPTOR_FIXED_SIZE || (offset as nat) >= valid_len
        || valid_len > buf.len() {
        Err(MetricQuality::Invalid)
    } else {
        let bytes = buf.subrange(offset as int, valid_len as int);
        match first_zero(bytes) {
            None => Err(MetricQuality::Invalid),
            Some(end) => {
                let value = trim(utf8_lossy(bytes.take(end)), CharClass::Whitespace);
                if value.len() == 0 { Ok(None) } else { Ok(Some(value)) }
            },
        }
    }
}

/// Character view of a parsed descriptor string result.
pub open spec fn string_result_view(r: Result<Option<String>, MetricQuality>) -> Result<Option<Seq<char>>, MetricQuality> {
    match r {
        Ok(o) => Ok(opt_view(o)),
        Err(q) => Err(q),
    }
}

/// Reads one NUL-terminated ANSI string field of a storage device descriptor.
pub fn parse_descriptor_string(buf: &[u8], valid_len: usize, offset: u32) -> (r: Result<Option<String>, MetricQuality>)
    ensures
        string_result_view(r) == descriptor_string_spec(buf@, valid_len as nat, offset),
{
    if offset == 0 {
        return Ok(None);
    }
    let start = offset as usize;
    if start < STORAGE_DEVICE_DESCRIPTOR_FIXED_SIZE || start >= valid_len || valid_len > buf.len() {
        return Err(MetricQuality::Invalid);
    }
    match find_zero(buf, start, valid_len) {
        None => Err(MetricQuality::Invalid),
        Some(end) => {
            let raw = vstd::slice::slice_subrange(buf, start, end);
            assert(raw@ =~= buf@.subrange(start as int, valid_len as int).take(end - start));
            let text = string_from_utf8_lossy(raw);
            let cs = str_chars(text.as_str());
            let t = trim_chars(cs.as_slice(), CharClass::Whitespace);
            if t.len() == 0 {
                Ok(None)
            } else {
                Ok(Some(chars_to_string(t.as_slice())))
            }
        },
    }
}

/// Decoded descriptor as character views:
/// `(vendor, product, revision, serial, bus_type, removable)`.
pub type DescriptorView = (Option<Seq<char>>, Option<Seq<char>>, Option<Seq<char>>, Option<Seq<char>>, Option<Seq<char>>, Option<bool>);

/// View of a decoded descriptor.
pub open spec fn descriptor_view(d: StorageDescriptor) -> DescriptorView {
    (opt_view(d.vendor), opt_view(d.product), opt_view(d.revision), opt_view(d.serial), opt_view(d.bus_type), d.removable)
}

/// Decoding of a `STORAGE_DEVICE_DESCRIPTOR` reply. The buffer must hold the
/// fixed header; `Version` must cover the header and lie within the buffer and
/// `Size`; `Size` must cover the header and lie within the buffer; every string
/// offset is checked against `Size`.
pub open spec fn storage_descriptor_spec(buf: Seq<u8>) -> Result<DescriptorView, MetricQuality> {
    if buf.len() < STORAGE_DEVICE_DESCRIPTOR_FIXED_SIZE {
        Err(MetricQuality::Invalid)
    } else {
        let version = le_u32(buf, 0)->0;
        let size = le_u32(buf, 4)->0;
        if (version as nat) < STORAGE_DEVICE_DESCRIPTOR_FIXED_SIZE || version as nat > buf.len()
            || (size as nat) < STORAGE_DEVICE_DESCRIPTOR_FIXED_SIZE || size as nat > buf.len()
            || version > size {
            Err(MetricQuality::Invalid)
        } else {
            let vendor = descriptor_string_spec(buf, size as nat, le_u32(buf, 12)->0);
            let product = descriptor_string_spec(buf, size as nat, le_u32(buf, 16)->0);
            let revision = descriptor_string_spec(buf, size as nat, le_u32(buf, 20)->0);
            let serial = descriptor_string_spec(buf, size as nat, le_u32(buf, 24)->0);
            if vendor is Err || product is Err || revision is Err || serial is Err {
                Err(MetricQuality::Invalid)
            } else {
                Ok((vendor->Ok_0, product->Ok_0, revision->Ok_0, serial->Ok_0, bus_name(le_u32(buf, 28)->0), Some(buf[10] != 0)))
            }
        }
    }
}

proof fn lemma_string_errors_invalid(buf: Seq<u8>, valid_len: nat, offset: u32)
    ensures
        descriptor_string_spec(buf, valid_len, offset) matches Err(q) ==> q == MetricQuality::Invalid,
{
}

/// Decodes the storage device descriptor returned by `IOCTL_STORAGE_QUERY_PROPERTY`.
pub fn parse_storage_descriptor(buf: &[u8]) -> (r: Result<StorageDescriptor, MetricQuality>)
    ensures
        match r {
            Ok(d) => storage_descriptor_spec(buf@) == Ok::<DescriptorView, MetricQuality>(descriptor_view(d)),
            Err(q) => storage_descriptor_spec(buf@) == Err::<DescriptorView, MetricQuality>(q),
        },
{
    if buf.len() < STORAGE_DEVICE_DESCRIPTOR_FIXED_SIZE {
        return Err(MetricQuality::Invalid);
    }
    let version = match read_u32_le(buf, 0) { Some(v) => v, None => return Err(MetricQuality::Invalid) };
    let size = match read_u32_le(buf, 4) { Some(v) => v, None => return Err(MetricQuality::Invalid) };
    let descriptor_size = size as usize;
    if (version as usize) < STORAGE_DEVICE_DESCRIPTOR_FIXED_SIZE || version as usize > buf.len()
        || descriptor_size < STORAGE_DEVICE_DESCRIPTOR_FIXED_SIZE || descriptor_size > buf.len()
        || version > size {
        return Err(MetricQuality::Invalid);
    }
    let vendor_offset = match read_u32_le(buf, 12) { Some(v) => v, None => return Err(MetricQuality::Invalid) };
    let product_offset = match read_u32_le(buf, 16) { Some(v) => v, None => return Err(MetricQuality::Invalid) };
    let revision_offset = match read_u32_le(buf, 20) { Some(v) => v, None => return Err(MetricQuality::Invalid) };
    let serial_offset = match read_u32_le(buf, 24) { Some(v) => v, None => return Err(MetricQuality::Invalid) };
    let bus_type = match read_u32_le(buf, 28) { Some(v) => v, None => return Err(MetricQuality::Invalid) };
    proof {
        lemma_string_errors_invalid(buf@, size as nat, vendor_offset);
        lemma_string_errors_invalid(buf@, size as nat, product_offset);
        lemma_string_errors_invalid(buf@, size as nat, revision_offset);
        lemma_string_errors_invalid(buf@, size as nat, serial_offset);
    }
    let vendor = match parse_descriptor_string(buf, descriptor_size, vendor_offset) { Ok(v) => v, Err(q) => return Err(q) };
    let product = match parse_descriptor_string(buf, descriptor_size, product_offset) { Ok(v) => v, Err(q) => return Err(q) };
    let revision = match parse_descriptor_string(buf, descriptor_size, revision_offset) { Ok(v) => v, Err(q) => return Err(q) };
    let serial = match parse_descriptor_string(buf, descriptor_size, serial_offset) { Ok(v) => v, Err(q) => return Err(q) };
    let bus = match bus_type_to_string(bus_type) {
        Some(s) => Some(str_chars(s)),
        None => None,
    };
    let bus_type = match bus {
        Some(cs) => Some(chars_to_string(cs.as_slice())),
        None => None,
    };
    Ok(StorageDescriptor { vendor, product, revision, serial, bus_type, removable: Some(buf[10] != 0) })
}

/// Location of the NVMe log inside a protocol-data descriptor reply of
/// `bytes_returned` bytes: every header field, offset and length is checked
/// against the returned length before the log is located.
pub open spec fn protocol_data_spec(buffer: Seq<u8>, bytes_returned: nat) -> Result<Seq<u8>, MetricQuality> {
    if bytes_returned > buffer.len() || bytes_returned < STORAGE_PROTOCOL_DATA_DESCRIPTOR_SIZE {
        Err(MetricQuality::Invalid)
    } else {
        let version = le_u32(buffer, 0)->0 as nat;
        let size = le_u32(buffer, 4)->0 as nat;
        let protocol_type = le_u32(buffer, 8)->0;
        let data_type = le_u32(buffer, 12)->0;
        if version < STORAGE_PROTOCOL_DATA_DESCRIPTOR_SIZE || version > bytes_returned || version > size
            || size < STORAGE_PROTOCOL_DATA_DESCRIPTOR_SIZE || size > bytes_returned || size % 4 != 0
            || protocol_type != PROTOCOL_TYPE_NVME || data_type != NVME_DATA_TYPE_LOG_PAGE {
            Err(MetricQuality::Invalid)
        } else {
            let data_offset = le_u32(buffer, 24)->0 as nat;
            let data_length = le_u32(buffer, 28)->0 as nat;
            if data_offset < STORAGE_PROTOCOL_SPECIFIC_DATA_SIZE || data_offset % 4 != 0
                || data_length < NVME_HEALTH_LOG_LEN || data_length % 4 != 0 {
                Err(MetricQuality::Invalid)
            } else {
                let data_start = STORAGE_PROTOCOL_DATA_DESCRIPTOR_HEADER_SIZE + data_offset;
                let data_end = data_start + data_length;
                if data_end > bytes_returned {
                    Err(MetricQuality::Invalid)
                } else {
                    Ok(buffer.subrange(data_start as int, data_end as int))
                }
            }
        }
    }
}

/// Finds the NVMe log page inside a `STORAGE_PROTOCOL_DATA_DESCRIPTOR` reply,
/// using the offsets the device returned.
pub fn locate_protocol_data(buffer: &[u8], bytes_returned: usize) -> (r: Result<&[u8], MetricQuality>)
    ensures
        match r {
            Ok(log) => protocol_data_spec(buffer@, bytes_returned as nat) == Ok::<Seq<u8>, MetricQuality>(log@),
            Err(q) => protocol_data_spec(buffer@, bytes_returned as nat) == Err::<Seq<u8>, MetricQuality>(q),
        },
{
    if bytes_returned > buffer.len() || bytes_returned < STORAGE_PROTOCOL_DATA_DESCRIPTOR_SIZE {
        return Err(MetricQuality::Invalid);
    }
    let version = match read_u32_le(buffer, 0) { Some(v) => v, None => return Err(MetricQuality::Invalid) };
    let size = match read_u32_le(buffer, 4) { Some(v) => v, None => return Err(MetricQuality::Invalid) };
    let protocol_type = match read_u32_le(buffer, 8) { Some(v) => v, None => return Err(MetricQuality::Invalid) };
    let data_type = match read_u32_le(buffer, 12) { Some(v) => v, None => return Err(MetricQuality::Invalid) };
    let descriptor_size = size as usize;
    if (version as usize) < STORAGE_PROTOCOL_DATA_DESCRIPTOR_SIZE || version as usize > bytes_returned
        || version > size || descriptor_size < STORAGE_PROTOCOL_DATA_DESCRIPTOR_SIZE
        || descriptor_size > bytes_returned || descriptor_size % 4 != 0
        || protocol_type != PROTOCOL_TYPE_NVME || data_type != NVME_DATA_TYPE_LOG_PAGE {
        return Err(MetricQuality::Invalid);
    }
    let data_offset = match read_u32_le(buffer, 24) { Some(v) => v, None => return Err(MetricQuality::Invalid) };
    let data_length = match read_u32_le(buffer, 28) { Some(v) => v, None => return Err(MetricQuality::Invalid) };
    if (data_offset as usize) < STORAGE_PROTOCOL_SPECIFIC_DATA_SIZE || data_offset % 4 != 0
        || (data_length as usize) < NVME_HEALTH_LOG_LEN || data_length % 4 != 0 {
        return Err(MetricQuality::Invalid);
    }
    let data_start = STORAGE_PROTOCOL_DATA_DESCRIPTOR_HEADER_SIZE as u64 + data_offset as u64;
    let data_end = data_start + data_length as u64;
    if data_end > bytes_returned as u64 {
        return Err(MetricQuality::Invalid);
    }
    Ok(vstd::slice::slice_subrange(buffer, data_start as usize, data_end as usize))
}

/// Outcome of the first (header-sized) descriptor query: a failed call is
/// `Unavailable`, a reply shorter than `minimum_len` is `Invalid`.
pub fn validate_descriptor_header_result(io_succeeded: bool, bytes_returned: usize, minimum_len: usize) -> (r: Result<(), MetricQuality>)
    ensures
        !io_succeeded ==> r == Err::<(), MetricQuality>(MetricQuality::Unavailable),
        io_succeeded && bytes_returned < minimum_len ==> r == Err::<(), MetricQuality>(MetricQuality::Invalid),
        io_succeeded && bytes_returned >= minimum_len ==> r == Ok::<(), MetricQuality>(()),
{
    if !io_succeeded {
        return Err(MetricQuality::Unavailable);
    }
    if bytes_returned < minimum_len {
        return Err(MetricQuality::Invalid);
    }
    Ok(())
}

/// The largest storage descriptor asked for (1 MiB).
pub const MAX_STORAGE_DESCRIPTOR_SIZE: usize = 1048576;

/// The size of the full descriptor to ask for after the header query: the
/// header must have come back whole, and the size it names (bytes 4..8) must
/// lie between the fixed part and 1 MiB.
pub fn descriptor_query_size(header: &[u8], io_succeeded: bool, bytes_returned: usize) -> (r: Result<usize, MetricQuality>)
    requires
        header@.len() == STORAGE_DEVICE_DESCRIPTOR_FIXED_SIZE,
    ensures
        !io_succeeded ==> r == Err::<usize, MetricQuality>(MetricQuality::Unavailable),
        io_succeeded && bytes_returned != STORAGE_DEVICE_DESCRIPTOR_FIXED_SIZE ==> r == Err::<usize, MetricQuality>(MetricQuality::Invalid),
        io_succeeded && bytes_returned == STORAGE_DEVICE_DESCRIPTOR_FIXED_SIZE ==> match le_u32(header@, 4) {
            Some(size) => if STORAGE_DEVICE_DESCRIPTOR_FIXED_SIZE <= size && size <= MAX_STORAGE_DESCRIPTOR_SIZE {
                r == Ok::<usize, MetricQuality>(size as usize)
            } else {
                r == Err::<usize, MetricQuality>(MetricQuality::Invalid)
            },
            None => r == Err::<usize, MetricQuality>(MetricQuality::Invalid),
        },
{
    validate_descriptor_header_result(io_succeeded, bytes_returned, header.len())?;
    if bytes_returned > header.len() {
        return Err(MetricQuality::Invalid);
    }
    match read_u32_le(header, 4) {
        Some(size) => {
            if STORAGE_DEVICE_DESCRIPTOR_FIXED_SIZE as u32 <= size && size as usize <= MAX_STORAGE_DESCRIPTOR_SIZE {
                Ok(size as usize)
            } else {
                Err(MetricQuality::Invalid)
            }
        },
        None => Err(MetricQuality::Invalid),
    }
}

/// A good metric from a present value, an `Unavailable` one (with `reason`) otherwise.
pub fn metric_from_option<T>(value: Option<T>, unit: &str, source: &str, reason: &str) -> (m: MetricValue<T>)
    ensures
        match value {
            Some(v) => metric_present(m, v, unit@, MetricQuality::Good, source@, m.timestamp),
            None => metric_absent(m, unit@, MetricQuality::Unavailable, source@, reason@, m.timestamp),
        },
{
    match value {
        Some(v) => MetricValue::good(v, unit, source),
        None => MetricValue::unavailable(unit, source, reason),
    }
}

/// A descriptor field's metric: when the descriptor itself was invalid the
/// field is `Invalid` (never relabelled as unavailable); otherwise as
/// `metric_from_option`.
pub fn metric_from_descriptor_quality<T>(
    value: Option<T>,
    descriptor_quality: MetricQuality,
    unit: &str,
    source: &str,
    reason: &str,
) -> (m: MetricValue<T>)
    ensures
        descriptor_quality == MetricQuality::Invalid ==> metric_absent(m, unit@, MetricQuality::Invalid, source@,
            "Storage descriptor returned invalid data"@, m.timestamp),
        descriptor_quality != MetricQuality::Invalid ==> match value {
            Some(v) => metric_present(m, v, unit@, MetricQuality::Good, source@, m.timestamp),
            None => metric_absent(m, unit@, MetricQuality::Unavailable, source@, reason@, m.timestamp),
        },
{
    if descriptor_quality == MetricQuality::Invalid {
        MetricValue::invalid_at(unit, source, "Storage descriptor returned invalid data", current_timestamp_ms())
    } else {
        metric_from_option(value, unit, source, reason)
    }
}

// ---------------------------------------------------------------------------
// NVMe SMART / Health log

/// The integer figures of an NVMe SMART / Health log page. The temperature
/// is in kelvin and absent outside 273–423 K; data units are the log's own
/// (1000 sectors of 512 bytes each).
pub struct NvmeHealthFigures {
    pub temperature_kelvin: Option<u16>,
    pub data_units_read: u128,
    pub data_units_written: u128,
    pub percentage_used: MetricValue<u32>,
    pub available_spare_percent: MetricValue<u32>,
    pub spare_threshold_percent: MetricValue<u32>,
    pub power_on_hours: MetricValue<u64>,
    pub power_cycles: MetricValue<u64>,
    pub unsafe_shutdowns: MetricValue<u64>,
    pub media_errors: MetricValue<u64>,
    pub critical_warning: MetricValue<u8>,
}

/// Source name of the health log metrics.
pub open spec fn health_source() -> Seq<char> {
    "IOCTL_STORAGE_NVMe_SMART_HealthLog"@
}

/// A 128-bit counter that fits the public 64-bit field.
pub open spec fn counter_fits(log: Seq<u8>, off: int) -> bool {
    le_u128(log, off) matches Some(v) && v <= u64::MAX
}

/// `h` holds the figures of the log page `log` read at `ts` (the page is at
/// least 512 bytes and its four 64-bit counters fit).
pub open spec fn health_ok(h: NvmeHealthFigures, log: Seq<u8>, ts: u64) -> bool {
    let kelvin = le_u16(log, 1)->0;
    &&& h.temperature_kelvin == (if 273 <= kelvin && kelvin <= 423 { Some(kelvin) } else { None::<u16> })
    &&& h.data_units_read == le_u128(log, 32)->0
    &&& h.data_units_written == le_u128(log, 48)->0
    &&& metric_present(h.percentage_used, log[5] as u32, "%"@, MetricQuality::Good, health_source(), ts)
    &&& metric_present(h.available_spare_percent, log[3] as u32, "%"@, MetricQuality::Good, health_source(), ts)
    &&& metric_present(h.spare_threshold_percent, log[4] as u32, "%"@, MetricQuality::Good, health_source(), ts)
    &&& metric_present(h.power_on_hours, le_u128(log, 128)->0 as u64, "小时"@, MetricQuality::Good, health_source(), ts)
    &&& metric_present(h.power_cycles, le_u128(log, 112)->0 as u64, "次"@, MetricQuality::Good, health_source(), ts)
    &&& metric_present(h.unsafe_shutdowns, le_u128(log, 144)->0 as u64, "次"@, MetricQuality::Good, health_source(), ts)
    &&& metric_present(h.media_errors, le_u128(log, 160)->0 as u64, "个"@, MetricQuality::Good, health_source(), ts)
    &&& metric_present(h.critical_warning, log[0], ""@, MetricQuality::Good, health_source(), ts)
}

/// Whether a log page can be read: at least 512 bytes, counters fitting.
pub open spec fn health_readable(log: Seq<u8>) -> bool {
    &&& log.len() >= NVME_HEALTH_LOG_LEN
    &&& counter_fits(log, 112)
    &&& counter_fits(log, 128)
    &&& counter_fits(log, 144)
    &&& counter_fits(log, 160)
}

fn counter_u64(log: &[u8], off: usize) -> (r: Option<u64>)
    ensures
        match r {
            Some(v) => counter_fits(log@, off as int) && v == le_u128(log@, off as int)->0,
            None => !counter_fits(log@, off as int),
        },
{
    match read_u128_le(log, off) {
        None => None,
        Some(v) => if v <= 18446744073709551615u128 { Some(v as u64) } else { None },
    }
}

/// Reads an NVMe SMART / Health log page; a short page or a counter too
/// large for its public field makes the whole page `Invalid`.
pub fn parse_nvme_health_log(log: &[u8], timestamp: u64) -> (r: Result<NvmeHealthFigures, MetricQuality>)
    ensures
        match r {
            Ok(h) => health_readable(log@) && health_ok(h, log@, timestamp),
            Err(q) => !health_readable(log@) && q == MetricQuality::Invalid,
        },
{
    if log.len() < NVME_HEALTH_LOG_LEN {
        return Err(MetricQuality::Invalid);
    }
    let src = "IOCTL_STORAGE_NVMe_SMART_HealthLog";
    let kelvin = match read_u16_le(log, 1) { Some(v) => v, None => return Err(MetricQuality::Invalid) };
    let read_units = match read_u128_le(log, 32) { Some(v) => v, None => return Err(MetricQuality::Invalid) };
    let written_units = match read_u128_le(log, 48) { Some(v) => v, None => return Err(MetricQuality::Invalid) };
    let cycles = match counter_u64(log, 112) { Some(v) => v, None => return Err(MetricQuality::Invalid) };
    let hours = match counter_u64(log, 128) { Some(v) => v, None => return Err(MetricQuality::Invalid) };
    let shutdowns = match counter_u64(log, 144) { Some(v) => v, None => return Err(MetricQuality::Invalid) };
    let errors = match counter_u64(log, 160) { Some(v) => v, None => return Err(MetricQuality::Invalid) };
    Ok(NvmeHealthFigures {
        temperature_kelvin: if 273 <= kelvin && kelvin <= 423 { Some(kelvin) } else { None },
        data_units_read: read_units,
        data_units_written: written_units,
        percentage_used: MetricValue::good_at(log[5] as u32, "%", src, timestamp),
        available_spare_percent: MetricValue::good_at(log[3] as u32, "%", src, timestamp),
        spare_threshold_percent: MetricValue::good_at(log[4] as u32, "%", src, timestamp),
        power_on_hours: MetricValue::good_at(hours, "小时", src, timestamp),
        power_cycles: MetricValue::good_at(cycles, "次", src, timestamp),
        unsafe_shutdowns: MetricValue::good_at(shutdowns, "次", src, timestamp),
        media_errors: MetricValue::good_at(errors, "个", src, timestamp),
        critical_warning: MetricValue::good_at(log[0], "", src, timestamp),
    })
}

/// The health figures of a protocol-data reply: the located log page, its
/// first 512 bytes read as above; `None` on any failure.
pub fn nvme_health_from_reply(buffer: &[u8], bytes_returned: usize, timestamp: u64) -> (r: Option<NvmeHealthFigures>)
    ensures
        match r {
            Some(h) => protocol_data_spec(buffer@, bytes_returned as nat) matches Ok(log)
                && log.len() >= NVME_HEALTH_LOG_LEN
                && health_readable(log.take(NVME_HEALTH_LOG_LEN as int))
                && health_ok(h, log.take(NVME_HEALTH_LOG_LEN as int), timestamp),
            None => !(protocol_data_spec(buffer@, bytes_returned as nat) matches Ok(log)
                && log.len() >= NVME_HEALTH_LOG_LEN
                && health_readable(log.take(NVME_HEALTH_LOG_LEN as int))),
        },
{
    let log = match locate_protocol_data(buffer, bytes_returned) {
        Ok(l) => l,
        Err(_) => { return None; },
    };
    if log.len() < NVME_HEALTH_LOG_LEN {
        return None;
    }
    let page = vstd::slice::slice_subrange(log, 0, NVME_HEALTH_LOG_LEN);
    assert(page@ =~= log@.take(NVME_HEALTH_LOG_LEN as int));
    match parse_nvme_health_log(page, timestamp) {
        Ok(h) => Some(h),
        Err(_) => None,
    }
}

// ---------------------------------------------------------------------------
// Physical disks

/// The figures of a physical disk apart from its health log.
pub struct PhysicalDiskFigures {
    pub id: String,
    pub index: u32,
    pub vendor: MetricValue<String>,
    pub model: MetricValue<String>,
    pub serial_number: MetricValue<String>,
    pub firmware_revision: MetricValue<String>,
    pub bus_type: MetricValue<String>,
    pub media_type: MetricValue<String>,
    pub capacity_bytes: MetricValue<u64>,
    pub sector_size_bytes: MetricValue<u32>,
    pub is_nvme: bool,
}

/// The device path of physical drive `index`.
pub fn physical_drive_path(index: u32) -> (s: String)
    ensures
        s@ == "\\\\.\\PhysicalDrive"@ + crate::text::decimal(index as nat),
{
    let mut s = owned("\\\\.\\PhysicalDrive");
    crate::text::push_decimal(&mut s, index as u64);
    s
}

/// A descriptor field metric: `Invalid` for an invalid descriptor, else the
/// value, or `Unavailable` with `reason`.
pub open spec fn field_ok(m: MetricValue<String>, value: Option<Seq<char>>, dq: MetricQuality, reason: Seq<char>, ts: u64) -> bool {
    if dq == MetricQuality::Invalid {
        metric_absent(m, ""@, MetricQuality::Invalid, "Win32_StorageQueryProperty"@, "Storage descriptor returned invalid data"@, ts)
    } else {
        match value {
            Some(v) => crate::quality::text_metric_present(m, v, ""@, MetricQuality::Good, "Win32_StorageQueryProperty"@, ts),
            None => metric_absent(m, ""@, MetricQuality::Unavailable, "Win32_StorageQueryProperty"@, reason, ts),
        }
    }
}

fn field_metric(value: Option<String>, dq: MetricQuality, reason: &str, ts: u64) -> (m: MetricValue<String>)
    ensures
        field_ok(m, opt_view(value), dq, reason@, ts),
{
    let src = "Win32_StorageQueryProperty";
    if dq == MetricQuality::Invalid {
        MetricValue::invalid_at("", src, "Storage descriptor returned invalid data", ts)
    } else {
        match value {
            Some(v) => MetricValue::good_at(v, "", src, ts),
            None => MetricValue::unavailable_at("", src, reason, ts),
        }
    }
}

fn copy_opt(o: &Option<String>) -> (r: Option<String>)
    ensures
        r == *o,
{
    match o {
        Some(s) => Some(s.clone()),
        None => None,
    }
}

/// The descriptor field of a query result, `None` when the query failed.
pub open spec fn desc_field(d: Result<StorageDescriptor, MetricQuality>, f: spec_fn(StorageDescriptor) -> Option<String>) -> Option<Seq<char>> {
    match d {
        Ok(x) => opt_view(f(x)),
        Err(_) => None,
    }
}

/// `p` describes disk `index` at `path` from its descriptor query, length
/// and sector size, at `ts`.
pub open spec fn disk_ok(p: PhysicalDiskFigures, desc: Result<StorageDescriptor, MetricQuality>, index: u32, path: Seq<char>,
    capacity: Option<u64>, sector: Option<u32>, ts: u64) -> bool
{
    let dq = match desc { Ok(_) => MetricQuality::Good, Err(q) => q };
    &&& p.id@ == crate::quality::device_id_spec("disk"@, seq![path])
    &&& p.index == index
    &&& field_ok(p.vendor, desc_field(desc, |x: StorageDescriptor| x.vendor), dq, "Storage descriptor did not provide a vendor"@, ts)
    &&& field_ok(p.model, desc_field(desc, |x: StorageDescriptor| x.product), dq, "Storage descriptor did not provide a product"@, ts)
    &&& field_ok(p.serial_number, desc_field(desc, |x: StorageDescriptor| x.serial), dq, "Storage descriptor did not provide a serial number"@, ts)
    &&& field_ok(p.firmware_revision, desc_field(desc, |x: StorageDescriptor| x.revision), dq, "Storage descriptor did not provide a firmware revision"@, ts)
    &&& field_ok(p.bus_type, desc_field(desc, |x: StorageDescriptor| x.bus_type), dq, "Storage descriptor did not provide a known bus type"@, ts)
    &&& metric_absent(p.media_type, ""@, MetricQuality::Unsupported, "Win32_StorageQueryProperty"@, "No reliable media-type provider is connected"@, ts)
    &&& match capacity {
        Some(c) => metric_present(p.capacity_bytes, c, "Bytes"@, MetricQuality::Good, "IOCTL_DISK_GET_LENGTH_INFO"@, ts),
        None => metric_absent(p.capacity_bytes, "Bytes"@, MetricQuality::Unavailable, "IOCTL_DISK_GET_LENGTH_INFO"@,
            "The disk length IOCTL did not return a positive length"@, ts),
    }
    &&& match sector {
        Some(v) => metric_present(p.sector_size_bytes, v, "Bytes"@, MetricQuality::Good, "IOCTL_DISK_GET_DRIVE_GEOMETRY"@, ts),
        None => metric_absent(p.sector_size_bytes, "Bytes"@, MetricQuality::Unsupported, "IOCTL_DISK_GET_DRIVE_GEOMETRY"@,
            "Disk geometry did not provide a sector size"@, ts),
    }
    &&& p.is_nvme == (desc_field(desc, |x: StorageDescriptor| x.bus_type) == Some("NVMe"@))
}

/// Describes a physical disk (see [`disk_ok`]); only bus type NVMe marks it
/// as NVMe, never its product name.
pub fn describe_physical_disk(desc: &Result<StorageDescriptor, MetricQuality>, index: u32, path: &str,
    capacity: Option<u64>, sector: Option<u32>, timestamp: u64) -> (p: PhysicalDiskFigures)
    ensures
        disk_ok(p, *desc, index, path@, capacity, sector, timestamp),
{
    let dq = match desc { Ok(_) => MetricQuality::Good, Err(q) => *q };
    let (vendor, product, serial, revision, bus) = match desc {
        Ok(d) => (copy_opt(&d.vendor), copy_opt(&d.product), copy_opt(&d.serial), copy_opt(&d.revision), copy_opt(&d.bus_type)),
        Err(_) => (None, None, None, None, None),
    };
    let is_nvme = match &bus {
        Some(b) => crate::text::str_eq(b.as_str(), "NVMe"),
        None => false,
    };
    let parts: [&str; 1] = [path];
    let id = stable_device_id("disk", &parts);
    assert(crate::quality::str_views(parts@) =~= seq![path@]);
    PhysicalDiskFigures {
        id,
        index,
        vendor: field_metric(vendor, dq, "Storage descriptor did not provide a vendor", timestamp),
        model: field_metric(product, dq, "Storage descriptor did not provide a product", timestamp),
        serial_number: field_metric(serial, dq, "Storage descriptor did not provide a serial number", timestamp),
        firmware_revision: field_metric(revision, dq, "Storage descriptor did not provide a firmware revision", timestamp),
        bus_type: field_metric(bus, dq, "Storage descriptor did not provide a known bus type", timestamp),
        media_type: MetricValue::unsupported_at("", "Win32_StorageQueryProperty", "No reliable media-type provider is connected", timestamp),
        capacity_bytes: match capacity {
            Some(c) => MetricValue::good_at(c, "Bytes", "IOCTL_DISK_GET_LENGTH_INFO", timestamp),
            None => MetricValue::unavailable_at("Bytes", "IOCTL_DISK_GET_LENGTH_INFO", "The disk length IOCTL did not return a positive length", timestamp),
        },
        sector_size_bytes: match sector {
            Some(v) => MetricValue::good_at(v, "Bytes", "IOCTL_DISK_GET_DRIVE_GEOMETRY", timestamp),
            None => MetricValue::unsupported_at("Bytes", "IOCTL_DISK_GET_DRIVE_GEOMETRY", "Disk geometry did not provide a sector size", timestamp),
        },
        is_nvme,
    }
}

// ---------------------------------------------------------------------------
// Logical volumes

/// Largest drive-strings buffer tried, in units.
pub const MAX_LOGICAL_DRIVE_BUFFER: usize = 32768;

/// What to do after `GetLogicalDriveStringsW` returned `length` for a
/// buffer of `capacity` units.
#[derive(Clone, Copy, Debug, PartialEq, Eq, Structural)]
pub enum DriveBufferStep {
    /// Give up: no drives.
    Fail,
    /// Call again with a buffer of this many units.
    Retry(usize),
    /// The buffer holds the answer.
    Parse,
}

/// The step after a call: a zero length fails; a length at the buffer's
/// boundary retries with twice the buffer or room for the answer, up to
/// the limit; otherwise the buffer is parsed.
pub open spec fn drive_step_spec(capacity: usize, length: u32) -> DriveBufferStep {
    if length == 0 || capacity == 0 {
        DriveBufferStep::Fail
    } else if length as int >= capacity - 1 {
        let next = if 2 * capacity >= length + 1 { 2 * capacity } else { length + 1 };
        if 2 * capacity > usize::MAX || next > MAX_LOGICAL_DRIVE_BUFFER {
            DriveBufferStep::Fail
        } else {
            DriveBufferStep::Retry(next as usize)
        }
    } else {
        DriveBufferStep::Parse
    }
}

/// Decides the next step (see [`drive_step_spec`]).
pub fn logical_drive_step(capacity: usize, length: u32) -> (r: DriveBufferStep)
    ensures
        r == drive_step_spec(capacity, length),
{
    if length == 0 || capacity == 0 {
        return DriveBufferStep::Fail;
    }
    let len = length as usize;
    if len >= capacity - 1 {
        let doubled = match capacity.checked_mul(2) {
            Some(d) => d,
            None => { return DriveBufferStep::Fail; },
        };
        let need = len as u64 + 1;
        let next: u64 = if doubled as u64 >= need { doubled as u64 } else { need };
        if next > MAX_LOGICAL_DRIVE_BUFFER as u64 {
            return DriveBufferStep::Fail;
        }
        DriveBufferStep::Retry(next as usize)
    } else {
        DriveBufferStep::Parse
    }
}

/// The drives of a filled buffer: NUL-terminated pieces until an empty one;
/// nothing at all when a piece has no terminator or the answer does not
/// end in a NUL inside the buffer.
pub open spec fn parse_drives_from(buffer: Seq<u16>, length: int, offset: int) -> Option<Seq<Seq<char>>>
    decreases length - offset,
{
    if offset < 0 || offset >= length || length > buffer.len() {
        Some(Seq::empty())
    } else {
        let rest = buffer.subrange(offset, length);
        let end = first_zero_unit_at(rest);
        if end >= rest.len() {
            None
        } else if end == 0 {
            Some(Seq::empty())
        } else {
            proof { crate::sysinfo::computer_os::lemma_first_zero_unit_bounds(rest); }
            let drive = crate::text::utf16_lossy(rest.take(end));
            match parse_drives_from(buffer, length, offset + end + 1) {
                None => None,
                Some(tail) => Some(if drive.len() > 0 { seq![drive] + tail } else { tail }),
            }
        }
    }
}

/// Index of the first NUL unit, or the length.
pub open spec fn first_zero_unit_at(s: Seq<u16>) -> int {
    crate::sysinfo::computer_os::first_zero_unit(s)
}

/// The drives of a buffer filled with `length` units.
pub open spec fn drives_spec(buffer: Seq<u16>, length: int) -> Seq<Seq<char>> {
    if length > buffer.len() || length < 0 || length >= buffer.len() || buffer[length] != 0 {
        Seq::empty()
    } else {
        match parse_drives_from(buffer, length, 0) {
            Some(d) => d,
            None => Seq::empty(),
        }
    }
}

/// Parses the drive roots of a filled buffer (see [`drives_spec`]).
pub fn parse_logical_drives(buffer: &[u16], length: usize) -> (v: Vec<String>)
    ensures
        v@.map_values(|x: String| x@) == drives_spec(buffer@, length as int),
{
    let mut out: Vec<String> = Vec::new();
    if length >= buffer.len() || buffer[length] != 0 {
        assert(out@.map_values(|x: String| x@) =~= Seq::<Seq<char>>::empty());
        return out;
    }
    let mut offset: usize = 0;
    let mut done = false;
    while offset < length && !done
        invariant
            length < buffer@.len(),
            offset <= length + 1,
            done ==> parse_drives_from(buffer@, length as int, offset as int) == Some(Seq::<Seq<char>>::empty()),
            match parse_drives_from(buffer@, length as int, 0) {
                None => parse_drives_from(buffer@, length as int, offset as int) is None,
                Some(all) => parse_drives_from(buffer@, length as int, offset as int) matches Some(tail)
                    && all == out@.map_values(|x: String| x@) + tail,
            },
        decreases length + 1 - offset + (if done { 0int } else { 1int }),
    {
        let rest = vstd::slice::slice_subrange(buffer, offset, length);
        assert(rest@ =~= buffer@.subrange(offset as int, length as int));
        let end = crate::sysinfo::devices::zero_index(rest);
        proof { crate::sysinfo::computer_os::lemma_first_zero_unit_bounds(rest@); }
        if end >= rest.len() {
            let empty: Vec<String> = Vec::new();
            assert(empty@.map_values(|x: String| x@) =~= Seq::<Seq<char>>::empty());
            return empty;
        }
        if end == 0 {
            done = true;
        } else {
        let head = vstd::slice::slice_subrange(rest, 0, end);
        assert(head@ =~= rest@.take(end as int));
        let drive = crate::text::string_from_utf16_lossy(head);
        let ghost before = out@.map_values(|x: String| x@);
        if !drive.as_str().is_empty() {
            out.push(drive);
            assert(out@.map_values(|x: String| x@) =~= before.push(drive@));
        }
        offset = offset + end + 1;
        }
    }
    proof {
        match parse_drives_from(buffer@, length as int, 0) {
            None => {},
            Some(all) => {
                assert(all =~= out@.map_values(|x: String| x@));
            },
        }
    }
    out
}

/// `FILE_READ_ONLY_VOLUME`.
pub const FILE_READ_ONLY_VOLUME: u32 = 0x0008_0000;

/// What was read for one drive root: free and total bytes (`None` when
/// `GetDiskFreeSpaceExW` failed), and the volume's name, file system and
/// flags (`None` when `GetVolumeInformationW` failed).
pub struct VolumeReading {
    pub root: String,
    pub space: Option<(u64, u64)>,
    pub info: Option<(Vec<u16>, Vec<u16>, u32)>,
}

/// A logical volume, without its fractional usage.
pub struct VolumeFigures {
    pub drive_letter: String,
    pub label: String,
    pub file_system: String,
    pub total_bytes: u64,
    pub available_bytes: u64,
    pub used_bytes: u64,
    pub is_read_only: bool,
    pub bitlocker_status: MetricValue<String>,
}

/// Whether a volume is listed: its space was read, it has a size, no more
/// is free than its size, and its volume information was read.
pub open spec fn volume_listed(r: VolumeReading) -> bool {
    &&& r.space matches Some(sp) && sp.1 > 0 && sp.0 <= sp.1
    &&& r.info is Some
}

/// A wide name up to its first NUL, decoded with replacement (not trimmed).
pub open spec fn wide_name(units: Seq<u16>) -> Seq<char> {
    crate::text::utf16_lossy(units.take(crate::sysinfo::computer_os::first_zero_unit(units)))
}

/// `v` describes volume `r` read at `ts`.
pub open spec fn volume_ok(v: VolumeFigures, r: VolumeReading, ts: u64) -> bool {
    let (free, total) = r.space->0;
    let (name, fs, flags) = r.info->0;
    &&& v.drive_letter@ == crate::hardware::trim_backslashes(r.root@)
    &&& v.label@ == wide_name(name@)
    &&& v.file_system@ == wide_name(fs@)
    &&& v.total_bytes == total
    &&& v.available_bytes == free
    &&& v.used_bytes == total - free
    &&& v.is_read_only == (flags & FILE_READ_ONLY_VOLUME != 0)
    &&& metric_absent(v.bitlocker_status, ""@, MetricQuality::Unsupported, "Storage_BitLockerProvider"@,
        "BitLocker status provider is not integrated"@, ts)
}

fn wide_name_exec(units: &[u16]) -> (s: String)
    ensures
        s@ == wide_name(units@),
{
    let end = crate::sysinfo::devices::zero_index(units);
    let head = vstd::slice::slice_subrange(units, 0, end);
    assert(head@ =~= units@.take(end as int));
    crate::text::string_from_utf16_lossy(head)
}

/// Describes one volume; `None` unless it is listed.
pub fn describe_volume(r: &VolumeReading, timestamp: u64) -> (v: Option<VolumeFigures>)
    ensures
        match v {
            None => !volume_listed(*r),
            Some(v) => volume_listed(*r) && volume_ok(v, *r, timestamp),
        },
{
    let (free, total) = match r.space { Some(sp) => sp, None => { return None; } };
    if total == 0 || free > total {
        return None;
    }
    let (name, fs, flags) = match &r.info { Some(i) => i, None => { return None; } };
    Some(VolumeFigures {
        drive_letter: crate::hardware::strip_backslashes(r.root.as_str()),
        label: wide_name_exec(name.as_slice()),
        file_system: wide_name_exec(fs.as_slice()),
        total_bytes: total,
        available_bytes: free,
        used_bytes: total - free,
        is_read_only: (*flags & FILE_READ_ONLY_VOLUME) != 0,
        bitlocker_status: MetricValue::unsupported_at("", "Storage_BitLockerProvider",
            "BitLocker status provider is not integrated", timestamp),
    })
}

/// The listed volumes, in order.
pub open spec fn listed_volumes(rs: Seq<VolumeReading>) -> Seq<VolumeReading> {
    rs.filter(|r: VolumeReading| volume_listed(r))
}

/// Describes every listed volume, in order.
pub fn collect_logical_volumes(readings: &Vec<VolumeReading>, timestamp: u64) -> (out: Vec<VolumeFigures>)
    ensures
        out@.len() == listed_volumes(readings@).len(),
        forall|i: int| 0 <= i < out@.len() ==> volume_ok(#[trigger] out@[i], listed_volumes(readings@)[i], timestamp),
{
    let mut out: Vec<VolumeFigures> = Vec::new();
    let n = readings.len();
    for k in 0..n
        invariant
            n == readings@.len(),
            out@.len() == listed_volumes(readings@.take(k as int)).len(),
            forall|i: int| 0 <= i < out@.len() ==> volume_ok(#[trigger] out@[i], listed_volumes(readings@.take(k as int))[i], timestamp),
    {
        let ghost before = readings@.take(k as int);
        proof {
            before.lemma_filter_push(readings@[k as int], |r: VolumeReading| volume_listed(r));
            assert(before.push(readings@[k as int]) =~= readings@.take(k + 1));
        }
        match describe_volume(&readings[k], timestamp) {
            Some(v) => { out.push(v); },
            None => {},
        }
    }
    assert(readings@.take(n as int) =~= readings@);
    out
}

} // verus!
