//! Metric quality model: every measured value carries its quality, unit,
//! source, timestamp and (when absent) the reason it is absent.
//!
//! Principles: "absent" is never reported as zero, "unsupported" is not an
//! error, and "permission denied" is not "unsupported".

use vstd::prelude::*;
use crate::text::{hex_lower, push_hex_lower};
use vstd::utf8::encode_utf8;

verus! {

/// Quality of one collected metric.
#[derive(Clone, Copy, Debug, PartialEq, Eq, Structural)]
pub enum MetricQuality {
    /// Read from a real system API and validated.
    Good,
    /// Derived by a formula or an indirect estimate.
    Estimated,
    /// Sample is too old.
    Stale,
    /// Hardware, driver or OS does not support the metric.
    Unsupported,
    /// Interface or device is currently unavailable.
    Unavailable,
    /// Not enough privileges for this metric alone.
    PermissionDenied,
    /// A required driver is missing.
    DriverMissing,
    /// The OS API itself is unavailable.
    ApiUnavailable,
    /// Reading or decoding failed.
    ReadError,
    /// The data is corrupt or malformed.
    Invalid,
    /// Nothing is known.
    Unknown,
}

impl Default for MetricQuality {
    fn default() -> (q: Self)
        ensures
            q == MetricQuality::Unknown,
    {
        MetricQuality::Unknown
    }
}

/// Collection status of one provider.
#[derive(Clone, Debug)]
pub struct CollectionStatus {
    pub quality: MetricQuality,
    pub source: String,
    pub timestamp: u64,
    pub item_count: Option<u32>,
    pub truncated: bool,
    pub error: Option<String>,
}

/// A provider's value together with its collection status.
#[derive(Clone, Debug)]
pub struct CollectorResult<T> {
    pub value: T,
    pub status: CollectionStatus,
}

/// A measured value with quality, unit, source, timestamp and error reason.
#[derive(Clone, Debug)]
pub struct MetricValue<T> {
    /// The measurement; `None` whenever the metric could not be measured.
    pub value: Option<T>,
    /// Unit such as "Bytes", "%", "MHz" or "".
    pub unit: String,
    pub quality: MetricQuality,
    /// Name of the API or provider the value came from.
    pub source: String,
    /// Unix milliseconds of the collection.
    pub timestamp: u64,
    /// Structured description whenever the quality is not `Good`: why the
    /// value is absent, or that it is an estimate.
    pub error: Option<String>,
}

/// `m` carries `value` with the given metadata and no error.
pub open spec fn metric_present<T>(
    m: MetricValue<T>,
    value: T,
    unit: Seq<char>,
    quality: MetricQuality,
    source: Seq<char>,
    timestamp: u64,
) -> bool {
    &&& m.value == Some(value)
    &&& m.unit@ == unit
    &&& m.quality == quality
    &&& m.source@ == source
    &&& m.timestamp == timestamp
    &&& m.error is None
}

/// The description an estimated value carries.
pub open spec fn estimated_note() -> Seq<char> {
    "估算值：由公式或间接来源推导，非直接读取 (Estimated)"@
}

/// `m` carries `value` as an estimate, with the given metadata and
/// [`estimated_note`] as its description.
pub open spec fn metric_estimated<T>(
    m: MetricValue<T>,
    value: T,
    unit: Seq<char>,
    source: Seq<char>,
    timestamp: u64,
) -> bool {
    &&& m.value == Some(value)
    &&& m.unit@ == unit
    &&& m.quality == MetricQuality::Estimated
    &&& m.source@ == source
    &&& m.timestamp == timestamp
    &&& m.error matches Some(e) && e@ == estimated_note()
}

/// A text metric with its value taken by its characters.
pub open spec fn text_view(m: MetricValue<String>) -> MetricValue<Seq<char>> {
    MetricValue {
        value: match m.value {
            Some(s) => Some(s@),
            None => None,
        },
        unit: m.unit,
        quality: m.quality,
        source: m.source,
        timestamp: m.timestamp,
        error: m.error,
    }
}

/// `m` carries no value, the given metadata and `reason` as its error.
pub open spec fn metric_absent<T>(
    m: MetricValue<T>,
    unit: Seq<char>,
    quality: MetricQuality,
    source: Seq<char>,
    reason: Seq<char>,
    timestamp: u64,
) -> bool {
    &&& m.value is None
    &&& m.unit@ == unit
    &&& m.quality == quality
    &&& m.source@ == source
    &&& m.timestamp == timestamp
    &&& m.error matches Some(e) && e@ == reason
}

/// Copies a string slice into an owned string.
pub fn owned(s: &str) -> (r: String)
    ensures
        r@ == s@,
{
    s.to_owned()
}

/// Current Unix time in milliseconds, read from the system clock
/// (`SystemTime::now().duration_since(UNIX_EPOCH)`, zero before the epoch).
/// Nothing is promised of the value: it is the machine's clock.
#[verifier::external_body]
pub fn current_timestamp_ms() -> u64 {
    std::time::SystemTime::now()
        .duration_since(std::time::UNIX_EPOCH)
        .unwrap_or_default()
        .as_millis() as u64
}

impl<T> MetricValue<T> {
    /// A good value, stamped with the current time.
    pub fn good(value: T, unit: &str, source: &str) -> (m: Self)
        ensures
            metric_present(m, value, unit@, MetricQuality::Good, source@, m.timestamp),
    {
        Self::good_at(value, unit, source, current_timestamp_ms())
    }

    /// A good value with an explicit timestamp.
    pub fn good_at(value: T, unit: &str, source: &str, timestamp: u64) -> (m: Self)
        ensures
            metric_present(m, value, unit@, MetricQuality::Good, source@, timestamp),
    {
        Self::with_value(value, unit, MetricQuality::Good, source, timestamp)
    }

    /// An estimated value, stamped with the current time.
    pub fn estimated(value: T, unit: &str, source: &str) -> (m: Self)
        ensures
            metric_estimated(m, value, unit@, source@, m.timestamp),
    {
        Self::estimated_at(value, unit, source, current_timestamp_ms())
    }

    /// An estimated value with an explicit timestamp.
    pub fn estimated_at(value: T, unit: &str, source: &str, timestamp: u64) -> (m: Self)
        ensures
            metric_estimated(m, value, unit@, source@, timestamp),
    {
        let mut m = Self::with_value(value, unit, MetricQuality::Estimated, source, timestamp);
        m.error = Some(owned("估算值：由公式或间接来源推导，非直接读取 (Estimated)"));
        m
    }

    /// No value: unsupported by hardware or system, stamped now.
    pub fn unsupported(unit: &str, source: &str, reason: &str) -> (m: Self)
        ensures
            metric_absent(m, unit@, MetricQuality::Unsupported, source@, reason@, m.timestamp),
    {
        Self::unsupported_at(unit, source, reason, current_timestamp_ms())
    }

    /// No value: unsupported, with an explicit timestamp.
    pub fn unsupported_at(unit: &str, source: &str, reason: &str, timestamp: u64) -> (m: Self)
        ensures
            metric_absent(m, unit@, MetricQuality::Unsupported, source@, reason@, timestamp),
    {
        Self::without_value(unit, MetricQuality::Unsupported, source, reason, timestamp)
    }

    /// No value: permission denied, stamped now.
    pub fn permission_denied(unit: &str, source: &str, reason: &str) -> (m: Self)
        ensures
            metric_absent(m, unit@, MetricQuality::PermissionDenied, source@, reason@, m.timestamp),
    {
        Self::permission_denied_at(unit, source, reason, current_timestamp_ms())
    }

    /// No value: permission denied, with an explicit timestamp.
    pub fn permission_denied_at(unit: &str, source: &str, reason: &str, timestamp: u64) -> (m: Self)
        ensures
            metric_absent(m, unit@, MetricQuality::PermissionDenied, source@, reason@, timestamp),
    {
        Self::without_value(unit, MetricQuality::PermissionDenied, source, reason, timestamp)
    }

    /// No value: currently unavailable, stamped now.
    pub fn unavailable(unit: &str, source: &str, reason: &str) -> (m: Self)
        ensures
            metric_absent(m, unit@, MetricQuality::Unavailable, source@, reason@, m.timestamp),
    {
        Self::unavailable_at(unit, source, reason, current_timestamp_ms())
    }

    /// No value: currently unavailable, with an explicit timestamp.
    pub fn unavailable_at(unit: &str, source: &str, reason: &str, timestamp: u64) -> (m: Self)
        ensures
            metric_absent(m, unit@, MetricQuality::Unavailable, source@, reason@, timestamp),
    {
        Self::without_value(unit, MetricQuality::Unavailable, source, reason, timestamp)
    }

    /// No value: a driver is missing.
    pub fn driver_missing_at(unit: &str, source: &str, reason: &str, timestamp: u64) -> (m: Self)
        ensures
            metric_absent(m, unit@, MetricQuality::DriverMissing, source@, reason@, timestamp),
    {
        Self::without_value(unit, MetricQuality::DriverMissing, source, reason, timestamp)
    }

    /// No value: the OS API is unavailable.
    pub fn api_unavailable_at(unit: &str, source: &str, reason: &str, timestamp: u64) -> (m: Self)
        ensures
            metric_absent(m, unit@, MetricQuality::ApiUnavailable, source@, reason@, timestamp),
    {
        Self::without_value(unit, MetricQuality::ApiUnavailable, source, reason, timestamp)
    }

    /// No value: reading failed.
    pub fn read_error_at(unit: &str, source: &str, reason: &str, timestamp: u64) -> (m: Self)
        ensures
            metric_absent(m, unit@, MetricQuality::ReadError, source@, reason@, timestamp),
    {
        Self::without_value(unit, MetricQuality::ReadError, source, reason, timestamp)
    }

    /// No value: the data was malformed.
    pub fn invalid_at(unit: &str, source: &str, reason: &str, timestamp: u64) -> (m: Self)
        ensures
            metric_absent(m, unit@, MetricQuality::Invalid, source@, reason@, timestamp),
    {
        Self::without_value(unit, MetricQuality::Invalid, source, reason, timestamp)
    }

    /// A metric carrying `value` with the given quality.
    fn with_value(value: T, unit: &str, quality: MetricQuality, source: &str, timestamp: u64) -> (m: Self)
        ensures
            metric_present(m, value, unit@, quality, source@, timestamp),
    {
        MetricValue {
            value: Some(value),
            unit: owned(unit),
            quality,
            source: owned(source),
            timestamp,
            error: None,
        }
    }

    /// A metric with no value, the given quality and `reason` as its error.
    pub fn without_value(unit: &str, quality: MetricQuality, source: &str, reason: &str, timestamp: u64) -> (m: Self)
        ensures
            metric_absent(m, unit@, quality, source@, reason@, timestamp),
    {
        MetricValue {
            value: None,
            unit: owned(unit),
            quality,
            source: owned(source),
            timestamp,
            error: Some(owned(reason)),
        }
    }
}

/// Quality a Win32 error code stands for.
pub open spec fn win32_error_quality(code: u32) -> MetricQuality {
    if code == 0 {
        MetricQuality::Good
    } else if code == 5 || code == 1314 {
        MetricQuality::PermissionDenied
    } else if code == 50 {
        MetricQuality::Unsupported
    } else if code == 120 || code == 127 {
        MetricQuality::ApiUnavailable
    } else if code == 1167 || code == 2250 {
        MetricQuality::Unavailable
    } else {
        MetricQuality::ReadError
    }
}

/// Maps a Win32 error code to the quality it stands for.
pub fn classify_win32_error(code: u32) -> (q: MetricQuality)
    ensures
        q == win32_error_quality(code),
{
    match code {
        0 => MetricQuality::Good,
        5 | 1314 => MetricQuality::PermissionDenied,
        50 => MetricQuality::Unsupported,
        120 | 127 => MetricQuality::ApiUnavailable,
        1167 | 2250 => MetricQuality::Unavailable,
        _ => MetricQuality::ReadError,
    }
}

/// FNV-1a 64-bit offset basis.
pub const FNV_OFFSET_BASIS: u64 = 0xcbf2_9ce4_8422_2325;

/// FNV-1a 64-bit prime.
pub const FNV_PRIME: u64 = 0x0000_0100_0000_01b3;

/// One FNV-1a step: xor the byte in, then multiply by the prime modulo 2^64.
pub open spec fn fnv_step(h: u64, b: u8) -> u64 {
    (((h ^ (b as u64)) as nat * FNV_PRIME as nat) % 0x1_0000_0000_0000_0000nat) as u64
}

/// FNV-1a over a byte sequence starting from `h`.
pub open spec fn fnv_fold(h: u64, bytes: Seq<u8>) -> u64
    decreases bytes.len(),
{
    if bytes.len() == 0 {
        h
    } else {
        fnv_step(fnv_fold(h, bytes.drop_last()), bytes.last())
    }
}

/// Bytes of each identity part, each followed by a zero byte.
pub open spec fn identity_bytes(parts: Seq<Seq<char>>) -> Seq<u8>
    decreases parts.len(),
{
    if parts.len() == 0 {
        Seq::empty()
    } else {
        identity_bytes(parts.drop_last()) + encode_utf8(parts.last()) + seq![0u8]
    }
}

/// The hashed input: the prefix bytes, a zero byte, then every part and its zero byte.
pub open spec fn device_id_input(prefix: Seq<char>, parts: Seq<Seq<char>>) -> Seq<u8> {
    encode_utf8(prefix) + seq![0u8] + identity_bytes(parts)
}

/// `prefix-` followed by the 16 lower-case hex digits of the FNV-1a hash.
pub open spec fn device_id_spec(prefix: Seq<char>, parts: Seq<Seq<char>>) -> Seq<char> {
    prefix + seq!['-'] + hex_lower(fnv_fold(FNV_OFFSET_BASIS, device_id_input(prefix, parts)), 16)
}

/// A device identifier is the prefix, a dash and exactly sixteen lower-case
/// hex digits, whatever the identity parts: no part of the identity text
/// shows in it, and the same prefix and parts always give the same one.
pub proof fn lemma_device_id_shape(prefix: Seq<char>, parts: Seq<Seq<char>>)
    ensures
        device_id_spec(prefix, parts).len() == prefix.len() + 17,
        device_id_spec(prefix, parts).take(prefix.len() as int + 1) == prefix + seq!['-'],
        forall|i: int| prefix.len() + 1 <= i < prefix.len() + 17
            ==> crate::text::lower_hex_char(#[trigger] device_id_spec(prefix, parts)[i]),
{
    let h = hex_lower(fnv_fold(FNV_OFFSET_BASIS, device_id_input(prefix, parts)), 16);
    crate::text::lemma_hex_lower_len(fnv_fold(FNV_OFFSET_BASIS, device_id_input(prefix, parts)), 16);
    crate::text::lemma_hex_lower_chars(fnv_fold(FNV_OFFSET_BASIS, device_id_input(prefix, parts)), 16);
    let d = device_id_spec(prefix, parts);
    assert(d.take(prefix.len() as int + 1) =~= prefix + seq!['-']);
    assert forall|i: int| prefix.len() + 1 <= i < prefix.len() + 17
        implies crate::text::lower_hex_char(#[trigger] d[i]) by {
        assert(d[i] == h[i - prefix.len() - 1]);
    }
}

/// The character views of a slice of string slices.
pub open spec fn str_views(parts: Seq<&str>) -> Seq<Seq<char>> {
    parts.map_values(|p: &str| p@)
}

fn hash_zero(h: u64, Ghost(consumed): Ghost<Seq<u8>>) -> (r: u64)
    requires
        h == fnv_fold(FNV_OFFSET_BASIS, consumed),
    ensures
        r == fnv_fold(FNV_OFFSET_BASIS, consumed + seq![0u8]),
{
    assert((consumed + seq![0u8]).drop_last() =~= consumed);
    (h ^ 0u64).wrapping_mul(FNV_PRIME)
}

fn hash_bytes(h: u64, bytes: &[u8], Ghost(consumed): Ghost<Seq<u8>>) -> (r: u64)
    requires
        h == fnv_fold(FNV_OFFSET_BASIS, consumed),
    ensures
        r == fnv_fold(FNV_OFFSET_BASIS, consumed + bytes@),
{
    let mut hash = h;
    let n = bytes.len();
    for i in 0..n
        invariant
            n == bytes@.len(),
            hash == fnv_fold(FNV_OFFSET_BASIS, consumed + bytes@.take(i as int)),
    {
        let b = bytes[i];
        assert((consumed + bytes@.take(i + 1)).drop_last() =~= consumed + bytes@.take(i as int));
        hash = (hash ^ (b as u64)).wrapping_mul(FNV_PRIME);
    }
    assert(bytes@.take(n as int) =~= bytes@);
    hash
}

/// Stable device identifier that does not expose the identity text: the
/// prefix, a dash and the FNV-1a 64-bit hash (16 lower-case hex digits) of the
/// prefix and identity parts, each terminated by a zero byte.
pub fn stable_device_id(prefix: &str, identity: &[&str]) -> (id: String)
    ensures
        id@ == device_id_spec(prefix@, str_views(identity@)),
{
    let ghost parts = str_views(identity@);
    let pb = prefix.as_bytes();
    let mut hash = hash_bytes(FNV_OFFSET_BASIS, pb, Ghost(Seq::empty()));
    assert(Seq::<u8>::empty() + pb@ =~= encode_utf8(prefix@));
    hash = hash_zero(hash, Ghost(encode_utf8(prefix@)));
    let n = identity.len();
    for k in 0..n
        invariant
            n == identity@.len(),
            parts == str_views(identity@),
            hash == fnv_fold(FNV_OFFSET_BASIS, encode_utf8(prefix@) + seq![0u8] + identity_bytes(parts.take(k as int))),
    {
        let ghost before = encode_utf8(prefix@) + seq![0u8] + identity_bytes(parts.take(k as int));
        let part: &str = identity[k];
        let part_bytes = part.as_bytes();
        hash = hash_bytes(hash, part_bytes, Ghost(before));
        hash = hash_zero(hash, Ghost(before + part_bytes@));
        assert(parts.take(k + 1).drop_last() =~= parts.take(k as int));
        assert(parts[k as int] == part@);
        assert(parts.take(k + 1).last() == part@);
        assert(identity_bytes(parts.take(k + 1)) == identity_bytes(parts.take(k as int)) + encode_utf8(part@) + seq![0u8]);
        assert(part_bytes@ == encode_utf8(part@));
        assert(before + part_bytes@ + seq![0u8] =~= encode_utf8(prefix@) + seq![0u8] + identity_bytes(parts.take(k + 1)));
    }
    assert(parts.take(n as int) =~= parts);
    let mut id = owned(prefix);
    crate::text::string_push(&mut id, '-');
    push_hex_lower(&mut id, hash, 16);
    id
}

} // verus!

verus! {

/// `m` carries text `value` with the given metadata and no error.
pub open spec fn text_metric_present(
    m: MetricValue<String>,
    value: Seq<char>,
    unit: Seq<char>,
    quality: MetricQuality,
    source: Seq<char>,
    timestamp: u64,
) -> bool {
    &&& m.value matches Some(x) && x@ == value
    &&& m.unit@ == unit
    &&& m.quality == quality
    &&& m.source@ == source
    &&& m.timestamp == timestamp
    &&& m.error is None
}

/// A text metric read with quality `Good`.
pub fn good_text(value: &str, unit: &str, source: &str, timestamp: u64) -> (m: MetricValue<String>)
    ensures
        text_metric_present(m, value@, unit@, MetricQuality::Good, source@, timestamp),
{
    MetricValue::good_at(owned(value), unit, source, timestamp)
}

} // verus!

verus! {

/// A collector status: where the data came from, its quality, how many items
/// were collected (none where the count exceeds `u32`), whether the list was
/// cut, and the error text if any.
pub fn collection_status_for(
    source: &str,
    quality: MetricQuality,
    count: usize,
    truncated: bool,
    error: Option<&str>,
    timestamp: u64,
) -> (s: CollectionStatus)
    ensures
        s.source@ == source@,
        s.quality == quality,
        s.timestamp == timestamp,
        s.item_count == (if count <= u32::MAX { Some(count as u32) } else { None }),
        s.truncated == truncated,
        match error {
            Some(e) => s.error matches Some(x) && x@ == e@,
            None => s.error is None,
        },
{
    CollectionStatus {
        quality,
        source: owned(source),
        timestamp,
        item_count: if count <= 4294967295 { Some(count as u32) } else { None },
        truncated,
        error: match error {
            Some(e) => Some(owned(e)),
            None => None,
        },
    }
}

} // verus!
