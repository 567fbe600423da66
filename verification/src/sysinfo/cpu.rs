//! Processor identification and topology decoded from what the CPU and
//! Windows reported: CPUID registers, deterministic cache leaves, processor
//! core records and system time counters. Only reported values are used;
//! anything that cannot be read reliably stays a quality without a value.

use vstd::prelude::*;
use crate::quality::{MetricQuality, MetricValue, metric_present, metric_absent, owned, text_metric_present};
use crate::strs::{trim, trim_chars, CharClass, first_in, find_class};
use crate::text::{str_from_utf8, string_push};

verus! {

/// Largest registry value read, in bytes.
pub const MAX_REGISTRY_VALUE_BYTES: usize = 1048576;
/// Largest processor-information buffer read, in bytes.
pub const MAX_PROCESSOR_INFO_BYTES: usize = 16777216;

/// A registry value length is accepted up to 1 MiB.
pub fn bounded_registry_length(length: u32) -> (r: Result<usize, MetricQuality>)
    ensures
        r == (if length as nat <= MAX_REGISTRY_VALUE_BYTES as nat {
            Ok::<usize, MetricQuality>(length as usize)
        } else {
            Err::<usize, MetricQuality>(MetricQuality::Invalid)
        }),
{
    if (length as u64) <= (MAX_REGISTRY_VALUE_BYTES as u64) {
        Ok(length as usize)
    } else {
        Err(MetricQuality::Invalid)
    }
}

/// A processor-information buffer length is accepted up to 16 MiB.
pub fn bounded_processor_info_length(length: u32) -> (r: Result<usize, MetricQuality>)
    ensures
        r == (if length as nat <= MAX_PROCESSOR_INFO_BYTES as nat {
            Ok::<usize, MetricQuality>(length as usize)
        } else {
            Err::<usize, MetricQuality>(MetricQuality::Invalid)
        }),
{
    if (length as u64) <= (MAX_PROCESSOR_INFO_BYTES as u64) {
        Ok(length as usize)
    } else {
        Err(MetricQuality::Invalid)
    }
}

/// FMA3 and F16C are usable only with their own CPUID bit, the AVX bit,
/// OSXSAVE, and the AVX register state enabled by the OS.
pub fn avx_dependent_feature_usable(
    hardware_feature_supported: bool,
    avx_supported: bool,
    osxsave: bool,
    avx_state_usable: bool,
) -> (b: bool)
    ensures
        b == (hardware_feature_supported && avx_supported && osxsave && avx_state_usable),
{
    hardware_feature_supported && avx_supported && osxsave && avx_state_usable
}

/// Quality a missing metric reports: the failure's own quality, or
/// `Unavailable` where that quality would claim a value.
pub open spec fn missing_quality(q: MetricQuality) -> MetricQuality {
    match q {
        MetricQuality::Good | MetricQuality::Estimated | MetricQuality::Stale | MetricQuality::Unknown => MetricQuality::Unavailable,
        _ => q,
    }
}

/// A metric without value for a failure of quality `q`.
pub fn missing_metric<T>(unit: &str, source: &str, q: MetricQuality, reason: &str, timestamp: u64) -> (m: MetricValue<T>)
    ensures
        metric_absent(m, unit@, missing_quality(q), source@, reason@, timestamp),
{
    let quality = match q {
        MetricQuality::Good | MetricQuality::Estimated | MetricQuality::Stale | MetricQuality::Unknown => MetricQuality::Unavailable,
        _ => q,
    };
    MetricValue::without_value(unit, quality, source, reason, timestamp)
}

// ---------------------------------------------------------------------------
// CPUID
// ---------------------------------------------------------------------------

/// CPUID registers as read by the collector.
#[derive(Clone, Copy, Debug)]
pub struct CpuidReadings {
    /// Leaf 0: highest basic leaf (EAX).
    pub max_basic: u32,
    /// Leaf 0: vendor string registers EBX, EDX, ECX.
    pub vendor_regs: [u32; 3],
    /// Leaf 0x8000_0000: highest extended leaf (EAX).
    pub max_extended: u32,
    /// Leaf 1: EAX, ECX, EDX.
    pub leaf1: [u32; 3],
    /// `XGETBV(0)`, read only when OSXSAVE is set (otherwise any value).
    pub xcr0: u64,
    /// Leaf 7 sub-leaf 0: EBX (meaningful when `max_basic >= 7`).
    pub leaf7_ebx: u32,
    /// Leaf 0x8000_0001: ECX (meaningful when `max_extended >= 0x8000_0001`).
    pub ext1_ecx: u32,
    /// Leaves 0x8000_0002..=0x8000_0004: EAX, EBX, ECX, EDX each
    /// (meaningful when `max_extended >= 0x8000_0004`).
    pub brand_regs: [u32; 12],
}

/// Processor facts decoded from CPUID.
#[derive(Clone, Debug)]
pub struct CpuidInfo {
    pub vendor: String,
    pub brand: Option<String>,
    pub family: u32,
    pub model: u32,
    pub stepping: u32,
    pub features: Vec<String>,
    pub virtualization: Option<String>,
}

/// Bit `k` of `x`.
pub open spec fn bit(x: u32, k: u32) -> bool {
    x & (1u32 << k) != 0
}

/// The four little-endian bytes of a register.
pub open spec fn le_bytes(x: u32) -> Seq<u8> {
    seq![(x & 0xff) as u8, ((x >> 8u32) & 0xff) as u8, ((x >> 16u32) & 0xff) as u8, ((x >> 24u32) & 0xff) as u8]
}

/// The bytes of several registers, in order.
pub open spec fn regs_bytes(regs: Seq<u32>) -> Seq<u8>
    decreases regs.len(),
{
    if regs.len() == 0 {
        Seq::empty()
    } else {
        regs_bytes(regs.drop_last()) + le_bytes(regs.last())
    }
}

/// The vendor name: the twelve bytes as UTF-8 with NULs and white space
/// trimmed; `None` when not UTF-8 or blank.
pub open spec fn vendor_spec(r: CpuidReadings) -> Option<Seq<char>> {
    let bytes = regs_bytes(r.vendor_regs@);
    if !vstd::utf8::valid_utf8(bytes) {
        None
    } else {
        let v = trim(trim(vstd::utf8::decode_utf8(bytes), CharClass::Is('\0')), CharClass::Whitespace);
        if v.len() == 0 { None } else { Some(v) }
    }
}

/// The brand string: 48 bytes up to the first NUL, trimmed; `None` when the
/// leaves are missing or the text is blank, an error when not UTF-8.
pub open spec fn brand_spec(r: CpuidReadings) -> Result<Option<Seq<char>>, MetricQuality> {
    if r.max_extended < 0x8000_0004 {
        Ok(None)
    } else {
        let bytes = regs_bytes(r.brand_regs@);
        if !vstd::utf8::valid_utf8(bytes) {
            Err(MetricQuality::ReadError)
        } else {
            let text = vstd::utf8::decode_utf8(bytes);
            let v = trim(text.take(first_in(text, CharClass::Is('\0'))), CharClass::Whitespace);
            Ok(if v.len() == 0 { None } else { Some(v) })
        }
    }
}

/// Family: base family, plus the extended family when the base is 0xF.
pub open spec fn family_spec(eax: u32) -> u32 {
    let base = (eax >> 8u32) & 0x0f;
    if base == 0x0f { (base + ((eax >> 20u32) & 0xff)) as u32 } else { base }
}

/// Model: base model, with the extended model on top for families 6 and 0xF.
pub open spec fn model_spec(eax: u32) -> u32 {
    let base_family = (eax >> 8u32) & 0x0f;
    let base = (eax >> 4u32) & 0x0f;
    if base_family == 0x06 || base_family == 0x0f { (((eax >> 16u32) & 0x0f) << 4u32) | base } else { base }
}

/// OSXSAVE is set.
pub open spec fn osxsave_spec(r: CpuidReadings) -> bool {
    bit(r.leaf1[1], 27)
}

/// XCR0 as far as it was read.
pub open spec fn xcr0_spec(r: CpuidReadings) -> u64 {
    if osxsave_spec(r) { r.xcr0 } else { 0 }
}

/// The OS saves the AVX registers (XCR0 bits 1 and 2).
pub open spec fn avx_state_spec(r: CpuidReadings) -> bool {
    xcr0_spec(r) & 0x06 == 0x06
}

/// The OS saves the AVX-512 registers (XCR0 bits 1, 2, 5, 6, 7).
pub open spec fn avx512_state_spec(r: CpuidReadings) -> bool {
    xcr0_spec(r) & 0xe6 == 0xe6
}

/// `s` where `c` holds, nothing otherwise.
pub open spec fn when(c: bool, s: Seq<char>) -> Seq<Seq<char>> {
    if c { seq![s] } else { Seq::empty() }
}

/// AMD-V is reported.
pub open spec fn svm_spec(r: CpuidReadings) -> bool {
    r.max_extended >= 0x8000_0001 && bit(r.ext1_ecx, 2)
}

/// Features reported by leaf 1 and the OS state, in reporting order.
pub open spec fn leaf1_features(r: CpuidReadings) -> Seq<Seq<char>> {
    let ecx = r.leaf1[1];
    let edx = r.leaf1[2];
    let avx = bit(ecx, 28);
    let avx_state = avx_state_spec(r);
    let osx = osxsave_spec(r);
    Seq::empty() + when(bit(edx, 23), "MMX"@) + when(bit(edx, 25), "SSE"@) + when(bit(edx, 26), "SSE2"@)
        + when(bit(edx, 28), "HTT"@) + when(bit(ecx, 0), "SSE3"@) + when(bit(ecx, 9), "SSSE3"@)
        + when(bit(ecx, 12) && avx && osx && avx_state, "FMA3"@) + when(bit(ecx, 19), "SSE4.1"@)
        + when(bit(ecx, 20), "SSE4.2"@) + when(bit(ecx, 23), "POPCNT"@) + when(bit(ecx, 25), "AES-NI"@)
        + when(osx, "OSXSAVE"@) + when(avx && avx_state, "AVX"@)
        + when(bit(ecx, 29) && avx && osx && avx_state, "F16C"@) + when(bit(ecx, 30), "RDRAND"@)
        + when(bit(ecx, 5), "VMX"@)
}

/// Features reported by leaf 7, where it exists.
pub open spec fn leaf7_features(r: CpuidReadings) -> Seq<Seq<char>> {
    let b7 = r.leaf7_ebx;
    let l7 = r.max_basic >= 7;
    Seq::empty() + when(l7 && bit(b7, 3), "BMI1"@) + when(l7 && bit(b7, 5) && avx_state_spec(r), "AVX2"@)
        + when(l7 && bit(b7, 8), "BMI2"@) + when(l7 && bit(b7, 16) && avx512_state_spec(r), "AVX512F"@)
        + when(l7 && bit(b7, 18), "RDSEED"@) + when(l7 && bit(b7, 19), "ADX"@) + when(l7 && bit(b7, 29), "SHA"@)
}

/// The instruction-set features, in reporting order.
pub open spec fn features_spec(r: CpuidReadings) -> Seq<Seq<char>> {
    leaf1_features(r) + leaf7_features(r) + when(svm_spec(r), "SVM"@)
}

/// Hardware virtualization: VMX first, then SVM.
pub open spec fn virtualization_spec(r: CpuidReadings) -> Option<Seq<char>> {
    if bit(r.leaf1[1], 5) {
        Some("VMX"@)
    } else if svm_spec(r) {
        Some("SVM"@)
    } else {
        None
    }
}

/// The models of a list of strings.
pub open spec fn string_seq(v: Seq<String>) -> Seq<Seq<char>> {
    Seq::new(v.len(), |i: int| v[i]@)
}

/// The decoded CPUID facts.
pub open spec fn cpuid_ok(info: CpuidInfo, r: CpuidReadings, brand: Option<Seq<char>>) -> bool {
    &&& vendor_spec(r) == Some(info.vendor@)
    &&& brand == match info.brand { Some(b) => Some(b@), None => None::<Seq<char>> }
    &&& info.family == family_spec(r.leaf1[0])
    &&& info.model == model_spec(r.leaf1[0])
    &&& info.stepping == r.leaf1[0] & 0x0f
    &&& string_seq(info.features@) == features_spec(r)
    &&& virtualization_spec(r) == match info.virtualization { Some(v) => Some(v@), None => None::<Seq<char>> }
}

fn push_le_bytes(out: &mut Vec<u8>, x: u32)
    ensures
        final(out)@ == old(out)@ + le_bytes(x),
{
    out.push((x & 0xff) as u8);
    out.push(((x >> 8) & 0xff) as u8);
    out.push(((x >> 16) & 0xff) as u8);
    out.push(((x >> 24) & 0xff) as u8);
    assert(out@ =~= old(out)@ + le_bytes(x));
}

fn regs_to_bytes(regs: &[u32]) -> (out: Vec<u8>)
    ensures
        out@ == regs_bytes(regs@),
{
    let n = regs.len();
    let mut out: Vec<u8> = Vec::new();
    let mut i: usize = 0;
    while i < n
        invariant
            i <= n == regs@.len(),
            out@ == regs_bytes(regs@.take(i as int)),
        decreases n - i,
    {
        push_le_bytes(&mut out, regs[i]);
        assert(regs@.take(i + 1).drop_last() =~= regs@.take(i as int));
        i += 1;
    }
    assert(regs@.take(n as int) =~= regs@);
    out
}

fn add_feature(features: &mut Vec<String>, cond: bool, name: &str)
    ensures
        string_seq(final(features)@) == string_seq(old(features)@) + when(cond, name@),
{
    if cond {
        features.push(owned(name));
    }
    assert(string_seq(features@) =~= string_seq(old(features)@) + when(cond, name@));
}

fn bit_set(x: u32, k: u32) -> (b: bool)
    requires
        k < 32,
    ensures
        b == bit(x, k),
{
    x & (1u32 << k) != 0
}

fn leaf1_feature_list(r: &CpuidReadings) -> (out: Vec<String>)
    ensures
        string_seq(out@) == leaf1_features(*r),
{
    let mut out: Vec<String> = Vec::new();
    let f = &mut out;
    assert(string_seq(f@) =~= Seq::<Seq<char>>::empty());
    let ecx = r.leaf1[1];
    let edx = r.leaf1[2];
    let osxsave = bit_set(ecx, 27);
    let xcr0: u64 = if osxsave { r.xcr0 } else { 0 };
    let avx = bit_set(ecx, 28);
    let avx_state = xcr0 & 0x06 == 0x06;
    add_feature(f, bit_set(edx, 23), "MMX");
    add_feature(f, bit_set(edx, 25), "SSE");
    add_feature(f, bit_set(edx, 26), "SSE2");
    add_feature(f, bit_set(edx, 28), "HTT");
    add_feature(f, bit_set(ecx, 0), "SSE3");
    add_feature(f, bit_set(ecx, 9), "SSSE3");
    add_feature(f, avx_dependent_feature_usable(bit_set(ecx, 12), avx, osxsave, avx_state), "FMA3");
    add_feature(f, bit_set(ecx, 19), "SSE4.1");
    add_feature(f, bit_set(ecx, 20), "SSE4.2");
    add_feature(f, bit_set(ecx, 23), "POPCNT");
    add_feature(f, bit_set(ecx, 25), "AES-NI");
    add_feature(f, osxsave, "OSXSAVE");
    add_feature(f, avx && avx_state, "AVX");
    add_feature(f, avx_dependent_feature_usable(bit_set(ecx, 29), avx, osxsave, avx_state), "F16C");
    add_feature(f, bit_set(ecx, 30), "RDRAND");
    add_feature(f, bit_set(ecx, 5), "VMX");
    out
}

fn leaf7_feature_list(r: &CpuidReadings) -> (out: Vec<String>)
    ensures
        string_seq(out@) == leaf7_features(*r),
{
    let mut out: Vec<String> = Vec::new();
    let f = &mut out;
    assert(string_seq(f@) =~= Seq::<Seq<char>>::empty());
    let osxsave = bit_set(r.leaf1[1], 27);
    let xcr0: u64 = if osxsave { r.xcr0 } else { 0 };
    let avx_state = xcr0 & 0x06 == 0x06;
    let avx512_state = xcr0 & 0xe6 == 0xe6;
    let l7 = r.max_basic >= 7;
    let b7 = r.leaf7_ebx;
    add_feature(f, l7 && bit_set(b7, 3), "BMI1");
    add_feature(f, l7 && bit_set(b7, 5) && avx_state, "AVX2");
    add_feature(f, l7 && bit_set(b7, 8), "BMI2");
    add_feature(f, l7 && bit_set(b7, 16) && avx512_state, "AVX512F");
    add_feature(f, l7 && bit_set(b7, 18), "RDSEED");
    add_feature(f, l7 && bit_set(b7, 19), "ADX");
    add_feature(f, l7 && bit_set(b7, 29), "SHA");
    out
}

fn decode_vendor(r: &CpuidReadings) -> (v: Option<String>)
    ensures
        match v {
            Some(s) => vendor_spec(*r) == Some(s@),
            None => vendor_spec(*r) is None,
        },
{
    let bytes = regs_to_bytes(&r.vendor_regs);
    match str_from_utf8(bytes.as_slice()) {
        None => None,
        Some(text) => {
            let cs = crate::text::str_chars(text.as_str());
            let a = trim_chars(cs.as_slice(), CharClass::Is('\0'));
            let b = trim_chars(a.as_slice(), CharClass::Whitespace);
            if b.len() == 0 {
                None
            } else {
                Some(crate::text::chars_to_string(b.as_slice()))
            }
        },
    }
}

fn decode_brand(r: &CpuidReadings) -> (v: Result<Option<String>, MetricQuality>)
    ensures
        match v {
            Ok(Some(s)) => brand_spec(*r) == Ok::<Option<Seq<char>>, MetricQuality>(Some(s@)),
            Ok(None) => brand_spec(*r) == Ok::<Option<Seq<char>>, MetricQuality>(None),
            Err(q) => brand_spec(*r) == Err::<Option<Seq<char>>, MetricQuality>(q),
        },
{
    if r.max_extended < 0x8000_0004 {
        return Ok(None);
    }
    let bytes = regs_to_bytes(&r.brand_regs);
    match str_from_utf8(bytes.as_slice()) {
        None => Err(MetricQuality::ReadError),
        Some(text) => {
            let cs = crate::text::str_chars(text.as_str());
            let end = match find_class(cs.as_slice(), CharClass::Is('\0')) {
                Some(i) => i,
                None => cs.len(),
            };
            let head = crate::strs::sub_chars(cs.as_slice(), 0, end);
            assert(head@ =~= cs@.take(end as int));
            let t = trim_chars(head.as_slice(), CharClass::Whitespace);
            if t.len() == 0 {
                Ok(None)
            } else {
                Ok(Some(crate::text::chars_to_string(t.as_slice())))
            }
        },
    }
}

/// Decodes CPUID readings: vendor, brand, family, model, stepping, features
/// and virtualization. Fails with `ApiUnavailable` when leaf 1 is missing and
/// `ReadError` when the vendor or brand text is unusable.
pub fn decode_cpuid(r: &CpuidReadings) -> (res: Result<CpuidInfo, MetricQuality>)
    ensures
        match res {
            Ok(info) => r.max_basic >= 1 && (brand_spec(*r) matches Ok(b) && cpuid_ok(info, *r, b)),
            Err(q) => (vendor_spec(*r) is None && q == MetricQuality::ReadError)
                || (vendor_spec(*r) is Some && r.max_basic < 1 && q == MetricQuality::ApiUnavailable)
                || (vendor_spec(*r) is Some && r.max_basic >= 1 && brand_spec(*r) == Err::<Option<Seq<char>>, MetricQuality>(q)),
        },
{
    let vendor = match decode_vendor(r) {
        Some(v) => v,
        None => return Err(MetricQuality::ReadError),
    };
    if r.max_basic < 1 {
        return Err(MetricQuality::ApiUnavailable);
    }
    let eax = r.leaf1[0];
    let ecx = r.leaf1[1];
    let edx = r.leaf1[2];
    let stepping = eax & 0x0f;
    let base_model = (eax >> 4) & 0x0f;
    let base_family = (eax >> 8) & 0x0f;
    let extended_model = (eax >> 16) & 0x0f;
    let extended_family = (eax >> 20) & 0xff;
    assert(base_family <= 15 && extended_family <= 255) by (bit_vector)
        requires
            base_family == (eax >> 8u32) & 0x0f,
            extended_family == (eax >> 20u32) & 0xff;
    let family = if base_family == 0x0f { base_family + extended_family } else { base_family };
    let model = if base_family == 0x06 || base_family == 0x0f { (extended_model << 4) | base_model } else { base_model };
    let mut f = leaf1_feature_list(r);
    let mut g = leaf7_feature_list(r);
    let ghost f0 = f@;
    let ghost g0 = g@;
    f.append(&mut g);
    assert(string_seq(f@) =~= string_seq(f0) + string_seq(g0));
    let svm = r.max_extended >= 0x8000_0001 && bit_set(r.ext1_ecx, 2);
    add_feature(&mut f, svm, "SVM");
    assert(string_seq(f@) =~= features_spec(*r));
    let vmx = bit_set(ecx, 5);
    let brand = match decode_brand(r) {
        Ok(b) => b,
        Err(q) => return Err(q),
    };
    let virtualization = if vmx {
        Some(owned("VMX"))
    } else if svm {
        Some(owned("SVM"))
    } else {
        None
    };
    Ok(CpuidInfo { vendor, brand, family, model, stepping, features: f, virtualization })
}

} // verus!

verus! {

// ---------------------------------------------------------------------------
// Deterministic cache leaves
// ---------------------------------------------------------------------------

/// Total cache sizes per level and kind, where any cache was reported.
#[derive(Clone, Copy, Debug, PartialEq, Eq, Structural)]
pub struct CacheInfo {
    pub l1_data_bytes: Option<u64>,
    pub l1_inst_bytes: Option<u64>,
    pub l2_bytes: Option<u64>,
    pub l3_bytes: Option<u64>,
}

/// Size of one cache: line size × partitions × ways × sets.
pub open spec fn cache_size_spec(ebx: u32, ecx: u32) -> nat {
    (((ebx & 0x0fff) + 1) as nat) * ((((ebx >> 12u32) & 0x03ff) + 1) as nat)
        * ((((ebx >> 22u32) & 0x03ff) + 1) as nat) * ((ecx as nat) + 1)
}

/// `slot` plus `size`, or `None` on overflow.
pub open spec fn add_slot(slot: Option<u64>, size: nat) -> Option<u64> {
    let total = (match slot { Some(v) => v as nat, None => 0nat }) + size;
    if total > u64::MAX { None } else { Some(total as u64) }
}

/// Adds a cache of the given level and type (1 data, 2 instruction, 3
/// unified) to the totals; a unified level-1 cache counts as both; other
/// levels are ignored. `None` on overflow.
pub open spec fn add_cache_spec(info: CacheInfo, level: u32, ty: u32, size: nat) -> Option<CacheInfo> {
    if level == 1 && ty == 1 {
        match add_slot(info.l1_data_bytes, size) { Some(v) => Some(CacheInfo { l1_data_bytes: Some(v), ..info }), None => None }
    } else if level == 1 && ty == 2 {
        match add_slot(info.l1_inst_bytes, size) { Some(v) => Some(CacheInfo { l1_inst_bytes: Some(v), ..info }), None => None }
    } else if level == 1 {
        match (add_slot(info.l1_data_bytes, size), add_slot(info.l1_inst_bytes, size)) {
            (Some(d), Some(i)) => Some(CacheInfo { l1_data_bytes: Some(d), l1_inst_bytes: Some(i), ..info }),
            _ => None,
        }
    } else if level == 2 {
        match add_slot(info.l2_bytes, size) { Some(v) => Some(CacheInfo { l2_bytes: Some(v), ..info }), None => None }
    } else if level == 3 {
        match add_slot(info.l3_bytes, size) { Some(v) => Some(CacheInfo { l3_bytes: Some(v), ..info }), None => None }
    } else {
        Some(info)
    }
}

/// Scans sub-leaves `(EAX, EBX, ECX)` from `i` until the terminating type 0:
/// an unknown type, a level of 0, a size that overflows or no terminator is a
/// read error, and a list without any cache is unavailable.
pub open spec fn cache_scan(regs: Seq<(u32, u32, u32)>, i: int, info: CacheInfo, saw: bool) -> Result<CacheInfo, MetricQuality>
    decreases regs.len() - i,
{
    if i < 0 || i >= regs.len() {
        Err(MetricQuality::ReadError)
    } else {
        let eax = regs[i].0;
        let ty = eax & 0x1f;
        let level = (eax >> 5u32) & 0x07;
        let size = cache_size_spec(regs[i].1, regs[i].2);
        if ty == 0 {
            if saw { Ok(info) } else { Err(MetricQuality::ApiUnavailable) }
        } else if ty > 3 || level == 0 || size > u64::MAX {
            Err(MetricQuality::ReadError)
        } else {
            match add_cache_spec(info, level, ty, size) {
                None => Err(MetricQuality::ReadError),
                Some(next) => cache_scan(regs, i + 1, next, true),
            }
        }
    }
}

/// No cache seen yet.
pub open spec fn no_cache() -> CacheInfo {
    CacheInfo { l1_data_bytes: None, l1_inst_bytes: None, l2_bytes: None, l3_bytes: None }
}

fn add_slot_exec(slot: Option<u64>, size: u64) -> (r: Option<u64>)
    ensures
        r == add_slot(slot, size as nat),
{
    let cur = match slot { Some(v) => v, None => 0 };
    cur.checked_add(size)
}

fn add_cache(info: CacheInfo, level: u32, ty: u32, size: u64) -> (r: Option<CacheInfo>)
    ensures
        r == add_cache_spec(info, level, ty, size as nat),
{
    if level == 1 && ty == 1 {
        match add_slot_exec(info.l1_data_bytes, size) { Some(v) => Some(CacheInfo { l1_data_bytes: Some(v), ..info }), None => None }
    } else if level == 1 && ty == 2 {
        match add_slot_exec(info.l1_inst_bytes, size) { Some(v) => Some(CacheInfo { l1_inst_bytes: Some(v), ..info }), None => None }
    } else if level == 1 {
        match (add_slot_exec(info.l1_data_bytes, size), add_slot_exec(info.l1_inst_bytes, size)) {
            (Some(d), Some(i)) => Some(CacheInfo { l1_data_bytes: Some(d), l1_inst_bytes: Some(i), ..info }),
            _ => None,
        }
    } else if level == 2 {
        match add_slot_exec(info.l2_bytes, size) { Some(v) => Some(CacheInfo { l2_bytes: Some(v), ..info }), None => None }
    } else if level == 3 {
        match add_slot_exec(info.l3_bytes, size) { Some(v) => Some(CacheInfo { l3_bytes: Some(v), ..info }), None => None }
    } else {
        Some(info)
    }
}

fn cache_size(ebx: u32, ecx: u32) -> (r: Option<u64>)
    ensures
        match r {
            Some(v) => v as nat == cache_size_spec(ebx, ecx),
            None => cache_size_spec(ebx, ecx) > u64::MAX,
        },
{
    assert((ebx & 0x0fff) <= 0x0fff && ((ebx >> 12u32) & 0x03ff) <= 0x03ff && ((ebx >> 22u32) & 0x03ff) <= 0x03ff) by (bit_vector);
    let line = ((ebx & 0x0fff) + 1) as u64;
    let parts = (((ebx >> 12) & 0x03ff) + 1) as u64;
    let ways = (((ebx >> 22) & 0x03ff) + 1) as u64;
    let sets = (ecx as u64) + 1;
    assert(line * parts <= 4096 * 1024) by (nonlinear_arith)
        requires line <= 4096, parts <= 1024;
    let a = line * parts;
    match a.checked_mul(ways) {
        None => {
            assert(cache_size_spec(ebx, ecx) >= (a as nat) * (ways as nat)) by (nonlinear_arith)
                requires cache_size_spec(ebx, ecx) == (a as nat) * (ways as nat) * (sets as nat), sets >= 1;
            None
        },
        Some(b) => match b.checked_mul(sets) {
            None => None,
            Some(c) => Some(c),
        },
    }
}

/// Parses deterministic cache sub-leaves (see [`cache_scan`]).
pub fn parse_deterministic_cache(regs: &[(u32, u32, u32)]) -> (r: Result<CacheInfo, MetricQuality>)
    ensures
        r == cache_scan(regs@, 0, no_cache(), false),
{
    let n = regs.len();
    let mut info = CacheInfo { l1_data_bytes: None, l1_inst_bytes: None, l2_bytes: None, l3_bytes: None };
    let mut saw = false;
    let mut i: usize = 0;
    while i < n
        invariant
            i <= n == regs@.len(),
            cache_scan(regs@, 0, no_cache(), false) == cache_scan(regs@, i as int, info, saw),
        decreases n - i,
    {
        let (eax, ebx, ecx) = regs[i];
        let ty = eax & 0x1f;
        let level = (eax >> 5) & 0x07;
        if ty == 0 {
            return if saw { Ok(info) } else { Err(MetricQuality::ApiUnavailable) };
        }
        if ty > 3 || level == 0 {
            return Err(MetricQuality::ReadError);
        }
        let size = match cache_size(ebx, ecx) {
            Some(s) => s,
            None => return Err(MetricQuality::ReadError),
        };
        match add_cache(info, level, ty, size) {
            None => return Err(MetricQuality::ReadError),
            Some(next) => {
                info = next;
                saw = true;
            },
        }
        i += 1;
    }
    Err(MetricQuality::ReadError)
}

/// A byte count as whole KiB: none for zero, a size that is not a multiple
/// of 1024, or a count beyond `u32`.
pub open spec fn bytes_to_kb_spec(size: u64) -> Option<u32> {
    if size == 0 || size % 1024 != 0 || size / 1024 > u32::MAX {
        None
    } else {
        Some((size / 1024) as u32)
    }
}

/// Converts a cache size to whole KiB.
pub fn bytes_to_kb(size: u64) -> (r: Option<u32>)
    ensures
        r == bytes_to_kb_spec(size),
{
    if size == 0 || size % 1024 != 0 {
        return None;
    }
    let k = size / 1024;
    if k > 4294967295 { None } else { Some(k as u32) }
}

/// The leaf that lists deterministic caches: 4 on Intel, 0x8000_001D on AMD.
pub fn cache_leaf_for(vendor: &str, max_basic: u32, max_extended: u32) -> (r: Option<u32>)
    ensures
        r == (if vendor@ == "GenuineIntel"@ && max_basic >= 4 {
            Some(4u32)
        } else if vendor@ == "AuthenticAMD"@ && max_extended >= 0x8000_001d {
            Some(0x8000_001du32)
        } else {
            None
        }),
{
    if crate::text::str_eq(vendor, "GenuineIntel") && max_basic >= 4 {
        Some(4)
    } else if crate::text::str_eq(vendor, "AuthenticAMD") && max_extended >= 0x8000_001d {
        Some(0x8000_001d)
    } else {
        None
    }
}

/// The four cache metrics.
#[derive(Clone, Debug)]
pub struct CacheMetrics {
    pub l1_data_kb: MetricValue<u32>,
    pub l1_inst_kb: MetricValue<u32>,
    pub l2_kb: MetricValue<u32>,
    pub l3_kb: MetricValue<u32>,
}

/// A cache metric: its size in KiB where known and non-zero, otherwise
/// unsupported with `reason`.
pub open spec fn cache_metric_ok(m: MetricValue<u32>, kb: Option<u32>, reason: Seq<char>, ts: u64) -> bool {
    match kb {
        Some(k) if k > 0 => metric_present(m, k, "KB"@, MetricQuality::Good, "CPUID_DeterministicCache"@, ts),
        _ => metric_absent(m, "KB"@, MetricQuality::Unsupported, "CPUID_DeterministicCache"@, reason, ts),
    }
}

/// KiB of an optional byte count.
pub open spec fn slot_kb(slot: Option<u64>) -> Option<u32> {
    match slot { Some(b) => bytes_to_kb_spec(b), None => None }
}

fn cache_metric(kb: Option<u32>, reason: &str, ts: u64) -> (m: MetricValue<u32>)
    ensures
        cache_metric_ok(m, kb, reason@, ts),
{
    match kb {
        Some(k) if k > 0 => MetricValue::good_at(k, "KB", "CPUID_DeterministicCache", ts),
        _ => MetricValue::unsupported_at("KB", "CPUID_DeterministicCache", reason, ts),
    }
}

fn slot_to_kb(slot: Option<u64>) -> (r: Option<u32>)
    ensures
        r == slot_kb(slot),
{
    match slot { Some(b) => bytes_to_kb(b), None => None }
}

/// Cache metrics from a parse result: sizes where known, otherwise
/// unsupported (with a different reason when the leaves could not be used).
pub fn collect_cache_metrics(cache: Result<CacheInfo, MetricQuality>, ts: u64) -> (m: CacheMetrics)
    ensures
        match cache {
            Ok(c) => {
                let why = "未能可靠解析确定性缓存叶片"@;
                &&& cache_metric_ok(m.l1_data_kb, slot_kb(c.l1_data_bytes), why, ts)
                &&& cache_metric_ok(m.l1_inst_kb, slot_kb(c.l1_inst_bytes), why, ts)
                &&& cache_metric_ok(m.l2_kb, slot_kb(c.l2_bytes), why, ts)
                &&& cache_metric_ok(m.l3_kb, slot_kb(c.l3_bytes), why, ts)
            },
            Err(_) => {
                let why = "确定性缓存叶片不可用或解析失败"@;
                &&& cache_metric_ok(m.l1_data_kb, None, why, ts)
                &&& cache_metric_ok(m.l1_inst_kb, None, why, ts)
                &&& cache_metric_ok(m.l2_kb, None, why, ts)
                &&& cache_metric_ok(m.l3_kb, None, why, ts)
            },
        },
{
    match cache {
        Ok(c) => {
            let why = "未能可靠解析确定性缓存叶片";
            CacheMetrics {
                l1_data_kb: cache_metric(slot_to_kb(c.l1_data_bytes), why, ts),
                l1_inst_kb: cache_metric(slot_to_kb(c.l1_inst_bytes), why, ts),
                l2_kb: cache_metric(slot_to_kb(c.l2_bytes), why, ts),
                l3_kb: cache_metric(slot_to_kb(c.l3_bytes), why, ts),
            }
        },
        Err(_) => {
            let why = "确定性缓存叶片不可用或解析失败";
            CacheMetrics {
                l1_data_kb: cache_metric(None, why, ts),
                l1_inst_kb: cache_metric(None, why, ts),
                l2_kb: cache_metric(None, why, ts),
                l3_kb: cache_metric(None, why, ts),
            }
        },
    }
}

} // verus!

verus! {

// ---------------------------------------------------------------------------
// Processor core records (x64 layout)
// ---------------------------------------------------------------------------

/// `SYSTEM_LOGICAL_PROCESSOR_INFORMATION_EX` alignment on x64.
pub const RECORD_ALIGNMENT: usize = 8;
/// Relationship and size fields that start every record.
pub const RECORD_HEADER_SIZE: usize = 8;
/// `PROCESSOR_RELATIONSHIP` up to its group masks.
pub const PROCESSOR_FIXED_SIZE: usize = 24;
/// Offset of `GroupCount` in `PROCESSOR_RELATIONSHIP`.
pub const GROUP_COUNT_OFFSET: usize = 22;
/// Size of one `GROUP_AFFINITY` on x64.
pub const GROUP_MASK_SIZE: usize = 16;

/// Checks the `RelationProcessorCore` record at `offset` of the first
/// `returned_len` bytes and gives its size: aligned, of the core relation,
/// large enough for its header, its fixed part and each of its (at least
/// one) group masks, and inside the returned bytes.
pub open spec fn core_record_spec(buf: Seq<u8>, offset: int, returned_len: int) -> Result<int, MetricQuality> {
    if returned_len == 0 || returned_len > buf.len() || offset >= returned_len || offset % 8 != 0
        || returned_len - offset < 8 {
        Err(MetricQuality::ReadError)
    } else if crate::bytes::le_u32(buf, offset) != Some(0u32) {
        Err(MetricQuality::ReadError)
    } else {
        let size = crate::bytes::le_u32(buf, offset + 4)->0 as int;
        let gc_start = offset + 8 + 22;
        if size < 32 || size % 8 != 0 || offset + size > returned_len || gc_start + 2 > offset + size {
            Err(MetricQuality::ReadError)
        } else {
            let gc = crate::bytes::le_u16(buf, gc_start)->0 as int;
            if gc == 0 || size < 32 + gc * 16 {
                Err(MetricQuality::ReadError)
            } else {
                Ok(size)
            }
        }
    }
}

/// Checks one processor core record (see [`core_record_spec`]).
pub fn validate_processor_core_record(buffer: &[u8], offset: usize, returned_len: usize) -> (r: Result<usize, MetricQuality>)
    requires
        offset as int >= 0,
    ensures
        match r {
            Ok(n) => core_record_spec(buffer@, offset as int, returned_len as int) == Ok::<int, MetricQuality>(n as int),
            Err(q) => q == MetricQuality::ReadError && core_record_spec(buffer@, offset as int, returned_len as int) is Err,
        },
{
    if returned_len == 0 || returned_len > buffer.len() || offset >= returned_len || offset % 8 != 0
        || returned_len - offset < 8 {
        return Err(MetricQuality::ReadError);
    }
    match crate::bytes::read_u32_le(buffer, offset) {
        Some(0) => {},
        _ => return Err(MetricQuality::ReadError),
    }
    let size = match crate::bytes::read_u32_le(buffer, offset + 4) {
        Some(s) => s as usize,
        None => return Err(MetricQuality::ReadError),
    };
    if size < 32 || size % 8 != 0 || size > returned_len - offset {
        return Err(MetricQuality::ReadError);
    }
    let gc_start = offset + 8 + 22;
    let gc = match crate::bytes::read_u16_le(buffer, gc_start) {
        Some(g) => g as usize,
        None => return Err(MetricQuality::ReadError),
    };
    if gc == 0 || size < 32 + gc * 16 {
        return Err(MetricQuality::ReadError);
    }
    Ok(size)
}

/// Walks core records from `offset` to exactly `returned_len`, counting
/// them; any bad record, a count overflow or a walk that overshoots is a read
/// error.
pub open spec fn core_walk(buf: Seq<u8>, offset: int, returned_len: int, count: nat) -> Result<nat, MetricQuality>
    decreases returned_len - offset,
{
    if offset >= returned_len {
        if offset != returned_len || count == 0 { Err(MetricQuality::ReadError) } else { Ok(count) }
    } else {
        match core_record_spec(buf, offset, returned_len) {
            Err(q) => Err(q),
            Ok(size) => if count + 1 > u32::MAX || size <= 0 {
                Err(MetricQuality::ReadError)
            } else {
                core_walk(buf, offset + size, returned_len, count + 1)
            },
        }
    }
}

/// Counts the physical cores in a `GetLogicalProcessorInformationEx` buffer
/// of which `returned_len` bytes were filled.
pub fn count_core_records(buffer: &[u8], returned_len: usize) -> (r: Result<u32, MetricQuality>)
    ensures
        match r {
            Ok(n) => core_walk(buffer@, 0, returned_len as int, 0) == Ok::<nat, MetricQuality>(n as nat),
            Err(q) => core_walk(buffer@, 0, returned_len as int, 0) == Err::<nat, MetricQuality>(q),
        },
{
    if returned_len == 0 || returned_len > buffer.len() {
        assert(core_record_spec(buffer@, 0, returned_len as int) is Err);
        return Err(MetricQuality::ReadError);
    }
    let mut offset: usize = 0;
    let mut count: u32 = 0;
    while offset < returned_len
        invariant
            offset <= returned_len <= buffer@.len(),
            core_walk(buffer@, 0, returned_len as int, 0) == core_walk(buffer@, offset as int, returned_len as int, count as nat),
        decreases returned_len - offset,
    {
        let size = match validate_processor_core_record(buffer, offset, returned_len) {
            Ok(s) => s,
            Err(q) => return Err(q),
        };
        if count == u32::MAX {
            return Err(MetricQuality::ReadError);
        }
        count = count + 1;
        offset = offset + size;
    }
    if count == 0 {
        return Err(MetricQuality::ReadError);
    }
    Ok(count)
}

/// A processor count of zero means the API is not available.
pub fn logical_processor_count(count: u32) -> (r: Result<u32, MetricQuality>)
    ensures
        r == (if count == 0 { Err::<u32, MetricQuality>(MetricQuality::ApiUnavailable) } else { Ok::<u32, MetricQuality>(count) }),
{
    if count == 0 { Err(MetricQuality::ApiUnavailable) } else { Ok(count) }
}

} // verus!

verus! {

// ---------------------------------------------------------------------------
// Load, registry values, and the static summary
// ---------------------------------------------------------------------------

/// Load figures in tenths of a percent.
#[derive(Clone, Copy, Debug, PartialEq, Eq, Structural)]
pub struct CpuPermille {
    pub total: u64,
    pub user: u64,
    pub kernel: u64,
    pub idle: u64,
}

/// `v / total` in tenths of a percent, rounded half up.
pub open spec fn permille(v: nat, total: nat) -> nat {
    (v * 2000 + total) / (2 * total)
}

/// CPU load between two `(idle, kernel, user)` counter readings (kernel time
/// includes idle time): none for a first reading, counters that went back or
/// overflow, no elapsed time, or idle time beyond the total.
pub open spec fn cpu_permille_spec(previous: Option<(u64, u64, u64)>, current: (u64, u64, u64)) -> Option<CpuPermille> {
    match previous {
        None => None,
        Some((pi, pk, pu)) => {
            let (ci, ck, cu) = current;
            if ci < pi || ck < pk || cu < pu {
                None
            } else {
                let idle = (ci - pi) as nat;
                let kernel = (ck - pk) as nat;
                let user = (cu - pu) as nat;
                let total = kernel + user;
                if total > u64::MAX || total == 0 || idle > total || idle > kernel {
                    None
                } else {
                    Some(CpuPermille {
                        total: permille((total - idle) as nat, total) as u64,
                        user: permille(user, total) as u64,
                        kernel: permille((kernel - idle) as nat, total) as u64,
                        idle: permille(idle, total) as u64,
                    })
                }
            }
        },
    }
}

fn permille_of(v: u64, total: u64) -> (r: u64)
    requires
        total > 0,
        v <= total,
    ensures
        r as nat == permille(v as nat, total as nat),
{
    let num = (v as u128) * 2000 + (total as u128);
    let den = 2 * (total as u128);
    let q = num / den;
    assert(q <= 1000) by (nonlinear_arith)
        requires q == num / den, num == (v as u128) * 2000 + (total as u128), den == 2 * (total as u128), v <= total, total > 0;
    q as u64
}

/// CPU load between two counter readings (see [`cpu_permille_spec`]).
pub fn compute_cpu_permille(previous: Option<(u64, u64, u64)>, current: (u64, u64, u64)) -> (r: Option<CpuPermille>)
    ensures
        r == cpu_permille_spec(previous, current),
{
    let (pi, pk, pu) = match previous {
        Some(p) => p,
        None => return None,
    };
    let (ci, ck, cu) = current;
    if ci < pi || ck < pk || cu < pu {
        return None;
    }
    let idle = ci - pi;
    let kernel = ck - pk;
    let user = cu - pu;
    let total = match kernel.checked_add(user) {
        Some(t) => t,
        None => return None,
    };
    if total == 0 || idle > total || idle > kernel {
        return None;
    }
    Some(CpuPermille {
        total: permille_of(total - idle, total),
        user: permille_of(user, total),
        kernel: permille_of(kernel - idle, total),
        idle: permille_of(idle, total),
    })
}

/// Little-endian UTF-16 code units of a byte buffer of even length.
pub open spec fn le_units(data: Seq<u8>) -> Seq<u16> {
    Seq::new(data.len() / 2, |i: int| (data[2 * i] as nat + 256 * (data[2 * i + 1] as nat)) as u16)
}

/// A registry string: UTF-16 up to its terminating NUL, trimmed; odd
/// lengths, a missing terminator and bad UTF-16 are read errors; blank text
/// is no value.
pub open spec fn registry_string_spec(data: Seq<u8>) -> Result<Option<Seq<char>>, MetricQuality> {
    if data.len() % 2 != 0 {
        Err(MetricQuality::ReadError)
    } else {
        let units = le_units(data);
        let end = crate::sysinfo::computer_os::first_zero_unit(units);
        if end >= units.len() {
            Err(MetricQuality::ReadError)
        } else {
            match crate::text::utf16_strict(units.take(end)) {
                None => Err(MetricQuality::ReadError),
                Some(text) => {
                    let t = trim(text, CharClass::Whitespace);
                    Ok(if t.len() == 0 { None } else { Some(t) })
                },
            }
        }
    }
}

/// The model of a text result.
pub open spec fn text_result_view(r: Result<Option<String>, MetricQuality>) -> Result<Option<Seq<char>>, MetricQuality> {
    match r {
        Ok(Some(s)) => Ok(Some(s@)),
        Ok(None) => Ok(None),
        Err(q) => Err(q),
    }
}

/// Decodes a registry string value (see [`registry_string_spec`]).
pub fn decode_registry_string(data: &[u8]) -> (r: Result<Option<String>, MetricQuality>)
    ensures
        text_result_view(r) == registry_string_spec(data@),
{
    let n = data.len();
    if n % 2 != 0 {
        return Err(MetricQuality::ReadError);
    }
    let mut units: Vec<u16> = Vec::new();
    let mut i: usize = 0;
    while i < n / 2
        invariant
            n == data@.len(),
            n % 2 == 0,
            i <= n / 2,
            units@ =~= le_units(data@).take(i as int),
        decreases n / 2 - i,
    {
        let lo = data[2 * i] as u16;
        let hi = data[2 * i + 1] as u16;
        units.push(lo + 256 * hi);
        i += 1;
    }
    assert(le_units(data@).take((n / 2) as int) =~= le_units(data@));
    let mut end: usize = 0;
    assert(units@.skip(0) =~= units@);
    while end < units.len() && units[end] != 0
        invariant
            end <= units@.len(),
            crate::sysinfo::computer_os::first_zero_unit(units@) == end + crate::sysinfo::computer_os::first_zero_unit(units@.skip(end as int)),
        decreases units@.len() - end,
    {
        assert(units@.skip(end as int).drop_first() =~= units@.skip(end + 1));
        end += 1;
    }
    if end >= units.len() {
        return Err(MetricQuality::ReadError);
    }
    let head = vstd::slice::slice_subrange(units.as_slice(), 0, end);
    assert(head@ =~= units@.take(end as int));
    match crate::text::string_from_utf16(head) {
        None => Err(MetricQuality::ReadError),
        Some(text) => {
            let cs = crate::text::str_chars(text.as_str());
            let t = trim_chars(cs.as_slice(), CharClass::Whitespace);
            if t.len() == 0 {
                Ok(None)
            } else {
                Ok(Some(crate::text::chars_to_string(t.as_slice())))
            }
        },
    }
}

/// `REG_SZ`.
pub const REG_SZ: u32 = 1;
/// `REG_EXPAND_SZ`.
pub const REG_EXPAND_SZ: u32 = 2;
/// `REG_DWORD`.
pub const REG_DWORD: u32 = 4;

/// The processor name registry value: a string type holding a decodable
/// string.
pub open spec fn registry_name_spec(reading: Result<(u32, Seq<u8>), MetricQuality>) -> Result<Option<Seq<char>>, MetricQuality> {
    match reading {
        Err(q) => Err(q),
        Ok((ty, data)) => if ty != REG_SZ && ty != REG_EXPAND_SZ {
            Err(MetricQuality::ReadError)
        } else {
            registry_string_spec(data)
        },
    }
}

/// The model of a registry reading.
pub open spec fn reading_view(r: Result<(u32, Vec<u8>), MetricQuality>) -> Result<(u32, Seq<u8>), MetricQuality> {
    match r {
        Ok((t, d)) => Ok((t, d@)),
        Err(q) => Err(q),
    }
}

/// Decodes the `ProcessorNameString` registry reading.
pub fn registry_processor_name(reading: &Result<(u32, Vec<u8>), MetricQuality>) -> (r: Result<Option<String>, MetricQuality>)
    ensures
        text_result_view(r) == registry_name_spec(reading_view(*reading)),
{
    match reading {
        Err(q) => Err(*q),
        Ok((ty, data)) => {
            if *ty != REG_SZ && *ty != REG_EXPAND_SZ {
                Err(MetricQuality::ReadError)
            } else {
                decode_registry_string(data.as_slice())
            }
        },
    }
}

/// The processor name from the registry, or an empty string whatever went
/// wrong.
pub fn get_cpu_name_from_reg(reading: &Result<(u32, Vec<u8>), MetricQuality>) -> (name: String)
    ensures
        name@ == (match registry_name_spec(reading_view(*reading)) {
            Ok(Some(n)) => n,
            _ => Seq::empty(),
        }),
{
    match registry_processor_name(reading) {
        Ok(Some(n)) => n,
        _ => String::new(),
    }
}

/// The `~MHz` registry reading: a four-byte `REG_DWORD` that is not zero.
pub open spec fn base_mhz_spec(reading: Result<(u32, Seq<u8>), MetricQuality>) -> Result<u32, MetricQuality> {
    match reading {
        Err(q) => Err(q),
        Ok((ty, data)) => if ty != REG_DWORD || data.len() != 4 {
            Err(MetricQuality::ReadError)
        } else if crate::bytes::le_u32(data, 0)->0 == 0 {
            Err(MetricQuality::Invalid)
        } else {
            Ok(crate::bytes::le_u32(data, 0)->0)
        },
    }
}

/// Decodes the processor base frequency registry reading.
pub fn cpu_base_mhz(reading: &Result<(u32, Vec<u8>), MetricQuality>) -> (r: Result<u32, MetricQuality>)
    ensures
        r == base_mhz_spec(reading_view(*reading)),
{
    match reading {
        Err(q) => Err(*q),
        Ok((ty, data)) => {
            if *ty != REG_DWORD || data.len() != 4 {
                return Err(MetricQuality::ReadError);
            }
            let mhz = match crate::bytes::read_u32_le(data.as_slice(), 0) {
                Some(v) => v,
                None => return Err(MetricQuality::ReadError),
            };
            if mhz == 0 { Err(MetricQuality::Invalid) } else { Ok(mhz) }
        },
    }
}

} // verus!

verus! {

/// Static processor facts.
#[derive(Clone, Debug)]
pub struct CpuStaticInfo {
    pub name: MetricValue<String>,
    pub vendor: MetricValue<String>,
    pub brand: MetricValue<String>,
    pub family: MetricValue<u32>,
    pub model: MetricValue<u32>,
    pub stepping: MetricValue<u32>,
    pub physical_cores: MetricValue<u32>,
    pub logical_processors: MetricValue<u32>,
    pub l1_data_cache_kb: MetricValue<u32>,
    pub l1_inst_cache_kb: MetricValue<u32>,
    pub l2_cache_kb: MetricValue<u32>,
    pub l3_cache_kb: MetricValue<u32>,
    pub features: Vec<String>,
    pub virtualization: MetricValue<String>,
}

/// What the collector read for the static summary.
#[derive(Debug)]
pub struct CpuStaticReadings {
    /// The `ProcessorNameString` registry value (type and bytes).
    pub registry_name: Result<(u32, Vec<u8>), MetricQuality>,
    /// CPUID registers (`ApiUnavailable` off x86-64).
    pub cpuid: Result<CpuidReadings, MetricQuality>,
    /// Sub-leaves of the deterministic cache leaf chosen by
    /// [`cache_leaf_for`], where one was chosen.
    pub cache_leaves: Option<Vec<(u32, u32, u32)>>,
    /// Result of counting the processor core records.
    pub physical_cores: Result<u32, MetricQuality>,
    /// `GetActiveProcessorCount(ALL_PROCESSOR_GROUPS)`.
    pub active_processors: u32,
}

/// Why CPUID gives no facts, if it does not.
pub open spec fn cpuid_failure(r: Result<CpuidReadings, MetricQuality>) -> Option<MetricQuality> {
    match r {
        Err(q) => Some(q),
        Ok(c) => if vendor_spec(c) is None {
            Some(MetricQuality::ReadError)
        } else if c.max_basic < 1 {
            Some(MetricQuality::ApiUnavailable)
        } else {
            match brand_spec(c) {
                Err(q) => Some(q),
                Ok(_) => None,
            }
        },
    }
}

/// The cache parse result: the chosen leaf's sub-leaves parsed, or an error
/// where CPUID, the vendor or the leaf is missing.
pub open spec fn cache_result_spec(rd: CpuStaticReadings) -> Result<CacheInfo, MetricQuality> {
    match (rd.cpuid, rd.cache_leaves) {
        (Ok(c), Some(regs)) => if vendor_spec(c) is Some {
            cache_scan(regs@, 0, no_cache(), false)
        } else {
            Err(MetricQuality::ReadError)
        },
        _ => Err(MetricQuality::ApiUnavailable),
    }
}

/// The CPUID-derived fields of the summary.
pub open spec fn cpuid_fields_ok(s: CpuStaticInfo, rd: CpuStaticReadings, ts: u64) -> bool {
    match cpuid_failure(rd.cpuid) {
        Some(q) => {
            &&& metric_absent(s.vendor, ""@, missing_quality(q), "CPUID_Leaf0"@, "CPUID 基础叶片不可用或解析失败"@, ts)
            &&& metric_absent(s.family, ""@, missing_quality(q), "CPUID_Leaf1"@, "CPUID 处理器信息叶片不可用或解析失败"@, ts)
            &&& metric_absent(s.model, ""@, missing_quality(q), "CPUID_Leaf1"@, "CPUID 处理器信息叶片不可用或解析失败"@, ts)
            &&& metric_absent(s.stepping, ""@, missing_quality(q), "CPUID_Leaf1"@, "CPUID 处理器信息叶片不可用或解析失败"@, ts)
            &&& s.features@.len() == 0
            &&& metric_absent(s.virtualization, ""@, missing_quality(q), "CPUID_FeatureFlag"@, "CPUID 虚拟化硬件位读取失败"@, ts)
            &&& metric_absent(s.brand, ""@, missing_quality(q), "CPUID_ExtendedBrandString"@, "CPUID 品牌字符串读取失败"@, ts)
        },
        None => {
            let c = rd.cpuid->Ok_0;
            &&& text_metric_present(s.vendor, vendor_spec(c)->0, ""@, MetricQuality::Good, "CPUID_Leaf0"@, ts)
            &&& metric_present(s.family, family_spec(c.leaf1[0]), ""@, MetricQuality::Good, "CPUID_Leaf1"@, ts)
            &&& metric_present(s.model, model_spec(c.leaf1[0]), ""@, MetricQuality::Good, "CPUID_Leaf1"@, ts)
            &&& metric_present(s.stepping, c.leaf1[0] & 0x0f, ""@, MetricQuality::Good, "CPUID_Leaf1"@, ts)
            &&& string_seq(s.features@) == features_spec(c)
            &&& match virtualization_spec(c) {
                Some(v) => text_metric_present(s.virtualization, v, ""@, MetricQuality::Good, "CPUID_FeatureFlag"@, ts),
                None => metric_absent(s.virtualization, ""@, MetricQuality::Unsupported, "CPUID_FeatureFlag"@,
                    "CPUID 未报告 VMX 或 SVM 硬件支持位"@, ts),
            }
            &&& match brand_spec(c) {
                Ok(Some(b)) => text_metric_present(s.brand, b, ""@, MetricQuality::Good, "CPUID_ExtendedBrandString"@, ts),
                _ => metric_absent(s.brand, ""@, MetricQuality::Unavailable, "CPUID_ExtendedBrandString"@,
                    "CPUID 没有扩展品牌字符串叶片或内容"@, ts),
            }
        },
    }
}

/// The processor name: the registry's, else the CPUID brand string.
pub open spec fn name_ok(s: CpuStaticInfo, rd: CpuStaticReadings, ts: u64) -> bool {
    let why = "注册表和 CPUID 均未提供处理器名称"@;
    match registry_name_spec(reading_view(rd.registry_name)) {
        Ok(Some(n)) => text_metric_present(s.name, n, ""@, MetricQuality::Good, "Registry_ProcessorNameString"@, ts),
        _ => match cpuid_failure(rd.cpuid) {
            Some(q) => metric_absent(s.name, ""@, missing_quality(q), "Registry_ProcessorNameString"@, why, ts),
            None => match brand_spec(rd.cpuid->Ok_0) {
                Ok(Some(b)) => text_metric_present(s.name, b, ""@, MetricQuality::Good, "CPUID_ExtendedBrandString"@, ts),
                _ => metric_absent(s.name, ""@, MetricQuality::Unavailable, "Registry_ProcessorNameString"@, why, ts),
            },
        },
    }
}

fn missing_text(source: &str, q: MetricQuality, reason: &str, ts: u64) -> (m: MetricValue<String>)
    ensures
        metric_absent(m, ""@, missing_quality(q), source@, reason@, ts),
{
    missing_metric("", source, q, reason, ts)
}

/// Builds the static processor summary from what was read, every metric
/// stamped with `timestamp`.
pub fn collect_cpu_static_info(rd: &CpuStaticReadings, timestamp: u64) -> (s: CpuStaticInfo)
    ensures
        name_ok(s, *rd, timestamp),
        cpuid_fields_ok(s, *rd, timestamp),
        match rd.physical_cores {
            Ok(v) => metric_present(s.physical_cores, v, "核"@, MetricQuality::Good, "Win32_GetLogicalProcessorInformationEx"@, timestamp),
            Err(q) => metric_absent(s.physical_cores, "核"@, missing_quality(q), "Win32_GetLogicalProcessorInformationEx"@,
                "无法读取处理器核心拓扑"@, timestamp),
        },
        if rd.active_processors > 0 {
            metric_present(s.logical_processors, rd.active_processors, "线程"@, MetricQuality::Good, "Win32_GetActiveProcessorCount"@, timestamp)
        } else {
            metric_absent(s.logical_processors, "线程"@, MetricQuality::ApiUnavailable, "Win32_GetActiveProcessorCount"@,
                "无法读取活动逻辑处理器数量"@, timestamp)
        },
        ({
            let c = collect_cache_metrics_spec_args(cache_result_spec(*rd));
            &&& cache_metric_ok(s.l1_data_cache_kb, c.0, c.4, timestamp)
            &&& cache_metric_ok(s.l1_inst_cache_kb, c.1, c.4, timestamp)
            &&& cache_metric_ok(s.l2_cache_kb, c.2, c.4, timestamp)
            &&& cache_metric_ok(s.l3_cache_kb, c.3, c.4, timestamp)
        }),
{
    let ts = timestamp;
    let registry = registry_processor_name(&rd.registry_name);
    let decoded: Result<CpuidInfo, MetricQuality> = match &rd.cpuid {
        Ok(c) => decode_cpuid(c),
        Err(q) => Err(*q),
    };
    let cache_result = match (&rd.cpuid, &rd.cache_leaves) {
        (Ok(c), Some(regs)) => match decode_vendor(c) {
            Some(_) => parse_deterministic_cache(regs.as_slice()),
            None => Err(MetricQuality::ReadError),
        },
        _ => Err(MetricQuality::ApiUnavailable),
    };
    let cache = collect_cache_metrics(cache_result, ts);
    let why = "注册表和 CPUID 均未提供处理器名称";
    let name = match &registry {
        Ok(Some(n)) => MetricValue::good_at(n.clone(), "", "Registry_ProcessorNameString", ts),
        _ => match &decoded {
            Ok(info) => match &info.brand {
                Some(b) => MetricValue::good_at(b.clone(), "", "CPUID_ExtendedBrandString", ts),
                None => MetricValue::unavailable_at("", "Registry_ProcessorNameString", why, ts),
            },
            Err(q) => missing_text("Registry_ProcessorNameString", *q, why, ts),
        },
    };
    let (vendor, brand, family, model, stepping, features, virtualization) = match decoded {
        Ok(info) => {
            let brand = match &info.brand {
                Some(b) => MetricValue::good_at(b.clone(), "", "CPUID_ExtendedBrandString", ts),
                None => MetricValue::unavailable_at("", "CPUID_ExtendedBrandString", "CPUID 没有扩展品牌字符串叶片或内容", ts),
            };
            let virt = match &info.virtualization {
                Some(v) => MetricValue::good_at(v.clone(), "", "CPUID_FeatureFlag", ts),
                None => MetricValue::unsupported_at("", "CPUID_FeatureFlag", "CPUID 未报告 VMX 或 SVM 硬件支持位", ts),
            };
            (
                MetricValue::good_at(info.vendor, "", "CPUID_Leaf0", ts),
                brand,
                MetricValue::good_at(info.family, "", "CPUID_Leaf1", ts),
                MetricValue::good_at(info.model, "", "CPUID_Leaf1", ts),
                MetricValue::good_at(info.stepping, "", "CPUID_Leaf1", ts),
                info.features,
                virt,
            )
        },
        Err(q) => (
            missing_text("CPUID_Leaf0", q, "CPUID 基础叶片不可用或解析失败", ts),
            missing_text("CPUID_ExtendedBrandString", q, "CPUID 品牌字符串读取失败", ts),
            missing_metric("", "CPUID_Leaf1", q, "CPUID 处理器信息叶片不可用或解析失败", ts),
            missing_metric("", "CPUID_Leaf1", q, "CPUID 处理器信息叶片不可用或解析失败", ts),
            missing_metric("", "CPUID_Leaf1", q, "CPUID 处理器信息叶片不可用或解析失败", ts),
            Vec::new(),
            missing_text("CPUID_FeatureFlag", q, "CPUID 虚拟化硬件位读取失败", ts),
        ),
    };
    let physical_cores = match rd.physical_cores {
        Ok(v) => MetricValue::good_at(v, "核", "Win32_GetLogicalProcessorInformationEx", ts),
        Err(q) => missing_metric("核", "Win32_GetLogicalProcessorInformationEx", q, "无法读取处理器核心拓扑", ts),
    };
    let logical_processors = if rd.active_processors > 0 {
        MetricValue::good_at(rd.active_processors, "线程", "Win32_GetActiveProcessorCount", ts)
    } else {
        missing_metric("线程", "Win32_GetActiveProcessorCount", MetricQuality::ApiUnavailable, "无法读取活动逻辑处理器数量", ts)
    };
    CpuStaticInfo {
        name,
        vendor,
        brand,
        family,
        model,
        stepping,
        physical_cores,
        logical_processors,
        l1_data_cache_kb: cache.l1_data_kb,
        l1_inst_cache_kb: cache.l1_inst_kb,
        l2_cache_kb: cache.l2_kb,
        l3_cache_kb: cache.l3_kb,
        features,
        virtualization,
    }
}

/// Per-slot KiB and the unsupported reason for a cache parse result.
pub open spec fn collect_cache_metrics_spec_args(cache: Result<CacheInfo, MetricQuality>) -> (Option<u32>, Option<u32>, Option<u32>, Option<u32>, Seq<char>) {
    match cache {
        Ok(c) => (slot_kb(c.l1_data_bytes), slot_kb(c.l1_inst_bytes), slot_kb(c.l2_bytes), slot_kb(c.l3_bytes),
            "未能可靠解析确定性缓存叶片"@),
        Err(_) => (None, None, None, None, "确定性缓存叶片不可用或解析失败"@),
    }
}

} // verus!

verus! {

/// Why a CPU load sample has no figures: the quality and the reason.
pub open spec fn usage_failure(current: Result<(u64, u64, u64), MetricQuality>, previous: Option<(u64, u64, u64)>)
    -> Option<(MetricQuality, Seq<char>)>
{
    match current {
        Err(q) => Some((q, "GetSystemTimes 读取失败"@)),
        Ok(c) => match cpu_permille_spec(previous, c) {
            Some(_) => None,
            None => if previous is None {
                Some((MetricQuality::Unavailable, "首次采样尚无前一计数器"@))
            } else {
                Some((MetricQuality::Invalid, "系统时间计数器回退、溢出或差值非法"@))
            },
        },
    }
}

/// The CPU load of a sample against the previous one, or the quality and
/// reason of its absence: a failed read, the first sample, or counters
/// that went back.
pub fn cpu_usage_outcome(current: Result<(u64, u64, u64), MetricQuality>, previous: Option<(u64, u64, u64)>)
    -> (r: Result<CpuPermille, (MetricQuality, String)>)
    ensures
        match r {
            Ok(p) => current matches Ok(c) && cpu_permille_spec(previous, c) == Some(p),
            Err((q, why)) => usage_failure(current, previous) == Some((q, why@)),
        },
{
    match current {
        Err(q) => Err((q, owned("GetSystemTimes 读取失败"))),
        Ok(c) => match compute_cpu_permille(previous, c) {
            Some(p) => Ok(p),
            None => if previous.is_none() {
                Err((MetricQuality::Unavailable, owned("首次采样尚无前一计数器")))
            } else {
                Err((MetricQuality::Invalid, owned("系统时间计数器回退、溢出或差值非法")))
            },
        },
    }
}

/// The base frequency metric of a `~MHz` read.
pub fn base_frequency_metric(mhz: Result<u32, MetricQuality>, timestamp: u64) -> (m: MetricValue<u32>)
    ensures
        match mhz {
            Ok(v) => metric_present(m, v, "MHz"@, MetricQuality::Good, "Registry_CentralProcessor"@, timestamp),
            Err(q) => metric_absent(m, "MHz"@, missing_quality(q), "Registry_CentralProcessor"@,
                "注册表 ~MHz 值缺失、类型错误或读取失败"@, timestamp),
        },
{
    match mhz {
        Ok(v) => MetricValue::good_at(v, "MHz", "Registry_CentralProcessor", timestamp),
        Err(q) => missing_metric("MHz", "Registry_CentralProcessor", q, "注册表 ~MHz 值缺失、类型错误或读取失败", timestamp),
    }
}

/// The current frequency has no reliable user-mode source.
pub fn current_frequency_metric(timestamp: u64) -> (m: MetricValue<u32>)
    ensures
        metric_absent(m, "MHz"@, MetricQuality::Unsupported, "Win32_ProcessorFrequency"@,
            "没有可靠的实时 CPU 频率用户态来源"@, timestamp),
{
    MetricValue::unsupported_at("MHz", "Win32_ProcessorFrequency", "没有可靠的实时 CPU 频率用户态来源", timestamp)
}

} // verus!
