//! Network adapters and transport connections from the IP Helper tables:
//! hardware addresses, traffic rates between two samples, and the TCP and
//! UDP tables decoded from the bytes the API returned, every read checked
//! against the buffer.

use vstd::prelude::*;
use crate::quality::{MetricQuality, MetricValue, metric_present, metric_absent, owned, win32_error_quality};
use crate::text::{decimal, push_decimal, string_push, str_chars};
use crate::bytes::{le_u32, read_u32_le};

verus! {

/// Source name of the IP Helper metrics.
pub open spec fn ip_helper_source() -> Seq<char> {
    "IP_Helper"@
}

/// Quality a missing network metric reports: the failure's own quality, or
/// `ReadError` where that quality would claim a value.
pub open spec fn net_missing_quality(q: MetricQuality) -> MetricQuality {
    match q {
        MetricQuality::Good | MetricQuality::Estimated | MetricQuality::Stale | MetricQuality::Unknown => MetricQuality::ReadError,
        _ => q,
    }
}

/// A network metric without value for a failure of quality `q`.
pub fn missing_metric_at<T>(unit: &str, source: &str, q: MetricQuality, reason: &str, timestamp: u64) -> (m: MetricValue<T>)
    ensures
        metric_absent(m, unit@, net_missing_quality(q), source@, reason@, timestamp),
{
    let quality = match q {
        MetricQuality::Good | MetricQuality::Estimated | MetricQuality::Stale | MetricQuality::Unknown => MetricQuality::ReadError,
        _ => q,
    };
    MetricValue::without_value(unit, quality, source, reason, timestamp)
}

// ---------------------------------------------------------------------------
// Hardware addresses
// ---------------------------------------------------------------------------

/// The first `reported_len` bytes of the address buffer, never past its end.
pub fn safe_mac_bytes(bytes: &[u8], reported_len: usize) -> (r: &[u8])
    ensures
        r@ == bytes@.take(if reported_len < bytes@.len() { reported_len as int } else { bytes@.len() as int }),
{
    let n = if reported_len < bytes.len() { reported_len } else { bytes.len() };
    let r = vstd::slice::slice_subrange(bytes, 0, n);
    assert(r@ =~= bytes@.take(n as int));
    r
}

/// Upper-case hexadecimal digit.
pub open spec fn hex_upper_digit(d: nat) -> char {
    if d < 10 { ((48 + d) as u8) as char } else { ((55 + d) as u8) as char }
}

/// A byte as two upper-case hexadecimal digits.
pub open spec fn byte_hex(b: u8) -> Seq<char> {
    seq![hex_upper_digit((b / 16) as nat), hex_upper_digit((b % 16) as nat)]
}

/// Up to the first six bytes in `XX:XX:...` form.
pub open spec fn mac_text(bytes: Seq<u8>) -> Seq<char>
    decreases bytes.len(),
{
    let b = if bytes.len() > 6 { bytes.take(6) } else { bytes };
    if b.len() == 0 {
        Seq::empty()
    } else if b.len() == 1 {
        byte_hex(b[0])
    } else {
        mac_text(b.drop_last()) + ":"@ + byte_hex(b.last())
    }
}

fn push_byte_hex(out: &mut String, b: u8)
    ensures
        final(out)@ == old(out)@ + byte_hex(b),
{
    let hi = b / 16;
    let lo = b % 16;
    string_push(out, if hi < 10 { (48 + hi) as char } else { (55 + hi) as char });
    string_push(out, if lo < 10 { (48 + lo) as char } else { (55 + lo) as char });
    assert(out@ =~= old(out)@ + byte_hex(b));
}

/// Formats a hardware address (at most six bytes) as `XX:XX:XX:XX:XX:XX`.
pub fn format_mac(bytes: &[u8]) -> (s: String)
    ensures
        s@ == mac_text(bytes@),
{
    let n = if bytes.len() > 6 { 6 } else { bytes.len() };
    let ghost b = if bytes@.len() > 6 { bytes@.take(6) } else { bytes@ };
    assert(b =~= bytes@.take(n as int));
    let mut s = String::new();
    let mut i: usize = 0;
    while i < n
        invariant
            i <= n <= 6,
            n <= bytes@.len(),
            b =~= bytes@.take(n as int),
            s@ == mac_text(b.take(i as int)),
        decreases n - i,
    {
        if i > 0 {
            push_str(&mut s, ":");
        }
        push_byte_hex(&mut s, bytes[i]);
        proof {
            let t = b.take(i + 1);
            assert(t.drop_last() =~= b.take(i as int));
            assert(t.last() == bytes@[i as int]);
            if i == 0 {
                assert(s@ =~= byte_hex(t[0]));
            }
        }
        i += 1;
    }
    assert(b.take(n as int) =~= b);
    assert(mac_text(bytes@) == mac_text(b)) by {
        if bytes@.len() > 6 {
            assert(b.take(6) =~= b);
        }
    }
    s
}

fn push_str(out: &mut String, s: &str)
    ensures
        final(out)@ == old(out)@ + s@,
{
    crate::text::push_str_chars(out, s);
}

// ---------------------------------------------------------------------------
// Traffic rates
// ---------------------------------------------------------------------------

/// Bytes per second between two counter samples taken `elapsed` nanoseconds
/// apart: none without a previous sample, for a counter that went back, a
/// zero interval, or a rate beyond `u64`.
pub open spec fn rate_spec(previous: Option<u64>, current: u64, elapsed: u128) -> Option<u64> {
    match previous {
        None => None,
        Some(p) => if elapsed == 0 || current < p {
            None
        } else {
            let r = ((current - p) as nat) * 1_000_000_000 / (elapsed as nat);
            if r > u64::MAX { None } else { Some(r as u64) }
        },
    }
}

/// Traffic rate between two samples (see [`rate_spec`]).
pub fn calculate_rate(previous: Option<u64>, current: u64, elapsed: u128) -> (r: Option<u64>)
    ensures
        r == rate_spec(previous, current, elapsed),
{
    let p = match previous {
        Some(p) => p,
        None => return None,
    };
    if elapsed == 0 || current < p {
        return None;
    }
    let delta = (current - p) as u128;
    assert(delta * 1_000_000_000 <= 18446744073709551615u128 * 1_000_000_000) by (nonlinear_arith)
        requires delta <= 18446744073709551615u128;
    let r = delta * 1_000_000_000 / elapsed;
    if r > 18446744073709551615u128 { None } else { Some(r as u64) }
}

/// The metric of a traffic rate, with the reason why there is none.
pub open spec fn rate_metric_ok(m: MetricValue<u64>, previous: Option<u64>, current: u64, elapsed: u128, ts: u64) -> bool {
    match rate_spec(previous, current, elapsed) {
        Some(r) => metric_present(m, r, "Bytes/s"@, MetricQuality::Good, ip_helper_source(), ts),
        None => match previous {
            None => metric_absent(m, "Bytes/s"@, MetricQuality::Unsupported, ip_helper_source(),
                "首次采样没有前一累计值，无法计算速率"@, ts),
            Some(p) => if current < p {
                metric_absent(m, "Bytes/s"@, MetricQuality::Invalid, ip_helper_source(), "累计计数器回退，无法计算速率"@, ts)
            } else if elapsed == 0 {
                metric_absent(m, "Bytes/s"@, MetricQuality::Invalid, ip_helper_source(), "采样间隔无效，无法计算速率"@, ts)
            } else {
                metric_absent(m, "Bytes/s"@, MetricQuality::Invalid, ip_helper_source(), "速率超出可表示范围"@, ts)
            },
        },
    }
}

/// The traffic-rate metric of two samples.
pub fn rate_metric(previous: Option<u64>, current: u64, elapsed: u128, ts: u64) -> (m: MetricValue<u64>)
    ensures
        rate_metric_ok(m, previous, current, elapsed, ts),
{
    match calculate_rate(previous, current, elapsed) {
        Some(r) => MetricValue::good_at(r, "Bytes/s", "IP_Helper", ts),
        None => match previous {
            None => MetricValue::unsupported_at("Bytes/s", "IP_Helper", "首次采样没有前一累计值，无法计算速率", ts),
            Some(p) => {
                if current < p {
                    MetricValue::invalid_at("Bytes/s", "IP_Helper", "累计计数器回退，无法计算速率", ts)
                } else if elapsed == 0 {
                    MetricValue::invalid_at("Bytes/s", "IP_Helper", "采样间隔无效，无法计算速率", ts)
                } else {
                    MetricValue::invalid_at("Bytes/s", "IP_Helper", "速率超出可表示范围", ts)
                }
            },
        },
    }
}

// ---------------------------------------------------------------------------
// Tables
// ---------------------------------------------------------------------------

/// Number of rows of an extended table: the leading count, accepted when the
/// count and its rows fit in the buffer.
pub open spec fn table_count_spec(buffer: Seq<u8>, row_size: nat) -> Result<nat, MetricQuality> {
    if row_size == 0 {
        Err(MetricQuality::Invalid)
    } else {
        match le_u32(buffer, 0) {
            None => Err(MetricQuality::Invalid),
            Some(c) => if 4 + (c as nat) * row_size > buffer.len() {
                Err(MetricQuality::Invalid)
            } else {
                Ok(c as nat)
            },
        }
    }
}

/// Rows of an extended table (see [`table_count_spec`]).
pub fn table_entry_count(buffer: &[u8], row_size: usize) -> (r: Result<usize, MetricQuality>)
    ensures
        match r {
            Ok(c) => table_count_spec(buffer@, row_size as nat) == Ok::<nat, MetricQuality>(c as nat),
            Err(q) => table_count_spec(buffer@, row_size as nat) == Err::<nat, MetricQuality>(q),
        },
{
    if row_size == 0 {
        return Err(MetricQuality::Invalid);
    }
    let c = match read_u32_le(buffer, 0) {
        Some(c) => c as usize,
        None => return Err(MetricQuality::Invalid),
    };
    let avail = buffer.len() - 4;
    if c > avail / row_size {
        assert((c as nat) * (row_size as nat) > avail) by (nonlinear_arith)
            requires c > avail / row_size, row_size > 0;
        return Err(MetricQuality::Invalid);
    }
    assert((c as nat) * (row_size as nat) <= avail) by (nonlinear_arith)
        requires c <= avail / row_size, row_size > 0;
    Ok(c)
}

/// A port in network byte order (low 16 bits of the field).
pub open spec fn port_spec(raw: u32) -> u16 {
    ((raw % 256) * 256 + (raw / 256) % 256) as u16
}

/// Converts a port field to host order.
pub fn network_port(raw: u32) -> (p: u16)
    ensures
        p == port_spec(raw),
{
    ((raw % 256) * 256 + (raw / 256) % 256) as u16
}

/// Name of a TCP state (`MIB_TCP_STATE`).
pub open spec fn tcp_state_spec(state: u32) -> Option<Seq<char>> {
    if state == 1 { Some("CLOSED"@) }
    else if state == 2 { Some("LISTEN"@) }
    else if state == 3 { Some("SYN-SENT"@) }
    else if state == 4 { Some("SYN-RECEIVED"@) }
    else if state == 5 { Some("ESTABLISHED"@) }
    else if state == 6 { Some("FIN-WAIT-1"@) }
    else if state == 7 { Some("FIN-WAIT-2"@) }
    else if state == 8 { Some("CLOSE-WAIT"@) }
    else if state == 9 { Some("CLOSING"@) }
    else if state == 10 { Some("LAST-ACK"@) }
    else if state == 11 { Some("TIME-WAIT"@) }
    else if state == 12 { Some("DELETE-TCB"@) }
    else { None }
}

/// The name of a TCP state, if known.
pub fn tcp_state_name(state: u32) -> (r: Option<String>)
    ensures
        match r {
            Some(s) => tcp_state_spec(state) == Some(s@),
            None => tcp_state_spec(state) is None,
        },
{
    let name = if state == 1 { "CLOSED" }
        else if state == 2 { "LISTEN" }
        else if state == 3 { "SYN-SENT" }
        else if state == 4 { "SYN-RECEIVED" }
        else if state == 5 { "ESTABLISHED" }
        else if state == 6 { "FIN-WAIT-1" }
        else if state == 7 { "FIN-WAIT-2" }
        else if state == 8 { "CLOSE-WAIT" }
        else if state == 9 { "CLOSING" }
        else if state == 10 { "LAST-ACK" }
        else if state == 11 { "TIME-WAIT" }
        else if state == 12 { "DELETE-TCB" }
        else { return None; };
    Some(owned(name))
}

/// How an interface's operational status is shown.
pub open spec fn oper_status_spec(status: i32) -> Seq<char> {
    if status == 1 { "Up (已连接)"@ }
    else if status == 2 { "Down (已断开)"@ }
    else if status == 3 { "Testing"@ }
    else if status == 4 { "Unknown"@ }
    else if status == 5 { "Dormant"@ }
    else if status == 6 { "Not present"@ }
    else if status == 7 { "Lower layer down"@ }
    else if status >= 0 { "状态 "@ + decimal(status as nat) }
    else { "状态 -"@ + decimal((-(status as int)) as nat) }
}

/// Text of an operational status.
pub fn format_oper_status(status: i32) -> (s: String)
    ensures
        s@ == oper_status_spec(status),
{
    if status == 1 { owned("Up (已连接)") }
    else if status == 2 { owned("Down (已断开)") }
    else if status == 3 { owned("Testing") }
    else if status == 4 { owned("Unknown") }
    else if status == 5 { owned("Dormant") }
    else if status == 6 { owned("Not present") }
    else if status == 7 { owned("Lower layer down") }
    else if status >= 0 {
        let mut s = owned("状态 ");
        push_decimal(&mut s, status as u64);
        s
    } else {
        let mut s = owned("状态 -");
        let magnitude: u64 = ((-(status as i64)) as u64);
        push_decimal(&mut s, magnitude);
        s
    }
}

/// Dotted-decimal text of four address bytes.
pub open spec fn ipv4_text(b: Seq<u8>) -> Seq<char> {
    decimal(b[0] as nat) + "."@ + decimal(b[1] as nat) + "."@ + decimal(b[2] as nat) + "."@ + decimal(b[3] as nat)
}

/// Formats an IPv4 address given as four bytes in network order.
pub fn format_ipv4(b: &[u8]) -> (s: String)
    requires
        b@.len() == 4,
    ensures
        s@ == ipv4_text(b@),
{
    let mut s = String::new();
    push_decimal(&mut s, b[0] as u64);
    push_str(&mut s, ".");
    push_decimal(&mut s, b[1] as u64);
    push_str(&mut s, ".");
    push_decimal(&mut s, b[2] as u64);
    push_str(&mut s, ".");
    push_decimal(&mut s, b[3] as u64);
    s
}

/// `Ipv6Addr::to_string` of sixteen address bytes (RFC 5952 text form).
pub uninterp spec fn ipv6_display(bytes: Seq<u8>) -> Seq<char>;

/// Formats sixteen bytes with the standard IPv6 text form (`Ipv6Addr`'s
/// `Display`), named by [`ipv6_display`].
#[verifier::external_body]
fn ipv6_text_of(bytes: [u8; 16]) -> (s: String)
    ensures
        s@ == ipv6_display(bytes@),
{
    core::net::Ipv6Addr::from(bytes).to_string()
}

/// An IPv6 address with its scope id after `%` where it is not zero.
pub open spec fn ipv6_scoped_text(bytes: Seq<u8>, scope: u32) -> Seq<char> {
    if scope == 0 { ipv6_display(bytes) } else { ipv6_display(bytes) + "%"@ + decimal(scope as nat) }
}

/// Formats an IPv6 address and scope id.
pub fn format_ipv6_address(bytes: [u8; 16], scope: u32) -> (s: String)
    ensures
        s@ == ipv6_scoped_text(bytes@, scope),
{
    let mut s = ipv6_text_of(bytes);
    if scope != 0 {
        push_str(&mut s, "%");
        push_decimal(&mut s, scope as u64);
    }
    s
}

} // verus!

verus! {

/// A TCP endpoint read from a connection table.
#[derive(Clone, Debug)]
pub struct TcpEndpoint {
    pub local_address: String,
    pub local_port: u16,
    pub remote_address: Option<String>,
    pub remote_port: Option<u16>,
    pub state: Option<String>,
    pub pid: Option<u32>,
}

/// Model of a TCP endpoint.
pub struct TcpEndpointView {
    pub local_address: Seq<char>,
    pub local_port: u16,
    pub remote_address: Option<Seq<char>>,
    pub remote_port: Option<u16>,
    pub state: Option<Seq<char>>,
    pub pid: Option<u32>,
}

/// The model of an optional string.
pub open spec fn opt_text(o: Option<String>) -> Option<Seq<char>> {
    match o { Some(s) => Some(s@), None => None }
}

/// The model of an endpoint.
pub open spec fn endpoint_view(e: TcpEndpoint) -> TcpEndpointView {
    TcpEndpointView {
        local_address: e.local_address@,
        local_port: e.local_port,
        remote_address: opt_text(e.remote_address),
        remote_port: e.remote_port,
        state: opt_text(e.state),
        pid: e.pid,
    }
}

/// The models of endpoints.
pub open spec fn endpoints_view(v: Seq<TcpEndpoint>) -> Seq<TcpEndpointView> {
    Seq::new(v.len(), |i: int| endpoint_view(v[i]))
}

/// `MIB_TCPROW_OWNER_PID` size.
pub const TCP4_ROW_SIZE: usize = 24;
/// `MIB_TCP6ROW_OWNER_PID` size.
pub const TCP6_ROW_SIZE: usize = 56;
/// `MIB_UDPROW_OWNER_PID` size.
pub const UDP4_ROW_SIZE: usize = 12;
/// `MIB_UDP6ROW_OWNER_PID` size.
pub const UDP6_ROW_SIZE: usize = 28;

/// Little-endian field of a row (in bounds by the table check).
pub open spec fn field(b: Seq<u8>, off: int) -> u32 {
    le_u32(b, off)->0
}

/// An IPv4 row at `off`: state, local address and port, remote address and
/// port (absent for the all-zero address), owner process.
pub open spec fn ipv4_row_spec(b: Seq<u8>, off: int) -> TcpEndpointView {
    let remote = b.subrange(off + 12, off + 16);
    let connected = field(b, off + 12) != 0;
    TcpEndpointView {
        local_address: ipv4_text(b.subrange(off + 4, off + 8)),
        local_port: port_spec(field(b, off + 8)),
        remote_address: if connected { Some(ipv4_text(remote)) } else { None },
        remote_port: if connected { Some(port_spec(field(b, off + 16))) } else { None },
        state: tcp_state_spec(field(b, off)),
        pid: Some(field(b, off + 20)),
    }
}

/// An IPv6 row at `off`: local address, scope and port, remote address,
/// scope and port (absent for the all-zero address), state, owner process.
pub open spec fn ipv6_row_spec(b: Seq<u8>, off: int) -> TcpEndpointView {
    let remote = b.subrange(off + 24, off + 40);
    let connected = remote != Seq::new(16, |i: int| 0u8);
    TcpEndpointView {
        local_address: ipv6_scoped_text(b.subrange(off, off + 16), field(b, off + 16)),
        local_port: port_spec(field(b, off + 20)),
        remote_address: if connected { Some(ipv6_scoped_text(remote, field(b, off + 40))) } else { None },
        remote_port: if connected { Some(port_spec(field(b, off + 44))) } else { None },
        state: tcp_state_spec(field(b, off + 48)),
        pid: Some(field(b, off + 52)),
    }
}

/// The endpoints of a TCP table of the given family (IPv6 when `v6`).
pub open spec fn tcp_table_spec(b: Seq<u8>, v6: bool) -> Result<Seq<TcpEndpointView>, MetricQuality> {
    let row: nat = if v6 { 56 } else { 24 };
    match table_count_spec(b, row) {
        Err(q) => Err(q),
        Ok(c) => Ok(Seq::new(c, |i: int| if v6 { ipv6_row_spec(b, 4 + i * 56) } else { ipv4_row_spec(b, 4 + i * 24) })),
    }
}

fn u32_at(b: &[u8], off: usize) -> (v: u32)
    requires
        off + 4 <= b@.len(),
    ensures
        v == field(b@, off as int),
{
    match read_u32_le(b, off) {
        Some(v) => v,
        None => 0,
    }
}

fn bytes_at(b: &[u8], off: usize, n: usize) -> (r: Vec<u8>)
    requires
        off + n <= b@.len(),
    ensures
        r@ == b@.subrange(off as int, off + n),
{
    let len = b.len();
    let mut r: Vec<u8> = Vec::new();
    let mut i: usize = 0;
    while i < n
        invariant
            i <= n,
            len == b@.len(),
            off + n <= b@.len(),
            r@ == b@.subrange(off as int, off + i),
        decreases n - i,
    {
        r.push(b[off + i]);
        assert(b@.subrange(off as int, off + i + 1) =~= b@.subrange(off as int, off + i).push(b@[off + i]));
        i += 1;
    }
    r
}

fn to_array16(v: &Vec<u8>) -> (a: [u8; 16])
    requires
        v@.len() == 16,
    ensures
        a@ == v@,
{
    let mut a: [u8; 16] = [0u8; 16];
    let mut i: usize = 0;
    while i < 16
        invariant
            i <= 16,
            v@.len() == 16,
            forall|j: int| 0 <= j < i ==> a@[j] == v@[j],
        decreases 16 - i,
    {
        a.set(i, v[i]);
        i += 1;
    }
    assert(a@ =~= v@);
    a
}

fn all_zero(v: &Vec<u8>) -> (z: bool)
    requires
        v@.len() == 16,
    ensures
        z == (v@ == Seq::new(16, |i: int| 0u8)),
{
    let mut i: usize = 0;
    while i < 16
        invariant
            i <= 16,
            v@.len() == 16,
            forall|j: int| 0 <= j < i ==> v@[j] == 0u8,
        decreases 16 - i,
    {
        if v[i] != 0 {
            assert(v@[i as int] != Seq::new(16, |k: int| 0u8)[i as int]);
            return false;
        }
        i += 1;
    }
    assert(v@ =~= Seq::new(16, |i: int| 0u8));
    true
}

fn parse_ipv4_row(b: &[u8], off: usize) -> (e: TcpEndpoint)
    requires
        off + 24 <= b@.len(),
    ensures
        endpoint_view(e) == ipv4_row_spec(b@, off as int),
{
    let _len = b.len();
    let local = bytes_at(b, off + 4, 4);
    let remote_raw = u32_at(b, off + 12);
    let connected = remote_raw != 0;
    let remote = bytes_at(b, off + 12, 4);
    TcpEndpoint {
        local_address: format_ipv4(local.as_slice()),
        local_port: network_port(u32_at(b, off + 8)),
        remote_address: if connected { Some(format_ipv4(remote.as_slice())) } else { None },
        remote_port: if connected { Some(network_port(u32_at(b, off + 16))) } else { None },
        state: tcp_state_name(u32_at(b, off)),
        pid: Some(u32_at(b, off + 20)),
    }
}

fn parse_ipv6_row(b: &[u8], off: usize) -> (e: TcpEndpoint)
    requires
        off + 56 <= b@.len(),
    ensures
        endpoint_view(e) == ipv6_row_spec(b@, off as int),
{
    let _len = b.len();
    let local = bytes_at(b, off, 16);
    let remote = bytes_at(b, off + 24, 16);
    let connected = !all_zero(&remote);
    TcpEndpoint {
        local_address: format_ipv6_address(to_array16(&local), u32_at(b, off + 16)),
        local_port: network_port(u32_at(b, off + 20)),
        remote_address: if connected { Some(format_ipv6_address(to_array16(&remote), u32_at(b, off + 40))) } else { None },
        remote_port: if connected { Some(network_port(u32_at(b, off + 44))) } else { None },
        state: tcp_state_name(u32_at(b, off + 48)),
        pid: Some(u32_at(b, off + 52)),
    }
}

/// Decodes a TCP owner-process table (IPv6 when `v6`); every row is read
/// only after the row count was checked against the buffer.
pub fn parse_tcp_table(b: &[u8], v6: bool) -> (r: Result<Vec<TcpEndpoint>, MetricQuality>)
    ensures
        match r {
            Ok(v) => tcp_table_spec(b@, v6) == Ok::<Seq<TcpEndpointView>, MetricQuality>(endpoints_view(v@)),
            Err(q) => tcp_table_spec(b@, v6) == Err::<Seq<TcpEndpointView>, MetricQuality>(q),
        },
{
    let row: usize = if v6 { 56 } else { 24 };
    let count = match table_entry_count(b, row) {
        Ok(c) => c,
        Err(q) => return Err(q),
    };
    let len = b.len();
    let mut out: Vec<TcpEndpoint> = Vec::new();
    let mut i: usize = 0;
    while i < count
        invariant
            i <= count,
            len == b@.len(),
            row == (if v6 { 56usize } else { 24usize }),
            4 + (count as nat) * (row as nat) <= b@.len(),
            out@.len() == i,
            forall|j: int| 0 <= j < i ==> #[trigger] endpoint_view(out@[j]) == (if v6 {
                ipv6_row_spec(b@, 4 + j * 56)
            } else {
                ipv4_row_spec(b@, 4 + j * 24)
            }),
        decreases count - i,
    {
        assert(4 + (i as nat) * (row as nat) + (row as nat) <= 4 + (count as nat) * (row as nat)) by (nonlinear_arith)
            requires i < count;
        assert((i as nat) * (row as nat) == (i as int) * (if v6 { 56int } else { 24int }));
        let off = 4 + i * row;
        let e = if v6 { parse_ipv6_row(b, off) } else { parse_ipv4_row(b, off) };
        out.push(e);
        i += 1;
    }
    assert(endpoints_view(out@) =~= tcp_table_spec(b@, v6)->Ok_0);
    Ok(out)
}

} // verus!

verus! {

/// Connection counts by state.
#[derive(Clone, Copy, Debug, PartialEq, Eq, Structural)]
pub struct TcpCounts {
    pub established: u32,
    pub listening: u32,
    pub time_wait: u32,
    pub total: u32,
}

/// Number of endpoints in state `name`.
pub open spec fn count_state(eps: Seq<TcpEndpointView>, name: Seq<char>) -> nat
    decreases eps.len(),
{
    if eps.len() == 0 {
        0
    } else {
        count_state(eps.drop_last(), name) + if eps.last().state == Some(name) { 1nat } else { 0nat }
    }
}

pub proof fn lemma_count_state_bound(eps: Seq<TcpEndpointView>, name: Seq<char>)
    ensures
        count_state(eps, name) <= eps.len(),
    decreases eps.len(),
{
    if eps.len() > 0 {
        lemma_count_state_bound(eps.drop_last(), name);
    }
}

/// Counts by state, or `Invalid` when the total does not fit in `u32`.
pub open spec fn tcp_counts_spec(eps: Seq<TcpEndpointView>) -> Result<TcpCounts, MetricQuality> {
    if eps.len() > u32::MAX {
        Err(MetricQuality::Invalid)
    } else {
        Ok(TcpCounts {
            established: count_state(eps, "ESTABLISHED"@) as u32,
            listening: count_state(eps, "LISTEN"@) as u32,
            time_wait: count_state(eps, "TIME-WAIT"@) as u32,
            total: eps.len() as u32,
        })
    }
}

proof fn lemma_count_state_filter(eps: Seq<TcpEndpointView>, name: Seq<char>, target: Option<Seq<char>>)
    requires
        target == Some(name),
    ensures
        count_state(eps, name) == eps.filter(|e: TcpEndpointView| e.state == target).len(),
    decreases eps.len(),
{
    let f = |e: TcpEndpointView| e.state == target;
    reveal(Seq::filter);
    if eps.len() > 0 {
        lemma_count_state_filter(eps.drop_last(), name, target);
        let sub = eps.drop_last().filter(f);
        assert(eps.filter(f) == (if f(eps.last()) { sub.push(eps.last()) } else { sub }));
    } else {
        assert(eps.filter(f) == eps);
    }
}

/// Each count is the number of endpoints in the state that the TCP state
/// table names: `ESTABLISHED` (5), `LISTEN` (2) and `TIME-WAIT` (11); the
/// total is the number of endpoints; more endpoints than fit in `u32` is
/// `Invalid`.
pub proof fn lemma_tcp_counts_by_state(eps: Seq<TcpEndpointView>)
    ensures
        eps.len() > u32::MAX ==> tcp_counts_spec(eps) == Err::<TcpCounts, MetricQuality>(MetricQuality::Invalid),
        eps.len() <= u32::MAX ==> (tcp_counts_spec(eps) matches Ok(c) && {
            &&& c.total == eps.len()
            &&& c.established == eps.filter(|e: TcpEndpointView| e.state == tcp_state_spec(5)).len()
            &&& c.listening == eps.filter(|e: TcpEndpointView| e.state == tcp_state_spec(2)).len()
            &&& c.time_wait == eps.filter(|e: TcpEndpointView| e.state == tcp_state_spec(11)).len()
        }),
{
    lemma_count_state_filter(eps, "ESTABLISHED"@, tcp_state_spec(5));
    lemma_count_state_filter(eps, "LISTEN"@, tcp_state_spec(2));
    lemma_count_state_filter(eps, "TIME-WAIT"@, tcp_state_spec(11));
    lemma_count_state_bound(eps, "ESTABLISHED"@);
    lemma_count_state_bound(eps, "LISTEN"@);
    lemma_count_state_bound(eps, "TIME-WAIT"@);
}

fn state_is(e: &TcpEndpoint, name: &str) -> (b: bool)
    ensures
        b == (endpoint_view(*e).state == Some(name@)),
{
    match &e.state {
        Some(s) => crate::text::str_eq(s.as_str(), name),
        None => false,
    }
}

/// Counts endpoints by state (see [`tcp_counts_spec`]).
pub fn count_tcp_endpoints(eps: &Vec<TcpEndpoint>) -> (r: Result<TcpCounts, MetricQuality>)
    ensures
        r == tcp_counts_spec(endpoints_view(eps@)),
{
    let n = eps.len();
    if n > 4294967295 {
        return Err(MetricQuality::Invalid);
    }
    let mut c = TcpCounts { established: 0, listening: 0, time_wait: 0, total: 0 };
    let mut i: usize = 0;
    while i < n
        invariant
            i <= n == eps@.len(),
            n <= u32::MAX,
            c.total == i,
            c.established == count_state(endpoints_view(eps@.take(i as int)), "ESTABLISHED"@),
            c.listening == count_state(endpoints_view(eps@.take(i as int)), "LISTEN"@),
            c.time_wait == count_state(endpoints_view(eps@.take(i as int)), "TIME-WAIT"@),
        decreases n - i,
    {
        proof {
            let v = endpoints_view(eps@.take(i as int));
            lemma_count_state_bound(v, "ESTABLISHED"@);
            lemma_count_state_bound(v, "LISTEN"@);
            lemma_count_state_bound(v, "TIME-WAIT"@);
            assert(endpoints_view(eps@.take(i + 1)).drop_last() =~= v);
            reveal_strlit("ESTABLISHED");
            reveal_strlit("LISTEN");
            reveal_strlit("TIME-WAIT");
            assert("ESTABLISHED"@ != "LISTEN"@ && "ESTABLISHED"@ != "TIME-WAIT"@ && "LISTEN"@ != "TIME-WAIT"@) by {
                assert("ESTABLISHED"@.len() == 11 && "LISTEN"@.len() == 6 && "TIME-WAIT"@.len() == 9);
            }
        }
        let e = &eps[i];
        if state_is(e, "ESTABLISHED") {
            c.established = c.established + 1;
        } else if state_is(e, "LISTEN") {
            c.listening = c.listening + 1;
        } else if state_is(e, "TIME-WAIT") {
            c.time_wait = c.time_wait + 1;
        }
        c.total = c.total + 1;
        i += 1;
    }
    assert(eps@.take(n as int) =~= eps@);
    Ok(c)
}

/// The sum of two counts, `Invalid` on overflow.
pub open spec fn combine_spec(a: TcpCounts, b: TcpCounts) -> Result<TcpCounts, MetricQuality> {
    if a.established + b.established > u32::MAX || a.listening + b.listening > u32::MAX
        || a.time_wait + b.time_wait > u32::MAX || a.total + b.total > u32::MAX {
        Err(MetricQuality::Invalid)
    } else {
        Ok(TcpCounts {
            established: (a.established + b.established) as u32,
            listening: (a.listening + b.listening) as u32,
            time_wait: (a.time_wait + b.time_wait) as u32,
            total: (a.total + b.total) as u32,
        })
    }
}

/// Adds the counts of two tables.
pub fn combine_tcp_counts(a: TcpCounts, b: TcpCounts) -> (r: Result<TcpCounts, MetricQuality>)
    ensures
        r == combine_spec(a, b),
{
    match (a.established.checked_add(b.established), a.listening.checked_add(b.listening),
        a.time_wait.checked_add(b.time_wait), a.total.checked_add(b.total)) {
        (Some(e), Some(l), Some(t), Some(n)) => Ok(TcpCounts { established: e, listening: l, time_wait: t, total: n }),
        _ => Err(MetricQuality::Invalid),
    }
}

/// The model of a table read: its bytes, or why it failed.
pub open spec fn buffer_view(r: Result<Vec<u8>, MetricQuality>) -> Result<Seq<u8>, MetricQuality> {
    match r { Ok(b) => Ok(b@), Err(q) => Err(q) }
}

/// Counts over both TCP tables: a failed read wins (IPv4 first), then
/// counting, then adding.
pub open spec fn tcp_summary_spec(v4: Result<Seq<u8>, MetricQuality>, v6: Result<Seq<u8>, MetricQuality>) -> Result<TcpCounts, MetricQuality> {
    match (v4, v6) {
        (Err(q), _) => Err(q),
        (_, Err(q)) => Err(q),
        _ => match (tcp_table_spec(v4->Ok_0, false), tcp_table_spec(v6->Ok_0, true)) {
            (Err(q), _) => Err(q),
            (_, Err(q)) => Err(q),
            (Ok(a), Ok(b)) => match tcp_counts_spec(a) {
                Err(q) => Err(q),
                Ok(ca) => match tcp_counts_spec(b) {
                    Err(q) => Err(q),
                    Ok(cb) => combine_spec(ca, cb),
                },
            },
        },
    }
}

/// Endpoint count of a UDP table read.
pub open spec fn udp_count_spec(r: Result<Seq<u8>, MetricQuality>, v6: bool) -> Result<u32, MetricQuality> {
    match r {
        Err(q) => Err(q),
        Ok(b) => match table_count_spec(b, if v6 { 28 } else { 12 }) {
            Err(q) => Err(q),
            Ok(c) => if c > u32::MAX { Err(MetricQuality::Invalid) } else { Ok(c as u32) },
        },
    }
}

/// UDP endpoints over both tables.
pub open spec fn udp_summary_spec(v4: Result<Seq<u8>, MetricQuality>, v6: Result<Seq<u8>, MetricQuality>) -> Result<u32, MetricQuality> {
    match (udp_count_spec(v4, false), udp_count_spec(v6, true)) {
        (Err(q), _) => Err(q),
        (_, Err(q)) => Err(q),
        (Ok(a), Ok(b)) => if a + b > u32::MAX { Err(MetricQuality::Invalid) } else { Ok((a + b) as u32) },
    }
}

/// TCP and UDP connection counts.
#[derive(Clone, Debug)]
pub struct NetworkConnectionsSummary {
    pub tcp_established_count: MetricValue<u32>,
    pub tcp_listening_count: MetricValue<u32>,
    pub tcp_time_wait_count: MetricValue<u32>,
    pub tcp_total_connections: MetricValue<u32>,
    pub udp_endpoints_count: MetricValue<u32>,
}

fn udp_count(r: &Result<Vec<u8>, MetricQuality>, v6: bool) -> (c: Result<u32, MetricQuality>)
    ensures
        c == udp_count_spec(buffer_view(*r), v6),
{
    match r {
        Err(q) => Err(*q),
        Ok(b) => match table_entry_count(b.as_slice(), if v6 { 28 } else { 12 }) {
            Err(q) => Err(q),
            Ok(c) => if c > 4294967295 { Err(MetricQuality::Invalid) } else { Ok(c as u32) },
        },
    }
}

/// Connection counts from the four table reads (TCP and UDP, IPv4 and
/// IPv6), stamped with `ts`.
pub fn collect_connections_summary(
    tcp_v4: &Result<Vec<u8>, MetricQuality>,
    tcp_v6: &Result<Vec<u8>, MetricQuality>,
    udp_v4: &Result<Vec<u8>, MetricQuality>,
    udp_v6: &Result<Vec<u8>, MetricQuality>,
    ts: u64,
) -> (s: NetworkConnectionsSummary)
    ensures
        match tcp_summary_spec(buffer_view(*tcp_v4), buffer_view(*tcp_v6)) {
            Ok(c) => {
                let src = "IP_Helper_GetExtendedTcpTable"@;
                &&& metric_present(s.tcp_established_count, c.established, "connections"@, MetricQuality::Good, src, ts)
                &&& metric_present(s.tcp_listening_count, c.listening, "connections"@, MetricQuality::Good, src, ts)
                &&& metric_present(s.tcp_time_wait_count, c.time_wait, "connections"@, MetricQuality::Good, src, ts)
                &&& metric_present(s.tcp_total_connections, c.total, "connections"@, MetricQuality::Good, src, ts)
            },
            Err(q) => {
                let src = "IP_Helper_GetExtendedTcpTable"@;
                let why = "TCP API 查询失败"@;
                &&& metric_absent(s.tcp_established_count, "connections"@, net_missing_quality(q), src, why, ts)
                &&& metric_absent(s.tcp_listening_count, "connections"@, net_missing_quality(q), src, why, ts)
                &&& metric_absent(s.tcp_time_wait_count, "connections"@, net_missing_quality(q), src, why, ts)
                &&& metric_absent(s.tcp_total_connections, "connections"@, net_missing_quality(q), src, why, ts)
            },
        },
        match udp_summary_spec(buffer_view(*udp_v4), buffer_view(*udp_v6)) {
            Ok(n) => metric_present(s.udp_endpoints_count, n, "endpoints"@, MetricQuality::Good, "IP_Helper_GetExtendedUdpTable"@, ts),
            Err(q) => metric_absent(s.udp_endpoints_count, "endpoints"@, net_missing_quality(q),
                "IP_Helper_GetExtendedUdpTable"@, "UDP API 查询失败"@, ts),
        },
{
    let counts: Result<TcpCounts, MetricQuality> = match (tcp_v4, tcp_v6) {
        (Err(q), _) => Err(*q),
        (_, Err(q)) => Err(*q),
        (Ok(a), Ok(b)) => match (parse_tcp_table(a.as_slice(), false), parse_tcp_table(b.as_slice(), true)) {
            (Err(q), _) => Err(q),
            (_, Err(q)) => Err(q),
            (Ok(ea), Ok(eb)) => match count_tcp_endpoints(&ea) {
                Err(q) => Err(q),
                Ok(ca) => match count_tcp_endpoints(&eb) {
                    Err(q) => Err(q),
                    Ok(cb) => combine_tcp_counts(ca, cb),
                },
            },
        },
    };
    let src = "IP_Helper_GetExtendedTcpTable";
    let (e, l, t, n) = match counts {
        Ok(c) => (
            MetricValue::good_at(c.established, "connections", src, ts),
            MetricValue::good_at(c.listening, "connections", src, ts),
            MetricValue::good_at(c.time_wait, "connections", src, ts),
            MetricValue::good_at(c.total, "connections", src, ts),
        ),
        Err(q) => (
            missing_metric_at("connections", src, q, "TCP API 查询失败", ts),
            missing_metric_at("connections", src, q, "TCP API 查询失败", ts),
            missing_metric_at("connections", src, q, "TCP API 查询失败", ts),
            missing_metric_at("connections", src, q, "TCP API 查询失败", ts),
        ),
    };
    let udp = match (udp_count(udp_v4, false), udp_count(udp_v6, true)) {
        (Err(q), _) => Err(q),
        (_, Err(q)) => Err(q),
        (Ok(a), Ok(b)) => match a.checked_add(b) {
            Some(s) => Ok(s),
            None => Err(MetricQuality::Invalid),
        },
    };
    let udp_metric = match udp {
        Ok(c) => MetricValue::good_at(c, "endpoints", "IP_Helper_GetExtendedUdpTable", ts),
        Err(q) => missing_metric_at("endpoints", "IP_Helper_GetExtendedUdpTable", q, "UDP API 查询失败", ts),
    };
    NetworkConnectionsSummary {
        tcp_established_count: e,
        tcp_listening_count: l,
        tcp_time_wait_count: t,
        tcp_total_connections: n,
        udp_endpoints_count: udp_metric,
    }
}

} // verus!

verus! {

/// One row of the interface table (`MIB_IF_ROW2`), with the counters of
/// this interface's previous sample where there is one.
#[derive(Clone, Debug)]
pub struct InterfaceRow {
    pub index: u32,
    pub alias: Vec<u16>,
    pub description: Vec<u16>,
    pub physical_address: Vec<u8>,
    pub physical_address_length: u32,
    pub hardware_interface: bool,
    pub oper_status: i32,
    pub receive_link_speed: u64,
    pub mtu: u32,
    pub in_octets: u64,
    pub out_octets: u64,
    /// Received and sent bytes of the previous sample, and the nanoseconds
    /// since it (zero where the clock went back).
    pub previous: Option<(u64, u64, u128)>,
}

/// Addresses and DHCP state of one interface.
#[derive(Clone, Debug)]
pub struct AdapterAddressData {
    pub ipv4_addresses: Vec<String>,
    pub ipv6_addresses: Vec<String>,
    pub gateway: String,
    pub dns_servers: Vec<String>,
    pub dhcp_enabled: bool,
}

/// A network adapter and its traffic.
#[derive(Clone, Debug)]
pub struct NetworkAdapterInfo {
    pub index: u32,
    pub name: String,
    pub alias: String,
    pub description: String,
    pub mac_address: String,
    pub is_physical: bool,
    pub oper_status: String,
    pub link_speed_bps: MetricValue<u64>,
    pub mtu: MetricValue<u32>,
    pub ipv4_addresses: Vec<String>,
    pub ipv6_addresses: Vec<String>,
    pub gateway: String,
    pub dns_servers: Vec<String>,
    pub dhcp_enabled: MetricValue<bool>,
    pub rx_speed_bps: MetricValue<u64>,
    pub tx_speed_bps: MetricValue<u64>,
    pub total_rx_bytes: MetricValue<u64>,
    pub total_tx_bytes: MetricValue<u64>,
}

/// A fixed-size wide-character field: up to its first NUL, decoded, trimmed.
pub open spec fn wide_field_text(units: Seq<u16>) -> Seq<char> {
    crate::strs::trim(
        crate::text::utf16_lossy(units.take(crate::sysinfo::computer_os::first_zero_unit(units))),
        crate::strs::CharClass::Whitespace,
    )
}

pub fn wide_field(units: &[u16]) -> (s: String)
    ensures
        s@ == wide_field_text(units@),
{
    let n = units.len();
    let mut end: usize = 0;
    assert(units@.skip(0) =~= units@);
    while end < n && units[end] != 0
        invariant
            end <= n == units@.len(),
            crate::sysinfo::computer_os::first_zero_unit(units@) == end + crate::sysinfo::computer_os::first_zero_unit(units@.skip(end as int)),
        decreases n - end,
    {
        assert(units@.skip(end as int).drop_first() =~= units@.skip(end + 1));
        end += 1;
    }
    if end == n {
        assert(units@.skip(n as int) =~= Seq::<u16>::empty());
    }
    let head = vstd::slice::slice_subrange(units, 0, end);
    assert(head@ =~= units@.take(end as int));
    let text = crate::text::string_from_utf16_lossy(head);
    let cs = str_chars(text.as_str());
    let t = crate::strs::trim_chars(cs.as_slice(), crate::strs::CharClass::Whitespace);
    crate::text::chars_to_string(t.as_slice())
}

/// The address data of interface `index`: the last entry listed for it.
pub open spec fn lookup_spec(entries: Seq<(u32, AdapterAddressData)>, index: u32) -> Option<AdapterAddressData>
    decreases entries.len(),
{
    if entries.len() == 0 {
        None
    } else if entries.last().0 == index {
        Some(entries.last().1)
    } else {
        lookup_spec(entries.drop_last(), index)
    }
}

fn lookup(entries: &Vec<(u32, AdapterAddressData)>, index: u32) -> (r: Option<&AdapterAddressData>)
    ensures
        match r {
            Some(d) => lookup_spec(entries@, index) == Some(*d),
            None => lookup_spec(entries@, index) is None,
        },
{
    let mut i = entries.len();
    assert(entries@.take(i as int) =~= entries@);
    while i > 0
        invariant
            i <= entries@.len(),
            lookup_spec(entries@, index) == lookup_spec(entries@.take(i as int), index),
        decreases i,
    {
        assert(entries@.take(i as int).drop_last() =~= entries@.take(i - 1));
        if entries[i - 1].0 == index {
            return Some(&entries[i - 1].1);
        }
        i -= 1;
    }
    None
}

fn clone_strings(v: &Vec<String>) -> (r: Vec<String>)
    ensures
        crate::unrestrict::strings_view(r@) == crate::unrestrict::strings_view(v@),
{
    let mut r: Vec<String> = Vec::new();
    let mut i: usize = 0;
    while i < v.len()
        invariant
            i <= v@.len(),
            r@.len() == i,
            forall|j: int| 0 <= j < i ==> #[trigger] r@[j]@ == v@[j]@,
        decreases v@.len() - i,
    {
        let c = v[i].clone();
        r.push(c);
        i += 1;
    }
    assert(crate::unrestrict::strings_view(r@) =~= crate::unrestrict::strings_view(v@));
    r
}

/// An adapter built from its interface row and the address lookup.
pub open spec fn adapter_ok(a: NetworkAdapterInfo, row: InterfaceRow, addresses: Result<Seq<(u32, AdapterAddressData)>, MetricQuality>, ts: u64) -> bool {
    let src = ip_helper_source();
    let alias = wide_field_text(row.alias@);
    let description = wide_field_text(row.description@);
    let mac_len = if (row.physical_address_length as int) < row.physical_address@.len() {
        row.physical_address_length as int
    } else {
        row.physical_address@.len() as int
    };
    let (prev_rx, prev_tx, elapsed): (Option<u64>, Option<u64>, u128) = match row.previous {
        Some((rx, tx, e)) => (Some(rx), Some(tx), e),
        None => (None, None, 0),
    };
    &&& a.index == row.index
    &&& a.alias@ == alias
    &&& a.description@ == description
    &&& a.name@ == (if alias.len() == 0 { description } else { alias })
    &&& a.mac_address@ == mac_text(row.physical_address@.take(mac_len))
    &&& a.is_physical == row.hardware_interface
    &&& a.oper_status@ == oper_status_spec(row.oper_status)
    &&& metric_present(a.link_speed_bps, row.receive_link_speed, "bit/s"@, MetricQuality::Good, src, ts)
    &&& metric_present(a.mtu, row.mtu, "Bytes"@, MetricQuality::Good, src, ts)
    &&& metric_present(a.total_rx_bytes, row.in_octets, "Bytes"@, MetricQuality::Good, src, ts)
    &&& metric_present(a.total_tx_bytes, row.out_octets, "Bytes"@, MetricQuality::Good, src, ts)
    &&& rate_metric_ok(a.rx_speed_bps, prev_rx, row.in_octets, elapsed, ts)
    &&& rate_metric_ok(a.tx_speed_bps, prev_tx, row.out_octets, elapsed, ts)
    &&& match addresses {
        Ok(entries) => match lookup_spec(entries, row.index) {
            Some(d) => {
                &&& crate::unrestrict::strings_view(a.ipv4_addresses@) == crate::unrestrict::strings_view(d.ipv4_addresses@)
                &&& crate::unrestrict::strings_view(a.ipv6_addresses@) == crate::unrestrict::strings_view(d.ipv6_addresses@)
                &&& a.gateway@ == d.gateway@
                &&& crate::unrestrict::strings_view(a.dns_servers@) == crate::unrestrict::strings_view(d.dns_servers@)
                &&& metric_present(a.dhcp_enabled, d.dhcp_enabled, ""@, MetricQuality::Good, src, ts)
            },
            None => {
                &&& a.ipv4_addresses@.len() == 0 && a.ipv6_addresses@.len() == 0 && a.dns_servers@.len() == 0
                &&& a.gateway@.len() == 0
                &&& metric_absent(a.dhcp_enabled, ""@, MetricQuality::Unsupported, src, "地址 API 未返回该接口，DHCP 状态不可用"@, ts)
            },
        },
        Err(q) => {
            &&& a.ipv4_addresses@.len() == 0 && a.ipv6_addresses@.len() == 0 && a.dns_servers@.len() == 0
            &&& a.gateway@.len() == 0
            &&& metric_absent(a.dhcp_enabled, ""@, net_missing_quality(q), src, "GetAdaptersAddresses 失败，DHCP 状态不可用"@, ts)
        },
    }
}

/// The model of the address lookup result.
pub open spec fn addresses_view(r: Result<Vec<(u32, AdapterAddressData)>, MetricQuality>) -> Result<Seq<(u32, AdapterAddressData)>, MetricQuality> {
    match r { Ok(v) => Ok(v@), Err(q) => Err(q) }
}

fn build_adapter(row: &InterfaceRow, addresses: &Result<Vec<(u32, AdapterAddressData)>, MetricQuality>, ts: u64) -> (a: NetworkAdapterInfo)
    ensures
        adapter_ok(a, *row, addresses_view(*addresses), ts),
{
    let alias = wide_field(row.alias.as_slice());
    let description = wide_field(row.description.as_slice());
    let name = if alias.as_str().is_empty() { description.clone() } else { alias.clone() };
    let mac = format_mac(safe_mac_bytes(row.physical_address.as_slice(), row.physical_address_length as usize));
    let (prev_rx, prev_tx, elapsed): (Option<u64>, Option<u64>, u128) = match row.previous {
        Some((rx, tx, e)) => (Some(rx), Some(tx), e),
        None => (None, None, 0),
    };
    let (ipv4, ipv6, gateway, dns, dhcp) = match addresses {
        Ok(entries) => match lookup(entries, row.index) {
            Some(d) => (
                clone_strings(&d.ipv4_addresses),
                clone_strings(&d.ipv6_addresses),
                d.gateway.clone(),
                clone_strings(&d.dns_servers),
                MetricValue::good_at(d.dhcp_enabled, "", "IP_Helper", ts),
            ),
            None => (
                Vec::new(),
                Vec::new(),
                String::new(),
                Vec::new(),
                missing_metric_at("", "IP_Helper", MetricQuality::Unsupported, "地址 API 未返回该接口，DHCP 状态不可用", ts),
            ),
        },
        Err(q) => (
            Vec::new(),
            Vec::new(),
            String::new(),
            Vec::new(),
            missing_metric_at("", "IP_Helper", *q, "GetAdaptersAddresses 失败，DHCP 状态不可用", ts),
        ),
    };
    NetworkAdapterInfo {
        index: row.index,
        name,
        alias,
        description,
        mac_address: mac,
        is_physical: row.hardware_interface,
        oper_status: format_oper_status(row.oper_status),
        link_speed_bps: MetricValue::good_at(row.receive_link_speed, "bit/s", "IP_Helper", ts),
        mtu: MetricValue::good_at(row.mtu, "Bytes", "IP_Helper", ts),
        ipv4_addresses: ipv4,
        ipv6_addresses: ipv6,
        gateway,
        dns_servers: dns,
        dhcp_enabled: dhcp,
        rx_speed_bps: rate_metric(prev_rx, row.in_octets, elapsed, ts),
        tx_speed_bps: rate_metric(prev_tx, row.out_octets, elapsed, ts),
        total_rx_bytes: MetricValue::good_at(row.in_octets, "Bytes", "IP_Helper", ts),
        total_tx_bytes: MetricValue::good_at(row.out_octets, "Bytes", "IP_Helper", ts),
    }
}

/// One adapter per interface row, in table order, with addresses from the
/// address lookup (or its failure), all stamped with `ts`.
pub fn collect_network_adapters(
    rows: &Vec<InterfaceRow>,
    addresses: &Result<Vec<(u32, AdapterAddressData)>, MetricQuality>,
    ts: u64,
) -> (out: Vec<NetworkAdapterInfo>)
    ensures
        out@.len() == rows@.len(),
        forall|i: int| 0 <= i < rows@.len() ==> #[trigger] adapter_ok(out@[i], rows@[i], addresses_view(*addresses), ts),
{
    let mut out: Vec<NetworkAdapterInfo> = Vec::new();
    let mut i: usize = 0;
    while i < rows.len()
        invariant
            i <= rows@.len(),
            out@.len() == i,
            forall|j: int| 0 <= j < i ==> #[trigger] adapter_ok(out@[j], rows@[j], addresses_view(*addresses), ts),
        decreases rows@.len() - i,
    {
        out.push(build_adapter(&rows[i], addresses, ts));
        i += 1;
    }
    out
}

} // verus!

verus! {

/// Largest table buffer accepted from `GetExtendedTcpTable`/`GetExtendedUdpTable`.
pub const MAX_EXTENDED_TABLE_BUFFER: usize = 16777216;
/// `ERROR_INSUFFICIENT_BUFFER`.
pub const ERROR_INSUFFICIENT_BUFFER: u32 = 122;
/// `ERROR_BUFFER_OVERFLOW`.
pub const ERROR_BUFFER_OVERFLOW: u32 = 111;

/// The next step of reading an extended TCP or UDP table.
#[derive(Clone, Copy, Debug, PartialEq, Eq, Structural)]
pub enum TableStep {
    /// Stop with this failure.
    Fail(MetricQuality),
    /// The table is empty.
    Empty,
    /// Call again with a buffer of this many bytes.
    Read(usize),
    /// The buffer holds this many bytes of table.
    Done(usize),
}

/// A result that asks for a larger buffer.
pub open spec fn wants_buffer(result: u32) -> bool {
    result == ERROR_INSUFFICIENT_BUFFER || result == ERROR_BUFFER_OVERFLOW
}

/// The step after the sizing call: other errors fail with their quality; a
/// zero size is an empty table only on success; a size over the limit is
/// `Invalid`; otherwise the table is read with that size.
pub open spec fn first_step_spec(result: u32, required: u32) -> TableStep {
    if result != 0 && !wants_buffer(result) {
        TableStep::Fail(win32_error_quality(result))
    } else if required == 0 {
        if result == 0 { TableStep::Empty } else { TableStep::Fail(win32_error_quality(result)) }
    } else if required > MAX_EXTENDED_TABLE_BUFFER {
        TableStep::Fail(MetricQuality::Invalid)
    } else {
        TableStep::Read(required as usize)
    }
}

/// Decides the step after the sizing call (see [`first_step_spec`]).
pub fn table_first_step(result: u32, required: u32) -> (s: TableStep)
    ensures
        s == first_step_spec(result, required),
{
    if result != 0 && result != ERROR_INSUFFICIENT_BUFFER && result != ERROR_BUFFER_OVERFLOW {
        TableStep::Fail(crate::quality::classify_win32_error(result))
    } else if required == 0 {
        if result == 0 { TableStep::Empty } else { TableStep::Fail(crate::quality::classify_win32_error(result)) }
    } else if required as usize > MAX_EXTENDED_TABLE_BUFFER {
        TableStep::Fail(MetricQuality::Invalid)
    } else {
        TableStep::Read(required as usize)
    }
}

/// The step after a read into `buffer_len` bytes: a larger size is read
/// again if it grows within the limit (else `ReadError`); other errors fail
/// with their quality; a success reports how much was written (all of the
/// buffer when it says zero), which must fit and hold at least the count.
pub open spec fn read_step_spec(result: u32, returned: u32, buffer_len: usize) -> TableStep {
    if wants_buffer(result) {
        if returned <= buffer_len || returned > MAX_EXTENDED_TABLE_BUFFER {
            TableStep::Fail(MetricQuality::ReadError)
        } else {
            TableStep::Read(returned as usize)
        }
    } else if result != 0 {
        TableStep::Fail(win32_error_quality(result))
    } else {
        let size: int = if returned == 0 { buffer_len as int } else { returned as int };
        if size > buffer_len || size < 4 { TableStep::Fail(MetricQuality::Invalid) } else { TableStep::Done(size as usize) }
    }
}

/// Decides the step after a read (see [`read_step_spec`]).
pub fn table_read_step(result: u32, returned: u32, buffer_len: usize) -> (s: TableStep)
    ensures
        s == read_step_spec(result, returned, buffer_len),
{
    if result == ERROR_INSUFFICIENT_BUFFER || result == ERROR_BUFFER_OVERFLOW {
        if returned as usize <= buffer_len || returned as usize > MAX_EXTENDED_TABLE_BUFFER {
            TableStep::Fail(MetricQuality::ReadError)
        } else {
            TableStep::Read(returned as usize)
        }
    } else if result != 0 {
        TableStep::Fail(crate::quality::classify_win32_error(result))
    } else {
        let size: usize = if returned == 0 { buffer_len } else { returned as usize };
        if size > buffer_len || size < 4 { TableStep::Fail(MetricQuality::Invalid) } else { TableStep::Done(size) }
    }
}

} // verus!

verus! {

// ---------------------------------------------------------------------------
// The adapter-address list of `GetAdaptersAddresses`.

/// The largest adapter-address buffer asked for (1 MiB).
pub const MAX_ADAPTER_ADDRESSES_BUFFER: usize = 1048576;

/// The step after the sizing call of `GetAdaptersAddresses`: as for the
/// TCP and UDP tables, with a 1 MiB limit.
pub open spec fn adapter_first_spec(result: u32, required: u32) -> TableStep {
    if result != 0 && !wants_buffer(result) {
        TableStep::Fail(win32_error_quality(result))
    } else if required == 0 {
        if result == 0 { TableStep::Empty } else { TableStep::Fail(win32_error_quality(result)) }
    } else if required > MAX_ADAPTER_ADDRESSES_BUFFER {
        TableStep::Fail(MetricQuality::Invalid)
    } else {
        TableStep::Read(required as usize)
    }
}

/// Decides the step after the sizing call (see [`adapter_first_spec`]).
pub fn adapter_first_step(result: u32, required: u32) -> (s: TableStep)
    ensures
        s == adapter_first_spec(result, required),
{
    if result != 0 && result != ERROR_INSUFFICIENT_BUFFER && result != ERROR_BUFFER_OVERFLOW {
        TableStep::Fail(crate::quality::classify_win32_error(result))
    } else if required == 0 {
        if result == 0 { TableStep::Empty } else { TableStep::Fail(crate::quality::classify_win32_error(result)) }
    } else if required as usize > MAX_ADAPTER_ADDRESSES_BUFFER {
        TableStep::Fail(MetricQuality::Invalid)
    } else {
        TableStep::Read(required as usize)
    }
}

/// The step after a read into `buffer_len` bytes: a larger size is read
/// again if it grows within the limit (else `ReadError`); other errors fail
/// with their quality; a success keeps what was written (all of the buffer
/// when it says zero), which must fit.
pub open spec fn adapter_read_spec(result: u32, returned: u32, buffer_len: usize) -> TableStep {
    if wants_buffer(result) {
        if returned <= buffer_len || returned > MAX_ADAPTER_ADDRESSES_BUFFER {
            TableStep::Fail(MetricQuality::ReadError)
        } else {
            TableStep::Read(returned as usize)
        }
    } else if result != 0 {
        TableStep::Fail(win32_error_quality(result))
    } else {
        let size: int = if returned == 0 { buffer_len as int } else { returned as int };
        if size > buffer_len { TableStep::Fail(MetricQuality::Invalid) } else { TableStep::Done(size as usize) }
    }
}

/// Decides the step after a read (see [`adapter_read_spec`]).
pub fn adapter_read_step(result: u32, returned: u32, buffer_len: usize) -> (s: TableStep)
    ensures
        s == adapter_read_spec(result, returned, buffer_len),
{
    if result == ERROR_INSUFFICIENT_BUFFER || result == ERROR_BUFFER_OVERFLOW {
        if returned as usize <= buffer_len || returned as usize > MAX_ADAPTER_ADDRESSES_BUFFER {
            TableStep::Fail(MetricQuality::ReadError)
        } else {
            TableStep::Read(returned as usize)
        }
    } else if result != 0 {
        TableStep::Fail(crate::quality::classify_win32_error(result))
    } else {
        let size: usize = if returned == 0 { buffer_len } else { returned as usize };
        if size > buffer_len { TableStep::Fail(MetricQuality::Invalid) } else { TableStep::Done(size) }
    }
}

/// Whether `length` bytes at address `start` lie inside the `buffer_len`
/// bytes at address `base` (neither end may overflow).
pub fn span_within(base: usize, buffer_len: usize, start: usize, length: usize) -> (b: bool)
    ensures
        b == (base + buffer_len <= usize::MAX && start + length <= usize::MAX && base <= start
            && start + length <= base + buffer_len),
{
    match (base.checked_add(buffer_len), start.checked_add(length)) {
        (Some(buffer_end), Some(end)) => start >= base && end <= buffer_end,
        _ => false,
    }
}

/// The most nodes of `node_size` bytes a linked list in `buffer_len` bytes
/// may have before it is taken for a cycle: one more than fit.
pub fn walk_limit(buffer_len: usize, node_size: usize) -> (n: usize)
    requires
        node_size > 0,
    ensures
        n as int == (if buffer_len / node_size + 1 > usize::MAX { usize::MAX as int } else { buffer_len / node_size + 1 }),
{
    let q = buffer_len / node_size;
    if q == usize::MAX { usize::MAX } else { q + 1 }
}

/// The key an adapter's addresses are filed under: its IPv4 interface index,
/// or its IPv6 one when that is zero.
pub fn adapter_key(if_index: u32, ipv6_if_index: u32) -> (k: u32)
    ensures
        k == (if if_index != 0 { if_index } else { ipv6_if_index }),
{
    if if_index != 0 { if_index } else { ipv6_if_index }
}

/// `AF_INET`.
pub const AF_INET: u16 = 2;
/// `AF_INET6`.
pub const AF_INET6: u16 = 23;

/// The address family of a socket address: its first two bytes, in the
/// byte order of x86 and ARM Windows (little-endian).
pub open spec fn sockaddr_family(b: Seq<u8>) -> int {
    b[0] + 256 * b[1]
}

/// A socket address as text, and whether it is IPv6: bytes 4..8 of an
/// `AF_INET` address, bytes 8..24 of an `AF_INET6` one with the scope at
/// 24..28 (zero when the address is shorter); nothing for other families or
/// short addresses.
pub open spec fn socket_address_spec(b: Seq<u8>) -> Option<(bool, Seq<char>)> {
    if b.len() < 2 {
        None
    } else if sockaddr_family(b) == AF_INET {
        if b.len() >= 8 { Some((false, ipv4_text(b.subrange(4, 8)))) } else { None }
    } else if sockaddr_family(b) == AF_INET6 {
        if b.len() >= 24 {
            let scope: u32 = match le_u32(b, 24) { Some(v) => v, None => 0 };
            Some((true, ipv6_scoped_text(b.subrange(8, 24), scope)))
        } else {
            None
        }
    } else {
        None
    }
}

/// Reads a socket address (see [`socket_address_spec`]).
pub fn socket_address_text(b: &[u8]) -> (r: Option<(bool, String)>)
    ensures
        match r {
            Some((v6, t)) => socket_address_spec(b@) == Some((v6, t@)),
            None => socket_address_spec(b@) is None,
        },
{
    if b.len() < 2 {
        return None;
    }
    let family: u32 = b[0] as u32 + 256 * (b[1] as u32);
    if family == AF_INET as u32 {
        if b.len() < 8 {
            return None;
        }
        let part = vstd::slice::slice_subrange(b, 4, 8);
        Some((false, format_ipv4(part)))
    } else if family == AF_INET6 as u32 {
        if b.len() < 24 {
            return None;
        }
        let mut a: [u8; 16] = [0u8; 16];
        let mut i: usize = 0;
        while i < 16
            invariant
                i <= 16,
                b@.len() >= 24,
                forall|j: int| 0 <= j < i ==> a@[j] == b@[8 + j],
            decreases 16 - i,
        {
            a.set(i, b[8 + i]);
            i += 1;
        }
        assert(a@ =~= b@.subrange(8, 24));
        let scope = match read_u32_le(b, 24) { Some(v) => v, None => 0 };
        Some((true, format_ipv6_address(a, scope)))
    } else {
        None
    }
}

} // verus!
