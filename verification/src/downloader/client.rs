//! URL decomposition, file-name extraction and chunk planning for downloads.

use vstd::prelude::*;
use crate::strs::{in_class, lower_seq, lower_chars, CharClass, lemma_find_sub_found, trim, starts_with, first_in, before_first, find_sub, last_in, trim_chars, starts_with_at, sub_chars, find_class, rfind_class, find_sub_chars};
use crate::numparse::{ParseIntKind, parse_unsigned, parse_int_message, parse_int_message_string, parse_unsigned_chars};
use crate::text::{str_chars, chars_to_string};
use crate::quality::owned;
use super::types::{DownloadChunk, UrlMeta};
use super::filename::{extract_filename_from_url, extract_filename_spec, opt_str_view};

verus! {

/// Splits a host/port part into host and port (`default_port` when absent).
pub open spec fn host_port_spec(hp: Seq<char>, default_port: u16) -> Result<(Seq<char>, u16), Seq<char>> {
    if hp.len() > 0 && hp[0] == '[' {
        match find_sub(hp, seq![']']) {
            None => Err("畸形的 IPv6 主机格式"@),
            Some(close) => {
                let host = hp.subrange(1, close);
                let after = hp.skip(close + 1);
                if after.len() > 0 && after[0] == ':' {
                    match parse_unsigned(after.skip(1), 65535) {
                        Ok(p) => Ok((host, p as u16)),
                        Err(k) => Err("无效的 IPv6 端口: "@ + parse_int_message(k)),
                    }
                } else {
                    Ok((host, default_port))
                }
            },
        }
    } else {
        match last_in(hp, CharClass::Is(':')) {
            Some(ci) => {
                let host = hp.take(ci);
                let port_text = hp.skip(ci + 1);
                if host.len() == 0 {
                    Err("主机名不能为空"@)
                } else {
                    match parse_unsigned(port_text, 65535) {
                        Ok(p) => Ok((host, p as u16)),
                        Err(k) => Err("无效的端口号 "@ + port_text + ": "@ + parse_int_message(k)),
                    }
                }
            },
            None => Ok((hp, default_port)),
        }
    }
}

/// Normalised path and query: the raw path up to any fragment, with a leading `/`.
pub open spec fn path_and_query_spec(raw_path: Seq<char>) -> Seq<char> {
    let p = before_first(raw_path, CharClass::Is('#'));
    if p.len() == 0 {
        "/"@
    } else if p[0] != '/' {
        seq!['/'] + p
    } else {
        p
    }
}

/// URL decomposition after the scheme: `(https, host, port, path_and_query)` or the error message.
pub open spec fn url_after_scheme(https: bool, rest: Seq<char>) -> Result<(bool, Seq<char>, u16, Seq<char>), Seq<char>> {
    let default_port: u16 = if https { 443 } else { 80 };
    if rest.len() == 0 {
        Err("URL 缺少主机名"@)
    } else {
        let ps = first_in(rest, CharClass::PathStart);
        let host_port = rest.take(ps);
        let raw_path = if ps < rest.len() { rest.skip(ps) } else { "/"@ };
        if host_port.len() == 0 {
            Err("主机名不能为空"@)
        } else {
            match host_port_spec(host_port, default_port) {
                Ok((host, port)) => Ok((https, host, port, path_and_query_spec(raw_path))),
                Err(e) => Err(e),
            }
        }
    }
}

/// Full URL decomposition of `url`: scheme, host, port and path with query.
pub open spec fn url_components_spec(url: Seq<char>) -> Result<(bool, Seq<char>, u16, Seq<char>), Seq<char>> {
    let t = trim(url, CharClass::Whitespace);
    if t.len() == 0 {
        Err("URL 不能为空"@)
    } else if starts_with(t, "https://"@) {
        url_after_scheme(true, t.skip("https://"@.len() as int))
    } else if starts_with(t, "http://"@) {
        url_after_scheme(false, t.skip("http://"@.len() as int))
    } else {
        Err("仅支持 HTTP 或 HTTPS 协议"@)
    }
}

/// The URL after its scheme (`https://` when it has that one, else
/// `http://`), trimmed.
pub open spec fn url_rest(url: Seq<char>) -> Seq<char> {
    let t = trim(url, CharClass::Whitespace);
    if starts_with(t, "https://"@) { t.skip(8) } else { t.skip(7) }
}

/// The authority of a URL: what follows the scheme up to the first `/`, `?`
/// or `#`.
pub open spec fn url_authority(url: Seq<char>) -> Seq<char> {
    url_rest(url).take(first_in(url_rest(url), CharClass::PathStart))
}

proof fn lemma_path_and_query(raw_path: Seq<char>)
    ensures
        path_and_query_spec(raw_path).len() > 0,
        path_and_query_spec(raw_path)[0] == '/',
        forall|i: int| 0 <= i < path_and_query_spec(raw_path).len() ==> #[trigger] path_and_query_spec(raw_path)[i] != '#',
{
    reveal_strlit("/");
    crate::strs::lemma_first_in(raw_path, CharClass::Is('#'));
    let p = before_first(raw_path, CharClass::Is('#'));
    assert forall|i: int| 0 <= i < p.len() implies #[trigger] p[i] != '#' by {
        assert(p[i] == raw_path[i]);
    }
    if p.len() > 0 && p[0] != '/' {
        let q = seq!['/'] + p;
        assert forall|i: int| 0 <= i < q.len() implies #[trigger] q[i] != '#' by {
            if i > 0 {
                assert(q[i] == p[i - 1]);
            }
        }
    }
}

/// URL decomposition: only `http://` and `https://` URLs are accepted; the
/// path always starts with `/` and holds no fragment; the scheme flag says
/// whether the URL is `https://`; an authority with neither `:` nor a leading
/// `[` is the host itself, on port 443 or 80, and the URL is then accepted;
/// and a URL with nothing after its authority has the path `/`.
pub proof fn lemma_url_components(url: Seq<char>)
    ensures
        ({
            let t = trim(url, CharClass::Whitespace);
            !starts_with(t, "http://"@) && !starts_with(t, "https://"@)
        }) ==> url_components_spec(url) is Err,
        url_components_spec(url) matches Ok((h, host, port, path)) ==> {
            &&& path.len() > 0 && path[0] == '/'
            &&& forall|i: int| 0 <= i < path.len() ==> #[trigger] path[i] != '#'
            &&& h == starts_with(trim(url, CharClass::Whitespace), "https://"@)
            &&& (forall|i: int| 0 <= i < url_authority(url).len() ==> #[trigger] url_authority(url)[i] != ':')
                && !(url_authority(url).len() > 0 && url_authority(url)[0] == '[')
                ==> host == url_authority(url) && port == (if h { 443u16 } else { 80u16 })
            &&& url_authority(url) == url_rest(url) ==> path == "/"@
        },
        ({
            let t = trim(url, CharClass::Whitespace);
            let a = url_authority(url);
            &&& starts_with(t, "http://"@) || starts_with(t, "https://"@)
            &&& a.len() > 0
            &&& forall|i: int| 0 <= i < a.len() ==> #[trigger] a[i] != ':'
            &&& a[0] != '['
        }) ==> url_components_spec(url) is Ok,
{
    reveal_strlit("https://");
    reveal_strlit("http://");
    reveal_strlit("/");
    let t = trim(url, CharClass::Whitespace);
    let rest = url_rest(url);
    if starts_with(t, "https://"@) {
        assert(t.take(8)[4] == 's');
        assert(t[4] == 's');
        assert(!starts_with(t, "http://"@)) by {
            if starts_with(t, "http://"@) {
                assert(t.take(7)[4] == ':');
            }
        }
    }
    if starts_with(t, "http://"@) || starts_with(t, "https://"@) {
        let https = starts_with(t, "https://"@);
        assert(rest == (if https { t.skip("https://"@.len() as int) } else { t.skip("http://"@.len() as int) }));
        crate::strs::lemma_first_in(rest, CharClass::PathStart);
        let ps = first_in(rest, CharClass::PathStart);
        let hp = rest.take(ps);
        let raw_path = if ps < rest.len() { rest.skip(ps) } else { "/"@ };
        lemma_path_and_query(raw_path);
        crate::strs::lemma_last_in_none(hp, CharClass::Is(':'));
        if hp == rest {
            assert(ps == rest.len());
            crate::strs::lemma_first_in("/"@, CharClass::Is('#'));
            assert(before_first("/"@, CharClass::Is('#')) =~= "/"@);
        }
        if hp.len() > 0 && hp[0] == '[' {
        } else if hp.len() > 0 && (forall|i: int| 0 <= i < hp.len() ==> #[trigger] hp[i] != ':') {
            assert(forall|i: int| 0 <= i < hp.len() ==> !in_class(CharClass::Is(':'), #[trigger] hp[i]));
        }
    }
}

/// The parse result as character sequences.
pub open spec fn url_result_view(r: Result<(bool, String, u16, String), String>) -> Result<(bool, Seq<char>, u16, Seq<char>), Seq<char>> {
    match r {
        Ok((a, b, c, d)) => Ok((a, b@, c, d@)),
        Err(e) => Err(e@),
    }
}

fn port_error(prefix: &str, text: &[char], with_text: bool, k: ParseIntKind) -> (e: String)
    ensures
        with_text ==> e@ == prefix@ + text@ + ": "@ + parse_int_message(k),
        !with_text ==> e@ == prefix@ + parse_int_message(k),
{
    let mut e = owned(prefix);
    if with_text {
        e.append(chars_to_string(text).as_str());
        e.append(": ");
    }
    e.append(parse_int_message_string(k).as_str());
    e
}

fn split_host_port(hp: &[char], default_port: u16) -> (r: Result<(String, u16), String>)
    requires
        hp@.len() > 0,
    ensures
        match r {
            Ok((h, p)) => host_port_spec(hp@, default_port) == Ok::<(Seq<char>, u16), Seq<char>>((h@, p)),
            Err(e) => host_port_spec(hp@, default_port) == Err::<(Seq<char>, u16), Seq<char>>(e@),
        },
{
    let n = hp.len();
    if hp[0] == '[' {
        let close_pat = vec![']'];
        assert(close_pat@ =~= seq![']']);
        match find_sub_chars(hp, close_pat.as_slice()) {
            None => Err(owned("畸形的 IPv6 主机格式")),
            Some(close) => {
                proof { lemma_find_sub_found(hp@, seq![']']); }
                assert(close != 0) by {
                    if close == 0 {
                        assert(hp@.skip(0).take(1)[0] == hp@[0]);
                    }
                }
                let host = sub_chars(hp, 1, close);
                let after = sub_chars(hp, close + 1, n);
                assert(after@ =~= hp@.skip(close + 1));
                if after.len() > 0 && after[0] == ':' {
                    let parsed = parse_unsigned_chars(after.as_slice(), 1, 65535);
                    match parsed {
                        Ok(p) => Ok((chars_to_string(host.as_slice()), p as u16)),
                        Err(k) => Err(port_error("无效的 IPv6 端口: ", after.as_slice(), false, k)),
                    }
                } else {
                    Ok((chars_to_string(host.as_slice()), default_port))
                }
            },
        }
    } else {
        match rfind_class(hp, CharClass::Is(':')) {
            Some(ci) => {
                let host = sub_chars(hp, 0, ci);
                let port_text = sub_chars(hp, ci + 1, n);
                assert(host@ =~= hp@.take(ci as int));
                assert(port_text@ =~= hp@.skip(ci + 1));
                if host.len() == 0 {
                    Err(owned("主机名不能为空"))
                } else {
                    assert(port_text@.skip(0) =~= port_text@);
                    match parse_unsigned_chars(port_text.as_slice(), 0, 65535) {
                        Ok(p) => Ok((chars_to_string(host.as_slice()), p as u16)),
                        Err(k) => Err(port_error("无效的端口号 ", port_text.as_slice(), true, k)),
                    }
                }
            },
            None => Ok((chars_to_string(hp), default_port)),
        }
    }
}

fn path_and_query(raw: &[char]) -> (r: String)
    ensures
        r@ == path_and_query_spec(raw@),
{
    let cut = match find_class(raw, CharClass::Is('#')) {
        Some(i) => i,
        None => raw.len(),
    };
    let p = sub_chars(raw, 0, cut);
    assert(p@ =~= before_first(raw@, CharClass::Is('#')));
    if p.len() == 0 {
        owned("/")
    } else if p[0] != '/' {
        let mut r = owned("/");
        r.append(chars_to_string(p.as_slice()).as_str());
        proof { reveal_strlit("/"); }
        assert(r@ =~= seq!['/'] + p@);
        r
    } else {
        chars_to_string(p.as_slice())
    }
}

/// Splits an HTTP(S) URL into `(is_https, host, port, path_and_query)`.
///
/// Surrounding white space is ignored; only `http://` and `https://` are
/// accepted; the default ports are 80 and 443; a bracketed IPv6 host may carry
/// a port; the fragment is dropped and the path always starts with `/`.
pub fn parse_url_components(url: &str) -> (r: Result<(bool, String, u16, String), String>)
    ensures
        url_result_view(r) == url_components_spec(url@),
{
    let cs = str_chars(url);
    let t = trim_chars(cs.as_slice(), CharClass::Whitespace);
    if t.len() == 0 {
        return Err(owned("URL 不能为空"));
    }
    let https_p = str_chars("https://");
    let http_p = str_chars("http://");
    let (https, skip) = if starts_with_at(t.as_slice(), 0, https_p.as_slice()) {
        (true, https_p.len())
    } else if starts_with_at(t.as_slice(), 0, http_p.as_slice()) {
        (false, http_p.len())
    } else {
        assert(t@.skip(0) =~= t@);
        return Err(owned("仅支持 HTTP 或 HTTPS 协议"));
    };
    assert(t@.skip(0) =~= t@);
    let default_port: u16 = if https { 443 } else { 80 };
    let n = t.len();
    let rest = sub_chars(t.as_slice(), skip, n);
    assert(rest@ =~= t@.skip(skip as int));
    if rest.len() == 0 {
        return Err(owned("URL 缺少主机名"));
    }
    let (host_port, raw_path) = match find_class(rest.as_slice(), CharClass::PathStart) {
        Some(ps) => {
            let hp = sub_chars(rest.as_slice(), 0, ps);
            let rp = sub_chars(rest.as_slice(), ps, rest.len());
            assert(hp@ =~= rest@.take(ps as int));
            assert(rp@ =~= rest@.skip(ps as int));
            (hp, rp)
        },
        None => {
            let hp = sub_chars(rest.as_slice(), 0, rest.len());
            assert(hp@ =~= rest@.take(rest@.len() as int));
            (hp, str_chars("/"))
        },
    };
    if host_port.len() == 0 {
        return Err(owned("主机名不能为空"));
    }
    let pq = path_and_query(raw_path.as_slice());
    match split_host_port(host_port.as_slice(), default_port) {
        Ok((host, port)) => Ok((https, host, port, pq)),
        Err(e) => Err(e),
    }
}

/// Number of chunks a download of `total` bytes over `thread_count` threads is split into.
pub open spec fn chunk_count(total: u64, thread_count: usize) -> nat {
    let threads: nat = if thread_count == 0 { 1 } else { thread_count as nat };
    if total == 0 {
        1
    } else if (total as nat) < threads {
        total as nat
    } else {
        threads
    }
}

/// First byte of chunk `i` when `total` bytes are split into `k` chunks: the
/// first `total % k` chunks are one byte longer than the others.
pub open spec fn chunk_start(total: nat, k: nat, i: nat) -> nat {
    let base = total / k;
    let rem = total % k;
    i * base + if i < rem { i } else { rem }
}

/// Length of chunk `i` when `total` bytes are split into `k` chunks.
pub open spec fn chunk_len(total: nat, k: nat, i: nat) -> nat {
    total / k + if i < total % k { 1nat } else { 0nat }
}

/// The chunk plan: chunk `i` covers `chunk_start(i) ..= chunk_start(i) + chunk_len(i) - 1`,
/// nothing downloaded yet; an empty file is one finished chunk `0..=0`.
pub open spec fn chunk_plan(total: u64, thread_count: usize, i: int) -> DownloadChunk {
    let k = chunk_count(total, thread_count);
    if total == 0 {
        DownloadChunk { id: 0, start: 0, end: 0, downloaded: 0, is_finished: true }
    } else {
        DownloadChunk {
            id: i as usize,
            start: chunk_start(total as nat, k, i as nat) as u64,
            end: (chunk_start(total as nat, k, i as nat) + chunk_len(total as nat, k, i as nat) - 1) as u64,
            downloaded: 0,
            is_finished: false,
        }
    }
}

proof fn lemma_chunk_step(total: nat, k: nat, i: nat)
    requires
        k > 0,
    ensures
        chunk_start(total, k, i + 1) == chunk_start(total, k, i) + chunk_len(total, k, i),
{
    let base = total / k;
    assert((i + 1) * base == i * base + base) by (nonlinear_arith);
}

proof fn lemma_chunk_start_mono(total: nat, k: nat, m: nat, n: nat)
    requires
        k > 0,
        m <= n,
    ensures
        chunk_start(total, k, m) <= chunk_start(total, k, n),
{
    let base = total / k;
    assert(m * base <= n * base) by (nonlinear_arith)
        requires m <= n;
}

proof fn lemma_chunk_total(total: nat, k: nat)
    requires
        k > 0,
    ensures
        chunk_start(total, k, k) == total,
        total >= k ==> total / k >= 1,
{
    let base = total / k;
    let rem = total % k;
    assert(k * base + rem == total) by (nonlinear_arith)
        requires k > 0, base == total / k, rem == total % k;
    assert(rem < k) by (nonlinear_arith)
        requires k > 0, rem == total % k;
    if total >= k {
        assert(base >= 1) by (nonlinear_arith)
            requires k > 0, total >= k, base == total / k;
    }
}

/// Splits `total_bytes` into contiguous, non-overlapping chunks, one per thread
/// (a thread count of 0 counts as 1, and never more chunks than bytes).
pub fn split_into_chunks(total_bytes: u64, thread_count: usize) -> (chunks: Vec<DownloadChunk>)
    ensures
        chunks@.len() == chunk_count(total_bytes, thread_count),
        forall|i: int| 0 <= i < chunks@.len() ==> chunks@[i] == chunk_plan(total_bytes, thread_count, i),
{
    let threads = if thread_count == 0 { 1 } else { thread_count };
    if total_bytes == 0 {
        let mut v: Vec<DownloadChunk> = Vec::new();
        v.push(DownloadChunk { id: 0, start: 0, end: 0, downloaded: 0, is_finished: true });
        return v;
    }
    let actual: usize = if total_bytes < threads as u64 { total_bytes as usize } else { threads };
    let base = total_bytes / actual as u64;
    let remainder = total_bytes % actual as u64;
    let ghost k = actual as nat;
    let ghost total = total_bytes as nat;
    assert(k == chunk_count(total_bytes, thread_count));
    proof { lemma_chunk_total(total, k); }
    let mut chunks: Vec<DownloadChunk> = Vec::new();
    let mut current_start: u64 = 0;
    assert(chunk_start(total, k, 0) == 0) by {
        assert(0 * (total / k) == 0) by (nonlinear_arith);
    }
    for i in 0..actual
        invariant
            actual as nat == k,
            k > 0,
            total == total_bytes as nat,
            total >= k,
            base as nat == total / k,
            remainder as nat == total % k,
            k == chunk_count(total_bytes, thread_count),
            chunk_start(total, k, k) == total,
            total_bytes > 0,
            chunks@.len() == i,
            current_start as nat == chunk_start(total, k, i as nat),
            forall|j: int| 0 <= j < i ==> chunks@[j] == chunk_plan(total_bytes, thread_count, j),
    {
        proof {
            lemma_chunk_step(total, k, i as nat);
            lemma_chunk_start_mono(total, k, (i + 1) as nat, k);
        }
        let chunk_len = if (i as u64) < remainder { base + 1 } else { base };
        let start = current_start;
        let end = current_start + chunk_len - 1;
        current_start = end + 1;
        chunks.push(DownloadChunk { id: i, start, end, downloaded: 0, is_finished: false });
    }
    chunks
}

/// Chunks of a plan tile `0 ..= total - 1`: the first starts at 0, each next one
/// starts right after the previous one ends, none is empty, and the last ends
/// at the final byte.
pub proof fn lemma_chunk_plan_tiles(total: u64, thread_count: usize)
    requires
        total > 0,
    ensures
        chunk_plan(total, thread_count, 0).start == 0,
        forall|i: int| 0 <= i < chunk_count(total, thread_count) ==>
            (#[trigger] chunk_plan(total, thread_count, i)).start <= chunk_plan(total, thread_count, i).end,
        forall|i: int| 0 <= i < chunk_count(total, thread_count) - 1 ==>
            (#[trigger] chunk_plan(total, thread_count, i + 1)).start == chunk_plan(total, thread_count, i).end + 1,
        chunk_plan(total, thread_count, chunk_count(total, thread_count) - 1).end == total - 1,
{
    let k = chunk_count(total, thread_count);
    let t = total as nat;
    lemma_chunk_total(t, k);
    assert forall|i: int| 0 <= i < k implies (#[trigger] chunk_plan(total, thread_count, i)).start
        <= chunk_plan(total, thread_count, i).end by {
        lemma_chunk_step(t, k, i as nat);
        lemma_chunk_start_mono(t, k, (i + 1) as nat, k);
    }
    assert forall|i: int| 0 <= i < k - 1 implies (#[trigger] chunk_plan(total, thread_count, i + 1)).start
        == chunk_plan(total, thread_count, i).end + 1 by {
        lemma_chunk_step(t, k, i as nat);
        lemma_chunk_step(t, k, (i + 1) as nat);
        lemma_chunk_start_mono(t, k, (i + 2) as nat, k);
    }
    lemma_chunk_step(t, k, (k - 1) as nat);
}

/// `str::parse::<u64>` of the text.
pub open spec fn parse_u64_spec(s: Seq<char>) -> Option<u64> {
    match parse_unsigned(s, u64::MAX as nat) {
        Ok(v) => Some(v as u64),
        Err(_) => None,
    }
}

/// Parses a whole string as a `u64` (`str::parse`), `None` on any error.
pub fn parse_u64_text(s: &str) -> (r: Option<u64>)
    ensures
        r == parse_u64_spec(s@),
{
    let cs = str_chars(s);
    assert(cs@.skip(0) =~= cs@);
    match parse_unsigned_chars(cs.as_slice(), 0, u64::MAX) {
        Ok(v) => Some(v),
        Err(_) => None,
    }
}

/// Total size announced by a `Content-Range` value such as `bytes 0-0/1048576`:
/// the trimmed text after the last `/`, parsed as a `u64`.
pub open spec fn content_range_total_spec(s: Seq<char>) -> Option<u64> {
    match last_in(s, CharClass::Is('/')) {
        None => None,
        Some(i) => parse_u64_spec(trim(s.skip(i + 1), CharClass::Whitespace)),
    }
}

/// Total file size from a `Content-Range` header value (`bytes 0-0/1048576` gives 1048576).
pub fn parse_total_from_content_range(content_range: &str) -> (r: Option<u64>)
    ensures
        r == content_range_total_spec(content_range@),
{
    let cs = str_chars(content_range);
    match rfind_class(cs.as_slice(), CharClass::Is('/')) {
        None => None,
        Some(i) => {
            let n = cs.len();
            let tail = sub_chars(cs.as_slice(), i + 1, n);
            assert(tail@ =~= cs@.skip(i + 1));
            let t = trim_chars(tail.as_slice(), CharClass::Whitespace);
            parse_u64_text(chars_to_string(t.as_slice()).as_str())
        },
    }
}

/// Parsed value of an optional header, 0 when absent or not a number.
pub open spec fn header_u64_or_zero(h: Option<Seq<char>>) -> u64 {
    match h {
        Some(s) => match parse_u64_spec(s) {
            Some(v) => v,
            None => 0,
        },
        None => 0,
    }
}

fn header_u64(h: Option<&str>) -> (r: u64)
    ensures
        r == header_u64_or_zero(opt_str_view(h)),
{
    match h {
        Some(s) => match parse_u64_text(s) {
            Some(v) => v,
            None => 0,
        },
        None => 0,
    }
}

/// Whether an `Accept-Ranges` value announces byte ranges (contains `bytes`, any case).
pub open spec fn accepts_byte_ranges(h: Option<Seq<char>>) -> bool {
    match h {
        Some(s) => find_sub(lower_seq(s), "bytes"@) is Some,
        None => false,
    }
}

fn accepts_bytes(h: Option<&str>) -> (b: bool)
    ensures
        b == accepts_byte_ranges(opt_str_view(h)),
{
    match h {
        Some(s) => {
            let cs = str_chars(s);
            let lower = lower_chars(cs.as_slice());
            let pat = str_chars("bytes");
            proof { reveal_strlit("bytes"); }
            find_sub_chars(lower.as_slice(), pat.as_slice()).is_some()
        },
        None => false,
    }
}

/// Meta data from the first-stage HEAD probe: usable only for a 200/206
/// answer that announces byte ranges and a positive `Content-Length`.
pub open spec fn head_probe_spec(
    url: Seq<char>,
    status: u32,
    content_length: Option<Seq<char>>,
    accept_ranges: Option<Seq<char>>,
    disposition: Option<Seq<char>>,
) -> Option<(u64, Seq<char>)> {
    if (status == 200 || status == 206) && accepts_byte_ranges(accept_ranges)
        && header_u64_or_zero(content_length) > 0 {
        Some((header_u64_or_zero(content_length), extract_filename_spec(url, disposition)))
    } else {
        None
    }
}

/// Decides the outcome of the HEAD probe of `url` from its status and headers:
/// `Some` (size, ranges supported, file name) when the server answered 200 or
/// 206, announced byte ranges and a positive size; `None` means "fall back to a
/// ranged GET probe".
pub fn meta_from_head_probe(
    url: &str,
    status: u32,
    content_length: Option<&str>,
    accept_ranges: Option<&str>,
    disposition: Option<&str>,
) -> (r: Option<UrlMeta>)
    ensures
        match head_probe_spec(url@, status, opt_str_view(content_length), opt_str_view(accept_ranges), opt_str_view(disposition)) {
            Some((total, name)) => r matches Some(m) && m.total_bytes == total && m.supports_range
                && m.suggested_filename@ == name,
            None => r is None,
        },
{
    if status == 200 || status == 206 {
        let total_bytes = header_u64(content_length);
        let supports_range = accepts_bytes(accept_ranges);
        if supports_range && total_bytes > 0 {
            let suggested_filename = extract_filename_from_url(url, disposition);
            return Some(UrlMeta { total_bytes, supports_range: true, suggested_filename });
        }
    }
    None
}

/// Meta data from the fallback `Range: bytes=0-0` GET probe.
pub open spec fn range_probe_spec(
    url: Seq<char>,
    status: u32,
    content_range: Option<Seq<char>>,
    content_length: Option<Seq<char>>,
    disposition: Option<Seq<char>>,
) -> Result<(u64, bool, Seq<char>), u32> {
    let name = extract_filename_spec(url, disposition);
    if status == 206 {
        let from_range = match content_range {
            Some(cr) => content_range_total_spec(cr),
            None => None,
        };
        let total = match from_range {
            Some(t) => t,
            None => header_u64_or_zero(content_length),
        };
        Ok((total, true, name))
    } else if status == 200 {
        Ok((header_u64_or_zero(content_length), false, name))
    } else {
        Err(status)
    }
}

/// Decides the outcome of the ranged GET probe: 206 means ranges are
/// supported (size from `Content-Range`, else `Content-Length`), 200 means the
/// server sent the whole file (size from `Content-Length`), any other status
/// is an error naming the status.
pub fn meta_from_range_probe(
    url: &str,
    status: u32,
    content_range: Option<&str>,
    content_length: Option<&str>,
    disposition: Option<&str>,
) -> (r: Result<UrlMeta, u32>)
    ensures
        match range_probe_spec(url@, status, opt_str_view(content_range), opt_str_view(content_length), opt_str_view(disposition)) {
            Ok((total, ranges, name)) => r matches Ok(m) && m.total_bytes == total
                && m.supports_range == ranges && m.suggested_filename@ == name,
            Err(code) => r == Err::<UrlMeta, u32>(code),
        },
{
    if status == 206 {
        let suggested_filename = extract_filename_from_url(url, disposition);
        let from_range = match content_range {
            Some(cr) => parse_total_from_content_range(cr),
            None => None,
        };
        let total_bytes = match from_range {
            Some(t) => t,
            None => header_u64(content_length),
        };
        Ok(UrlMeta { total_bytes, supports_range: true, suggested_filename })
    } else if status == 200 {
        let suggested_filename = extract_filename_from_url(url, disposition);
        Ok(UrlMeta { total_bytes: header_u64(content_length), supports_range: false, suggested_filename })
    } else {
        Err(status)
    }
}

} // verus!

verus! {

/// The `Range` request header for bytes `start..=end`.
pub open spec fn range_header_spec(start: u64, end: u64) -> Seq<char> {
    "Range: bytes="@ + crate::text::decimal(start as nat) + "-"@ + crate::text::decimal(end as nat) + "\r\n"@
}

/// Builds the `Range` request header.
pub fn range_header(start: u64, end: u64) -> (h: String)
    ensures
        h@ == range_header_spec(start, end),
{
    let mut h = "Range: bytes=".to_owned();
    crate::text::push_decimal(&mut h, start);
    crate::text::push_str_chars(&mut h, "-");
    crate::text::push_decimal(&mut h, end);
    crate::text::push_str_chars(&mut h, "\r\n");
    h
}

/// A download answer is usable with status 200 (whole body) or 206 (range).
pub fn download_status_ok(status: u32) -> (ok: bool)
    ensures
        ok == (status == 200 || status == 206),
{
    status == 200 || status == 206
}

/// Bytes a ranged request must deliver: `end - start + 1`.
pub open spec fn expected_len(range: Option<(u64, u64)>) -> Option<nat> {
    match range {
        Some((s, e)) => Some((if e >= s { (e - s) as nat } else { 0nat }) + 1),
        None => None,
    }
}

/// How much to read next into a buffer of `buffer_len` bytes after `got`
/// bytes: everything that fits, or for a range what is still missing;
/// `None` once a range is complete.
pub open spec fn next_read_spec(range: Option<(u64, u64)>, got: u64, buffer_len: u32) -> Option<u32> {
    match expected_len(range) {
        Some(expected) => {
            let remaining: nat = if expected >= got { (expected - got) as nat } else { 0 };
            if remaining == 0 {
                None
            } else if remaining < buffer_len {
                Some(remaining as u32)
            } else {
                Some(buffer_len)
            }
        },
        None => Some(buffer_len),
    }
}

/// Size of the next read of a download stream.
pub fn next_read_size(range: Option<(u64, u64)>, got: u64, buffer_len: u32) -> (r: Option<u32>)
    requires
        expected_len(range) matches Some(x) ==> x <= u64::MAX,
    ensures
        r == next_read_spec(range, got, buffer_len),
{
    match range {
        Some((s, e)) => {
            let span = if e >= s { e - s } else { 0 };
            let expected = span + 1;
            let remaining = if expected >= got { expected - got } else { 0 };
            if remaining == 0 {
                None
            } else if remaining < buffer_len as u64 {
                Some(remaining as u32)
            } else {
                Some(buffer_len)
            }
        },
        None => Some(buffer_len),
    }
}

} // verus!
