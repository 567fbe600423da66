use omnibox::downloader::client::{parse_url_components, split_into_chunks, parse_total_from_content_range, meta_from_head_probe, meta_from_range_probe};
use omnibox::downloader::filename::{extract_filename_from_url, percent_decode, sanitize_filename};
use omnibox::downloader::types::DownloadChunk;

#[test]
fn test_parse_url_components_success() {
    let (is_https, host, port, path) =
        parse_url_components("https://download.example.com/files/app.exe").expect("解析 https 失败");
    assert!(is_https);
    assert_eq!(host, "download.example.com");
    assert_eq!(port, 443);
    assert_eq!(path, "/files/app.exe");

    let (is_https, host, port, path) =
        parse_url_components("http://example.org/index.html").expect("解析 http 失败");
    assert!(!is_https);
    assert_eq!(host, "example.org");
    assert_eq!(port, 80);
    assert_eq!(path, "/index.html");

    let (is_https, host, port, path) =
        parse_url_components("http://127.0.0.1:8080/api/download?file_id=99&token=abc")
            .expect("解析自定义端口失败");
    assert!(!is_https);
    assert_eq!(host, "127.0.0.1");
    assert_eq!(port, 8080);
    assert_eq!(path, "/api/download?file_id=99&token=abc");

    let (_, host, port, path) = parse_url_components("https://example.com").expect("解析缺省路径失败");
    assert_eq!(host, "example.com");
    assert_eq!(port, 443);
    assert_eq!(path, "/");
}

#[test]
fn test_parse_url_components_invalid() {
    assert!(parse_url_components("ftp://ftp.example.com/file.iso").is_err());
    assert!(parse_url_components("file:///C:/path/file.txt").is_err());
    assert!(parse_url_components("").is_err());
    assert!(parse_url_components("not-a-url").is_err());
    assert!(parse_url_components("http://").is_err());
}

#[test]
fn parse_url_error_messages_and_edge_forms() {
    assert_eq!(parse_url_components("   ").unwrap_err(), "URL 不能为空");
    assert_eq!(parse_url_components("ftp://x").unwrap_err(), "仅支持 HTTP 或 HTTPS 协议");
    assert_eq!(parse_url_components("http://").unwrap_err(), "URL 缺少主机名");
    assert_eq!(parse_url_components("http:///path").unwrap_err(), "主机名不能为空");
    assert_eq!(parse_url_components("http://:80/").unwrap_err(), "主机名不能为空");
    assert_eq!(parse_url_components("http://[::1/").unwrap_err(), "畸形的 IPv6 主机格式");
    assert_eq!(
        parse_url_components("http://host:99999/").unwrap_err(),
        "无效的端口号 99999: number too large to fit in target type"
    );
    assert_eq!(
        parse_url_components("http://host:abc/").unwrap_err(),
        "无效的端口号 abc: invalid digit found in string"
    );
    assert_eq!(
        parse_url_components("http://host:/").unwrap_err(),
        "无效的端口号 : cannot parse integer from empty string"
    );
    assert_eq!(
        parse_url_components("http://[::1]:x/").unwrap_err(),
        "无效的 IPv6 端口: invalid digit found in string"
    );
    let (https, host, port, path) = parse_url_components("  https://[::1]:8443?q=1#frag  ").unwrap();
    assert!(https);
    assert_eq!(host, "::1");
    assert_eq!(port, 8443);
    assert_eq!(path, "/?q=1");
    let (_, host, port, path) = parse_url_components("http://[fe80::1]/a#b").unwrap();
    assert_eq!((host.as_str(), port, path.as_str()), ("fe80::1", 80, "/a"));
    let (_, _, port, path) = parse_url_components("http://h:+81#x").unwrap();
    assert_eq!((port, path.as_str()), (81, "/"));
}

#[test]
fn test_extract_filename_from_url_and_header() {
    let name = extract_filename_from_url(
        "https://example.com/download?id=123",
        Some("attachment; filename=\"custom_setup.exe\""),
    );
    assert_eq!(name, "custom_setup.exe");

    let name = extract_filename_from_url(
        "https://example.com/download",
        Some("attachment; filename=archive-2026.zip"),
    );
    assert_eq!(name, "archive-2026.zip");

    let name = extract_filename_from_url(
        "https://example.com/download",
        Some("attachment; filename*=UTF-8''%E6%B5%8B%E8%AF%95%E6%96%87%E4%BB%B6.pdf"),
    );
    assert_eq!(name, "测试文件.pdf");

    let name = extract_filename_from_url(
        "https://example.com/dist/v1.2.0/omnibox-setup.exe?token=xyz#hash",
        None,
    );
    assert_eq!(name, "omnibox-setup.exe");

    let name = extract_filename_from_url(
        "https://example.com/%E4%B8%87%E8%83%BD%E5%B7%A5%E5%85%B7%E7%86%8A.zip",
        None,
    );
    assert_eq!(name, "万能工具熊.zip");

    let name = extract_filename_from_url(
        "https://example.com/download",
        Some("attachment; filename=\"bad:file*name?.txt\""),
    );
    assert_eq!(name, "bad_file_name_.txt");

    let name = extract_filename_from_url("https://example.com/", None);
    assert_eq!(name, "download.bin");

    let name = extract_filename_from_url("https://example.com/???", None);
    assert_eq!(name, "download.bin");
}

#[test]
fn filename_helpers_decode_and_sanitize() {
    assert_eq!(percent_decode("a%41b%4"), "aAb%4");
    assert_eq!(percent_decode("%zz%2f"), "%zz/");
    assert_eq!(percent_decode("%FF"), "\u{FFFD}");
    assert_eq!(sanitize_filename("  ..a<b>.. "), "a_b_");
    assert_eq!(sanitize_filename(" . "), "download.bin");
    assert_eq!(sanitize_filename("x\u{7}y"), "x_y");
    assert_eq!(
        extract_filename_from_url("https://e.com/file.bin", Some("inline; FILENAME=\"a.txt\"; size=3")),
        "a.txt"
    );
    assert_eq!(
        extract_filename_from_url("https://e.com/file.bin", Some("attachment; filename=\"...\"")),
        "file.bin"
    );
}

#[test]
fn test_split_into_chunks_exact_division() {
    let chunks = split_into_chunks(100, 4);
    assert_eq!(chunks.len(), 4);
    assert_eq!(chunks[0], DownloadChunk { id: 0, start: 0, end: 24, downloaded: 0, is_finished: false });
    assert_eq!(chunks[1], DownloadChunk { id: 1, start: 25, end: 49, downloaded: 0, is_finished: false });
    assert_eq!(chunks[2], DownloadChunk { id: 2, start: 50, end: 74, downloaded: 0, is_finished: false });
    assert_eq!(chunks[3], DownloadChunk { id: 3, start: 75, end: 99, downloaded: 0, is_finished: false });

    let mut total_span = 0;
    for (i, c) in chunks.iter().enumerate() {
        assert_eq!(c.id, i);
        if i > 0 {
            assert_eq!(c.start, chunks[i - 1].end + 1);
        }
        total_span += c.end - c.start + 1;
    }
    assert_eq!(total_span, 100);
}

#[test]
fn test_split_into_chunks_with_remainder() {
    let chunks = split_into_chunks(10, 3);
    assert_eq!(chunks.len(), 3);
    assert_eq!(chunks[0], DownloadChunk { id: 0, start: 0, end: 3, downloaded: 0, is_finished: false });
    assert_eq!(chunks[1], DownloadChunk { id: 1, start: 4, end: 6, downloaded: 0, is_finished: false });
    assert_eq!(chunks[2], DownloadChunk { id: 2, start: 7, end: 9, downloaded: 0, is_finished: false });

    let mut total_span = 0;
    for (i, c) in chunks.iter().enumerate() {
        if i > 0 {
            assert_eq!(c.start, chunks[i - 1].end + 1);
        }
        total_span += c.end - c.start + 1;
    }
    assert_eq!(total_span, 10);
}

#[test]
fn test_split_into_chunks_edge_cases() {
    let chunks = split_into_chunks(500, 1);
    assert_eq!(chunks.len(), 1);
    assert_eq!(chunks[0], DownloadChunk { id: 0, start: 0, end: 499, downloaded: 0, is_finished: false });

    let chunks = split_into_chunks(3, 8);
    assert_eq!(chunks.len(), 3);
    assert_eq!(chunks[0], DownloadChunk { id: 0, start: 0, end: 0, downloaded: 0, is_finished: false });
    assert_eq!(chunks[1], DownloadChunk { id: 1, start: 1, end: 1, downloaded: 0, is_finished: false });
    assert_eq!(chunks[2], DownloadChunk { id: 2, start: 2, end: 2, downloaded: 0, is_finished: false });

    let chunks = split_into_chunks(0, 4);
    assert_eq!(chunks.len(), 1);
    assert_eq!(chunks[0], DownloadChunk { id: 0, start: 0, end: 0, downloaded: 0, is_finished: true });

    let chunks = split_into_chunks(100, 0);
    assert_eq!(chunks.len(), 1);
    assert_eq!(chunks[0], DownloadChunk { id: 0, start: 0, end: 99, downloaded: 0, is_finished: false });
}

#[test]
fn chunk_plan_tiles_the_file_for_large_sizes() {
    let total = u64::MAX;
    let chunks = split_into_chunks(total, 7);
    assert_eq!(chunks.len(), 7);
    assert_eq!(chunks[0].start, 0);
    for i in 1..chunks.len() {
        assert_eq!(chunks[i].start, chunks[i - 1].end + 1);
    }
    assert_eq!(chunks[6].end, total - 1);
}

#[test]
fn content_range_and_probe_decisions() {
    assert_eq!(parse_total_from_content_range("bytes 0-0/1048576"), Some(1048576));
    assert_eq!(parse_total_from_content_range("bytes 0-0/ 42 "), Some(42));
    assert_eq!(parse_total_from_content_range("bytes 0-0/*"), None);
    assert_eq!(parse_total_from_content_range("no slash"), None);

    let head = meta_from_head_probe(
        "http://h/downloads/setup.exe",
        200,
        Some("5242880"),
        Some("Bytes"),
        Some("attachment; filename=\"installer.msi\""),
    )
    .unwrap();
    assert_eq!(head.total_bytes, 5242880);
    assert!(head.supports_range);
    assert_eq!(head.suggested_filename, "installer.msi");
    assert!(meta_from_head_probe("http://h/a", 405, Some("0"), None, None).is_none());
    assert!(meta_from_head_probe("http://h/a", 200, Some("10"), Some("none"), None).is_none());

    let get = meta_from_range_probe("http://h/data/report.pdf", 200, None, Some("2048"), None).unwrap();
    assert_eq!(get.total_bytes, 2048);
    assert!(!get.supports_range);
    assert_eq!(get.suggested_filename, "report.pdf");
    let ranged = meta_from_range_probe("http://h/x.bin", 206, Some("bytes 0-0/77"), Some("1"), None).unwrap();
    assert_eq!((ranged.total_bytes, ranged.supports_range), (77, true));
    let fallback = meta_from_range_probe("http://h/x.bin", 206, Some("bytes 0-0/*"), Some("9"), None).unwrap();
    assert_eq!(fallback.total_bytes, 9);
    assert_eq!(meta_from_range_probe("http://h/x.bin", 404, None, None, None).unwrap_err(), 404);
}

#[test]
fn url_components_law_on_examples() {
    assert!(parse_url_components("ftp://host/file").is_err());
    let (h, host, port, path) = parse_url_components("  https://example.com  ").unwrap();
    assert!(h);
    assert_eq!((host.as_str(), port, path.as_str()), ("example.com", 443, "/"));
    let (h, host, port, path) = parse_url_components("http://example.com?q=1#frag").unwrap();
    assert!(!h);
    assert_eq!((host.as_str(), port), ("example.com", 80));
    assert_eq!(path, "/?q=1");
    assert!(path.starts_with('/') && !path.contains('#'));
}

#[test]
fn extracted_file_names_are_safe() {
    assert_eq!(extract_filename_from_url("http://x/", None), "download.bin");
    assert_eq!(extract_filename_from_url("http://x/dir/?a=b", None), "download.bin");
    let names = [
        extract_filename_from_url("http://x/a%3Ab%2Fc.txt", None),
        extract_filename_from_url("http://x/f", Some("attachment; filename=\" a<b>.zip \"")),
        extract_filename_from_url("http://x/%20%20", None),
    ];
    for n in names {
        assert!(!n.is_empty());
        assert_eq!(n.trim(), n);
        assert!(!n.chars().any(|c| "\\/:*?\"<>|".contains(c) || c.is_control()), "{n}");
    }
}
