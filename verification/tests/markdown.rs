use omnibox::markdown::{
    check_image_reference, ensure_markdown_path, image_mime_type, is_markdown_path,
    markdown_image_data, path_extension,
};

#[test]
fn markdown_file_extension_accepts_markdown_files_only() {
    assert!(is_markdown_path("notes.md"));
    assert!(is_markdown_path("notes.markdown"));
    assert!(is_markdown_path("NOTES.MD"));
    assert!(!is_markdown_path("notes.txt"));
    assert!(!is_markdown_path("notes.md.bak"));
}

#[test]
fn extension_is_taken_from_the_last_component() {
    assert_eq!(path_extension("C:\\docs\\a.b\\readme.md"), Some("md".to_string()));
    assert_eq!(path_extension("C:\\docs\\a.b\\readme"), None);
    assert_eq!(path_extension(".gitignore"), None);
    assert_eq!(path_extension("archive.tar.gz"), Some("gz".to_string()));
    assert!(is_markdown_path("C:/notes/Plan.Markdown"));
    assert!(!is_markdown_path("C:\\notes.md\\plan"));
}

#[test]
fn non_markdown_path_is_refused_with_message() {
    assert_eq!(ensure_markdown_path("a.md"), Ok(()));
    assert_eq!(
        ensure_markdown_path("a.doc"),
        Err("只支持 .md 或 .markdown 文件。".to_string())
    );
}

#[test]
fn image_types_by_extension() {
    assert_eq!(image_mime_type("a.PNG"), Some("image/png".to_string()));
    assert_eq!(image_mime_type("a.jpg"), Some("image/jpeg".to_string()));
    assert_eq!(image_mime_type("a.jpeg"), Some("image/jpeg".to_string()));
    assert_eq!(image_mime_type("a.gif"), Some("image/gif".to_string()));
    assert_eq!(image_mime_type("a.webp"), Some("image/webp".to_string()));
    assert_eq!(image_mime_type("a.bmp"), None);
    assert_eq!(image_mime_type("png"), None);
}

#[test]
fn image_reference_must_be_relative_and_not_blank() {
    assert_eq!(check_image_reference("img/a.png", false), Ok(()));
    let msg = "本地图片路径必须是 Markdown 文档目录下的相对路径。".to_string();
    assert_eq!(check_image_reference("C:\\a.png", true), Err(msg.clone()));
    assert_eq!(check_image_reference("   ", false), Err(msg));
}

#[test]
fn image_data_is_standard_base64() {
    let d = markdown_image_data("pic.png", b"Man").unwrap();
    assert_eq!(d.mime_type, "image/png");
    assert_eq!(d.data_base64, "TWFu");
    let d2 = markdown_image_data("pic.gif", b"Ma").unwrap();
    assert_eq!(d2.data_base64, "TWE=");
    let d3 = markdown_image_data("pic.webp", &[0xff, 0xfe, 0x00, 0x3f]).unwrap();
    assert_eq!(d3.data_base64, "//4APw==");
    let d4 = markdown_image_data("pic.jpg", b"").unwrap();
    assert_eq!(d4.data_base64, "");
    assert_eq!(
        markdown_image_data("pic.svg", b"x").err(),
        Some("只支持 PNG、JPG、GIF 和 WebP 图片。".to_string())
    );
}
