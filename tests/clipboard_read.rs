use airdrop_pro::clipboard::{
    encode_image_to_base64_png, encode_png, file_list_paths, html_file_paths, link_to_path,
    read_clipboard, ClipboardError, ClipboardPayload, PathStyle, RawImage,
};

fn pixel() -> RawImage {
    RawImage { width: 1, height: 1, rgba: vec![255, 0, 0, 255] }
}

#[test]
fn link_paths_by_style() {
    assert_eq!(link_to_path("file:///home/a.png\r\n", PathStyle::Posix), "/home/a.png");
    assert_eq!(link_to_path("file:///C:/a.png", PathStyle::Windows), "C:/a.png");
    assert_eq!(link_to_path("file:///C:/a.png", PathStyle::Posix), "/C:/a.png");
    assert_eq!(link_to_path("/x", PathStyle::Windows), "x");
    assert_eq!(link_to_path("http://a", PathStyle::Posix), "http://a");
}

#[test]
fn html_links_in_document_order() {
    let html = r#"<p><img src="file:///tmp/b c.png"> and <img src="file:///tmp/a.png"></p>"#;
    let paths = html_file_paths(html, PathStyle::Posix);
    assert_eq!(paths, vec!["/tmp/b c.png".to_string(), "/tmp/a.png".to_string()]);
    let none = html_file_paths(r#"<img src="http://x/a.png">"#, PathStyle::Posix);
    assert!(none.is_empty());
}

#[test]
fn file_list_keeps_paths_as_they_are() {
    let list = vec![Some("/a \n".to_string()), None, Some("/b".to_string())];
    assert_eq!(file_list_paths(&list), vec!["/a \n".to_string(), "/b".to_string()]);
}

#[test]
fn image_wins_over_text() {
    let r = read_clipboard(Some(pixel()), None, None, Some("hello".to_string()), PathStyle::Posix);
    match r {
        Ok(ClipboardPayload::Image(png)) => assert_eq!(&png[..8], &[137, 80, 78, 71, 13, 10, 26, 10]),
        other => panic!("expected an image, got {:?}", other),
    }
}

#[test]
fn nothing_supported_is_an_error() {
    let r = read_clipboard(None, None, None, None, PathStyle::Posix);
    assert!(matches!(r, Err(ClipboardError::Unsupported)));
    assert_eq!(ClipboardError::Unsupported.message(), "Unsupported clipboard format");
}

#[test]
fn empty_shapes_fall_through_to_text() {
    let r = read_clipboard(
        None,
        Some(vec![None]),
        Some("<b>no links</b>".to_string()),
        Some("plain".to_string()),
        PathStyle::Posix,
    );
    assert!(matches!(r, Ok(ClipboardPayload::Text(t)) if t == "plain"));
}

#[test]
fn file_list_before_html() {
    let r = read_clipboard(
        None,
        Some(vec![Some("/x.txt\r\n".to_string())]),
        Some(r#"<img src="file:///y.png">"#.to_string()),
        None,
        PathStyle::Posix,
    );
    assert!(matches!(r, Ok(ClipboardPayload::FileList(v)) if v == vec!["/x.txt\r\n".to_string()]));
}

#[test]
fn html_links_before_text() {
    let r = read_clipboard(
        None,
        None,
        Some(r#"<img src="file:///y.png">"#.to_string()),
        Some("t".to_string()),
        PathStyle::Posix,
    );
    assert!(matches!(r, Ok(ClipboardPayload::FileList(v)) if v == vec!["/y.png".to_string()]));
}

#[test]
fn bad_bitmap_fails_the_read() {
    let img = RawImage { width: 2, height: 2, rgba: vec![0, 0, 0, 0] };
    assert!(matches!(encode_png(&img), Err(ClipboardError::ImageEncoding)));
    let r = read_clipboard(Some(img), None, None, Some("t".to_string()), PathStyle::Posix);
    assert!(matches!(r, Err(ClipboardError::ImageEncoding)));
    let empty = RawImage { width: 0, height: 1, rgba: vec![] };
    assert!(matches!(encode_png(&empty), Err(ClipboardError::ImageEncoding)));
    let roomy = RawImage { width: 1, height: 1, rgba: vec![1, 2, 3, 4, 5, 6] };
    assert!(encode_png(&roomy).is_ok());
}

#[test]
fn bitmap_as_base64_png() {
    let text = encode_image_to_base64_png(&pixel()).unwrap();
    assert!(text.starts_with("iVBORw0KGgo"));
}
