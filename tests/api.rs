use airdrop_pro::clipboard::{ClipboardError, ClipboardPayload};
use airdrop_pro::codec::base64_encode;
use airdrop_pro::server::{
    clipboard_notice, clipboard_reply, clipboard_set_notice, content_disposition, content_type_for,
    failure_body, failure_reply, hello_reply, json_quoted, not_found_reply, payload_body, plan_download, route,
    served_file_notice, success_body, success_reply, upload_notice, url_encode, Route, ServerError,
};

#[test]
fn routes() {
    assert_eq!(route("GET", "/"), Route::Hello);
    assert_eq!(route("GET", "/?x=1"), Route::Hello);
    assert_eq!(route("GET", "/file/L2E="), Route::GetFile("L2E=".to_string()));
    assert_eq!(route("GET", "/file/L2E=?dl=1"), Route::GetFile("L2E=".to_string()));
    assert_eq!(route("GET", "/file/"), Route::GetFile(String::new()));
    assert_eq!(route("GET", "/file/a/b"), Route::NotFound);
    assert_eq!(route("GET", "/file"), Route::NotFound);
    assert_eq!(route("POST", "/file"), Route::PostFile);
    assert_eq!(route("POST", "/file/x"), Route::NotFound);
    assert_eq!(route("GET", "/clipboard"), Route::GetClipboard);
    assert_eq!(route("POST", "/clipboard"), Route::PostClipboard);
    assert_eq!(route("PUT", "/clipboard"), Route::NotFound);
    assert_eq!(route("GET", "/other"), Route::NotFound);
}

#[test]
fn bad_download_token_is_a_500_envelope() {
    let token = match route("GET", "/file/not-valid-base64!!") {
        Route::GetFile(t) => t,
        other => panic!("unexpected route {:?}", other),
    };
    let err = plan_download(&token).unwrap_err();
    let reply = failure_reply(&err);
    assert_eq!(reply.status, 500);
    assert!(reply.body.contains("\"success\": false"));
    assert_eq!(reply.body, r#"{"success": false, "msg": "Failed to decode the URL path."}"#);
}

#[test]
fn download_plan_for_a_path() {
    let d = plan_download("L3RtcC9waG90by5wbmc=").unwrap();
    assert_eq!(d.path, "/tmp/photo.png");
    assert_eq!(d.file_name, "photo.png");
    assert_eq!(d.content_type, "image/png");
    assert_eq!(d.content_disposition, "attachment; filename*=UTF-8''photo.png");
    let root = plan_download("Lw==").unwrap_err();
    assert!(matches!(root, ServerError::NoFileName(ref p) if p == "/"));
}

#[test]
fn header_escaping() {
    assert_eq!(url_encode("a b.txt"), "a%20b.txt");
    assert_eq!(url_encode("é#?.txt"), "%C3%A9%23%3F.txt");
    assert_eq!(url_encode("plain-name_1.txt"), "plain-name_1.txt");
    assert_eq!(content_disposition("a b.txt"), "attachment; filename*=UTF-8''a%20b.txt");
}

#[test]
fn json_strings() {
    assert_eq!(json_quoted("plain"), "\"plain\"");
    assert_eq!(json_quoted("a\"b\\c"), "\"a\\\"b\\\\c\"");
    assert_eq!(json_quoted("l1\nl2\r\t"), "\"l1\\nl2\\r\\t\"");
    assert_eq!(json_quoted("\u{1}\u{1f}"), "\"\\u0001\\u001F\"");
    assert_eq!(json_quoted("ü✓"), "\"ü✓\"");
    let body = payload_body(&ClipboardPayload::Text("bell\u{7}".to_string()));
    assert_eq!(body, r#"{"success": true, "data": {"type": "text", "data": "bell\u0007"}}"#);
}

#[test]
fn download_of_a_nested_name() {
    let d = plan_download("L2hvbWUvbWUvbm90ZXM=").unwrap();
    assert_eq!(d.file_name, "notes");
    assert_eq!(d.content_type, "application/octet-stream");
}

#[test]
fn download_names_past_trailing_parts() {
    let colon = plan_download(&base64_encode("/tmp/a:b.txt").unwrap()).unwrap();
    assert_eq!(colon.file_name, "a:b.txt");
    assert_eq!(colon.content_type, "text/plain");
    let slash = plan_download(&base64_encode("/tmp/a/").unwrap()).unwrap();
    assert_eq!(slash.file_name, "a");
    let dot = plan_download(&base64_encode("/tmp/r.pdf/.").unwrap()).unwrap();
    assert_eq!(dot.file_name, "r.pdf");
    assert_eq!(dot.content_type, "application/pdf");
    let up = plan_download(&base64_encode("/tmp/..").unwrap()).unwrap_err();
    assert!(matches!(up, ServerError::NoFileName(ref p) if p == "/tmp/.."));
}

#[test]
fn media_types() {
    assert_eq!(content_type_for(Some("png")), "image/png");
    assert_eq!(content_type_for(Some("nosuchext")), "application/octet-stream");
    assert_eq!(content_type_for(None), "application/octet-stream");
}

#[test]
fn plain_replies() {
    assert_eq!(success_body(), r#"{"success": true}"#);
    assert_eq!(success_reply().status, 200);
    let h = hello_reply();
    assert_eq!((h.status, h.body.as_str()), (200, "Hello World!"));
    let n = not_found_reply();
    assert_eq!(n.status, 404);
    assert!(n.body.is_empty());
    assert_eq!(failure_body("Boom \"x\""), r#"{"success": false, "msg": "Boom \"x\"."}"#);
}

#[test]
fn clipboard_bodies() {
    let text = payload_body(&ClipboardPayload::Text("hi \"you\"".to_string()));
    assert_eq!(text, r#"{"success": true, "data": {"type": "text", "data": "hi \"you\""}}"#);
    let files = payload_body(&ClipboardPayload::FileList(vec!["/a".to_string(), "/b".to_string()]));
    assert_eq!(files, r#"{"success": true, "data": {"type": "file", "data": ["L2E=","L2I="]}}"#);
    let empty = payload_body(&ClipboardPayload::FileList(vec![]));
    assert_eq!(empty, r#"{"success": true, "data": {"type": "file", "data": []}}"#);
    let img = payload_body(&ClipboardPayload::Image(vec![1, 2, 3]));
    assert_eq!(img, r#"{"success": true, "data": {"type": "img", "data": "AQID"}}"#);
}

#[test]
fn unsupported_clipboard_reply() {
    let r = clipboard_reply(&Err(ClipboardError::Unsupported));
    assert_eq!(r.status, 500);
    assert_eq!(r.body, r#"{"success": false, "msg": "Unsupported clipboard format."}"#);
    let ok = clipboard_reply(&Ok(ClipboardPayload::Text("x".to_string())));
    assert_eq!(ok.status, 200);
}

#[test]
fn error_messages() {
    assert_eq!(
        ServerError::OpenFailed("/x".to_string()).message(),
        "Failed to open the file at path: \"/x\""
    );
    assert_eq!(ServerError::Multipart.message(), "Failed to parse multipart input");
    assert_eq!(
        ServerError::Clipboard(ClipboardError::ImageEncoding).message(),
        "Failed to encode image to base64"
    );
}

#[test]
fn notices() {
    assert_eq!(served_file_notice("/a"), "Successfully served file from path: \"/a\"");
    assert_eq!(
        upload_notice("r.pdf", "/in/r(1).pdf"),
        "Successfully uploaded file '\"r.pdf\"' to path: \"/in/r(1).pdf\""
    );
    assert_eq!(
        clipboard_notice(&ClipboardPayload::FileList(vec!["/a".to_string(), "/b".to_string()])),
        "Successfully served clipboard content as a file list with 2 items"
    );
    assert_eq!(
        clipboard_notice(&ClipboardPayload::Image(vec![])),
        "Successfully served clipboard content as an image"
    );
    assert_eq!(clipboard_set_notice("x"), "Successfully set clipboard content with text: \"x\"");
}
