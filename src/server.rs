//! Routing, response bodies and failure envelopes of the transfer API.

use crate::clipboard::{ClipboardError, ClipboardPayload, clipboard_error_text, texts};
use crate::codec::{base64_decode, base64_encode, path_token, standard_base64, standard_encode};
use crate::paths::{
    decimal, decimal_string, extension_of, is_portable_path, name_extension, optional_text,
    path_file_name,
};
use crate::text::{has_prefix, same_text, starts_with};
use vstd::prelude::*;
use vstd::utf8::encode_utf8;

verus! {

/// Rust's debug rendering of a string: quoted, with quotes, backslashes and
/// control characters escaped.
pub uninterp spec fn debug_quoted(s: Seq<char>) -> Seq<char>;

/// The media type that mime_guess gives first for a file extension, or
/// `application/octet-stream` when it knows none.
pub uninterp spec fn mime_for_extension(extension: Seq<char>) -> Seq<char>;

/// Relies on `<str as Debug>::fmt`, which depends on the characters alone.
#[verifier::external_body]
fn quoted(s: &str) -> (r: String)
    ensures
        r@ == debug_quoted(s@),
{
    format!("{:?}", s)
}

/// Relies on mime_guess's `from_ext` and `MimeGuess::first_or_octet_stream`.
#[verifier::external_body]
fn guess_mime(extension: &str) -> (r: String)
    ensures
        r@ == mime_for_extension(extension@),
{
    mime_guess::from_ext(extension).first_or_octet_stream().to_string()
}

/// How JSON writes one character inside a string: quote, backslash and the
/// control characters escaped, everything else as it is.
pub open spec fn json_char(c: char) -> Seq<char> {
    if c == '"' {
        "\\\""@
    } else if c == '\\' {
        "\\\\"@
    } else if c == '\n' {
        "\\n"@
    } else if c == '\r' {
        "\\r"@
    } else if c == '\t' {
        "\\t"@
    } else if (c as u32) < 0x20 {
        "\\u00"@ + seq![hex_digit(((c as u32) / 16) as u8), hex_digit(((c as u32) % 16) as u8)]
    } else {
        seq![c]
    }
}

/// The characters of a text as a JSON string writes them.
pub open spec fn json_escape(s: Seq<char>) -> Seq<char>
    decreases s.len(),
{
    if s.len() == 0 {
        Seq::empty()
    } else {
        json_escape(s.drop_last()) + json_char(s.last())
    }
}

/// A text as a JSON string literal.
pub open spec fn json_string(s: Seq<char>) -> Seq<char> {
    "\""@ + json_escape(s) + "\""@
}

fn hex_str(d: u32) -> (r: &'static str)
    requires
        d < 16,
    ensures
        r@ == seq![hex_digit(d as u8)],
{
    proof {
        reveal_strlit("0");
        reveal_strlit("1");
        reveal_strlit("2");
        reveal_strlit("3");
        reveal_strlit("4");
        reveal_strlit("5");
        reveal_strlit("6");
        reveal_strlit("7");
        reveal_strlit("8");
        reveal_strlit("9");
        reveal_strlit("A");
        reveal_strlit("B");
        reveal_strlit("C");
        reveal_strlit("D");
        reveal_strlit("E");
        reveal_strlit("F");
    }
    if d == 0 { "0" }
    else if d == 1 { "1" }
    else if d == 2 { "2" }
    else if d == 3 { "3" }
    else if d == 4 { "4" }
    else if d == 5 { "5" }
    else if d == 6 { "6" }
    else if d == 7 { "7" }
    else if d == 8 { "8" }
    else if d == 9 { "9" }
    else if d == 10 { "A" }
    else if d == 11 { "B" }
    else if d == 12 { "C" }
    else if d == 13 { "D" }
    else if d == 14 { "E" }
    else { "F" }
}

/// Writes a text as a JSON string literal.
pub fn json_quoted(s: &str) -> (r: String)
    ensures
        r@ == json_string(s@),
{
    let n = s.unicode_len();
    let mut r = String::from_str("\"");
    let mut i: usize = 0;
    while i < n
        invariant
            n == s@.len(),
            i <= n,
            r@ == "\""@ + json_escape(s@.subrange(0, i as int)),
        decreases n - i,
    {
        let c = s.get_char(i);
        proof {
            assert(s@.subrange(0, i + 1).drop_last() == s@.subrange(0, i as int));
        }
        if c == '"' {
            r.append("\\\"");
        } else if c == '\\' {
            r.append("\\\\");
        } else if c == '\n' {
            r.append("\\n");
        } else if c == '\r' {
            r.append("\\r");
        } else if c == '\t' {
            r.append("\\t");
        } else if (c as u32) < 0x20 {
            r.append("\\u00");
            r.append(hex_str((c as u32) / 16));
            r.append(hex_str((c as u32) % 16));
        } else {
            let one = s.substring_char(i, i + 1);
            assert(one@ == seq![c]);
            r.append(one);
        }
        i = i + 1;
    }
    assert(s@.subrange(0, n as int) == s@);
    r.append("\"");
    r
}

/// Whether a UTF-8 byte is written as `%XX` in a URL: every byte outside ASCII,
/// the control bytes, and space, `"`, `#`, `<`, `>`, `` ` ``, `?`, `{`, `}`.
pub open spec fn url_escaped_byte(b: u8) -> bool {
    b >= 0x80 || b < 0x20 || b == 0x7f || b == 0x20 || b == 0x22 || b == 0x23 || b == 0x3c
        || b == 0x3e || b == 0x60 || b == 0x3f || b == 0x7b || b == 0x7d
}

/// The upper-case hexadecimal digit for a value below sixteen.
pub open spec fn hex_digit(d: u8) -> char {
    seq!['0', '1', '2', '3', '4', '5', '6', '7', '8', '9', 'A', 'B', 'C', 'D', 'E', 'F'][d as int]
}

/// Bytes written for a URL: each escaped byte as `%` and two upper-case hex
/// digits, every other byte as the ASCII character it is.
pub open spec fn percent_escape(bytes: Seq<u8>) -> Seq<char>
    decreases bytes.len(),
{
    if bytes.len() == 0 {
        Seq::empty()
    } else {
        let b = bytes.last();
        percent_escape(bytes.drop_last()) + if url_escaped_byte(b) {
            seq!['%', hex_digit(b / 16), hex_digit(b % 16)]
        } else {
            seq![b as char]
        }
    }
}

/// Relies on percent-encoding's `percent_encode` with rouille's
/// `DEFAULT_ENCODE_SET`: the controls and space, `"`, `#`, `<`, `>`, `` ` ``,
/// `?`, `{`, `}` are escaped, and so is every byte outside ASCII.
#[verifier::external_body]
fn percent_encode_text(input: &str) -> (r: String)
    ensures
        r@ == percent_escape(encode_utf8(input@)),
{
    rouille::percent_encoding::percent_encode(input.as_bytes(), rouille::DEFAULT_ENCODE_SET).to_string()
}

/// Escapes a text so that it can stand in a header parameter or a URL.
pub fn url_encode(input: &str) -> (r: String)
    ensures
        r@ == percent_escape(encode_utf8(input@)),
{
    percent_encode_text(input)
}

/// Relies on `Path::file_name` and `OsStr::to_str`: the last component, past
/// trailing `/` and `.`, unless it is `..` or there is none.
#[verifier::external_body]
fn file_name_of(path: &str) -> (r: Option<String>)
    ensures
        is_portable_path(path@) ==> optional_text(r) == path_file_name(path@),
{
    std::path::Path::new(path).file_name().and_then(|s| s.to_str()).map(|s| s.to_string())
}

/// What a request asks for.
#[derive(Debug, Clone, PartialEq, Eq)]
pub enum Route {
    /// `GET /`, the liveness probe.
    Hello,
    /// `GET /file/{token}`.
    GetFile(String),
    /// `POST /file`.
    PostFile,
    /// `GET /clipboard`.
    GetClipboard,
    /// `POST /clipboard`.
    PostClipboard,
    NotFound,
}

/// The index of the first `c` in `s`, or its length when there is none.
pub open spec fn first_index_of(s: Seq<char>, c: char) -> nat
    decreases s.len(),
{
    if s.len() == 0 {
        0
    } else if s[0] == c {
        0
    } else {
        1 + first_index_of(s.drop_first(), c)
    }
}

proof fn lemma_first_index_of(s: Seq<char>, c: char, k: int)
    requires
        0 <= k <= s.len(),
        forall|j: int| 0 <= j < k ==> s[j] != c,
        k == s.len() || s[k] == c,
    ensures
        first_index_of(s, c) == k,
    decreases k,
{
    if k > 0 {
        lemma_first_index_of(s.drop_first(), c, k - 1);
    }
}

/// The path of a raw URL: what comes before the query.
pub open spec fn url_path(url: Seq<char>) -> Seq<char> {
    url.subrange(0, first_index_of(url, '?') as int)
}

/// The route that a method and raw URL select.
pub open spec fn route_for(method: Seq<char>, url: Seq<char>) -> Option<RouteKind> {
    let p = url_path(url);
    if method == "GET"@ && p == "/"@ {
        Some(RouteKind::Hello)
    } else if method == "GET"@ && starts_with(p, "/file/"@) && !p.subrange(6, p.len() as int).contains('/') {
        Some(RouteKind::GetFile)
    } else if method == "POST"@ && p == "/file"@ {
        Some(RouteKind::PostFile)
    } else if method == "GET"@ && p == "/clipboard"@ {
        Some(RouteKind::GetClipboard)
    } else if method == "POST"@ && p == "/clipboard"@ {
        Some(RouteKind::PostClipboard)
    } else {
        None
    }
}

/// The handler a route names, without its argument.
pub ghost enum RouteKind {
    Hello,
    GetFile,
    PostFile,
    GetClipboard,
    PostClipboard,
}

/// Whether `r` is the route for a method and raw URL.
pub open spec fn is_route_for(r: Route, method: Seq<char>, url: Seq<char>) -> bool {
    match route_for(method, url) {
        Some(RouteKind::Hello) => r == Route::Hello,
        Some(RouteKind::GetFile) => r matches Route::GetFile(t) && t@ == url_path(url).subrange(
            6,
            url_path(url).len() as int,
        ),
        Some(RouteKind::PostFile) => r == Route::PostFile,
        Some(RouteKind::GetClipboard) => r == Route::GetClipboard,
        Some(RouteKind::PostClipboard) => r == Route::PostClipboard,
        None => r == Route::NotFound,
    }
}

fn path_of_url(url: &str) -> (r: &str)
    ensures
        r@ == url_path(url@),
{
    let n = url.unicode_len();
    let mut i: usize = 0;
    while i < n && url.get_char(i) != '?'
        invariant
            n == url@.len(),
            i <= n,
            forall|j: int| 0 <= j < i ==> url@[j] != '?',
        decreases n - i,
    {
        i = i + 1;
    }
    proof {
        lemma_first_index_of(url@, '?', i as int);
    }
    url.substring_char(0, i)
}

fn contains_slash(s: &str) -> (r: bool)
    ensures
        r == s@.contains('/'),
{
    let n = s.unicode_len();
    let mut i: usize = 0;
    while i < n
        invariant
            n == s@.len(),
            i <= n,
            forall|j: int| 0 <= j < i ==> s@[j] != '/',
        decreases n - i,
    {
        if s.get_char(i) == '/' {
            return true;
        }
        i = i + 1;
    }
    false
}

/// Selects the handler for a request from its method and raw URL; the query is
/// ignored, and a download token is one whole path segment, taken as it stands.
pub fn route(method: &str, url: &str) -> (r: Route)
    ensures
        is_route_for(r, method@, url@),
{
    let p = path_of_url(url);
    let get = same_text(method, "GET");
    let post = same_text(method, "POST");
    if get && same_text(p, "/") {
        return Route::Hello;
    }
    if get && has_prefix(p, "/file/") {
        proof {
            reveal_strlit("/file/");
        }
        let token = p.substring_char(6, p.unicode_len());
        if !contains_slash(token) {
            return Route::GetFile(String::from_str(token));
        }
    }
    if post && same_text(p, "/file") {
        return Route::PostFile;
    }
    if get && same_text(p, "/clipboard") {
        return Route::GetClipboard;
    }
    if post && same_text(p, "/clipboard") {
        return Route::PostClipboard;
    }
    Route::NotFound
}

/// An HTTP reply: status code, media type and body.
#[derive(Debug, Clone)]
pub struct Reply {
    pub status: u16,
    pub content_type: String,
    pub body: String,
}

/// The body of every successful reply that carries no data.
pub open spec fn success_text() -> Seq<char> {
    "{\"success\": true}"@
}

/// The error envelope for a failure reason: the reason, with a full stop,
/// as the JSON string of the `msg` field.
pub open spec fn failure_text(reason: Seq<char>) -> Seq<char> {
    "{\"success\": false, \"msg\": "@ + json_string(reason + "."@) + "}"@
}

/// `{"success": true}`.
pub fn success_body() -> (r: String)
    ensures
        r@ == success_text(),
{
    String::from_str("{\"success\": true}")
}

/// `{"success": false, "msg": "<reason>."}`.
pub fn failure_body(reason: &str) -> (r: String)
    ensures
        r@ == failure_text(reason@),
{
    let mut msg = String::from_str(reason);
    msg.append(".");
    let mut r = String::from_str("{\"success\": false, \"msg\": ");
    let q = json_quoted(msg.as_str());
    r.append(q.as_str());
    r.append("}");
    r
}

/// The texts joined with commas.
pub open spec fn comma_joined(items: Seq<Seq<char>>) -> Seq<char>
    decreases items.len(),
{
    if items.len() == 0 {
        Seq::empty()
    } else if items.len() == 1 {
        items[0]
    } else {
        comma_joined(items.drop_last()) + ","@ + items.last()
    }
}

/// The JSON array of the quoted tokens of some paths.
pub open spec fn token_array(paths: Seq<Seq<char>>) -> Seq<char> {
    "["@ + comma_joined(paths.map_values(|p: Seq<char>| json_string(path_token(p)))) + "]"@
}

/// The reply body for a clipboard payload of the given type and data.
pub open spec fn clipboard_text(kind: Seq<char>, data: Seq<char>) -> Seq<char> {
    "{\"success\": true, \"data\": {\"type\": \""@ + kind + "\", \"data\": "@ + data + "}}"@
}

/// The reply body for a payload: a PNG as its standard base64 text, a file
/// list as an array of path tokens, text as it stands; each a JSON string.
pub open spec fn payload_text(p: ClipboardPayload) -> Seq<char> {
    match p {
        ClipboardPayload::Image(png) => clipboard_text("img"@, json_string(standard_base64(png@))),
        ClipboardPayload::FileList(paths) => clipboard_text("file"@, token_array(texts(paths@))),
        ClipboardPayload::Text(t) => clipboard_text("text"@, json_string(t@)),
    }
}

fn token_list(paths: &Vec<String>) -> (r: String)
    ensures
        r@ == token_array(texts(paths@)),
{
    let ghost quoted_tokens = texts(paths@).map_values(|p: Seq<char>| json_string(path_token(p)));
    let mut r = String::from_str("[");
    let mut i: usize = 0;
    while i < paths.len()
        invariant
            i <= paths@.len(),
            quoted_tokens == texts(paths@).map_values(|p: Seq<char>| json_string(path_token(p))),
            r@ == "["@ + comma_joined(quoted_tokens.subrange(0, i as int)),
        decreases paths@.len() - i,
    {
        let token = base64_encode(paths[i].as_str());
        let token = match token {
            Ok(t) => t,
            Err(_) => String::new(),
        };
        let q = json_quoted(token.as_str());
        proof {
            assert(quoted_tokens.subrange(0, i + 1).drop_last() == quoted_tokens.subrange(0, i as int));
            assert(quoted_tokens[i as int] == q@);
        }
        if i > 0 {
            r.append(",");
        }
        r.append(q.as_str());
        proof {
            let prefix = quoted_tokens.subrange(0, i + 1);
            if i == 0 {
                assert(comma_joined(prefix) == q@);
                assert(r@ == "["@ + q@);
            }
        }
        i = i + 1;
    }
    r.append("]");
    assert(quoted_tokens.subrange(0, paths@.len() as int) == quoted_tokens);
    r
}

/// The reply body for a clipboard payload.
pub fn payload_body(payload: &ClipboardPayload) -> (r: String)
    ensures
        r@ == payload_text(*payload),
{
    let (kind, data) = match payload {
        ClipboardPayload::Image(png) => {
            let b = standard_encode(png.as_slice());
            ("img", json_quoted(b.as_str()))
        },
        ClipboardPayload::FileList(paths) => ("file", token_list(paths)),
        ClipboardPayload::Text(t) => ("text", json_quoted(t.as_str())),
    };
    let mut r = String::from_str("{\"success\": true, \"data\": {\"type\": \"");
    r.append(kind);
    r.append("\", \"data\": ");
    r.append(data.as_str());
    r.append("}}");
    r
}

/// Why a request failed. Each carries the reason the user is shown.
#[derive(Debug, Clone)]
pub enum ServerError {
    /// The download token names no path.
    BadToken,
    /// The decoded path has no final file name.
    NoFileName(String),
    /// The file at the path could not be opened.
    OpenFailed(String),
    /// The upload body is not a multipart form.
    Multipart,
    /// No free name could be formed in the upload directory.
    NoUniquePath(String),
    /// An uploaded part could not be read.
    ReadUpload,
    /// The target file could not be created.
    CreateFailed(String),
    /// The target file could not be written.
    WriteFailed(String),
    /// The system clipboard could not be opened.
    ClipboardUnavailable,
    /// The clipboard held nothing that could be served.
    Clipboard(ClipboardError),
    /// The form has no `clipboard` field.
    FormInput,
    /// The clipboard refused the new text.
    SetClipboard,
}

/// The reason shown for a failure.
pub open spec fn error_text(e: ServerError) -> Seq<char> {
    match e {
        ServerError::BadToken => "Failed to decode the URL path"@,
        ServerError::NoFileName(p) => "Failed to extract filename from path: "@ + debug_quoted(p@),
        ServerError::OpenFailed(p) => "Failed to open the file at path: "@ + debug_quoted(p@),
        ServerError::Multipart => "Failed to parse multipart input"@,
        ServerError::NoUniquePath(d) => "Failed to create unique filepath in directory: "@
            + debug_quoted(d@),
        ServerError::ReadUpload => "Failed to read the uploaded file content"@,
        ServerError::CreateFailed(p) => "Failed to create a new file at: "@ + debug_quoted(p@),
        ServerError::WriteFailed(p) => "Failed to write data to file: "@ + debug_quoted(p@),
        ServerError::ClipboardUnavailable => "Failed to initialize clipboard"@,
        ServerError::Clipboard(c) => clipboard_error_text(c),
        ServerError::FormInput => "Failed to parse POST input"@,
        ServerError::SetClipboard => "Failed to set clipboard contents"@,
    }
}

fn labelled(label: &str, value: &String) -> (r: String)
    ensures
        r@ == label@ + debug_quoted(value@),
{
    let mut r = String::from_str(label);
    let q = quoted(value.as_str());
    r.append(q.as_str());
    r
}

impl ServerError {
    /// The reason shown to the user.
    pub fn message(&self) -> (r: String)
        ensures
            r@ == error_text(*self),
    {
        match self {
            ServerError::BadToken => String::from_str("Failed to decode the URL path"),
            ServerError::NoFileName(p) => labelled("Failed to extract filename from path: ", p),
            ServerError::OpenFailed(p) => labelled("Failed to open the file at path: ", p),
            ServerError::Multipart => String::from_str("Failed to parse multipart input"),
            ServerError::NoUniquePath(d) => labelled(
                "Failed to create unique filepath in directory: ",
                d,
            ),
            ServerError::ReadUpload => String::from_str("Failed to read the uploaded file content"),
            ServerError::CreateFailed(p) => labelled("Failed to create a new file at: ", p),
            ServerError::WriteFailed(p) => labelled("Failed to write data to file: ", p),
            ServerError::ClipboardUnavailable => String::from_str("Failed to initialize clipboard"),
            ServerError::Clipboard(c) => c.message(),
            ServerError::FormInput => String::from_str("Failed to parse POST input"),
            ServerError::SetClipboard => String::from_str("Failed to set clipboard contents"),
        }
    }
}

/// The reply for a failed request: status 500 and the error envelope.
pub fn failure_reply(err: &ServerError) -> (r: Reply)
    ensures
        r.status == 500,
        r.content_type@ == "application/json"@,
        r.body@ == failure_text(error_text(*err)),
{
    let reason = err.message();
    Reply {
        status: 500,
        content_type: String::from_str("application/json"),
        body: failure_body(reason.as_str()),
    }
}

/// The reply for a request that succeeded with no data: status 200.
pub fn success_reply() -> (r: Reply)
    ensures
        r.status == 200,
        r.content_type@ == "application/json"@,
        r.body@ == success_text(),
{
    Reply { status: 200, content_type: String::from_str("application/json"), body: success_body() }
}

/// The reply to the liveness probe: status 200, a plain-text greeting.
pub fn hello_reply() -> (r: Reply)
    ensures
        r.status == 200,
        r.content_type@ == "text/plain; charset=utf-8"@,
        r.body@ == "Hello World!"@,
{
    Reply {
        status: 200,
        content_type: String::from_str("text/plain; charset=utf-8"),
        body: String::from_str("Hello World!"),
    }
}

/// The reply to a request that no route takes: status 404, no body.
pub fn not_found_reply() -> (r: Reply)
    ensures
        r.status == 404,
        r.body@.len() == 0,
{
    Reply { status: 404, content_type: String::from_str("text/plain"), body: String::new() }
}

/// The reply to a clipboard read: status 200 and the payload, or the error
/// envelope with status 500.
pub fn clipboard_reply(read: &Result<ClipboardPayload, ClipboardError>) -> (r: Reply)
    ensures
        *read matches Ok(p) ==> r.status == 200 && r.body@ == payload_text(p),
        *read matches Err(e) ==> r.status == 500 && r.body@ == failure_text(clipboard_error_text(e)),
        r.content_type@ == "application/json"@,
{
    match read {
        Ok(p) => Reply {
            status: 200,
            content_type: String::from_str("application/json"),
            body: payload_body(p),
        },
        Err(e) => failure_reply(&ServerError::Clipboard(*e)),
    }
}

/// The media type of a file: the first guess for its extension, or
/// `application/octet-stream` for a file without one.
pub open spec fn content_type_text(extension: Option<Seq<char>>) -> Seq<char> {
    match extension {
        Some(e) => mime_for_extension(e),
        None => "application/octet-stream"@,
    }
}

/// `attachment; filename*=UTF-8''` and the escaped file name.
pub open spec fn disposition_text(file_name: Seq<char>) -> Seq<char> {
    "attachment; filename*=UTF-8''"@ + percent_escape(encode_utf8(file_name))
}

/// The media type for a file with the given extension.
pub fn content_type_for(extension: Option<&str>) -> (r: String)
    ensures
        r@ == content_type_text(match extension {
            Some(e) => Some(e@),
            None => None,
        }),
{
    match extension {
        Some(e) => guess_mime(e),
        None => String::from_str("application/octet-stream"),
    }
}

/// The `Content-Disposition` header that makes a client save the body under
/// the file's own name.
pub fn content_disposition(file_name: &str) -> (r: String)
    ensures
        r@ == disposition_text(file_name@),
{
    let mut r = String::from_str("attachment; filename*=UTF-8''");
    let escaped = url_encode(file_name);
    r.append(escaped.as_str());
    r
}

/// What serving a download takes: the file's path and the reply headers.
#[derive(Debug, Clone)]
pub struct Download {
    pub path: String,
    pub file_name: String,
    pub content_type: String,
    pub content_disposition: String,
}

/// Works out a download from its token. A token that names no path is
/// `BadToken`; a path without a file name (`/`, `a/..`) is `NoFileName`. Any
/// other path is served under its file name, typed by that name's extension.
pub fn plan_download(token: &str) -> (r: Result<Download, ServerError>)
    ensures
        forall|p: Seq<char>| #[trigger] path_token(p) == token@ ==> (r is Ok ==> r->Ok_0.path@ == p),
        r is Ok ==> path_token(r->Ok_0.path@) == token@,
        r is Ok ==> r->Ok_0.content_disposition@ == disposition_text(r->Ok_0.file_name@),
        r is Ok ==> exists|e: Option<Seq<char>>| r->Ok_0.content_type@ == #[trigger] content_type_text(e),
        forall|p: Seq<char>| #[trigger] path_token(p) == token@ && is_portable_path(p) ==> match path_file_name(p) {
            None => (r matches Err(ServerError::NoFileName(q)) && q@ == p),
            Some(n) => r is Ok && r->Ok_0.file_name@ == n && r->Ok_0.content_type@ == content_type_text(
                name_extension(n),
            ),
        },
        (r matches Err(ServerError::BadToken)) <==> !exists|p: Seq<char>| #[trigger] path_token(p) == token@,
        r matches Err(e) ==> (e matches ServerError::BadToken || (e matches ServerError::NoFileName(q)
            && path_token(q@) == token@)),
{
    let path = match base64_decode(token) {
        Ok(p) => p,
        Err(_) => return Err(ServerError::BadToken),
    };
    let file_name = match file_name_of(path.as_str()) {
        Some(n) => n,
        None => return Err(ServerError::NoFileName(path)),
    };
    let extension = extension_of(path.as_str());
    let content_type = match &extension {
        Some(e) => content_type_for(Some(e.as_str())),
        None => content_type_for(None),
    };
    let content_disposition = content_disposition(file_name.as_str());
    Ok(Download { path, file_name, content_type, content_disposition })
}

/// The notice shown on the host after a download was served.
pub fn served_file_notice(path: &str) -> (r: String)
    ensures
        r@ == "Successfully served file from path: "@ + debug_quoted(path@),
{
    let mut r = String::from_str("Successfully served file from path: ");
    let q = quoted(path);
    r.append(q.as_str());
    r
}

/// The notice shown on the host after an upload was stored, naming the file
/// as sent and where it now is.
pub fn upload_notice(original_name: &str, destination: &str) -> (r: String)
    ensures
        r@ == "Successfully uploaded file '"@ + debug_quoted(original_name@) + "' to path: "@
            + debug_quoted(destination@),
{
    let mut r = String::from_str("Successfully uploaded file '");
    let name = quoted(original_name);
    r.append(name.as_str());
    r.append("' to path: ");
    let dest = quoted(destination);
    r.append(dest.as_str());
    r
}

/// The notice shown on the host after the clipboard was served.
pub open spec fn clipboard_notice_text(p: ClipboardPayload) -> Seq<char> {
    match p {
        ClipboardPayload::Image(_) => "Successfully served clipboard content as an image"@,
        ClipboardPayload::FileList(paths) => "Successfully served clipboard content as a file list with "@
            + decimal(paths@.len()) + " items"@,
        ClipboardPayload::Text(t) => "Successfully served clipboard content as text: "@ + debug_quoted(
            t@,
        ),
    }
}

/// The notice shown on the host after the clipboard was served.
pub fn clipboard_notice(payload: &ClipboardPayload) -> (r: String)
    ensures
        r@ == clipboard_notice_text(*payload),
{
    match payload {
        ClipboardPayload::Image(_) => String::from_str("Successfully served clipboard content as an image"),
        ClipboardPayload::FileList(paths) => {
            let mut r = String::from_str("Successfully served clipboard content as a file list with ");
            let count = decimal_string(paths.len() as u64);
            r.append(count.as_str());
            r.append(" items");
            r
        },
        ClipboardPayload::Text(t) => {
            let mut r = String::from_str("Successfully served clipboard content as text: ");
            let q = quoted(t.as_str());
            r.append(q.as_str());
            r
        },
    }
}

/// The notice shown on the host after the clipboard was set.
pub fn clipboard_set_notice(text: &str) -> (r: String)
    ensures
        r@ == "Successfully set clipboard content with text: "@ + debug_quoted(text@),
{
    let mut r = String::from_str("Successfully set clipboard content with text: ");
    let q = quoted(text);
    r.append(q.as_str());
    r
}

} // verus!
