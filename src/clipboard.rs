//! Reading the clipboard as one of three payload shapes, in a fixed priority.

use crate::codec::{standard_base64, standard_encode};
use crate::text::{has_prefix, starts_with};
use crate::paths::{clean_path_string, trim_trailing};
use std::io::Cursor;
use vstd::prelude::*;

verus! {

/// How paths taken from `file:` links are written on the host platform.
#[derive(Debug, Clone, Copy, PartialEq, Eq, Structural)]
pub enum PathStyle {
    /// Native paths start at `/`, so `file:///a` names `/a`.
    Posix,
    /// Native paths start at a drive letter, so `file:///C:/a` names `C:/a`.
    Windows,
}

/// A bitmap as the clipboard holds it: rows of RGBA pixels, four bytes each.
#[derive(Debug, Clone)]
pub struct RawImage {
    pub width: u32,
    pub height: u32,
    pub rgba: Vec<u8>,
}

/// What a clipboard read hands out.
#[derive(Debug, Clone)]
pub enum ClipboardPayload {
    Text(String),
    /// A PNG file.
    Image(Vec<u8>),
    FileList(Vec<String>),
}

/// Why the clipboard could not be read as a payload.
#[derive(Debug, Clone, Copy, PartialEq, Eq, Structural)]
pub enum ClipboardError {
    /// The bitmap could not be turned into a PNG file.
    ImageEncoding,
    /// None of the supported shapes is on the clipboard.
    Unsupported,
}

impl ClipboardError {
    /// The reason shown to the user.
    pub fn message(&self) -> (r: String)
        ensures
            r@ == clipboard_error_text(*self),
    {
        match self {
            ClipboardError::ImageEncoding => String::from_str("Failed to encode image to base64"),
            ClipboardError::Unsupported => String::from_str("Unsupported clipboard format"),
        }
    }
}

pub open spec fn clipboard_error_text(e: ClipboardError) -> Seq<char> {
    match e {
        ClipboardError::ImageEncoding => "Failed to encode image to base64"@,
        ClipboardError::Unsupported => "Unsupported clipboard format"@,
    }
}

#[verifier::external_type_specification]
#[verifier::external_body]
pub struct ExRegexError(regex::Error);

/// The PNG file that the image crate writes for an RGBA bitmap.
pub uninterp spec fn png_rgba8(width: u32, height: u32, rgba: Seq<u8>) -> Seq<u8>;

/// For each match of `pattern` in `haystack`, in order, the text of `group`
/// where that group took part in the match.
pub uninterp spec fn regex_group_captures(
    pattern: Seq<char>,
    group: Seq<char>,
    haystack: Seq<char>,
) -> Seq<Option<Seq<char>>>;

/// Whether a bitmap has pixels and its bytes cover them, four to a pixel.
pub open spec fn fits(width: u32, height: u32, rgba: Seq<u8>) -> bool {
    width > 0 && height > 0 && 4 * (width as int) * (height as int) <= rgba.len()
}

/// Relies on image's `ImageBuffer::from_raw` and `ImageBuffer::write_to` with
/// `ImageFormat::Png`: the file written depends on the bitmap alone. `from_raw`
/// takes exactly the buffers of at least four bytes a pixel, and the PNG writer
/// refuses exactly a zero width or height.
#[verifier::external_body]
fn png_encode(width: u32, height: u32, rgba: &[u8]) -> (r: Option<Vec<u8>>)
    ensures
        r is Some ==> r->0@ == png_rgba8(width, height, rgba@),
        r is Some <==> fits(width, height, rgba@),
{
    let buf = image::ImageBuffer::<image::Rgba<u8>, &[u8]>::from_raw(width, height, rgba)?;
    let mut bytes: Vec<u8> = Vec::new();
    buf.write_to(&mut Cursor::new(&mut bytes), image::ImageFormat::Png).ok()?;
    Some(bytes)
}

/// Relies on regex's `Regex::new` and `Regex::captures_iter`: the text of the
/// named group in each successive match. `Regex::new` accepts the file-link
/// pattern, which is valid regex syntax.
#[verifier::external_body]
fn regex_captures(pattern: &str, group: &str, haystack: &str) -> (r: Result<
    Vec<Option<String>>,
    regex::Error,
>)
    ensures
        r is Ok ==> optional_texts(r->Ok_0@) == regex_group_captures(pattern@, group@, haystack@),
        pattern@ == file_link_pattern() ==> r is Ok,
{
    let re = regex::Regex::new(pattern)?;
    Ok(re.captures_iter(haystack).map(|c| c.name(group).map(|m| m.as_str().to_string())).collect())
}

/// The views of a sequence of optional strings.
pub open spec fn optional_texts(v: Seq<Option<String>>) -> Seq<Option<Seq<char>>> {
    v.map_values(|o: Option<String>| match o {
        Some(s) => Some(s@),
        None => None,
    })
}

/// The views of a sequence of strings.
pub open spec fn texts(v: Seq<String>) -> Seq<Seq<char>> {
    v.map_values(|s: String| s@)
}

/// The pattern that finds `src="file:///..."` attributes in HTML; the group
/// `path` holds the link.
pub open spec fn file_link_pattern() -> Seq<char> {
    "src=\"(?P<path>file:///[^\"]+)\""@
}

/// The path that a `file:` link names: trailing line ends and spaces dropped,
/// `file://` dropped before a third slash, and on Windows that slash too.
pub open spec fn link_path(link: Seq<char>, style: PathStyle) -> Seq<char> {
    let cleaned = trim_trailing(link);
    let p = if starts_with(cleaned, "file:///"@) { cleaned.subrange(7, cleaned.len() as int) } else { cleaned };
    if style == PathStyle::Windows && p.len() > 0 && p[0] == '/' {
        p.subrange(1, p.len() as int)
    } else {
        p
    }
}

/// The paths that a sequence of captured links names, skipping absent captures.
pub open spec fn link_paths(links: Seq<Option<Seq<char>>>, style: PathStyle) -> Seq<Seq<char>>
    decreases links.len(),
{
    if links.len() == 0 {
        Seq::empty()
    } else {
        let rest = link_paths(links.drop_last(), style);
        match links.last() {
            Some(l) => rest.push(link_path(l, style)),
            None => rest,
        }
    }
}

/// The paths named by the file links of an HTML fragment, in document order.
pub open spec fn html_paths(html: Seq<char>, style: PathStyle) -> Seq<Seq<char>> {
    link_paths(regex_group_captures(file_link_pattern(), "path"@, html), style)
}

/// The paths of a native file list: those that are text, as they are, in order.
pub open spec fn listed_paths(list: Seq<Option<String>>) -> Seq<Seq<char>>
    decreases list.len(),
{
    if list.len() == 0 {
        Seq::empty()
    } else {
        let rest = listed_paths(list.drop_last());
        match list.last() {
            Some(p) => rest.push(p@),
            None => rest,
        }
    }
}

/// The paths named by the links of an HTML probe, none where there was no HTML.
pub open spec fn probed_links(html: Option<String>, style: PathStyle) -> Seq<Seq<char>> {
    match html {
        Some(h) => html_paths(h@, style),
        None => Seq::empty(),
    }
}

/// The paths of a file-list probe, none where the probe found no list.
pub open spec fn probed_paths(files: Option<Vec<Option<String>>>) -> Seq<Seq<char>> {
    match files {
        Some(list) => listed_paths(list@),
        None => Seq::empty(),
    }
}

/// The path that one `file:` link names, written in the given style.
pub fn link_to_path(link: &str, style: PathStyle) -> (r: String)
    ensures
        r@ == link_path(link@, style),
{
    let cleaned = clean_path_string(link);
    let scheme = "file:///";
    proof {
        reveal_strlit("file:///");
    }
    let p = if has_prefix(cleaned, scheme) {
        cleaned.substring_char(7, cleaned.unicode_len())
    } else {
        cleaned
    };
    if style == PathStyle::Windows && p.unicode_len() > 0 && p.get_char(0) == '/' {
        String::from_str(p.substring_char(1, p.unicode_len()))
    } else {
        String::from_str(p)
    }
}

/// The paths named by the `src="file:///..."` links of an HTML fragment, in
/// document order.
pub fn html_file_paths(html: &str, style: PathStyle) -> (r: Vec<String>)
    ensures
        texts(r@) == html_paths(html@, style),
{
    let pattern = "src=\"(?P<path>file:///[^\"]+)\"";
    assert(pattern@ == file_link_pattern());
    let links = match regex_captures(pattern, "path", html) {
        Ok(v) => v,
        Err(_) => {
            assert(false);
            Vec::new()
        },
    };
    let ghost captured = regex_group_captures(file_link_pattern(), "path"@, html@);
    assert(optional_texts(links@) == captured);
    let mut out: Vec<String> = Vec::new();
    let mut i: usize = 0;
    while i < links.len()
        invariant
            i <= links@.len(),
            optional_texts(links@) == captured,
            texts(out@) == link_paths(captured.subrange(0, i as int), style),
        decreases links@.len() - i,
    {
        proof {
            assert(captured.subrange(0, i + 1).drop_last() == captured.subrange(0, i as int));
        }
        let ghost before = out@;
        match &links[i] {
            Some(l) => {
                assert(captured[i as int] == Some(l@));
                let p = link_to_path(l.as_str(), style);
                out.push(p);
                assert(texts(out@) == texts(before).push(p@));
            },
            None => {
                assert(captured[i as int] is None);
            },
        }
        i = i + 1;
    }
    assert(captured.subrange(0, links@.len() as int) == captured);
    out
}

/// The paths of a native file list as they are, skipping entries that are not text.
pub fn file_list_paths(list: &Vec<Option<String>>) -> (r: Vec<String>)
    ensures
        texts(r@) == listed_paths(list@),
{
    let mut out: Vec<String> = Vec::new();
    let mut i: usize = 0;
    while i < list.len()
        invariant
            i <= list@.len(),
            texts(out@) == listed_paths(list@.subrange(0, i as int)),
        decreases list@.len() - i,
    {
        proof {
            assert(list@.subrange(0, i + 1).drop_last() == list@.subrange(0, i as int));
        }
        let ghost before = out@;
        match &list[i] {
            Some(p) => {
                out.push(p.clone());
                assert(texts(out@) == texts(before).push(p@));
            },
            None => {},
        }
        i = i + 1;
    }
    assert(list@.subrange(0, list@.len() as int) == list@);
    out
}

/// Encodes a bitmap as a PNG file.
pub fn encode_png(image: &RawImage) -> (r: Result<Vec<u8>, ClipboardError>)
    ensures
        r is Ok ==> r->Ok_0@ == png_rgba8(image.width, image.height, image.rgba@),
        r is Err ==> r->Err_0 == ClipboardError::ImageEncoding,
        r is Ok <==> fits(image.width, image.height, image.rgba@),
{
    match png_encode(image.width, image.height, image.rgba.as_slice()) {
        Some(png) => Ok(png),
        None => Err(ClipboardError::ImageEncoding),
    }
}

/// Encodes a bitmap as a PNG file and gives that file's standard base64 text.
pub fn encode_image_to_base64_png(image: &RawImage) -> (r: Result<String, ClipboardError>)
    ensures
        r is Ok ==> r->Ok_0@ == standard_base64(png_rgba8(image.width, image.height, image.rgba@)),
        r is Err ==> r->Err_0 == ClipboardError::ImageEncoding,
        r is Ok <==> fits(image.width, image.height, image.rgba@),
{
    let png = encode_png(image)?;
    Ok(standard_encode(png.as_slice()))
}

/// Picks the payload of a clipboard from what each probe found, in this order:
/// a bitmap (as a PNG file), a native file list with at least one text path,
/// an HTML fragment with at least one `file:` link, plain text. A bitmap that
/// cannot be encoded fails the read; it is never passed over for a later shape.
pub fn read_clipboard(
    image: Option<RawImage>,
    files: Option<Vec<Option<String>>>,
    html: Option<String>,
    text: Option<String>,
    style: PathStyle,
) -> (r: Result<ClipboardPayload, ClipboardError>)
    ensures
        image matches Some(img) ==> match r {
            Ok(p) => fits(img.width, img.height, img.rgba@) && (p matches ClipboardPayload::Image(png)
                && png@ == png_rgba8(img.width, img.height, img.rgba@)),
            Err(e) => e == ClipboardError::ImageEncoding && !fits(img.width, img.height, img.rgba@),
        },
        image matches Some(img) && fits(img.width, img.height, img.rgba@) ==> (r matches Ok(
            ClipboardPayload::Image(_),
        )),
        image is None && probed_paths(files).len() > 0 ==> (r matches Ok(
            ClipboardPayload::FileList(v),
        ) && texts(v@) == probed_paths(files)),
        image is None && probed_paths(files).len() == 0 && probed_links(html, style).len() > 0 ==> (
        r matches Ok(ClipboardPayload::FileList(v)) && texts(v@) == probed_links(html, style)),
        image is None && probed_paths(files).len() == 0 && probed_links(html, style).len() == 0
            ==> match text {
            Some(t) => r == Ok::<ClipboardPayload, ClipboardError>(ClipboardPayload::Text(t)),
            None => r == Err::<ClipboardPayload, ClipboardError>(ClipboardError::Unsupported),
        },
{
    if let Some(img) = image {
        let png = encode_png(&img)?;
        return Ok(ClipboardPayload::Image(png));
    }
    if let Some(list) = files {
        let paths = file_list_paths(&list);
        if paths.len() > 0 {
            return Ok(ClipboardPayload::FileList(paths));
        }
    }
    if let Some(h) = html {
        let paths = html_file_paths(h.as_str(), style);
        if paths.len() > 0 {
            return Ok(ClipboardPayload::FileList(paths));
        }
    }
    match text {
        Some(t) => Ok(ClipboardPayload::Text(t)),
        None => Err(ClipboardError::Unsupported),
    }
}

} // verus!
