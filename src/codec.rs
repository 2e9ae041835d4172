//! Reversible, URL-safe tokens for filesystem paths.

use base64::Engine;
use vstd::prelude::*;
use vstd::utf8::*;

verus! {

broadcast use {encode_utf8_valid_utf8, encode_utf8_decode_utf8, decode_utf8_encode_utf8};

/// Why a token could not be turned back into a path.
#[derive(Debug, Clone, Copy, PartialEq, Eq, Structural)]
pub enum CodecError {
    /// The token is not canonical URL-safe base64.
    InvalidToken,
    /// The token decodes to bytes that are not valid UTF-8.
    InvalidUtf8,
}

#[verifier::external_type_specification]
#[verifier::external_body]
pub struct ExDecodeError(base64::DecodeError);

/// The base64 character for a six-bit value: `A`-`Z`, `a`-`z`, `0`-`9`, then
/// `-` and `_` in the URL-safe alphabet or `+` and `/` in the standard one.
pub open spec fn sextet_char(v: int, url_safe: bool) -> char {
    if v < 26 {
        (65 + v) as u8 as char
    } else if v < 52 {
        (71 + v) as u8 as char
    } else if v < 62 {
        (v - 4) as u8 as char
    } else if v == 62 {
        if url_safe { '-' } else { '+' }
    } else {
        if url_safe { '_' } else { '/' }
    }
}

/// Padded base64: each three bytes become four characters, and a last group of
/// one or two bytes is filled up with `=`.
pub open spec fn base64_text(bytes: Seq<u8>, url_safe: bool) -> Seq<char>
    decreases bytes.len(),
{
    if bytes.len() == 0 {
        Seq::empty()
    } else if bytes.len() == 1 {
        let b0 = bytes[0] as int;
        seq![sextet_char(b0 / 4, url_safe), sextet_char((b0 % 4) * 16, url_safe), '=', '=']
    } else if bytes.len() == 2 {
        let b0 = bytes[0] as int;
        let b1 = bytes[1] as int;
        seq![
            sextet_char(b0 / 4, url_safe),
            sextet_char((b0 % 4) * 16 + b1 / 16, url_safe),
            sextet_char((b1 % 16) * 4, url_safe),
            '=',
        ]
    } else {
        let b0 = bytes[0] as int;
        let b1 = bytes[1] as int;
        let b2 = bytes[2] as int;
        seq![
            sextet_char(b0 / 4, url_safe),
            sextet_char((b0 % 4) * 16 + b1 / 16, url_safe),
            sextet_char((b1 % 16) * 4 + b2 / 64, url_safe),
            sextet_char(b2 % 64, url_safe),
        ] + base64_text(bytes.subrange(3, bytes.len() as int), url_safe)
    }
}

/// The padded, URL-safe base64 text of a byte sequence.
pub open spec fn url_safe_base64(bytes: Seq<u8>) -> Seq<char> {
    base64_text(bytes, true)
}

/// Base64 text has four characters for every started group of three bytes.
pub proof fn lemma_base64_len(bytes: Seq<u8>, url_safe: bool)
    ensures
        base64_text(bytes, url_safe).len() == 4 * ((bytes.len() + 2) / 3),
    decreases bytes.len(),
{
    if bytes.len() >= 3 {
        lemma_base64_len(bytes.subrange(3, bytes.len() as int), url_safe);
    }
}

/// No path has a token whose length is not a multiple of four, so such a text
/// is always refused as a bad token.
pub proof fn lemma_bad_token_length(token: Seq<char>)
    requires
        token.len() % 4 != 0,
    ensures
        forall|p: Seq<char>| #[trigger] path_token(p) != token,
{
    assert forall|p: Seq<char>| #[trigger] path_token(p) != token by {
        lemma_base64_len(encode_utf8(p), true);
    }
}

/// The token that stands for a path: the URL-safe base64 text of its UTF-8 bytes.
pub open spec fn path_token(path: Seq<char>) -> Seq<char> {
    url_safe_base64(encode_utf8(path))
}

/// Relies on base64's `URL_SAFE` engine `encode`: padded base64 in the URL-safe
/// alphabet.
#[verifier::external_body]
fn url_safe_encode(bytes: &[u8]) -> (r: String)
    ensures
        r@ == url_safe_base64(bytes@),
{
    base64::engine::general_purpose::URL_SAFE.encode(bytes)
}

/// Relies on base64's `URL_SAFE` engine `decode`. That engine requires canonical
/// padding and rejects trailing bits, so it accepts exactly the texts that its
/// `encode` produces, and gives back the bytes they were made from.
#[verifier::external_body]
fn url_safe_decode(text: &str) -> (r: Result<Vec<u8>, base64::DecodeError>)
    ensures
        r is Ok ==> url_safe_base64(r->Ok_0@) == text@,
        forall|b: Seq<u8>| #[trigger] url_safe_base64(b) == text@ ==> (r is Ok && r->Ok_0@ == b),
{
    base64::engine::general_purpose::URL_SAFE.decode(text)
}

/// Relies on `String::from_utf8`: it succeeds exactly on valid UTF-8, and the
/// string holds the characters that those bytes spell.
#[verifier::external_body]
fn string_from_utf8(bytes: Vec<u8>) -> (r: Option<String>)
    ensures
        r is Some <==> valid_utf8(bytes@),
        r is Some ==> r->0@ == decode_utf8(bytes@),
{
    String::from_utf8(bytes).ok()
}

/// The padded base64 text of a byte sequence, in the standard alphabet.
pub open spec fn standard_base64(bytes: Seq<u8>) -> Seq<char> {
    base64_text(bytes, false)
}

/// Relies on base64's `STANDARD` engine `encode`: padded base64 in the standard
/// alphabet.
#[verifier::external_body]
pub(crate) fn standard_encode(bytes: &[u8]) -> (r: String)
    ensures
        r@ == standard_base64(bytes@),
{
    base64::engine::general_purpose::STANDARD.encode(bytes)
}

/// Encodes a path as a token that can stand in a URL path segment.
pub fn base64_encode(input: &str) -> (r: Result<String, CodecError>)
    ensures
        r is Ok,
        r->Ok_0@ == path_token(input@),
{
    Ok(url_safe_encode(input.as_bytes()))
}

/// Turns a token back into the path it stands for.
///
/// Decoding the token of any path gives back that very path; a text that is not
/// the base64 of any bytes is `InvalidToken`, and the base64 of bytes that are not
/// UTF-8 is `InvalidUtf8`.
pub fn base64_decode(input: &str) -> (r: Result<String, CodecError>)
    ensures
        forall|p: Seq<char>| #[trigger] path_token(p) == input@ ==> (r is Ok && r->Ok_0@ == p),
        r is Ok ==> path_token(r->Ok_0@) == input@,
        r == Err::<String, CodecError>(CodecError::InvalidToken) <==> !exists|b: Seq<u8>|
            #[trigger] url_safe_base64(b) == input@,
        r == Err::<String, CodecError>(CodecError::InvalidUtf8) <==> exists|b: Seq<u8>|
            #[trigger] url_safe_base64(b) == input@ && !valid_utf8(b),
{
    let decoded = url_safe_decode(input);
    match decoded {
        Err(_) => Err(CodecError::InvalidToken),
        Ok(bytes) => {
            let ghost b = bytes@;
            match string_from_utf8(bytes) {
                None => {
                    proof {
                        assert forall|p: Seq<char>| #[trigger] path_token(p) == input@ implies false by {
                            assert(url_safe_base64(encode_utf8(p)) == input@);
                        }
                    }
                    Err(CodecError::InvalidUtf8)
                },
                Some(s) => {
                    proof {
                        assert(encode_utf8(decode_utf8(b)) == b);
                        assert forall|p: Seq<char>| #[trigger] path_token(p) == input@ implies s@ == p by {
                            assert(url_safe_base64(encode_utf8(p)) == input@);
                            assert(encode_utf8(p) == b);
                            assert(decode_utf8(encode_utf8(p)) == p);
                        }
                        assert forall|c: Seq<u8>| #[trigger] url_safe_base64(c) == input@ implies valid_utf8(c) by {
                            assert(c == b);
                        }
                    }
                    Ok(s)
                },
            }
        },
    }
}

} // verus!
