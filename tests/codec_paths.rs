use airdrop_pro::codec::{base64_decode, base64_encode, CodecError};
use airdrop_pro::paths::{candidate_name, clean_path_string, decimal_string, numbered_file_name, NamerError};

#[test]
fn encode_gives_url_safe_token() {
    assert_eq!(base64_encode("/tmp/a.txt").unwrap(), "L3RtcC9hLnR4dA==");
    assert_eq!(base64_encode("").unwrap(), "");
}

#[test]
fn decode_round_trips_paths() {
    for p in ["/tmp/a.txt", "", "C:/Users/me/a b.txt", "/home/用户/ß ✓.txt", "a\r\n"] {
        let token = base64_encode(p).unwrap();
        assert!(!token.contains('+') && !token.contains('/'));
        assert_eq!(base64_decode(&token).unwrap(), p);
    }
}

#[test]
fn token_lengths_are_multiples_of_four() {
    for p in ["", "a", "ab", "abc", "abcd"] {
        assert_eq!(base64_encode(p).unwrap().len() % 4, 0);
    }
}

#[test]
fn decode_rejects_bad_token() {
    assert_eq!(base64_decode("not-valid-base64!!"), Err(CodecError::InvalidToken));
    assert_eq!(base64_decode("L2E"), Err(CodecError::InvalidToken));
    assert_eq!(base64_decode("L2F="), Err(CodecError::InvalidToken));
}

#[test]
fn decode_rejects_non_utf8_bytes() {
    assert_eq!(base64_decode("_w=="), Err(CodecError::InvalidUtf8));
}

#[test]
fn clean_path_trims_line_ends_and_spaces() {
    assert_eq!(clean_path_string("/tmp/a b.txt \r\n"), "/tmp/a b.txt");
    assert_eq!(clean_path_string("/tmp/a\n\r  "), "/tmp/a");
    assert_eq!(clean_path_string("\r\n "), "");
    assert_eq!(clean_path_string(""), "");
    assert_eq!(clean_path_string(" a\tb"), " a\tb");
}

#[test]
fn decimal_text() {
    assert_eq!(decimal_string(0), "0");
    assert_eq!(decimal_string(7), "7");
    assert_eq!(decimal_string(1234), "1234");
    assert_eq!(decimal_string(u64::MAX), "18446744073709551615");
}

#[test]
fn numbered_names() {
    assert_eq!(numbered_file_name("a", "txt", 1), "a(1).txt");
    assert_eq!(numbered_file_name("notes", "", 12), "notes(12).");
}

#[test]
fn unique_name_does_not_overwrite() {
    assert_eq!(candidate_name("a.txt", 0).unwrap(), "a.txt");
    assert_eq!(candidate_name("a.txt", 1).unwrap(), "a(1).txt");
    assert_eq!(candidate_name("a.txt", 2).unwrap(), "a(2).txt");
}

#[test]
fn second_upload_of_same_name_gets_numbered() {
    let first = candidate_name("report.pdf", 0).unwrap();
    let second = candidate_name("report.pdf", 1).unwrap();
    assert_eq!(first, "report.pdf");
    assert_eq!(second, "report(1).pdf");
    assert_ne!(first, second);
}

#[test]
fn candidate_names_of_unusual_files() {
    assert_eq!(candidate_name("archive.tar.gz", 3).unwrap(), "archive.tar(3).gz");
    assert_eq!(candidate_name("notes", 1).unwrap(), "notes(1).");
    assert_eq!(candidate_name(".bashrc", 1).unwrap(), ".bashrc(1).");
    assert_eq!(candidate_name("", 0).unwrap(), "");
    assert_eq!(candidate_name("", 1), Err(NamerError::InvalidFileName));
    assert_eq!(candidate_name("..", 1), Err(NamerError::InvalidFileName));
    assert_eq!(candidate_name("README", 1).unwrap(), "README(1).");
    assert_eq!(candidate_name("a.", 1).unwrap(), "a(1).");
    assert_eq!(candidate_name("sub/x.png", 4).unwrap(), "x(4).png");
    assert_eq!(candidate_name("sub/x.png/", 1).unwrap(), "x(1).png");
    assert_eq!(candidate_name("a:b.txt", 1).unwrap(), "a:b(1).txt");
    assert_eq!(candidate_name("/", 1), Err(NamerError::InvalidFileName));
    assert_eq!(candidate_name("dir/..", 1), Err(NamerError::InvalidFileName));
}
