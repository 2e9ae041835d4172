//! Plain-text path helpers: trimming clipboard paths and naming upload targets.

use vstd::prelude::*;

verus! {

/// Characters that clipboard sources leave at the end of a path.
pub open spec fn is_trailing_junk(c: char) -> bool {
    c == '\r' || c == '\n' || c == ' '
}

/// `s` with every trailing carriage return, line feed and space removed.
pub open spec fn trim_trailing(s: Seq<char>) -> Seq<char>
    decreases s.len(),
{
    if s.len() > 0 && is_trailing_junk(s.last()) {
        trim_trailing(s.drop_last())
    } else {
        s
    }
}

/// Removes trailing carriage returns, line feeds and spaces from a path.
pub fn clean_path_string(path: &str) -> (r: &str)
    ensures
        r@ == trim_trailing(path@),
        r@ == path@.subrange(0, r@.len() as int),
        forall|i: int| r@.len() <= i < path@.len() ==> is_trailing_junk(#[trigger] path@[i]),
        r@.len() == 0 || !is_trailing_junk(r@.last()),
{
    let n = path.unicode_len();
    let mut end: usize = n;
    let mut done = false;
    assert(path@.subrange(0, n as int) == path@);
    while end > 0 && !done
        invariant
            end <= n,
            n == path@.len(),
            trim_trailing(path@.subrange(0, end as int)) == trim_trailing(path@),
            forall|i: int| end <= i < path@.len() ==> is_trailing_junk(#[trigger] path@[i]),
            done ==> end > 0 && !is_trailing_junk(path@[end - 1]),
        decreases end + (if done { 0int } else { 1int }),
    {
        let c = path.get_char(end - 1);
        if c == '\r' || c == '\n' || c == ' ' {
            proof {
                let s = path@.subrange(0, end as int);
                assert(s.drop_last() == path@.subrange(0, end - 1));
            }
            end = end - 1;
        } else {
            done = true;
        }
    }
    let r = path.substring_char(0, end);
    proof {
        let s = path@.subrange(0, end as int);
        if end > 0 {
            assert(s.last() == path@[end - 1]);
        }
        assert(trim_trailing(s) == s);
    }
    r
}

/// The text of one decimal digit.
pub open spec fn digit_text(d: nat) -> Seq<char> {
    if d == 0 { "0"@ }
    else if d == 1 { "1"@ }
    else if d == 2 { "2"@ }
    else if d == 3 { "3"@ }
    else if d == 4 { "4"@ }
    else if d == 5 { "5"@ }
    else if d == 6 { "6"@ }
    else if d == 7 { "7"@ }
    else if d == 8 { "8"@ }
    else { "9"@ }
}

/// The decimal text of a natural number, without leading zeros.
pub open spec fn decimal(n: nat) -> Seq<char>
    decreases n,
{
    if n < 10 {
        digit_text(n)
    } else {
        decimal(n / 10) + digit_text(n % 10)
    }
}

/// The name of the `n`-th numbered sibling of a file: `stem(n).extension`.
pub open spec fn numbered_name(stem: Seq<char>, extension: Seq<char>, n: nat) -> Seq<char> {
    stem + "("@ + decimal(n) + ")."@ + extension
}

proof fn lemma_digit_text(d: nat)
    requires
        d < 10,
    ensures
        digit_text(d).len() == 1,
        forall|e: nat| e < 10 && digit_text(e) == digit_text(d) ==> e == d,
{
    reveal_strlit("0");
    reveal_strlit("1");
    reveal_strlit("2");
    reveal_strlit("3");
    reveal_strlit("4");
    reveal_strlit("5");
    reveal_strlit("6");
    reveal_strlit("7");
    reveal_strlit("8");
    reveal_strlit("9");
    assert forall|e: nat| e < 10 && digit_text(e) == digit_text(d) implies e == d by {
        assert(digit_text(e)[0] == digit_text(d)[0]);
    }
}

proof fn lemma_decimal_len(n: nat)
    ensures
        decimal(n).len() >= 1,
        n >= 10 ==> decimal(n).len() >= 2,
    decreases n,
{
    if n < 10 {
        lemma_digit_text(n);
    } else {
        lemma_decimal_len(n / 10);
        lemma_digit_text(n % 10);
    }
}

/// Different numbers have different decimal texts.
pub proof fn lemma_decimal_injective(n: nat, m: nat)
    requires
        decimal(n) == decimal(m),
    ensures
        n == m,
    decreases n,
{
    lemma_decimal_len(n);
    lemma_decimal_len(m);
    if n < 10 && m < 10 {
        lemma_digit_text(n);
    } else if n >= 10 && m >= 10 {
        let a = decimal(n / 10);
        let b = decimal(m / 10);
        lemma_digit_text(n % 10);
        lemma_digit_text(m % 10);
        assert(decimal(n).drop_last() == a);
        assert(decimal(m).drop_last() == b);
        assert(decimal(n).subrange(a.len() as int, decimal(n).len() as int) == digit_text(n % 10));
        assert(decimal(m).subrange(b.len() as int, decimal(m).len() as int) == digit_text(m % 10));
        lemma_decimal_injective(n / 10, m / 10);
    } else {
        lemma_digit_text(if n < 10 { n } else { m });
    }
}

/// Probing never offers the same numbered name twice: the names for two
/// different retry numbers differ.
pub proof fn lemma_numbered_names_distinct(stem: Seq<char>, extension: Seq<char>, n: nat, m: nat)
    requires
        n != m,
    ensures
        numbered_name(stem, extension, n) != numbered_name(stem, extension, m),
{
    reveal_strlit("(");
    reveal_strlit(").");
    let head = stem + "("@;
    let x = numbered_name(stem, extension, n);
    let y = numbered_name(stem, extension, m);
    if x == y {
        let dn = decimal(n);
        let dm = decimal(m);
        assert(x.len() == head.len() + dn.len() + 2 + extension.len());
        assert(y.len() == head.len() + dm.len() + 2 + extension.len());
        assert(x.subrange(head.len() as int, (head.len() + dn.len()) as int) == dn);
        assert(y.subrange(head.len() as int, (head.len() + dm.len()) as int) == dm);
        lemma_decimal_injective(n, m);
    }
}

fn digit_str(d: u64) -> (r: &'static str)
    requires
        d < 10,
    ensures
        r@ == digit_text(d as nat),
{
    if d == 0 { "0" }
    else if d == 1 { "1" }
    else if d == 2 { "2" }
    else if d == 3 { "3" }
    else if d == 4 { "4" }
    else if d == 5 { "5" }
    else if d == 6 { "6" }
    else if d == 7 { "7" }
    else if d == 8 { "8" }
    else { "9" }
}

/// The decimal text of `n`.
pub fn decimal_string(n: u64) -> (r: String)
    ensures
        r@ == decimal(n as nat),
    decreases n,
{
    if n < 10 {
        String::from_str(digit_str(n))
    } else {
        let mut s = decimal_string(n / 10);
        s.append(digit_str(n % 10));
        s
    }
}

/// Builds `stem(n).extension`, the name probed on the `n`-th retry.
pub fn numbered_file_name(stem: &str, extension: &str, n: u64) -> (r: String)
    ensures
        r@ == numbered_name(stem@, extension@, n as nat),
{
    let mut r = String::from_str(stem);
    r.append("(");
    let digits = decimal_string(n);
    r.append(digits.as_str());
    r.append(").");
    r.append(extension);
    r
}

/// Why no upload name could be formed.
#[derive(Debug, Clone, Copy, PartialEq, Eq, Structural)]
pub enum NamerError {
    /// The desired name has no stem to number.
    InvalidFileName,
}

/// The index of the last `c` in `s`, or -1 when there is none.
pub open spec fn last_index_of(s: Seq<char>, c: char) -> int
    decreases s.len(),
{
    if s.len() == 0 {
        -1
    } else if s.last() == c {
        s.len() - 1
    } else {
        last_index_of(s.drop_last(), c)
    }
}

/// The last component of a path: what follows its last `/`.
pub open spec fn last_segment(p: Seq<char>) -> Seq<char> {
    p.subrange(last_index_of(p, '/') + 1, p.len() as int)
}

/// A path that every platform splits alike: no `\\`, which separates
/// components on Windows alone, no drive (`C:`) and no leading `//`, which open
/// a Windows prefix. A `:` further on is an ordinary character everywhere.
pub open spec fn is_portable_path(p: Seq<char>) -> bool {
    &&& !p.contains('\\')
    &&& !(p.len() >= 2 && p[1] == ':')
    &&& !(p.len() >= 2 && p[0] == '/' && p[1] == '/')
}

/// The file name of a path: its last component once trailing `/` and `.`
/// components are passed over, and none where that is `..` or nothing is left.
pub open spec fn path_file_name(p: Seq<char>) -> Option<Seq<char>>
    decreases p.len(),
{
    if p.len() == 0 {
        None
    } else if p.last() == '/' {
        path_file_name(p.drop_last())
    } else if p.last() == '.' && (p.len() == 1 || p[p.len() - 2] == '/') {
        path_file_name(p.drop_last())
    } else if last_segment(p) == ".."@ {
        None
    } else {
        Some(last_segment(p))
    }
}

/// The views of an optional string.
pub open spec fn optional_text(o: Option<String>) -> Option<Seq<char>> {
    match o {
        Some(s) => Some(s@),
        None => None,
    }
}

/// The stem of a file name: the text before its last dot, or the whole name
/// when it has no dot or its only dot comes first.
pub open spec fn name_stem(name: Seq<char>) -> Seq<char> {
    let i = last_index_of(name, '.');
    if i <= 0 {
        name
    } else {
        name.subrange(0, i)
    }
}

/// The extension of a file name: the text after its last dot, where that dot
/// does not come first.
pub open spec fn name_extension(name: Seq<char>) -> Option<Seq<char>> {
    let i = last_index_of(name, '.');
    if i <= 0 {
        None
    } else {
        Some(name.subrange(i + 1, name.len() as int))
    }
}

/// The extension as numbered names carry it: empty where there is none.
pub open spec fn extension_text(name: Seq<char>) -> Seq<char> {
    match name_extension(name) {
        Some(e) => e,
        None => Seq::empty(),
    }
}

/// Relies on `Path::file_stem` and `OsStr::to_str`: the file name up to its
/// last dot, or all of it when the dot comes first or there is none.
#[verifier::external_body]
fn file_stem_of(name: &str) -> (r: Option<String>)
    ensures
        is_portable_path(name@) ==> optional_text(r) == match path_file_name(name@) {
            Some(n) => Some(name_stem(n)),
            None => None,
        },
{
    std::path::Path::new(name).file_stem().and_then(|s| s.to_str()).map(|s| s.to_string())
}

/// Relies on `Path::extension` and `OsStr::to_str`: the text of the file name
/// after its last dot, where that dot does not come first.
#[verifier::external_body]
pub(crate) fn extension_of(name: &str) -> (r: Option<String>)
    ensures
        is_portable_path(name@) ==> optional_text(r) == match path_file_name(name@) {
            Some(n) => name_extension(n),
            None => None,
        },
{
    std::path::Path::new(name).extension().and_then(|s| s.to_str()).map(|s| s.to_string())
}

/// The name to try for an upload on its `attempt`-th probe: the desired name
/// itself first, then `stem(1).ext`, `stem(2).ext`, ... A name without an
/// extension is numbered with an empty one (`notes(1).`); one without a file
/// name (`..`, `/`) has nothing to number and is `InvalidFileName`.
pub fn candidate_name(file_name: &str, attempt: u64) -> (r: Result<String, NamerError>)
    ensures
        attempt == 0 ==> r is Ok && r->Ok_0@ == file_name@,
        attempt > 0 && is_portable_path(file_name@) ==> match path_file_name(file_name@) {
            Some(n) => r is Ok && r->Ok_0@ == numbered_name(
                name_stem(n),
                extension_text(n),
                attempt as nat,
            ),
            None => r == Err::<String, NamerError>(NamerError::InvalidFileName),
        },
        attempt > 0 && r is Ok ==> exists|stem: Seq<char>, extension: Seq<char>|
            r->Ok_0@ == #[trigger] numbered_name(stem, extension, attempt as nat),
{
    if attempt == 0 {
        return Ok(String::from_str(file_name));
    }
    match file_stem_of(file_name) {
        None => Err(NamerError::InvalidFileName),
        Some(stem) => {
            let extension = match extension_of(file_name) {
                Some(e) => e,
                None => String::new(),
            };
            Ok(numbered_file_name(stem.as_str(), extension.as_str(), attempt))
        },
    }
}

} // verus!
