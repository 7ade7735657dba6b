//! The failures of acquisition and bisection.

use vstd::prelude::*;
use vstd::string::*;
use crate::version::{Version, VersionError};

verus! {

/// Everything that can stop the acquisition of an Electron build.
///
/// Payloads are plain text: the program around the library describes the
/// network, filesystem or archive failure it met.
#[derive(Debug)]
pub enum ElectronError {
    /// The network transfer failed.
    HttpError(String),
    /// A filesystem operation failed: what was being done, and why it failed.
    IoError(String, String),
    /// Copying a tree of files failed.
    FsExtraError(String),
    /// The path of the running program could not be found.
    CurrentExeFailure(String),
    /// A package manifest was not valid JSON: where it came from, the text
    /// around the fault, and the fault's offset in that text.
    BadJson { url: String, snippet: String, err_loc: usize },
    /// A downloaded archive could not be read or extracted.
    ZipError(String),
    /// The release catalog answered with an error other than a rate limit.
    GitHubApiError(String),
    /// The release catalog refused further requests for now.
    GitHubApiLimit(String),
    /// The release has no asset named `target`.
    MissingElectronFiles { version: Version, target: String },
    /// No release in the catalog satisfies the range shown.
    MatchingVersionNotFound(String),
    /// The host's CPU architecture has no Electron build.
    UnsupportedArch(String),
    /// The host's operating system has no Electron build.
    UnsupportedPlatform(String),
    /// No per-user directory could be found for the cache.
    NoProjectDir,
    /// A version or range text could not be parsed.
    SemverError(VersionError),
    /// The launched Electron process exited with a failure.
    ElectronFailed,
}

/// The line (from 0) of character position `p` of a text.
pub open spec fn line_at(s: Seq<char>, p: int) -> int
    decreases p,
{
    if p <= 0 || p > s.len() {
        0
    } else {
        line_at(s, p - 1) + if s[p - 1] == '\n' { 1int } else { 0int }
    }
}

/// The first character position from `p` on that lies on line `line`
/// (counted from 1) or later, or the end of the text.
pub open spec fn line_start_from(s: Seq<char>, p: int, line: int) -> int
    decreases s.len() - p,
{
    if p >= s.len() || line_at(s, p) + 1 >= line {
        p
    } else {
        line_start_from(s, p + 1, line)
    }
}

/// The number of bytes of a character in UTF-8.
pub open spec fn utf8_len(c: char) -> int {
    if (c as u32) < 0x80 { 1 } else if (c as u32) < 0x800 { 2 } else if (c as u32) < 0x10000 { 3 } else { 4 }
}

/// The byte offset of character position `p` in the UTF-8 encoding of `s`.
pub open spec fn byte_pos(s: Seq<char>, p: int) -> int
    decreases p,
{
    if p <= 0 || p > s.len() {
        0
    } else {
        byte_pos(s, p - 1) + utf8_len(s[p - 1])
    }
}

/// The byte offset of the fault that a JSON parser reports at `line` (from
/// 1) and `column` (the fault's byte, from 1, within its line), at most the
/// text's length in bytes.
pub open spec fn fault_offset(s: Seq<char>, line: int, column: int) -> int {
    let off = byte_pos(s, line_start_from(s, 0, line)) + if column >= 1 { column - 1 } else { 0 };
    if off <= byte_pos(s, s.len() as int) { off } else { byte_pos(s, s.len() as int) }
}

/// The first character position from `p` on whose byte offset is at least `b`.
pub open spec fn first_at_least(s: Seq<char>, p: int, b: int) -> int
    decreases s.len() - p,
{
    if p >= s.len() || byte_pos(s, p) >= b {
        p
    } else {
        first_at_least(s, p + 1, b)
    }
}

/// From `p` on, the first character position whose character would end past
/// byte `b`, or the end of the text.
pub open spec fn last_within(s: Seq<char>, p: int, b: int) -> int
    decreases s.len() - p,
{
    if p >= s.len() || byte_pos(s, p + 1) > b {
        p
    } else {
        last_within(s, p + 1, b)
    }
}

/// How many bytes of context a JSON fault is shown with on each side.
pub const JSON_CONTEXT: u128 = 40;

fn utf8_len_of(c: char) -> (r: u128)
    ensures
        r == utf8_len(c),
        1 <= r <= 4,
{
    let v = c as u32;
    if v < 0x80 { 1 } else if v < 0x800 { 2 } else if v < 0x10000 { 3 } else { 4 }
}

/// The length in bytes of a text's UTF-8 encoding.
fn byte_length(text: &str) -> (r: u128)
    ensures
        r == byte_pos(text@, text@.len() as int),
        r <= 4 * text@.len(),
{
    let n = text.unicode_len();
    let mut p: usize = 0;
    let mut bp: u128 = 0;
    while p < n
        invariant
            n == text@.len(),
            p <= n,
            bp == byte_pos(text@, p as int),
            bp <= 4 * p,
        decreases n - p,
    {
        bp = bp + utf8_len_of(text.get_char(p));
        p = p + 1;
    }
    bp
}

/// The character position where line `line` (from 1) starts, and its byte offset.
pub fn line_start(text: &str, line: usize) -> (r: (usize, u128))
    ensures
        r.0 == line_start_from(text@, 0, line as int),
        r.1 == byte_pos(text@, r.0 as int),
        r.0 <= text@.len(),
        r.1 <= 4 * r.0,
{
    let n = text.unicode_len();
    let mut p: usize = 0;
    let mut l: usize = 0;
    let mut bp: u128 = 0;
    while p < n
        invariant
            n == text@.len(),
            p <= n,
            l as int == line_at(text@, p as int),
            l <= p,
            bp == byte_pos(text@, p as int),
            bp <= 4 * p,
            line_start_from(text@, 0, line as int) == line_start_from(text@, p as int, line as int),
        decreases n - p,
    {
        if l + 1 >= line {
            return (p, bp);
        }
        let c = text.get_char(p);
        if c == '\n' {
            l = l + 1;
        }
        bp = bp + utf8_len_of(c);
        p = p + 1;
    }
    (p, bp)
}

/// The error for a manifest at `url` whose text `s` a JSON parser rejected
/// at `line` and `column`: the characters that lie within forty bytes before
/// and after the fault, and the fault's byte offset from the start of that
/// snippet.
pub open spec fn json_fault(line: int, column: int, url: Seq<char>, s: Seq<char>, e: ElectronError) -> bool {
    let off = fault_offset(s, line, column);
    let total = byte_pos(s, s.len() as int);
    let lo = if off >= 40 { off - 40 } else { 0 };
    let hi = if off + 40 <= total { off + 40 } else { total };
    let a = first_at_least(s, 0, lo);
    let b = last_within(s, a, hi);
    e matches ElectronError::BadJson { url: u, snippet, err_loc }
        && u@ == url && snippet@ == s.subrange(a, b)
        && err_loc == off - byte_pos(s, a) && err_loc <= 40
}

impl ElectronError {
    /// The error for a manifest at `url` whose text `json` a JSON parser
    /// rejected at `line` and `column`: the characters that lie within forty
    /// bytes before and after the fault, and the fault's byte offset from the
    /// start of that snippet.
    pub fn from_json_err(line: usize, column: usize, url: String, json: &str) -> (r: ElectronError)
        ensures
            json_fault(line as int, column as int, url@, json@, r),
    {
        let ghost s = json@;
        let n = json.unicode_len();
        let total = byte_length(json);
        let (_, start) = line_start(json, line);
        let skip: u128 = if column >= 1 { (column - 1) as u128 } else { 0 };
        let off = if start + skip <= total { start + skip } else { total };
        let lo = if off >= JSON_CONTEXT { off - JSON_CONTEXT } else { 0 };
        let hi = if off + JSON_CONTEXT <= total { off + JSON_CONTEXT } else { total };

        let mut a: usize = 0;
        let mut pa: u128 = 0;
        while a < n && pa < lo
            invariant
                n == s.len(),
                s == json@,
                a <= n,
                pa == byte_pos(s, a as int),
                pa <= 4 * a,
                a == 0 || byte_pos(s, a - 1) < lo,
                first_at_least(s, 0, lo as int) == first_at_least(s, a as int, lo as int),
            decreases n - a,
        {
            pa = pa + utf8_len_of(json.get_char(a));
            a = a + 1;
        }
        assert(pa <= off && off - pa <= 40) by {
            if a > 0 {
                assert(byte_pos(s, a as int) == byte_pos(s, a - 1) + utf8_len(s[a - 1]));
            }
        }

        let mut b: usize = a;
        let mut pb: u128 = pa;
        while b < n && pb + utf8_len_of(json.get_char(b)) <= hi
            invariant
                n == s.len(),
                s == json@,
                a <= b <= n,
                pb == byte_pos(s, b as int),
                pb <= 4 * b,
                last_within(s, a as int, hi as int) == last_within(s, b as int, hi as int),
            decreases n - b,
        {
            pb = pb + utf8_len_of(json.get_char(b));
            b = b + 1;
        }
        let snippet = String::from_str(json.substring_char(a, b));
        ElectronError::BadJson { url, snippet, err_loc: (off - pa) as usize }
    }
}

} // verus!
