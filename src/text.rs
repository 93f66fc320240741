use vstd::prelude::*;
use vstd::string::*;

verus! {

/// A character with the Unicode `White_Space` property.
pub open spec fn is_white(c: char) -> bool {
    let u = c as u32;
    (0x9 <= u && u <= 0xd) || u == 0x20 || u == 0x85 || u == 0xa0 || u == 0x1680 || (0x2000 <= u
        && u <= 0x200a) || u == 0x2028 || u == 0x2029 || u == 0x202f || u == 0x205f || u == 0x3000
}

/// `s` without its leading white space.
pub open spec fn trim_start(s: Seq<char>) -> Seq<char>
    decreases s.len(),
{
    if s.len() > 0 && is_white(s[0]) {
        trim_start(s.drop_first())
    } else {
        s
    }
}

/// `s` without its trailing white space.
pub open spec fn trim_end(s: Seq<char>) -> Seq<char>
    decreases s.len(),
{
    if s.len() > 0 && is_white(s.last()) {
        trim_end(s.drop_last())
    } else {
        s
    }
}

/// `s` without white space at either end.
pub open spec fn trimmed(s: Seq<char>) -> Seq<char> {
    trim_end(trim_start(s))
}

/// Relies on `str::trim`: it removes the leading and trailing characters
/// that have the Unicode `White_Space` property, and nothing else.
#[verifier::external_body]
pub(crate) fn trim_str(s: &str) -> (r: &str)
    ensures
        r@ == trimmed(s@),
{
    s.trim()
}

/// The longest text that a log line shows in full.
pub const PREVIEW_CHARS: usize = 15;

/// What a log line shows of a delivered text.
pub open spec fn preview_of(s: Seq<char>) -> Seq<char> {
    if s.len() > PREVIEW_CHARS {
        s.take(PREVIEW_CHARS as int) + "..."@
    } else {
        s
    }
}

/// A short form of `text` for the log: its first characters and an
/// ellipsis when it is longer than `PREVIEW_CHARS`.
pub fn log_preview(text: &str) -> (r: String)
    ensures
        r@ == preview_of(text@),
{
    let n = text.unicode_len();
    if n > PREVIEW_CHARS {
        let head = String::from_str(text.substring_char(0, PREVIEW_CHARS));
        head.concat("...")
    } else {
        String::from_str(text)
    }
}

} // verus!
