use vstd::prelude::*;

verus! {

/// The nickname rule: four to twenty-four characters, each an ASCII letter or whitespace.
pub const NICKNAME_PATTERN: &'static str = "^[A-Za-z\\s]{4,24}$";

/// Unicode `White_Space`, the set that both `str::trim` and the regex class `\s` use.
pub open spec fn is_white_space(c: char) -> bool {
    ('\t' <= c && c <= '\r') || c == ' ' || c == '\u{85}' || c == '\u{a0}' || c == '\u{1680}'
        || ('\u{2000}' <= c && c <= '\u{200a}') || c == '\u{2028}' || c == '\u{2029}'
        || c == '\u{202f}' || c == '\u{205f}' || c == '\u{3000}'
}

pub open spec fn is_ascii_letter(c: char) -> bool {
    ('A' <= c && c <= 'Z') || ('a' <= c && c <= 'z')
}

/// `s` without its leading whitespace.
pub open spec fn trim_start(s: Seq<char>) -> Seq<char>
    decreases s.len(),
{
    if s.len() > 0 && is_white_space(s[0]) {
        trim_start(s.drop_first())
    } else {
        s
    }
}

/// `s` without its trailing whitespace.
pub open spec fn trim_end(s: Seq<char>) -> Seq<char>
    decreases s.len(),
{
    if s.len() > 0 && is_white_space(s.last()) {
        trim_end(s.drop_last())
    } else {
        s
    }
}

pub open spec fn trim_ws(s: Seq<char>) -> Seq<char> {
    trim_end(trim_start(s))
}

/// A nickname has 4 to 24 characters, all ASCII letters or whitespace.
pub open spec fn valid_nickname(s: Seq<char>) -> bool {
    &&& 4 <= s.len() <= 24
    &&& forall|i: int| 0 <= i < s.len() ==> is_ascii_letter(#[trigger] s[i]) || is_white_space(s[i])
}

/// Relies on `str::trim`: leading and trailing Unicode `White_Space` removed.
#[verifier::external_body]
fn trim_str(s: &str) -> (r: &str)
    ensures
        r@ == trim_ws(s@),
{
    s.trim()
}

/// Relies on `regex::Regex::new` and `Regex::is_match` for the anchored pattern
/// `NICKNAME_PATTERN`: the whole text is 4 to 24 characters of `[A-Za-z]` or `\s`.
#[verifier::external_body]
fn pattern_matches(pattern: &str, text: &str) -> (r: bool)
    requires
        pattern@ == NICKNAME_PATTERN@,
    ensures
        r == valid_nickname(text@),
{
    regex::Regex::new(pattern).unwrap().is_match(text)
}

/// The nickname that a join request asks for: the name with surrounding whitespace removed.
pub fn trim_nickname(name: &str) -> (r: &str)
    ensures
        r@ == trim_ws(name@),
{
    trim_str(name)
}

/// Whether `text` has the shape of a nickname.
pub fn valid_nickname_text(text: &str) -> (r: bool)
    ensures
        r == valid_nickname(text@),
{
    pattern_matches(NICKNAME_PATTERN, text)
}

} // verus!
