//! Normalisation of one line of input: surrounding whitespace removed and
//! letters folded to lower case, before any comparison or parsing.
use vstd::prelude::*;

verus! {

/// The text with leading and trailing whitespace removed, as `str::trim` gives it.
pub uninterp spec fn trim_of(s: Seq<char>) -> Seq<char>;

/// The text in lower case, as `str::to_lowercase` gives it.
pub uninterp spec fn lower_of(s: Seq<char>) -> Seq<char>;

/// Whether `c` has the Unicode White_Space property, which is what
/// `char::is_whitespace` and `str::trim` go by.
pub open spec fn is_white_space(c: char) -> bool {
    let u = c as u32;
    ||| 0x09 <= u <= 0x0d
    ||| u == 0x20
    ||| u == 0x85
    ||| u == 0xa0
    ||| u == 0x1680
    ||| 0x2000 <= u <= 0x200a
    ||| u == 0x2028
    ||| u == 0x2029
    ||| u == 0x202f
    ||| u == 0x205f
    ||| u == 0x3000
}

/// Whether every character of `s` is whitespace (so also when `s` is empty).
pub open spec fn all_white_space(s: Seq<char>) -> bool {
    forall|i: int| 0 <= i < s.len() ==> is_white_space(#[trigger] s[i])
}

/// Relies on `str::trim`: the slice without leading and trailing whitespace,
/// a function of the characters alone, and empty exactly when every
/// character is whitespace.
#[verifier::external_body]
fn trimmed(s: &str) -> (r: String)
    ensures
        r@ == trim_of(s@),
        r@.len() == 0 <==> all_white_space(s@),
{
    s.trim().to_owned()
}

/// Relies on `str::to_lowercase`: the lower-case form, a function of the
/// characters alone; each character becomes one or more characters, so the
/// result is empty exactly when the text is.
#[verifier::external_body]
fn lowercased(s: &str) -> (r: String)
    ensures
        r@ == lower_of(s@),
        r@.len() == 0 <==> s@.len() == 0,
{
    s.to_lowercase()
}

/// The normal form of an input line: trimmed, then folded to lower case.
pub open spec fn normal_form(raw: Seq<char>) -> Seq<char> {
    lower_of(trim_of(raw))
}

/// Puts a raw input line into its normal form, which is blank exactly when
/// the line holds nothing but whitespace.
pub fn normalize_line(raw: &str) -> (r: String)
    ensures
        r@ == normal_form(raw@),
        r@.len() == 0 <==> all_white_space(raw@),
{
    let t = trimmed(raw);
    lowercased(t.as_str())
}

/// Whether a normalised line is blank, which at any prompt means that no
/// value was given.
pub fn is_blank(line: &String) -> (r: bool)
    ensures
        r == (line@.len() == 0),
{
    line.as_str().is_empty()
}

} // verus!
