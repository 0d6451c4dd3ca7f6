//! Label normalisation: the first character of a step's text is upper-cased.
use vstd::prelude::*;
use vstd::string::StrSliceExecFns;
use vstd::string::StringExecFns;

verus! {

/// What `char::to_uppercase` yields for `c`, collected into a string.
pub uninterp spec fn upper_of(c: char) -> Seq<char>;

/// The label shown for `text`: its first character upper-cased, the rest unchanged.
pub open spec fn capitalized(text: Seq<char>) -> Seq<char> {
    if text.len() == 0 {
        text
    } else {
        upper_of(text[0]) + text.skip(1)
    }
}

/// Relies on `char::to_uppercase`: the upper-case mapping of one character,
/// which may be several characters long and depends on `c` alone.
#[verifier::external_body]
fn upper_char(c: char) -> (r: String)
    ensures
        r@ == upper_of(c),
{
    c.to_uppercase().collect::<String>()
}

/// Upper-cases the first Unicode scalar value of `text` and keeps the rest as it is.
pub fn capitalize_first(text: &str) -> (r: String)
    ensures
        r@ == capitalized(text@),
        text@.len() == 0 ==> r@.len() == 0,
{
    let n = text.unicode_len();
    if n == 0 {
        return String::new();
    }
    let first = text.get_char(0);
    let rest = text.substring_char(1, n);
    let mut r = upper_char(first);
    r.append(rest);
    proof {
        assert(rest@ =~= text@.skip(1));
    }
    r
}

} // verus!
