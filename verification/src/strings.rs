//! Small verified helpers for working with string slices.

use vstd::prelude::*;

verus! {

/// Compares two string slices by their character content.
pub fn str_eq(a: &str, b: &str) -> (r: bool)
    ensures
        r == (a@ == b@),
{
    let r = a.to_owned() == b.to_owned();
    proof {
        if a@ =~= b@ {
            assert(r);
        }
    }
    r
}

/// The ASCII lower-case mapping of one character: upper-case ASCII
/// letters move to lower case, every other character is unchanged.
pub open spec fn ascii_lower_char(c: char) -> char {
    if 'A' <= c && c <= 'Z' {
        ((c as u32) + 32) as char
    } else {
        c
    }
}

/// The ASCII lower-case mapping of a character sequence.
pub open spec fn ascii_lower(s: Seq<char>) -> Seq<char> {
    s.map_values(|c: char| ascii_lower_char(c))
}

/// Relies on str::to_ascii_lowercase: returns a copy of the string with
/// each character mapped to its ASCII lower-case equivalent and all
/// non-ASCII characters unchanged.
#[verifier::external_body]
pub fn ascii_lowercase(s: &str) -> (r: String)
    ensures
        r@ == ascii_lower(s@),
{
    s.to_ascii_lowercase()
}

} // verus!
