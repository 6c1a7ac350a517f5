//! Short codes: six characters drawn from a URL-safe alphabet.

use vstd::prelude::*;

verus! {

/// The number of characters in every short code.
pub const CODE_LEN: usize = 6;

/// The URL-safe alphabet: `_`, `-`, the ASCII digits and the ASCII letters.
pub open spec fn is_code_char(c: char) -> bool {
    c == '_' || c == '-' || ('0' <= c && c <= '9') || ('a' <= c && c <= 'z') || ('A' <= c
        && c <= 'Z')
}

/// A well-formed short code: exactly `CODE_LEN` characters of the alphabet.
pub open spec fn is_short_code(s: Seq<char>) -> bool {
    s.len() == CODE_LEN && forall|i: int| 0 <= i < s.len() ==> is_code_char(#[trigger] s[i])
}

/// Relies on nanoid::format, called with nanoid's `SAFE` alphabet (the 64
/// characters of `is_code_char`) and its default random source: the result
/// holds `size` characters, each one of that alphabet. The call does not
/// return for `size == 0`, and computes `8 * size`.
#[verifier::external_body]
fn random_code(size: usize) -> (r: String)
    requires
        0 < size <= usize::MAX / 8,
    ensures
        r@.len() == size,
        forall|i: int| 0 <= i < r@.len() ==> is_code_char(#[trigger] r@[i]),
{
    nanoid::format(nanoid::rngs::default, &nanoid::alphabet::SAFE, size)
}

/// Draws a fresh random short code.
pub fn new_code() -> (r: String)
    ensures
        is_short_code(r@),
{
    random_code(CODE_LEN)
}

/// Whether `s` is a well-formed short code.
pub fn is_short_code_str(s: &str) -> (r: bool)
    ensures
        r == is_short_code(s@),
{
    let n = s.unicode_len();
    if n != CODE_LEN {
        return false;
    }
    let mut i: usize = 0;
    while i < n
        invariant
            n == s@.len(),
            i <= n,
            forall|j: int| 0 <= j < i ==> is_code_char(#[trigger] s@[j]),
        decreases n - i,
    {
        let c = s.get_char(i);
        if !(c == '_' || c == '-' || ('0' <= c && c <= '9') || ('a' <= c && c <= 'z') || ('A'
            <= c && c <= 'Z')) {
            return false;
        }
        i = i + 1;
    }
    true
}

} // verus!
