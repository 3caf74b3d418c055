//! Small string-building helpers shared by the parser and the generator.
use vstd::prelude::*;

verus! {

/// Append one character to a string.
///
/// Trusted: wraps `String::push`, whose documentation says it appends the
/// given char to the end of the string; the contract states exactly that.
#[verifier::external_body]
pub(crate) fn push_char(s: &mut String, c: char)
    ensures
        final(s)@ == old(s)@.push(c),
{
    s.push(c);
}

/// Character-wise equality of two string slices.
pub(crate) fn str_eq(a: &str, b: &str) -> (r: bool)
    ensures
        r == (a@ == b@),
{
    a.to_owned() == b.to_owned()
}

} // verus!
