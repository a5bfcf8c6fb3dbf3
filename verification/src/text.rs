//! Small trusted bridges to `std` string operations that vstd gives no
//! specification of its own.

use vstd::prelude::*;

verus! {

/// Relies on `<str as PartialEq>::eq`: string slices compare equal exactly
/// when their character contents are equal.
#[verifier::external_body]
pub(crate) fn str_eq(a: &str, b: &str) -> (r: bool)
    ensures
        r == (a@ == b@),
{
    a == b
}

/// Relies on `String::push`: appends the given character to the end of the
/// string.
#[verifier::external_body]
pub(crate) fn push_char(s: &mut String, c: char)
    ensures
        final(s)@ == old(s)@ + seq![c],
{
    s.push(c)
}

} // verus!
