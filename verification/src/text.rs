//! Small string helpers over `std` that vstd gives no specification.
use vstd::prelude::*;

verus! {

/// `String::push`: appends one character at the end (std documentation:
/// "Appends the given char to the end of this String").
#[verifier::external_body]
pub fn push_char(s: &mut String, c: char)
    ensures
        final(s)@ == old(s)@.push(c),
{
    s.push(c);
}

} // verus!
