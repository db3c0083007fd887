//! Building strings whose contents the contracts can speak of.
use vstd::prelude::*;

verus! {

/// Relies on `String::push_str`: the text is added at the end.
#[verifier::external_body]
pub(crate) fn append(s: &mut String, t: &str)
    ensures
        final(s)@ == old(s)@ + t@,
{
    s.push_str(t);
}

} // verus!
