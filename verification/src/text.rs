//! Appending to a `String`.

use vstd::prelude::*;

verus! {

/// `String::push`: the character is appended, and the text before it stays.
#[verifier::external_body]
pub(crate) fn push_char(text: &mut String, c: char)
    ensures
        final(text)@ == old(text)@.push(c),
{
    text.push(c)
}

} // verus!
