//! What the standard library knows of characters and the verifier does not.

use vstd::prelude::*;

verus! {

/// Whether a character has the Unicode property `White_Space`, as
/// `char::is_whitespace` reports it.
pub uninterp spec fn unicode_whitespace(c: char) -> bool;

/// Calls `char::is_whitespace`. The property is a table of the Unicode
/// character database; the contract only gives the answer its name.
#[verifier::external_body]
pub(crate) fn is_whitespace(c: char) -> (b: bool)
    ensures
        b == unicode_whitespace(c),
{
    c.is_whitespace()
}

} // verus!
