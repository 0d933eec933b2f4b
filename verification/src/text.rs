//! What the reader relies on from `String` beyond what vstd specifies.

use vstd::prelude::*;

verus! {

/// `String::push` is taken on trust to append the given character to the
/// end of the string and to leave the characters before it unchanged.
pub assume_specification[ String::push ](s: &mut String, ch: char)
    ensures
        final(s)@ == old(s)@.push(ch),
;

} // verus!
