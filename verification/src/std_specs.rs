//! What this library takes on trust about the standard library, beyond what
//! `vstd` states of it.

use vstd::prelude::*;

verus! {

/// `String::push` of the standard library. Taken on trust: the call appends
/// exactly the given character to the end of the string and leaves the
/// characters before it as they were.
pub assume_specification[ String::push ](text: &mut String, ch: char)
    ensures
        final(text)@ == old(text)@.push(ch),
;

} // verus!
