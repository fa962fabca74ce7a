//! What this library takes on trust of the standard library's strings.

use vstd::prelude::*;

verus! {

/// Trusted: `String::push` of the standard library appends one character
/// to the end of the string.
pub assume_specification[ std::string::String::push ](text: &mut std::string::String, ch: char)
    ensures
        final(text)@ == old(text)@.push(ch),
;

} // verus!
