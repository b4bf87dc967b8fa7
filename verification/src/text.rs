//! What this crate takes on trust about text.

use vstd::prelude::*;

verus! {

/// `String::push_str` of std appends: afterwards the string holds what it
/// held before, followed by `text`. Nothing else is taken on trust about
/// text; every string this crate builds is built with it from literals
/// and from text that came in.
pub assume_specification[ String::push_str ](s: &mut String, text: &str)
    ensures
        final(s)@ == old(s)@ + text@,
;

} // verus!
