//! Strings as sequences of characters, and the few steps the rest of the
//! library takes on them.

use vstd::prelude::*;
use vstd::std_specs::iter::IteratorSpec;

verus! {

/// A string as contracts see it: its sequence of characters.
pub type Text = Seq<char>;

/// The characters of `s`, in order.
pub fn chars_of(s: &str) -> (out: Vec<char>)
    ensures
        out@ == s@,
{
    let mut out: Vec<char> = Vec::new();
    for c in it: s.chars()
        invariant
            it.seq() == s@,
            out@.len() == it.index(),
            forall|i: int| 0 <= i < out@.len() ==> out@[i] == s@[i],
    {
        out.push(c);
    }
    assert(out@ =~= s@);
    out
}

} // verus!
