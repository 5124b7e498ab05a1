//! What a buffer that is handed across the boundary holds.
//!
//! Such a buffer ends at its first NUL, so text with a NUL inside cannot be
//! handed over as it is: an empty buffer is handed over in its place.

use vstd::prelude::*;
use vstd::string::*;

verus! {

/// The text of the buffer made for `reply`: `reply` itself, or nothing if
/// `reply` holds a NUL.
pub open spec fn buffer_text(reply: Seq<char>) -> Seq<char> {
    if reply.contains('\0') {
        Seq::empty()
    } else {
        reply
    }
}

/// Whether `text` holds a NUL character.
pub fn has_nul(text: &str) -> (found: bool)
    ensures
        found == text@.contains('\0'),
{
    let mut found = false;
    for c in it: text.chars()
        invariant
            it.seq() == text@,
            found == exists|j: int| 0 <= j < it.index() && text@[j] == '\0',
    {
        if c == '\0' {
            found = true;
        }
    }
    found
}

/// The text that the buffer for `reply` is made of. It never holds a NUL.
pub fn boundary_text(reply: &str) -> (text: &str)
    ensures
        text@ == buffer_text(reply@),
        !text@.contains('\0'),
{
    if has_nul(reply) {
        proof {
            reveal_strlit("");
        }
        let text = "";
        assert(text@ =~= Seq::<char>::empty());
        text
    } else {
        reply
    }
}

} // verus!
