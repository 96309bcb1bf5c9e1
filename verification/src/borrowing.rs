//! Borrowing demonstration: reading a derived value out of a buffer through a
//! non-owning reference, so the caller keeps the buffer without any ownership
//! hand-back.

use vstd::prelude::*;
use vstd::string::*;

verus! {

/// Computes the length (in characters) of the buffer behind a borrowed view.
pub fn calculate_length(s: &String) -> (r: usize)
    ensures
        r == s@.len(),
{
    s.as_str().unicode_len()
}

} // verus!
