//! Ownership demonstrations over an owned, heap-backed text buffer: building
//! one from a literal, moving it between bindings, cloning it, handing
//! ownership out and back, and returning a buffer together with a value
//! derived from it.

use vstd::prelude::*;
use vstd::string::*;

verus! {

/// Builds an owned, growable buffer from a literal and grows it in place:
/// the result holds the literal followed by the appended text.
pub fn string_literal() -> (r: String)
    ensures
        r@ == "hello, world!"@,
{
    let mut s: String = String::from_str("hello");
    s.append(", world!");
    proof {
        reveal_strlit("hello");
        reveal_strlit(", world!");
        reveal_strlit("hello, world!");
        assert(s@ =~= "hello, world!"@);
    }
    s
}

/// Binds a simple numeric value to two names (independent copies, both still
/// usable) and moves an owned buffer from one binding to another (only the
/// destination remains usable). Returns the two copies and the moved buffer.
pub fn multiple_variables() -> (r: (i32, i32, String))
    ensures
        r.0 == 5,
        r.1 == r.0,
        r.2@ == "hello"@,
{
    let x: i32 = 5;
    let y: i32 = x;
    let s1: String = String::from_str("hello");
    let s2: String = s1;
    (x, y, s2)
}

/// Makes a full, independent copy of the buffer behind the reference; the
/// copy holds exactly the same text and the source stays usable.
pub fn clone_data(s1: &String) -> (r: String)
    ensures
        r@ == s1@,
{
    let s2: String = s1.clone();
    s2
}

/// Clones a buffer and then grows only the clone: the buffer it was cloned
/// from keeps its text untouched, so the two copies share no storage.
pub fn clone_and_extend(s1: String, suffix: &str) -> (r: (String, String))
    ensures
        r.0@ == s1@,
        r.1@ == s1@ + suffix@,
{
    let mut s2: String = s1.clone();
    s2.append(suffix);
    (s1, s2)
}

/// Hands ownership of a freshly built buffer out to the caller.
pub fn gives_ownership() -> (r: String)
    ensures
        r@ == "yours"@,
{
    String::from_str("yours")
}

/// Takes ownership of a buffer and immediately gives it back unchanged.
pub fn takes_and_gives_back(a_string: String) -> (r: String)
    ensures
        r == a_string,
{
    a_string
}

/// Takes ownership of a buffer, computes its length (in characters), and
/// returns the buffer together with the length, so a single call restores
/// ownership and delivers the derived value.
pub fn calculate_length(s: String) -> (r: (String, usize))
    ensures
        r.0 == s,
        r.1 == s@.len(),
{
    let length: usize = s.as_str().unicode_len();
    (s, length)
}

} // verus!
