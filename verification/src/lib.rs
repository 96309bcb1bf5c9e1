//! Verified demonstrations of core language concepts: tuples, branches,
//! loops, ownership transfer, cloning, and borrowing.
//!
//! Each routine is independent and idempotent: it declares and works on its
//! own local values and returns them to the caller, so that the caller (or a
//! printing front end) can inspect the results. The contracts pin down
//! exactly which values every routine produces.

pub mod basics;
pub mod borrowing;
pub mod ownership;
