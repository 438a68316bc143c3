//! Safe, verified core of a binding layer over a native shader compiler that
//! is reached through a C-style handle protocol.
//!
//! The native component itself (session/request handles, the compiler, the
//! reflection queries) lives outside this crate and is driven by unverified
//! glue. This crate holds everything that can be stated and checked as plain
//! logic:
//!
//! - the closed value enumerations that map 1:1 onto native integer constants,
//!   with fallible conversions that reject unrecognized values
//!   ([`enums`]);
//! - the text-encoding guard applied to every string that would cross the
//!   native boundary ([`text`]);
//! - the compile-request configuration state and the success/failure decision
//!   made from a native status code ([`request`]);
//! - the reflection graph as plain data, with the uniform count-then-index
//!   traversal contract across every node kind ([`reflection`]).

use vstd::prelude::*;

pub mod enums;
pub mod reflection;
pub mod request;
pub mod text;

verus! {

/// A native status code reports success, by convention, when it is
/// non-negative.
pub open spec fn spec_result_succeeded(r: i32) -> bool {
    r >= 0
}

/// A native status code reports failure when it is negative.
pub open spec fn spec_result_failed(r: i32) -> bool {
    r < 0
}

/// Decides whether a native status code reports success.
pub fn result_succeeded(r: i32) -> (b: bool)
    ensures
        b == spec_result_succeeded(r),
{
    r >= 0
}

/// Decides whether a native status code reports failure.
pub fn result_failed(r: i32) -> (b: bool)
    ensures
        b == spec_result_failed(r),
{
    r < 0
}

/// Success and failure of a status code are each other's exact complement:
/// every status is one or the other, never both.
pub proof fn lemma_status_dichotomy(r: i32)
    ensures
        spec_result_failed(r) <==> !spec_result_succeeded(r),
{
}

} // verus!
