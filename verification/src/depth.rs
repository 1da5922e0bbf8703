//! How derivation depth is measured.
//!
//! A query that a rule answers without asking another query has depth zero.
//! A query whose rule asks other queries is one level deeper than the
//! deepest of them. An operation with a depth limit resolves exactly the
//! queries whose depth does not exceed the limit.

use vstd::prelude::*;

verus! {

/// The larger of two depths.
pub open spec fn deeper(a: nat, b: nat) -> nat {
    if a >= b {
        a
    } else {
        b
    }
}

} // verus!
