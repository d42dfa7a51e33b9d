//! Membership checks on the code sets that the engine reports: actions,
//! modes and difficulties.
//!
//! The engine takes any integer for a code and misbehaves on one it does not
//! know, so each code is looked up in the set that the engine itself reported
//! before it is sent.

use vstd::prelude::*;

verus! {

/// Whether `code` is one of `codes`.
pub fn contains(codes: &[i32], code: i32) -> (found: bool)
    ensures
        found == codes@.contains(code),
{
    let n: usize = codes.len();
    let mut i: usize = 0;
    while i < n
        invariant
            n == codes@.len(),
            i <= n,
            forall|j: int| 0 <= j < i ==> codes@[j] != code,
        decreases n - i,
    {
        if codes[i] == code {
            return true;
        }
        i += 1;
    }
    false
}

/// Every code of `inner` is one of `outer`.
pub open spec fn spec_is_subset(inner: Seq<i32>, outer: Seq<i32>) -> bool {
    forall|i: int| 0 <= i < inner.len() ==> outer.contains(#[trigger] inner[i])
}

/// Whether every code of `inner` is one of `outer`: what a minimal action
/// set owes to the legal action set it was reported with.
pub fn is_subset(inner: &[i32], outer: &[i32]) -> (within: bool)
    ensures
        within == spec_is_subset(inner@, outer@),
{
    let n: usize = inner.len();
    let mut i: usize = 0;
    while i < n
        invariant
            n == inner@.len(),
            i <= n,
            forall|j: int| 0 <= j < i ==> outer@.contains(#[trigger] inner@[j]),
        decreases n - i,
    {
        if !contains(outer, inner[i]) {
            return false;
        }
        i += 1;
    }
    true
}

/// A code of a set that lies within another is a code of the other.
pub proof fn lemma_subset_member(inner: Seq<i32>, outer: Seq<i32>, code: i32)
    requires
        spec_is_subset(inner, outer),
        inner.contains(code),
    ensures
        outer.contains(code),
{
    let i = choose|i: int| 0 <= i < inner.len() && inner[i] == code;
    assert(outer.contains(inner[i]));
}

} // verus!
