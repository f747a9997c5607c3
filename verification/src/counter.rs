//! A minimal counter record, kept alongside the vault engine.

use vstd::prelude::*;

verus! {

/// A persistent counter.
#[derive(Clone, Copy, PartialEq, Eq, Structural, Debug)]
pub struct Counter {
    /// The counter value.
    pub count: u64,
}

/// Increases the counter value by one.
pub fn increment(counter: &mut Counter)
    requires
        old(counter).count < u64::MAX,
    ensures
        final(counter).count == old(counter).count + 1,
{
    counter.count = counter.count + 1;
}

} // verus!
