use vstd::prelude::*;

verus! {

/// The persisted counter record: a single unsigned 64-bit value.
#[derive(Clone, Copy, Debug, PartialEq, Eq, Structural)]
pub struct Counter {
    pub count: u64,
}

/// The storage slot at the canonical derived address.
///
/// The slot has exactly two states: no storage exists until `initialize`
/// succeeds, and once created the record is never destroyed by this
/// program. An initialized slot also records the derivation bump so the
/// address can be re-derived without a search.
#[derive(Clone, Copy, Debug, PartialEq, Eq, Structural)]
pub enum CounterAccount {
    /// No storage exists at the derived address.
    Uninitialized,
    /// Storage exists: the counter record plus the stored derivation bump.
    Initialized { counter: Counter, bump: u8 },
}

impl CounterAccount {
    /// The stored count, or `None` while no storage exists.
    pub open spec fn spec_count(self) -> Option<u64> {
        match self {
            CounterAccount::Uninitialized => None,
            CounterAccount::Initialized { counter, .. } => Some(counter.count),
        }
    }
}

} // verus!
