use vstd::prelude::*;

verus! {

/// The failure kinds of the counter program.
///
/// Every error aborts the whole operation with no state change: the
/// contracts of the two instructions say exactly which inputs produce
/// which variant, and that the program state is left untouched.
#[derive(Clone, Copy, Debug, PartialEq, Eq, Structural)]
pub enum CounterError {
    /// `initialize`: storage already exists at the canonical derived address.
    AlreadyInitialized,
    /// `initialize`: the supplied account does not match the derived address.
    InvalidSeeds,
    /// `initialize`: the funding identity cannot cover the allocation cost.
    PayerInsufficientFunds,
    /// `increment`: no storage exists at the canonical derived address.
    AccountNotFound,
    /// `increment`: the supplied account does not re-derive to the canonical
    /// address.
    SeedMismatch,
    /// `increment`: the stored count is already at the maximum representable
    /// value.
    Overflow,
    /// A persisted record is malformed: wrong size or wrong discriminator.
    ConstraintViolation,
}

} // verus!
