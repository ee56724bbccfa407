//! A verified model of a minimal on-chain counter program.
//!
//! The program owns a single persistent counter record stored at an address
//! derived deterministically from the fixed seed `"counter"` and the owning
//! program's identifier. Two instructions exist: `initialize`, which creates
//! the record exactly once with `count == 0`, and `increment`, which adds one
//! to the stored value. The state-transition rules, the error taxonomy, and
//! the 16-byte storage layout are specified and proved here; the address
//! derivation itself is performed by the Solana runtime crates behind a
//! trusted wrapper.

pub mod address;
pub mod error;
pub mod layout;
pub mod laws;
pub mod pda;
pub mod program;
pub mod state;
