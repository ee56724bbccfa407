use vstd::prelude::*;

use crate::address::Address;
use crate::error::CounterError;
use crate::pda::counter_seed;
use crate::pda::derive_counter_address;
use crate::pda::derived_pda;
use crate::state::Counter;
use crate::state::CounterAccount;

verus! {

/// The funding identity handed to `initialize`: whether it signed the
/// enclosing transaction, and the balance available to pay for the new
/// account's allocation.
#[derive(Clone, Copy, Debug, PartialEq, Eq, Structural)]
pub struct Payer {
    pub balance: u64,
    pub is_signer: bool,
}

/// The accounts named by an `initialize` instruction: the storage address
/// the caller claims is the canonical one, and the funding identity.
pub struct Initialize {
    pub counter_account: Address,
    pub user: Payer,
}

/// The accounts named by an `increment` instruction: the storage address
/// the caller claims is the canonical one.
pub struct Increment {
    pub counter_account: Address,
}

/// The mathematical model of one deployed counter program: the owning
/// program's identifier, the canonical derived address with its bump, and
/// the state of the storage slot at that address.
#[verifier::ext_equal]
pub struct ProgramView {
    pub program_id: Seq<u8>,
    pub canonical_address: Seq<u8>,
    pub canonical_bump: u8,
    pub account: CounterAccount,
}

/// The canonical address and bump of a program state really are what the
/// derivation yields for its program identifier.
pub open spec fn derivation_linked(s: ProgramView) -> bool {
    derived_pda(counter_seed(), s.program_id) == Some((s.canonical_address, s.canonical_bump))
}

/// What `initialize` does to a program state: the next state and the
/// instruction's result.
///
/// The supplied account must match the canonical derived address, the
/// slot must still be empty, and the payer must cover the allocation
/// cost; then, and only then, the slot is created with `count == 0` and
/// the derivation bump recorded. On any failure the state is unchanged.
pub open spec fn spec_initialize(
    s: ProgramView,
    supplied: Seq<u8>,
    payer: Payer,
    rent_cost: u64,
) -> (ProgramView, Result<(), CounterError>) {
    if supplied != s.canonical_address {
        (s, Err(CounterError::InvalidSeeds))
    } else if s.account is Initialized {
        (s, Err(CounterError::AlreadyInitialized))
    } else if payer.balance < rent_cost {
        (s, Err(CounterError::PayerInsufficientFunds))
    } else {
        (
            ProgramView {
                account: CounterAccount::Initialized {
                    counter: Counter { count: 0 },
                    bump: s.canonical_bump,
                },
                ..s
            },
            Ok(()),
        )
    }
}

/// What `increment` does to a program state: the next state and the
/// instruction's result.
///
/// The slot must exist, the supplied account must re-derive to the
/// canonical address, and the count must not be at the maximum; then,
/// and only then, the count grows by exactly one and nothing else
/// changes. On any failure the state is unchanged.
pub open spec fn spec_increment(
    s: ProgramView,
    supplied: Seq<u8>,
) -> (ProgramView, Result<(), CounterError>) {
    match s.account {
        CounterAccount::Uninitialized => (s, Err(CounterError::AccountNotFound)),
        CounterAccount::Initialized { counter, bump } => {
            if supplied != s.canonical_address {
                (s, Err(CounterError::SeedMismatch))
            } else if counter.count == u64::MAX {
                (s, Err(CounterError::Overflow))
            } else {
                (
                    ProgramView {
                        account: CounterAccount::Initialized {
                            counter: Counter { count: (counter.count + 1) as u64 },
                            bump,
                        },
                        ..s
                    },
                    Ok(()),
                )
            }
        },
    }
}

/// One deployed counter program together with the storage slot it owns.
pub struct CounterProgram {
    pub program_id: Address,
    pub canonical_address: Address,
    pub canonical_bump: u8,
    pub account: CounterAccount,
}

impl View for CounterProgram {
    type V = ProgramView;

    open spec fn view(&self) -> ProgramView {
        ProgramView {
            program_id: self.program_id@,
            canonical_address: self.canonical_address@,
            canonical_bump: self.canonical_bump,
            account: self.account,
        }
    }
}

impl CounterProgram {
    /// Both addresses hold 32 bytes, and an initialized slot stores the
    /// canonical bump.
    pub open spec fn wf(self) -> bool {
        &&& self.program_id.wf()
        &&& self.canonical_address.wf()
        &&& match self.account {
            CounterAccount::Uninitialized => true,
            CounterAccount::Initialized { bump, .. } => bump == self.canonical_bump,
        }
    }

    /// Sets up a deployed program: derives the canonical counter address
    /// for the given program identifier, with the storage slot still
    /// empty. Fails with `InvalidSeeds` exactly when the derivation
    /// finds no valid bump.
    pub fn new(program_id: Address) -> (r: Result<CounterProgram, CounterError>)
        requires
            program_id.wf(),
        ensures
            match r {
                Ok(p) => p.wf() && p@.program_id == program_id@
                    && p.account is Uninitialized && derivation_linked(p@),
                Err(e) => e == CounterError::InvalidSeeds
                    && derived_pda(counter_seed(), program_id@) is None,
            },
    {
        match derive_counter_address(&program_id) {
            Some(pair) => Ok(
                CounterProgram {
                    program_id,
                    canonical_address: pair.0,
                    canonical_bump: pair.1,
                    account: CounterAccount::Uninitialized,
                },
            ),
            None => Err(CounterError::InvalidSeeds),
        }
    }

    /// Creates the counter record exactly once.
    ///
    /// The new state and the result are exactly `spec_initialize` of the
    /// old state and the instruction's inputs.
    pub fn initialize(&mut self, ctx: &Initialize, rent_cost: u64) -> (r: Result<
        (),
        CounterError,
    >)
        requires
            old(self).wf(),
            ctx.user.is_signer,
        ensures
            final(self).wf(),
            final(self)@ == spec_initialize(
                old(self)@,
                ctx.counter_account@,
                ctx.user,
                rent_cost,
            ).0,
            r == spec_initialize(old(self)@, ctx.counter_account@, ctx.user, rent_cost).1,
            final(self).program_id@ == old(self).program_id@,
            final(self).canonical_address@ == old(self).canonical_address@,
            final(self).canonical_bump == old(self).canonical_bump,
    {
        if !ctx.counter_account.eq_bytes(&self.canonical_address) {
            return Err(CounterError::InvalidSeeds);
        }
        match self.account {
            CounterAccount::Initialized { .. } => Err(CounterError::AlreadyInitialized),
            CounterAccount::Uninitialized => {
                if ctx.user.balance < rent_cost {
                    Err(CounterError::PayerInsufficientFunds)
                } else {
                    self.account = CounterAccount::Initialized {
                        counter: Counter { count: 0 },
                        bump: self.canonical_bump,
                    };
                    Ok(())
                }
            },
        }
    }

    /// Adds exactly one to the stored count.
    ///
    /// The new state and the result are exactly `spec_increment` of the
    /// old state and the supplied account.
    pub fn increment(&mut self, ctx: &Increment) -> (r: Result<(), CounterError>)
        requires
            old(self).wf(),
        ensures
            final(self).wf(),
            final(self)@ == spec_increment(old(self)@, ctx.counter_account@).0,
            r == spec_increment(old(self)@, ctx.counter_account@).1,
            final(self).program_id@ == old(self).program_id@,
            final(self).canonical_address@ == old(self).canonical_address@,
            final(self).canonical_bump == old(self).canonical_bump,
    {
        match self.account {
            CounterAccount::Uninitialized => Err(CounterError::AccountNotFound),
            CounterAccount::Initialized { counter, bump } => {
                if !ctx.counter_account.eq_bytes(&self.canonical_address) {
                    Err(CounterError::SeedMismatch)
                } else if counter.count == u64::MAX {
                    Err(CounterError::Overflow)
                } else {
                    self.account = CounterAccount::Initialized {
                        counter: Counter { count: counter.count + 1 },
                        bump,
                    };
                    Ok(())
                }
            },
        }
    }

    /// The stored count, or `None` while the slot is still empty.
    pub fn current_count(&self) -> (r: Option<u64>)
        ensures
            r == self.account.spec_count(),
    {
        match self.account {
            CounterAccount::Uninitialized => None,
            CounterAccount::Initialized { counter, .. } => Some(counter.count),
        }
    }
}

} // verus!
