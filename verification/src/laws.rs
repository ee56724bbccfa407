use vstd::prelude::*;

use crate::error::CounterError;
use crate::program::derivation_linked;
use crate::program::spec_increment;
use crate::program::spec_initialize;
use crate::program::Payer;
use crate::program::ProgramView;
use crate::state::CounterAccount;

verus! {

/// One instruction submitted to the program, at the level of the model:
/// either an initialize with its supplied account, payer and rent cost,
/// or an increment with its supplied account.
pub enum Op {
    Init { supplied: Seq<u8>, payer: Payer, rent_cost: u64 },
    Incr { supplied: Seq<u8> },
}

/// The state after one instruction, whatever its result.
pub open spec fn step(s: ProgramView, op: Op) -> ProgramView {
    match op {
        Op::Init { supplied, payer, rent_cost } => spec_initialize(s, supplied, payer, rent_cost).0,
        Op::Incr { supplied } => spec_increment(s, supplied).0,
    }
}

/// The state after a whole sequence of instructions, run in order.
pub open spec fn run(s: ProgramView, ops: Seq<Op>) -> ProgramView
    decreases ops.len(),
{
    if ops.len() == 0 {
        s
    } else {
        run(step(s, ops[0]), ops.drop_first())
    }
}

/// The stored count of an initialized slot.
pub open spec fn count_of(s: ProgramView) -> u64
    recommends
        s.account is Initialized,
{
    match s.account {
        CounterAccount::Initialized { counter, .. } => counter.count,
        CounterAccount::Uninitialized => 0,
    }
}

/// Once the slot is initialized, no single instruction uninitializes it
/// or shrinks the count: the count is absent before initialization and
/// monotonically non-decreasing after it.
pub proof fn lemma_count_monotonic_step(s: ProgramView, op: Op)
    requires
        s.account is Initialized,
    ensures
        step(s, op).account is Initialized,
        count_of(s) <= count_of(step(s, op)),
{
}

/// Once the slot is initialized, no sequence of instructions
/// uninitializes it or shrinks the count.
pub proof fn lemma_count_monotonic(s: ProgramView, ops: Seq<Op>)
    requires
        s.account is Initialized,
    ensures
        run(s, ops).account is Initialized,
        count_of(s) <= count_of(run(s, ops)),
    decreases ops.len(),
{
    if ops.len() == 0 {
    } else {
        lemma_count_monotonic_step(s, ops[0]);
        lemma_count_monotonic(step(s, ops[0]), ops.drop_first());
    }
}

/// A second initialize against an already created slot fails with
/// `AlreadyInitialized` and leaves the count at the value the first
/// initialize set.
pub proof fn lemma_initialize_twice(s: ProgramView, p1: Payer, rent1: u64, p2: Payer, rent2: u64)
    requires
        spec_initialize(s, s.canonical_address, p1, rent1).1 is Ok,
    ensures
        ({
            let s1 = spec_initialize(s, s.canonical_address, p1, rent1).0;
            &&& s1.account.spec_count() == Some(0u64)
            &&& spec_initialize(s1, s1.canonical_address, p2, rent2).1 == Err::<
                (),
                CounterError,
            >(CounterError::AlreadyInitialized)
            &&& spec_initialize(s1, s1.canonical_address, p2, rent2).0 == s1
        }),
{
}

/// An increment against a slot that was never initialized fails with
/// `AccountNotFound` and changes nothing, whatever account was supplied.
pub proof fn lemma_increment_uninitialized(s: ProgramView, supplied: Seq<u8>)
    requires
        s.account is Uninitialized,
    ensures
        spec_increment(s, supplied).1 == Err::<(), CounterError>(CounterError::AccountNotFound),
        spec_increment(s, supplied).0 == s,
{
}

/// The state after `n` increments, each supplying the canonical address.
pub open spec fn run_increments(s: ProgramView, n: nat) -> ProgramView
    decreases n,
{
    if n == 0 {
        s
    } else {
        let prev = run_increments(s, (n - 1) as nat);
        spec_increment(prev, prev.canonical_address).0
    }
}

/// Increments add up: starting from an initialized slot holding `c`,
/// `n` canonical increments leave the slot holding exactly `c + n`, as
/// long as that sum stays representable.
pub proof fn lemma_increments_add(s: ProgramView, c: u64, n: nat)
    requires
        s.account is Initialized,
        count_of(s) == c,
        c + n <= u64::MAX,
    ensures
        ({
            let t = run_increments(s, n);
            &&& t.canonical_address == s.canonical_address
            &&& t.account is Initialized
            &&& count_of(t) == c + n
        }),
    decreases n,
{
    if n == 0 {
    } else {
        lemma_increments_add(s, c, (n - 1) as nat);
    }
}

/// One initialize followed by `n` canonical increments yields exactly
/// `count == n`, as long as `n` is representable.
pub proof fn lemma_initialize_then_increments(s: ProgramView, payer: Payer, rent_cost: u64, n: nat)
    requires
        spec_initialize(s, s.canonical_address, payer, rent_cost).1 is Ok,
        n <= u64::MAX,
    ensures
        ({
            let t = run_increments(spec_initialize(s, s.canonical_address, payer, rent_cost).0, n);
            &&& t.account is Initialized
            &&& count_of(t) == n
        }),
{
    let s1 = spec_initialize(s, s.canonical_address, payer, rent_cost).0;
    lemma_increments_add(s1, 0u64, n);
}

/// Address derivation is a pure function of the seed and the program
/// identifier: any two program states whose canonical address and bump
/// came from the derivation for the same program identifier agree on
/// both.
pub proof fn lemma_canonical_address_unique(s1: ProgramView, s2: ProgramView)
    ensures
        (derivation_linked(s1) && derivation_linked(s2) && s1.program_id == s2.program_id) ==> (
        s1.canonical_address == s2.canonical_address && s1.canonical_bump == s2.canonical_bump),
{
}

} // verus!
