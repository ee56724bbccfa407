use vstd::prelude::*;

use crate::address::Address;

verus! {

/// The fixed derivation seed: the ASCII bytes of `"counter"`.
pub open spec fn counter_seed() -> Seq<u8> {
    seq![99u8, 111u8, 117u8, 110u8, 116u8, 101u8, 114u8]
}

/// The exact bytes of the fixed seed, for passing to the derivation call.
pub fn counter_seed_bytes() -> (r: Vec<u8>)
    ensures
        r@ == counter_seed(),
{
    let mut v: Vec<u8> = Vec::new();
    v.push(99);
    v.push(111);
    v.push(117);
    v.push(110);
    v.push(116);
    v.push(101);
    v.push(114);
    proof {
        assert(v@ =~= counter_seed());
    }
    v
}

/// The value that program-derived-address search returns for one seed and
/// one program identifier: `None` in the statistically improbable event
/// that no bump yields a valid off-curve address, otherwise the address
/// and the bump that produced it. The derivation is a deterministic
/// function of the seed and the program identifier alone, so it carries a
/// name here rather than a spelled-out algorithm.
pub uninterp spec fn derived_pda(seed: Seq<u8>, program_id: Seq<u8>) -> Option<(Seq<u8>, u8)>;

/// Relies on `Pubkey::try_find_program_address` (solana-pubkey, re-exported
/// by anchor_lang): the search over bump values is a pure function of the
/// seeds and the program id, returns a 32-byte address together with the
/// bump that produced it, and returns `None` only when no bump yields a
/// valid off-curve address.
#[verifier::external_body]
fn try_find_pda(seed: &Vec<u8>, program_id: &Address) -> (r: Option<(Address, u8)>)
    requires
        program_id.wf(),
    ensures
        match r {
            Some(pair) => derived_pda(seed@, program_id@) == Some((pair.0@, pair.1))
                && pair.0.wf(),
            None => derived_pda(seed@, program_id@) is None,
        },
{
    let arr: [u8; 32] = program_id.bytes.as_slice().try_into().unwrap();
    let pk = anchor_lang::prelude::Pubkey::new_from_array(arr);
    match anchor_lang::prelude::Pubkey::try_find_program_address(&[seed.as_slice()], &pk) {
        Some((addr, bump)) => Some((Address { bytes: addr.to_bytes().to_vec() }, bump)),
        None => None,
    }
}

/// Derives the canonical counter address for one owning program.
///
/// The result is a function of the program identifier alone, so repeated
/// calls for the same program always agree on both the address and the
/// bump.
pub fn derive_counter_address(program_id: &Address) -> (r: Option<(Address, u8)>)
    requires
        program_id.wf(),
    ensures
        match r {
            Some(pair) => derived_pda(counter_seed(), program_id@) == Some((pair.0@, pair.1))
                && pair.0.wf(),
            None => derived_pda(counter_seed(), program_id@) is None,
        },
{
    let seed = counter_seed_bytes();
    try_find_pda(&seed, program_id)
}

} // verus!
