use counter::address::Address;
use counter::pda::counter_seed_bytes;
use counter::pda::derive_counter_address;
use counter::program::CounterProgram;

fn program_id() -> Address {
    Address::from_bytes(vec![7u8; 32]).unwrap()
}

#[test]
fn seed_bytes_are_counter_ascii() {
    assert_eq!(counter_seed_bytes(), b"counter".to_vec());
}

#[test]
fn derivation_is_repeatable() {
    let first = derive_counter_address(&program_id()).unwrap();
    let second = derive_counter_address(&program_id()).unwrap();
    assert_eq!(first.0.bytes, second.0.bytes);
    assert_eq!(first.1, second.1);
}

#[test]
fn deployed_program_stores_the_derived_address() {
    let derived = derive_counter_address(&program_id()).unwrap();
    let p = CounterProgram::new(program_id()).unwrap();
    assert_eq!(p.canonical_address.bytes, derived.0.bytes);
    assert_eq!(p.canonical_bump, derived.1);
}

#[test]
fn derivation_matches_the_runtime_crate() {
    let pk = solana_pubkey::Pubkey::new_from_array([7u8; 32]);
    let (expected, expected_bump) =
        solana_pubkey::Pubkey::try_find_program_address(&[b"counter"], &pk).unwrap();
    let derived = derive_counter_address(&program_id()).unwrap();
    assert_eq!(derived.0.bytes, expected.to_bytes().to_vec());
    assert_eq!(derived.1, expected_bump);
}

#[test]
fn derivation_does_not_echo_its_input() {
    let derived = derive_counter_address(&program_id()).unwrap();
    assert_eq!(derived.0.bytes.len(), 32);
    assert_ne!(derived.0.bytes, program_id().bytes);
}

#[test]
fn different_programs_derive_different_addresses() {
    let other = Address::from_bytes(vec![8u8; 32]).unwrap();
    let a = derive_counter_address(&program_id()).unwrap();
    let b = derive_counter_address(&other).unwrap();
    assert_ne!(a.0.bytes, b.0.bytes);
}
