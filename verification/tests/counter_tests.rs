use counter::address::Address;
use counter::error::CounterError;
use counter::program::CounterProgram;
use counter::program::Increment;
use counter::program::Initialize;
use counter::program::Payer;
use counter::state::Counter;
use counter::state::CounterAccount;

fn program_id() -> Address {
    Address::from_bytes(vec![7u8; 32]).unwrap()
}

fn deployed() -> CounterProgram {
    CounterProgram::new(program_id()).unwrap()
}

fn good_init(p: &CounterProgram) -> Initialize {
    Initialize {
        counter_account: p.canonical_address.clone(),
        user: Payer { balance: 100, is_signer: true },
    }
}

fn good_incr(p: &CounterProgram) -> Increment {
    Increment { counter_account: p.canonical_address.clone() }
}

#[test]
fn initialize_sets_count_to_zero() {
    let mut p = deployed();
    assert_eq!(p.current_count(), None);
    let ctx = good_init(&p);
    assert_eq!(p.initialize(&ctx, 10), Ok(()));
    assert_eq!(p.current_count(), Some(0));
}

#[test]
fn initialize_then_three_increments() {
    let mut p = deployed();
    let ctx = good_init(&p);
    assert_eq!(p.initialize(&ctx, 10), Ok(()));
    let incr = good_incr(&p);
    assert_eq!(p.increment(&incr), Ok(()));
    assert_eq!(p.increment(&incr), Ok(()));
    assert_eq!(p.increment(&incr), Ok(()));
    assert_eq!(p.current_count(), Some(3));
}

#[test]
fn initialize_then_n_increments() {
    let mut p = deployed();
    let ctx = good_init(&p);
    assert_eq!(p.initialize(&ctx, 10), Ok(()));
    let incr = good_incr(&p);
    let n: u64 = 25;
    for _ in 0..n {
        assert_eq!(p.increment(&incr), Ok(()));
    }
    assert_eq!(p.current_count(), Some(n));
}

#[test]
fn initialize_twice_fails() {
    let mut p = deployed();
    let ctx = good_init(&p);
    assert_eq!(p.initialize(&ctx, 10), Ok(()));
    assert_eq!(
        p.initialize(&ctx, 10),
        Err(CounterError::AlreadyInitialized)
    );
    assert_eq!(p.current_count(), Some(0));
}

#[test]
fn increment_before_initialize_fails() {
    let mut p = deployed();
    let incr = good_incr(&p);
    assert_eq!(p.increment(&incr), Err(CounterError::AccountNotFound));
    assert_eq!(p.current_count(), None);
}

#[test]
fn increment_wrong_address_fails() {
    let mut p = deployed();
    let ctx = good_init(&p);
    assert_eq!(p.initialize(&ctx, 10), Ok(()));
    let incr = good_incr(&p);
    assert_eq!(p.increment(&incr), Ok(()));
    let wrong = Increment {
        counter_account: Address::from_bytes(vec![9u8; 32]).unwrap(),
    };
    assert_eq!(p.increment(&wrong), Err(CounterError::SeedMismatch));
    assert_eq!(p.current_count(), Some(1));
}

#[test]
fn initialize_wrong_address_fails() {
    let mut p = deployed();
    let ctx = Initialize {
        counter_account: Address::from_bytes(vec![9u8; 32]).unwrap(),
        user: Payer { balance: 100, is_signer: true },
    };
    assert_eq!(p.initialize(&ctx, 10), Err(CounterError::InvalidSeeds));
    assert_eq!(p.current_count(), None);
}

#[test]
fn initialize_insufficient_funds_fails() {
    let mut p = deployed();
    let ctx = Initialize {
        counter_account: p.canonical_address.clone(),
        user: Payer { balance: 9, is_signer: true },
    };
    assert_eq!(p.initialize(&ctx, 10), Err(CounterError::PayerInsufficientFunds));
    assert_eq!(p.current_count(), None);
}

#[test]
fn initialize_exact_funds_succeeds() {
    let mut p = deployed();
    let ctx = Initialize {
        counter_account: p.canonical_address.clone(),
        user: Payer { balance: 10, is_signer: true },
    };
    assert_eq!(p.initialize(&ctx, 10), Ok(()));
    assert_eq!(p.current_count(), Some(0));
}

#[test]
fn increment_at_max_overflows() {
    let mut p = deployed();
    p.account = CounterAccount::Initialized {
        counter: Counter { count: u64::MAX },
        bump: p.canonical_bump,
    };
    let incr = good_incr(&p);
    assert_eq!(p.increment(&incr), Err(CounterError::Overflow));
    assert_eq!(p.current_count(), Some(u64::MAX));
}

#[test]
fn address_from_bytes_rejects_wrong_length() {
    assert!(Address::from_bytes(vec![1u8; 31]).is_none());
    assert!(Address::from_bytes(vec![1u8; 33]).is_none());
    assert!(Address::from_bytes(Vec::new()).is_none());
    assert!(Address::from_bytes(vec![1u8; 32]).is_some());
}
