use counter::error::CounterError;
use counter::layout::decode_record;
use counter::layout::encode_record;
use counter::state::Counter;

const DISC: [u8; 8] = [11, 22, 33, 44, 55, 66, 77, 88];

#[test]
fn encode_gives_exact_bytes() {
    let bytes = encode_record(&DISC, &Counter { count: 1 });
    assert_eq!(
        bytes,
        vec![11, 22, 33, 44, 55, 66, 77, 88, 1, 0, 0, 0, 0, 0, 0, 0]
    );
}

#[test]
fn encode_is_little_endian() {
    let bytes = encode_record(&DISC, &Counter { count: 0x0102030405060708 });
    assert_eq!(&bytes[8..], &[8, 7, 6, 5, 4, 3, 2, 1]);
}

#[test]
fn decode_known_bytes() {
    let mut bytes = DISC.to_vec();
    bytes.extend_from_slice(&[2, 1, 0, 0, 0, 0, 0, 0]);
    assert_eq!(decode_record(&bytes, &DISC), Ok(Counter { count: 258 }));
}

#[test]
fn record_round_trip() {
    let original = Counter { count: 0xDEAD_BEEF_1234_5678 };
    let bytes = encode_record(&DISC, &original);
    assert_eq!(decode_record(&bytes, &DISC), Ok(original));
}

#[test]
fn decode_rejects_wrong_discriminator() {
    let bytes = encode_record(&DISC, &Counter { count: 5 });
    let other: [u8; 8] = [11, 22, 33, 44, 55, 66, 77, 89];
    assert_eq!(
        decode_record(&bytes, &other),
        Err(CounterError::ConstraintViolation)
    );
}

#[test]
fn decode_rejects_wrong_length() {
    let short = vec![11u8, 22, 33];
    assert_eq!(
        decode_record(&short, &DISC),
        Err(CounterError::ConstraintViolation)
    );
    let long = vec![0u8; 17];
    assert_eq!(
        decode_record(&long, &DISC),
        Err(CounterError::ConstraintViolation)
    );
}
