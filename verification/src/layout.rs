use vstd::prelude::*;

use crate::error::CounterError;
use crate::state::Counter;

verus! {

/// The little-endian bytes of an unsigned 64-bit value, least significant
/// byte first.
pub open spec fn u64_le_bytes(n: u64) -> Seq<u8> {
    seq![
        (n & 0xff) as u8,
        ((n >> 8) & 0xff) as u8,
        ((n >> 16) & 0xff) as u8,
        ((n >> 24) & 0xff) as u8,
        ((n >> 32) & 0xff) as u8,
        ((n >> 40) & 0xff) as u8,
        ((n >> 48) & 0xff) as u8,
        ((n >> 56) & 0xff) as u8,
    ]
}

/// The unsigned 64-bit value held by eight little-endian bytes.
pub open spec fn le_bytes_to_u64(s: Seq<u8>) -> u64
    recommends
        s.len() == 8,
{
    (s[0] as u64) | ((s[1] as u64) << 8) | ((s[2] as u64) << 16) | ((s[3] as u64) << 24) | ((
    s[4] as u64) << 32) | ((s[5] as u64) << 40) | ((s[6] as u64) << 48) | ((s[7] as u64) << 56)
}

/// The little-endian encoding loses nothing: reading the eight bytes of
/// a value back gives the value.
pub proof fn lemma_u64_le_round_trip(n: u64)
    ensures
        le_bytes_to_u64(u64_le_bytes(n)) == n,
{
    let s = u64_le_bytes(n);
    assert(((((n & 0xff) as u8) as u64) | ((((n >> 8) & 0xff) as u8) as u64) << 8 | ((((n >> 16)
        & 0xff) as u8) as u64) << 16 | ((((n >> 24) & 0xff) as u8) as u64) << 24 | ((((n >> 32)
        & 0xff) as u8) as u64) << 32 | ((((n >> 40) & 0xff) as u8) as u64) << 40 | ((((n >> 48)
        & 0xff) as u8) as u64) << 48 | ((((n >> 56) & 0xff) as u8) as u64) << 56) == n)
        by (bit_vector);
}

/// Serializes one counter record into its persisted form: the 8-byte
/// type discriminator followed by the count as 8 little-endian bytes,
/// 16 bytes in all.
pub fn encode_record(discriminator: &[u8; 8], counter: &Counter) -> (r: Vec<u8>)
    ensures
        r@.len() == 16,
        r@ == discriminator@ + u64_le_bytes(counter.count),
{
    let mut out: Vec<u8> = Vec::new();
    let mut i: usize = 0;
    while i < 8
        invariant
            i <= 8,
            out@.len() == i,
            forall|j: int| 0 <= j < i ==> out@[j] == discriminator@[j],
        decreases 8 - i,
    {
        out.push(discriminator[i]);
        i += 1;
    }
    let n = counter.count;
    proof {
        assert((n & 0xff) < 256 && ((n >> 8) & 0xff) < 256 && ((n >> 16) & 0xff) < 256 && ((n
            >> 24) & 0xff) < 256 && ((n >> 32) & 0xff) < 256 && ((n >> 40) & 0xff) < 256 && ((n
            >> 48) & 0xff) < 256 && ((n >> 56) & 0xff) < 256) by (bit_vector);
    }
    out.push((n & 0xff) as u8);
    out.push(((n >> 8) & 0xff) as u8);
    out.push(((n >> 16) & 0xff) as u8);
    out.push(((n >> 24) & 0xff) as u8);
    out.push(((n >> 32) & 0xff) as u8);
    out.push(((n >> 40) & 0xff) as u8);
    out.push(((n >> 48) & 0xff) as u8);
    out.push(((n >> 56) & 0xff) as u8);
    proof {
        assert(out@ =~= discriminator@ + u64_le_bytes(counter.count));
    }
    out
}

/// Parses one persisted record: accepts exactly the well-formed images,
/// 16 bytes whose first 8 match the expected discriminator, and returns
/// the count those bytes encode; rejects anything else as a
/// `ConstraintViolation`.
pub fn decode_record(bytes: &Vec<u8>, discriminator: &[u8; 8]) -> (r: Result<
    Counter,
    CounterError,
>)
    ensures
        match r {
            Ok(c) => bytes@ == discriminator@ + u64_le_bytes(c.count) && c.count
                == le_bytes_to_u64(bytes@.subrange(8, 16)),
            Err(e) => e == CounterError::ConstraintViolation && (bytes@.len() != 16
                || bytes@.subrange(0, 8) != discriminator@),
        },
{
    if bytes.len() != 16 {
        return Err(CounterError::ConstraintViolation);
    }
    let mut i: usize = 0;
    while i < 8
        invariant
            i <= 8,
            bytes@.len() == 16,
            forall|j: int| 0 <= j < i ==> bytes@[j] == discriminator@[j],
        decreases 8 - i,
    {
        if bytes[i] != discriminator[i] {
            proof {
                assert(bytes@.subrange(0, 8)[i as int] == bytes@[i as int]);
            }
            return Err(CounterError::ConstraintViolation);
        }
        i += 1;
    }
    let b0 = bytes[8];
    let b1 = bytes[9];
    let b2 = bytes[10];
    let b3 = bytes[11];
    let b4 = bytes[12];
    let b5 = bytes[13];
    let b6 = bytes[14];
    let b7 = bytes[15];
    let n: u64 = (b0 as u64) | ((b1 as u64) << 8) | ((b2 as u64) << 16) | ((b3 as u64) << 24) | ((
    b4 as u64) << 32) | ((b5 as u64) << 40) | ((b6 as u64) << 48) | ((b7 as u64) << 56);
    proof {
        assert((n & 0xff) as u8 == b0 && ((n >> 8) & 0xff) as u8 == b1 && ((n >> 16) & 0xff) as u8
            == b2 && ((n >> 24) & 0xff) as u8 == b3 && ((n >> 32) & 0xff) as u8 == b4 && ((n >> 40)
            & 0xff) as u8 == b5 && ((n >> 48) & 0xff) as u8 == b6 && ((n >> 56) & 0xff) as u8 == b7)
            by (bit_vector)
            requires
                n == (b0 as u64) | ((b1 as u64) << 8) | ((b2 as u64) << 16) | ((b3 as u64) << 24)
                    | ((b4 as u64) << 32) | ((b5 as u64) << 40) | ((b6 as u64) << 48) | ((
                b7 as u64) << 56),
        ;
        assert(bytes@ =~= discriminator@ + u64_le_bytes(n));
        assert(bytes@.subrange(8, 16) =~= u64_le_bytes(n));
        lemma_u64_le_round_trip(n);
    }
    Ok(Counter { count: n })
}

} // verus!
