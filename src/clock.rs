//! The Unix timestamp of the clock sysvar, read from the account's data.
//!
//! The clock is five 8-byte little-endian fields: slot, epoch start
//! timestamp, epoch, leader schedule epoch and Unix timestamp. Data of at
//! least 40 bytes decodes; shorter data does not.

use vstd::prelude::*;

verus! {

/// Length of the clock's encoding.
pub const CLOCK_DATA_LEN: usize = 40;

/// Offset of the Unix timestamp in the clock's encoding.
pub const CLOCK_TIMESTAMP_OFFSET: usize = 32;

/// The unsigned little-endian value of the bytes `b`.
pub open spec fn le_value(b: Seq<u8>) -> nat
    decreases b.len(),
{
    if b.len() == 0 {
        0
    } else {
        (b[0] + 256 * le_value(b.drop_first())) as nat
    }
}

/// 256 to the power `k`.
pub open spec fn pow256(k: nat) -> nat
    decreases k,
{
    if k == 0 {
        1
    } else {
        256 * pow256((k - 1) as nat)
    }
}

/// The two's complement reading of a 64-bit value `u`.
pub open spec fn signed64(u: nat) -> int {
    if u < 0x8000_0000_0000_0000nat {
        u as int
    } else {
        u - 0x1_0000_0000_0000_0000int
    }
}

/// The clock's Unix timestamp in `data`, or `None` when the data is too short
/// to be a clock.
pub open spec fn clock_timestamp_of(data: Seq<u8>) -> Option<int> {
    if data.len() < CLOCK_DATA_LEN {
        None
    } else {
        Some(signed64(le_value(data.subrange(CLOCK_TIMESTAMP_OFFSET as int, CLOCK_DATA_LEN as int))))
    }
}

proof fn lemma_le_value_bound(b: Seq<u8>)
    ensures
        le_value(b) < pow256(b.len()),
    decreases b.len(),
{
    if b.len() > 0 {
        let rest = b.drop_first();
        lemma_le_value_bound(rest);
        let x = b[0] as nat;
        let v = le_value(rest);
        let p = pow256(rest.len());
        assert(x + 256 * v < 256 * p) by (nonlinear_arith)
            requires
                x < 256,
                v < p,
        ;
    }
}

/// Reads the clock's Unix timestamp from the data of the clock account.
pub fn clock_unix_timestamp(data: &Vec<u8>) -> (r: Option<i64>)
    ensures
        r is None <==> clock_timestamp_of(data@) is None,
        r matches Some(t) ==> clock_timestamp_of(data@) == Some(t as int),
{
    if data.len() < CLOCK_DATA_LEN {
        return None;
    }
    let ghost field = data@.subrange(CLOCK_TIMESTAMP_OFFSET as int, CLOCK_DATA_LEN as int);
    let mut acc: u64 = 0;
    let mut i: usize = CLOCK_DATA_LEN;
    proof {
        assert(data@.subrange(i as int, CLOCK_DATA_LEN as int) =~= Seq::<u8>::empty());
    }
    while i > CLOCK_TIMESTAMP_OFFSET
        invariant
            CLOCK_TIMESTAMP_OFFSET <= i <= CLOCK_DATA_LEN,
            data@.len() >= CLOCK_DATA_LEN,
            acc as nat == le_value(data@.subrange(i as int, CLOCK_DATA_LEN as int)),
        decreases i,
    {
        i = i - 1;
        let ghost tail = data@.subrange(i as int + 1, CLOCK_DATA_LEN as int);
        let ghost here = data@.subrange(i as int, CLOCK_DATA_LEN as int);
        proof {
            assert(here.drop_first() =~= tail);
            lemma_le_value_bound(tail);
            reveal_with_fuel(pow256, 8);
            assert(pow256(tail.len()) <= 0x100_0000_0000_0000nat);
        }
        acc = data[i] as u64 + 256 * acc;
    }
    assert(data@.subrange(i as int, CLOCK_DATA_LEN as int) == field);
    let t: i64 = if acc < 0x8000_0000_0000_0000u64 {
        acc as i64
    } else {
        (acc - 0x8000_0000_0000_0000u64) as i64 + i64::MIN
    };
    Some(t)
}

} // verus!
