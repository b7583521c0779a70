//! The nybble codec: every byte is sent as two bytes that hold four bits
//! each.

use vstd::prelude::*;

use crate::error::SystemExclusiveError;

verus! {

/// Which half of a byte comes first.
#[derive(Copy, Clone, Eq, PartialEq, Hash, Debug, Structural)]
pub enum NybbleOrder {
    HighFirst,
    LowFirst,
}

/// The upper four bits of `byte`, as a value from 0 to 15.
pub open spec fn high_nybble(byte: u8) -> u8 {
    byte >> 4
}

/// The lower four bits of `byte`, as a value from 0 to 15.
pub open spec fn low_nybble(byte: u8) -> u8 {
    byte & 0x0F
}

/// The byte made of the lower four bits of `high` and of `low`.
pub open spec fn join_nybbles(high: u8, low: u8) -> u8 {
    ((high & 0x0F) << 4) | (low & 0x0F)
}

/// Two nybbles for each byte, in the given order.
pub open spec fn spec_nybblify(bytes: Seq<u8>, order: NybbleOrder) -> Seq<u8> {
    Seq::new(
        2 * bytes.len(),
        |i: int|
            if (i % 2 == 0) == (order == NybbleOrder::HighFirst) {
                high_nybble(bytes[i / 2])
            } else {
                low_nybble(bytes[i / 2])
            },
    )
}

/// One byte for each pair of nybbles, in the given order. Only the lower
/// four bits of each input byte count.
pub open spec fn spec_denybblify(nybbles: Seq<u8>, order: NybbleOrder) -> Seq<u8>
    recommends
        nybbles.len() % 2 == 0,
{
    Seq::new(
        nybbles.len() / 2,
        |i: int|
            match order {
                NybbleOrder::HighFirst => join_nybbles(nybbles[2 * i], nybbles[2 * i + 1]),
                NybbleOrder::LowFirst => join_nybbles(nybbles[2 * i + 1], nybbles[2 * i]),
            },
    )
}

/// Joining the two halves of a byte gives the byte.
pub proof fn lemma_join_halves(byte: u8)
    ensures
        join_nybbles(high_nybble(byte), low_nybble(byte)) == byte,
        high_nybble(byte) < 16,
        low_nybble(byte) < 16,
{
    assert(((((byte >> 4) & 0x0F) << 4) | ((byte & 0x0F) & 0x0F)) == byte) by (bit_vector);
    assert(byte >> 4 < 16) by (bit_vector);
    assert(byte & 0x0F < 16) by (bit_vector);
}

/// Splitting any bytes into nybbles and joining them in the same order gives
/// the bytes back.
pub proof fn lemma_nybble_round_trip(bytes: Seq<u8>, order: NybbleOrder)
    ensures
        spec_nybblify(bytes, order).len() == 2 * bytes.len(),
        spec_denybblify(spec_nybblify(bytes, order), order) == bytes,
{
    let nybbles = spec_nybblify(bytes, order);
    let back = spec_denybblify(nybbles, order);
    assert forall|i: int| 0 <= i < bytes.len() implies back[i] == bytes[i] by {
        lemma_join_halves(bytes[i]);
        assert((2 * i) / 2 == i && (2 * i) % 2 == 0);
        assert((2 * i + 1) / 2 == i && (2 * i + 1) % 2 == 1);
    }
    assert(back =~= bytes);
}

/// Every byte that `spec_nybblify` gives holds a value below 16.
pub proof fn lemma_nybbles_are_small(bytes: Seq<u8>, order: NybbleOrder, i: int)
    requires
        0 <= i < 2 * bytes.len(),
    ensures
        spec_nybblify(bytes, order)[i] < 16,
{
    lemma_join_halves(bytes[i / 2]);
}

/// Splits every byte of `data` into two nybbles.
pub fn nybblify(data: &[u8], order: NybbleOrder) -> (nybbles: Vec<u8>)
    ensures
        nybbles@ == spec_nybblify(data@, order),
{
    let n = data.len();
    let mut nybbles: Vec<u8> = Vec::new();
    let mut i: usize = 0;
    while i < n
        invariant
            n == data.len(),
            i <= n,
            nybbles.len() == 2 * i,
            forall|j: int| 0 <= j < 2 * i ==> nybbles[j] == spec_nybblify(data@, order)[j],
        decreases n - i,
    {
        let byte = data[i];
        let high = byte >> 4;
        let low = byte & 0x0F;
        match order {
            NybbleOrder::HighFirst => {
                nybbles.push(high);
                nybbles.push(low);
            },
            NybbleOrder::LowFirst => {
                nybbles.push(low);
                nybbles.push(high);
            },
        }
        assert((2 * i) / 2 == i && (2 * i) % 2 == 0);
        assert((2 * i + 1) / 2 == i && (2 * i + 1) % 2 == 1);
        i += 1;
    }
    assert(nybbles@ =~= spec_nybblify(data@, order));
    nybbles
}

/// Joins every pair of nybbles in `data` into one byte. An input of odd
/// length is rejected.
pub fn denybblify(data: &[u8], order: NybbleOrder) -> (result: Result<Vec<u8>, SystemExclusiveError>)
    ensures
        match result {
            Ok(bytes) => data.len() % 2 == 0 && bytes@ == spec_denybblify(data@, order),
            Err(e) => data.len() % 2 == 1 && e == SystemExclusiveError::MalformedEncoding,
        },
{
    let n = data.len();
    if n % 2 != 0 {
        return Err(SystemExclusiveError::MalformedEncoding);
    }
    let mut bytes: Vec<u8> = Vec::new();
    let mut i: usize = 0;
    while i < n
        invariant
            n == data.len(),
            n % 2 == 0,
            i % 2 == 0,
            i <= n,
            2 * bytes.len() == i,
            forall|j: int| 0 <= j < bytes.len() ==> bytes[j] == spec_denybblify(data@, order)[j],
        decreases n - i,
    {
        let first = data[i];
        let second = data[i + 1];
        let byte = match order {
            NybbleOrder::HighFirst => ((first & 0x0F) << 4) | (second & 0x0F),
            NybbleOrder::LowFirst => ((second & 0x0F) << 4) | (first & 0x0F),
        };
        bytes.push(byte);
        i += 2;
    }
    assert(bytes@ =~= spec_denybblify(data@, order));
    Ok(bytes)
}

} // verus!
