//! The packed encoding: eight-bit bytes carried in bytes whose top bit is
//! clear. Every group of up to seven bytes is preceded by an index byte that
//! collects their top bits.

use vstd::prelude::*;

use crate::error::SystemExclusiveError;

verus! {

/// The length of the packed form of `n` bytes: one index byte more for
/// every group of up to seven.
pub open spec fn packed_len(n: nat) -> nat {
    n + (n + 6) / 7
}

/// The number of bytes that a packed buffer of `n` bytes stands for.
pub open spec fn unpacked_len(n: nat) -> nat {
    (n - (n + 7) / 8) as nat
}

/// The top bit of the byte at position `i` of group `group`, as 0 or 1;
/// 0 where the group has no such byte.
pub open spec fn top_bit(bytes: Seq<u8>, group: int, i: int) -> u8 {
    if 7 * group + i < bytes.len() {
        bytes[7 * group + i] >> 7
    } else {
        0
    }
}

/// The byte whose bits 0 to 6 are the given bits, and whose bit 7 is clear.
pub open spec fn collect_bits(b0: u8, b1: u8, b2: u8, b3: u8, b4: u8, b5: u8, b6: u8) -> u8 {
    b0 | (b1 << 1) | (b2 << 2) | (b3 << 3) | (b4 << 4) | (b5 << 5) | (b6 << 6)
}

/// The index byte of group `group`: bit `i` is the top bit of the group's
/// byte at position `i`.
pub open spec fn index_byte(bytes: Seq<u8>, group: int) -> u8 {
    collect_bits(
        top_bit(bytes, group, 0),
        top_bit(bytes, group, 1),
        top_bit(bytes, group, 2),
        top_bit(bytes, group, 3),
        top_bit(bytes, group, 4),
        top_bit(bytes, group, 5),
        top_bit(bytes, group, 6),
    )
}

/// `data` with its top bit taken from bit `i` of `index`.
pub open spec fn restore_top_bit(data: u8, index: u8, i: u8) -> u8 {
    (data & 0x7F) | (((index >> i) & 1) << 7)
}

/// The packed form of `bytes`. Position `8 * g` holds the index byte of
/// group `g`; the positions behind it hold the group's bytes without their
/// top bits.
pub open spec fn spec_pack(bytes: Seq<u8>) -> Seq<u8> {
    Seq::new(
        packed_len(bytes.len()),
        |j: int|
            if j % 8 == 0 {
                index_byte(bytes, j / 8)
            } else {
                bytes[7 * (j / 8) + j % 8 - 1] & 0x7F
            },
    )
}

/// Whether `unpack` accepts a buffer of `n` bytes: its last group must not
/// be an index byte alone.
pub open spec fn unpackable_len(n: nat) -> bool {
    n % 8 != 1
}

/// The bytes that a packed buffer stands for. Byte `i` of group `g` gets
/// its top bit from bit `i` of the byte at position `8 * g`.
pub open spec fn spec_unpack(packed: Seq<u8>) -> Seq<u8>
    recommends
        unpackable_len(packed.len()),
{
    Seq::new(
        unpacked_len(packed.len()),
        |k: int| restore_top_bit(packed[8 * (k / 7) + 1 + k % 7], packed[8 * (k / 7)], (k % 7) as u8),
    )
}

proof fn lemma_collected_bit(b0: u8, b1: u8, b2: u8, b3: u8, b4: u8, b5: u8, b6: u8)
    by (bit_vector)
    requires
        b0 <= 1,
        b1 <= 1,
        b2 <= 1,
        b3 <= 1,
        b4 <= 1,
        b5 <= 1,
        b6 <= 1,
    ensures
        (collect_bits(b0, b1, b2, b3, b4, b5, b6) >> 0u8) & 1 == b0,
        (collect_bits(b0, b1, b2, b3, b4, b5, b6) >> 1u8) & 1 == b1,
        (collect_bits(b0, b1, b2, b3, b4, b5, b6) >> 2u8) & 1 == b2,
        (collect_bits(b0, b1, b2, b3, b4, b5, b6) >> 3u8) & 1 == b3,
        (collect_bits(b0, b1, b2, b3, b4, b5, b6) >> 4u8) & 1 == b4,
        (collect_bits(b0, b1, b2, b3, b4, b5, b6) >> 5u8) & 1 == b5,
        (collect_bits(b0, b1, b2, b3, b4, b5, b6) >> 6u8) & 1 == b6,
        collect_bits(b0, b1, b2, b3, b4, b5, b6) < 0x80,
{
}

proof fn lemma_top_bit_split(byte: u8)
    by (bit_vector)
    ensures
        byte >> 7 <= 1,
        byte & 0x7F < 0x80,
        ((byte & 0x7F) & 0x7F) | ((byte >> 7) << 7) == byte,
{
}

/// Bit `i` of the index byte of a group is the top bit of the group's byte
/// at position `i`, and bit 7 of the index byte is clear.
pub proof fn lemma_index_byte_bits(bytes: Seq<u8>, group: int, i: int)
    requires
        0 <= group,
        0 <= i < 7,
    ensures
        (index_byte(bytes, group) >> (i as u8)) & 1 == top_bit(bytes, group, i),
        index_byte(bytes, group) < 0x80,
{
    let b0 = top_bit(bytes, group, 0);
    let b1 = top_bit(bytes, group, 1);
    let b2 = top_bit(bytes, group, 2);
    let b3 = top_bit(bytes, group, 3);
    let b4 = top_bit(bytes, group, 4);
    let b5 = top_bit(bytes, group, 5);
    let b6 = top_bit(bytes, group, 6);
    assert forall|k: int| 0 <= k < 7 implies #[trigger] top_bit(bytes, group, k) <= 1 by {
        if 7 * group + k < bytes.len() {
            lemma_top_bit_split(bytes[7 * group + k]);
        }
    }
    lemma_collected_bit(b0, b1, b2, b3, b4, b5, b6);
}

/// The packed form has the stated length, which `unpack` accepts, and every
/// byte of it has its top bit clear.
pub proof fn lemma_pack_is_seven_bit(bytes: Seq<u8>)
    ensures
        spec_pack(bytes).len() == packed_len(bytes.len()),
        unpackable_len(spec_pack(bytes).len()),
        unpacked_len(spec_pack(bytes).len()) == bytes.len(),
        forall|j: int| 0 <= j < spec_pack(bytes).len() ==> spec_pack(bytes)[j] < 0x80,
{
    let packed = spec_pack(bytes);
    assert forall|j: int| 0 <= j < packed.len() implies packed[j] < 0x80 by {
        if j % 8 == 0 {
            lemma_index_byte_bits(bytes, j / 8, 0);
        } else {
            lemma_top_bit_split(bytes[7 * (j / 8) + j % 8 - 1]);
        }
    }
}

/// Packing any bytes and unpacking the result gives the bytes back.
pub proof fn lemma_pack_round_trip(bytes: Seq<u8>)
    ensures
        unpackable_len(spec_pack(bytes).len()),
        spec_unpack(spec_pack(bytes)) == bytes,
{
    let packed = spec_pack(bytes);
    let back = spec_unpack(packed);
    lemma_pack_is_seven_bit(bytes);
    assert forall|k: int| 0 <= k < bytes.len() implies back[k] == bytes[k] by {
        let g = k / 7;
        let i = k % 7;
        let j = 8 * g + 1 + i;
        assert(j % 8 == 1 + i && j / 8 == g);
        assert((8 * g) % 8 == 0 && (8 * g) / 8 == g);
        assert(j < packed.len());
        assert(packed[j] == bytes[k] & 0x7F);
        assert(packed[8 * g] == index_byte(bytes, g));
        lemma_index_byte_bits(bytes, g, i);
        assert(top_bit(bytes, g, i) == bytes[k] >> 7);
        lemma_top_bit_split(bytes[k]);
    }
    assert(back =~= bytes);
}

/// The top bit, as 0 or 1, of the byte at position `i` of the group that
/// starts at index `first`; 0 where `data` ends before it.
fn top_bit_at(data: &[u8], first: usize, i: usize) -> (bit: u8)
    requires
        first % 7 == 0,
        first < data.len(),
        i < 7,
    ensures
        bit == top_bit(data@, first as int / 7, i as int),
{
    if i < data.len() - first {
        data[first + i] >> 7
    } else {
        0
    }
}

/// Packs `data` into bytes whose top bit is clear.
pub fn pack(data: &[u8]) -> (packed: Vec<u8>)
    ensures
        packed@ == spec_pack(data@),
{
    let n = data.len();
    let mut packed: Vec<u8> = Vec::new();
    let mut k: usize = 0;
    while k < n
        invariant
            n == data.len(),
            k <= n,
            packed.len() == packed_len(k as nat),
            forall|j: int| 0 <= j < packed.len() ==> packed[j] == spec_pack(data@)[j],
        decreases n - k,
    {
        if k % 7 == 0 {
            let b0 = top_bit_at(data, k, 0);
            let b1 = top_bit_at(data, k, 1);
            let b2 = top_bit_at(data, k, 2);
            let b3 = top_bit_at(data, k, 3);
            let b4 = top_bit_at(data, k, 4);
            let b5 = top_bit_at(data, k, 5);
            let b6 = top_bit_at(data, k, 6);
            let index = b0 | (b1 << 1) | (b2 << 2) | (b3 << 3) | (b4 << 4) | (b5 << 5) | (b6 << 6);
            assert(packed.len() == 8 * (k / 7));
            assert(index == index_byte(data@, k as int / 7));
            packed.push(index);
        }
        assert(packed.len() == k + k / 7 + 1);
        assert((k + k / 7 + 1) % 8 == k % 7 + 1 && (k + k / 7 + 1) / 8 == k / 7);
        packed.push(data[k] & 0x7F);
        k += 1;
    }
    assert(packed@ =~= spec_pack(data@));
    packed
}

/// Restores the bytes that `data` stands for. A buffer whose last group is
/// an index byte alone is rejected; a shorter last group is accepted, and
/// index bits that no byte belongs to are ignored.
pub fn unpack(data: &[u8]) -> (result: Result<Vec<u8>, SystemExclusiveError>)
    ensures
        match result {
            Ok(bytes) => unpackable_len(data@.len()) && bytes@ == spec_unpack(data@),
            Err(e) => !unpackable_len(data@.len()) && e == SystemExclusiveError::MalformedEncoding,
        },
{
    let n = data.len();
    if n % 8 == 1 {
        return Err(SystemExclusiveError::MalformedEncoding);
    }
    let mut bytes: Vec<u8> = Vec::new();
    let mut index: u8 = 0;
    let mut j: usize = 0;
    while j < n
        invariant
            n == data.len(),
            n % 8 != 1,
            j <= n,
            bytes.len() == unpacked_len(j as nat),
            j % 8 != 0 ==> index == data[8 * (j as int / 8)],
            forall|k: int| 0 <= k < bytes.len() ==> bytes[k] == spec_unpack(data@)[k],
        decreases n - j,
    {
        let position = j % 8;
        if position == 0 {
            index = data[j];
        } else {
            let i: u8 = (position - 1) as u8;
            let byte = (data[j] & 0x7F) | (((index >> i) & 1) << 7);
            proof {
                let k = bytes.len() as int;
                assert(k == 7 * (j / 8) + position - 1);
                assert(k / 7 == j / 8 && k % 7 == position - 1);
                assert(8 * (k / 7) + 1 + k % 7 == j);
                assert(k < unpacked_len(n as nat));
            }
            bytes.push(byte);
        }
        j += 1;
    }
    assert(bytes@ =~= spec_unpack(data@));
    Ok(bytes)
}

} // verus!
