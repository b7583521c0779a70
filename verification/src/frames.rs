//! Finding the messages in a buffer that may hold several of them.

use vstd::prelude::*;
use vstd::slice::{slice_subrange, slice_to_vec};

use crate::TERMINATOR;

verus! {

/// The number of terminator bytes in `bytes`.
pub open spec fn terminator_count(bytes: Seq<u8>) -> nat
    decreases bytes.len(),
{
    if bytes.len() == 0 {
        0
    } else {
        (if bytes[0] == TERMINATOR {
            1nat
        } else {
            0nat
        }) + terminator_count(bytes.skip(1))
    }
}

/// The length of the first part of `bytes`: up to and including the first
/// terminator, or all of `bytes` where there is none.
pub open spec fn first_part_len(bytes: Seq<u8>) -> int
    decreases bytes.len(),
{
    if bytes.len() == 0 {
        0
    } else if bytes[0] == TERMINATOR {
        1
    } else {
        1 + first_part_len(bytes.skip(1))
    }
}

/// `bytes` cut behind each terminator. Every part but the last ends with a
/// terminator; bytes that follow the last terminator form a last part
/// without one.
pub open spec fn spec_split(bytes: Seq<u8>) -> Seq<Seq<u8>>
    decreases bytes.len(),
    via spec_split_decreases
{
    if bytes.len() == 0 {
        Seq::empty()
    } else {
        let cut = first_part_len(bytes);
        seq![bytes.take(cut)] + spec_split(bytes.skip(cut))
    }
}

#[via_fn]
proof fn spec_split_decreases(bytes: Seq<u8>) {
    lemma_first_part_len_bounds(bytes);
}

/// The parts held by a vector of byte vectors.
pub open spec fn parts_view(parts: Seq<Vec<u8>>) -> Seq<Seq<u8>> {
    parts.map_values(|part: Vec<u8>| part@)
}

/// The first part of a non-empty buffer is non-empty and lies within it.
pub proof fn lemma_first_part_len_bounds(bytes: Seq<u8>)
    ensures
        bytes.len() > 0 ==> 1 <= first_part_len(bytes) <= bytes.len(),
        bytes.len() == 0 ==> first_part_len(bytes) == 0,
    decreases bytes.len(),
{
    if bytes.len() > 0 && bytes[0] != TERMINATOR {
        lemma_first_part_len_bounds(bytes.skip(1));
    }
}

/// Where the first terminator of `bytes` is at index `k`, the first part has
/// `k + 1` bytes; where `bytes` has `k` bytes and no terminator, it has `k`.
proof fn lemma_first_part_len_at(bytes: Seq<u8>, k: int)
    requires
        0 <= k <= bytes.len(),
        forall|j: int| 0 <= j < k ==> bytes[j] != TERMINATOR,
        k < bytes.len() ==> bytes[k] == TERMINATOR,
    ensures
        first_part_len(bytes) == if k < bytes.len() {
            k + 1
        } else {
            k
        },
    decreases k,
{
    if k > 0 {
        let rest = bytes.skip(1);
        assert forall|j: int| 0 <= j < k - 1 implies rest[j] != TERMINATOR by {
            assert(rest[j] == bytes[j + 1]);
        }
        lemma_first_part_len_at(rest, k - 1);
    }
}

/// The first part holds one terminator if it ends with one, else none.
proof fn lemma_first_part_count(bytes: Seq<u8>)
    requires
        bytes.len() > 0,
    ensures
        terminator_count(bytes) == terminator_count(bytes.skip(first_part_len(bytes))) + (if bytes[
            first_part_len(bytes) - 1] == TERMINATOR {
            1nat
        } else {
            0nat
        }),
        bytes[first_part_len(bytes) - 1] != TERMINATOR ==> first_part_len(bytes) == bytes.len(),
    decreases bytes.len(),
{
    lemma_first_part_len_bounds(bytes);
    let rest = bytes.skip(1);
    if bytes[0] == TERMINATOR {
    } else if rest.len() == 0 {
        assert(bytes.skip(1).len() == 0);
    } else {
        lemma_first_part_count(rest);
        lemma_first_part_len_bounds(rest);
        let cut = first_part_len(rest);
        assert(rest.skip(cut) =~= bytes.skip(cut + 1));
        assert(rest[cut - 1] == bytes[cut]);
    }
}

/// There are as many parts as terminators, and one more where the buffer
/// goes on after its last terminator.
pub proof fn lemma_split_len(bytes: Seq<u8>)
    ensures
        spec_split(bytes).len() == terminator_count(bytes) + (if bytes.len() > 0 && bytes[bytes.len()
            - 1] != TERMINATOR {
            1nat
        } else {
            0nat
        }),
    decreases bytes.len(),
{
    if bytes.len() > 0 {
        lemma_first_part_len_bounds(bytes);
        lemma_first_part_count(bytes);
        let cut = first_part_len(bytes);
        let rest = bytes.skip(cut);
        lemma_split_len(rest);
        if rest.len() > 0 {
            assert(rest[rest.len() - 1] == bytes[bytes.len() - 1]);
        }
    }
}

/// For a buffer that ends with a terminator, the number of parts is the
/// number of messages counted.
pub proof fn lemma_split_len_is_count(bytes: Seq<u8>)
    requires
        bytes.len() > 0,
        bytes[bytes.len() - 1] == TERMINATOR,
    ensures
        spec_split(bytes).len() == terminator_count(bytes),
{
    lemma_split_len(bytes);
}

/// What the parts are: none is empty, a terminator stands only at the end of
/// a part, and every part but the last has one there.
pub proof fn lemma_split_parts(bytes: Seq<u8>, i: int)
    requires
        0 <= i < spec_split(bytes).len(),
    ensures
        spec_split(bytes)[i].len() > 0,
        forall|j: int| 0 <= j < spec_split(bytes)[i].len() - 1 ==> spec_split(bytes)[i][j] != TERMINATOR,
        i < spec_split(bytes).len() - 1 ==> spec_split(bytes)[i].last() == TERMINATOR,
    decreases bytes.len(),
{
    if bytes.len() > 0 {
        lemma_first_part_len_bounds(bytes);
        let cut = first_part_len(bytes);
        let rest = bytes.skip(cut);
        if i == 0 {
            lemma_first_part_inner(bytes);
            lemma_first_part_count(bytes);
            if spec_split(bytes).len() > 1 {
                assert(spec_split(rest).len() > 0);
                assert(rest.len() > 0);
            }
        } else {
            lemma_split_parts(rest, i - 1);
        }
    }
}

/// No terminator stands before the last byte of the first part.
proof fn lemma_first_part_inner(bytes: Seq<u8>)
    ensures
        forall|j: int| 0 <= j < first_part_len(bytes) - 1 ==> bytes[j] != TERMINATOR,
    decreases bytes.len(),
{
    if bytes.len() > 0 && bytes[0] != TERMINATOR {
        let rest = bytes.skip(1);
        lemma_first_part_inner(rest);
        lemma_first_part_len_bounds(bytes);
        assert forall|j: int| 0 <= j < first_part_len(bytes) - 1 implies bytes[j] != TERMINATOR by {
            if j > 0 {
                assert(rest[j - 1] == bytes[j]);
            }
        }
    }
}

/// The parts, put together in order, are the buffer.
pub proof fn lemma_split_flatten(bytes: Seq<u8>)
    ensures
        spec_split(bytes).flatten() == bytes,
    decreases bytes.len(),
{
    if bytes.len() == 0 {
        assert(spec_split(bytes).flatten() =~= bytes);
    } else {
        lemma_first_part_len_bounds(bytes);
        let cut = first_part_len(bytes);
        let rest = bytes.skip(cut);
        lemma_split_flatten(rest);
        let parts = spec_split(bytes);
        assert(parts.first() == bytes.take(cut));
        assert(parts.drop_first() =~= spec_split(rest));
        assert(bytes.take(cut) + rest =~= bytes);
    }
}

/// The number of messages in `data`, counted by their terminator bytes.
pub fn message_count(data: &Vec<u8>) -> (count: usize)
    ensures
        count == terminator_count(data@),
{
    let n = data.len();
    let mut count: usize = 0;
    let mut i: usize = 0;
    assert(data@.skip(0) =~= data@);
    while i < n
        invariant
            n == data.len(),
            i <= n,
            count <= i,
            count + terminator_count(data@.skip(i as int)) == terminator_count(data@),
        decreases n - i,
    {
        assert(data@.skip(i as int).skip(1) =~= data@.skip(i + 1));
        if data[i] == TERMINATOR {
            count += 1;
        }
        i += 1;
    }
    count
}

/// Cuts `data` behind each terminator byte. Bytes after the last terminator
/// are kept as a last part.
pub fn split_messages(data: Vec<u8>) -> (parts: Vec<Vec<u8>>)
    ensures
        parts_view(parts@) == spec_split(data@),
        data.len() == 0 || data[data.len() - 1] == TERMINATOR ==> parts.len() == terminator_count(
            data@,
        ),
{
    let bytes = data.as_slice();
    let n = bytes.len();
    let mut parts: Vec<Vec<u8>> = Vec::new();
    let mut start: usize = 0;
    let mut i: usize = 0;
    assert(data@.skip(0) =~= data@);
    assert(parts_view(parts@) + spec_split(data@) =~= spec_split(data@));
    while i < n
        invariant
            n == bytes.len(),
            bytes@ == data@,
            start <= i <= n,
            forall|j: int| start <= j < i ==> bytes[j] != TERMINATOR,
            spec_split(data@) == parts_view(parts@) + spec_split(data@.skip(start as int)),
        decreases n - i,
    {
        if bytes[i] == TERMINATOR {
            let part = slice_to_vec(slice_subrange(bytes, start, i + 1));
            proof {
                let rest = data@.skip(start as int);
                lemma_first_part_len_at(rest, i - start);
                assert(rest.take(i + 1 - start) =~= part@);
                assert(rest.skip(i + 1 - start) =~= data@.skip(i + 1));
                assert(parts_view(parts@.push(part)) =~= parts_view(parts@) + seq![part@]);
                assert(spec_split(rest) == seq![part@] + spec_split(data@.skip(i + 1)));
                assert(parts_view(parts@) + (seq![part@] + spec_split(data@.skip(i + 1)))
                    =~= parts_view(parts@) + seq![part@] + spec_split(data@.skip(i + 1)));
            }
            parts.push(part);
            start = i + 1;
        }
        i += 1;
    }
    if start < n {
        let part = slice_to_vec(slice_subrange(bytes, start, n));
        proof {
            let rest = data@.skip(start as int);
            lemma_first_part_len_at(rest, n - start);
            assert(rest.take(n - start) =~= part@);
            assert(rest.skip(n - start) =~= Seq::<u8>::empty());
            assert(spec_split(rest.skip(n - start)) =~= Seq::<Seq<u8>>::empty());
            assert(parts_view(parts@.push(part)) =~= parts_view(parts@) + seq![part@]);
            assert(spec_split(rest) =~= seq![part@]);
        }
        parts.push(part);
    } else {
        assert(spec_split(data@.skip(start as int)) =~= Seq::<Seq<u8>>::empty());
        assert(parts_view(parts@) + Seq::<Seq<u8>>::empty() =~= parts_view(parts@));
    }
    proof {
        lemma_split_len(data@);
        assert(parts_view(parts@).len() == parts@.len());
    }
    parts
}

} // verus!
