//! Messages received as text: one line names the kind of MIDI message and
//! the radix, and lists the bytes between the two delimiters as numbers.

use vstd::prelude::*;

use crate::text::{byte_in_radix, parse_byte, same_text};
use crate::{INITIATOR, TERMINATOR};

verus! {

/// The bytes that are present among `parsed`, in their order.
pub open spec fn present_bytes(parsed: Seq<Option<u8>>) -> Seq<u8>
    decreases parsed.len(),
{
    if parsed.len() == 0 {
        Seq::empty()
    } else {
        let before = present_bytes(parsed.drop_last());
        match parsed.last() {
            Some(byte) => before.push(byte),
            None => before,
        }
    }
}

/// `data` between an initiator and a terminator.
pub open spec fn spec_enclose(data: Seq<u8>) -> Seq<u8> {
    seq![INITIATOR] + data + seq![TERMINATOR]
}

/// A line carries a System Exclusive message when it has at least three
/// words and the first of them says so.
pub open spec fn is_system_exclusive_line(words: Seq<Seq<char>>) -> bool {
    words.len() >= 3 && words[0] == "system-exclusive"@
}

/// The radix that the second word announces: 16 for `hex`, else 10.
pub open spec fn line_radix(words: Seq<Seq<char>>) -> u32 {
    if words[1] == "hex"@ {
        16
    } else {
        10
    }
}

/// What each word from the third on denotes in the radix of the line.
pub open spec fn line_numbers(words: Seq<Seq<char>>) -> Seq<Option<u8>> {
    Seq::new((words.len() - 2) as nat, |i: int| byte_in_radix(words[i + 2], line_radix(words)))
}

/// The frame that a line of words stands for: the numbers that could be
/// read, between the two delimiters. Words that are no number in the radix
/// are passed over.
pub open spec fn spec_received_frame(words: Seq<Seq<char>>) -> Option<Seq<u8>> {
    if is_system_exclusive_line(words) {
        Some(spec_enclose(present_bytes(line_numbers(words))))
    } else {
        None
    }
}

/// The frame made of the bytes that are present among `parsed`.
pub fn frame_of_parsed(parsed: &Vec<Option<u8>>) -> (frame: Vec<u8>)
    ensures
        frame@ == spec_enclose(present_bytes(parsed@)),
{
    let n = parsed.len();
    let mut frame: Vec<u8> = Vec::new();
    frame.push(INITIATOR);
    let mut i: usize = 0;
    assert(parsed@.take(0) =~= Seq::<Option<u8>>::empty());
    while i < n
        invariant
            n == parsed.len(),
            i <= n,
            frame@ == seq![INITIATOR] + present_bytes(parsed@.take(i as int)),
        decreases n - i,
    {
        assert(parsed@.take(i + 1).drop_last() =~= parsed@.take(i as int));
        match parsed[i] {
            Some(byte) => {
                frame.push(byte);
                assert(frame@ =~= seq![INITIATOR] + present_bytes(parsed@.take(i + 1)));
            },
            None => {},
        }
        i += 1;
    }
    assert(parsed@.take(n as int) =~= parsed@);
    frame.push(TERMINATOR);
    assert(frame@ =~= spec_enclose(present_bytes(parsed@)));
    frame
}

/// Reads the frame of a System Exclusive message from the words of a line
/// of text. A line of fewer than three words, or of another kind of MIDI
/// message, gives no frame.
pub fn received_frame(words: &Vec<&str>) -> (frame: Option<Vec<u8>>)
    ensures
        match frame {
            Some(bytes) => spec_received_frame(words@.map_values(|w: &str| w@)) == Some(bytes@),
            None => spec_received_frame(words@.map_values(|w: &str| w@)) is None,
        },
{
    let ghost texts = words@.map_values(|w: &str| w@);
    let n = words.len();
    if n < 3 {
        return None;
    }
    assert(texts[0] == words[0]@ && texts[1] == words[1]@);
    if !same_text(words[0], "system-exclusive") {
        return None;
    }
    let radix: u32 = if same_text(words[1], "hex") {
        16
    } else {
        10
    };
    let mut parsed: Vec<Option<u8>> = Vec::new();
    let mut i: usize = 2;
    while i < n
        invariant
            n == words.len(),
            2 <= i <= n,
            radix == 10 || radix == 16,
            radix == line_radix(texts),
            texts == words@.map_values(|w: &str| w@),
            parsed.len() == i - 2,
            forall|j: int| 0 <= j < parsed.len() ==> parsed[j] == line_numbers(texts)[j],
        decreases n - i,
    {
        assert(texts[i as int] == words[i as int]@);
        parsed.push(parse_byte(words[i], radix));
        i += 1;
    }
    assert(parsed@ =~= line_numbers(texts));
    Some(frame_of_parsed(&parsed))
}

} // verus!
