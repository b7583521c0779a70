//! Hexadecimal text for identifiers, written and read by the `hex` crate.

use vstd::prelude::*;

verus! {

/// The sixteen upper-case hexadecimal digits, by value.
pub open spec fn upper_hex_digits() -> Seq<char> {
    seq!['0', '1', '2', '3', '4', '5', '6', '7', '8', '9', 'A', 'B', 'C', 'D', 'E', 'F']
}

/// Two upper-case hexadecimal digits for every byte, the upper half of the
/// byte first.
pub open spec fn spec_encode_upper(bytes: Seq<u8>) -> Seq<char> {
    Seq::new(
        2 * bytes.len(),
        |i: int|
            if i % 2 == 0 {
                upper_hex_digits()[(bytes[i / 2] >> 4) as int]
            } else {
                upper_hex_digits()[(bytes[i / 2] & 0x0F) as int]
            },
    )
}

/// The value of a hexadecimal digit of either case.
pub open spec fn hex_digit_value(c: char) -> Option<u8> {
    if '0' <= c <= '9' {
        Some((c as u32 - '0' as u32) as u8)
    } else if 'A' <= c <= 'F' {
        Some((c as u32 - 'A' as u32 + 10) as u8)
    } else if 'a' <= c <= 'f' {
        Some((c as u32 - 'a' as u32 + 10) as u8)
    } else {
        None
    }
}

/// Hexadecimal text has an even number of characters, all of them
/// hexadecimal digits.
pub open spec fn is_hex_text(text: Seq<char>) -> bool {
    &&& text.len() % 2 == 0
    &&& forall|i: int| 0 <= i < text.len() ==> hex_digit_value(#[trigger] text[i]) is Some
}

/// The bytes that hexadecimal text stands for, one for every two digits.
pub open spec fn spec_decode(text: Seq<char>) -> Seq<u8>
    recommends
        is_hex_text(text),
{
    Seq::new(
        text.len() / 2,
        |i: int|
            (hex_digit_value(text[2 * i]).unwrap() << 4) | hex_digit_value(text[2 * i + 1]).unwrap(),
    )
}

/// Every upper-case digit has the value that it was chosen for.
pub proof fn lemma_digit_value(value: u8)
    requires
        value < 16,
    ensures
        hex_digit_value(upper_hex_digits()[value as int]) == Some(value),
{
    let digits = upper_hex_digits();
    assert(digits[0] == '0' && digits[1] == '1' && digits[2] == '2' && digits[3] == '3');
    assert(digits[4] == '4' && digits[5] == '5' && digits[6] == '6' && digits[7] == '7');
    assert(digits[8] == '8' && digits[9] == '9' && digits[10] == 'A' && digits[11] == 'B');
    assert(digits[12] == 'C' && digits[13] == 'D' && digits[14] == 'E' && digits[15] == 'F');
}

/// The text written for any bytes is hexadecimal text, and reading it gives
/// the bytes back.
pub proof fn lemma_hex_round_trip(bytes: Seq<u8>)
    ensures
        spec_encode_upper(bytes).len() == 2 * bytes.len(),
        is_hex_text(spec_encode_upper(bytes)),
        spec_decode(spec_encode_upper(bytes)) == bytes,
{
    let text = spec_encode_upper(bytes);
    assert forall|i: int| 0 <= i < text.len() implies hex_digit_value(#[trigger] text[i]) is Some by {
        let byte = bytes[i / 2];
        assert(byte >> 4 < 16 && byte & 0x0F < 16) by (bit_vector);
        lemma_digit_value(byte >> 4);
        lemma_digit_value(byte & 0x0F);
    }
    let back = spec_decode(text);
    assert forall|k: int| 0 <= k < bytes.len() implies back[k] == bytes[k] by {
        let byte = bytes[k];
        assert((2 * k) / 2 == k && (2 * k) % 2 == 0);
        assert((2 * k + 1) / 2 == k && (2 * k + 1) % 2 == 1);
        assert(byte >> 4 < 16 && byte & 0x0F < 16) by (bit_vector);
        lemma_digit_value(byte >> 4);
        lemma_digit_value(byte & 0x0F);
        assert(((byte >> 4) << 4) | (byte & 0x0F) == byte) by (bit_vector);
    }
    assert(back =~= bytes);
}

/// The error of `hex::decode`, of which only its presence is used.
#[verifier::external_type_specification]
#[verifier::external_body]
pub struct ExFromHexError(hex::FromHexError);

/// `hex::encode_upper`: every byte becomes two digits out of
/// `0123456789ABCDEF`, the digit of the upper four bits first. Not proved.
#[verifier::external_body]
pub(crate) fn encode_upper(bytes: &Vec<u8>) -> (text: String)
    ensures
        text@ == spec_encode_upper(bytes@),
{
    hex::encode_upper(bytes)
}

/// `hex::decode`: it succeeds exactly on an even number of characters that
/// are all hexadecimal digits of either case, and then every two digits
/// give one byte, the first digit its upper four bits. Not proved.
#[verifier::external_body]
pub(crate) fn decode(text: &str) -> (result: Result<Vec<u8>, hex::FromHexError>)
    ensures
        result is Ok <==> is_hex_text(text@),
        result matches Ok(bytes) ==> bytes@ == spec_decode(text@),
{
    hex::decode(text)
}

} // verus!
