//! The operations on text that the library takes from the standard
//! library as they are. What is stated of them here is not proved.

use vstd::prelude::*;

verus! {

/// The lower-case form of a text, as `str::to_lowercase` gives it.
pub uninterp spec fn lowercase(text: Seq<char>) -> Seq<char>;

/// The byte that a text denotes in a radix, as `u8::from_str_radix` reads
/// it, or `None` where that function gives an error.
pub uninterp spec fn byte_in_radix(text: Seq<char>, radix: u32) -> Option<u8>;

/// `str::eq` of std: two texts are equal when they hold the same
/// characters. Not proved.
#[verifier::external_body]
pub(crate) fn same_text(a: &str, b: &str) -> (same: bool)
    ensures
        same == (a@ == b@),
{
    a == b
}

/// `str::to_lowercase` of std, whose result is named `lowercase`. Not
/// proved.
#[verifier::external_body]
pub(crate) fn to_lowercase(text: &str) -> (lowered: String)
    ensures
        lowered@ == lowercase(text@),
{
    text.to_lowercase()
}

/// `str::starts_with` of std with a text as pattern: whether the first
/// characters of `text` are those of `prefix`. Not proved.
#[verifier::external_body]
pub(crate) fn starts_with(text: &str, prefix: &str) -> (found: bool)
    ensures
        found == prefix@.is_prefix_of(text@),
{
    text.starts_with(prefix)
}

/// `u8::from_str_radix` of std, whose result is named `byte_in_radix`; an
/// error becomes `None`. The radix must lie between 2 and 36, outside of
/// which the function panics. Not proved.
#[verifier::external_body]
pub(crate) fn parse_byte(text: &str, radix: u32) -> (byte: Option<u8>)
    requires
        2 <= radix <= 36,
    ensures
        byte == byte_in_radix(text@, radix),
{
    match u8::from_str_radix(text, radix) {
        Ok(value) => Some(value),
        Err(_) => None,
    }
}

} // verus!
