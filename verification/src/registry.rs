//! Looking manufacturers up in the table of names: the name of an
//! identifier, and the identifier of a name that is known by its beginning.

use vstd::prelude::*;

use crate::error::SystemExclusiveError;
use crate::hexadecimal::{decode, is_hex_text, lemma_hex_round_trip, spec_decode};
use crate::manufacturer::Manufacturer;
use crate::names::{MANUFACTURER_COUNT, MANUFACTURER_NAMES};
use crate::text::{lowercase, same_text, starts_with, to_lowercase};

verus! {

/// The table of names as pairs of texts: hexadecimal identifier and name.
pub open spec fn registry() -> Seq<(Seq<char>, Seq<char>)> {
    Seq::new(
        MANUFACTURER_COUNT as nat,
        |i: int| (MANUFACTURER_NAMES[i].0@, MANUFACTURER_NAMES[i].1@),
    )
}

/// The name of the first entry of `table` whose identifier is `key`.
pub open spec fn spec_lookup(table: Seq<(Seq<char>, Seq<char>)>, key: Seq<char>) -> Option<
    Seq<char>,
>
    decreases table.len(),
{
    if table.len() == 0 {
        None
    } else if table[0].0 == key {
        Some(table[0].1)
    } else {
        spec_lookup(table.skip(1), key)
    }
}

/// The index of the first of `texts`, from index `from` on, that starts
/// with `prefix`.
pub open spec fn spec_first_with_prefix(texts: Seq<Seq<char>>, prefix: Seq<char>, from: int) -> Option<
    int,
>
    decreases texts.len() - from,
{
    if from < 0 || from >= texts.len() {
        None
    } else if prefix.is_prefix_of(texts[from]) {
        Some(from)
    } else {
        spec_first_with_prefix(texts, prefix, from + 1)
    }
}

/// The names of the table in lower case, in the table's order.
pub open spec fn lowercase_names() -> Seq<Seq<char>> {
    Seq::new(MANUFACTURER_COUNT as nat, |i: int| lowercase(registry()[i].1))
}

/// The manufacturer that a hexadecimal identifier stands for: the text must
/// be hexadecimal and give one or three bytes.
pub open spec fn spec_from_hex(hex_id: Seq<char>) -> Result<Manufacturer, SystemExclusiveError> {
    if is_hex_text(hex_id) {
        Manufacturer::spec_from_bytes(spec_decode(hex_id))
    } else {
        Err(SystemExclusiveError::InvalidManufacturer)
    }
}

/// The manufacturer of the first entry of the table whose name, in lower
/// case, starts with `prefix`.
pub open spec fn spec_find(prefix: Seq<char>) -> Result<Manufacturer, SystemExclusiveError> {
    match spec_first_with_prefix(lowercase_names(), prefix, 0) {
        Some(i) => spec_from_hex(registry()[i].0),
        None => Err(SystemExclusiveError::InvalidManufacturer),
    }
}

/// A name that is found belongs to the first entry with the key, and where
/// none is found, no entry has the key.
pub proof fn lemma_lookup(table: Seq<(Seq<char>, Seq<char>)>, key: Seq<char>)
    ensures
        match spec_lookup(table, key) {
            Some(name) => exists|i: int|
                {
                    &&& 0 <= i < table.len()
                    &&& #[trigger] table[i] == (key, name)
                    &&& forall|j: int| 0 <= j < i ==> (#[trigger] table[j]).0 != key
                },
            None => forall|i: int| 0 <= i < table.len() ==> (#[trigger] table[i]).0 != key,
        },
    decreases table.len(),
{
    if table.len() > 0 {
        let rest = table.skip(1);
        if table[0].0 == key {
            assert(table[0] == (key, table[0].1));
        } else {
            lemma_lookup(rest, key);
            match spec_lookup(rest, key) {
                Some(name) => {
                    let i = choose|i: int|
                        {
                            &&& 0 <= i < rest.len()
                            &&& #[trigger] rest[i] == (key, name)
                            &&& forall|j: int| 0 <= j < i ==> (#[trigger] rest[j]).0 != key
                        };
                    assert(table[i + 1] == rest[i]);
                    assert forall|j: int| 0 <= j < i + 1 implies (#[trigger] table[j]).0 != key by {
                        if j > 0 {
                            assert(table[j] == rest[j - 1]);
                        }
                    }
                },
                None => {
                    assert forall|i: int| 0 <= i < table.len() implies (#[trigger] table[i]).0
                        != key by {
                        if i > 0 {
                            assert(table[i] == rest[i - 1]);
                        }
                    }
                },
            }
        }
    }
}

/// The first match is a match, nothing before it is one, and where there is
/// none, no text from `from` on starts with the prefix.
pub proof fn lemma_first_with_prefix(texts: Seq<Seq<char>>, prefix: Seq<char>, from: int)
    requires
        0 <= from,
    ensures
        match spec_first_with_prefix(texts, prefix, from) {
            Some(i) => {
                &&& from <= i < texts.len()
                &&& prefix.is_prefix_of(texts[i])
                &&& forall|j: int| from <= j < i ==> !prefix.is_prefix_of(texts[j])
            },
            None => forall|j: int| from <= j < texts.len() ==> !prefix.is_prefix_of(texts[j]),
        },
    decreases texts.len() - from,
{
    if from < texts.len() && !prefix.is_prefix_of(texts[from]) {
        lemma_first_with_prefix(texts, prefix, from + 1);
    }
}

/// The hexadecimal text of an identifier stands for that identifier. The one
/// exception is the development byte stored as a standard identifier, whose
/// text stands for `Development`.
pub proof fn lemma_hex_identifies(id: Manufacturer)
    requires
        id != Manufacturer::Standard(crate::DEVELOPMENT),
    ensures
        spec_from_hex(id.spec_to_hex()) == Ok::<Manufacturer, SystemExclusiveError>(id),
{
    lemma_hex_round_trip(id.spec_to_bytes());
    crate::manufacturer::lemma_manufacturer_round_trip(id);
}

/// The name under which the table lists a hexadecimal identifier.
pub fn lookup_name(hex_id: &str) -> (name: Option<&'static str>)
    ensures
        match name {
            Some(n) => spec_lookup(registry(), hex_id@) == Some(n@),
            None => spec_lookup(registry(), hex_id@) is None,
        },
{
    let mut i: usize = 0;
    assert(registry().skip(0) =~= registry());
    while i < MANUFACTURER_COUNT
        invariant
            i <= MANUFACTURER_COUNT,
            spec_lookup(registry(), hex_id@) == spec_lookup(registry().skip(i as int), hex_id@),
        decreases MANUFACTURER_COUNT - i,
    {
        let entry = MANUFACTURER_NAMES[i];
        assert(registry().skip(i as int)[0] == (entry.0@, entry.1@));
        if same_text(entry.0, hex_id) {
            return Some(entry.1);
        }
        assert(registry().skip(i as int).skip(1) =~= registry().skip(i + 1));
        i += 1;
    }
    None
}

/// The index of the first of `texts` that starts with `prefix`.
pub fn first_with_prefix(texts: &Vec<String>, prefix: &str) -> (found: Option<usize>)
    ensures
        match found {
            Some(i) => i < texts.len() && spec_first_with_prefix(
                texts@.map_values(|t: String| t@),
                prefix@,
                0,
            ) == Some(i as int),
            None => spec_first_with_prefix(texts@.map_values(|t: String| t@), prefix@, 0) is None,
        },
{
    let ghost views = texts@.map_values(|t: String| t@);
    let n = texts.len();
    let mut i: usize = 0;
    while i < n
        invariant
            n == texts.len(),
            i <= n,
            views == texts@.map_values(|t: String| t@),
            spec_first_with_prefix(views, prefix@, 0) == spec_first_with_prefix(
                views,
                prefix@,
                i as int,
            ),
        decreases n - i,
    {
        assert(views[i as int] == texts[i as int]@);
        if starts_with(texts[i].as_str(), prefix) {
            return Some(i);
        }
        i += 1;
    }
    None
}

/// The manufacturer that a hexadecimal identifier of the table stands for.
pub fn manufacturer_from_hex(hex_id: &str) -> (result: Result<Manufacturer, SystemExclusiveError>)
    ensures
        result == spec_from_hex(hex_id@),
{
    match decode(hex_id) {
        Ok(bytes) => Manufacturer::from_bytes(bytes.as_slice()),
        Err(_) => Err(SystemExclusiveError::InvalidManufacturer),
    }
}

/// Finds a manufacturer by the beginning of its name, whatever the case of
/// the letters. Where several names begin so, the first of the table is
/// taken.
pub fn find_manufacturer(name: &str) -> (result: Result<Manufacturer, SystemExclusiveError>)
    ensures
        result == spec_find(lowercase(name@)),
{
    let prefix = to_lowercase(name);
    let mut lowered: Vec<String> = Vec::new();
    let mut i: usize = 0;
    while i < MANUFACTURER_COUNT
        invariant
            i <= MANUFACTURER_COUNT,
            lowered.len() == i,
            forall|j: int| 0 <= j < i ==> (#[trigger] lowered[j])@ == lowercase_names()[j],
        decreases MANUFACTURER_COUNT - i,
    {
        lowered.push(to_lowercase(MANUFACTURER_NAMES[i].1));
        i += 1;
    }
    assert(lowered@.map_values(|t: String| t@) =~= lowercase_names());
    match first_with_prefix(&lowered, prefix.as_str()) {
        Some(i) => manufacturer_from_hex(MANUFACTURER_NAMES[i].0),
        None => Err(SystemExclusiveError::InvalidManufacturer),
    }
}

} // verus!
