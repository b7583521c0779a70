use syxpack::{
    find_manufacturer, lookup_name, Manufacturer, ManufacturerGroup, SystemExclusiveError,
    DEVELOPMENT,
};

#[test]
fn manufacturer_display_name() {
    let manufacturer = Manufacturer::Standard(0x43);
    assert_eq!(format!("{}", manufacturer.name()), "Yamaha");
}

#[test]
fn find_manufacturer_name_success() {
    let manuf = find_manufacturer("yama").unwrap();
    assert_eq!(manuf.name(), "Yamaha");
}

#[test]
fn find_manufacturer_name_failure() {
    assert!(find_manufacturer("humppaurku").is_err());
}

#[test]
fn from_bytes_of_one_byte() {
    assert_eq!(Manufacturer::from_bytes(&[0x43]), Ok(Manufacturer::Standard(0x43)));
    assert_eq!(Manufacturer::from_bytes(&[0x00]), Ok(Manufacturer::Standard(0x00)));
    assert_eq!(Manufacturer::from_bytes(&[DEVELOPMENT]), Ok(Manufacturer::Development));
}

#[test]
fn from_bytes_of_three_bytes() {
    assert_eq!(
        Manufacturer::from_bytes(&[0x00, 0x20, 0x29]),
        Ok(Manufacturer::Extended([0x00, 0x20, 0x29]))
    );
    assert_eq!(
        Manufacturer::from_bytes(&[0x01, 0x02, 0x03]),
        Ok(Manufacturer::Extended([0x01, 0x02, 0x03]))
    );
}

#[test]
fn from_bytes_of_other_lengths() {
    assert_eq!(Manufacturer::from_bytes(&[]), Err(SystemExclusiveError::InvalidManufacturer));
    assert_eq!(
        Manufacturer::from_bytes(&[0x00, 0x20]),
        Err(SystemExclusiveError::InvalidManufacturer)
    );
    assert_eq!(
        Manufacturer::from_bytes(&[0x00, 0x20, 0x29, 0x01]),
        Err(SystemExclusiveError::InvalidManufacturer)
    );
}

#[test]
fn to_bytes_of_each_variant() {
    assert_eq!(Manufacturer::Standard(0x41).to_bytes(), vec![0x41]);
    assert_eq!(Manufacturer::Extended([0x00, 0x21, 0x1D]).to_bytes(), vec![0x00, 0x21, 0x1D]);
    assert_eq!(Manufacturer::Development.to_bytes(), vec![0x7D]);
}

#[test]
fn identifiers_survive_writing_and_reading() {
    let ids = vec![
        Manufacturer::Standard(0x01),
        Manufacturer::Standard(0x43),
        Manufacturer::Standard(0x7C),
        Manufacturer::Standard(0x00),
        Manufacturer::Standard(0x7E),
        Manufacturer::Extended([0x00, 0x00, 0x0E]),
        Manufacturer::Extended([0x00, 0x40, 0x07]),
        Manufacturer::Extended([0x12, 0x34, 0x56]),
        Manufacturer::Development,
    ];
    for id in ids {
        assert_eq!(Manufacturer::from_bytes(&id.to_bytes()), Ok(id));
    }
}

#[test]
fn development_byte_stored_as_standard_reads_back_as_development() {
    let id = Manufacturer::Standard(DEVELOPMENT);
    assert_eq!(Manufacturer::from_bytes(&id.to_bytes()), Ok(Manufacturer::Development));
}

#[test]
fn new_is_kawai() {
    assert_eq!(Manufacturer::new(), Manufacturer::Standard(0x40));
}

#[test]
fn is_development_of_each_variant() {
    assert!(Manufacturer::Development.is_development());
    assert!(Manufacturer::Standard(DEVELOPMENT).is_development());
    assert!(!Manufacturer::Standard(0x43).is_development());
    assert!(!Manufacturer::Extended([0x00, 0x7D, 0x7D]).is_development());
}

#[test]
fn group_of_standard_identifiers() {
    assert_eq!(Manufacturer::Standard(0x01).group(), ManufacturerGroup::NorthAmerican);
    assert_eq!(Manufacturer::Standard(0x3F).group(), ManufacturerGroup::NorthAmerican);
    assert_eq!(Manufacturer::Standard(0x40).group(), ManufacturerGroup::Japanese);
    assert_eq!(Manufacturer::Standard(0x5F).group(), ManufacturerGroup::Japanese);
    assert_eq!(Manufacturer::Standard(0x60).group(), ManufacturerGroup::EuropeanAndOther);
    assert_eq!(Manufacturer::Standard(0x7C).group(), ManufacturerGroup::EuropeanAndOther);
    assert_eq!(Manufacturer::Standard(0x00).group(), ManufacturerGroup::EuropeanAndOther);
}

#[test]
fn group_of_extended_identifiers() {
    assert_eq!(Manufacturer::Extended([0x00, 0x00, 0x0E]).group(), ManufacturerGroup::NorthAmerican);
    assert_eq!(Manufacturer::Extended([0x00, 0x1F, 0x7F]).group(), ManufacturerGroup::NorthAmerican);
    assert_eq!(
        Manufacturer::Extended([0x00, 0x20, 0x29]).group(),
        ManufacturerGroup::EuropeanAndOther
    );
    assert_eq!(
        Manufacturer::Extended([0x00, 0x21, 0x1D]).group(),
        ManufacturerGroup::EuropeanAndOther
    );
    assert_eq!(Manufacturer::Extended([0x00, 0x40, 0x07]).group(), ManufacturerGroup::Japanese);
    assert_eq!(Manufacturer::Extended([0x00, 0x60, 0x00]).group(), ManufacturerGroup::Japanese);
}

#[test]
fn group_of_development() {
    assert_eq!(Manufacturer::Development.group(), ManufacturerGroup::Development);
    assert_eq!(Manufacturer::Standard(DEVELOPMENT).group(), ManufacturerGroup::Development);
}

#[test]
fn group_text() {
    assert_eq!(ManufacturerGroup::Development.to_string(), "Development");
    assert_eq!(ManufacturerGroup::EuropeanAndOther.to_string(), "European & Other");
    assert_eq!(ManufacturerGroup::Japanese.to_string(), "Japanese");
    assert_eq!(ManufacturerGroup::NorthAmerican.to_string(), "North American");
}

#[test]
fn to_hex_is_upper_case_without_separators() {
    assert_eq!(Manufacturer::Standard(0x43).to_hex(), "43");
    assert_eq!(Manufacturer::Standard(0x0A).to_hex(), "0A");
    assert_eq!(Manufacturer::Extended([0x00, 0x20, 0x0A]).to_hex(), "00200A");
    assert_eq!(Manufacturer::Extended([0x00, 0x21, 0x4F]).to_hex(), "00214F");
    assert_eq!(Manufacturer::Development.to_hex(), "7D");
}

#[test]
fn name_of_listed_identifiers() {
    assert_eq!(Manufacturer::Standard(0x41).name(), "Roland Corporation");
    assert_eq!(Manufacturer::Standard(0x42).name(), "Korg Inc.");
    assert_eq!(Manufacturer::Extended([0x00, 0x20, 0x0A]).name(), "Audiomatica");
    assert_eq!(Manufacturer::Extended([0x00, 0x20, 0x29]).name(), "Focusrite/Novation");
    assert_eq!(Manufacturer::Extended([0x00, 0x40, 0x00]).name(), "Crimson Technology Inc.");
}

#[test]
fn name_of_development() {
    assert_eq!(Manufacturer::Development.name(), "Development / Non-commercial");
    assert_eq!(Manufacturer::Standard(DEVELOPMENT).name(), "Development / Non-commercial");
}

#[test]
fn name_of_unlisted_identifier_is_a_fixed_text() {
    assert_eq!(Manufacturer::Standard(0x7C).name(), "Unknown manufacturer");
    assert_eq!(Manufacturer::Extended([0x00, 0x7F, 0x7F]).name(), "Unknown manufacturer");
    assert_eq!(Manufacturer::Extended([0x01, 0x00, 0x01]).name(), "Unknown manufacturer");
}

#[test]
fn lookup_name_by_hexadecimal_identifier() {
    assert_eq!(lookup_name("43"), Some("Yamaha"));
    assert_eq!(lookup_name("000001"), Some("Time/Warner Interactive"));
    assert_eq!(lookup_name("004007"), Some("Slik Corporation"));
    assert_eq!(lookup_name("00200a"), None);
    assert_eq!(lookup_name("4"), None);
    assert_eq!(lookup_name(""), None);
}

#[test]
fn find_manufacturer_ignores_case() {
    assert_eq!(find_manufacturer("YAMAHA"), Ok(Manufacturer::Standard(0x43)));
    assert_eq!(find_manufacturer("Kawai"), Ok(Manufacturer::Standard(0x40)));
    assert_eq!(find_manufacturer("audiomatica"), Ok(Manufacturer::Extended([0x00, 0x20, 0x0A])));
    assert_eq!(find_manufacturer("B\u{d6}HM"), Ok(Manufacturer::Extended([0x00, 0x20, 0x04])));
}

#[test]
fn find_manufacturer_takes_the_first_of_the_table() {
    assert_eq!(find_manufacturer("se"), Ok(Manufacturer::Standard(0x01)));
    assert_eq!(find_manufacturer("ro"), Ok(Manufacturer::Extended([0x00, 0x00, 0x29])));
    assert_eq!(find_manufacturer("micros"), Ok(Manufacturer::Extended([0x00, 0x00, 0x41])));
    assert_eq!(find_manufacturer(""), Ok(Manufacturer::Standard(0x01)));
}

#[test]
fn find_manufacturer_needs_the_beginning_of_a_name() {
    assert_eq!(find_manufacturer("amaha"), Err(SystemExclusiveError::InvalidManufacturer));
    assert_eq!(find_manufacturer("yamahas"), Err(SystemExclusiveError::InvalidManufacturer));
}
