use homer_relay::db::{parse_uuid, BluetoothDB, CompanyEntry, MetadataEntry, UuidError};

fn entry(name: &str, uuid: &str) -> MetadataEntry {
    MetadataEntry {
        name: name.to_string(),
        identifier: format!("org.bluetooth.{}", name.to_lowercase().replace(' ', "_")),
        uuid: uuid.to_string(),
        source: "gss".to_string(),
    }
}

fn sample_db() -> BluetoothDB {
    let companies = vec![
        CompanyEntry { code: 76, name: "Apple, Inc.".to_string() },
        CompanyEntry { code: 6, name: "Microsoft".to_string() },
    ];
    let characteristics = vec![entry("Device Name", "2A00")];
    let services = vec![
        entry("Battery", "180F"),
        entry("Custom", "01234567-89ab-cdef-0123-456789abcdef"),
    ];
    let descriptors = vec![entry("Client Characteristic Configuration", "2902")];
    BluetoothDB::create(companies, characteristics, services, descriptors).unwrap()
}

const BASE_LOW: u128 = 0x0000_1000_8000_0080_5F9B_34FB;

#[test]
fn short_form_expands_on_base_identifier() {
    assert_eq!(parse_uuid("2A00"), Ok(0x0000_2A00_0000_1000_8000_0080_5F9B_34FB));
    assert_eq!(parse_uuid("180f"), Ok(0x0000_180F_0000_1000_8000_0080_5F9B_34FB));
    assert_eq!(parse_uuid("FFFF").unwrap() % (1u128 << 96), BASE_LOW);
    assert_eq!(parse_uuid("0000").unwrap(), BASE_LOW);
}

#[test]
fn canonical_form_is_kept() {
    assert_eq!(
        parse_uuid("0000180f-0000-1000-8000-00805f9b34fb"),
        Ok(0x0000_180F_0000_1000_8000_0080_5F9B_34FB)
    );
    assert_eq!(
        parse_uuid("936DA01F-9ABD-4D9D-80C7-02AF85C822A8"),
        Ok(0x936DA01F9ABD4D9D80C702AF85C822A8)
    );
}

#[test]
fn identifier_errors() {
    assert_eq!(parse_uuid("123"), Err(UuidError::UnexpectedLength(3)));
    assert_eq!(parse_uuid(""), Err(UuidError::UnexpectedLength(0)));
    assert_eq!(
        parse_uuid("0000180f00001000800000805f9b34fb"),
        Err(UuidError::UnexpectedLength(32))
    );
    assert_eq!(parse_uuid("zz00"), Err(UuidError::Malformed));
    assert_eq!(parse_uuid("+abc"), Err(UuidError::Malformed));
    assert_eq!(parse_uuid("0000180f-0000-1000-8000_00805f9b34fb"), Err(UuidError::Malformed));
    assert_eq!(parse_uuid("0000180f-0000-1000-8000-00805f9b34fg"), Err(UuidError::Malformed));
}

#[test]
fn unknown_vendor_code() {
    let db = sample_db();
    assert_eq!(db.get_company(0xFFFF), "Unknown(65535)");
    assert_eq!(db.get_company(0), "Unknown(0)");
}

#[test]
fn known_vendor_code() {
    let db = sample_db();
    assert_eq!(db.get_company(76), "Apple, Inc.");
    assert_eq!(db.get_company(6), "Microsoft");
}

#[test]
fn later_vendor_rows_win() {
    let companies = vec![
        CompanyEntry { code: 1, name: "First".to_string() },
        CompanyEntry { code: 1, name: "Second".to_string() },
    ];
    let db = BluetoothDB::create(companies, vec![], vec![], vec![]).unwrap();
    assert_eq!(db.get_company(1), "Second");
}

#[test]
fn service_names() {
    let db = sample_db();
    assert_eq!(db.get_service_name(parse_uuid("180F").unwrap()), "Battery");
    assert_eq!(db.get_service_name(0x0123456789ABCDEF0123456789ABCDEF), "Custom");
    assert_eq!(
        db.get_service_name(parse_uuid("1810").unwrap()),
        "UUID 00001810-0000-1000-8000-00805f9b34fb"
    );
}

#[test]
fn descriptor_names() {
    let db = sample_db();
    assert_eq!(
        db.get_descriptor_name(parse_uuid("2902").unwrap()),
        "Client Characteristic Configuration"
    );
    assert_eq!(
        db.get_descriptor_name(parse_uuid("2903").unwrap()),
        "UUID 00002903-0000-1000-8000-00805f9b34fb"
    );
}

#[test]
fn characteristic_names() {
    let db = sample_db();
    assert_eq!(db.get_characteristic_name(parse_uuid("2A00").unwrap()), "Device Name");
    assert_eq!(db.get_characteristic_name(parse_uuid("2A19").unwrap()), "BTLE UUID 0x2a19");
    assert_eq!(db.get_characteristic_name(parse_uuid("0005").unwrap()), "BTLE UUID 0x0005");
    assert_eq!(db.get_characteristic_name(parse_uuid("002A").unwrap()), "BTLE UUID 0x002a");
    assert_eq!(db.get_characteristic_name(parse_uuid("FFFF").unwrap()), "BTLE UUID 0xffff");
    assert_eq!(
        db.get_characteristic_name((0x1234_5678u128 << 96) | BASE_LOW),
        "UUID 12345678-0000-1000-8000-00805f9b34fb"
    );
    assert_eq!(
        db.get_characteristic_name(0x0123456789ABCDEF0123456789ABCDEF),
        "UUID 01234567-89ab-cdef-0123-456789abcdef"
    );
}

#[test]
fn malformed_row_fails_loading() {
    let bad = vec![entry("Battery", "180F"), entry("Broken", "18")];
    let r = BluetoothDB::create(vec![], vec![], bad, vec![]);
    assert!(matches!(r, Err(UuidError::UnexpectedLength(2))));
    let first_bad = vec![entry("A", "zz"), entry("B", "xyzw")];
    let r = BluetoothDB::create(vec![], first_bad, vec![], vec![]);
    assert!(matches!(r, Err(UuidError::UnexpectedLength(2))));
    let r = BluetoothDB::create(vec![], vec![entry("A", "xyzw")], vec![entry("B", "1")], vec![]);
    assert!(matches!(r, Err(UuidError::Malformed)));
}
