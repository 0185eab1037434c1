use homer_relay::address::{match_filter, DeviceAddress};
use homer_relay::db::{parse_uuid, BluetoothDB, CompanyEntry, MetadataEntry};
use homer_relay::engine::{
    BleManager, EventReport, ScanEvent, SessionAction, SessionInput, SessionState,
};
use homer_relay::listing::PeripheralInfo;
use homer_relay::registry::{DeviceDB, KnownDevice};

fn db() -> BluetoothDB {
    let companies = vec![CompanyEntry { code: 76, name: "Apple, Inc.".to_string() }];
    let services = vec![MetadataEntry {
        name: "Battery".to_string(),
        identifier: "org.bluetooth.service.battery_service".to_string(),
        uuid: "180F".to_string(),
        source: "gss".to_string(),
    }];
    let characteristics = vec![MetadataEntry {
        name: "Battery Level".to_string(),
        identifier: "org.bluetooth.characteristic.battery_level".to_string(),
        uuid: "2A19".to_string(),
        source: "gss".to_string(),
    }];
    BluetoothDB::create(companies, characteristics, services, vec![]).unwrap()
}

fn addr(last: u8) -> DeviceAddress {
    DeviceAddress::new([0x10, 0x20, 0x30, 0x40, 0x50, last])
}

#[test]
fn filter_wildcard_matches_everything() {
    let w = DeviceAddress::wildcard();
    assert!(match_filter(w, &addr(1)));
    assert!(match_filter(w, &DeviceAddress::zero()));
    assert!(match_filter(w, &w));
}

#[test]
fn filter_matches_only_itself() {
    assert!(match_filter(addr(1), &addr(1)));
    assert!(!match_filter(addr(1), &addr(2)));
    assert!(!match_filter(DeviceAddress::zero(), &addr(2)));
    assert!(match_filter(DeviceAddress::zero(), &DeviceAddress::zero()));
}

#[test]
fn observe_twice_notifies_once() {
    let mut devices = DeviceDB::new();
    let (first, new1) = devices.see_device(addr(7));
    let (second, new2) = devices.see_device(addr(7));
    let (_, new3) = devices.see_device(addr(7));
    assert!(new1);
    assert!(!new2);
    assert!(!new3);
    assert_eq!(first, second);
    assert_eq!(first, KnownDevice::new());
    assert_eq!(devices.len(), 1);
    let (_, other) = devices.see_device(addr(8));
    assert!(other);
    assert_eq!(devices.len(), 2);
}

#[test]
fn discovery_recorded_whatever_the_filter() {
    let mut m = BleManager::new(db());
    let o = m.handle_event(&ScanEvent::DeviceDiscovered(addr(1)), addr(9));
    assert!(matches!(o.report, EventReport::Silent));
    assert_eq!(o.new_device, Some(addr(1)));
    let o = m.handle_event(&ScanEvent::DeviceDiscovered(addr(1)), addr(9));
    assert_eq!(o.new_device, None);
    assert_eq!(m.devices.len(), 1);
}

#[test]
fn manufacturer_data_reported_with_vendor_name() {
    let mut m = BleManager::new(db());
    let e = ScanEvent::ManufacturerDataAdvertisement {
        address: addr(3),
        manufacturer_id: 76,
        data: vec![0x02, 0x15],
    };
    let o = m.handle_event(&e, DeviceAddress::wildcard());
    match o.report {
        EventReport::ManufacturerData { address, manufacturer_id, company, data_hex } => {
            assert_eq!(address, addr(3));
            assert_eq!(manufacturer_id, 76);
            assert_eq!(company, "Apple, Inc.");
            assert_eq!(data_hex, "02:15");
        }
        other => panic!("unexpected report {:?}", other),
    }
    assert_eq!(o.new_device, Some(addr(3)));
}

#[test]
fn filtered_out_manufacturer_data_still_recorded() {
    let mut m = BleManager::new(db());
    let e = ScanEvent::ManufacturerDataAdvertisement {
        address: addr(3),
        manufacturer_id: 1,
        data: vec![],
    };
    let o = m.handle_event(&e, addr(4));
    assert!(matches!(o.report, EventReport::Silent));
    assert_eq!(o.new_device, Some(addr(3)));
    assert_eq!(m.devices.len(), 1);
}

#[test]
fn connection_events_follow_filter() {
    let mut m = BleManager::new(db());
    let o = m.handle_event(&ScanEvent::DeviceConnected(addr(1)), addr(1));
    assert!(matches!(o.report, EventReport::Connected(a) if a == addr(1)));
    let o = m.handle_event(&ScanEvent::DeviceDisconnected(addr(1)), addr(2));
    assert!(matches!(o.report, EventReport::Silent));
    let o = m.handle_event(&ScanEvent::DeviceUpdated(addr(2)), DeviceAddress::wildcard());
    assert!(matches!(o.report, EventReport::Updated(a) if a == addr(2)));
    let o = m.handle_event(&ScanEvent::DeviceDisconnected(addr(2)), addr(2));
    assert!(matches!(o.report, EventReport::Disconnected(a) if a == addr(2)));
    assert_eq!(m.devices.len(), 0);
}

#[test]
fn service_events_and_others() {
    let mut m = BleManager::new(db());
    let battery = parse_uuid("180F").unwrap();
    let e = ScanEvent::ServiceDataAdvertisement { address: addr(1), service: battery, data: vec![0x64] };
    let o = m.handle_event(&e, DeviceAddress::wildcard());
    assert!(matches!(o.report, EventReport::ServiceData { service, ref data, .. } if service == battery && data == &vec![0x64]));
    let e = ScanEvent::ServicesAdvertisement { address: addr(1), services: vec![battery] };
    let o = m.handle_event(&e, addr(1));
    assert!(matches!(o.report, EventReport::Services { ref services, .. } if services == &vec![battery]));
    let o = m.handle_event(&ScanEvent::Other("DeviceLost".to_string()), addr(1));
    assert!(matches!(o.report, EventReport::Unhandled(ref d) if d == "DeviceLost"));
    assert_eq!(m.devices.len(), 0);
}

#[test]
fn scan_terminates_on_timeout() {
    let mut m = BleManager::new(db());
    let (state, action) = m.scan_step(SessionInput::TimerFired);
    assert_eq!(state, SessionState::TimedOut);
    assert!(state.is_finished());
    assert!(matches!(action, SessionAction::Stop));
    assert_eq!(m.devices.len(), 0);
}

#[test]
fn scan_terminates_on_cancellation() {
    let mut m = BleManager::new(db());
    let (state, action) = m.scan_step(SessionInput::CancelRequested);
    assert_eq!(state, SessionState::Cancelled);
    assert!(matches!(action, SessionAction::Stop));
    assert_eq!(m.devices.len(), 0);
}

#[test]
fn scan_records_events_and_goes_on() {
    let mut m = BleManager::new(db());
    let (state, action) = m.scan_step(SessionInput::Event(ScanEvent::DeviceDiscovered(addr(5))));
    assert_eq!(state, SessionState::Scanning);
    assert!(!state.is_finished());
    match action {
        SessionAction::Handled(o) => {
            assert_eq!(o.new_device, Some(addr(5)));
            assert!(matches!(o.report, EventReport::Silent));
        }
        other => panic!("unexpected action {:?}", other),
    }
    let (_, action) = m.scan_step(SessionInput::Event(ScanEvent::DeviceConnected(addr(5))));
    assert!(matches!(action, SessionAction::Handled(ref o) if matches!(o.report, EventReport::Silent)));
    assert_eq!(m.devices.len(), 1);
}

#[test]
fn discovery_then_connect() {
    let mut m = BleManager::new(db());
    let target = addr(9);
    let (state, action) = m.connect_step(
        target,
        SessionState::Scanning,
        SessionInput::Event(ScanEvent::DeviceDiscovered(target)),
    );
    assert_eq!(state, SessionState::Connecting(target));
    assert!(matches!(action, SessionAction::SettleThenConnect(a, _) if a == target));
    let (state, action) =
        m.connect_step(target, state, SessionInput::Event(ScanEvent::DeviceConnected(target)));
    assert_eq!(state, SessionState::Connected(target));
    assert!(state.is_finished());
    assert!(matches!(action, SessionAction::Connected(a, _) if a == target));
    assert_eq!(m.devices.len(), 1);
}

#[test]
fn connect_ignores_other_devices() {
    let mut m = BleManager::new(db());
    let target = addr(9);
    let (state, action) = m.connect_step(
        target,
        SessionState::Scanning,
        SessionInput::Event(ScanEvent::DeviceDiscovered(addr(1))),
    );
    assert_eq!(state, SessionState::Scanning);
    assert!(matches!(action, SessionAction::Handled(_)));
    let (state, _) =
        m.connect_step(target, state, SessionInput::Event(ScanEvent::DeviceConnected(addr(1))));
    assert_eq!(state, SessionState::Scanning);
    let (state, action) = m.connect_step(target, state, SessionInput::CancelRequested);
    assert_eq!(state, SessionState::Cancelled);
    assert!(matches!(action, SessionAction::Stop));
    assert_eq!(m.devices.len(), 1);
}

#[test]
fn connect_with_timer_times_out() {
    let mut m = BleManager::new(db());
    let (state, action) =
        m.connect_step(addr(9), SessionState::Connecting(addr(9)), SessionInput::TimerFired);
    assert_eq!(state, SessionState::TimedOut);
    assert!(matches!(action, SessionAction::Stop));
}

#[test]
fn peripheral_description() {
    let m = BleManager::new(db());
    let battery = parse_uuid("180F").unwrap();
    let p = PeripheralInfo {
        address: DeviceAddress::new([0x01, 0x02, 0x03, 0x04, 0x05, 0x06]),
        address_type: "Public".to_string(),
        local_name: Some("Thermo".to_string()),
        tx_power_level: Some(-12),
        manufacturer_data: vec![(76, vec![0x01, 0x02])],
        service_data: vec![(battery, vec![0x64])],
        services: vec![battery],
        characteristic_count: 3,
    };
    let lines = m.peripheral_lines(&p);
    assert_eq!(
        lines,
        vec![
            "06:05:04:03:02:01  (Public, tx_power_level:-12)".to_string(),
            "  Name : \"Thermo\"".to_string(),
            "  Manufacturer Data 76 (Apple, Inc.)  \"01:02\"".to_string(),
            "  Service Data 0000180f-0000-1000-8000-00805f9b34fb (Battery)  \"64\"".to_string(),
            "  Service 0000180f-0000-1000-8000-00805f9b34fb (Battery)".to_string(),
            "  Char length : 3".to_string(),
        ]
    );
}

#[test]
fn bare_peripheral_description() {
    let m = BleManager::new(db());
    let p = PeripheralInfo {
        address: DeviceAddress::zero(),
        address_type: "Random".to_string(),
        local_name: None,
        tx_power_level: None,
        manufacturer_data: vec![(0xFFFF, vec![])],
        service_data: vec![],
        services: vec![],
        characteristic_count: 0,
    };
    assert_eq!(
        m.peripheral_lines(&p),
        vec![
            "00:00:00:00:00:00  (Random, tx_power_level:?)".to_string(),
            "  Manufacturer Data 65535 (Unknown(65535))  \"\"".to_string(),
            "  Char length : 0".to_string(),
        ]
    );
}

#[test]
fn characteristic_value_lines() {
    let m = BleManager::new(db());
    let level = parse_uuid("2A19").unwrap();
    assert_eq!(m.characteristic_value_line(level, &[0x64]), "    Battery Level = d");
    assert_eq!(m.characteristic_value_line(level, &[0x00, 0x01]), "    Battery Level = 00:01");
    let name = parse_uuid("2A00").unwrap();
    assert_eq!(m.characteristic_value_line(name, b"Thermo"), "    BTLE UUID 0x2a00 = Thermo");
}
