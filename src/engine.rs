use vstd::prelude::*;
use crate::address::{bytes_of, filter_matches, is_wildcard, match_filter, DeviceAddress};
use crate::db::BluetoothDB;
use crate::registry::{address_key, DeviceDB, KnownDevice};
use crate::text::{get_bytes_as_hex, hex_pairs};

verus! {

/// An occurrence reported by the radio adapter.
#[derive(Debug)]
pub enum ScanEvent {
    DeviceDiscovered(DeviceAddress),
    DeviceConnected(DeviceAddress),
    DeviceDisconnected(DeviceAddress),
    DeviceUpdated(DeviceAddress),
    ManufacturerDataAdvertisement { address: DeviceAddress, manufacturer_id: u16, data: Vec<u8> },
    ServiceDataAdvertisement { address: DeviceAddress, service: u128, data: Vec<u8> },
    ServicesAdvertisement { address: DeviceAddress, services: Vec<u128> },
    /// Any other kind of event, with a description of it.
    Other(String),
}

/// What an event is to be logged as, if at all.
#[derive(Debug)]
pub enum EventReport {
    /// Nothing to log.
    Silent,
    Connected(DeviceAddress),
    Disconnected(DeviceAddress),
    Updated(DeviceAddress),
    /// Manufacturer data, with the vendor's name and the payload as hex pairs.
    ManufacturerData {
        address: DeviceAddress,
        manufacturer_id: u16,
        company: String,
        data_hex: String,
    },
    ServiceData { address: DeviceAddress, service: u128, data: Vec<u8> },
    Services { address: DeviceAddress, services: Vec<u128> },
    /// An event of a kind not otherwise handled, logged at trace level.
    Unhandled(String),
}

/// The result of handling one event: what to log, and the address of a
/// device that was seen for the first time, if any.
#[derive(Debug)]
pub struct EventOutcome {
    pub report: EventReport,
    pub new_device: Option<DeviceAddress>,
}

/// The address that an event makes the registry record: a discovery or
/// manufacturer data, whatever the filter.
pub open spec fn recorded_address(e: ScanEvent) -> Option<DeviceAddress> {
    match e {
        ScanEvent::DeviceDiscovered(a) => Some(a),
        ScanEvent::ManufacturerDataAdvertisement { address, .. } => Some(address),
        _ => None,
    }
}

/// Whether `r` is the report of event `e` under a filter that lets the
/// addresses for which `passes` holds through: events whose address passes are reported with their details (vendor codes
/// by name); discoveries are never reported here, since the registry
/// announces new devices itself; other kinds are reported as unhandled.
pub open spec fn reports(db: BluetoothDB, e: ScanEvent, passes: spec_fn(DeviceAddress) -> bool, r: EventReport) -> bool {
    match e {
        ScanEvent::DeviceDiscovered(_) => r is Silent,
        ScanEvent::DeviceConnected(a) => if passes(a) {
            r == EventReport::Connected(a)
        } else {
            r is Silent
        },
        ScanEvent::DeviceDisconnected(a) => if passes(a) {
            r == EventReport::Disconnected(a)
        } else {
            r is Silent
        },
        ScanEvent::DeviceUpdated(a) => if passes(a) {
            r == EventReport::Updated(a)
        } else {
            r is Silent
        },
        ScanEvent::ManufacturerDataAdvertisement { address, manufacturer_id, data } => if passes(address) {
            &&& r matches EventReport::ManufacturerData { address: ra, manufacturer_id: rm, company, data_hex }
            &&& ra == address
            &&& rm == manufacturer_id
            &&& company@ == db.company_name(manufacturer_id)
            &&& data_hex@ == hex_pairs(data@)
        } else {
            r is Silent
        },
        ScanEvent::ServiceDataAdvertisement { address, service, data } => if passes(address) {
            &&& r matches EventReport::ServiceData { address: ra, service: rs, data: rd }
            &&& ra == address
            &&& rs == service
            &&& rd@ == data@
        } else {
            r is Silent
        },
        ScanEvent::ServicesAdvertisement { address, services } => if passes(address) {
            &&& r matches EventReport::Services { address: ra, services: rs }
            &&& ra == address
            &&& rs@ == services@
        } else {
            r is Silent
        },
        ScanEvent::Other(d) => r matches EventReport::Unhandled(rd) && rd@ == d@,
    }
}

/// Whether handling an event took the registry from `before` to `after`
/// and announced `new_device`: the address the event records is observed
/// (announced only the first time); other events leave the registry alone.
pub open spec fn registers(
    before: Map<u64, KnownDevice>,
    e: ScanEvent,
    after: Map<u64, KnownDevice>,
    new_device: Option<DeviceAddress>,
) -> bool {
    match recorded_address(e) {
        Some(a) => if before.contains_key(address_key(a)) {
            after == before && new_device is None
        } else {
            after == before.insert(address_key(a), KnownDevice {}) && new_device == Some(a)
        },
        None => after == before && new_device is None,
    }
}

/// The engine's state: the metadata database and the devices seen.
pub struct BleManager {
    pub bluetooth_db: BluetoothDB,
    pub devices: DeviceDB,
}

fn copy_bytes(v: &Vec<u8>) -> (r: Vec<u8>)
    ensures
        r@ == v@,
{
    let mut r: Vec<u8> = Vec::new();
    let mut i: usize = 0;
    while i < v.len()
        invariant
            0 <= i <= v@.len(),
            r@ == v@.subrange(0, i as int),
        decreases v@.len() - i,
    {
        r.push(v[i]);
        i = i + 1;
    }
    assert(v@.subrange(0, v@.len() as int) =~= v@);
    r
}

fn copy_ids(v: &Vec<u128>) -> (r: Vec<u128>)
    ensures
        r@ == v@,
{
    let mut r: Vec<u128> = Vec::new();
    let mut i: usize = 0;
    while i < v.len()
        invariant
            0 <= i <= v@.len(),
            r@ == v@.subrange(0, i as int),
        decreases v@.len() - i,
    {
        r.push(v[i]);
        i = i + 1;
    }
    assert(v@.subrange(0, v@.len() as int) =~= v@);
    r
}

impl BleManager {
    /// An engine over `bluetooth_db` with no device seen yet.
    pub fn new(bluetooth_db: BluetoothDB) -> (r: BleManager)
        ensures
            r.bluetooth_db == bluetooth_db,
            r.devices.view() == Map::<u64, KnownDevice>::empty(),
    {
        BleManager { bluetooth_db, devices: DeviceDB::new() }
    }

    fn record(&mut self, address: DeviceAddress) -> (r: Option<DeviceAddress>)
        ensures
            final(self).bluetooth_db == old(self).bluetooth_db,
            old(self).devices.view().contains_key(address_key(address)) ==> final(self).devices.view()
                == old(self).devices.view() && r is None,
            !old(self).devices.view().contains_key(address_key(address)) ==> final(self).devices.view()
                == old(self).devices.view().insert(address_key(address), KnownDevice {}) && r
                == Some(address),
    {
        let (_, is_new) = self.devices.see_device(address);
        if is_new {
            Some(address)
        } else {
            None
        }
    }

    /// Handles one event: records discovered devices and devices that
    /// advertise manufacturer data whatever `filter` says, and tells what
    /// to log, which depends on the filter.
    pub fn handle_event(&mut self, event: &ScanEvent, filter: DeviceAddress) -> (r: EventOutcome)
        ensures
            final(self).bluetooth_db == old(self).bluetooth_db,
            registers(old(self).devices.view(), *event, final(self).devices.view(), r.new_device),
            reports(old(self).bluetooth_db, *event, |a: DeviceAddress| filter_matches(filter, a), r.report),
    {
        match event {
            ScanEvent::DeviceDiscovered(address) => {
                let new_device = self.record(*address);
                EventOutcome { report: EventReport::Silent, new_device }
            },
            ScanEvent::DeviceConnected(address) => {
                let report = if match_filter(filter, address) {
                    EventReport::Connected(*address)
                } else {
                    EventReport::Silent
                };
                EventOutcome { report, new_device: None }
            },
            ScanEvent::DeviceDisconnected(address) => {
                let report = if match_filter(filter, address) {
                    EventReport::Disconnected(*address)
                } else {
                    EventReport::Silent
                };
                EventOutcome { report, new_device: None }
            },
            ScanEvent::DeviceUpdated(address) => {
                let report = if match_filter(filter, address) {
                    EventReport::Updated(*address)
                } else {
                    EventReport::Silent
                };
                EventOutcome { report, new_device: None }
            },
            ScanEvent::ManufacturerDataAdvertisement { address, manufacturer_id, data } => {
                let report = if match_filter(filter, address) {
                    EventReport::ManufacturerData {
                        address: *address,
                        manufacturer_id: *manufacturer_id,
                        company: self.bluetooth_db.get_company(*manufacturer_id),
                        data_hex: get_bytes_as_hex(data.as_slice()),
                    }
                } else {
                    EventReport::Silent
                };
                let new_device = self.record(*address);
                EventOutcome { report, new_device }
            },
            ScanEvent::ServiceDataAdvertisement { address, service, data } => {
                let report = if match_filter(filter, address) {
                    EventReport::ServiceData { address: *address, service: *service, data: copy_bytes(data) }
                } else {
                    EventReport::Silent
                };
                EventOutcome { report, new_device: None }
            },
            ScanEvent::ServicesAdvertisement { address, services } => {
                let report = if match_filter(filter, address) {
                    EventReport::Services { address: *address, services: copy_ids(services) }
                } else {
                    EventReport::Silent
                };
                EventOutcome { report, new_device: None }
            },
            ScanEvent::Other(description) => {
                EventOutcome { report: EventReport::Unhandled(description.clone()), new_device: None }
            },
        }
    }
}

/// Where a scan or connect session stands.
#[derive(Clone, Copy, Debug, PartialEq, Eq)]
pub enum SessionState {
    Scanning,
    /// The target was discovered; after the settling delay a connection is
    /// requested, and the session waits for it.
    Connecting(DeviceAddress),
    Connected(DeviceAddress),
    TimedOut,
    Cancelled,
}

impl SessionState {
    /// Whether the session has ended.
    pub open spec fn spec_is_finished(self) -> bool {
        self is Connected || self is TimedOut || self is Cancelled
    }

    /// Whether the session has ended.
    #[verifier::when_used_as_spec(spec_is_finished)]
    pub fn is_finished(self) -> (r: bool)
        ensures
            r == self.spec_is_finished(),
    {
        match self {
            SessionState::Connected(_) | SessionState::TimedOut | SessionState::Cancelled => true,
            _ => false,
        }
    }
}

/// Whichever of the three waited-for sources became ready first.
#[derive(Debug)]
pub enum SessionInput {
    /// The session's timer fired.
    TimerFired,
    /// The cancellation signal was received.
    CancelRequested,
    /// The adapter delivered an event.
    Event(ScanEvent),
}

/// What the caller of a session step does next.
#[derive(Debug)]
pub enum SessionAction {
    /// Log the outcome and keep waiting.
    Handled(EventOutcome),
    /// Log the outcome, wait the settling delay, request a connection to
    /// the address (a failed request is logged and the wait goes on).
    SettleThenConnect(DeviceAddress, EventOutcome),
    /// Log the outcome; the session is over, connected to the address.
    Connected(DeviceAddress, EventOutcome),
    /// The session is over, timed out or cancelled.
    Stop,
}

/// The settling delay between discovering the target and requesting a
/// connection, in milliseconds: a heuristic that gives the adapter time to
/// set the peripheral up, not a guarantee.
pub const SETTLING_DELAY_MS: u64 = 2000;

/// Whether `a` is the all-zero address. A scan logs events under that
/// address as filter, so that it mostly only records devices.
pub open spec fn is_zero(a: DeviceAddress) -> bool {
    bytes_of(a) == seq![0u8, 0u8, 0u8, 0u8, 0u8, 0u8]
}

/// One step of a scan: the timer ends it as timed out, the cancellation
/// signal as cancelled, and an event is handled under the scan filter.
pub open spec fn scan_step_spec(
    before: BleManager,
    input: SessionInput,
    after: BleManager,
    state: SessionState,
    action: SessionAction,
) -> bool {
    &&& after.bluetooth_db == before.bluetooth_db
    &&& match input {
        SessionInput::TimerFired => state == SessionState::TimedOut && action is Stop
            && after.devices.view() == before.devices.view(),
        SessionInput::CancelRequested => state == SessionState::Cancelled && action is Stop
            && after.devices.view() == before.devices.view(),
        SessionInput::Event(e) => {
            &&& state == SessionState::Scanning
            &&& action matches SessionAction::Handled(o)
            &&& registers(before.devices.view(), e, after.devices.view(), o.new_device)
            &&& reports(before.bluetooth_db, e, |a: DeviceAddress| is_zero(a), o.report)
        },
    }
}

/// One step of a connect session towards `target` (the wildcard accepts
/// any device): the timer, where the caller sets one, ends it as timed out;
/// the cancellation signal as cancelled; an event is handled under the
/// target as filter, and then a discovery of the target asks for a
/// connection and a connection of the target ends the session.
pub open spec fn connect_step_spec(
    before: BleManager,
    target: DeviceAddress,
    state_before: SessionState,
    input: SessionInput,
    after: BleManager,
    state: SessionState,
    action: SessionAction,
) -> bool {
    &&& after.bluetooth_db == before.bluetooth_db
    &&& match input {
        SessionInput::TimerFired => state == SessionState::TimedOut && action is Stop
            && after.devices.view() == before.devices.view(),
        SessionInput::CancelRequested => state == SessionState::Cancelled && action is Stop
            && after.devices.view() == before.devices.view(),
        SessionInput::Event(e) => {
            &&& registers(before.devices.view(), e, after.devices.view(), outcome_of(action).new_device)
            &&& reports(before.bluetooth_db, e, |a: DeviceAddress| filter_matches(target, a), outcome_of(action).report)
            &&& match e {
                ScanEvent::DeviceDiscovered(a) => if filter_matches(target, a) {
                    state == SessionState::Connecting(a) && action is SettleThenConnect
                        && action->SettleThenConnect_0 == a
                } else {
                    state == state_before && action is Handled
                },
                ScanEvent::DeviceConnected(a) => if filter_matches(target, a) {
                    state == SessionState::Connected(a) && action is Connected
                        && action->Connected_0 == a
                } else {
                    state == state_before && action is Handled
                },
                _ => state == state_before && action is Handled,
            }
        },
    }
}

/// The event outcome an action carries (a stop carries none).
pub open spec fn outcome_of(action: SessionAction) -> EventOutcome {
    match action {
        SessionAction::Handled(o) => o,
        SessionAction::SettleThenConnect(_, o) => o,
        SessionAction::Connected(_, o) => o,
        SessionAction::Stop => EventOutcome { report: EventReport::Silent, new_device: None },
    }
}

impl BleManager {
    /// One step of a scan, on whichever input became ready.
    pub fn scan_step(&mut self, input: SessionInput) -> (r: (SessionState, SessionAction))
        ensures
            scan_step_spec(*old(self), input, *final(self), r.0, r.1),
    {
        match input {
            SessionInput::TimerFired => (SessionState::TimedOut, SessionAction::Stop),
            SessionInput::CancelRequested => (SessionState::Cancelled, SessionAction::Stop),
            SessionInput::Event(e) => {
                let zero = DeviceAddress::zero();
                let outcome = self.handle_event(&e, zero);
                proof {
                    assert forall|a: DeviceAddress| filter_matches(zero, a) == is_zero(a) by {
                        if is_wildcard(zero) {
                            assert(zero.address@[0] == 0xFFu8);
                        }
                    }
                    assert((|a: DeviceAddress| filter_matches(zero, a)) =~= (|a: DeviceAddress| is_zero(a)));
                }
                (SessionState::Scanning, SessionAction::Handled(outcome))
            },
        }
    }

    /// One step of a connect session towards `target`, from `state`, on
    /// whichever input became ready.
    pub fn connect_step(&mut self, target: DeviceAddress, state: SessionState, input: SessionInput) -> (r: (
        SessionState,
        SessionAction,
    ))
        ensures
            connect_step_spec(*old(self), target, state, input, *final(self), r.0, r.1),
    {
        match input {
            SessionInput::TimerFired => (SessionState::TimedOut, SessionAction::Stop),
            SessionInput::CancelRequested => (SessionState::Cancelled, SessionAction::Stop),
            SessionInput::Event(e) => {
                let outcome = self.handle_event(&e, target);
                match e {
                    ScanEvent::DeviceDiscovered(a) => {
                        if match_filter(target, &a) {
                            (SessionState::Connecting(a), SessionAction::SettleThenConnect(a, outcome))
                        } else {
                            (state, SessionAction::Handled(outcome))
                        }
                    },
                    ScanEvent::DeviceConnected(a) => {
                        if match_filter(target, &a) {
                            (SessionState::Connected(a), SessionAction::Connected(a, outcome))
                        } else {
                            (state, SessionAction::Handled(outcome))
                        }
                    },
                    _ => (state, SessionAction::Handled(outcome)),
                }
            },
        }
    }
}

} // verus!
