use vstd::prelude::*;
use crate::address::DeviceAddress;
use crate::db::{hyphenated_text, uuid_text};
use crate::engine::BleManager;
use crate::format::{format_bytes, formatted};
use crate::text::{decimal, get_bytes_as_hex, hex_pairs, owned_text, push_char, push_decimal, push_text};

verus! {

/// What the adapter has cached about a peripheral.
#[derive(Debug)]
pub struct PeripheralInfo {
    pub address: DeviceAddress,
    /// The kind of address (public or random), as the adapter names it.
    pub address_type: String,
    pub local_name: Option<String>,
    pub tx_power_level: Option<i8>,
    /// Manufacturer data by vendor code.
    pub manufacturer_data: Vec<(u16, Vec<u8>)>,
    /// Service data by service identifier.
    pub service_data: Vec<(u128, Vec<u8>)>,
    /// Advertised services.
    pub services: Vec<u128>,
    /// The number of characteristics known.
    pub characteristic_count: usize,
}

/// An address as the adapter prints it: upper-case hex pairs joined by
/// `:`, last byte first.
pub open spec fn address_text(a: DeviceAddress) -> Seq<char> {
    hex_pairs(a.address@.reverse())
}

/// A signed number in decimal.
pub open spec fn signed_decimal(x: int) -> Seq<char> {
    if x < 0 {
        seq!['-'] + decimal((-x) as nat)
    } else {
        decimal(x as nat)
    }
}

/// The views of a sequence of lines.
pub open spec fn views(lines: Seq<String>) -> Seq<Seq<char>> {
    lines.map_values(|l: String| l@)
}

/// The line with a peripheral's name, if it has one.
pub open spec fn name_part(p: PeripheralInfo) -> Seq<Seq<char>> {
    if p.local_name is Some {
        seq!["  Name : \""@ + p.local_name->0@ + "\""@]
    } else {
        Seq::empty()
    }
}

/// The heading line of a peripheral.
pub open spec fn heading_line(p: PeripheralInfo) -> Seq<char> {
    address_text(p.address) + "  ("@ + p.address_type@ + ", tx_power_level:"@ + match p.tx_power_level {
        Some(x) => signed_decimal(x as int),
        None => "?"@,
    } + ")"@
}

/// Renders an address as the adapter prints it.
pub fn address_string(a: &DeviceAddress) -> (r: String)
    ensures
        r@ == address_text(*a),
{
    let b = a.address;
    let reversed: [u8; 6] = [b[5], b[4], b[3], b[2], b[1], b[0]];
    assert(reversed@ =~= a.address@.reverse());
    get_bytes_as_hex(&reversed)
}

fn push_signed_decimal(s: &mut String, x: i8)
    ensures
        final(s)@ == old(s)@ + signed_decimal(x as int),
{
    if x < 0 {
        push_char(s, '-');
        let m: i16 = -(x as i16);
        push_decimal(s, m as u64);
        assert(final(s)@ =~= old(s)@ + signed_decimal(x as int));
    } else {
        push_decimal(s, x as u64);
    }
}

impl BleManager {
    /// The line shown for a characteristic whose value was read: its name,
    /// then the value as `format_bytes` shows it.
    pub fn characteristic_value_line(&self, uuid: u128, value: &[u8]) -> (r: String)
        ensures
            r@ == "    "@ + self.bluetooth_db.characteristic_name(uuid) + " = "@ + formatted(value@),
    {
        let mut s = owned_text("    ");
        let name = self.bluetooth_db.get_characteristic_name(uuid);
        push_text(&mut s, name.as_str());
        push_text(&mut s, " = ");
        let v = format_bytes(value);
        push_text(&mut s, v.as_str());
        s
    }

    /// The lines describing a cached peripheral: a heading with its address,
    /// address kind and transmission power; its name, if known; each piece
    /// of manufacturer data with the vendor's name; each piece of service
    /// data and each advertised service with the service's name; and the
    /// number of characteristics known.
    pub fn peripheral_lines(&self, p: &PeripheralInfo) -> (r: Vec<String>)
        ensures
            views(r@) == seq![heading_line(*p)] + self.peripheral_body(*p) + seq![
                "  Char length : "@ + decimal(p.characteristic_count as nat),
            ],
    {
        let mut lines: Vec<String> = Vec::new();
        let mut heading = address_string(&p.address);
        push_text(&mut heading, "  (");
        push_text(&mut heading, p.address_type.as_str());
        push_text(&mut heading, ", tx_power_level:");
        match p.tx_power_level {
            Some(x) => push_signed_decimal(&mut heading, x),
            None => push_text(&mut heading, "?"),
        }
        push_text(&mut heading, ")");
        lines.push(heading);
        assert(views(lines@) =~= seq![heading_line(*p)]);
        match &p.local_name {
            Some(n) => {
                let mut line = owned_text("  Name : \"");
                push_text(&mut line, n.as_str());
                push_text(&mut line, "\"");
                let ghost before = views(lines@);
                lines.push(line);
                assert(views(lines@) =~= before.push(line@));
            },
            None => {},
        }
        assert(views(lines@) =~= seq![heading_line(*p)] + name_part(*p) + self.manufacturer_part(*p).take(0));
        let mut i: usize = 0;
        while i < p.manufacturer_data.len()
            invariant
                0 <= i <= p.manufacturer_data@.len(),
                views(lines@) == seq![heading_line(*p)] + name_part(*p) + self.manufacturer_part(*p).take(i as int),
            decreases p.manufacturer_data@.len() - i,
        {
            let (id, data) = &p.manufacturer_data[i];
            let mut line = owned_text("  Manufacturer Data ");
            push_decimal(&mut line, *id as u64);
            push_text(&mut line, " (");
            let company = self.bluetooth_db.get_company(*id);
            push_text(&mut line, company.as_str());
            push_text(&mut line, ")  \"");
            let hex = get_bytes_as_hex(data.as_slice());
            push_text(&mut line, hex.as_str());
            push_text(&mut line, "\"");
            let ghost before = views(lines@);
            lines.push(line);
            proof {
                assert(line@ =~= self.manufacturer_part(*p)[i as int]);
                assert(views(lines@) =~= before.push(line@));
                assert(self.manufacturer_part(*p).take(i as int + 1) =~= self.manufacturer_part(*p).take(i as int).push(line@));
            }
            i = i + 1;
        }
        proof {
            assert(self.manufacturer_part(*p).take(p.manufacturer_data@.len() as int) =~= self.manufacturer_part(*p));
        }
        let mut i: usize = 0;
        while i < p.service_data.len()
            invariant
                0 <= i <= p.service_data@.len(),
                views(lines@) == seq![heading_line(*p)] + name_part(*p) + self.manufacturer_part(*p)
                    + self.service_data_part(*p).take(i as int),
            decreases p.service_data@.len() - i,
        {
            let (uuid, data) = &p.service_data[i];
            let mut line = owned_text("  Service Data ");
            let t = uuid_text(*uuid);
            push_text(&mut line, t.as_str());
            push_text(&mut line, " (");
            let name = self.bluetooth_db.get_service_name(*uuid);
            push_text(&mut line, name.as_str());
            push_text(&mut line, ")  \"");
            let hex = get_bytes_as_hex(data.as_slice());
            push_text(&mut line, hex.as_str());
            push_text(&mut line, "\"");
            let ghost before = views(lines@);
            lines.push(line);
            proof {
                assert(line@ =~= self.service_data_part(*p)[i as int]);
                assert(views(lines@) =~= before.push(line@));
                assert(self.service_data_part(*p).take(i as int + 1) =~= self.service_data_part(*p).take(i as int).push(line@));
            }
            i = i + 1;
        }
        proof {
            assert(self.service_data_part(*p).take(p.service_data@.len() as int) =~= self.service_data_part(*p));
        }
        let mut i: usize = 0;
        while i < p.services.len()
            invariant
                0 <= i <= p.services@.len(),
                views(lines@) == seq![heading_line(*p)] + name_part(*p) + self.manufacturer_part(*p)
                    + self.service_data_part(*p) + self.services_part(*p).take(i as int),
            decreases p.services@.len() - i,
        {
            let uuid = p.services[i];
            let mut line = owned_text("  Service ");
            let t = uuid_text(uuid);
            push_text(&mut line, t.as_str());
            push_text(&mut line, " (");
            let name = self.bluetooth_db.get_service_name(uuid);
            push_text(&mut line, name.as_str());
            push_text(&mut line, ")");
            let ghost before = views(lines@);
            lines.push(line);
            proof {
                assert(line@ =~= self.services_part(*p)[i as int]);
                assert(views(lines@) =~= before.push(line@));
                assert(self.services_part(*p).take(i as int + 1) =~= self.services_part(*p).take(i as int).push(line@));
            }
            i = i + 1;
        }
        proof {
            assert(self.services_part(*p).take(p.services@.len() as int) =~= self.services_part(*p));
        }
        let mut last = owned_text("  Char length : ");
        push_decimal(&mut last, p.characteristic_count as u64);
        let ghost before = views(lines@);
        lines.push(last);
        assert(views(lines@) =~= before.push(last@));
        assert(views(lines@) =~= seq![heading_line(*p)] + self.peripheral_body(*p) + seq![
            "  Char length : "@ + decimal(p.characteristic_count as nat),
        ]);
        lines
    }

    /// The lines after the heading that describe a peripheral, but for the
    /// count of characteristics.
    pub open spec fn peripheral_body(&self, p: PeripheralInfo) -> Seq<Seq<char>> {
        name_part(p) + self.manufacturer_part(p) + self.service_data_part(p) + self.services_part(p)
    }

    /// A line for each piece of manufacturer data.
    pub open spec fn manufacturer_part(&self, p: PeripheralInfo) -> Seq<Seq<char>> {
        p.manufacturer_data@.map_values(
            |e: (u16, Vec<u8>)|
                "  Manufacturer Data "@ + decimal(e.0 as nat) + " ("@ + self.bluetooth_db.company_name(e.0)
                    + ")  \""@ + hex_pairs(e.1@) + "\""@,
        )
    }

    /// A line for each piece of service data.
    pub open spec fn service_data_part(&self, p: PeripheralInfo) -> Seq<Seq<char>> {
        p.service_data@.map_values(
            |e: (u128, Vec<u8>)|
                "  Service Data "@ + hyphenated_text(e.0) + " ("@ + self.bluetooth_db.service_name(e.0)
                    + ")  \""@ + hex_pairs(e.1@) + "\""@,
        )
    }

    /// A line for each advertised service.
    pub open spec fn services_part(&self, p: PeripheralInfo) -> Seq<Seq<char>> {
        p.services@.map_values(
            |u: u128| "  Service "@ + hyphenated_text(u) + " ("@ + self.bluetooth_db.service_name(u) + ")"@,
        )
    }
}

/// Splits raw manufacturer data into the vendor code, which leads it as a
/// little-endian 16-bit number, and the payload after it. Data too short
/// to hold a vendor code gives nothing.
pub fn manufacturer_entry(data: &[u8]) -> (r: Option<(u16, Vec<u8>)>)
    ensures
        data@.len() < 2 ==> r is None,
        data@.len() >= 2 ==> r is Some && (r->0).0 as nat == data@[0] as nat + 256 * data@[1] as nat
            && (r->0).1@ == data@.subrange(2, data@.len() as int),
{
    if data.len() < 2 {
        return None;
    }
    let code: u16 = data[0] as u16 + 256 * (data[1] as u16);
    let mut payload: Vec<u8> = Vec::new();
    let mut i: usize = 2;
    while i < data.len()
        invariant
            2 <= i <= data@.len(),
            payload@ == data@.subrange(2, i as int),
        decreases data@.len() - i,
    {
        payload.push(data[i]);
        i = i + 1;
    }
    Some((code, payload))
}

} // verus!
