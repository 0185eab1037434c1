use std::collections::HashMap;
use vstd::prelude::*;
use crate::text::{decimal, fixed_lower_hex, lower_digit, owned_text, push_decimal, push_fixed_lower_hex, push_text};

verus! {

broadcast use vstd::std_specs::hash::group_hash_axioms;

/// One row of the vendor code table.
#[derive(Debug)]
pub struct CompanyEntry {
    pub code: u16,
    pub name: String,
}

/// One row of an identifier table (services, characteristics or
/// descriptors): a display name, a short machine identifier, the identifier
/// in short or canonical text form, and where the row comes from.
#[derive(Debug)]
pub struct MetadataEntry {
    pub name: String,
    pub identifier: String,
    pub uuid: String,
    pub source: String,
}

impl MetadataEntry {
    /// A copy of the entry.
    pub fn duplicate(&self) -> (r: MetadataEntry)
        ensures
            r == *self,
    {
        MetadataEntry {
            name: self.name.clone(),
            identifier: self.identifier.clone(),
            uuid: self.uuid.clone(),
            source: self.source.clone(),
        }
    }
}

/// Why an identifier text could not be read.
#[derive(Clone, Copy, Debug, PartialEq, Eq)]
pub enum UuidError {
    /// The text is neither 4 nor 36 characters long; the length is given.
    UnexpectedLength(usize),
    /// The text has a valid length but is not a well-formed identifier.
    Malformed,
}

/// The value of a hexadecimal digit, if `c` is one.
pub open spec fn hex_digit_value(c: char) -> Option<nat> {
    if '0' <= c && c <= '9' {
        Some((c as nat - '0' as nat) as nat)
    } else if 'a' <= c && c <= 'f' {
        Some((c as nat - 'a' as nat + 10) as nat)
    } else if 'A' <= c && c <= 'F' {
        Some((c as nat - 'A' as nat + 10) as nat)
    } else {
        None
    }
}

pub open spec fn is_hex_digit(c: char) -> bool {
    hex_digit_value(c) is Some
}

/// The number written by a sequence of hexadecimal digits.
pub open spec fn hex_value(s: Seq<char>) -> nat
    decreases s.len(),
{
    if s.len() == 0 {
        0
    } else {
        hex_value(s.drop_last()) * 16 + hex_digit_value(s.last()).unwrap_or(0)
    }
}

/// Whether `i` is a position of a hyphen in the canonical identifier text.
pub open spec fn is_hyphen_position(i: int) -> bool {
    i == 8 || i == 13 || i == 18 || i == 23
}

/// The canonical identifier text: 36 characters, hyphens at positions 8,
/// 13, 18 and 23, hexadecimal digits (of either case) elsewhere.
pub open spec fn is_hyphenated(s: Seq<char>) -> bool {
    &&& s.len() == 36
    &&& forall|i: int|
        0 <= i < 36 ==> if is_hyphen_position(i) {
            s[i] == '-'
        } else {
            is_hex_digit(#[trigger] s[i])
        }
}

/// The 32 digits of a canonical identifier text, hyphens left out.
pub open spec fn hyphenated_digits(s: Seq<char>) -> Seq<char> {
    s.subrange(0, 8) + s.subrange(9, 13) + s.subrange(14, 18) + s.subrange(19, 23) + s.subrange(
        24,
        36,
    )
}

/// The value a canonical identifier text stands for.
pub open spec fn hyphenated_value(s: Seq<char>) -> nat {
    hex_value(hyphenated_digits(s))
}

/// An identifier in canonical lower-case text form.
pub open spec fn hyphenated_text(v: u128) -> Seq<char> {
    let d = fixed_lower_hex(v as nat, 32);
    d.subrange(0, 8) + seq!['-'] + d.subrange(8, 12) + seq!['-'] + d.subrange(12, 16) + seq!['-']
        + d.subrange(16, 20) + seq!['-'] + d.subrange(20, 32)
}

/// The identifier with fields `d1`, `d2`, `d3` and `d4`, laid out
/// big-endian.
pub open spec fn fields_value(d1: u32, d2: u16, d3: u16, d4: Seq<u8>) -> nat {
    d1 as nat * 0x1_0000_0000_0000_0000_0000_0000 + d2 as nat * 0x1_0000_0000_0000_0000_0000
        + d3 as nat * 0x1_0000_0000_0000_0000 + crate::address::bytes_value(d4, 8)
}

/// The lower 96 bits shared by every identifier derived from the
/// Bluetooth base identifier `00000000-0000-1000-8000-00805F9B34FB`.
pub open spec fn base_low_bits() -> nat {
    0x0000_1000_8000_0080_5F9B_34FB
}

/// `2` raised to `96`.
pub open spec fn two_pow_96() -> nat {
    0x1_0000_0000_0000_0000_0000_0000
}

/// The identifier a short form `d1` stands for: `d1` as the high 32 bits of
/// the Bluetooth base identifier.
pub open spec fn short_uuid(d1: nat) -> nat {
    d1 * two_pow_96() + base_low_bits()
}

/// What an identifier text stands for: a 4-digit short form, or the
/// canonical 36-character form; any other length is an error.
pub open spec fn normalized(s: Seq<char>) -> Result<u128, UuidError> {
    if s.len() == 4 {
        if forall|i: int| 0 <= i < 4 ==> is_hex_digit(#[trigger] s[i]) {
            Ok(short_uuid(hex_value(s)) as u128)
        } else {
            Err(UuidError::Malformed)
        }
    } else if s.len() == 36 {
        if is_hyphenated(s) {
            Ok(hyphenated_value(s) as u128)
        } else {
            Err(UuidError::Malformed)
        }
    } else {
        Err(UuidError::UnexpectedLength(s.len() as usize))
    }
}

/// The vendor code table: later rows replace earlier rows with the same code.
pub open spec fn company_table(rows: Seq<CompanyEntry>) -> Map<u16, Seq<char>>
    decreases rows.len(),
{
    if rows.len() == 0 {
        Map::empty()
    } else {
        company_table(rows.drop_last()).insert(rows.last().code, rows.last().name@)
    }
}

/// An identifier table keyed by the normalized identifier of each row
/// (later rows replace earlier ones), or the error of the first row whose
/// identifier cannot be read.
pub open spec fn metadata_table(rows: Seq<MetadataEntry>) -> Result<Map<u128, MetadataEntry>, UuidError>
    decreases rows.len(),
{
    if rows.len() == 0 {
        Ok(Map::empty())
    } else {
        match metadata_table(rows.drop_last()) {
            Err(e) => Err(e),
            Ok(m) => match normalized(rows.last().uuid@) {
                Err(e) => Err(e),
                Ok(u) => Ok(m.insert(u, rows.last())),
            },
        }
    }
}

/// The name shown for a vendor code absent from the table.
pub open spec fn unknown_company(code: u16) -> Seq<char> {
    "Unknown("@ + decimal(code as nat) + ")"@
}

/// The name shown for an identifier absent from its table.
pub open spec fn unknown_uuid(u: u128) -> Seq<char> {
    "UUID "@ + hyphenated_text(u)
}

/// Whether an identifier is the Bluetooth base identifier with a 16-bit
/// segment embedded: `0000XXXX-0000-1000-8000-00805F9B34FB`.
pub open spec fn is_base_derived(u: u128) -> bool {
    &&& u as nat % two_pow_96() == base_low_bits()
    &&& u as nat / two_pow_96() < 0x10000
}

/// The name shown for a characteristic absent from the table.
pub open spec fn unknown_characteristic(u: u128) -> Seq<char> {
    if is_base_derived(u) {
        "BTLE UUID 0x"@ + fixed_lower_hex(u as nat / two_pow_96(), 4)
    } else {
        unknown_uuid(u)
    }
}

/// Relies on uuid's `Uuid::parse_str` and `Uuid::as_u128`: a 36-character
/// text parses exactly when it is the canonical hyphenated form, to the
/// number its digits write.
#[verifier::external_body]
fn parse_canonical(s: &str) -> (r: Option<u128>)
    ensures
        s@.len() == 36 ==> (r is Some <==> is_hyphenated(s@)),
        s@.len() == 36 && r is Some ==> r->0 as nat == hyphenated_value(s@),
{
    uuid::Uuid::parse_str(s).ok().map(|u| u.as_u128())
}

/// Relies on uuid's `Uuid::from_fields` and `Uuid::as_u128`: with an
/// eight-byte last field it succeeds and lays the fields out big-endian.
#[verifier::external_body]
fn from_fields(d1: u32, d2: u16, d3: u16, d4: &[u8; 8]) -> (r: Option<u128>)
    ensures
        r is Some,
        r->0 as nat == fields_value(d1, d2, d3, d4@),
{
    uuid::Uuid::from_fields(d1, d2, d3, d4).ok().map(|u| u.as_u128())
}

/// Relies on uuid's `Uuid::from_u128` and its `Display`: the canonical
/// lower-case hyphenated text.
#[verifier::external_body]
pub(crate) fn uuid_text(u: u128) -> (r: String)
    ensures
        r@ == hyphenated_text(u),
{
    uuid::Uuid::from_u128(u).to_string()
}

fn hex_digit(c: char) -> (r: Option<u32>)
    ensures
        r is Some <==> is_hex_digit(c),
        r is Some ==> r->0 as nat == hex_digit_value(c)->0,
        r is Some ==> r->0 < 16,
{
    if '0' <= c && c <= '9' {
        Some(c as u32 - '0' as u32)
    } else if 'a' <= c && c <= 'f' {
        Some(c as u32 - 'a' as u32 + 10)
    } else if 'A' <= c && c <= 'F' {
        Some(c as u32 - 'A' as u32 + 10)
    } else {
        None
    }
}

/// The identifier a 16-bit short form stands for: the Bluetooth base
/// identifier with the short form as its high 32 bits.
pub fn expand_short_uuid(short: u16) -> (r: u128)
    ensures
        r as nat == short_uuid(short as nat),
{
    let base: [u8; 8] = [0x80, 0x00, 0x00, 0x80, 0x5F, 0x9B, 0x34, 0xFB];
    let u = from_fields(short as u32, 0, 0x1000, &base).unwrap();
    proof {
        assert(crate::address::bytes_value(base@, 8) == 0x8000_0080_5F9B_34FB) by {
            reveal_with_fuel(crate::address::bytes_value, 9);
        }
    }
    u
}

/// Reads an identifier given as a 4-digit short form, which stands for the
/// Bluetooth base identifier with those digits as its high 32 bits, or as
/// the canonical 36-character form.
pub fn parse_uuid(string: &str) -> (r: Result<u128, UuidError>)
    ensures
        r == normalized(string@),
{
    let len = string.unicode_len();
    if len == 4 {
        let mut d1: u32 = 0;
        let mut i: usize = 0;
        while i < 4
            invariant
                0 <= i <= 4,
                string@.len() == 4,
                forall|j: int| 0 <= j < i ==> is_hex_digit(#[trigger] string@[j]),
                d1 as nat == hex_value(string@.subrange(0, i as int)),
                d1 < pow16(i as nat),
            decreases 4 - i,
        {
            let c = string.get_char(i);
            match hex_digit(c) {
                None => {
                    return Err(UuidError::Malformed);
                },
                Some(d) => {
                    proof {
                        let p = string@.subrange(0, i as int + 1);
                        assert(p.drop_last() =~= string@.subrange(0, i as int));
                        assert(pow16(i as nat + 1) == pow16(i as nat) * 16);
                        assert(pow16(i as nat) <= 4096) by {
                            reveal_with_fuel(pow16, 5);
                        }
                    }
                    d1 = d1 * 16 + d;
                },
            }
            i = i + 1;
        }
        assert(string@.subrange(0, 4) =~= string@);
        assert(pow16(4) == 0x10000) by {
            reveal_with_fuel(pow16, 5);
        }
        Ok(expand_short_uuid(d1 as u16))
    } else if len == 36 {
        match parse_canonical(string) {
            Some(u) => Ok(u),
            None => Err(UuidError::Malformed),
        }
    } else {
        Err(UuidError::UnexpectedLength(len))
    }
}

/// `16` raised to `n`.
pub open spec fn pow16(n: nat) -> nat
    decreases n,
{
    if n == 0 {
        1
    } else {
        pow16((n - 1) as nat) * 16
    }
}

/// Read-only lookup of vendor codes and identifiers to display names.
pub struct BluetoothDB {
    map_company: HashMap<u16, String>,
    map_characteristic: HashMap<u128, MetadataEntry>,
    map_service: HashMap<u128, MetadataEntry>,
    map_descriptor: HashMap<u128, MetadataEntry>,
}

impl BluetoothDB {
    /// The name shown for a vendor code.
    pub open spec fn company_name(&self, id: u16) -> Seq<char> {
        if self.companies().contains_key(id) {
            self.companies()[id]
        } else {
            unknown_company(id)
        }
    }

    /// The name shown for a service identifier.
    pub open spec fn service_name(&self, u: u128) -> Seq<char> {
        if self.services().contains_key(u) {
            self.services()[u].name@
        } else {
            unknown_uuid(u)
        }
    }

    /// The name shown for a descriptor identifier.
    pub open spec fn descriptor_name(&self, u: u128) -> Seq<char> {
        if self.descriptors().contains_key(u) {
            self.descriptors()[u].name@
        } else {
            unknown_uuid(u)
        }
    }

    /// The name shown for a characteristic identifier.
    pub open spec fn characteristic_name(&self, u: u128) -> Seq<char> {
        if self.characteristics().contains_key(u) {
            self.characteristics()[u].name@
        } else {
            unknown_characteristic(u)
        }
    }

    /// The vendor code table.
    pub closed spec fn companies(&self) -> Map<u16, Seq<char>> {
        Map::new(|k: u16| self.map_company@.contains_key(k), |k: u16| self.map_company@[k]@)
    }

    /// The characteristic table.
    pub closed spec fn characteristics(&self) -> Map<u128, MetadataEntry> {
        self.map_characteristic@
    }

    /// The service table.
    pub closed spec fn services(&self) -> Map<u128, MetadataEntry> {
        self.map_service@
    }

    /// The descriptor table.
    pub closed spec fn descriptors(&self) -> Map<u128, MetadataEntry> {
        self.map_descriptor@
    }

    fn read_name_code_file(rows: Vec<CompanyEntry>) -> (r: HashMap<u16, String>)
        ensures
            Map::new(|k: u16| r@.contains_key(k), |k: u16| r@[k]@) =~= company_table(rows@),
    {
        let mut map: HashMap<u16, String> = HashMap::new();
        let mut i: usize = 0;
        while i < rows.len()
            invariant
                0 <= i <= rows@.len(),
                Map::new(|k: u16| map@.contains_key(k), |k: u16| map@[k]@) =~= company_table(
                    rows@.subrange(0, i as int),
                ),
            decreases rows@.len() - i,
        {
            let row = &rows[i];
            map.insert(row.code, row.name.clone());
            proof {
                let p = rows@.subrange(0, i as int + 1);
                assert(p.drop_last() =~= rows@.subrange(0, i as int));
            }
            i = i + 1;
        }
        assert(rows@.subrange(0, rows@.len() as int) =~= rows@);
        map
    }

    fn read_descriptor_file(rows: Vec<MetadataEntry>) -> (r: Result<HashMap<u128, MetadataEntry>, UuidError>)
        ensures
            match metadata_table(rows@) {
                Ok(m) => r is Ok && r->Ok_0@ == m,
                Err(e) => r == Err::<HashMap<u128, MetadataEntry>, UuidError>(e),
            },
    {
        let mut map: HashMap<u128, MetadataEntry> = HashMap::new();
        let mut i: usize = 0;
        while i < rows.len()
            invariant
                0 <= i <= rows@.len(),
                metadata_table(rows@.subrange(0, i as int)) == Ok::<Map<u128, MetadataEntry>, UuidError>(map@),
            decreases rows@.len() - i,
        {
            let row = &rows[i];
            proof {
                let p = rows@.subrange(0, i as int + 1);
                assert(p.drop_last() =~= rows@.subrange(0, i as int));
            }
            match parse_uuid(row.uuid.as_str()) {
                Err(e) => {
                    proof {
                        lemma_metadata_table_err_extends(rows@, i as int + 1);
                    }
                    return Err(e);
                },
                Ok(u) => {
                    map.insert(u, row.duplicate());
                },
            }
            i = i + 1;
        }
        assert(rows@.subrange(0, rows@.len() as int) =~= rows@);
        Ok(map)
    }

    /// Builds the database from the rows of its four tables. Fails with the
    /// error of the first identifier row, taken table by table
    /// (characteristics, services, descriptors), that cannot be read.
    pub fn create(
        companies: Vec<CompanyEntry>,
        characteristics: Vec<MetadataEntry>,
        services: Vec<MetadataEntry>,
        descriptors: Vec<MetadataEntry>,
    ) -> (r: Result<BluetoothDB, UuidError>)
        ensures
            match (
                metadata_table(characteristics@),
                metadata_table(services@),
                metadata_table(descriptors@),
            ) {
                (Ok(c), Ok(s), Ok(d)) => r is Ok && r->Ok_0.companies() == company_table(companies@)
                    && r->Ok_0.characteristics() == c && r->Ok_0.services() == s
                    && r->Ok_0.descriptors() == d,
                (Err(e), _, _) => r == Err::<BluetoothDB, UuidError>(e),
                (Ok(_), Err(e), _) => r == Err::<BluetoothDB, UuidError>(e),
                (Ok(_), Ok(_), Err(e)) => r == Err::<BluetoothDB, UuidError>(e),
            },
    {
        let map_characteristic = match BluetoothDB::read_descriptor_file(characteristics) {
            Ok(m) => m,
            Err(e) => {
                return Err(e);
            },
        };
        let map_service = match BluetoothDB::read_descriptor_file(services) {
            Ok(m) => m,
            Err(e) => {
                return Err(e);
            },
        };
        let map_descriptor = match BluetoothDB::read_descriptor_file(descriptors) {
            Ok(m) => m,
            Err(e) => {
                return Err(e);
            },
        };
        let map_company = BluetoothDB::read_name_code_file(companies);
        Ok(BluetoothDB { map_company, map_characteristic, map_service, map_descriptor })
    }

    /// The name of a vendor code, or `Unknown(<code>)` for a code absent
    /// from the table.
    pub fn get_company(&self, id: u16) -> (r: String)
        ensures
            r@ == self.company_name(id),
    {
        match self.map_company.get(&id) {
            Some(v) => v.clone(),
            None => {
                let mut s = owned_text("Unknown(");
                push_decimal(&mut s, id as u64);
                push_text(&mut s, ")");
                s
            },
        }
    }

    /// The name of a service identifier, or `UUID <identifier>` for one
    /// absent from the table.
    pub fn get_service_name(&self, uuid: u128) -> (r: String)
        ensures
            r@ == self.service_name(uuid),
    {
        match self.map_service.get(&uuid) {
            Some(v) => v.name.clone(),
            None => unknown_uuid_name(uuid),
        }
    }

    /// The name of a descriptor identifier, or `UUID <identifier>` for one
    /// absent from the table.
    pub fn get_descriptor_name(&self, uuid: u128) -> (r: String)
        ensures
            r@ == self.descriptor_name(uuid),
    {
        match self.map_descriptor.get(&uuid) {
            Some(v) => v.name.clone(),
            None => unknown_uuid_name(uuid),
        }
    }

    /// The name of a characteristic identifier. One absent from the table
    /// is shown as `BTLE UUID 0x<four digits>` when it is the Bluetooth
    /// base identifier with a 16-bit segment embedded, else as
    /// `UUID <identifier>`.
    pub fn get_characteristic_name(&self, uuid: u128) -> (r: String)
        ensures
            r@ == self.characteristic_name(uuid),
    {
        match self.map_characteristic.get(&uuid) {
            Some(v) => v.name.clone(),
            None => {
                let low: u128 = 0x0000_1000_8000_0080_5F9B_34FB;
                let high = uuid / 0x1_0000_0000_0000_0000_0000_0000;
                if uuid % 0x1_0000_0000_0000_0000_0000_0000 == low && high < 0x10000 {
                    let mut s = owned_text("BTLE UUID 0x");
                    push_fixed_lower_hex(&mut s, high as u32, 4);
                    s
                } else {
                    unknown_uuid_name(uuid)
                }
            },
        }
    }
}

fn unknown_uuid_name(uuid: u128) -> (r: String)
    ensures
        r@ == unknown_uuid(uuid),
{
    let mut s = owned_text("UUID ");
    let t = uuid_text(uuid);
    push_text(&mut s, t.as_str());
    s
}

proof fn lemma_metadata_table_err_extends(rows: Seq<MetadataEntry>, n: int)
    requires
        0 <= n <= rows.len(),
        metadata_table(rows.subrange(0, n)) is Err,
    ensures
        metadata_table(rows) == metadata_table(rows.subrange(0, n)),
    decreases rows.len() - n,
{
    if n == rows.len() {
        assert(rows.subrange(0, n) =~= rows);
    } else {
        let p = rows.subrange(0, n + 1);
        assert(p.drop_last() =~= rows.subrange(0, n));
        lemma_metadata_table_err_extends(rows, n + 1);
    }
}

/// Whether `c` is a lower-case hexadecimal digit.
pub open spec fn is_lower_hex_digit(c: char) -> bool {
    ('0' <= c && c <= '9') || ('a' <= c && c <= 'f')
}

proof fn lemma_hex_value_bound(d: Seq<char>)
    ensures
        hex_value(d) < pow16(d.len()),
    decreases d.len(),
{
    if d.len() > 0 {
        lemma_hex_value_bound(d.drop_last());
        let v = hex_value(d.drop_last());
        let p = pow16((d.len() - 1) as nat);
        let x = hex_digit_value(d.last()).unwrap_or(0);
        assert(x < 16);
        assert(v * 16 + x < p * 16) by (nonlinear_arith)
            requires
                v < p,
                x < 16,
        ;
    }
}

proof fn lemma_fixed_hex_round_trip(d: Seq<char>)
    requires
        forall|i: int| 0 <= i < d.len() ==> is_lower_hex_digit(#[trigger] d[i]),
    ensures
        fixed_lower_hex(hex_value(d), d.len()) == d,
    decreases d.len(),
{
    if d.len() > 0 {
        let p = d.drop_last();
        let c = d.last();
        assert(is_lower_hex_digit(d[d.len() - 1]));
        lemma_fixed_hex_round_trip(p);
        let x = hex_digit_value(c).unwrap_or(0);
        assert(x < 16);
        let v = hex_value(d);
        assert(v == hex_value(p) * 16 + x);
        assert(v / 16 == hex_value(p) && v % 16 == x) by (nonlinear_arith)
            requires
                v == hex_value(p) * 16 + x,
                x < 16,
        ;
        assert(lower_digit(x) == c);
        assert(fixed_lower_hex(v, d.len()) == fixed_lower_hex(hex_value(p), p.len()).push(c));
        assert(p.push(c) =~= d);
    }
}

/// Normalizing keeps a canonical identifier: the result is the number its
/// digits write, and written back in lower case it gives the same text.
pub proof fn lemma_canonical_round_trip(s: Seq<char>)
    requires
        is_hyphenated(s),
    ensures
        normalized(s) is Ok,
        normalized(s)->Ok_0 as nat == hyphenated_value(s),
        (forall|i: int| 0 <= i < 36 && !is_hyphen_position(i) ==> is_lower_hex_digit(#[trigger] s[i]))
            ==> hyphenated_text(normalized(s)->Ok_0) == s,
{
    let d = hyphenated_digits(s);
    assert(d.len() == 32);
    lemma_hex_value_bound(d);
    assert(pow16(32) == 0x1_0000_0000_0000_0000_0000_0000_0000_0000) by {
        reveal_with_fuel(pow16, 33);
    }
    if forall|i: int| 0 <= i < 36 && !is_hyphen_position(i) ==> is_lower_hex_digit(#[trigger] s[i]) {
        assert forall|i: int| 0 <= i < d.len() implies is_lower_hex_digit(#[trigger] d[i]) by {
            let j = if i < 8 {
                i
            } else if i < 12 {
                i + 1
            } else if i < 16 {
                i + 2
            } else if i < 20 {
                i + 3
            } else {
                i + 4
            };
            assert(d[i] == s[j]);
            assert(!is_hyphen_position(j));
        }
        lemma_fixed_hex_round_trip(d);
        let t = hyphenated_text(normalized(s)->Ok_0);
        assert forall|i: int| 0 <= i < 36 implies #[trigger] t[i] == s[i] by {
            if is_hyphen_position(i) {
                assert(s[i] == '-');
            }
        }
        assert(t =~= s);
    }
}

/// A short form always stands for an identifier whose lower 96 bits are
/// those of the Bluetooth base identifier.
pub proof fn lemma_short_form_base(s: Seq<char>)
    requires
        s.len() == 4,
        forall|i: int| 0 <= i < 4 ==> is_hex_digit(#[trigger] s[i]),
    ensures
        normalized(s) is Ok,
        normalized(s)->Ok_0 as nat % two_pow_96() == base_low_bits(),
{
    let h = hex_value(s);
    lemma_hex_value_bound(s);
    assert(pow16(4) == 0x10000) by {
        reveal_with_fuel(pow16, 5);
    }
    let v = short_uuid(h);
    assert(v < 0x1_0000_0000_0000_0000_0000_0000_0000_0000) by (nonlinear_arith)
        requires
            v == h * 0x1_0000_0000_0000_0000_0000_0000 + 0x0000_1000_8000_0080_5F9B_34FB,
            h < 0x10000,
    ;
    assert(v % two_pow_96() == base_low_bits()) by (nonlinear_arith)
        requires
            v == h * 0x1_0000_0000_0000_0000_0000_0000 + 0x0000_1000_8000_0080_5F9B_34FB,
    ;
}

} // verus!
