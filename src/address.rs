use vstd::prelude::*;

verus! {

/// Number of bytes in a device address.
pub const ADDRESS_LEN: usize = 6;

/// A six-byte hardware address of a wireless device.
#[derive(Clone, Copy, Debug, PartialEq, Eq, PartialOrd, Ord, Hash)]
pub struct DeviceAddress {
    pub address: [u8; 6],
}

/// The bytes of an address as a sequence.
pub open spec fn bytes_of(a: DeviceAddress) -> Seq<u8> {
    a.address@
}

/// The all-ones address, which a filter reads as "any device".
pub open spec fn is_wildcard(a: DeviceAddress) -> bool {
    forall|i: int| 0 <= i < 6 ==> #[trigger] a.address@[i] == 0xFFu8
}

/// Whether an address filter lets events of `addr` through.
pub open spec fn filter_matches(filter: DeviceAddress, addr: DeviceAddress) -> bool {
    is_wildcard(filter) || bytes_of(filter) == bytes_of(addr)
}

/// The address bytes read as a 48-bit big-endian number, the key under
/// which the registry records the address.
pub open spec fn address_value(a: DeviceAddress) -> nat {
    bytes_value(a.address@, 6)
}

/// The first `n` bytes of `b` read as a big-endian number.
pub open spec fn bytes_value(b: Seq<u8>, n: nat) -> nat
    decreases n,
{
    if n == 0 {
        0
    } else {
        bytes_value(b, (n - 1) as nat) * 256 + b[n - 1] as nat
    }
}

proof fn lemma_bytes_value_bound(b: Seq<u8>, n: nat)
    ensures
        bytes_value(b, n) < pow256(n),
    decreases n,
{
    if n > 0 {
        lemma_bytes_value_bound(b, (n - 1) as nat);
        let p = pow256((n - 1) as nat);
        let v = bytes_value(b, (n - 1) as nat);
        assert(v * 256 + (b[n - 1] as nat) < p * 256) by (nonlinear_arith)
            requires
                v < p,
                (b[n - 1] as nat) <= 255,
        ;
    }
}

/// `256` raised to `n`.
pub open spec fn pow256(n: nat) -> nat
    decreases n,
{
    if n == 0 {
        1
    } else {
        pow256((n - 1) as nat) * 256
    }
}

impl DeviceAddress {
    /// The all-zero address, which is also the default.
    pub fn zero() -> (r: DeviceAddress)
        ensures
            r.address@ == seq![0u8, 0u8, 0u8, 0u8, 0u8, 0u8],
    {
        DeviceAddress { address: [0u8; 6] }
    }

    /// The all-ones address, which matches any device in a filter.
    pub fn wildcard() -> (r: DeviceAddress)
        ensures
            is_wildcard(r),
    {
        DeviceAddress { address: [0xFFu8; 6] }
    }

    /// Builds an address from its six bytes, in the order the radio stack
    /// stores them (it prints them last byte first).
    pub fn new(address: [u8; 6]) -> (r: DeviceAddress)
        ensures
            r.address == address,
    {
        DeviceAddress { address }
    }

    /// Whether two addresses hold the same bytes.
    pub fn same_as(&self, other: &DeviceAddress) -> (r: bool)
        ensures
            r == (bytes_of(*self) == bytes_of(*other)),
    {
        let mut i: usize = 0;
        while i < ADDRESS_LEN
            invariant
                0 <= i <= 6,
                forall|j: int| 0 <= j < i ==> self.address@[j] == other.address@[j],
            decreases 6 - i,
        {
            if self.address[i] != other.address[i] {
                return false;
            }
            i = i + 1;
        }
        assert(self.address@ =~= other.address@);
        true
    }

    /// Whether every byte is `0xFF`.
    pub fn is_wildcard(&self) -> (r: bool)
        ensures
            r == is_wildcard(*self),
    {
        let mut i: usize = 0;
        while i < ADDRESS_LEN
            invariant
                0 <= i <= 6,
                forall|j: int| 0 <= j < i ==> self.address@[j] == 0xFFu8,
            decreases 6 - i,
        {
            if self.address[i] != 0xFFu8 {
                return false;
            }
            i = i + 1;
        }
        true
    }

    /// The address as a 48-bit number, used as a key.
    pub fn to_key(&self) -> (r: u64)
        ensures
            r as nat == address_value(*self),
            r < 0x1_0000_0000_0000,
    {
        let mut v: u64 = 0;
        let mut i: usize = 0;
        while i < ADDRESS_LEN
            invariant
                0 <= i <= 6,
                v as nat == bytes_value(self.address@, i as nat),
            decreases 6 - i,
        {
            proof {
                lemma_bytes_value_bound(self.address@, i as nat);
                lemma_pow256_small(i as nat);
            }
            v = v * 256 + self.address[i] as u64;
            i = i + 1;
        }
        proof {
            lemma_bytes_value_bound(self.address@, 6);
            assert(pow256(6) == 0x1_0000_0000_0000) by {
                reveal_with_fuel(pow256, 7);
            }
        }
        v
    }
}

proof fn lemma_pow256_small(n: nat)
    requires
        n < 6,
    ensures
        pow256(n) <= 0x100_0000_0000,
{
    assert(pow256(5) == 0x100_0000_0000) by {
        reveal_with_fuel(pow256, 6);
    }
    lemma_pow256_mono(n, 5);
}

proof fn lemma_pow256_mono(a: nat, b: nat)
    requires
        a <= b,
    ensures
        pow256(a) <= pow256(b),
    decreases b - a,
{
    if a < b {
        lemma_pow256_mono(a, (b - 1) as nat);
    }
}

/// Whether `filter` lets events of `address_to_log` through: the wildcard
/// filter matches every address, any other filter only itself.
pub fn match_filter(filter: DeviceAddress, address_to_log: &DeviceAddress) -> (r: bool)
    ensures
        r == filter_matches(filter, *address_to_log),
{
    filter.is_wildcard() || filter.same_as(address_to_log)
}

/// The filter rules: the wildcard filter matches every address, a filter
/// matches its own address, and a filter other than the wildcard matches
/// no other address.
pub proof fn lemma_filter_laws(filter: DeviceAddress, a: DeviceAddress)
    ensures
        is_wildcard(filter) ==> filter_matches(filter, a),
        filter_matches(a, a),
        !is_wildcard(filter) && bytes_of(filter) != bytes_of(a) ==> !filter_matches(filter, a),
{
}

proof fn lemma_bytes_value_injective(b: Seq<u8>, c: Seq<u8>, n: nat)
    requires
        n <= b.len(),
        n <= c.len(),
        bytes_value(b, n) == bytes_value(c, n),
    ensures
        b.subrange(0, n as int) == c.subrange(0, n as int),
    decreases n,
{
    if n > 0 {
        let vb = bytes_value(b, (n - 1) as nat);
        let vc = bytes_value(c, (n - 1) as nat);
        let lb = b[n - 1] as nat;
        let lc = c[n - 1] as nat;
        assert(vb == vc && lb == lc) by (nonlinear_arith)
            requires
                vb * 256 + lb == vc * 256 + lc,
                lb < 256,
                lc < 256,
        ;
        lemma_bytes_value_injective(b, c, (n - 1) as nat);
        assert(b.subrange(0, n as int) =~= b.subrange(0, n - 1).push(b[n - 1]));
        assert(c.subrange(0, n as int) =~= c.subrange(0, n - 1).push(c[n - 1]));
    }
}

/// Two addresses have the same numeric value exactly when they hold the
/// same bytes, so a registry keyed by that value holds each address once.
pub proof fn lemma_address_value_injective(a: DeviceAddress, b: DeviceAddress)
    ensures
        address_value(a) == address_value(b) <==> bytes_of(a) == bytes_of(b),
{
    if address_value(a) == address_value(b) {
        lemma_bytes_value_injective(a.address@, b.address@, 6);
        assert(a.address@.subrange(0, 6) =~= a.address@);
        assert(b.address@.subrange(0, 6) =~= b.address@);
    }
}

} // verus!
