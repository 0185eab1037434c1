use std::collections::HashMap;
use vstd::prelude::*;
use crate::address::{address_value, DeviceAddress};

verus! {

broadcast use vstd::std_specs::hash::group_hash_axioms;

/// What is known of a device seen during a session. It holds nothing yet
/// beyond the fact that the device was seen.
#[derive(Clone, Copy, Debug, PartialEq, Eq, Structural)]
pub struct KnownDevice {}

impl KnownDevice {
    /// The record of a device that has just been seen.
    pub fn new() -> (r: KnownDevice)
        ensures
            r == (KnownDevice {}),
    {
        KnownDevice {}
    }
}

/// The key under which an address is recorded: its 48-bit value.
pub open spec fn address_key(a: DeviceAddress) -> u64 {
    address_value(a) as u64
}

/// One observation of `a`, taking the registry from `before` to `after`
/// with result `r`: an unknown address gets a fresh record, inserted, and
/// is reported new; a known one is found unchanged and the registry stays
/// as it was.
pub open spec fn observed(
    before: Map<u64, KnownDevice>,
    a: DeviceAddress,
    after: Map<u64, KnownDevice>,
    r: (KnownDevice, bool),
) -> bool {
    let key = address_key(a);
    &&& r.1 == !before.contains_key(key)
    &&& if r.1 {
        &&& after == before.insert(key, KnownDevice {})
        &&& r.0 == KnownDevice {}
    } else {
        &&& after == before
        &&& r.0 == before[key]
    }
}

/// Repeated observation of one address: whatever the registry held before,
/// over any run of observations of `a` at most one reports a new device,
/// every observation yields the record of the first, and only the first
/// can change the registry.
pub proof fn lemma_observe_idempotent(
    states: Seq<Map<u64, KnownDevice>>,
    results: Seq<(KnownDevice, bool)>,
    a: DeviceAddress,
)
    requires
        results.len() > 0,
        states.len() == results.len() + 1,
        forall|i: int|
            0 <= i < results.len() ==> observed(states[i], a, states[i + 1], #[trigger] results[i]),
    ensures
        forall|i: int| 1 <= i < results.len() ==> !(#[trigger] results[i]).1,
        forall|i: int| 0 <= i < results.len() ==> (#[trigger] results[i]).0 == results[0].0,
        forall|i: int| 1 <= i < states.len() ==> #[trigger] states[i] == states[1],
{
    assert forall|i: int| 1 <= i < states.len() implies #[trigger] states[i] == states[1]
        && states[i].contains_key(address_key(a)) && states[i][address_key(a)] == results[0].0 by {
        lemma_observe_settled(states, results, a, i);
    }
    assert forall|i: int| 1 <= i < results.len() implies !(#[trigger] results[i]).1 by {
        assert(observed(states[i], a, states[i + 1], results[i]));
    }
    assert forall|i: int| 0 <= i < results.len() implies (#[trigger] results[i]).0 == results[0].0 by {
        if i > 0 {
            assert(observed(states[i], a, states[i + 1], results[i]));
        }
    }
}

proof fn lemma_observe_settled(
    states: Seq<Map<u64, KnownDevice>>,
    results: Seq<(KnownDevice, bool)>,
    a: DeviceAddress,
    i: int,
)
    requires
        results.len() > 0,
        states.len() == results.len() + 1,
        forall|j: int|
            0 <= j < results.len() ==> observed(states[j], a, states[j + 1], #[trigger] results[j]),
        1 <= i < states.len(),
    ensures
        states[i] == states[1],
        states[i].contains_key(address_key(a)),
        states[i][address_key(a)] == results[0].0,
    decreases i,
{
    assert(observed(states[0], a, states[0int + 1], results[0]));
    if i > 1 {
        lemma_observe_settled(states, results, a, i - 1);
        assert(observed(states[i - 1], a, states[i - 1 + 1], results[i - 1]));
    }
}

/// The devices seen during a session, each address at most once.
pub struct DeviceDB {
    pub devices: HashMap<u64, KnownDevice>,
}

impl DeviceDB {
    /// The seen devices, keyed by the numeric value of their address.
    pub open spec fn view(&self) -> Map<u64, KnownDevice> {
        self.devices@
    }

    /// An empty registry.
    pub fn new() -> (r: DeviceDB)
        ensures
            r.view() == Map::<u64, KnownDevice>::empty(),
    {
        let r = DeviceDB { devices: HashMap::new() };
        assert(r.view() =~= Map::<u64, KnownDevice>::empty());
        r
    }

    /// Records that `addr` was seen. A new address gets a fresh record and
    /// the result says it is new; a known one keeps its record and nothing
    /// else changes.
    pub fn see_device(&mut self, addr: DeviceAddress) -> (r: (KnownDevice, bool))
        ensures
            observed(old(self).view(), addr, final(self).view(), r),
    {
        let key = addr.to_key();
        match self.devices.get(&key) {
            Some(d) => {
                let known = *d;
                (known, false)
            },
            None => {
                let device = KnownDevice::new();
                self.devices.insert(key, device);
                proof {
                    assert(self.view() =~= old(self).view().insert(address_key(addr), device));
                }
                (device, true)
            },
        }
    }

    /// The number of devices seen.
    pub fn len(&self) -> (r: usize)
        ensures
            r == self.view().len(),
    {
        self.devices.len()
    }
}

} // verus!
