//! The device cache: which identity each attached device has.
//!
//! A disconnect event carries only the handle of the device that left, so the
//! identity seen at connect time is kept here and recovered when the handle
//! comes back in a disconnect.

use crate::identity::DeviceIdentity;
use std::collections::HashMap;
use vstd::prelude::*;
use vstd::set_lib::lemma_map_size;

verus! {

/// The number the host gives to one attachment of a device. A device that is
/// unplugged and plugged in again comes back under a new handle.
#[derive(Clone, Copy, Debug, PartialEq, Eq, Hash, Structural)]
pub struct DeviceHandle {
    pub raw: u64,
}

/// The identities of the devices that are attached, by handle.
pub struct DeviceCache {
    entries: HashMap<u64, DeviceIdentity>,
}

impl View for DeviceCache {
    type V = Map<DeviceHandle, DeviceIdentity>;

    closed spec fn view(&self) -> Map<DeviceHandle, DeviceIdentity> {
        Map::new(
            |handle: DeviceHandle| self.entries@.contains_key(handle.raw),
            |handle: DeviceHandle| self.entries@[handle.raw],
        )
    }
}

impl DeviceHandle {
    /// The handle with the given number.
    pub fn new(raw: u64) -> (handle: DeviceHandle)
        ensures
            handle.raw == raw,
    {
        DeviceHandle { raw }
    }
}

impl DeviceCache {
    /// The handles in the view are the keys that are stored, one for one.
    proof fn lemma_view_matches_entries(&self)
        ensures
            self@.dom().finite(),
            self@.len() == self.entries@.len(),
    {
        let wrap = |raw: u64| DeviceHandle { raw };
        let keys = self.entries@.dom();
        assert(keys.map(wrap) =~= self@.dom()) by {
            assert forall|handle: DeviceHandle| self@.dom().contains(handle) implies keys.map(
                wrap,
            ).contains(handle) by {
                assert(keys.contains(handle.raw) && wrap(handle.raw) == handle);
            }
        }
        assert(vstd::relations::injective_on(wrap, keys));
        lemma_map_size(keys, self@.dom(), wrap);
    }

    /// A cache with no device in it.
    pub fn new() -> (cache: DeviceCache)
        ensures
            cache@ == Map::<DeviceHandle, DeviceIdentity>::empty(),
    {
        let cache = DeviceCache { entries: HashMap::new() };
        assert(cache@ =~= Map::<DeviceHandle, DeviceIdentity>::empty());
        cache
    }

    /// Stores the identity of a device under its handle, in place of what was
    /// stored under that handle before.
    pub fn record(&mut self, handle: DeviceHandle, identity: DeviceIdentity)
        ensures
            final(self)@ == old(self)@.insert(handle, identity),
    {
        self.entries.insert(handle.raw, identity);
        assert(self@ =~= old(self)@.insert(handle, identity));
    }

    /// Takes a handle out of the cache and returns the identity that was
    /// stored under it, or `None` for a handle that was not in the cache.
    pub fn forget(&mut self, handle: DeviceHandle) -> (prior: Option<DeviceIdentity>)
        ensures
            final(self)@ == old(self)@.remove(handle),
            prior == old(self)@.get(handle),
    {
        let prior = self.entries.remove(&handle.raw);
        assert(self@ =~= old(self)@.remove(handle));
        prior
    }

    /// The identity stored under a handle, if there is one.
    pub fn lookup(&self, handle: DeviceHandle) -> (found: Option<DeviceIdentity>)
        ensures
            found == self@.get(handle),
    {
        match self.entries.get(&handle.raw) {
            Some(identity) => Some(*identity),
            None => None,
        }
    }

    /// An identity is among the values that are stored exactly when some
    /// handle of the view has it.
    proof fn lemma_values_match_entries(&self, identity: DeviceIdentity)
        ensures
            self@.contains_value(identity) == self.entries@.values().contains(identity),
    {
        let stored = self.entries@;
        if stored.values().contains(identity) {
            let raw = choose|raw: u64| stored.contains_key(raw) && stored[raw] == identity;
            let handle = DeviceHandle { raw };
            assert(self@.dom().contains(handle) && self@[handle] == identity);
        }
        if self@.contains_value(identity) {
            let handle = choose|handle: DeviceHandle|
                self@.dom().contains(handle) && self@[handle] == identity;
            assert(stored.contains_key(handle.raw) && stored[handle.raw] == identity);
        }
    }

    /// Whether some device in the cache has the given identity.
    pub fn holds(&self, identity: DeviceIdentity) -> (held: bool)
        ensures
            held == self@.contains_value(identity),
    {
        let mut held = false;
        for seen in iter: self.entries.values()
            invariant
                iter.seq().unref().to_set() == self.entries@.values(),
                held == (exists|i: int| 0 <= i < iter.index() && *iter.seq()[i] == identity),
                iter.index() == iter.seq().len() ==> held == self@.contains_value(identity),
        {
            if *seen == identity {
                held = true;
            }
            proof {
                self.lemma_values_match_entries(identity);
            }
            assert(iter.index() + 1 == iter.seq().len() ==> held == self@.contains_value(
                identity,
            )) by {
                assert(*iter.seq()[iter.index()] == *seen);
                if held {
                    let i = choose|i: int| 0 <= i <= iter.index() && *iter.seq()[i] == identity;
                    assert(iter.seq().unref()[i] == identity);
                }
                if iter.index() + 1 == iter.seq().len() && iter.seq().unref().to_set().contains(
                    identity,
                ) {
                    let i = choose|i: int|
                        0 <= i < iter.seq().unref().len() && iter.seq().unref()[i] == identity;
                    assert(*iter.seq()[i] == identity);
                }
            }
        }
        held
    }

    /// The number of devices in the cache.
    pub fn len(&self) -> (count: usize)
        ensures
            self@.dom().finite(),
            count == self@.len(),
    {
        proof {
            self.lemma_view_matches_entries();
        }
        self.entries.len()
    }

    /// Whether no device is in the cache.
    pub fn is_empty(&self) -> (empty: bool)
        ensures
            empty == (self@ == Map::<DeviceHandle, DeviceIdentity>::empty()),
    {
        proof {
            self.lemma_view_matches_entries();
            if self@.len() == 0 {
                assert(self@ =~= Map::<DeviceHandle, DeviceIdentity>::empty());
            }
        }
        self.entries.len() == 0
    }
}

/// Recording the same device under the same handle twice leaves the cache
/// as recording it once does.
pub proof fn law_record_is_idempotent(
    cache: Map<DeviceHandle, DeviceIdentity>,
    handle: DeviceHandle,
    identity: DeviceIdentity,
)
    ensures
        cache.insert(handle, identity).insert(handle, identity) == cache.insert(handle, identity),
{
    let once = cache.insert(handle, identity);
    assert(once.insert(handle, identity) =~= once);
}

/// Forgetting a handle gives back what was recorded under it last, whatever
/// was recorded under it before, and leaves no entry for it.
pub proof fn law_forget_returns_what_record_stored(
    cache: Map<DeviceHandle, DeviceIdentity>,
    handle: DeviceHandle,
    earlier: DeviceIdentity,
    identity: DeviceIdentity,
)
    ensures
        cache.insert(handle, earlier).insert(handle, identity).get(handle) == Some(identity),
        !cache.insert(handle, identity).remove(handle).contains_key(handle),
{
}

} // verus!
