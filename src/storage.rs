use vstd::prelude::*;

use crate::types::{Address, Attestation, Endpoint, PayloadHash};
use crate::Error;

verus! {

/// Ledgers in one day.
pub const DAY_IN_LEDGERS: u32 = 17280;

/// Window to which a write to the short-lived tier extends the entry's life.
pub const INSTANCE_LIFETIME: u32 = DAY_IN_LEDGERS * 30;

/// Window to which a write to the long-lived tier extends the entry's life.
pub const PERSISTENT_LIFETIME: u32 = DAY_IN_LEDGERS * 90;

/// The two storage tiers, each with its own lifetime policy.
#[derive(Clone, Copy, Debug, PartialEq, Eq, Structural)]
pub enum Durability {
    /// Contract-wide state: the administrator and the id counter.
    Instance,
    /// Per-key records: attestor flags, attestations, used hashes, endpoints.
    Persistent,
}

impl Durability {
    pub open spec fn spec_window(self) -> u32 {
        match self {
            Durability::Instance => INSTANCE_LIFETIME,
            Durability::Persistent => PERSISTENT_LIFETIME,
        }
    }

    /// The time-to-live that a write to this tier refreshes a key to.
    pub fn window(&self) -> (r: u32)
        ensures
            r == self.spec_window(),
    {
        match self {
            Durability::Instance => INSTANCE_LIFETIME,
            Durability::Persistent => PERSISTENT_LIFETIME,
        }
    }
}

/// A storage key: a namespace tag and the fields that tell entries of that
/// namespace apart. Distinct variants never collide.
#[derive(Clone, Copy, Debug)]
pub enum StorageKey {
    Admin,
    Attestor(Address),
    Counter,
    Attestation(u64),
    UsedHash(PayloadHash),
    Endpoint(Address),
}

impl PartialEq for StorageKey {
    fn eq(&self, o: &StorageKey) -> (r: bool) {
        match (self, o) {
            (StorageKey::Admin, StorageKey::Admin) => true,
            (StorageKey::Attestor(a), StorageKey::Attestor(b)) => a == b,
            (StorageKey::Counter, StorageKey::Counter) => true,
            (StorageKey::Attestation(a), StorageKey::Attestation(b)) => *a == *b,
            (StorageKey::UsedHash(a), StorageKey::UsedHash(b)) => a == b,
            (StorageKey::Endpoint(a), StorageKey::Endpoint(b)) => a == b,
            _ => false,
        }
    }
}

impl vstd::std_specs::cmp::PartialEqSpecImpl for StorageKey {
    open spec fn obeys_eq_spec() -> bool {
        true
    }

    open spec fn eq_spec(&self, o: &StorageKey) -> bool {
        *self == *o
    }
}

impl Eq for StorageKey {
}

/// A value held in the store.
#[derive(Debug, PartialEq, Eq)]
pub enum StoredValue {
    Address(Address),
    Flag(bool),
    Counter(u64),
    Attestation(Attestation),
    Endpoint(Endpoint),
}

/// A stored value with its remaining time-to-live, in ledgers.
#[derive(Debug, PartialEq, Eq)]
pub struct Slot {
    pub value: StoredValue,
    pub ttl: u32,
}

/// One tier: entries with pairwise distinct keys.
struct Tier {
    entries: Vec<(StorageKey, Slot)>,
    contents: Ghost<Map<StorageKey, Slot>>,
}

impl Tier {
    spec fn wf(&self) -> bool {
        &&& forall|i: int, j: int|
            0 <= i < j < self.entries@.len() ==> (#[trigger] self.entries@[i]).0
                != (#[trigger] self.entries@[j]).0
        &&& forall|i: int|
            0 <= i < self.entries@.len() ==> {
                &&& self.contents@.contains_key(#[trigger] self.entries@[i].0)
                &&& self.contents@[self.entries@[i].0] == self.entries@[i].1
            }
        &&& forall|k: StorageKey| #[trigger]
            self.contents@.contains_key(k) ==> exists|i: int|
                0 <= i < self.entries@.len() && (#[trigger] self.entries@[i]).0 == k
    }

    spec fn contents(&self) -> Map<StorageKey, Slot> {
        self.contents@
    }

    fn new() -> (t: Tier)
        ensures
            t.wf(),
            t.contents() == Map::<StorageKey, Slot>::empty(),
    {
        Tier { entries: Vec::new(), contents: Ghost(Map::empty()) }
    }

    fn find(&self, key: &StorageKey) -> (r: Option<usize>)
        requires
            self.wf(),
        ensures
            match r {
                Some(i) => i < self.entries@.len() && self.entries@[i as int].0 == *key,
                None => !self.contents().contains_key(*key),
            },
    {
        let mut i: usize = 0;
        while i < self.entries.len()
            invariant
                self.wf(),
                0 <= i <= self.entries@.len(),
                forall|j: int| 0 <= j < i ==> (#[trigger] self.entries@[j]).0 != *key,
            decreases self.entries@.len() - i,
        {
            if self.entries[i].0 == *key {
                return Some(i);
            }
            i += 1;
        }
        None
    }

    fn get(&self, key: &StorageKey) -> (r: Option<&Slot>)
        requires
            self.wf(),
        ensures
            match r {
                Some(s) => self.contents().contains_key(*key) && self.contents()[*key] == *s,
                None => !self.contents().contains_key(*key),
            },
    {
        match self.find(key) {
            Some(i) => Some(&self.entries[i].1),
            None => None,
        }
    }

    fn has(&self, key: &StorageKey) -> (r: bool)
        requires
            self.wf(),
        ensures
            r == self.contents().contains_key(*key),
    {
        self.find(key).is_some()
    }

    fn put(&mut self, key: StorageKey, slot: Slot)
        requires
            old(self).wf(),
        ensures
            final(self).wf(),
            final(self).contents() == old(self).contents().insert(key, slot),
    {
        let ghost before = self.contents@;
        let ghost s = slot;
        match self.find(&key) {
            Some(i) => {
                self.entries.set(i, (key, slot));
                self.contents = Ghost(before.insert(key, s));
                assert forall|k: StorageKey| #[trigger]
                    self.contents@.contains_key(k) implies exists|j: int|
                        0 <= j < self.entries@.len() && (#[trigger] self.entries@[j]).0 == k by {
                    if k != key {
                        let j = choose|j: int|
                            0 <= j < old(self).entries@.len() && (#[trigger] old(
                                self,
                            ).entries@[j]).0 == k;
                        assert(self.entries@[j].0 == k);
                    } else {
                        assert(self.entries@[i as int].0 == k);
                    }
                }
            },
            None => {
                self.entries.push((key, slot));
                self.contents = Ghost(before.insert(key, s));
                assert forall|k: StorageKey| #[trigger]
                    self.contents@.contains_key(k) implies exists|j: int|
                        0 <= j < self.entries@.len() && (#[trigger] self.entries@[j]).0 == k by {
                    if k != key {
                        let j = choose|j: int|
                            0 <= j < old(self).entries@.len() && (#[trigger] old(
                                self,
                            ).entries@[j]).0 == k;
                        assert(self.entries@[j].0 == k);
                    } else {
                        assert(self.entries@[old(self).entries@.len() as int].0 == k);
                    }
                }
            },
        }
    }

    fn delete(&mut self, key: &StorageKey)
        requires
            old(self).wf(),
        ensures
            final(self).wf(),
            final(self).contents() == old(self).contents().remove(*key),
    {
        let ghost before = self.contents@;
        match self.find(key) {
            Some(i) => {
                let ghost old_entries = self.entries@;
                self.entries.remove(i);
                self.contents = Ghost(before.remove(*key));
                assert forall|k: StorageKey| #[trigger]
                    self.contents@.contains_key(k) implies exists|j: int|
                        0 <= j < self.entries@.len() && (#[trigger] self.entries@[j]).0 == k by {
                    let j = choose|j: int|
                        0 <= j < old_entries.len() && (#[trigger] old_entries[j]).0 == k;
                    if j < i {
                        assert(self.entries@[j].0 == k);
                    } else {
                        assert(self.entries@[j - 1].0 == k);
                    }
                }
            },
            None => {
                assert(before.remove(*key) =~= before);
            },
        }
    }
}

/// What the store holds: the contents of each tier.
pub struct StorageView {
    pub instance: Map<StorageKey, Slot>,
    pub persistent: Map<StorageKey, Slot>,
}

impl StorageView {
    pub open spec fn tier(self, d: Durability) -> Map<StorageKey, Slot> {
        match d {
            Durability::Instance => self.instance,
            Durability::Persistent => self.persistent,
        }
    }

    /// The store after writing `value` under `key` in tier `d`, which also
    /// refreshes the key's time-to-live to the tier's window.
    pub open spec fn write(self, d: Durability, key: StorageKey, value: StoredValue) -> StorageView {
        let slot = Slot { value, ttl: d.spec_window() };
        match d {
            Durability::Instance => StorageView { instance: self.instance.insert(key, slot), ..self },
            Durability::Persistent => StorageView {
                persistent: self.persistent.insert(key, slot),
                ..self
            },
        }
    }

    /// The store after deleting `key` from tier `d`.
    pub open spec fn erase(self, d: Durability, key: StorageKey) -> StorageView {
        match d {
            Durability::Instance => StorageView { instance: self.instance.remove(key), ..self },
            Durability::Persistent => StorageView { persistent: self.persistent.remove(key), ..self },
        }
    }

    pub open spec fn empty() -> StorageView {
        StorageView { instance: Map::empty(), persistent: Map::empty() }
    }

    pub open spec fn has_admin(self) -> bool {
        self.instance.contains_key(StorageKey::Admin)
    }

    pub open spec fn admin(self) -> Option<Address> {
        match self.instance.get(StorageKey::Admin) {
            Some(slot) => match slot.value {
                StoredValue::Address(a) => Some(a),
                _ => None,
            },
            None => None,
        }
    }

    /// An absent flag reads as `false`.
    pub open spec fn is_attestor(self, a: Address) -> bool {
        match self.persistent.get(StorageKey::Attestor(a)) {
            Some(slot) => slot.value == StoredValue::Flag(true),
            None => false,
        }
    }

    /// The id the next attestation receives; an absent counter reads as 0.
    pub open spec fn next_id(self) -> u64 {
        match self.instance.get(StorageKey::Counter) {
            Some(slot) => match slot.value {
                StoredValue::Counter(n) => n,
                _ => 0,
            },
            None => 0,
        }
    }

    pub open spec fn attestation(self, id: u64) -> Option<Attestation> {
        match self.persistent.get(StorageKey::Attestation(id)) {
            Some(slot) => match slot.value {
                StoredValue::Attestation(a) => Some(a),
                _ => None,
            },
            None => None,
        }
    }

    /// An absent mark reads as "not used".
    pub open spec fn is_hash_used(self, h: PayloadHash) -> bool {
        match self.persistent.get(StorageKey::UsedHash(h)) {
            Some(slot) => slot.value == StoredValue::Flag(true),
            None => false,
        }
    }

    pub open spec fn has_endpoint(self, a: Address) -> bool {
        self.persistent.contains_key(StorageKey::Endpoint(a))
    }

    pub open spec fn endpoint(self, a: Address) -> Option<Endpoint> {
        match self.persistent.get(StorageKey::Endpoint(a)) {
            Some(slot) => match slot.value {
                StoredValue::Endpoint(e) => Some(e),
                _ => None,
            },
            None => None,
        }
    }
}

/// The durable store: a short-lived instance tier and a long-lived
/// persistent tier. Every write refreshes the written key's time-to-live to
/// its tier's window.
pub struct Storage {
    instance: Tier,
    persistent: Tier,
}

impl View for Storage {
    type V = StorageView;

    closed spec fn view(&self) -> StorageView {
        StorageView { instance: self.instance.contents(), persistent: self.persistent.contents() }
    }
}

impl Storage {
    #[verifier::type_invariant]
    spec fn wf(&self) -> bool {
        self.instance.wf() && self.persistent.wf()
    }

    /// An empty store.
    pub fn new() -> (s: Storage)
        ensures
            s@ == StorageView::empty(),
    {
        Storage { instance: Tier::new(), persistent: Tier::new() }
    }

    fn tier(&self, d: Durability) -> (t: &Tier)
        ensures
            t.wf(),
            t.contents() == self@.tier(d),
    {
        proof {
            use_type_invariant(self);
        }
        match d {
            Durability::Instance => &self.instance,
            Durability::Persistent => &self.persistent,
        }
    }

    /// Writes `value` under `key` in tier `d` and extends the key's
    /// time-to-live to the tier's window.
    fn write(&mut self, d: Durability, key: StorageKey, value: StoredValue)
        ensures
            final(self)@ == old(self)@.write(d, key, value),
    {
        proof {
            use_type_invariant(&*self);
        }
        let slot = Slot { value, ttl: d.window() };
        match d {
            Durability::Instance => {
                let mut t = Tier::new();
                std::mem::swap(&mut t, &mut self.instance);
                t.put(key, slot);
                self.instance = t;
            },
            Durability::Persistent => {
                let mut t = Tier::new();
                std::mem::swap(&mut t, &mut self.persistent);
                t.put(key, slot);
                self.persistent = t;
            },
        }
    }

    /// Deletes `key` from tier `d`.
    fn erase(&mut self, d: Durability, key: &StorageKey)
        ensures
            final(self)@ == old(self)@.erase(d, *key),
    {
        proof {
            use_type_invariant(&*self);
        }
        match d {
            Durability::Instance => {
                let mut t = Tier::new();
                std::mem::swap(&mut t, &mut self.instance);
                t.delete(key);
                self.instance = t;
            },
            Durability::Persistent => {
                let mut t = Tier::new();
                std::mem::swap(&mut t, &mut self.persistent);
                t.delete(key);
                self.persistent = t;
            },
        }
    }

    /// The remaining time-to-live of `key` in tier `d`, if it is present.
    pub fn ttl(&self, d: Durability, key: &StorageKey) -> (r: Option<u32>)
        ensures
            r == (match self@.tier(d).get(*key) {
                Some(slot) => Some(slot.ttl),
                None => None::<u32>,
            }),
    {
        match self.tier(d).get(key) {
            Some(slot) => Some(slot.ttl),
            None => None,
        }
    }

    pub fn has_admin(&self) -> (r: bool)
        ensures
            r == self@.has_admin(),
    {
        self.tier(Durability::Instance).has(&StorageKey::Admin)
    }

    pub fn set_admin(&mut self, admin: &Address)
        ensures
            final(self)@ == old(self)@.write(
                Durability::Instance,
                StorageKey::Admin,
                StoredValue::Address(*admin),
            ),
    {
        self.write(Durability::Instance, StorageKey::Admin, StoredValue::Address(*admin));
    }

    pub fn get_admin(&self) -> (r: Result<Address, Error>)
        ensures
            r == (match self@.admin() {
                Some(a) => Ok(a),
                None => Err(Error::NotInitialized),
            }),
    {
        match self.tier(Durability::Instance).get(&StorageKey::Admin) {
            Some(slot) => match &slot.value {
                StoredValue::Address(a) => Ok(*a),
                _ => Err(Error::NotInitialized),
            },
            None => Err(Error::NotInitialized),
        }
    }

    pub fn set_attestor(&mut self, attestor: &Address, is_registered: bool)
        ensures
            final(self)@ == old(self)@.write(
                Durability::Persistent,
                StorageKey::Attestor(*attestor),
                StoredValue::Flag(is_registered),
            ),
    {
        self.write(
            Durability::Persistent,
            StorageKey::Attestor(*attestor),
            StoredValue::Flag(is_registered),
        );
    }

    pub fn is_attestor(&self, attestor: &Address) -> (r: bool)
        ensures
            r == self@.is_attestor(*attestor),
    {
        match self.tier(Durability::Persistent).get(&StorageKey::Attestor(*attestor)) {
            Some(slot) => match &slot.value {
                StoredValue::Flag(b) => *b,
                _ => false,
            },
            None => false,
        }
    }

    /// Returns the next attestation id and advances the counter past it.
    pub fn get_and_increment_counter(&mut self) -> (r: u64)
        requires
            old(self)@.next_id() < u64::MAX,
        ensures
            r == old(self)@.next_id(),
            final(self)@ == old(self)@.write(
                Durability::Instance,
                StorageKey::Counter,
                StoredValue::Counter((r + 1) as u64),
            ),
    {
        let counter = self.next_id();
        self.write(Durability::Instance, StorageKey::Counter, StoredValue::Counter(counter + 1));
        counter
    }

    /// The id the next attestation receives.
    pub fn next_id(&self) -> (r: u64)
        ensures
            r == self@.next_id(),
    {
        match self.tier(Durability::Instance).get(&StorageKey::Counter) {
            Some(slot) => match &slot.value {
                StoredValue::Counter(n) => *n,
                _ => 0,
            },
            None => 0,
        }
    }

    pub fn set_attestation(&mut self, id: u64, attestation: Attestation)
        ensures
            final(self)@ == old(self)@.write(
                Durability::Persistent,
                StorageKey::Attestation(id),
                StoredValue::Attestation(attestation),
            ),
    {
        self.write(
            Durability::Persistent,
            StorageKey::Attestation(id),
            StoredValue::Attestation(attestation),
        );
    }

    pub fn get_attestation(&self, id: u64) -> (r: Result<&Attestation, Error>)
        ensures
            match r {
                Ok(a) => self@.attestation(id) == Some(*a),
                Err(e) => self@.attestation(id) is None && e == Error::AttestationNotFound,
            },
    {
        match self.tier(Durability::Persistent).get(&StorageKey::Attestation(id)) {
            Some(slot) => match &slot.value {
                StoredValue::Attestation(a) => Ok(a),
                _ => Err(Error::AttestationNotFound),
            },
            None => Err(Error::AttestationNotFound),
        }
    }

    pub fn mark_hash_used(&mut self, hash: &PayloadHash)
        ensures
            final(self)@ == old(self)@.write(
                Durability::Persistent,
                StorageKey::UsedHash(*hash),
                StoredValue::Flag(true),
            ),
    {
        self.write(Durability::Persistent, StorageKey::UsedHash(*hash), StoredValue::Flag(true));
    }

    pub fn is_hash_used(&self, hash: &PayloadHash) -> (r: bool)
        ensures
            r == self@.is_hash_used(*hash),
    {
        match self.tier(Durability::Persistent).get(&StorageKey::UsedHash(*hash)) {
            Some(slot) => match &slot.value {
                StoredValue::Flag(b) => *b,
                _ => false,
            },
            None => false,
        }
    }

    /// Stores `endpoint` under its own attestor's key.
    pub fn set_endpoint(&mut self, endpoint: Endpoint)
        ensures
            final(self)@ == old(self)@.write(
                Durability::Persistent,
                StorageKey::Endpoint(endpoint.attestor),
                StoredValue::Endpoint(endpoint),
            ),
    {
        let key = StorageKey::Endpoint(endpoint.attestor);
        self.write(Durability::Persistent, key, StoredValue::Endpoint(endpoint));
    }

    pub fn get_endpoint(&self, attestor: &Address) -> (r: Result<&Endpoint, Error>)
        ensures
            match r {
                Ok(e) => self@.endpoint(*attestor) == Some(*e),
                Err(e) => self@.endpoint(*attestor) is None && e == Error::EndpointNotFound,
            },
    {
        match self.tier(Durability::Persistent).get(&StorageKey::Endpoint(*attestor)) {
            Some(slot) => match &slot.value {
                StoredValue::Endpoint(e) => Ok(e),
                _ => Err(Error::EndpointNotFound),
            },
            None => Err(Error::EndpointNotFound),
        }
    }

    pub fn has_endpoint(&self, attestor: &Address) -> (r: bool)
        ensures
            r == self@.has_endpoint(*attestor),
    {
        self.tier(Durability::Persistent).has(&StorageKey::Endpoint(*attestor))
    }

    pub fn remove_endpoint(&mut self, attestor: &Address)
        ensures
            final(self)@ == old(self)@.erase(Durability::Persistent, StorageKey::Endpoint(*attestor)),
    {
        self.erase(Durability::Persistent, &StorageKey::Endpoint(*attestor));
    }
}

} // verus!
