//! The owners of the wallet and their voting weights, kept in the host's
//! ordered map.

use crate::types::Address;
use vstd::prelude::*;

verus! {

/// The host environment, in which host maps live.
#[verifier::external_type_specification]
#[verifier::external_body]
pub struct ExHostEnv(soroban_sdk::Env);

/// The host's ordered map. A value of it stands for one unchanging host object:
/// an update makes the value stand for another object.
#[verifier::external_type_specification]
#[verifier::external_body]
#[verifier::reject_recursive_types(K)]
#[verifier::reject_recursive_types(V)]
pub struct ExHostMap<K, V>(soroban_sdk::Map<K, V>);

/// The entries of a host map.
pub uninterp spec fn entries_of(map: soroban_sdk::Map<(u32, u128, u128), u32>) -> Map<
    (u32, u128, u128),
    u32,
>;

/// Whether every key and every value of a host map has the type that the map
/// declares; reading an entry that has not makes the host map panic.
pub uninterp spec fn well_typed(map: soroban_sdk::Map<(u32, u128, u128), u32>) -> bool;

/// The order of keys in a host map: that of the tuples, number by number.
pub open spec fn key_precedes(a: (u32, u128, u128), b: (u32, u128, u128)) -> bool {
    ||| a.0 < b.0
    ||| a.0 == b.0 && a.1 < b.1
    ||| a.0 == b.0 && a.1 == b.1 && a.2 < b.2
}

/// The map without entries.
pub open spec fn no_entries() -> Map<(u32, u128, u128), u32> {
    Map::empty()
}

/// `soroban_sdk::Map::new`: a map without entries.
#[verifier::external_body]
fn map_new(host: &soroban_sdk::Env) -> (map: soroban_sdk::Map<(u32, u128, u128), u32>)
    ensures
        well_typed(map),
        entries_of(map) == no_entries(),
{
    soroban_sdk::Map::new(host)
}

/// `soroban_sdk::Map::get`: the value under a key, if there is one.
#[verifier::external_body]
fn map_get(
    map: &soroban_sdk::Map<(u32, u128, u128), u32>,
    key: (u32, u128, u128),
) -> (value: Option<u32>)
    requires
        well_typed(*map),
    ensures
        match value {
            Some(v) => entries_of(*map).contains_key(key) && v == entries_of(*map)[key],
            None => !entries_of(*map).contains_key(key),
        },
{
    map.get(key)
}

/// `soroban_sdk::Map::contains_key`: whether there is a value under a key.
#[verifier::external_body]
fn map_contains_key(
    map: &soroban_sdk::Map<(u32, u128, u128), u32>,
    key: (u32, u128, u128),
) -> (found: bool)
    requires
        well_typed(*map),
    ensures
        found == entries_of(*map).contains_key(key),
{
    map.contains_key(key)
}

/// `soroban_sdk::Map::set`: puts a value under a key, in place of what was
/// there.
#[verifier::external_body]
fn map_set(map: &mut soroban_sdk::Map<(u32, u128, u128), u32>, key: (u32, u128, u128), value: u32)
    requires
        well_typed(*old(map)),
    ensures
        well_typed(*final(map)),
        entries_of(*final(map)) == entries_of(*old(map)).insert(key, value),
{
    map.set(key, value)
}

/// `soroban_sdk::Map::remove`: takes away the value under a key and says
/// whether there was one.
#[verifier::external_body]
fn map_remove(map: &mut soroban_sdk::Map<(u32, u128, u128), u32>, key: (u32, u128, u128)) -> (removed:
    bool)
    requires
        well_typed(*old(map)),
    ensures
        removed == entries_of(*old(map)).contains_key(key),
        well_typed(*final(map)),
        entries_of(*final(map)) == entries_of(*old(map)).remove(key),
{
    map.remove(key).is_some()
}

/// `soroban_sdk::Map::len`: the number of entries.
#[verifier::external_body]
fn map_len(map: &soroban_sdk::Map<(u32, u128, u128), u32>) -> (count: u32)
    requires
        well_typed(*map),
    ensures
        count == entries_of(*map).dom().len(),
{
    map.len()
}

/// `soroban_sdk::Map::keys`: the keys, in ascending order.
#[verifier::external_body]
fn map_keys(map: &soroban_sdk::Map<(u32, u128, u128), u32>) -> (keys: Vec<(u32, u128, u128)>)
    requires
        well_typed(*map),
    ensures
        keys@.to_set() == entries_of(*map).dom(),
        forall|i: int, j: int|
            0 <= i < j < keys@.len() ==> key_precedes(#[trigger] keys@[i], #[trigger] keys@[j]),
{
    map.keys().iter().collect()
}

/// The key under which an address stands in the host map.
pub open spec fn key_of(address: Address) -> (u32, u128, u128) {
    (address.kind, address.hi, address.lo)
}

/// The address that stands under a key of the host map.
pub open spec fn address_of(key: (u32, u128, u128)) -> Address {
    Address { kind: key.0, hi: key.1, lo: key.2 }
}

/// Whether each address of a list precedes those after it.
pub open spec fn ascending(list: Seq<Address>) -> bool {
    forall|i: int, j: int|
        0 <= i < j < list.len() ==> (#[trigger] list[i]).precedes(#[trigger] list[j])
}

/// Whether no address stands twice in a list.
pub fn distinct(list: &Vec<Address>) -> (distinct: bool)
    ensures
        distinct == list@.no_duplicates(),
{
    let mut i: usize = 0;
    while i < list.len()
        invariant
            i <= list@.len(),
            forall|a: int, b: int|
                0 <= a < i && a < b < list@.len() ==> #[trigger] list@[a] != #[trigger] list@[b],
        decreases list@.len() - i,
    {
        let mut j: usize = i + 1;
        while j < list.len()
            invariant
                i < j <= list@.len(),
                forall|b: int| i < b < j ==> list@[i as int] != #[trigger] list@[b],
            decreases list@.len() - j,
        {
            if list[i] == list[j] {
                return false;
            }
            j = j + 1;
        }
        i = i + 1;
    }
    true
}

/// The owners and their weights.
pub struct Owners {
    map: soroban_sdk::Map<(u32, u128, u128), u32>,
}

impl View for Owners {
    type V = Map<Address, u32>;

    /// The weight of each owner.
    closed spec fn view(&self) -> Map<Address, u32> {
        Map::new(
            |a: Address| entries_of(self.map).contains_key(key_of(a)),
            |a: Address| entries_of(self.map)[key_of(a)],
        )
    }
}

impl Owners {
    /// The map holds weights by address, and finitely many of them.
    pub closed spec fn wf(&self) -> bool {
        &&& well_typed(self.map)
        &&& entries_of(self.map).dom().finite()
    }

    proof fn lemma_count(&self)
        requires
            self.wf(),
        ensures
            self@.dom().finite(),
            self@.dom().len() == entries_of(self.map).dom().len(),
    {
        let keys = entries_of(self.map).dom();
        let f = |key: (u32, u128, u128)| address_of(key);
        assert(keys.map(f) =~= self@.dom()) by {
            assert forall|a: Address| self@.dom().contains(a) implies keys.map(f).contains(a) by {
                assert(keys.contains(key_of(a)) && f(key_of(a)) == a);
            }
        }
        vstd::set_lib::lemma_map_size(keys, self@.dom(), f);
    }

    /// Owners are finitely many.
    pub proof fn lemma_finite(&self)
        requires
            self.wf(),
        ensures
            self@.dom().finite(),
    {
        self.lemma_count();
    }

    /// A list without owners.
    pub fn new(host: &soroban_sdk::Env) -> (owners: Owners)
        ensures
            owners.wf(),
            owners@ == Map::<Address, u32>::empty(),
    {
        let owners: Owners = Owners { map: map_new(host) };
        assert(owners@ =~= Map::<Address, u32>::empty());
        owners
    }

    /// The weight of an owner.
    pub fn get(&self, address: Address) -> (weight: Option<u32>)
        requires
            self.wf(),
        ensures
            match weight {
                Some(w) => self@.contains_key(address) && w == self@[address],
                None => !self@.contains_key(address),
            },
    {
        map_get(&self.map, (address.kind, address.hi, address.lo))
    }

    /// Whether an address is an owner.
    pub fn contains_key(&self, address: Address) -> (found: bool)
        requires
            self.wf(),
        ensures
            found == self@.contains_key(address),
    {
        map_contains_key(&self.map, (address.kind, address.hi, address.lo))
    }

    /// The number of owners.
    pub fn len(&self) -> (count: u32)
        requires
            self.wf(),
        ensures
            count == self@.dom().len(),
    {
        proof {
            self.lemma_count();
        }
        map_len(&self.map)
    }

    /// Gives an address a weight, in place of the one it had.
    pub fn set(&mut self, address: Address, weight: u32)
        requires
            old(self).wf(),
        ensures
            final(self).wf(),
            final(self)@ == old(self)@.insert(address, weight),
    {
        map_set(&mut self.map, (address.kind, address.hi, address.lo), weight);
        assert(forall|a: Address| key_of(a) == key_of(address) ==> a == address);
        assert(self@ =~= old(self)@.insert(address, weight));
    }

    /// Strikes an address off the list and says whether it was on it.
    pub fn remove(&mut self, address: Address) -> (removed: bool)
        requires
            old(self).wf(),
        ensures
            removed == old(self)@.contains_key(address),
            final(self).wf(),
            final(self)@ == old(self)@.remove(address),
    {
        let removed: bool = map_remove(&mut self.map, (address.kind, address.hi, address.lo));
        assert(forall|a: Address| key_of(a) == key_of(address) ==> a == address);
        assert(self@ =~= old(self)@.remove(address));
        removed
    }

    /// The owners, in ascending order.
    pub fn keys(&self) -> (list: Vec<Address>)
        requires
            self.wf(),
        ensures
            list@.to_set() == self@.dom(),
            ascending(list@),
    {
        let keys: Vec<(u32, u128, u128)> = map_keys(&self.map);
        let mut list: Vec<Address> = Vec::new();
        let mut i: usize = 0;
        while i < keys.len()
            invariant
                i <= keys@.len(),
                list@.len() == i,
                forall|j: int| 0 <= j < i ==> #[trigger] list@[j] == address_of(keys@[j]),
            decreases keys@.len() - i,
        {
            let key: (u32, u128, u128) = keys[i];
            list.push(Address { kind: key.0, hi: key.1, lo: key.2 });
            i = i + 1;
        }
        proof {
            assert forall|a: Address| list@.to_set().contains(a) == self@.dom().contains(a) by {
                if list@.contains(a) {
                    let j: int = choose|j: int| 0 <= j < list@.len() && list@[j] == a;
                    assert(keys@.to_set().contains(keys@[j]));
                    assert(keys@[j] == key_of(a));
                }
                if self@.contains_key(a) {
                    assert(keys@.to_set().contains(key_of(a)));
                    let j: int = choose|j: int| 0 <= j < keys@.len() && keys@[j] == key_of(a);
                    assert(list@[j] == a);
                }
            }
            assert(list@.to_set() =~= self@.dom());
            assert forall|a: int, b: int| 0 <= a < b < list@.len() implies (
            #[trigger] list@[a]).precedes(#[trigger] list@[b]) by {
                assert(key_precedes(keys@[a], keys@[b]));
            }
        }
        list
    }
}

} // verus!
