//! Connections that wait for the target, found again by their identifier.

use dashmap::DashMap;
use vstd::prelude::*;

verus! {

#[verifier::external_type_specification]
#[verifier::external_body]
#[verifier::reject_recursive_types(K)]
#[verifier::reject_recursive_types(V)]
#[verifier::reject_recursive_types(S)]
pub struct ExDashMap<K, V, S>(dashmap::DashMap<K, V, S>);

/// What a concurrent map from identifiers to handles holds.
pub uninterp spec fn entries(map: DashMap<u128, u64>) -> Map<u128, u64>;

/// Makes a map with `DashMap::new`.
///
/// Trusted: the new map holds nothing.
#[verifier::external_body]
fn new_entries() -> (fresh: DashMap<u128, u64>)
    ensures
        entries(fresh) =~= map![],
{
    DashMap::new()
}

/// Adds an entry with `DashMap::insert`.
///
/// Trusted: afterwards the map holds `value` under `key`, in place of what was there, and is
/// otherwise unchanged; the value that was replaced is returned. The exclusive borrow shows
/// that no other user of the map, and no reference into it, is around during the call.
#[verifier::external_body]
fn insert_entry(map: &mut DashMap<u128, u64>, key: u128, value: u64) -> (replaced: Option<u64>)
    ensures
        entries(*final(map)) == entries(*old(map)).insert(key, value),
        replaced == (if entries(*old(map)).contains_key(key) {
            Some(entries(*old(map))[key])
        } else {
            None
        }),
{
    map.insert(key, value)
}

/// Takes an entry out with `DashMap::remove`.
///
/// Trusted: afterwards the map does not hold `key` and is otherwise unchanged; the value that
/// was there is returned, and `None` only where there was none. The key that the call returns
/// beside the value is dropped.
#[verifier::external_body]
fn remove_entry(map: &mut DashMap<u128, u64>, key: u128) -> (removed: Option<u64>)
    ensures
        entries(*final(map)) == entries(*old(map)).remove(key),
        removed == (if entries(*old(map)).contains_key(key) {
            Some(entries(*old(map))[key])
        } else {
            None
        }),
{
    map.remove(&key).map(|entry| entry.1)
}

/// Empties a map with `DashMap::clear`.
///
/// Trusted: afterwards the map holds nothing.
#[verifier::external_body]
fn clear_entries(map: &mut DashMap<u128, u64>)
    ensures
        entries(*final(map)) =~= map![],
{
    map.clear()
}

/// What an identifier stood for when the target accepted it. The number is the handle under
/// which the waiting side was registered.
#[derive(Debug, Clone, Copy, PartialEq, Eq, Structural)]
pub enum Accepted {
    /// A tunnel probe.
    Probe(u64),
    /// A consumer connection.
    Connection(u64),
    /// Nothing: it was never registered, was accepted before, or is no longer wanted.
    Missing,
}

/// Model of a [`Registry`].
#[verifier::ext_equal]
pub struct RegistryView {
    pub conns: Map<u128, u64>,
    pub probes: Map<u128, u64>,
}

impl RegistryView {
    pub open spec fn empty() -> RegistryView {
        RegistryView { conns: map![], probes: map![] }
    }

    pub open spec fn with_connection(self, id: u128, handle: u64) -> RegistryView {
        RegistryView { conns: self.conns.insert(id, handle), ..self }
    }

    pub open spec fn with_probe(self, id: u128, handle: u64) -> RegistryView {
        RegistryView { probes: self.probes.insert(id, handle), ..self }
    }

    pub open spec fn without_connection(self, id: u128) -> RegistryView {
        RegistryView { conns: self.conns.remove(id), ..self }
    }

    pub open spec fn without_probe(self, id: u128) -> RegistryView {
        RegistryView { probes: self.probes.remove(id), ..self }
    }

    /// What accepting `id` hands out. A probe goes before a connection.
    pub open spec fn accepted(self, id: u128) -> Accepted {
        if self.probes.contains_key(id) {
            Accepted::Probe(self.probes[id])
        } else if self.conns.contains_key(id) {
            Accepted::Connection(self.conns[id])
        } else {
            Accepted::Missing
        }
    }

    /// What is left after accepting `id`: all but what was handed out.
    pub open spec fn after_accept(self, id: u128) -> RegistryView {
        match self.accepted(id) {
            Accepted::Probe(_) => self.without_probe(id),
            Accepted::Connection(_) => self.without_connection(id),
            Accepted::Missing => self,
        }
    }
}

/// Consumer connections and tunnel probes that wait for the target to accept them.
pub struct Registry {
    conns: DashMap<u128, u64>,
    probes: DashMap<u128, u64>,
}

impl View for Registry {
    type V = RegistryView;

    closed spec fn view(&self) -> RegistryView {
        RegistryView { conns: entries(self.conns), probes: entries(self.probes) }
    }
}

impl Registry {
    /// Creates a registry in which nothing waits.
    pub fn new() -> (registry: Registry)
        ensures
            registry@ == RegistryView::empty(),
    {
        Registry { conns: new_entries(), probes: new_entries() }
    }

    /// Registers a consumer connection.
    pub fn add_connection(&mut self, id: u128, handle: u64)
        ensures
            final(self)@ == old(self)@.with_connection(id, handle),
    {
        let _ = insert_entry(&mut self.conns, id, handle);
    }

    /// Registers a tunnel probe.
    pub fn add_probe(&mut self, id: u128, handle: u64)
        ensures
            final(self)@ == old(self)@.with_probe(id, handle),
    {
        let _ = insert_entry(&mut self.probes, id, handle);
    }

    /// Hands out what waits under an identifier.
    pub fn accept(&mut self, id: u128) -> (accepted: Accepted)
        ensures
            accepted == old(self)@.accepted(id),
            final(self)@ == old(self)@.after_accept(id),
    {
        match remove_entry(&mut self.probes, id) {
            Some(handle) => Accepted::Probe(handle),
            None => match remove_entry(&mut self.conns, id) {
                Some(handle) => Accepted::Connection(handle),
                None => Accepted::Missing,
            },
        }
    }

    /// Takes out a consumer connection that has waited too long, unless it is gone already.
    pub fn expire(&mut self, id: u128) -> (handle: Option<u64>)
        ensures
            final(self)@ == old(self)@.without_connection(id),
            handle == (if old(self)@.conns.contains_key(id) {
                Some(old(self)@.conns[id])
            } else {
                None
            }),
    {
        remove_entry(&mut self.conns, id)
    }

    /// Takes out a tunnel probe that was not accepted in time.
    pub fn cancel_probe(&mut self, id: u128) -> (handle: Option<u64>)
        ensures
            final(self)@ == old(self)@.without_probe(id),
            handle == (if old(self)@.probes.contains_key(id) {
                Some(old(self)@.probes[id])
            } else {
                None
            }),
    {
        remove_entry(&mut self.probes, id)
    }

    /// Forgets everything that waits.
    pub fn clear(&mut self)
        ensures
            final(self)@ == RegistryView::empty(),
    {
        clear_entries(&mut self.conns);
        clear_entries(&mut self.probes);
    }
}

/// Law: a registered connection is handed out once, to the one who names its identifier, and
/// with the handle that it was registered under. After that it is neither handed out again nor
/// left to expire.
pub proof fn law_connection_accepted_once(registry: RegistryView, id: u128, handle: u64)
    requires
        !registry.probes.contains_key(id),
    ensures
        registry.with_connection(id, handle).accepted(id) == Accepted::Connection(handle),
        registry.with_connection(id, handle).after_accept(id).accepted(id) == Accepted::Missing,
        !registry.with_connection(id, handle).after_accept(id).conns.contains_key(id),
{
}

/// Law: a registered probe is handed out once, and in preference to a connection.
pub proof fn law_probe_accepted_once(registry: RegistryView, id: u128, handle: u64)
    ensures
        registry.with_probe(id, handle).accepted(id) == Accepted::Probe(handle),
        !registry.with_probe(id, handle).after_accept(id).probes.contains_key(id),
        registry.with_probe(id, handle).after_accept(id).conns == registry.conns,
{
}

/// Law: accepting one identifier leaves what waits under any other as it was.
pub proof fn law_accept_is_local(registry: RegistryView, id: u128, other: u128)
    requires
        id != other,
    ensures
        registry.after_accept(id).accepted(other) == registry.accepted(other),
{
}

/// Law: registering and forgetting concern one identifier and one of the two collections, and
/// leave everything else as it was.
pub proof fn law_registering_is_local(registry: RegistryView, id: u128, handle: u64)
    ensures
        registry.with_connection(id, handle).conns == registry.conns.insert(id, handle),
        registry.with_connection(id, handle).probes == registry.probes,
        registry.with_probe(id, handle).probes == registry.probes.insert(id, handle),
        registry.with_probe(id, handle).conns == registry.conns,
        registry.without_connection(id).conns == registry.conns.remove(id),
        registry.without_connection(id).probes == registry.probes,
        registry.without_probe(id).probes == registry.probes.remove(id),
        registry.without_probe(id).conns == registry.conns,
        !RegistryView::empty().conns.contains_key(id),
        !RegistryView::empty().probes.contains_key(id),
{
}

/// Law: accepting hands out what waits under the identifier, takes out exactly that, and hands
/// out nothing and changes nothing where nothing waits.
pub proof fn law_accept_hands_out(registry: RegistryView, id: u128, handle: u64)
    ensures
        (registry.accepted(id) == Accepted::Probe(handle)) == (registry.probes.contains_key(id)
            && registry.probes[id] == handle),
        (registry.accepted(id) == Accepted::Connection(handle)) == (!registry.probes.contains_key(
            id,
        ) && registry.conns.contains_key(id) && registry.conns[id] == handle),
        (registry.accepted(id) == Accepted::Missing) == (!registry.probes.contains_key(id)
            && !registry.conns.contains_key(id)),
        ({
            let left = registry.after_accept(id);
            if registry.probes.contains_key(id) {
                left.probes == registry.probes.remove(id) && left.conns == registry.conns
            } else if registry.conns.contains_key(id) {
                left.probes == registry.probes && left.conns == registry.conns.remove(id)
            } else {
                left.probes == registry.probes && left.conns == registry.conns
            }
        }),
{
}

} // verus!
