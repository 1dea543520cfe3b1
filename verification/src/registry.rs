//! A keyed registry binding identifiers to descriptive metadata, with
//! insert-once semantics, together with the registration event channel that
//! populates it.
//!
//! The registry holds static, build-time-known content definitions. A
//! duplicate registration or a lookup of a missing identifier is a contract
//! violation, not a recoverable runtime condition: both are ruled out by
//! precondition, and the host is expected to test `contains` and abort with a
//! diagnostic before making a call that would violate them.

use std::collections::HashMap;
use vstd::prelude::*;
use vstd::pervasive::unreached;

verus! {

broadcast use vstd::std_specs::hash::group_hash_axioms;

/// A generic mapping from an identifier to descriptive metadata. Keys are
/// unique; once an identifier has an entry it is never replaced. The name is
/// carried for diagnostics only.
pub struct Registry<V> {
    name: &'static str,
    entries: HashMap<u64, V>,
}

impl<V> View for Registry<V> {
    type V = Map<u64, V>;

    closed spec fn view(&self) -> Map<u64, V> {
        self.entries@
    }
}

impl<V> Registry<V> {
    /// The diagnostic name this registry was constructed with.
    pub closed spec fn spec_name(&self) -> Seq<char> {
        self.name@
    }

    /// Constructs an empty registry with a fixed diagnostic name.
    pub fn new(name: &'static str) -> (r: Registry<V>)
        ensures
            r@ == Map::<u64, V>::empty(),
            r.spec_name() == name@,
    {
        Registry { name, entries: HashMap::new() }
    }

    /// The diagnostic name, for the host's fatal-violation messages.
    pub fn name(&self) -> (n: &'static str)
        ensures
            n@ == self.spec_name(),
    {
        self.name
    }

    /// Whether an identifier already has an entry. The host tests this before
    /// `register` and `get` so that a violation fails loudly rather than
    /// silently.
    pub fn contains(&self, id: u64) -> (r: bool)
        ensures
            r == self@.contains_key(id),
    {
        self.entries.contains_key(&id)
    }

    /// Inserts a binding for a fresh identifier. Registering an identifier
    /// twice is a fatal contract violation, so a caller must rule it out; the
    /// existing entry is never replaced.
    pub fn register(&mut self, id: u64, val: V)
        requires
            !old(self)@.contains_key(id),
        ensures
            final(self)@ == old(self)@.insert(id, val),
            final(self).spec_name() == old(self).spec_name(),
    {
        if self.entries.contains_key(&id) {
            unreached()
        } else {
            self.entries.insert(id, val);
        }
    }

    /// Borrows the metadata registered at an identifier. Looking up an
    /// unregistered identifier is a fatal contract violation: the registry is
    /// meant to be fully populated before any reader consults it.
    pub fn get(&self, id: u64) -> (v: &V)
        requires
            self@.contains_key(id),
        ensures
            *v == self@[id],
    {
        match self.entries.get(&id) {
            Some(v) => v,
            None => unreached(),
        }
    }
}

/// A registration request: a duplicable `(identifier, metadata)` pair emitted
/// by a metadata producer and applied to the registry by the per-tick drain.
pub struct RegisterEvent<V> {
    pub key: u64,
    pub val: V,
}

/// Applies every event emitted since the last drain to the registry, in
/// emission order. The consumer performs no deduplication: a duplicate
/// identifier, across events or against an existing entry, is the same fatal
/// collision as a direct duplicate `register`, so the precondition rules it
/// out.
pub fn apply_pending<V>(registry: &mut Registry<V>, events: Vec<RegisterEvent<V>>)
    requires
        forall|j1: int, j2: int|
            0 <= j1 < j2 < events@.len() ==> events@[j1].key != events@[j2].key,
        forall|j: int| 0 <= j < events@.len() ==> !old(registry)@.contains_key(#[trigger] events@[j].key),
    ensures
        forall|j: int|
            0 <= j < events@.len() ==> final(registry)@.contains_key(#[trigger] events@[j].key)
                && final(registry)@[events@[j].key] == events@[j].val,
        forall|k: u64|
            old(registry)@.contains_key(k) ==> final(registry)@.contains_key(k)
                && final(registry)@[k] == old(registry)@[k],
        forall|k: u64|
            final(registry)@.contains_key(k) ==> old(registry)@.contains_key(k) || exists|j: int|
                0 <= j < events@.len() && #[trigger] events@[j].key == k,
        final(registry).spec_name() == old(registry).spec_name(),
{
    let ghost pending = events@;
    let ghost orig = registry@;
    let mut events = events;
    while events.len() > 0
        invariant
            events@.len() <= pending.len(),
            events@ == pending.subrange(pending.len() - events@.len(), pending.len() as int),
            forall|j1: int, j2: int|
                0 <= j1 < j2 < pending.len() ==> pending[j1].key != pending[j2].key,
            forall|j: int|
                pending.len() - events@.len() <= j < pending.len() ==> !registry@.contains_key(
                    #[trigger] pending[j].key,
                ),
            forall|j: int|
                0 <= j < pending.len() - events@.len() ==> registry@.contains_key(
                    #[trigger] pending[j].key,
                ) && registry@[pending[j].key] == pending[j].val,
            forall|k: u64|
                #[trigger] orig.contains_key(k) ==> registry@.contains_key(k) && registry@[k]
                    == orig[k],
            forall|k: u64|
                #[trigger] registry@.contains_key(k) ==> orig.contains_key(k) || exists|j: int|
                    0 <= j < pending.len() - events@.len() && #[trigger] pending[j].key == k,
            registry.spec_name() == old(registry).spec_name(),
        decreases events@.len(),
    {
        let ghost done = pending.len() - events@.len();
        proof {
            assert(pending.subrange(done, pending.len() as int)[0] == pending[done]);
        }
        let ev = events.remove(0);
        assert(ev == pending[done]);
        proof {
            assert(events@ =~= pending.subrange(done + 1, pending.len() as int));
        }
        let ghost reg0 = registry@;
        registry.register(ev.key, ev.val);
        proof {
            assert(registry@ == reg0.insert(ev.key, ev.val));
            assert(!reg0.contains_key(pending[done].key));
            assert forall|k: u64| orig.contains_key(k) implies registry@.contains_key(k)
                && registry@[k] == orig[k] by {
                assert(reg0.contains_key(k) && reg0[k] == orig[k]);
                assert(k != ev.key);
            }
            assert forall|k: u64| registry@.contains_key(k) implies orig.contains_key(k)
                || exists|j: int| 0 <= j < done + 1 && #[trigger] pending[j].key == k by {
                if !orig.contains_key(k) && k == pending[done].key {
                    assert(pending[done].key == k);
                }
            }
        }
    }
    proof {
        assert(events@ =~= pending.subrange(pending.len() as int, pending.len() as int));
    }
}

/// Registry uniqueness: registering a fresh identifier stores its metadata
/// unchanged, so a subsequent `get` returns exactly what was registered; every
/// other identifier's presence and metadata are untouched. After the call the
/// identifier is present, so a second `register` of the same identifier can
/// never satisfy `register`'s precondition: it is the fatal-collision path.
pub proof fn lemma_registration_unique<V>(m: Map<u64, V>, id: u64, v: V)
    requires
        !m.contains_key(id),
    ensures
        m.insert(id, v).contains_key(id),
        m.insert(id, v)[id] == v,
        forall|k: u64|
            k != id ==> (m.insert(id, v).contains_key(k) == m.contains_key(k)) && (m.contains_key(
                k,
            ) ==> m.insert(id, v)[k] == m[k]),
{
}

/// Registry totality after population: an identifier that has been registered
/// stays registered, with its metadata unchanged, across any further
/// registration of a fresh identifier. `get`'s precondition therefore stays
/// satisfied for it: the fatal-missing path is never taken for a registered
/// identifier.
pub proof fn lemma_registration_monotonic<V>(m: Map<u64, V>, id: u64, fresh: u64, v: V)
    requires
        m.contains_key(id),
        !m.contains_key(fresh),
    ensures
        m.insert(fresh, v).contains_key(id),
        m.insert(fresh, v)[id] == m[id],
{
}

} // verus!

