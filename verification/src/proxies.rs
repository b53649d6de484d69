//! The proxy table: sole owner of the bound proxies and of the listeners
//! registered on them, keyed by the broker's object id.

use crate::error::MirrorError;
use std::collections::HashMap;
use vstd::prelude::*;

verus! {

broadcast use vstd::std_specs::hash::group_hash_axioms;

/// Owns every bound proxy and the listeners attached to it. Whatever the
/// table holds stays alive; whatever it lets go of is dropped, which
/// unregisters a listener and releases a proxy.
///
/// `P` is the proxy handle and `L` the listener registration.
pub struct Proxies<P, L> {
    proxies_t: HashMap<u32, P>,
    listeners: HashMap<u32, Vec<L>>,
}

impl<P, L> Proxies<P, L> {
    /// The bound proxies by object id.
    pub closed spec fn proxies(&self) -> Map<u32, P> {
        self.proxies_t@
    }

    /// The listeners kept for each object id, in the order they were added.
    pub closed spec fn listeners(&self) -> Map<u32, Seq<L>> {
        Map::new(|id: u32| self.listeners@.contains_key(id), |id: u32| self.listeners@[id]@)
    }

    /// The ids that have a proxy in the table.
    pub open spec fn ids(&self) -> Set<u32> {
        self.proxies().dom()
    }

    /// The listeners kept for `id`; none where the table knows nothing of `id`.
    pub open spec fn listeners_of(&self, id: u32) -> Seq<L> {
        if self.listeners().contains_key(id) {
            self.listeners()[id]
        } else {
            Seq::empty()
        }
    }

    /// Whether this table holds what `other` holds.
    pub open spec fn same_as(&self, other: &Self) -> bool {
        &&& self.proxies() == other.proxies()
        &&& self.listeners() == other.listeners()
    }

    /// The table's invariant: an id has listeners exactly if it has a proxy,
    /// and then at least one. So an entry is a proxy together with its
    /// listeners, and nothing else is ever held. `new` establishes it and
    /// every method keeps it.
    pub open spec fn wf(&self) -> bool {
        &&& self.listeners().dom() == self.proxies().dom()
        &&& forall|id: u32| #[trigger]
            self.listeners().contains_key(id) ==> self.listeners()[id].len() > 0
    }

    /// An empty table.
    pub fn new() -> (table: Self)
        ensures
            table.proxies() == Map::<u32, P>::empty(),
            table.listeners() == Map::<u32, Seq<L>>::empty(),
            table.wf(),
    {
        let table = Self { proxies_t: HashMap::new(), listeners: HashMap::new() };
        assert(table.listeners() =~= Map::<u32, Seq<L>>::empty());
        assert(table.listeners().dom() =~= table.proxies().dom());
        table
    }

    /// Takes ownership of a freshly bound proxy and of its first listener:
    /// the one way in which an entry comes into being.
    ///
    /// An id that already has a proxy is refused: the table is left as it was
    /// and both arguments are dropped.
    pub fn add_proxy_t(&mut self, proxy_id: u32, proxy_t: P, listener: L) -> (result: Result<
        (),
        MirrorError,
    >)
        ensures
            old(self).wf() ==> final(self).wf(),
            old(self).ids().contains(proxy_id) ==> {
                &&& result == Err::<(), MirrorError>(MirrorError::DuplicateId(proxy_id))
                &&& final(self).same_as(old(self))
            },
            !old(self).ids().contains(proxy_id) ==> {
                &&& result is Ok
                &&& final(self).proxies() == old(self).proxies().insert(proxy_id, proxy_t)
                &&& final(self).listeners() == old(self).listeners().insert(
                    proxy_id,
                    seq![listener],
                )
            },
    {
        if self.proxies_t.contains_key(&proxy_id) {
            return Err(MirrorError::DuplicateId(proxy_id));
        }
        let mut kept: Vec<L> = Vec::new();
        kept.push(listener);
        self.proxies_t.insert(proxy_id, proxy_t);
        self.listeners.insert(proxy_id, kept);
        proof {
            assert(kept@ =~= seq![listener]);
            assert(self.listeners() =~= old(self).listeners().insert(proxy_id, seq![listener]));
            assert(old(self).wf() ==> self.listeners().dom() =~= self.proxies().dom());
        }
        Ok(())
    }

    /// Appends one more listener to those kept for `proxy_id`, if a proxy is
    /// bound under that id. An id without a proxy is refused: no entry comes
    /// into being, the table is left as it was and the listener is dropped.
    pub fn add_proxy_listener(&mut self, proxy_id: u32, listener: L) -> (added: bool)
        ensures
            old(self).wf() ==> final(self).wf(),
            added == old(self).ids().contains(proxy_id),
            added ==> {
                &&& final(self).proxies() == old(self).proxies()
                &&& final(self).listeners() == old(self).listeners().insert(
                    proxy_id,
                    old(self).listeners_of(proxy_id).push(listener),
                )
            },
            !added ==> final(self).same_as(old(self)),
    {
        if !self.proxies_t.contains_key(&proxy_id) {
            return false;
        }
        let mut kept = match self.listeners.remove(&proxy_id) {
            Some(kept) => kept,
            None => Vec::new(),
        };
        kept.push(listener);
        self.listeners.insert(proxy_id, kept);
        proof {
            assert(self.listeners() =~= old(self).listeners().insert(
                proxy_id,
                old(self).listeners_of(proxy_id).push(listener),
            ));
            assert(old(self).wf() ==> self.listeners().dom() =~= self.proxies().dom());
        }
        true
    }

    /// Drops the proxy and every listener kept for `proxy_id`: the one way in
    /// which an entry ends. An id that the table does not hold changes nothing.
    pub fn remove(&mut self, proxy_id: u32)
        ensures
            old(self).wf() ==> final(self).wf(),
            final(self).proxies() == old(self).proxies().remove(proxy_id),
            final(self).listeners() == old(self).listeners().remove(proxy_id),
            !final(self).ids().contains(proxy_id),
            final(self).listeners_of(proxy_id) == Seq::<L>::empty(),
            old(self).wf() && !old(self).ids().contains(proxy_id) ==> final(self).same_as(
                old(self),
            ),
    {
        self.proxies_t.remove(&proxy_id);
        self.listeners.remove(&proxy_id);
        proof {
            assert(self.listeners() =~= old(self).listeners().remove(proxy_id));
            assert(old(self).wf() ==> self.listeners().dom() =~= self.proxies().dom());
            if old(self).wf() && !old(self).ids().contains(proxy_id) {
                assert(self.proxies() =~= old(self).proxies());
                assert(self.listeners() =~= old(self).listeners());
            }
        }
    }

    /// Whether a proxy is bound under `proxy_id`.
    pub fn contains(&self, proxy_id: u32) -> (found: bool)
        ensures
            found == self.ids().contains(proxy_id),
    {
        self.proxies_t.contains_key(&proxy_id)
    }

    /// The proxy bound under `proxy_id`, if there is one.
    pub fn get(&self, proxy_id: u32) -> (found: Option<&P>)
        ensures
            match found {
                Some(proxy) => self.ids().contains(proxy_id) && *proxy == self.proxies()[proxy_id],
                None => !self.ids().contains(proxy_id),
            },
    {
        self.proxies_t.get(&proxy_id)
    }

    /// The number of bound proxies.
    pub fn len(&self) -> (count: usize)
        ensures
            count == self.ids().len(),
            self.ids().finite(),
    {
        self.proxies_t.len()
    }

    /// Whether no proxy is bound.
    pub fn is_empty(&self) -> (empty: bool)
        ensures
            empty == self.ids().is_empty(),
    {
        self.proxies_t.is_empty()
    }

    /// The number of listeners kept for `proxy_id`.
    pub fn listener_count(&self, proxy_id: u32) -> (count: usize)
        ensures
            count == self.listeners_of(proxy_id).len(),
    {
        match self.listeners.get(&proxy_id) {
            Some(kept) => kept.len(),
            None => 0,
        }
    }
}

} // verus!
