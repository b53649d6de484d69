//! The mirror's decisions: what to do when the broker announces an object,
//! when a bind comes back, and when a bound object is removed. The caller
//! talks to the broker; every choice is made here.

use crate::descriptor::{ObjectDescriptor, Selector};
use crate::error::MirrorError;
use crate::proxies::Proxies;
use vstd::prelude::*;

verus! {

/// What to do with an announced object.
#[derive(Clone, Copy, Debug, PartialEq, Eq, Structural)]
pub enum Decision {
    /// Not the object to mirror: leave it alone.
    Ignore,
    /// The object to mirror, and nothing is tracked yet: bind it.
    Bind,
    /// Its id is already bound: the broker announced a live id twice.
    /// Nothing is bound and nothing is overwritten.
    Duplicate,
    /// It matches, but another object is tracked already: it is passed over.
    Busy,
}

/// What a successful bind hands to the table.
pub struct Binding<P, L> {
    /// The proxy of the bound object.
    pub proxy: P,
    /// The listener that mirrors the object's property changes.
    pub change_listener: L,
    /// The listener that tells of the object's removal.
    pub removal_listener: L,
}

/// The decision for an announced object, given the ids bound so far.
pub open spec fn decide(selector: &Selector, bound: Set<u32>, desc: &ObjectDescriptor) -> Decision {
    if bound.contains(desc.id) {
        Decision::Duplicate
    } else if !selector.selects(desc) {
        Decision::Ignore
    } else if !bound.is_empty() {
        Decision::Busy
    } else {
        Decision::Bind
    }
}

/// The bound ids once a bind of `id` has come back: the id joins them only
/// if the bind succeeded and nothing was tracked.
pub open spec fn after_bind(bound: Set<u32>, id: u32, bind_ok: bool) -> Set<u32> {
    if bind_ok && bound.is_empty() {
        bound.insert(id)
    } else {
        bound
    }
}

/// The bound ids once an announcement has been handled: the table changes
/// only where the decision is to bind, and then as the bind's outcome says.
pub open spec fn after_announce(
    selector: &Selector,
    bound: Set<u32>,
    desc: &ObjectDescriptor,
    bind_ok: bool,
) -> Set<u32> {
    if decide(selector, bound, desc) == Decision::Bind {
        after_bind(bound, desc.id, bind_ok)
    } else {
        bound
    }
}

/// Decides what to do with an object that the registry announced.
pub fn on_announced<P, L>(
    table: &Proxies<P, L>,
    selector: &Selector,
    desc: &ObjectDescriptor,
) -> (decision: Decision)
    ensures
        decision == decide(selector, table.ids(), desc),
{
    if table.contains(desc.id) {
        Decision::Duplicate
    } else if !selector.matches(desc) {
        Decision::Ignore
    } else if !table.is_empty() {
        Decision::Busy
    } else {
        Decision::Bind
    }
}

/// Whether `after` is `before` with the binding `b` taken in under `id`:
/// its proxy bound, and its two listeners, the change listener first, kept
/// as the listeners of `id`.
pub open spec fn takes_in<P, L>(
    before: &Proxies<P, L>,
    after: &Proxies<P, L>,
    id: u32,
    b: Binding<P, L>,
) -> bool {
    &&& after.proxies() == before.proxies().insert(id, b.proxy)
    &&& after.listeners() == before.listeners().insert(
        id,
        seq![b.change_listener, b.removal_listener],
    )
}

/// Takes the outcome of a bind of `id`: `None` where the broker refused it.
///
/// A failed bind creates no entry. A successful one makes the entry of
/// `id`: the proxy with its two listeners, the change listener first. That
/// is refused where the id is bound already or another object is tracked;
/// then the table stays as it was and the binding is dropped.
pub fn on_bound<P, L>(table: &mut Proxies<P, L>, id: u32, bound: Option<Binding<P, L>>) -> (result:
    Result<(), MirrorError>)
    ensures
        final(table).ids() == after_bind(old(table).ids(), id, bound is Some),
        old(table).ids().len() <= 1 ==> final(table).ids().len() <= 1,
        old(table).wf() ==> final(table).wf(),
        match bound {
            None => result == Err::<(), MirrorError>(MirrorError::BindFailed(id)),
            Some(b) => if old(table).ids().contains(id) {
                result == Err::<(), MirrorError>(MirrorError::DuplicateId(id))
            } else if !old(table).ids().is_empty() {
                result == Err::<(), MirrorError>(MirrorError::Occupied(id))
            } else {
                result is Ok && takes_in(old(table), final(table), id, b)
            },
        },
        result is Err ==> final(table).same_as(old(table)),
{
    match bound {
        None => Err(MirrorError::BindFailed(id)),
        Some(binding) => {
            if table.contains(id) {
                Err(MirrorError::DuplicateId(id))
            } else if !table.is_empty() {
                Err(MirrorError::Occupied(id))
            } else {
                let Binding { proxy, change_listener, removal_listener } = binding;
                let added = table.add_proxy_t(id, proxy, change_listener);
                table.add_proxy_listener(id, removal_listener);
                proof {
                    assert(seq![change_listener].push(removal_listener) =~= seq![
                        change_listener,
                        removal_listener,
                    ]);
                    assert(table.listeners() =~= old(table).listeners().insert(
                        id,
                        seq![change_listener, removal_listener],
                    ));
                }
                added
            }
        },
    }
}

/// Handles one announcement from start to end, for a caller that holds the
/// table throughout: decides, and where the decision is to bind, asks `bind`
/// for the binding of the object's id and takes its outcome into the table.
/// A caller that shares the table calls `on_announced` and `on_bound` in
/// turn, and binds between the two.
///
/// `bind` is called at most once, and only for an object that is to be
/// bound: for no other object need `bind` accept the call. It returns `None`
/// where the broker refuses the bind; that is reported as `BindFailed` and
/// leaves the table as it was. An object whose id is bound already is
/// reported as `DuplicateId`. Otherwise the decision is returned.
pub fn handle_announced<P, L, F>(
    table: &mut Proxies<P, L>,
    selector: &Selector,
    desc: &ObjectDescriptor,
    bind: F,
) -> (outcome: Result<Decision, MirrorError>) where F: FnOnce(u32) -> Option<Binding<P, L>>
    requires
        decide(selector, old(table).ids(), desc) == Decision::Bind ==> call_requires(
            bind,
            (desc.id,),
        ),
    ensures
        final(table).ids() == after_announce(selector, old(table).ids(), desc, outcome is Ok),
        old(table).ids().len() <= 1 ==> final(table).ids().len() <= 1,
        old(table).wf() ==> final(table).wf(),
        match decide(selector, old(table).ids(), desc) {
            Decision::Ignore => {
                &&& outcome == Ok::<Decision, MirrorError>(Decision::Ignore)
                &&& final(table).same_as(old(table))
            },
            Decision::Busy => {
                &&& outcome == Ok::<Decision, MirrorError>(Decision::Busy)
                &&& final(table).same_as(old(table))
            },
            Decision::Duplicate => {
                &&& outcome == Err::<Decision, MirrorError>(MirrorError::DuplicateId(desc.id))
                &&& final(table).same_as(old(table))
            },
            Decision::Bind => {
                ||| {
                    &&& outcome == Err::<Decision, MirrorError>(MirrorError::BindFailed(desc.id))
                    &&& call_ensures(bind, (desc.id,), None)
                    &&& final(table).same_as(old(table))
                }
                ||| exists|b: Binding<P, L>|
                    {
                        &&& outcome == Ok::<Decision, MirrorError>(Decision::Bind)
                        &&& #[trigger] call_ensures(bind, (desc.id,), Some(b))
                        &&& takes_in(old(table), final(table), desc.id, b)
                    }
            },
        },
{
    let decision = on_announced(table, selector, desc);
    match decision {
        Decision::Bind => {
            let bound = bind(desc.id);
            match on_bound(table, desc.id, bound) {
                Ok(()) => Ok(Decision::Bind),
                Err(e) => Err(e),
            }
        },
        Decision::Duplicate => Err(MirrorError::DuplicateId(desc.id)),
        Decision::Ignore => Ok(Decision::Ignore),
        Decision::Busy => Ok(Decision::Busy),
    }
}

/// Handles the removal of the object bound under `id`. `table` is what the
/// removal listener's non-owning handle resolved to: `None` once the table
/// itself is gone, and then nothing happens.
pub fn on_removed<P, L>(table: Option<&mut Proxies<P, L>>, id: u32)
    ensures
        table matches Some(t) ==> {
            &&& final(t).proxies() == t.proxies().remove(id)
            &&& final(t).listeners() == t.listeners().remove(id)
            &&& !final(t).ids().contains(id)
            &&& t.wf() ==> final(t).wf()
        },
{
    match table {
        Some(t) => t.remove(id),
        None => {},
    }
}

} // verus!
