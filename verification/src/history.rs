//! What the proxy table holds after a run of registry events, and the laws
//! that every such run obeys.

use crate::descriptor::{ObjectDescriptor, Selector};
use crate::mirror::{after_announce, decide, Decision};
use vstd::prelude::*;

verus! {

/// One thing that the registry tells the mirror.
pub enum RegistryEvent {
    /// An object was announced. The mirror decides on the spot whether to
    /// bind it; `bind_ok` says whether the broker would grant that bind.
    Announced { desc: ObjectDescriptor, bind_ok: bool },
    /// The object with this id was withdrawn.
    Removed { id: u32 },
}

/// The bound ids after one more event.
pub open spec fn step(selector: &Selector, bound: Set<u32>, event: RegistryEvent) -> Set<u32> {
    match event {
        RegistryEvent::Announced { desc, bind_ok } => after_announce(
            selector,
            bound,
            &desc,
            bind_ok,
        ),
        RegistryEvent::Removed { id } => bound.remove(id),
    }
}

/// The ids bound in the table after `events`, starting from an empty table.
pub open spec fn bound_after(selector: &Selector, events: Seq<RegistryEvent>) -> Set<u32>
    decreases events.len(),
{
    if events.len() == 0 {
        Set::empty()
    } else {
        step(selector, bound_after(selector, events.drop_last()), events.last())
    }
}

/// The ids that are live after `events`: announced and not withdrawn since.
pub open spec fn live_after(events: Seq<RegistryEvent>) -> Set<u32>
    decreases events.len(),
{
    if events.len() == 0 {
        Set::empty()
    } else {
        match events.last() {
            RegistryEvent::Announced { desc, .. } => live_after(events.drop_last()).insert(desc.id),
            RegistryEvent::Removed { id } => live_after(events.drop_last()).remove(id),
        }
    }
}

/// After any run of events the table holds only live ids, and so no more
/// entries than there are live ids.
pub proof fn lemma_bound_ids_are_live(selector: &Selector, events: Seq<RegistryEvent>)
    ensures
        bound_after(selector, events).subset_of(live_after(events)),
        live_after(events).finite(),
        bound_after(selector, events).finite(),
        bound_after(selector, events).len() <= live_after(events).len(),
    decreases events.len(),
{
    if events.len() > 0 {
        lemma_bound_ids_are_live(selector, events.drop_last());
    }
    vstd::set_lib::lemma_len_subset(bound_after(selector, events), live_after(events));
}

/// After any run of events at most one object is tracked.
pub proof fn lemma_at_most_one_bound(selector: &Selector, events: Seq<RegistryEvent>)
    ensures
        bound_after(selector, events).finite(),
        bound_after(selector, events).len() <= 1,
    decreases events.len(),
{
    if events.len() > 0 {
        lemma_at_most_one_bound(selector, events.drop_last());
    }
}

/// An object whose id is not live when it is announced is never taken for a
/// duplicate: under a registry that announces no live id twice, the table
/// refuses nothing as bound already.
pub proof fn lemma_fresh_announcement_is_no_duplicate(
    selector: &Selector,
    events: Seq<RegistryEvent>,
    desc: ObjectDescriptor,
)
    requires
        !live_after(events).contains(desc.id),
    ensures
        decide(selector, bound_after(selector, events), &desc) != Decision::Duplicate,
{
    lemma_bound_ids_are_live(selector, events);
}

/// Once an id is withdrawn the table no longer holds it, whatever came before.
pub proof fn lemma_removed_id_is_absent(selector: &Selector, events: Seq<RegistryEvent>, id: u32)
    ensures
        !bound_after(selector, events.push(RegistryEvent::Removed { id })).contains(id),
{
    let extended = events.push(RegistryEvent::Removed { id });
    assert(extended.drop_last() =~= events);
}

/// An announced object that is not the one to mirror never changes the table.
pub proof fn lemma_unselected_is_not_bound(
    selector: &Selector,
    events: Seq<RegistryEvent>,
    desc: ObjectDescriptor,
    bind_ok: bool,
)
    requires
        !selector.selects(&desc),
    ensures
        bound_after(selector, events.push(RegistryEvent::Announced { desc, bind_ok }))
            == bound_after(selector, events),
{
    let extended = events.push(RegistryEvent::Announced { desc, bind_ok });
    assert(extended.drop_last() =~= events);
}

} // verus!
