//! What holds of the state machine for every state and every sequence of
//! events.

use crate::command::spec_invocation;
use crate::event::EventView;
use crate::setting::Direction;
use crate::startup::startup_edges;
use crate::tracker::{edge, edges, fold, step};
use vstd::prelude::*;

verus! {

/// No event at or after position `from` removes `id`.
pub open spec fn never_removed_from(events: Seq<EventView>, id: Seq<char>, from: int) -> bool {
    forall|j: int| from <= j < events.len() ==> events[j] != EventView::Remove(id)
}

/// The identity outlives the events: it was present and is never removed,
/// or some event adds it and none after that removes it.
pub open spec fn survives(present: Set<Seq<char>>, events: Seq<EventView>, id: Seq<char>) -> bool {
    ||| present.contains(id) && never_removed_from(events, id, 0)
    ||| exists|i: int|
        0 <= i < events.len() && events[i] == EventView::Add(id) && never_removed_from(
            events,
            id,
            i + 1,
        )
}

/// Every event in the sequence is an `Add`.
pub open spec fn all_adds(events: Seq<EventView>) -> bool {
    forall|i: int| 0 <= i < events.len() ==> events[i] is Add
}

/// Every event in the sequence is a `Remove`.
pub open spec fn all_removes(events: Seq<EventView>) -> bool {
    forall|i: int| 0 <= i < events.len() ==> events[i] is Remove
}

/// The direction that leads away from a presence set's current state.
pub open spec fn way_out(present: Set<Seq<char>>) -> Direction {
    if present.is_empty() {
        Direction::ToNonEmpty
    } else {
        Direction::ToEmpty
    }
}

/// Whether the event at position `i` turns an empty presence set into a
/// non-empty one or the reverse.
pub open spec fn crosses_at(present: Set<Seq<char>>, events: Seq<EventView>, i: int) -> bool {
    fold(present, events.take(i)).is_empty() != fold(present, events.take(i + 1)).is_empty()
}

/// The positions of the events that cross between empty and non-empty.
pub open spec fn crossings(present: Set<Seq<char>>, events: Seq<EventView>) -> Set<int> {
    Set::new(|i: int| 0 <= i < events.len() && crosses_at(present, events, i))
}

/// After any sequence of events, an identity is present exactly if it
/// outlived them: duplicates of an `Add` and removals of what is absent
/// count for nothing.
pub proof fn law_fold_membership(present: Set<Seq<char>>, events: Seq<EventView>, id: Seq<char>)
    ensures
        fold(present, events).contains(id) <==> survives(present, events, id),
    decreases events.len(),
{
    if events.len() > 0 {
        let init = events.drop_last();
        let last = events.last();
        let n = init.len() as int;
        law_fold_membership(present, init, id);
        assert(forall|j: int| 0 <= j < n ==> init[j] == events[j]);
        if last == EventView::Remove(id) {
            assert(events[n] == EventView::Remove(id));
            assert(!survives(present, events, id));
        } else if last == EventView::Add(id) {
            assert(events[n] == EventView::Add(id));
            assert(never_removed_from(events, id, n + 1));
            assert(survives(present, events, id));
        } else {
            assert(fold(present, events).contains(id) == fold(present, init).contains(id));
            assert(forall|from: int|
                0 <= from <= n ==> (#[trigger] never_removed_from(events, id, from)
                    <==> never_removed_from(init, id, from))) by {
                assert forall|from: int| 0 <= from <= n implies (#[trigger] never_removed_from(
                    events,
                    id,
                    from,
                ) <==> never_removed_from(init, id, from)) by {
                    if never_removed_from(init, id, from) {
                        assert forall|j: int| from <= j < events.len() implies events[j]
                            != EventView::Remove(id) by {
                            if j < n {
                                assert(init[j] == events[j]);
                            }
                        }
                    }
                    if never_removed_from(events, id, from) {
                        assert forall|j: int| from <= j < init.len() implies init[j]
                            != EventView::Remove(id) by {
                            assert(init[j] == events[j]);
                        }
                    }
                }
            }
            if survives(present, init, id) {
                if present.contains(id) && never_removed_from(init, id, 0) {
                    assert(never_removed_from(events, id, 0));
                } else {
                    let i = choose|i: int|
                        0 <= i < init.len() && init[i] == EventView::Add(id) && never_removed_from(
                            init,
                            id,
                            i + 1,
                        );
                    assert(events[i] == EventView::Add(id));
                    assert(never_removed_from(events, id, i + 1));
                }
                assert(survives(present, events, id));
            }
            if survives(present, events, id) {
                if present.contains(id) && never_removed_from(events, id, 0) {
                    assert(never_removed_from(init, id, 0));
                } else {
                    let i = choose|i: int|
                        0 <= i < events.len() && events[i] == EventView::Add(id)
                            && never_removed_from(events, id, i + 1);
                    assert(i < n);
                    assert(init[i] == EventView::Add(id));
                    assert(never_removed_from(init, id, i + 1));
                }
                assert(survives(present, init, id));
            }
        }
    }
}

/// The edges crossed on a sequence of events alternate, starting with the
/// one that leads away from the initial state, and the last of them tells
/// whether the presence set ends up empty. So the setting is applied once
/// for each change between empty and non-empty, however many events it
/// took, and the setting applied last always fits the devices present.
pub proof fn law_edges_alternate(present: Set<Seq<char>>, events: Seq<EventView>)
    ensures
        edges(present, events).len() <= events.len(),
        edges(present, events).len() > 0 ==> edges(present, events)[0] == way_out(present),
        forall|k: int|
            0 <= k && k + 1 < edges(present, events).len() ==> #[trigger] edges(present, events)[k]
                != edges(present, events)[k + 1],
        edges(present, events).len() == 0 ==> fold(present, events).is_empty()
            == present.is_empty(),
        edges(present, events).len() > 0 ==> (fold(present, events).is_empty() <==> edges(
            present,
            events,
        ).last() == Direction::ToEmpty),
    decreases events.len(),
{
    if events.len() > 0 {
        law_edges_alternate(present, events.drop_last());
    }
}

/// The number of edges is the number of events that cross between empty
/// and non-empty: each such event accounts for exactly one application of
/// the setting, and no other event for any.
pub proof fn law_one_edge_per_crossing(present: Set<Seq<char>>, events: Seq<EventView>)
    ensures
        crossings(present, events).finite(),
        edges(present, events).len() == crossings(present, events).len(),
    decreases events.len(),
{
    if events.len() == 0 {
        assert(crossings(present, events) =~= Set::<int>::empty());
    } else {
        let init = events.drop_last();
        let n = init.len() as int;
        law_one_edge_per_crossing(present, init);
        assert forall|i: int| 0 <= i < n implies crosses_at(present, events, i) == crosses_at(
            present,
            init,
            i,
        ) by {
            assert(events.take(i) =~= init.take(i));
            assert(events.take(i + 1) =~= init.take(i + 1));
        }
        assert(events.take(n) =~= init);
        assert(events.take(n + 1) =~= events);
        if crosses_at(present, events, n) {
            assert(crossings(present, events) =~= crossings(present, init).insert(n));
        } else {
            assert(crossings(present, events) =~= crossings(present, init));
        }
    }
}

/// A burst of `Add` events crosses one edge if the presence set was empty
/// and none if it was not, however many devices arrive.
pub proof fn law_burst_of_adds(present: Set<Seq<char>>, events: Seq<EventView>)
    requires
        all_adds(events),
        events.len() > 0,
    ensures
        !fold(present, events).is_empty(),
        edges(present, events) == if present.is_empty() {
            seq![Direction::ToNonEmpty]
        } else {
            Seq::<Direction>::empty()
        },
    decreases events.len(),
{
    let init = events.drop_last();
    let last = events.last();
    assert(fold(present, events).contains(last->Add_0));
    if init.len() > 0 {
        assert(all_adds(init));
        law_burst_of_adds(present, init);
    } else {
        assert(edges(present, init) =~= Seq::<Direction>::empty());
        if present.is_empty() {
            assert(edges(present, events) =~= seq![Direction::ToNonEmpty]);
        }
    }
}

/// A run of `Remove` events crosses one edge if it empties a presence set
/// that held something, and none otherwise: taking devices away one by
/// one applies the setting once, with the last of them.
pub proof fn law_run_of_removes(present: Set<Seq<char>>, events: Seq<EventView>)
    requires
        all_removes(events),
    ensures
        present.is_empty() ==> fold(present, events).is_empty(),
        edges(present, events) == if !present.is_empty() && fold(present, events).is_empty() {
            seq![Direction::ToEmpty]
        } else {
            Seq::<Direction>::empty()
        },
    decreases events.len(),
{
    if events.len() > 0 {
        let init = events.drop_last();
        assert(all_removes(init));
        law_run_of_removes(present, init);
        let before = fold(present, init);
        if before.is_empty() {
            assert(step(before, events.last()) =~= before);
        } else if fold(present, events).is_empty() {
            assert(edges(present, events) =~= seq![Direction::ToEmpty]);
        }
    }
}

/// From the event that adds a device up to the one that removes it, the
/// presence set holds that device, and so no edge is crossed after the
/// first event, whatever else comes and goes meanwhile.
pub proof fn law_no_edge_while_present(
    present: Set<Seq<char>>,
    events: Seq<EventView>,
    id: Seq<char>,
)
    requires
        events.len() > 0,
        events[0] == EventView::Add(id),
        never_removed_from(events, id, 1),
    ensures
        fold(present, events).contains(id),
        edges(present, events) == if present.is_empty() {
            seq![Direction::ToNonEmpty]
        } else {
            Seq::<Direction>::empty()
        },
    decreases events.len(),
{
    let init = events.drop_last();
    let last = events.last();
    if init.len() == 0 {
        assert(edges(present, init) =~= Seq::<Direction>::empty());
        assert(fold(present, events).contains(id));
        if present.is_empty() {
            assert(edges(present, events) =~= seq![Direction::ToNonEmpty]);
        }
    } else {
        assert(init[0] == events[0]);
        assert forall|j: int| 1 <= j < init.len() implies init[j] != EventView::Remove(id) by {
            assert(init[j] == events[j]);
        }
        law_no_edge_while_present(present, init, id);
        assert(last == events[events.len() - 1]);
        assert(fold(present, events).contains(id));
    }
}

/// Adding a device that is present changes nothing and crosses no edge.
/// So two `Add` events for one identity in a row apply the setting at
/// most once, and never with the second of them.
pub proof fn law_repeated_add(present: Set<Seq<char>>, id: Seq<char>)
    ensures
        step(step(present, EventView::Add(id)), EventView::Add(id)) == step(
            present,
            EventView::Add(id),
        ),
        edge(
            step(present, EventView::Add(id)),
            step(step(present, EventView::Add(id)), EventView::Add(id)),
        ) is None,
        edges(present, seq![EventView::Add(id), EventView::Add(id)]).len() <= 1,
{
    let once = step(present, EventView::Add(id));
    assert(once.contains(id));
    assert(step(once, EventView::Add(id)) =~= once);
    law_no_edge_while_present(present, seq![EventView::Add(id), EventView::Add(id)], id);
}

/// Removing a device that is absent changes nothing and crosses no edge.
pub proof fn law_spurious_remove(present: Set<Seq<char>>, id: Seq<char>)
    requires
        !present.contains(id),
    ensures
        step(present, EventView::Remove(id)) == present,
        edge(present, step(present, EventView::Remove(id))) is None,
{
    assert(step(present, EventView::Remove(id)) =~= present);
}

/// With no device found at startup and no live event, the setting is
/// applied exactly once, for the empty state.
pub proof fn law_startup_without_device()
    ensures
        startup_edges(None, Seq::empty()) == seq![Direction::ToEmpty],
{
    let none: Seq<EventView> = Seq::empty();
    assert(none + none =~= none);
    assert(startup_edges(None, none) =~= seq![Direction::ToEmpty]);
}

/// With a device found at startup, the setting is applied exactly once,
/// for the non-empty state, and no live event applies it again for as
/// long as that device is not removed.
pub proof fn law_startup_with_device(id: Seq<char>, live: Seq<EventView>)
    requires
        never_removed_from(live, id, 0),
    ensures
        startup_edges(Some(id), live) == seq![Direction::ToNonEmpty],
{
    let events = seq![EventView::Add(id)] + live;
    assert forall|j: int| 1 <= j < events.len() implies events[j] != EventView::Remove(id) by {
        assert(events[j] == live[j - 1]);
    }
    law_no_edge_while_present(Set::empty(), events, id);
    assert(startup_edges(Some(id), live) =~= seq![Direction::ToNonEmpty]);
}

/// The two directions run different commands.
pub proof fn law_commands_differ()
    ensures
        spec_invocation(Direction::ToNonEmpty) != spec_invocation(Direction::ToEmpty),
{
    reveal_strlit("@as []");
    reveal_strlit("['ctrl:swapcaps']");
    assert(spec_invocation(Direction::ToNonEmpty).args[2].len() == 6);
    assert(spec_invocation(Direction::ToEmpty).args[2].len() == 17);
}

} // verus!
