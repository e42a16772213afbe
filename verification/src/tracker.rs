//! The presence set and the state machine that folds events into it.

use crate::event::{Event, EventView};
use crate::setting::{spec_transition, transition, Direction};
use vstd::hash_set::StringHashSet;
use vstd::prelude::*;

verus! {

/// The presence set after one event: an `Add` inserts its identity, a
/// `Remove` takes it out. Inserting what is present and removing what is
/// absent change nothing.
pub open spec fn step(present: Set<Seq<char>>, event: EventView) -> Set<Seq<char>> {
    match event {
        EventView::Add(id) => present.insert(id),
        EventView::Remove(id) => present.remove(id),
    }
}

/// The edge between two presence sets: `Some` exactly when one of them is
/// empty and the other is not.
pub open spec fn edge(before: Set<Seq<char>>, after: Set<Seq<char>>) -> Option<Direction> {
    spec_transition(before.is_empty(), after.is_empty())
}

/// The presence set after a whole sequence of events, taken in order.
pub open spec fn fold(present: Set<Seq<char>>, events: Seq<EventView>) -> Set<Seq<char>>
    decreases events.len(),
{
    if events.len() == 0 {
        present
    } else {
        step(fold(present, events.drop_last()), events.last())
    }
}

/// The edges crossed while a sequence of events is processed, in order:
/// one entry for each event that turned an empty set into a non-empty one
/// or the reverse.
pub open spec fn edges(present: Set<Seq<char>>, events: Seq<EventView>) -> Seq<Direction>
    decreases events.len(),
{
    if events.len() == 0 {
        Seq::empty()
    } else {
        let earlier = edges(present, events.drop_last());
        let before = fold(present, events.drop_last());
        match edge(before, step(before, events.last())) {
            Some(direction) => earlier.push(direction),
            None => earlier,
        }
    }
}

/// The views of a sequence of events, one for one.
pub open spec fn views(events: Seq<Event>) -> Seq<EventView> {
    events.map_values(|event: Event| event@)
}

/// The set of identities of the devices that are present right now.
pub struct PresenceTracker {
    devices: StringHashSet,
}

impl View for PresenceTracker {
    type V = Set<Seq<char>>;

    closed spec fn view(&self) -> Set<Seq<char>> {
        self.devices@
    }
}

impl PresenceTracker {
    /// A tracker that has seen no device yet.
    pub fn new() -> (tracker: PresenceTracker)
        ensures
            tracker@ == Set::<Seq<char>>::empty(),
    {
        PresenceTracker { devices: StringHashSet::new() }
    }

    /// Whether no device is present.
    pub fn is_empty(&self) -> (empty: bool)
        ensures
            empty == self@.is_empty(),
    {
        self.devices.is_empty()
    }

    /// Whether the device with this identity is present.
    pub fn contains(&self, identity: &str) -> (present: bool)
        ensures
            present == self@.contains(identity@),
    {
        self.devices.contains(identity)
    }

    /// Applies one event to the presence set and reports the edge that it
    /// crossed, if any. An `Add` of a present identity and a `Remove` of an
    /// absent one leave the set as it was and cross no edge.
    pub fn process(&mut self, event: Event) -> (crossed: Option<Direction>)
        ensures
            final(self)@ == step(old(self)@, event@),
            crossed == edge(old(self)@, final(self)@),
    {
        let was_empty = self.devices.is_empty();
        match event {
            Event::Add(id) => {
                self.devices.insert(id);
            },
            Event::Remove(id) => {
                self.devices.remove(id.as_str());
            },
        }
        transition(was_empty, self.devices.is_empty())
    }

    /// Applies a queue of events in order and returns the edges crossed on
    /// the way, in the order in which they were crossed.
    pub fn process_all(&mut self, events: &Vec<Event>) -> (crossed: Vec<Direction>)
        ensures
            final(self)@ == fold(old(self)@, views(events@)),
            crossed@ == edges(old(self)@, views(events@)),
    {
        let mut crossed: Vec<Direction> = Vec::new();
        let mut i: usize = 0;
        while i < events.len()
            invariant
                0 <= i <= events.len(),
                self@ == fold(old(self)@, views(events@).take(i as int)),
                crossed@ == edges(old(self)@, views(events@).take(i as int)),
            decreases events.len() - i,
        {
            let ghost prefix = views(events@).take(i as int);
            let ghost longer = views(events@).take(i + 1);
            proof {
                assert(longer.drop_last() =~= prefix);
                assert(longer.last() == events@[i as int]@);
            }
            let event = events[i].duplicate();
            match self.process(event) {
                Some(direction) => crossed.push(direction),
                None => {},
            }
            i += 1;
        }
        proof {
            assert(views(events@).take(i as int) =~= views(events@));
        }
        crossed
    }
}

} // verus!
