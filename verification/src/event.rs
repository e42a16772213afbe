//! Add/remove events and their mathematical view.

use vstd::prelude::*;

verus! {

/// How many events the queue between the producer and the tracker holds
/// before the producer has to wait.
pub const QUEUE_CAPACITY: usize = 4;

/// What an [`Event`] is in specifications: the kind of change and the
/// identity it is about, as a sequence of characters.
pub enum EventView {
    Add(Seq<char>),
    Remove(Seq<char>),
}

/// An interesting device appeared or went away. The identity is an opaque
/// token: only equality of identities carries meaning.
#[derive(Clone, Debug, PartialEq, Eq)]
pub enum Event {
    /// A device with the given identity was attached.
    Add(String),
    /// A device with the given identity was detached.
    Remove(String),
}

impl View for Event {
    type V = EventView;

    open spec fn view(&self) -> EventView {
        match self {
            Event::Add(id) => EventView::Add(id@),
            Event::Remove(id) => EventView::Remove(id@),
        }
    }
}

impl EventView {
    /// The identity that the event is about.
    pub open spec fn identity(self) -> Seq<char> {
        match self {
            EventView::Add(id) => id,
            EventView::Remove(id) => id,
        }
    }
}

impl Event {
    /// The identity that the event is about.
    pub fn identity(&self) -> (id: &str)
        ensures
            id@ == self@.identity(),
    {
        match self {
            Event::Add(id) => id.as_str(),
            Event::Remove(id) => id.as_str(),
        }
    }

    /// True for `Add`, false for `Remove`.
    pub fn is_add(&self) -> (b: bool)
        ensures
            b == (self@ is Add),
    {
        match self {
            Event::Add(_) => true,
            Event::Remove(_) => false,
        }
    }

    /// An independent copy of the event.
    pub fn duplicate(&self) -> (copy: Event)
        ensures
            copy@ == self@,
    {
        match self {
            Event::Add(id) => Event::Add(id.clone()),
            Event::Remove(id) => Event::Remove(id.clone()),
        }
    }
}

} // verus!
