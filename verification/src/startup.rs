//! What to do once, before live events are consumed.

use crate::event::{Event, EventView};
use crate::setting::Direction;
use crate::tracker::edges;
use vstd::prelude::*;

verus! {

/// The one thing to do at startup, after the scan for devices that are
/// attached already.
#[derive(Clone, Debug, PartialEq, Eq)]
pub enum StartupStep {
    /// Put this event on the queue, ahead of every live event.
    Enqueue(Event),
    /// Apply the setting for this direction right away: no event will
    /// announce it.
    Apply(Direction),
}

impl StartupStep {
    /// The events that the step puts on the queue.
    pub open spec fn queued(self) -> Seq<EventView> {
        match self {
            StartupStep::Enqueue(event) => seq![event@],
            StartupStep::Apply(_) => Seq::empty(),
        }
    }

    /// The directions that the step applies itself.
    pub open spec fn applied(self) -> Seq<Direction> {
        match self {
            StartupStep::Enqueue(_) => Seq::empty(),
            StartupStep::Apply(direction) => seq![direction],
        }
    }
}

/// The events that startup puts on the queue, given the first device that
/// the scan found, if it found one.
pub open spec fn startup_queue(first: Option<Seq<char>>) -> Seq<EventView> {
    match first {
        Some(id) => seq![EventView::Add(id)],
        None => Seq::empty(),
    }
}

/// The directions that startup applies itself: with no device in sight the
/// empty state is asserted, since no event will ever announce it.
pub open spec fn startup_applied(first: Option<Seq<char>>) -> Seq<Direction> {
    match first {
        Some(_) => Seq::empty(),
        None => seq![Direction::ToEmpty],
    }
}

/// Every application of the setting from startup on, in order: what
/// startup applies itself, then the edges that a fresh tracker crosses on
/// the queued events followed by the live ones.
pub open spec fn startup_edges(first: Option<Seq<char>>, live: Seq<EventView>) -> Seq<Direction> {
    startup_applied(first) + edges(Set::empty(), startup_queue(first) + live)
}

/// The view of the scan's first find.
pub open spec fn first_view(first: Option<String>) -> Option<Seq<char>> {
    match first {
        Some(id) => Some(id@),
        None => None,
    }
}

/// Decides the startup step from the first device that the scan found.
/// A device becomes an `Add` on the queue; with none the setting for an
/// empty presence set is applied at once.
pub fn startup(first: Option<String>) -> (step: StartupStep)
    ensures
        step.queued() == startup_queue(first_view(first)),
        step.applied() == startup_applied(first_view(first)),
{
    match first {
        Some(id) => StartupStep::Enqueue(Event::Add(id)),
        None => StartupStep::Apply(Direction::ToEmpty),
    }
}

} // verus!
