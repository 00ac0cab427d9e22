//! What one transition of an engine state machine hands back to its driver.
use crate::event::Event;
use vstd::prelude::*;

verus! {

/// The events to publish, in order, and the next action for the driver.
#[derive(Debug)]
pub struct Step<A> {
    pub events: Vec<Event>,
    pub action: A,
}

} // verus!
