//! Notifications that the engine publishes while it works.
use crate::types::{AsstId, AsstRef, FileId, FileRef};
use std::sync::Arc;
use tokio::sync::broadcast::{Receiver, Sender};
use vstd::prelude::*;

verus! {

/// Events about assistants and remote files.
#[derive(Debug)]
pub enum AisEvent {
    AsstCreated(AsstRef),
    AsstLoaded(AsstRef),
    AsstDeleted(AsstRef),
    AsstFileCantRemove { asst_id: AsstId, file_id: FileId, cause: String },
    OrgFileUploading { file_name: String },
    OrgFileUploaded(FileRef),
    OrgFileDeleted(FileRef),
    OrgFileCantDelete { file_ref: FileRef, cause: String },
}

/// Events about the profile's instructions and conversation.
#[derive(Debug, Clone, Copy, PartialEq, Eq, Structural)]
pub enum BuddyEvent {
    InstUploaded,
    ConvCreated,
    ConvLoaded,
}

#[derive(Debug)]
pub enum Event {
    Ais(AisEvent),
    Buddy(BuddyEvent),
}

#[verifier::external_type_specification]
#[verifier::external_body]
#[verifier::reject_recursive_types(T)]
pub struct ExSender<T>(Sender<T>);

#[verifier::external_type_specification]
#[verifier::external_body]
#[verifier::reject_recursive_types(T)]
pub struct ExReceiver<T>(Receiver<T>);

/// How many events a subscriber may fall behind before it misses some.
pub const EVENT_BUS_CAPACITY: usize = 16;

/// The broadcast channel that a sender publishes on.
pub uninterp spec fn tx_channel(tx: Sender<Arc<Event>>) -> int;

/// The broadcast channel that a receiver takes its events from.
pub uninterp spec fn rx_channel(rx: Receiver<Arc<Event>>) -> int;

/// Relies on tokio's `broadcast::Sender::new`: a sender with no receiver
/// yet. It panics on a capacity of zero or above `usize::MAX / 2`.
#[verifier::external_body]
fn new_sender(capacity: usize) -> Sender<Arc<Event>>
    requires
        0 < capacity <= usize::MAX / 2,
{
    Sender::new(capacity)
}

/// Relies on tokio's `broadcast::Sender::send`: the event goes to the
/// receivers subscribed at the time; with none it is handed back, and then
/// the count is `None`.
#[verifier::external_body]
fn broadcast(tx: &Sender<Arc<Event>>, evt: Arc<Event>) -> Option<usize> {
    tx.send(evt).ok()
}

/// Relies on tokio's `broadcast::Sender::subscribe`: a receiver of the
/// events sent from now on.
#[verifier::external_body]
fn subscribe_to(tx: &Sender<Arc<Event>>) -> (r: Receiver<Arc<Event>>)
    ensures
        rx_channel(r) == tx_channel(*tx),
{
    tx.subscribe()
}

/// Relies on tokio's `Clone` for `broadcast::Sender`: another handle on the same channel.
#[verifier::external_body]
fn another_sender(tx: &Sender<Arc<Event>>) -> (r: Sender<Arc<Event>>)
    ensures
        tx_channel(r) == tx_channel(*tx),
{
    tx.clone()
}

/// Publishes the engine's events to any number of independent subscribers.
///
/// Publishing never blocks and never fails: with no subscriber an event is
/// dropped, and a subscriber that falls more than [`EVENT_BUS_CAPACITY`]
/// events behind misses the oldest. Clones publish on the same channel.
#[derive(Debug)]
pub struct EventBus {
    tx: Sender<Arc<Event>>,
}

impl EventBus {
    /// The channel that this bus publishes on.
    pub closed spec fn channel(&self) -> int {
        tx_channel(self.tx)
    }

    pub fn new() -> EventBus {
        EventBus { tx: new_sender(EVENT_BUS_CAPACITY) }
    }

    /// Publishes `evt` to the current subscribers, if any.
    pub fn send(&self, evt: Event) {
        let _ = broadcast(&self.tx, Arc::new(evt));
    }

    /// Publishes `events`, in order.
    pub fn send_all(&self, events: Vec<Event>) {
        let mut events = events;
        while events.len() > 0
            decreases events.len(),
        {
            let evt = events.remove(0);
            self.send(evt);
        }
    }

    /// A new, independent subscription to the events published from now on.
    pub fn subscribe(&self) -> (r: Receiver<Arc<Event>>)
        ensures
            rx_channel(r) == self.channel(),
    {
        subscribe_to(&self.tx)
    }
}

impl Clone for EventBus {
    fn clone(&self) -> (r: Self)
        ensures
            r.channel() == self.channel(),
    {
        EventBus { tx: another_sender(&self.tx) }
    }
}

} // verus!
