//! The conversation of a profile: a remote thread whose id is kept in a
//! local state file, reused while the thread exists.
use crate::error::Error;
use crate::event::{BuddyEvent, Event};
use crate::step::Step;
use crate::types::{Conv, ThreadId};
use vstd::prelude::*;

verus! {

/// Where loading a conversation stands.
#[derive(Debug)]
pub enum ConvStage {
    /// Waiting for the local state file to be removed, where there is one.
    Discarding,
    /// Waiting for the local state file to be read.
    Loading,
    /// Waiting for the service to confirm that the saved thread exists.
    Checking { thread_id: ThreadId },
    /// Waiting for a new thread.
    Creating,
    /// Waiting for the new thread's id to be written to the state file.
    Saving { thread_id: ThreadId },
    Done,
}

/// The outcome of the action that loading asked for last.
#[derive(Debug)]
pub enum ConvInput {
    /// The state file is gone.
    Discarded,
    /// What reading the state file gave: the saved thread id, none where
    /// there is no file, or why a file that is there cannot be read.
    Loaded(Result<Option<ThreadId>, String>),
    /// Whether the service still has the saved thread.
    ThreadChecked(Result<(), String>),
    /// The service created a thread with this id.
    Created(ThreadId),
    /// The state file now holds the new thread's id.
    Saved,
}

/// What the driver of loading does next.
#[derive(Debug)]
pub enum ConvAction {
    /// Remove the local state file if there is one.
    DiscardSaved,
    /// Read the local state file.
    LoadSaved,
    /// Fetch the thread from the service.
    CheckThread(ThreadId),
    /// Create a thread.
    CreateThread,
    /// Write the thread id to the local state file.
    SaveConv(ThreadId),
    /// Loading is over: the conversation, or the error.
    Finish(Result<Conv, Error>),
}

/// Loading or creating the conversation of a profile.
///
/// A saved conversation is used only once the service confirms its thread;
/// where it does not, loading fails and creates nothing. A state file that
/// is there but cannot be read is an error too, and nothing is created. Where nothing is
/// saved (or `recreate` discarded it), a new thread is created and saved,
/// and `ConvCreated` is published once it is saved.
#[derive(Debug)]
pub struct ConvLoader {
    pub stage: ConvStage,
}

impl ConvLoader {
    /// Starts loading; with `recreate` the saved conversation is discarded first.
    pub fn new(recreate: bool) -> (r: (ConvLoader, ConvAction))
        ensures
            recreate ==> r == (ConvLoader { stage: ConvStage::Discarding }, ConvAction::DiscardSaved),
            !recreate ==> r == (ConvLoader { stage: ConvStage::Loading }, ConvAction::LoadSaved),
    {
        if recreate {
            (ConvLoader { stage: ConvStage::Discarding }, ConvAction::DiscardSaved)
        } else {
            (ConvLoader { stage: ConvStage::Loading }, ConvAction::LoadSaved)
        }
    }

    /// Whether `input` answers the action that loading asked for last.
    pub open spec fn awaits(&self, input: ConvInput) -> bool {
        match (self.stage, input) {
            (ConvStage::Discarding, ConvInput::Discarded) => true,
            (ConvStage::Loading, ConvInput::Loaded(_)) => true,
            (ConvStage::Checking { .. }, ConvInput::ThreadChecked(_)) => true,
            (ConvStage::Creating, ConvInput::Created(_)) => true,
            (ConvStage::Saving { .. }, ConvInput::Saved) => true,
            _ => false,
        }
    }

    /// The transition on `input`: the next stage, the events, the action.
    /// On an input that it does not await, which `step` does not accept, the
    /// machine stays as it is.
    pub open spec fn next(self, input: ConvInput) -> (ConvLoader, Seq<Event>, ConvAction) {
        let done = ConvLoader { stage: ConvStage::Done };
        match (self.stage, input) {
            (ConvStage::Discarding, ConvInput::Discarded) => (
                ConvLoader { stage: ConvStage::Loading },
                Seq::empty(),
                ConvAction::LoadSaved,
            ),
            (ConvStage::Loading, ConvInput::Loaded(saved)) => match saved {
                Ok(Some(thread_id)) => (
                    ConvLoader { stage: ConvStage::Checking { thread_id } },
                    Seq::empty(),
                    ConvAction::CheckThread(thread_id),
                ),
                Ok(None) => (ConvLoader { stage: ConvStage::Creating }, Seq::empty(), ConvAction::CreateThread),
                Err(cause) => (
                    done,
                    Seq::empty(),
                    ConvAction::Finish(Err(Error::UnreadableConvFile(cause))),
                ),
            },
            (ConvStage::Checking { thread_id }, ConvInput::ThreadChecked(res)) => match res {
                Ok(_) => (
                    done,
                    seq![Event::Buddy(BuddyEvent::ConvLoaded)],
                    ConvAction::Finish(Ok(Conv { thread_id })),
                ),
                Err(_) => (
                    done,
                    Seq::empty(),
                    ConvAction::Finish(Err(Error::CannotFindThreadIdForConv(thread_id.0))),
                ),
            },
            (ConvStage::Creating, ConvInput::Created(thread_id)) => (
                ConvLoader { stage: ConvStage::Saving { thread_id } },
                Seq::empty(),
                ConvAction::SaveConv(thread_id),
            ),
            (ConvStage::Saving { thread_id }, ConvInput::Saved) => (
                done,
                seq![Event::Buddy(BuddyEvent::ConvCreated)],
                ConvAction::Finish(Ok(Conv { thread_id })),
            ),
            _ => (self, Seq::empty(), ConvAction::LoadSaved),
        }
    }

    /// Tells whether `input` answers the last action, as [`Self::awaits`] states.
    pub fn expects(&self, input: &ConvInput) -> (r: bool)
        ensures
            r == self.awaits(*input),
    {
        match (&self.stage, input) {
            (ConvStage::Discarding, ConvInput::Discarded) => true,
            (ConvStage::Loading, ConvInput::Loaded(_)) => true,
            (ConvStage::Checking { .. }, ConvInput::ThreadChecked(_)) => true,
            (ConvStage::Creating, ConvInput::Created(_)) => true,
            (ConvStage::Saving { .. }, ConvInput::Saved) => true,
            _ => false,
        }
    }

    /// Takes the outcome of the last action and returns the events and the next action.
    pub fn step(&mut self, input: ConvInput) -> (r: Step<ConvAction>)
        requires
            old(self).awaits(input),
        ensures
            (*final(self), r.events@, r.action) == old(self).next(input),
    {
        let mut events: Vec<Event> = Vec::new();
        let mut stage = ConvStage::Done;
        std::mem::swap(&mut self.stage, &mut stage);
        match (stage, input) {
            (ConvStage::Loading, ConvInput::Loaded(Ok(Some(thread_id)))) => {
                self.stage = ConvStage::Checking { thread_id: thread_id.clone() };
                Step { events, action: ConvAction::CheckThread(thread_id) }
            },
            (ConvStage::Loading, ConvInput::Loaded(Err(cause))) => {
                Step { events, action: ConvAction::Finish(Err(Error::UnreadableConvFile(cause))) }
            },
            (ConvStage::Loading, _) => {
                self.stage = ConvStage::Creating;
                Step { events, action: ConvAction::CreateThread }
            },
            (ConvStage::Checking { thread_id }, ConvInput::ThreadChecked(Ok(_))) => {
                events.push(Event::Buddy(BuddyEvent::ConvLoaded));
                proof {
                    assert(events@ =~= old(self).next(input).1);
                }
                Step { events, action: ConvAction::Finish(Ok(Conv { thread_id })) }
            },
            (ConvStage::Checking { thread_id }, _) => {
                Step { events, action: ConvAction::Finish(Err(Error::CannotFindThreadIdForConv(thread_id.0))) }
            },
            (ConvStage::Creating, ConvInput::Created(thread_id)) => {
                self.stage = ConvStage::Saving { thread_id: thread_id.clone() };
                Step { events, action: ConvAction::SaveConv(thread_id) }
            },
            (ConvStage::Saving { thread_id }, _) => {
                events.push(Event::Buddy(BuddyEvent::ConvCreated));
                proof {
                    assert(events@ =~= old(self).next(input).1);
                }
                Step { events, action: ConvAction::Finish(Ok(Conv { thread_id })) }
            },
            (_, _) => {
                self.stage = ConvStage::Loading;
                Step { events, action: ConvAction::LoadSaved }
            },
        }
    }
}

/// A saved conversation whose thread the service no longer has makes
/// loading fail with `CannotFindThreadIdForConv`: it asks to check the
/// thread, never to create one, and once the check fails it is over.
pub proof fn lemma_stale_conv_fails(thread_id: ThreadId, cause: String)
    ensures
        ({
            let start = ConvLoader { stage: ConvStage::Loading };
            let (checking, events1, action1) = start.next(ConvInput::Loaded(Ok(Some(thread_id))));
            let (done, events2, action2) = checking.next(ConvInput::ThreadChecked(Err(cause)));
            &&& action1 == ConvAction::CheckThread(thread_id)
            &&& events1.len() == 0
            &&& action2 == ConvAction::Finish(Err(Error::CannotFindThreadIdForConv(thread_id.0)))
            &&& events2.len() == 0
            &&& forall|input: ConvInput| !(#[trigger] done.awaits(input))
        }),
{
    let start = ConvLoader { stage: ConvStage::Loading };
    let checking = start.next(ConvInput::Loaded(Ok(Some(thread_id)))).0;
    let done = checking.next(ConvInput::ThreadChecked(Err(cause))).0;
    assert forall|input: ConvInput| !(#[trigger] done.awaits(input)) by {}
}

/// A state file that is there but cannot be read makes loading fail with
/// `UnreadableConvFile`: no thread is created and nothing is saved.
pub proof fn lemma_unreadable_conv_fails(cause: String)
    ensures
        ({
            let start = ConvLoader { stage: ConvStage::Loading };
            let (done, events, action) = start.next(ConvInput::Loaded(Err(cause)));
            &&& action == ConvAction::Finish(Err(Error::UnreadableConvFile(cause)))
            &&& events.len() == 0
            &&& forall|input: ConvInput| !(#[trigger] done.awaits(input))
        }),
{
    let done = ConvLoader { stage: ConvStage::Loading }.next(ConvInput::Loaded(Err(cause))).0;
    assert forall|input: ConvInput| !(#[trigger] done.awaits(input)) by {}
}

} // verus!
