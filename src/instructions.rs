//! Pushing a profile's instructions to its assistant.
use crate::event::{BuddyEvent, Event};
use crate::step::Step;
use crate::types::AsstId;
use vstd::prelude::*;

verus! {

/// Where an upload of instructions stands.
#[derive(Debug)]
pub enum InstStage {
    /// Waiting for the instructions file to be read.
    Reading,
    /// Waiting for the assistant to take the instructions.
    Uploading,
    Done,
}

/// The outcome of the action that an upload of instructions asked for last.
#[derive(Debug)]
pub enum InstInput {
    /// The instructions file's content; none where the profile has no such file.
    Read(Option<String>),
    /// The assistant now has the instructions.
    Uploaded,
}

/// What the driver of an upload of instructions does next.
#[derive(Debug)]
pub enum InstAction {
    /// Read the profile's instructions file, if it exists.
    ReadInstructions,
    /// Set these instructions on the assistant.
    UploadInstructions { asst_id: AsstId, text: String },
    /// Over: whether instructions were uploaded.
    Finish(bool),
}

/// Upload of a profile's instructions to the assistant `asst_id`: where the
/// profile has an instructions file, its content is set on the assistant
/// and `InstUploaded` is published; otherwise nothing happens.
#[derive(Debug)]
pub struct InstUpload {
    pub asst_id: AsstId,
    pub stage: InstStage,
}

impl InstUpload {
    /// Starts an upload; its first action reads the instructions file.
    pub fn new(asst_id: AsstId) -> (r: (InstUpload, InstAction))
        ensures
            r == (InstUpload { asst_id, stage: InstStage::Reading }, InstAction::ReadInstructions),
    {
        (InstUpload { asst_id, stage: InstStage::Reading }, InstAction::ReadInstructions)
    }

    /// Whether `input` answers the action that this upload asked for last.
    pub open spec fn awaits(&self, input: InstInput) -> bool {
        match (self.stage, input) {
            (InstStage::Reading, InstInput::Read(_)) => true,
            (InstStage::Uploading, InstInput::Uploaded) => true,
            _ => false,
        }
    }

    /// The transition on `input`: the next upload, the events, the action.
    /// On an input that it does not await, which `step` does not accept, the
    /// machine stays as it is.
    pub open spec fn next(self, input: InstInput) -> (InstUpload, Seq<Event>, InstAction) {
        let done = InstUpload { stage: InstStage::Done, ..self };
        match (self.stage, input) {
            (InstStage::Reading, InstInput::Read(found)) => match found {
                Some(text) => (
                    InstUpload { stage: InstStage::Uploading, ..self },
                    Seq::empty(),
                    InstAction::UploadInstructions { asst_id: self.asst_id, text },
                ),
                None => (done, Seq::empty(), InstAction::Finish(false)),
            },
            (InstStage::Uploading, InstInput::Uploaded) => (
                done,
                seq![Event::Buddy(BuddyEvent::InstUploaded)],
                InstAction::Finish(true),
            ),
            _ => (self, Seq::empty(), InstAction::ReadInstructions),
        }
    }

    /// Tells whether `input` answers the last action, as [`Self::awaits`] states.
    pub fn expects(&self, input: &InstInput) -> (r: bool)
        ensures
            r == self.awaits(*input),
    {
        match (&self.stage, input) {
            (InstStage::Reading, InstInput::Read(_)) => true,
            (InstStage::Uploading, InstInput::Uploaded) => true,
            _ => false,
        }
    }

    /// Takes the outcome of the last action and returns the events and the next action.
    pub fn step(&mut self, input: InstInput) -> (r: Step<InstAction>)
        requires
            old(self).awaits(input),
        ensures
            (*final(self), r.events@, r.action) == old(self).next(input),
    {
        let mut events: Vec<Event> = Vec::new();
        match input {
            InstInput::Read(Some(text)) => {
                self.stage = InstStage::Uploading;
                Step { events, action: InstAction::UploadInstructions { asst_id: self.asst_id.clone(), text } }
            },
            InstInput::Read(None) => {
                self.stage = InstStage::Done;
                Step { events, action: InstAction::Finish(false) }
            },
            InstInput::Uploaded => {
                self.stage = InstStage::Done;
                events.push(Event::Buddy(BuddyEvent::InstUploaded));
                proof {
                    assert(events@ =~= old(self).next(input).1);
                }
                Step { events, action: InstAction::Finish(true) }
            },
        }
    }
}

} // verus!
