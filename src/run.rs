//! One chat turn: post the user's message, run the assistant on the
//! thread, poll the run until it ends, and read the reply.
use crate::error::{Error, RunStatus};
use crate::event::Event;
use crate::msg::{get_first_thread_msg_content, newest_text_of, MessageContent};
use crate::step::Step;
use crate::types::{AsstId, ThreadId};
use vstd::prelude::*;

verus! {

/// Time between two polls of a run, in milliseconds; the same throughout.
pub const POLLING_DURATION_MS: u64 = 500;

/// Whether a run in this status has not ended yet.
pub open spec fn is_pending(status: RunStatus) -> bool {
    status == RunStatus::Queued || status == RunStatus::InProgress
}

/// Where a chat turn stands.
#[derive(Debug)]
pub enum RunStage {
    /// Waiting for the user's message to be added to the thread.
    Posting,
    /// Waiting for the run to be started.
    Starting,
    /// Waiting for the status of the run.
    Polling { run_id: String },
    /// Waiting out the interval before the next poll.
    Waiting { run_id: String },
    /// The run completed: waiting for the newest message of the thread.
    Reading,
    Done,
}

/// The outcome of the action that a chat turn asked for last.
#[derive(Debug)]
pub enum RunInput {
    /// The user's message is on the thread.
    MessagePosted,
    /// The run was started with this id.
    RunStarted(String),
    /// The run's status.
    Polled(RunStatus),
    /// The interval has passed.
    Waited,
    /// The content of the thread's messages, most recent first; at most one is asked for.
    Messages(Vec<Vec<MessageContent>>),
}

/// What the driver of a chat turn does next.
#[derive(Debug)]
pub enum RunAction {
    /// Add a user message with this text to the thread.
    PostMessage { thread_id: ThreadId, text: String },
    /// Start a run of the assistant on the thread.
    StartRun { thread_id: ThreadId, asst_id: AsstId },
    /// Fetch the run's status.
    PollRun { thread_id: ThreadId, run_id: String },
    /// Wait this many milliseconds.
    Wait(u64),
    /// List the newest message of the thread.
    FetchLatestMessage(ThreadId),
    /// The turn is over: the reply's text, or the error.
    Finish(Result<String, Error>),
}

/// One chat turn of the assistant `asst_id` on the thread `thread_id`.
///
/// The run is polled at a fixed interval while it is queued or in
/// progress, without end unless `max_polls` bounds the number of polls:
/// then a run still pending at the last allowed poll ends the turn with
/// `RunStillPending`; `polls` counts the polls made under such a bound.
///
/// Once completed, the reply is the text of the thread's newest message;
/// any other status ends the turn with that status as the error, and no
/// message is read.
#[derive(Debug)]
pub struct RunTurn {
    pub asst_id: AsstId,
    pub thread_id: ThreadId,
    pub max_polls: Option<u64>,
    pub polls: u64,
    pub stage: RunStage,
}

impl RunTurn {
    /// Starts a turn; its first action posts `text` to the thread.
    pub fn new(asst_id: AsstId, thread_id: ThreadId, text: String, max_polls: Option<u64>) -> (r: (RunTurn, RunAction))
        ensures
            r.0 == (RunTurn { asst_id, thread_id, max_polls, polls: 0, stage: RunStage::Posting }),
            r.1 == (RunAction::PostMessage { thread_id, text }),
    {
        let t = thread_id.clone();
        (
            RunTurn { asst_id, thread_id, max_polls, polls: 0, stage: RunStage::Posting },
            RunAction::PostMessage { thread_id: t, text },
        )
    }

    /// Under a bound, the polls made stay below it.
    pub open spec fn wf(&self) -> bool {
        self.max_polls matches Some(m) ==> self.polls < m
    }

    /// Whether the poll just made was the last that the bound allows.
    pub open spec fn at_limit(&self) -> bool {
        self.max_polls matches Some(m) && self.polls + 1 >= m
    }

    /// Whether `input` answers the action that this turn asked for last.
    pub open spec fn awaits(&self, input: RunInput) -> bool {
        &&& self.wf()
        &&& match (self.stage, input) {
            (RunStage::Posting, RunInput::MessagePosted) => true,
            (RunStage::Starting, RunInput::RunStarted(_)) => true,
            (RunStage::Polling { .. }, RunInput::Polled(_)) => true,
            (RunStage::Waiting { .. }, RunInput::Waited) => true,
            (RunStage::Reading, RunInput::Messages(_)) => true,
            _ => false,
        }
    }

    /// The transition on `input`: the next turn and the action. A chat turn
    /// publishes no events.
    /// On an input that it does not await, which `step` does not accept, the
    /// machine stays as it is.
    pub open spec fn next(self, input: RunInput) -> (RunTurn, RunAction) {
        let done = RunTurn { stage: RunStage::Done, ..self };
        match (self.stage, input) {
            (RunStage::Posting, RunInput::MessagePosted) => (
                RunTurn { stage: RunStage::Starting, ..self },
                RunAction::StartRun { thread_id: self.thread_id, asst_id: self.asst_id },
            ),
            (RunStage::Starting, RunInput::RunStarted(run_id)) => (
                RunTurn { stage: RunStage::Polling { run_id }, ..self },
                RunAction::PollRun { thread_id: self.thread_id, run_id },
            ),
            (RunStage::Polling { run_id }, RunInput::Polled(status)) => {
                if is_pending(status) && self.at_limit() {
                    (done, RunAction::Finish(Err(Error::RunStillPending(status))))
                } else if is_pending(status) {
                    let polls = if self.max_polls is Some { (self.polls + 1) as u64 } else { self.polls };
                    (
                        RunTurn { stage: RunStage::Waiting { run_id }, polls, ..self },
                        RunAction::Wait(POLLING_DURATION_MS),
                    )
                } else if status == RunStatus::Completed {
                    (RunTurn { stage: RunStage::Reading, ..self }, RunAction::FetchLatestMessage(self.thread_id))
                } else {
                    (done, RunAction::Finish(Err(Error::RunError(status))))
                }
            },
            (RunStage::Waiting { run_id }, RunInput::Waited) => (
                RunTurn { stage: RunStage::Polling { run_id }, ..self },
                RunAction::PollRun { thread_id: self.thread_id, run_id },
            ),
            (RunStage::Reading, RunInput::Messages(messages)) => (
                done,
                RunAction::Finish(newest_text_of(messages@)),
            ),
            _ => (self, RunAction::Wait(POLLING_DURATION_MS)),
        }
    }

    /// Tells whether `input` answers the last action, as [`Self::awaits`] states.
    pub fn expects(&self, input: &RunInput) -> (r: bool)
        ensures
            r == self.awaits(*input),
    {
        if let Some(m) = self.max_polls {
            if self.polls >= m {
                return false;
            }
        }
        match (&self.stage, input) {
            (RunStage::Posting, RunInput::MessagePosted) => true,
            (RunStage::Starting, RunInput::RunStarted(_)) => true,
            (RunStage::Polling { .. }, RunInput::Polled(_)) => true,
            (RunStage::Waiting { .. }, RunInput::Waited) => true,
            (RunStage::Reading, RunInput::Messages(_)) => true,
            _ => false,
        }
    }

    /// Takes the outcome of the last action and returns the next action.
    pub fn step(&mut self, input: RunInput) -> (r: Step<RunAction>)
        requires
            old(self).awaits(input),
        ensures
            (*final(self), r.action) == old(self).next(input),
            final(self).wf(),
            r.events@.len() == 0,
    {
        let events: Vec<Event> = Vec::new();
        let mut stage = RunStage::Done;
        std::mem::swap(&mut self.stage, &mut stage);
        match (stage, input) {
            (RunStage::Posting, _) => {
                self.stage = RunStage::Starting;
                Step {
                    events,
                    action: RunAction::StartRun { thread_id: self.thread_id.clone(), asst_id: self.asst_id.clone() },
                }
            },
            (RunStage::Starting, RunInput::RunStarted(run_id)) => {
                self.stage = RunStage::Polling { run_id: run_id.clone() };
                Step { events, action: RunAction::PollRun { thread_id: self.thread_id.clone(), run_id } }
            },
            (RunStage::Polling { run_id }, RunInput::Polled(status)) => {
                match status {
                    RunStatus::Queued | RunStatus::InProgress => {
                        match self.max_polls {
                            Some(m) => {
                                if self.polls + 1 >= m {
                                    return Step { events, action: RunAction::Finish(Err(Error::RunStillPending(status))) };
                                }
                                self.polls = self.polls + 1;
                            },
                            None => {},
                        }
                        self.stage = RunStage::Waiting { run_id };
                        Step { events, action: RunAction::Wait(POLLING_DURATION_MS) }
                    },
                    RunStatus::Completed => {
                        self.stage = RunStage::Reading;
                        Step { events, action: RunAction::FetchLatestMessage(self.thread_id.clone()) }
                    },
                    other => Step { events, action: RunAction::Finish(Err(Error::RunError(other))) },
                }
            },
            (RunStage::Waiting { run_id }, _) => {
                self.stage = RunStage::Polling { run_id: run_id.clone() };
                Step { events, action: RunAction::PollRun { thread_id: self.thread_id.clone(), run_id } }
            },
            (RunStage::Reading, RunInput::Messages(messages)) => {
                Step { events, action: RunAction::Finish(get_first_thread_msg_content(messages)) }
            },
            (stage, _) => {
                self.stage = stage;
                Step { events, action: RunAction::Wait(POLLING_DURATION_MS) }
            },
        }
    }
}

/// When the run completes, the turn reads the thread's newest message and
/// returns its text; where that message starts with text `t` (or a refusal
/// worded `t`), the reply is `t`.
pub proof fn lemma_completed_run_returns_newest_text(turn: RunTurn, messages: Vec<Vec<MessageContent>>)
    requires
        turn.stage is Polling,
    ensures
        ({
            let (reading, action1) = turn.next(RunInput::Polled(RunStatus::Completed));
            let (done, action2) = reading.next(RunInput::Messages(messages));
            &&& action1 == RunAction::FetchLatestMessage(turn.thread_id)
            &&& action2 == RunAction::Finish(newest_text_of(messages@))
            &&& done.stage is Done
            &&& messages@.len() > 0 && messages@[0]@.len() > 0 ==> match messages@[0]@[0] {
                MessageContent::Text(t) => action2 == RunAction::Finish(Ok(t)),
                MessageContent::Refusal(t) => action2 == RunAction::Finish(Ok(t)),
                _ => action2 == RunAction::Finish(Err(Error::MessageImageNotSupported)),
            }
        }),
{
}

/// When the run ends in any status but `Completed`, the turn fails with
/// that status and is over: it never asks for a message.
pub proof fn lemma_failed_run_reads_nothing(turn: RunTurn, status: RunStatus)
    requires
        turn.stage is Polling,
        !is_pending(status),
        status != RunStatus::Completed,
    ensures
        ({
            let (done, action) = turn.next(RunInput::Polled(status));
            &&& action == RunAction::Finish(Err(Error::RunError(status)))
            &&& forall|input: RunInput| !(#[trigger] done.awaits(input))
        }),
{
    let done = turn.next(RunInput::Polled(status)).0;
    assert forall|input: RunInput| !(#[trigger] done.awaits(input)) by {}
}

/// Feeds a turn that is polling a series of statuses, each answered by a
/// wait: where it ends.
pub open spec fn poll_through(turn: RunTurn, statuses: Seq<RunStatus>) -> RunTurn
    decreases statuses.len(),
{
    if statuses.len() == 0 {
        turn
    } else {
        let waiting = turn.next(RunInput::Polled(statuses[0])).0;
        let polling = waiting.next(RunInput::Waited).0;
        poll_through(polling, statuses.drop_first())
    }
}

/// Without a bound on polls, any number of queued or in-progress statuses
/// brings the turn back to polling the same run, unchanged: each is
/// answered by a wait and a new poll, and no message is asked for. What
/// follows is then as after the first poll (see the two lemmas above).
pub proof fn lemma_pending_polls_return_to_polling(turn: RunTurn, statuses: Seq<RunStatus>)
    requires
        turn.stage is Polling,
        turn.max_polls is None,
        forall|k: int| 0 <= k < statuses.len() ==> is_pending(#[trigger] statuses[k]),
    ensures
        poll_through(turn, statuses) == turn,
        forall|k: int|
            0 <= k < statuses.len() ==> turn.next(RunInput::Polled(#[trigger] statuses[k])).1 == RunAction::Wait(
                POLLING_DURATION_MS,
            ),
        turn.next(RunInput::Polled(RunStatus::Queued)).0.next(RunInput::Waited) == (
            turn,
            RunAction::PollRun { thread_id: turn.thread_id, run_id: turn.stage->Polling_run_id },
        ),
    decreases statuses.len(),
{
    if statuses.len() > 0 {
        let waiting = turn.next(RunInput::Polled(statuses[0])).0;
        let polling = waiting.next(RunInput::Waited).0;
        assert(polling == turn);
        assert forall|k: int| 0 <= k < statuses.len() - 1 implies is_pending(
            #[trigger] statuses.drop_first()[k],
        ) by {
            assert(statuses.drop_first()[k] == statuses[k + 1]);
        }
        lemma_pending_polls_return_to_polling(polling, statuses.drop_first());
    }
}

} // verus!
