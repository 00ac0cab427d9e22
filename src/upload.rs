//! Uploading one file to an assistant: first to the account's store, then
//! attached to the assistant, with deduplication by display name.
use crate::error::Error;
use crate::event::{AisEvent, Event};
use crate::files::{get_files_hashmap, is_attached, is_file_map, last_match, position_of, ref_of, OrgFile};
use crate::step::Step;
use crate::text::same_text;
use crate::types::{AsstId, FileId, FileRef};
use vstd::prelude::*;

verus! {

/// Where an upload stands.
#[derive(Debug)]
pub enum UploadStage {
    /// Waiting for the two listings of the remote store.
    Listing,
    /// Waiting for the removal of the previous file from the account's store.
    DeletingOld { previous: FileId },
    /// Waiting for the previous file to be detached from the assistant.
    DetachingOld { previous: FileId },
    /// Waiting for the new file to reach the account's store.
    Uploading,
    /// Waiting for the new file to be attached to the assistant.
    Attaching { uploaded: FileId },
    Done,
}

/// The outcome of the action that an upload asked for last.
#[derive(Debug)]
pub enum UploadInput {
    /// The ids of the files attached to the assistant, and the account's files.
    FilesListed { attached: Vec<String>, org_files: Vec<OrgFile> },
    /// The removal of the previous file from the account's store, or why it failed.
    OldDeleted(Result<(), String>),
    /// The detachment of the previous file from the assistant, or why it failed.
    OldDetached(Result<(), String>),
    /// The id that the account's store gave the new file.
    Uploaded(FileId),
    /// The id that the assistant reports for the attached file.
    Attached(FileId),
}

/// What the driver of an upload does next.
#[derive(Debug)]
pub enum UploadAction {
    /// List the files attached to the assistant and the account's files.
    ListFiles(AsstId),
    /// Remove a file from the account's store.
    DeleteOrgFile(FileId),
    /// Detach a file from the assistant.
    DetachFile { asst_id: AsstId, file_id: FileId },
    /// Send the local file of this name to the account's store.
    UploadFile(String),
    /// Attach a file of the account's store to the assistant.
    AttachFile { asst_id: AsstId, file_id: FileId },
    /// The upload is over: the file's record and whether it was sent, or the error.
    Finish(Result<(FileId, bool), Error>),
}

/// One upload of a local file, named `file_name`, to an assistant.
///
/// Without `force`, a file of that name already attached to the assistant
/// is kept and nothing is sent. With `force`, or when there is none, any
/// previous file of that name is removed (failures there are reported and
/// tolerated), and the file is sent and attached.
#[derive(Debug)]
pub struct FileUpload {
    pub asst_id: AsstId,
    pub file_name: String,
    pub force: bool,
    pub stage: UploadStage,
}

pub open spec fn uploading_event(file_name: String) -> Event {
    Event::Ais(AisEvent::OrgFileUploading { file_name })
}

impl FileUpload {
    /// Starts an upload; its first action lists the remote store.
    pub fn new(asst_id: AsstId, file_name: String, force: bool) -> (r: (FileUpload, UploadAction))
        ensures
            r.0 == (FileUpload { asst_id, file_name, force, stage: UploadStage::Listing }),
            r.1 == UploadAction::ListFiles(asst_id),
    {
        let id = asst_id.clone();
        (FileUpload { asst_id, file_name, force, stage: UploadStage::Listing }, UploadAction::ListFiles(id))
    }

    /// Whether `input` answers the action that this upload asked for last.
    pub open spec fn awaits(&self, input: UploadInput) -> bool {
        match (self.stage, input) {
            (UploadStage::Listing, UploadInput::FilesListed { .. }) => true,
            (UploadStage::DeletingOld { .. }, UploadInput::OldDeleted(_)) => true,
            (UploadStage::DetachingOld { .. }, UploadInput::OldDetached(_)) => true,
            (UploadStage::Uploading, UploadInput::Uploaded(_)) => true,
            (UploadStage::Attaching { .. }, UploadInput::Attached(_)) => true,
            _ => false,
        }
    }

    /// The transition on `input`: the next upload, the events, the action.
    /// On an input that it does not await, which `step` does not accept, the
    /// machine stays as it is.
    pub open spec fn next(self, input: UploadInput) -> (FileUpload, Seq<Event>, UploadAction) {
        let done = FileUpload { stage: UploadStage::Done, ..self };
        let uploading = FileUpload { stage: UploadStage::Uploading, ..self };
        let send = UploadAction::UploadFile(self.file_name);
        match (self.stage, input) {
            (UploadStage::Listing, UploadInput::FilesListed { attached, org_files }) => {
                match last_match(attached@, org_files@, self.file_name@) {
                    Some(j) => {
                        let prev = FileId(org_files@[j].id);
                        if !self.force {
                            (done, Seq::empty(), UploadAction::Finish(Ok((prev, false))))
                        } else {
                            (
                                FileUpload { stage: UploadStage::DeletingOld { previous: prev }, ..self },
                                Seq::empty(),
                                UploadAction::DeleteOrgFile(prev),
                            )
                        }
                    },
                    None => (uploading, seq![uploading_event(self.file_name)], send),
                }
            },
            (UploadStage::DeletingOld { previous: prev }, UploadInput::OldDeleted(res)) => {
                let events = match res {
                    Ok(_) => Seq::empty(),
                    Err(cause) => seq![
                        Event::Ais(
                            AisEvent::OrgFileCantDelete {
                                file_ref: FileRef { name: self.file_name, id: prev },
                                cause,
                            },
                        ),
                    ],
                };
                (
                    FileUpload { stage: UploadStage::DetachingOld { previous: prev }, ..self },
                    events,
                    UploadAction::DetachFile { asst_id: self.asst_id, file_id: prev },
                )
            },
            (UploadStage::DetachingOld { previous: prev }, UploadInput::OldDetached(res)) => {
                let events = match res {
                    Ok(_) => seq![uploading_event(self.file_name)],
                    Err(cause) => seq![
                        Event::Ais(
                            AisEvent::AsstFileCantRemove { asst_id: self.asst_id, file_id: prev, cause },
                        ),
                        uploading_event(self.file_name),
                    ],
                };
                (uploading, events, send)
            },
            (UploadStage::Uploading, UploadInput::Uploaded(uploaded)) => (
                FileUpload { stage: UploadStage::Attaching { uploaded }, ..self },
                seq![
                    Event::Ais(
                        AisEvent::OrgFileUploaded(FileRef { name: self.file_name, id: uploaded }),
                    ),
                ],
                UploadAction::AttachFile { asst_id: self.asst_id, file_id: uploaded },
            ),
            (UploadStage::Attaching { uploaded }, UploadInput::Attached(attached)) => {
                if attached.0@ == uploaded.0@ {
                    (done, Seq::empty(), UploadAction::Finish(Ok((attached, true))))
                } else {
                    (done, Seq::empty(), UploadAction::Finish(Err(Error::FileIdMismatch { uploaded, attached })))
                }
            },
            _ => (self, Seq::empty(), UploadAction::ListFiles(self.asst_id)),
        }
    }

    /// Tells whether `input` answers the last action, as [`Self::awaits`] states.
    pub fn expects(&self, input: &UploadInput) -> (r: bool)
        ensures
            r == self.awaits(*input),
    {
        match (&self.stage, input) {
            (UploadStage::Listing, UploadInput::FilesListed { .. }) => true,
            (UploadStage::DeletingOld { .. }, UploadInput::OldDeleted(_)) => true,
            (UploadStage::DetachingOld { .. }, UploadInput::OldDetached(_)) => true,
            (UploadStage::Uploading, UploadInput::Uploaded(_)) => true,
            (UploadStage::Attaching { .. }, UploadInput::Attached(_)) => true,
            _ => false,
        }
    }

    /// Takes the outcome of the last action and returns the events and the next action.
    pub fn step(&mut self, input: UploadInput) -> (r: Step<UploadAction>)
        requires
            old(self).awaits(input),
        ensures
            (*final(self), r.events@, r.action) == old(self).next(input),
    {
        let mut events: Vec<Event> = Vec::new();
        match input {
            UploadInput::FilesListed { attached, org_files } => {
                let refs = get_files_hashmap(&attached, &org_files);
                match position_of(&refs, &self.file_name) {
                    Some(k) => {
                        proof {
                            reveal_file_map_lookup(refs@, attached@, org_files@, k as int);
                        }
                        let prev = refs[k].id.clone();
                        if !self.force {
                            self.stage = UploadStage::Done;
                            Step { events, action: UploadAction::Finish(Ok((prev, false))) }
                        } else {
                            self.stage = UploadStage::DeletingOld { previous: prev.clone() };
                            Step { events, action: UploadAction::DeleteOrgFile(prev) }
                        }
                    },
                    None => {
                        proof {
                            assert(last_match(attached@, org_files@, self.file_name@) is None);
                        }
                        self.stage = UploadStage::Uploading;
                        events.push(Event::Ais(AisEvent::OrgFileUploading { file_name: self.file_name.clone() }));
                        proof {
                            assert(events@ =~= seq![uploading_event(self.file_name)]);
                        }
                        Step { events, action: UploadAction::UploadFile(self.file_name.clone()) }
                    },
                }
            },
            UploadInput::OldDeleted(res) => {
                let prev = match &self.stage {
                    UploadStage::DeletingOld { previous: prev } => prev.clone(),
                    _ => FileId(String::new()),
                };
                if let Err(cause) = res {
                    events.push(
                        Event::Ais(
                            AisEvent::OrgFileCantDelete {
                                file_ref: FileRef { name: self.file_name.clone(), id: prev.clone() },
                                cause,
                            },
                        ),
                    );
                }
                self.stage = UploadStage::DetachingOld { previous: prev.clone() };
                proof {
                    assert(events@ =~= old(self).next(input).1);
                }
                Step { events, action: UploadAction::DetachFile { asst_id: self.asst_id.clone(), file_id: prev } }
            },
            UploadInput::OldDetached(res) => {
                let prev = match &self.stage {
                    UploadStage::DetachingOld { previous: prev } => prev.clone(),
                    _ => FileId(String::new()),
                };
                if let Err(cause) = res {
                    events.push(
                        Event::Ais(
                            AisEvent::AsstFileCantRemove { asst_id: self.asst_id.clone(), file_id: prev, cause },
                        ),
                    );
                }
                events.push(Event::Ais(AisEvent::OrgFileUploading { file_name: self.file_name.clone() }));
                self.stage = UploadStage::Uploading;
                proof {
                    assert(events@ =~= old(self).next(input).1);
                }
                Step { events, action: UploadAction::UploadFile(self.file_name.clone()) }
            },
            UploadInput::Uploaded(uploaded) => {
                events.push(
                    Event::Ais(
                        AisEvent::OrgFileUploaded(FileRef { name: self.file_name.clone(), id: uploaded.clone() }),
                    ),
                );
                self.stage = UploadStage::Attaching { uploaded: uploaded.clone() };
                proof {
                    assert(events@ =~= old(self).next(input).1);
                }
                Step { events, action: UploadAction::AttachFile { asst_id: self.asst_id.clone(), file_id: uploaded } }
            },
            UploadInput::Attached(attached) => {
                let uploaded = match &self.stage {
                    UploadStage::Attaching { uploaded } => uploaded.clone(),
                    _ => FileId(String::new()),
                };
                self.stage = UploadStage::Done;
                if same_text(attached.0.as_str(), uploaded.0.as_str()) {
                    Step { events, action: UploadAction::Finish(Ok((attached, true))) }
                } else {
                    Step { events, action: UploadAction::Finish(Err(Error::FileIdMismatch { uploaded, attached })) }
                }
            },
        }
    }
}

proof fn reveal_file_map_lookup(refs: Seq<FileRef>, attached: Seq<String>, org: Seq<OrgFile>, k: int)
    requires
        is_file_map(refs, attached, org),
        0 <= k < refs.len(),
    ensures
        last_match(attached, org, refs[k].name@) matches Some(j) && refs[k] == ref_of(org[j]),
{
    assert(match last_match(attached, org, refs[k].name@) {
        Some(j) => refs[k] == ref_of(org[j]),
        None => false,
    });
}

/// Without force, a file whose name the assistant already has is not
/// sent again: the upload ends at its first step, with that file's record,
/// no event and no upload, however often it is repeated.
pub proof fn lemma_upload_skips_known_name(
    asst_id: AsstId,
    file_name: String,
    attached: Vec<String>,
    org_files: Vec<OrgFile>,
)
    requires
        last_match(attached@, org_files@, file_name@) is Some,
    ensures
        ({
            let j = last_match(attached@, org_files@, file_name@)->0;
            let start = FileUpload { asst_id, file_name, force: false, stage: UploadStage::Listing };
            let (after, events, action) = start.next(UploadInput::FilesListed { attached, org_files });
            &&& action == UploadAction::Finish(Ok((FileId(org_files@[j].id), false)))
            &&& events.len() == 0
            &&& after.stage is Done
        }),
{
}

/// A file that the assistant does not have yet is sent exactly once: the
/// upload asks for one transfer, then publishes `OrgFileUploading` and a
/// single `OrgFileUploaded`, and once the service attaches it under the
/// same id reports it as sent.
pub proof fn lemma_upload_sends_new_file_once(
    asst_id: AsstId,
    file_name: String,
    force: bool,
    attached: Vec<String>,
    org_files: Vec<OrgFile>,
    uploaded: FileId,
)
    requires
        last_match(attached@, org_files@, file_name@) is None,
    ensures
        ({
            let start = FileUpload { asst_id, file_name, force, stage: UploadStage::Listing };
            let (sending, events1, action1) = start.next(UploadInput::FilesListed { attached, org_files });
            let (attaching, events2, action2) = sending.next(UploadInput::Uploaded(uploaded));
            let (done, events3, action3) = attaching.next(UploadInput::Attached(uploaded));
            &&& action1 == UploadAction::UploadFile(file_name)
            &&& events1 == seq![uploading_event(file_name)]
            &&& action2 == (UploadAction::AttachFile { asst_id, file_id: uploaded })
            &&& events2 == seq![Event::Ais(AisEvent::OrgFileUploaded(FileRef { name: file_name, id: uploaded }))]
            &&& action3 == UploadAction::Finish(Ok((uploaded, true)))
            &&& events3.len() == 0
            &&& done.stage is Done
        }),
{
}

/// Uploading the same file twice, with no other change to the remote store
/// in between and without force the second time, sends it exactly once:
/// the first upload asks for one transfer and publishes one
/// `OrgFileUploaded`; the service then lists the new file as attached, and
/// the second upload finds it by name and ends at once with that file's
/// id, no event and no transfer.
pub proof fn lemma_upload_twice_sends_once(
    asst_id: AsstId,
    file_name: String,
    force: bool,
    attached: Vec<String>,
    org_files: Vec<OrgFile>,
    uploaded: FileId,
    attached_after: Vec<String>,
    org_files_after: Vec<OrgFile>,
)
    requires
        last_match(attached@, org_files@, file_name@) is None,
        attached_after@.len() == attached@.len() + 1,
        attached_after@.drop_last() == attached@,
        attached_after@.last()@ == uploaded.0@,
        org_files_after@.len() == org_files@.len() + 1,
        org_files_after@.drop_last() == org_files@,
        org_files_after@.last().id@ == uploaded.0@,
        org_files_after@.last().filename@ == file_name@,
    ensures
        ({
            let first = FileUpload { asst_id, file_name, force, stage: UploadStage::Listing };
            let (sending, events1, action1) = first.next(UploadInput::FilesListed { attached, org_files });
            let (attaching, events2, action2) = sending.next(UploadInput::Uploaded(uploaded));
            let (_, events3, action3) = attaching.next(UploadInput::Attached(uploaded));
            let second = FileUpload { asst_id, file_name, force: false, stage: UploadStage::Listing };
            let (after, events4, action4) = second.next(
                UploadInput::FilesListed { attached: attached_after, org_files: org_files_after },
            );
            &&& action1 == UploadAction::UploadFile(file_name)
            &&& events1 == seq![uploading_event(file_name)]
            &&& events2 == seq![Event::Ais(AisEvent::OrgFileUploaded(FileRef { name: file_name, id: uploaded }))]
            &&& action3 == UploadAction::Finish(Ok((uploaded, true)))
            &&& events3.len() == 0
            &&& action4 == UploadAction::Finish(Ok((FileId(org_files_after@.last().id), false)))
            &&& org_files_after@.last().id@ == uploaded.0@
            &&& events4.len() == 0
            &&& after.stage is Done
        }),
{
    lemma_upload_sends_new_file_once(asst_id, file_name, force, attached, org_files, uploaded);
    let n = attached@.len() as int;
    assert(attached_after@[n]@ == uploaded.0@);
    assert(is_attached(attached_after@, org_files_after@.last().id@));
    assert(last_match(attached_after@, org_files_after@, file_name@) == Some(org_files@.len() as int));
}

} // verus!
