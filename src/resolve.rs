//! Resolving a profile's assistant: reuse the one of that name, or create
//! it, deleting the old one and its files first when asked to recreate.
use crate::event::{AisEvent, Event};
use crate::files::{get_files_hashmap, is_file_map, OrgFile};
use crate::step::Step;
use crate::text::same_text;
use crate::types::{AsstId, AsstRef, CreateConfig, FileId, FileRef};
use vstd::prelude::*;

verus! {

/// An assistant as the service's listing reports it.
#[derive(Debug)]
pub struct AsstEntry {
    pub id: String,
    pub name: Option<String>,
}

/// Whether the listed assistant carries the name `name`.
pub open spec fn is_named(e: AsstEntry, name: Seq<char>) -> bool {
    e.name matches Some(n) && n@ == name
}

/// The position of the first listed assistant named `name`.
pub open spec fn first_named(list: Seq<AsstEntry>, name: Seq<char>) -> Option<int>
    decreases list.len(),
{
    if list.len() == 0 {
        None
    } else if is_named(list[0], name) {
        Some(0)
    } else {
        match first_named(list.drop_first(), name) {
            Some(i) => Some(i + 1),
            None => None,
        }
    }
}

proof fn lemma_first_named(list: Seq<AsstEntry>, name: Seq<char>, i: int)
    requires
        0 <= i <= list.len(),
        forall|k: int| 0 <= k < i ==> !is_named(#[trigger] list[k], name),
    ensures
        i < list.len() && is_named(list[i], name) ==> first_named(list, name) == Some(i),
        i == list.len() ==> first_named(list, name) is None,
    decreases i,
{
    if i > 0 {
        let rest = list.drop_first();
        assert forall|k: int| 0 <= k < i - 1 implies !is_named(#[trigger] rest[k], name) by {
            assert(rest[k] == list[k + 1]);
        }
        lemma_first_named(rest, name, i - 1);
        if i < list.len() {
            assert(rest[i - 1] == list[i]);
        }
    }
}

/// The first assistant of the listing named `name`: its remote id.
pub fn first_by_name(assts: &Vec<AsstEntry>, name: &str) -> (r: Option<AsstId>)
    ensures
        r == match first_named(assts@, name@) {
            Some(i) => Some(AsstId(assts@[i].id)),
            None => None,
        },
{
    let mut i: usize = 0;
    while i < assts.len()
        invariant
            i <= assts.len(),
            forall|k: int| 0 <= k < i ==> !is_named(#[trigger] assts@[k], name@),
        decreases assts.len() - i,
    {
        let hit = match &assts[i].name {
            Some(n) => same_text(n.as_str(), name),
            None => false,
        };
        if hit {
            proof {
                lemma_first_named(assts@, name@, i as int);
            }
            return Some(AsstId(assts[i].id.clone()));
        }
        i = i + 1;
    }
    proof {
        lemma_first_named(assts@, name@, i as int);
    }
    None
}

/// Where a resolution stands.
#[derive(Debug)]
pub enum ResolveStage {
    /// Waiting for the listing of the service's assistants.
    Listing,
    /// Recreating: waiting for the files of the assistant `id`.
    ListingFiles { id: AsstId },
    /// Recreating: deleting the assistant's files, one at a time, from `next` on.
    DeletingFiles { id: AsstId, files: Vec<FileRef>, next: usize },
    /// Recreating: waiting for the assistant itself to be deleted.
    DeletingAsst { id: AsstId },
    /// Waiting for a new assistant to be created.
    Creating,
    Done,
}

/// The outcome of the action that a resolution asked for last.
#[derive(Debug)]
pub enum ResolveInput {
    /// The service's assistants, in the order the service lists them.
    Listed(Vec<AsstEntry>),
    /// The ids of the files attached to the assistant, and the account's files.
    FilesListed { attached: Vec<String>, org_files: Vec<OrgFile> },
    /// The removal of a file from the account's store, or why it failed.
    FileDeleted(Result<(), String>),
    /// The assistant was deleted.
    AsstDeleted,
    /// A new assistant was created with this id.
    Created(AsstId),
}

/// What the driver of a resolution does next.
#[derive(Debug)]
pub enum ResolveAction {
    /// List the service's assistants.
    ListAssistants,
    /// List the files attached to the assistant and the account's files.
    ListFiles(AsstId),
    /// Remove a file from the account's store.
    DeleteOrgFile(FileId),
    /// Delete the assistant.
    DeleteAssistant(AsstId),
    /// Create an assistant with a retrieval tool, as configured.
    CreateAssistant(CreateConfig),
    /// The resolution is over: the assistant to use.
    Finish(AsstId),
}

/// Resolution of the assistant named in `config`.
///
/// The first listed assistant of that name is used as it stands, unless
/// `recreate` is set: then it is deleted, after each of its files, and a
/// new one is created. A file that cannot be deleted is reported and does
/// not stop the rest. Where none has the name, one is created.
#[derive(Debug)]
pub struct Resolver {
    pub config: CreateConfig,
    pub recreate: bool,
    pub stage: ResolveStage,
}

pub open spec fn asst_event(e: AisEvent) -> Event {
    Event::Ais(e)
}

/// What the deletion of the file at `next` is reported as.
pub open spec fn file_deleted_event(file: FileRef, res: Result<(), String>) -> Event {
    match res {
        Ok(_) => Event::Ais(AisEvent::OrgFileDeleted(file)),
        Err(cause) => Event::Ais(AisEvent::OrgFileCantDelete { file_ref: file, cause }),
    }
}

/// The action that deletes the files from `next` on, then the assistant.
pub open spec fn delete_from(id: AsstId, files: Seq<FileRef>, next: int) -> ResolveAction {
    if next < files.len() {
        ResolveAction::DeleteOrgFile(files[next].id)
    } else {
        ResolveAction::DeleteAssistant(id)
    }
}

/// The stage that deletes the files from `next` on, then the assistant.
pub open spec fn deleting_from(id: AsstId, files: Vec<FileRef>, next: int) -> ResolveStage {
    if next < files@.len() {
        ResolveStage::DeletingFiles { id, files, next: next as usize }
    } else {
        ResolveStage::DeletingAsst { id }
    }
}

impl Resolver {
    /// Starts a resolution; its first action lists the service's assistants.
    pub fn new(config: CreateConfig, recreate: bool) -> (r: (Resolver, ResolveAction))
        ensures
            r.0 == (Resolver { config, recreate, stage: ResolveStage::Listing }),
            r.1 == ResolveAction::ListAssistants,
    {
        (Resolver { config, recreate, stage: ResolveStage::Listing }, ResolveAction::ListAssistants)
    }

    /// Whether `input` answers the action that this resolution asked for last.
    pub open spec fn awaits(&self, input: ResolveInput) -> bool {
        match (self.stage, input) {
            (ResolveStage::Listing, ResolveInput::Listed(_)) => true,
            (ResolveStage::ListingFiles { .. }, ResolveInput::FilesListed { .. }) => true,
            (ResolveStage::DeletingFiles { files, next, .. }, ResolveInput::FileDeleted(_)) => next
                < files@.len(),
            (ResolveStage::DeletingAsst { .. }, ResolveInput::AsstDeleted) => true,
            (ResolveStage::Creating, ResolveInput::Created(_)) => true,
            _ => false,
        }
    }

    /// The transition on `input`, for every input but a listing of files.
    /// On an input that it does not await, which `step` does not accept, the
    /// machine stays as it is.
    pub open spec fn next(self, input: ResolveInput) -> (Resolver, Seq<Event>, ResolveAction) {
        let done = Resolver { stage: ResolveStage::Done, ..self };
        match (self.stage, input) {
            (ResolveStage::Listing, ResolveInput::Listed(list)) => {
                match first_named(list@, self.config.name@) {
                    Some(i) => {
                        let id = AsstId(list@[i].id);
                        if self.recreate {
                            (
                                Resolver { stage: ResolveStage::ListingFiles { id }, ..self },
                                Seq::empty(),
                                ResolveAction::ListFiles(id),
                            )
                        } else {
                            (
                                done,
                                seq![asst_event(AisEvent::AsstLoaded(AsstRef { name: self.config.name, id }))],
                                ResolveAction::Finish(id),
                            )
                        }
                    },
                    None => (
                        Resolver { stage: ResolveStage::Creating, ..self },
                        Seq::empty(),
                        ResolveAction::CreateAssistant(self.config),
                    ),
                }
            },
            (ResolveStage::DeletingFiles { id, files, next }, ResolveInput::FileDeleted(res)) => (
                Resolver { stage: deleting_from(id, files, next + 1), ..self },
                seq![file_deleted_event(files@[next as int], res)],
                delete_from(id, files@, next + 1),
            ),
            (ResolveStage::DeletingAsst { id }, ResolveInput::AsstDeleted) => (
                Resolver { stage: ResolveStage::Creating, ..self },
                seq![asst_event(AisEvent::AsstDeleted(AsstRef { name: self.config.name, id }))],
                ResolveAction::CreateAssistant(self.config),
            ),
            (ResolveStage::Creating, ResolveInput::Created(id)) => (
                done,
                seq![asst_event(AisEvent::AsstCreated(AsstRef { name: self.config.name, id }))],
                ResolveAction::Finish(id),
            ),
            _ => (self, Seq::empty(), ResolveAction::ListAssistants),
        }
    }

    /// The transition once the files of the assistant being recreated are
    /// known as `files`: delete them one at a time, then the assistant.
    pub open spec fn with_files(self, files: Vec<FileRef>) -> (Resolver, Seq<Event>, ResolveAction) {
        match self.stage {
            ResolveStage::ListingFiles { id } => (
                Resolver { stage: deleting_from(id, files, 0), ..self },
                Seq::empty(),
                delete_from(id, files@, 0),
            ),
            _ => (self, Seq::empty(), ResolveAction::ListAssistants),
        }
    }

    /// Tells whether `input` answers the last action, as [`Self::awaits`] states.
    pub fn expects(&self, input: &ResolveInput) -> (r: bool)
        ensures
            r == self.awaits(*input),
    {
        match (&self.stage, input) {
            (ResolveStage::Listing, ResolveInput::Listed(_)) => true,
            (ResolveStage::ListingFiles { .. }, ResolveInput::FilesListed { .. }) => true,
            (ResolveStage::DeletingFiles { files, next, .. }, ResolveInput::FileDeleted(_)) => *next
                < files.len(),
            (ResolveStage::DeletingAsst { .. }, ResolveInput::AsstDeleted) => true,
            (ResolveStage::Creating, ResolveInput::Created(_)) => true,
            _ => false,
        }
    }

    /// Takes the outcome of the last action and returns the events and the
    /// next action. The files of an assistant being recreated come out of
    /// [`get_files_hashmap`], so each name is deleted once.
    pub fn step(&mut self, input: ResolveInput) -> (r: Step<ResolveAction>)
        requires
            old(self).awaits(input),
        ensures
            match input {
                ResolveInput::FilesListed { attached, org_files } => {
                    &&& final(self).stage matches ResolveStage::DeletingFiles { files, .. } ==> is_file_map(
                        files@,
                        attached@,
                        org_files@,
                    )
                    &&& exists|files: Vec<FileRef>|
                        is_file_map(files@, attached@, org_files@) && (*final(self), r.events@, r.action)
                            == #[trigger] old(self).with_files(files)
                },
                _ => (*final(self), r.events@, r.action) == old(self).next(input),
            },
    {
        let mut events: Vec<Event> = Vec::new();
        let mut stage = ResolveStage::Done;
        std::mem::swap(&mut self.stage, &mut stage);
        match input {
            ResolveInput::Listed(list) => {
                match first_by_name(&list, self.config.name.as_str()) {
                    Some(id) => {
                        if self.recreate {
                            self.stage = ResolveStage::ListingFiles { id: id.clone() };
                            Step { events, action: ResolveAction::ListFiles(id) }
                        } else {
                            events.push(
                                Event::Ais(AisEvent::AsstLoaded(AsstRef { name: self.config.name.clone(), id: id.clone() })),
                            );
                            proof {
                                assert(events@ =~= old(self).next(input).1);
                            }
                            Step { events, action: ResolveAction::Finish(id) }
                        }
                    },
                    None => {
                        self.stage = ResolveStage::Creating;
                        Step { events, action: ResolveAction::CreateAssistant(self.config.clone()) }
                    },
                }
            },
            ResolveInput::FilesListed { attached, org_files } => {
                let id = match stage {
                    ResolveStage::ListingFiles { id } => id,
                    _ => AsstId(String::new()),
                };
                let files = get_files_hashmap(&attached, &org_files);
                let action = if files.len() > 0 {
                    ResolveAction::DeleteOrgFile(files[0].id.clone())
                } else {
                    ResolveAction::DeleteAssistant(id.clone())
                };
                self.stage = if files.len() > 0 {
                    ResolveStage::DeletingFiles { id, files, next: 0 }
                } else {
                    ResolveStage::DeletingAsst { id }
                };
                proof {
                    assert((*self, events@, action) == old(self).with_files(files));
                }
                Step { events, action }
            },
            ResolveInput::FileDeleted(res) => {
                match stage {
                    ResolveStage::DeletingFiles { id, files, next } => {
                        let n = files.len();
                        assert(next < n);
                        let file = files[next].clone();
                        match res {
                            Ok(_) => events.push(Event::Ais(AisEvent::OrgFileDeleted(file))),
                            Err(cause) => events.push(
                                Event::Ais(AisEvent::OrgFileCantDelete { file_ref: file, cause }),
                            ),
                        }
                        let after = next + 1;
                        let action = if after < n {
                            ResolveAction::DeleteOrgFile(files[after].id.clone())
                        } else {
                            ResolveAction::DeleteAssistant(id.clone())
                        };
                        self.stage = if after < n {
                            ResolveStage::DeletingFiles { id, files, next: after }
                        } else {
                            ResolveStage::DeletingAsst { id }
                        };
                        proof {
                            assert(events@ =~= old(self).next(input).1);
                        }
                        Step { events, action }
                    },
                    _ => Step { events, action: ResolveAction::ListAssistants },
                }
            },
            ResolveInput::AsstDeleted => {
                let id = match stage {
                    ResolveStage::DeletingAsst { id } => id,
                    _ => AsstId(String::new()),
                };
                events.push(
                    Event::Ais(AisEvent::AsstDeleted(AsstRef { name: self.config.name.clone(), id })),
                );
                self.stage = ResolveStage::Creating;
                proof {
                    assert(events@ =~= old(self).next(input).1);
                }
                Step { events, action: ResolveAction::CreateAssistant(self.config.clone()) }
            },
            ResolveInput::Created(id) => {
                events.push(
                    Event::Ais(AisEvent::AsstCreated(AsstRef { name: self.config.name.clone(), id: id.clone() })),
                );
                proof {
                    assert(events@ =~= old(self).next(input).1);
                }
                Step { events, action: ResolveAction::Finish(id) }
            },
        }
    }
}

/// A finished resolution takes no more input.
pub open spec fn is_over(r: Resolver) -> bool {
    forall|input: ResolveInput| !(#[trigger] r.awaits(input))
}

/// Without recreate, where an assistant of the profile's name is listed,
/// resolution ends at its first step: it uses the first such assistant,
/// publishes exactly one event, `AsstLoaded`, and never asks to create one.
/// As nothing changed remotely, resolving again against the same listing
/// does exactly the same.
pub proof fn lemma_resolve_reuses_existing(config: CreateConfig, list: Vec<AsstEntry>)
    requires
        first_named(list@, config.name@) is Some,
    ensures
        ({
            let i = first_named(list@, config.name@)->0;
            let id = AsstId(list@[i].id);
            let start = Resolver { config, recreate: false, stage: ResolveStage::Listing };
            let (first, events, action) = start.next(ResolveInput::Listed(list));
            let (again, events_again, action_again) = start.next(ResolveInput::Listed(list));
            &&& action == ResolveAction::Finish(id)
            &&& events == seq![Event::Ais(AisEvent::AsstLoaded(AsstRef { name: config.name, id }))]
            &&& is_over(first)
            &&& (again, events_again, action_again) == (first, events, action)
        }),
{
    let start = Resolver { config, recreate: false, stage: ResolveStage::Listing };
    let first = start.next(ResolveInput::Listed(list)).0;
    assert forall|input: ResolveInput| !(#[trigger] first.awaits(input)) by {}
}

/// Feeds the outcomes of successive file deletions to a resolution: where
/// it ends, and the action asked for after each outcome.
pub open spec fn feed_deletions(r: Resolver, results: Seq<Result<(), String>>) -> (Resolver, Seq<ResolveAction>)
    decreases results.len(),
{
    if results.len() == 0 {
        (r, Seq::empty())
    } else {
        let (after, _, action) = r.next(ResolveInput::FileDeleted(results[0]));
        let (end, actions) = feed_deletions(after, results.drop_first());
        (end, seq![action] + actions)
    }
}

proof fn lemma_feed_deletions(r: Resolver, id: AsstId, files: Vec<FileRef>, k: int, results: Seq<Result<(), String>>)
    requires
        0 <= k <= files@.len(),
        r.stage == deleting_from(id, files, k),
        results.len() == files@.len() - k,
    ensures
        feed_deletions(r, results).0 == (Resolver { stage: ResolveStage::DeletingAsst { id }, ..r }),
        feed_deletions(r, results).1.len() == results.len(),
        forall|j: int|
            0 <= j < results.len() ==> (#[trigger] feed_deletions(r, results).1[j]) == delete_from(
                id,
                files@,
                k + j + 1,
            ),
    decreases results.len(),
{
    if results.len() > 0 {
        assert(files@.len() == files.len());
        let (after, _, action) = r.next(ResolveInput::FileDeleted(results[0]));
        lemma_feed_deletions(after, id, files, k + 1, results.drop_first());
        let actions = feed_deletions(r, results).1;
        let rest = feed_deletions(after, results.drop_first()).1;
        assert(actions == seq![action] + rest);
        assert forall|j: int| 0 <= j < results.len() implies (#[trigger] actions[j]) == delete_from(
            id,
            files@,
            k + j + 1,
        ) by {
            if j > 0 {
                assert(actions[j] == rest[j - 1]);
            }
        }
    }
}

/// Recreating an assistant whose file map holds N files asks to delete
/// each of the N files once, in turn, then the assistant, then to create a
/// new one. Each deletion may succeed or fail, in any combination: the
/// actions asked for are the same either way.
pub proof fn lemma_recreate_survives_failed_deletes(
    r: Resolver,
    files: Vec<FileRef>,
    results: Seq<Result<(), String>>,
)
    requires
        r.stage is ListingFiles,
        results.len() == files@.len(),
    ensures
        ({
            let id = r.stage->ListingFiles_id;
            let (listed, events, first) = r.with_files(files);
            let (end, actions) = feed_deletions(listed, results);
            let (created, _, last) = end.next(ResolveInput::AsstDeleted);
            &&& first == delete_from(id, files@, 0)
            &&& forall|j: int| 0 <= j < results.len() ==> (#[trigger] actions[j]) == delete_from(id, files@, j + 1)
            &&& end.stage == (ResolveStage::DeletingAsst { id })
            &&& last == ResolveAction::CreateAssistant(r.config)
            &&& created.stage is Creating
        }),
{
    let id = r.stage->ListingFiles_id;
    let listed = r.with_files(files).0;
    lemma_feed_deletions(listed, id, files, 0, results);
}

proof fn lemma_none_named(list: Seq<AsstEntry>, name: Seq<char>)
    requires
        first_named(list, name) is None,
    ensures
        forall|k: int| 0 <= k < list.len() ==> !is_named(#[trigger] list[k], name),
    decreases list.len(),
{
    if list.len() > 0 {
        let rest = list.drop_first();
        lemma_none_named(rest, name);
        assert forall|k: int| 0 <= k < list.len() implies !is_named(#[trigger] list[k], name) by {
            if k > 0 {
                assert(list[k] == rest[k - 1]);
            }
        }
    }
}

/// Resolving twice without recreate, where the first resolution created
/// the assistant and the service then lists it after the others with no
/// other change, gives the same assistant back: the second resolution
/// creates nothing and publishes exactly one event, `AsstLoaded`.
pub proof fn lemma_resolve_after_create_reuses_it(
    config: CreateConfig,
    list: Vec<AsstEntry>,
    created: AsstId,
    list_after: Vec<AsstEntry>,
)
    requires
        first_named(list@, config.name@) is None,
        list_after@.len() == list@.len() + 1,
        list_after@.drop_last() == list@,
        list_after@.last().id@ == created.0@,
        list_after@.last().name matches Some(n) && n@ == config.name@,
    ensures
        ({
            let start = Resolver { config, recreate: false, stage: ResolveStage::Listing };
            let (creating, events1, action1) = start.next(ResolveInput::Listed(list));
            let (done, events2, action2) = creating.next(ResolveInput::Created(created));
            let (again, events3, action3) = start.next(ResolveInput::Listed(list_after));
            let reused = AsstId(list_after@.last().id);
            &&& action1 == ResolveAction::CreateAssistant(config)
            &&& events1.len() == 0
            &&& action2 == ResolveAction::Finish(created)
            &&& events2 == seq![asst_event(AisEvent::AsstCreated(AsstRef { name: config.name, id: created }))]
            &&& action3 == ResolveAction::Finish(reused)
            &&& reused.0@ == created.0@
            &&& events3 == seq![asst_event(AisEvent::AsstLoaded(AsstRef { name: config.name, id: reused }))]
            &&& is_over(again)
        }),
{
    lemma_none_named(list@, config.name@);
    let n = list@.len() as int;
    assert forall|k: int| 0 <= k < n implies !is_named(#[trigger] list_after@[k], config.name@) by {
        assert(list_after@[k] == list@[k]);
    }
    lemma_first_named(list_after@, config.name@, n);
    lemma_resolve_reuses_existing(config, list_after);
}

/// Recreating a listed assistant, end to end: whatever the outcome of each
/// file deletion, the assistant is deleted, `AsstDeleted` is published for
/// it, a new one is created from the same configuration, `AsstCreated` is
/// published for it, and resolution ends with its id. `AsstLoaded` is never
/// published.
pub proof fn lemma_recreate_end_to_end(
    config: CreateConfig,
    list: Vec<AsstEntry>,
    files: Vec<FileRef>,
    results: Seq<Result<(), String>>,
    created: AsstId,
)
    requires
        first_named(list@, config.name@) is Some,
        results.len() == files@.len(),
    ensures
        ({
            let old_id = AsstId(list@[first_named(list@, config.name@)->0].id);
            let start = Resolver { config, recreate: true, stage: ResolveStage::Listing };
            let (listing, events1, action1) = start.next(ResolveInput::Listed(list));
            let (deleting, events2, _) = listing.with_files(files);
            let (end, _) = feed_deletions(deleting, results);
            let (creating, events3, action3) = end.next(ResolveInput::AsstDeleted);
            let (done, events4, action4) = creating.next(ResolveInput::Created(created));
            &&& action1 == ResolveAction::ListFiles(old_id)
            &&& events1.len() == 0
            &&& events2.len() == 0
            &&& end.stage == (ResolveStage::DeletingAsst { id: old_id })
            &&& events3 == seq![asst_event(AisEvent::AsstDeleted(AsstRef { name: config.name, id: old_id }))]
            &&& action3 == ResolveAction::CreateAssistant(config)
            &&& events4 == seq![asst_event(AisEvent::AsstCreated(AsstRef { name: config.name, id: created }))]
            &&& action4 == ResolveAction::Finish(created)
            &&& is_over(done)
        }),
{
    let start = Resolver { config, recreate: true, stage: ResolveStage::Listing };
    let listing = start.next(ResolveInput::Listed(list)).0;
    lemma_recreate_survives_failed_deletes(listing, files, results);
    let old_id = AsstId(list@[first_named(list@, config.name@)->0].id);
    let deleting = listing.with_files(files).0;
    lemma_feed_deletions(deleting, old_id, files, 0, results);
    let end = feed_deletions(deleting, results).0;
    let creating = end.next(ResolveInput::AsstDeleted).0;
    let done = creating.next(ResolveInput::Created(created)).0;
    assert forall|input: ResolveInput| !(#[trigger] done.awaits(input)) by {}
}

} // verus!
