//! Keeping an assistant's files in step with the profile's bundles:
//! removing stale local artifacts, regenerating each bundle, and uploading
//! those that are new or forced.
use crate::bundle::{bundle_file_name, bundle_name_of, bundle_text, bundle_text_of, SourceFile};
use crate::error::Error;
use crate::event::Event;
use crate::step::Step;
use crate::types::AsstId;
use vstd::prelude::*;

verus! {

/// A bundle of the profile: the sources under `src_dir` that match
/// `src_globs`, gathered into one artifact with extension `dst_ext`.
#[derive(Debug)]
pub struct FileBundle {
    pub bundle_name: String,
    pub src_dir: String,
    pub src_globs: Vec<String>,
    pub dst_ext: String,
}

pub open spec fn is_separator(c: char) -> bool {
    c == '/' || c == '\\'
}

/// Whether a `..` component, which climbs to the parent directory, starts
/// at position `i` of `path`.
pub open spec fn parent_step_at(path: Seq<char>, i: int) -> bool {
    &&& 0 <= i
    &&& i + 2 <= path.len()
    &&& path[i] == '.'
    &&& path[i + 1] == '.'
    &&& (i == 0 || is_separator(path[i - 1]))
    &&& (i + 2 == path.len() || is_separator(path[i + 2]))
}

/// Whether `path` has a `..` component anywhere.
pub open spec fn has_parent_step(path: Seq<char>) -> bool {
    exists|i: int| #[trigger] parent_step_at(path, i)
}

/// Whether `path` names something inside the directory `dir`: it starts
/// with `dir` and a separator, and what follows never climbs back out
/// through `..`.
pub open spec fn lies_under(path: Seq<char>, dir: Seq<char>) -> bool {
    &&& dir.len() < path.len()
    &&& path.take(dir.len() as int) == dir
    &&& is_separator(path[dir.len() as int])
    &&& !has_parent_step(path.skip(dir.len() + 1 as int))
}

fn is_sep(c: char) -> (r: bool)
    ensures
        r == is_separator(c),
{
    c == '/' || c == '\\'
}

/// Whether a `..` component starts at position `i` of `path`, of length `n`.
fn parent_step_at_exec(path: &str, n: usize, i: usize) -> (r: bool)
    requires
        n == path@.len(),
        i < n,
    ensures
        r == parent_step_at(path@, i as int),
{
    if n - i < 2 {
        return false;
    }
    if path.get_char(i) != '.' || path.get_char(i + 1) != '.' {
        return false;
    }
    let before = i == 0 || is_sep(path.get_char(i - 1));
    let after = i + 2 == n || is_sep(path.get_char(i + 2));
    before && after
}

/// Whether `path` has a `..` component.
fn climbs_out(path: &str) -> (r: bool)
    ensures
        r == has_parent_step(path@),
{
    let n = path.unicode_len();
    let mut i: usize = 0;
    while i < n
        invariant
            n == path@.len(),
            i <= n,
            forall|k: int| 0 <= k < i ==> !parent_step_at(path@, k),
        decreases n - i,
    {
        if parent_step_at_exec(path, n, i) {
            return true;
        }
        i = i + 1;
    }
    assert forall|k: int| !parent_step_at(path@, k) by {
        if 0 <= k < i {
        }
    }
    false
}

/// The position of the first path that is not inside `dir`.
pub open spec fn first_outside(paths: Seq<String>, dir: Seq<char>) -> Option<int>
    decreases paths.len(),
{
    if paths.len() == 0 {
        None
    } else if !lies_under(paths[0]@, dir) {
        Some(0)
    } else {
        match first_outside(paths.drop_first(), dir) {
            Some(i) => Some(i + 1),
            None => None,
        }
    }
}

/// Whether removing `paths` is allowed: each must lie inside `dir`, the
/// first that does not is refused.
pub open spec fn removal_check(paths: Seq<String>, dir: Seq<char>) -> Result<(), Error> {
    match first_outside(paths, dir) {
        Some(i) => Err(Error::ShouldNotDeleteLocalFile(paths[i])),
        None => Ok(()),
    }
}

proof fn lemma_first_outside(paths: Seq<String>, dir: Seq<char>, i: int)
    requires
        0 <= i <= paths.len(),
        forall|k: int| 0 <= k < i ==> lies_under((#[trigger] paths[k])@, dir),
    ensures
        i < paths.len() && !lies_under(paths[i]@, dir) ==> first_outside(paths, dir) == Some(i),
        i == paths.len() ==> first_outside(paths, dir) is None,
    decreases i,
{
    if i > 0 {
        let rest = paths.drop_first();
        assert forall|k: int| 0 <= k < i - 1 implies lies_under((#[trigger] rest[k])@, dir) by {
            assert(rest[k] == paths[k + 1]);
        }
        lemma_first_outside(rest, dir, i - 1);
        if i < paths.len() {
            assert(rest[i - 1] == paths[i]);
        }
    }
}

/// Whether `path` lies inside `dir`.
pub fn is_under(path: &str, dir: &str) -> (r: bool)
    ensures
        r == lies_under(path@, dir@),
{
    let n = dir.unicode_len();
    if n >= path.unicode_len() {
        return false;
    }
    let mut i: usize = 0;
    while i < n
        invariant
            n == dir@.len() < path@.len(),
            i <= n,
            forall|k: int| 0 <= k < i ==> path@[k] == dir@[k],
        decreases n - i,
    {
        if path.get_char(i) != dir.get_char(i) {
            assert(path@.take(n as int)[i as int] != dir@[i as int]);
            return false;
        }
        i = i + 1;
    }
    assert(path@.take(n as int) =~= dir@);
    let c = path.get_char(n);
    if !is_sep(c) {
        return false;
    }
    let rest = path.substring_char(n + 1, path.unicode_len());
    assert(rest@ =~= path@.skip(n + 1 as int));
    !climbs_out(rest)
}

/// Checks, before anything is removed, that every path lies inside the
/// profile's data directory `dir`; the first that does not is refused.
pub fn check_removal(paths: &Vec<String>, dir: &str) -> (r: Result<(), Error>)
    ensures
        r == removal_check(paths@, dir@),
{
    let mut i: usize = 0;
    while i < paths.len()
        invariant
            i <= paths.len(),
            forall|k: int| 0 <= k < i ==> lies_under((#[trigger] paths@[k])@, dir@),
        decreases paths.len() - i,
    {
        if !is_under(paths[i].as_str(), dir) {
            proof {
                lemma_first_outside(paths@, dir@, i as int);
            }
            return Err(Error::ShouldNotDeleteLocalFile(paths[i].clone()));
        }
        i = i + 1;
    }
    proof {
        lemma_first_outside(paths@, dir@, i as int);
    }
    Ok(())
}

/// Where a synchronisation stands.
#[derive(Debug)]
pub enum SyncStage {
    /// Waiting for the local artifacts not made under the current assistant.
    ListingStale,
    /// Waiting for those artifacts to be removed.
    Removing,
    /// Waiting for the sources of the bundle at `index`.
    Listing { index: usize },
    /// Waiting for the artifact of the bundle at `index` to be written.
    Writing { index: usize, file_name: String },
    /// Waiting for the upload of the artifact of the bundle at `index`.
    Uploading { index: usize },
    Done,
}

/// The outcome of the action that a synchronisation asked for last.
#[derive(Debug)]
pub enum SyncInput {
    /// The paths of the local artifacts whose names do not carry the current assistant's id.
    StaleListed(Vec<String>),
    /// Those artifacts are removed.
    Removed,
    /// The bundle's sources; none where its source directory does not exist.
    Sources(Option<Vec<SourceFile>>),
    /// The artifact is written; `existed` tells whether it was on disk before.
    Written { existed: bool },
    /// Whether the upload of the artifact sent it.
    Uploaded(bool),
}

/// What the driver of a synchronisation does next.
#[derive(Debug)]
pub enum SyncAction {
    /// List the local artifacts whose names do not carry this assistant id.
    ListStale(AsstId),
    /// Remove these local files; each was checked to lie inside the data directory.
    RemoveFiles(Vec<String>),
    /// List and read the sources of the bundle at this index.
    ListSources(usize),
    /// Write the artifact of this name with this content, telling whether it existed.
    WriteBundle { file_name: String, text: String },
    /// Upload the artifact of this name to the assistant (see `FileUpload`).
    Upload { file_name: String, force: bool },
    /// Over: how many artifacts were sent, or the error.
    Finish(Result<u32, Error>),
}

/// Synchronisation of the files of the profile `buddy_name` with the
/// assistant `asst_id`. Local artifacts live in `files_dir`.
///
/// Each bundle whose sources exist is regenerated every time; it is
/// uploaded with force where `recreate` is set or where its artifact was
/// not on disk before, and otherwise only where the assistant lacks it.
#[derive(Debug)]
pub struct FileSync {
    pub buddy_name: String,
    pub asst_id: AsstId,
    pub files_dir: String,
    pub bundles: Vec<FileBundle>,
    pub recreate: bool,
    pub uploaded: u32,
    pub stage: SyncStage,
}

impl FileSync {
    /// Starts a synchronisation; its first action lists the stale artifacts.
    pub fn new(buddy_name: String, asst_id: AsstId, files_dir: String, bundles: Vec<FileBundle>, recreate: bool) -> (r: (
        FileSync,
        SyncAction,
    ))
        requires
            bundles@.len() <= u32::MAX,
        ensures
            r.0.wf(),
            r.0 == (FileSync {
                buddy_name,
                asst_id,
                files_dir,
                bundles,
                recreate,
                uploaded: 0,
                stage: SyncStage::ListingStale,
            }),
            r.1 == SyncAction::ListStale(asst_id),
    {
        let id = asst_id.clone();
        (
            FileSync { buddy_name, asst_id, files_dir, bundles, recreate, uploaded: 0, stage: SyncStage::ListingStale },
            SyncAction::ListStale(id),
        )
    }

    /// The count of uploads never runs ahead of the bundles gone through.
    pub open spec fn wf(&self) -> bool {
        &&& self.bundles@.len() <= u32::MAX
        &&& match self.stage {
            SyncStage::ListingStale | SyncStage::Removing => self.uploaded == 0,
            SyncStage::Listing { index } => self.uploaded <= index < self.bundles@.len(),
            SyncStage::Writing { index, .. } => self.uploaded <= index < self.bundles@.len(),
            SyncStage::Uploading { index } => self.uploaded <= index < self.bundles@.len(),
            SyncStage::Done => self.uploaded <= self.bundles@.len(),
        }
    }

    /// Whether `input` answers the action that this synchronisation asked for last.
    pub open spec fn awaits(&self, input: SyncInput) -> bool {
        &&& self.wf()
        &&& match (self.stage, input) {
            (SyncStage::ListingStale, SyncInput::StaleListed(_)) => true,
            (SyncStage::Removing, SyncInput::Removed) => true,
            (SyncStage::Listing { .. }, SyncInput::Sources(_)) => true,
            (SyncStage::Writing { .. }, SyncInput::Written { .. }) => true,
            (SyncStage::Uploading { .. }, SyncInput::Uploaded(_)) => true,
            _ => false,
        }
    }

    /// Going on with the bundle at `index`, or finishing after the last.
    pub open spec fn from_bundle(self, index: int) -> (FileSync, SyncAction) {
        if index < self.bundles@.len() {
            (FileSync { stage: SyncStage::Listing { index: index as usize }, ..self }, SyncAction::ListSources(index as usize))
        } else {
            (FileSync { stage: SyncStage::Done, ..self }, SyncAction::Finish(Ok(self.uploaded)))
        }
    }

    /// The transition on `input`: whether it may lead to `after` and `action`.
    /// No move is possible on an input that it does not await.
    pub open spec fn moves(self, input: SyncInput, after: FileSync, action: SyncAction) -> bool {
        match (self.stage, input) {
            (SyncStage::ListingStale, SyncInput::StaleListed(paths)) => match removal_check(paths@, self.files_dir@) {
                Err(e) => after == (FileSync { stage: SyncStage::Done, ..self }) && action == SyncAction::Finish(Err(e)),
                Ok(_) => if paths@.len() == 0 {
                    (after, action) == self.from_bundle(0)
                } else {
                    after == (FileSync { stage: SyncStage::Removing, ..self }) && action == SyncAction::RemoveFiles(paths)
                },
            },
            (SyncStage::Removing, SyncInput::Removed) => (after, action) == self.from_bundle(0),
            (SyncStage::Listing { index }, SyncInput::Sources(found)) => match found {
                Some(files) if files@.len() > 0 => {
                    let b = self.bundles@[index as int];
                    action matches SyncAction::WriteBundle { file_name, text }
                        && file_name@ == bundle_name_of(self.buddy_name@, b.bundle_name@, self.asst_id.0@, b.dst_ext@)
                        && text@ == bundle_text_of(files@)
                        && after == (FileSync { stage: SyncStage::Writing { index, file_name }, ..self })
                },
                _ => (after, action) == self.from_bundle(index + 1),
            },
            (SyncStage::Writing { index, file_name }, SyncInput::Written { existed }) => {
                &&& after == (FileSync { stage: SyncStage::Uploading { index }, ..self })
                &&& action == (SyncAction::Upload { file_name, force: self.recreate || !existed })
            },
            (SyncStage::Uploading { index }, SyncInput::Uploaded(sent)) => {
                let counted = FileSync { uploaded: if sent { (self.uploaded + 1) as u32 } else { self.uploaded }, ..self };
                (after, action) == counted.from_bundle(index + 1)
            },
            _ => false,
        }
    }

    /// Tells whether `input` answers the last action, as [`Self::awaits`] states.
    pub fn expects(&self, input: &SyncInput) -> (r: bool)
        ensures
            r == self.awaits(*input),
    {
        if self.bundles.len() as u64 > u32::MAX as u64 {
            return false;
        }
        let n = self.bundles.len();
        let count = self.uploaded as usize;
        match (&self.stage, input) {
            (SyncStage::ListingStale, SyncInput::StaleListed(_)) => count == 0,
            (SyncStage::Removing, SyncInput::Removed) => count == 0,
            (SyncStage::Listing { index }, SyncInput::Sources(_)) => count <= *index && *index < n,
            (SyncStage::Writing { index, .. }, SyncInput::Written { .. }) => count <= *index && *index < n,
            (SyncStage::Uploading { index }, SyncInput::Uploaded(_)) => count <= *index && *index < n,
            _ => false,
        }
    }

    fn go_to_bundle(&mut self, index: usize) -> (r: SyncAction)
        requires
            index <= old(self).bundles@.len() <= u32::MAX,
            old(self).uploaded <= index,
        ensures
            final(self).wf(),
            (*final(self), r) == old(self).from_bundle(index as int),
    {
        if index < self.bundles.len() {
            self.stage = SyncStage::Listing { index };
            SyncAction::ListSources(index)
        } else {
            self.stage = SyncStage::Done;
            SyncAction::Finish(Ok(self.uploaded))
        }
    }

    /// Takes the outcome of the last action and returns the next action.
    /// A synchronisation publishes no events of its own.
    pub fn step(&mut self, input: SyncInput) -> (r: Step<SyncAction>)
        requires
            old(self).awaits(input),
        ensures
            old(self).moves(input, *final(self), r.action),
            final(self).wf(),
            r.events@.len() == 0,
    {
        let events: Vec<Event> = Vec::new();
        let mut stage = SyncStage::Done;
        std::mem::swap(&mut self.stage, &mut stage);
        match (stage, input) {
            (SyncStage::ListingStale, SyncInput::StaleListed(paths)) => {
                match check_removal(&paths, self.files_dir.as_str()) {
                    Err(e) => Step { events, action: SyncAction::Finish(Err(e)) },
                    Ok(_) => {
                        if paths.len() == 0 {
                            let action = self.go_to_bundle(0);
                            Step { events, action }
                        } else {
                            self.stage = SyncStage::Removing;
                            Step { events, action: SyncAction::RemoveFiles(paths) }
                        }
                    },
                }
            },
            (SyncStage::Removing, _) => {
                let action = self.go_to_bundle(0);
                Step { events, action }
            },
            (SyncStage::Listing { index }, SyncInput::Sources(found)) => {
                match found {
                    Some(files) => {
                        if files.len() > 0 {
                            let b = &self.bundles[index];
                            let file_name = bundle_file_name(
                                self.buddy_name.as_str(),
                                b.bundle_name.as_str(),
                                &self.asst_id,
                                b.dst_ext.as_str(),
                            );
                            let text = bundle_text(&files);
                            self.stage = SyncStage::Writing { index, file_name: file_name.clone() };
                            Step { events, action: SyncAction::WriteBundle { file_name, text } }
                        } else {
                            let action = self.go_to_bundle(index + 1);
                            Step { events, action }
                        }
                    },
                    None => {
                        let action = self.go_to_bundle(index + 1);
                        Step { events, action }
                    },
                }
            },
            (SyncStage::Writing { index, file_name }, SyncInput::Written { existed }) => {
                self.stage = SyncStage::Uploading { index };
                Step { events, action: SyncAction::Upload { file_name, force: self.recreate || !existed } }
            },
            (SyncStage::Uploading { index }, SyncInput::Uploaded(sent)) => {
                if sent {
                    self.uploaded = self.uploaded + 1;
                }
                let action = self.go_to_bundle(index + 1);
                Step { events, action }
            },
            (stage, _) => {
                self.stage = stage;
                Step { events, action: SyncAction::ListStale(self.asst_id.clone()) }
            },
        }
    }
}

/// Without recreate, a bundle whose artifact was already on disk is
/// uploaded without force, so the assistant's copy is kept where it has one.
/// Where the artifact is new, or with recreate, the upload is forced.
pub proof fn lemma_existing_artifact_not_forced(s: FileSync, existed: bool, after: FileSync, action: SyncAction)
    requires
        s.stage is Writing,
        s.moves(SyncInput::Written { existed }, after, action),
    ensures
        action matches SyncAction::Upload { force, .. } && force == (s.recreate || !existed),
        existed && !s.recreate ==> (action matches SyncAction::Upload { force, .. } && !force),
{
}

/// A run of a synchronisation: each state moves on its input to the next
/// state with the action of the same position.
pub open spec fn is_run(states: Seq<FileSync>, inputs: Seq<SyncInput>, actions: Seq<SyncAction>) -> bool {
    &&& states.len() == inputs.len() + 1
    &&& actions.len() == inputs.len()
    &&& forall|k: int| 0 <= k < inputs.len() ==> (#[trigger] states[k]).moves(inputs[k], states[k + 1], actions[k])
}

/// Every artifact was on disk already and no upload sent anything.
pub open spec fn nothing_new(inputs: Seq<SyncInput>) -> bool {
    forall|k: int|
        0 <= k < inputs.len() ==> match #[trigger] inputs[k] {
            SyncInput::Written { existed } => existed,
            SyncInput::Uploaded(sent) => !sent,
            _ => true,
        }
}

proof fn lemma_quiet_run_counts_nothing(
    states: Seq<FileSync>,
    inputs: Seq<SyncInput>,
    actions: Seq<SyncAction>,
    k: int,
)
    requires
        is_run(states, inputs, actions),
        nothing_new(inputs),
        states[0].uploaded == 0,
        0 <= k < states.len(),
    ensures
        states[k].uploaded == 0,
        states[k].recreate == states[0].recreate,
    decreases k,
{
    if k > 0 {
        lemma_quiet_run_counts_nothing(states, inputs, actions, k - 1);
        assert(states[k - 1].moves(inputs[k - 1], states[k], actions[k - 1]));
    }
}

/// Without recreate, a synchronisation in which every regenerated artifact
/// was already on disk asks for each upload without force, and where none
/// of those uploads sends anything (as an upload without force of a name
/// the assistant has does not) it finishes with a count of zero. This holds
/// however often it is repeated.
pub proof fn lemma_quiet_sync_uploads_nothing(
    states: Seq<FileSync>,
    inputs: Seq<SyncInput>,
    actions: Seq<SyncAction>,
)
    requires
        is_run(states, inputs, actions),
        nothing_new(inputs),
        states[0].uploaded == 0,
        !states[0].recreate,
    ensures
        forall|k: int|
            0 <= k < actions.len() ==> match #[trigger] actions[k] {
                SyncAction::Upload { force, .. } => !force,
                SyncAction::Finish(Ok(n)) => n == 0,
                _ => true,
            },
{
    assert forall|k: int| 0 <= k < actions.len() implies match #[trigger] actions[k] {
        SyncAction::Upload { force, .. } => !force,
        SyncAction::Finish(Ok(n)) => n == 0,
        _ => true,
    } by {
        lemma_quiet_run_counts_nothing(states, inputs, actions, k);
        lemma_quiet_run_counts_nothing(states, inputs, actions, k + 1);
        assert(states[k].moves(inputs[k], states[k + 1], actions[k]));
        assert(match inputs[k] {
            SyncInput::Written { existed } => existed,
            SyncInput::Uploaded(sent) => !sent,
            _ => true,
        });
    }
}

} // verus!
