use ai_buddy::bundle::SourceFile;
use ai_buddy::conv::{ConvAction, ConvInput, ConvLoader};
use ai_buddy::event::{AisEvent, BuddyEvent, Event};
use ai_buddy::files::OrgFile;
use ai_buddy::resolve::{AsstEntry, ResolveAction, ResolveInput, Resolver};
use ai_buddy::sync::{FileBundle, FileSync, SyncAction, SyncInput};
use ai_buddy::types::{AsstId, CreateConfig, FileId, ThreadId};
use ai_buddy::upload::{FileUpload, UploadAction, UploadInput};

/// A stand-in for the remote service and the profile's local disk.
#[derive(Default)]
struct World {
    assistants: Vec<(String, String)>,
    org_files: Vec<(String, String)>,
    attached: Vec<(String, String)>,
    threads: Vec<String>,
    conv_file: Option<String>,
    artifacts: Vec<String>,
    next_id: u32,
    creates: u32,
    uploads: u32,
}

impl World {
    fn fresh_id(&mut self, prefix: &str) -> String {
        self.next_id += 1;
        format!("{}_{}", prefix, self.next_id)
    }

    fn org_listing(&self, asst: &str) -> (Vec<String>, Vec<OrgFile>) {
        let attached = self.attached.iter().filter(|(a, _)| a == asst).map(|(_, f)| f.clone()).collect();
        let org = self.org_files.iter().map(|(id, n)| OrgFile { id: id.clone(), filename: n.clone() }).collect();
        (attached, org)
    }

    fn resolve(&mut self, name: &str, model: &str, recreate: bool, events: &mut Vec<Event>) -> AsstId {
        let (mut r, mut action) = Resolver::new(CreateConfig { name: name.to_string(), model: model.to_string() }, recreate);
        loop {
            let input = match action {
                ResolveAction::ListAssistants => ResolveInput::Listed(
                    self.assistants.iter().map(|(id, n)| AsstEntry { id: id.clone(), name: Some(n.clone()) }).collect(),
                ),
                ResolveAction::ListFiles(id) => {
                    let (attached, org_files) = self.org_listing(&id.0);
                    ResolveInput::FilesListed { attached, org_files }
                },
                ResolveAction::DeleteOrgFile(id) => {
                    self.org_files.retain(|(f, _)| *f != id.0);
                    ResolveInput::FileDeleted(Ok(()))
                },
                ResolveAction::DeleteAssistant(id) => {
                    self.assistants.retain(|(a, _)| *a != id.0);
                    ResolveInput::AsstDeleted
                },
                ResolveAction::CreateAssistant(c) => {
                    self.creates += 1;
                    let id = self.fresh_id("asst");
                    self.assistants.push((id.clone(), c.name));
                    ResolveInput::Created(AsstId(id))
                },
                ResolveAction::Finish(id) => return id,
            };
            let step = r.step(input);
            events.extend(step.events);
            action = step.action;
        }
    }

    fn load_conv(&mut self, recreate: bool, events: &mut Vec<Event>) -> String {
        let (mut c, mut action) = ConvLoader::new(recreate);
        loop {
            let input = match action {
                ConvAction::DiscardSaved => {
                    self.conv_file = None;
                    ConvInput::Discarded
                },
                ConvAction::LoadSaved => ConvInput::Loaded(Ok(self.conv_file.clone().map(ThreadId))),
                ConvAction::CheckThread(t) => {
                    ConvInput::ThreadChecked(if self.threads.contains(&t.0) { Ok(()) } else { Err("no such thread".to_string()) })
                },
                ConvAction::CreateThread => {
                    let t = self.fresh_id("thread");
                    self.threads.push(t.clone());
                    ConvInput::Created(ThreadId(t))
                },
                ConvAction::SaveConv(t) => {
                    self.conv_file = Some(t.0);
                    ConvInput::Saved
                },
                ConvAction::Finish(res) => return res.expect("conversation").thread_id.0,
            };
            let step = c.step(input);
            events.extend(step.events);
            action = step.action;
        }
    }

    fn upload(&mut self, asst: &AsstId, file_name: String, force: bool, events: &mut Vec<Event>) -> bool {
        let (mut u, mut action) = FileUpload::new(asst.clone(), file_name, force);
        let mut last_upload = String::new();
        loop {
            let input = match action {
                UploadAction::ListFiles(id) => {
                    let (attached, org_files) = self.org_listing(&id.0);
                    UploadInput::FilesListed { attached, org_files }
                },
                UploadAction::DeleteOrgFile(id) => {
                    self.org_files.retain(|(f, _)| *f != id.0);
                    UploadInput::OldDeleted(Ok(()))
                },
                UploadAction::DetachFile { asst_id, file_id } => {
                    self.attached.retain(|(a, f)| !(*a == asst_id.0 && *f == file_id.0));
                    UploadInput::OldDetached(Ok(()))
                },
                UploadAction::UploadFile(name) => {
                    self.uploads += 1;
                    last_upload = self.fresh_id("file");
                    self.org_files.push((last_upload.clone(), name));
                    UploadInput::Uploaded(FileId(last_upload.clone()))
                },
                UploadAction::AttachFile { asst_id, file_id } => {
                    self.attached.push((asst_id.0, file_id.0.clone()));
                    UploadInput::Attached(file_id)
                },
                UploadAction::Finish(res) => return res.expect("upload").1,
            };
            let step = u.step(input);
            events.extend(step.events);
            action = step.action;
        }
    }

    fn upload_files(&mut self, profile: &str, asst: &AsstId, recreate: bool, events: &mut Vec<Event>) -> u32 {
        let bundles = vec![FileBundle {
            bundle_name: "docs".to_string(),
            src_dir: "docs".to_string(),
            src_globs: vec!["*.md".to_string()],
            dst_ext: "md".to_string(),
        }];
        let (mut s, mut action) =
            FileSync::new(profile.to_string(), asst.clone(), "helper/.buddy/files".to_string(), bundles, recreate);
        loop {
            let input = match action {
                SyncAction::ListStale(id) => SyncInput::StaleListed(
                    self.artifacts.iter().filter(|a| !a.contains(&id.0)).map(|a| format!("helper/.buddy/files/{}", a)).collect(),
                ),
                SyncAction::RemoveFiles(paths) => {
                    self.artifacts.retain(|a| !paths.contains(&format!("helper/.buddy/files/{}", a)));
                    SyncInput::Removed
                },
                SyncAction::ListSources(_) => SyncInput::Sources(Some(vec![SourceFile {
                    path: "docs/guide.md".to_string(),
                    lines: vec!["# Guide".to_string()],
                }])),
                SyncAction::WriteBundle { file_name, .. } => {
                    let existed = self.artifacts.contains(&file_name);
                    if !existed {
                        self.artifacts.push(file_name);
                    }
                    SyncInput::Written { existed }
                },
                SyncAction::Upload { file_name, force } => SyncInput::Uploaded(self.upload(asst, file_name, force, events)),
                SyncAction::Finish(res) => return res.expect("sync"),
            };
            let step = s.step(input);
            events.extend(step.events);
            action = step.action;
        }
    }
}

fn count(events: &[Event], f: impl Fn(&Event) -> bool) -> usize {
    events.iter().filter(|e| f(e)).count()
}

#[test]
fn end_to_end_first_and_second_run() {
    let mut world = World::default();

    // First run: nothing exists remotely or locally.
    let mut events: Vec<Event> = Vec::new();
    let asst = world.resolve("helper", "m1", false, &mut events);
    let thread = world.load_conv(false, &mut events);
    let uploaded = world.upload_files("helper", &asst, false, &mut events);
    assert_eq!(world.creates, 1);
    assert_eq!(count(&events, |e| matches!(e, Event::Ais(AisEvent::AsstCreated(a)) if a.name == "helper")), 1);
    assert_eq!(count(&events, |e| matches!(e, Event::Buddy(BuddyEvent::ConvCreated))), 1);
    assert_eq!(world.artifacts, vec![format!("helper-docs-bundle-{}.md", asst.0)]);
    assert_eq!(count(&events, |e| matches!(e, Event::Ais(AisEvent::OrgFileUploaded(f)) if f.name == format!("helper-docs-bundle-{}.md", asst.0))), 1);
    assert_eq!(uploaded, 1);

    // Second run: nothing changed, no recreate.
    let mut events: Vec<Event> = Vec::new();
    let again = world.resolve("helper", "m1", false, &mut events);
    let thread_again = world.load_conv(false, &mut events);
    let uploaded = world.upload_files("helper", &again, false, &mut events);
    assert_eq!(again.0, asst.0);
    assert_eq!(thread_again, thread);
    assert_eq!(world.creates, 1);
    assert_eq!(count(&events, |e| matches!(e, Event::Ais(AisEvent::AsstLoaded(_)))), 1);
    assert_eq!(count(&events, |e| matches!(e, Event::Buddy(BuddyEvent::ConvLoaded))), 1);
    assert_eq!(count(&events, |e| matches!(e, Event::Ais(AisEvent::OrgFileUploaded(_)))), 0);
    assert_eq!(uploaded, 0);
    assert_eq!(world.uploads, 1);
}

#[test]
fn repeated_uploads_send_the_artifact_once() {
    let mut world = World::default();
    let mut events: Vec<Event> = Vec::new();
    let asst = world.resolve("helper", "m1", false, &mut events);
    for _ in 0..3 {
        world.upload_files("helper", &asst, false, &mut events);
    }
    assert_eq!(world.uploads, 1);
    assert_eq!(count(&events, |e| matches!(e, Event::Ais(AisEvent::OrgFileUploaded(_)))), 1);
}

#[test]
fn recreate_renames_artifacts_and_cleans_stale_ones() {
    let mut world = World::default();
    let mut events: Vec<Event> = Vec::new();
    let first = world.resolve("helper", "m1", false, &mut events);
    world.upload_files("helper", &first, false, &mut events);
    let second = world.resolve("helper", "m1", true, &mut events);
    assert_ne!(first.0, second.0);
    assert_eq!(count(&events, |e| matches!(e, Event::Ais(AisEvent::AsstDeleted(a)) if a.id.0 == first.0)), 1);
    assert_eq!(count(&events, |e| matches!(e, Event::Ais(AisEvent::OrgFileDeleted(_)))), 1);
    let uploaded = world.upload_files("helper", &second, true, &mut events);
    assert_eq!(uploaded, 1);
    assert_eq!(world.artifacts, vec![format!("helper-docs-bundle-{}.md", second.0)]);
}

#[test]
fn lost_thread_is_reported_not_replaced() {
    let mut world = World::default();
    let mut events: Vec<Event> = Vec::new();
    world.load_conv(false, &mut events);
    world.threads.clear();
    let (mut c, action) = ConvLoader::new(false);
    assert!(matches!(action, ConvAction::LoadSaved));
    let step = c.step(ConvInput::Loaded(Ok(world.conv_file.clone().map(ThreadId))));
    let ConvAction::CheckThread(t) = step.action else { panic!("expected a check") };
    let step = c.step(ConvInput::ThreadChecked(if world.threads.contains(&t.0) { Ok(()) } else { Err("gone".to_string()) }));
    assert!(matches!(step.action, ConvAction::Finish(Err(_))));
    assert!(world.threads.is_empty());
}
