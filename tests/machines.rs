use ai_buddy::conv::{ConvAction, ConvInput, ConvLoader, ConvStage};
use ai_buddy::error::{Error, RunStatus};
use ai_buddy::event::{AisEvent, BuddyEvent, Event};
use ai_buddy::files::{get_files_hashmap, OrgFile};
use ai_buddy::instructions::{InstAction, InstInput, InstUpload};
use ai_buddy::msg::{get_first_thread_msg_content, get_text_content, MessageContent};
use ai_buddy::resolve::{first_by_name, AsstEntry, ResolveAction, ResolveInput, ResolveStage, Resolver};
use ai_buddy::run::{RunAction, RunInput, RunStage, RunTurn, POLLING_DURATION_MS};
use ai_buddy::types::{AsstId, CreateConfig, FileId, ThreadId};
use ai_buddy::upload::{FileUpload, UploadAction, UploadInput, UploadStage};

fn entry(id: &str, name: Option<&str>) -> AsstEntry {
    AsstEntry { id: id.to_string(), name: name.map(|n| n.to_string()) }
}

fn org(id: &str, filename: &str) -> OrgFile {
    OrgFile { id: id.to_string(), filename: filename.to_string() }
}

fn config(name: &str, model: &str) -> CreateConfig {
    CreateConfig { name: name.to_string(), model: model.to_string() }
}

fn asst_loaded_name(e: &Event) -> Option<(String, String)> {
    match e {
        Event::Ais(AisEvent::AsstLoaded(r)) => Some((r.name.clone(), r.id.0.clone())),
        _ => None,
    }
}

#[test]
fn first_by_name_takes_first_of_duplicates() {
    let list = vec![entry("a0", None), entry("a1", Some("other")), entry("a2", Some("helper")), entry("a3", Some("helper"))];
    assert_eq!(first_by_name(&list, "helper").map(|i| i.0), Some("a2".to_string()));
    assert!(first_by_name(&list, "nobody").is_none());
    assert!(first_by_name(&Vec::new(), "helper").is_none());
}

#[test]
fn resolve_twice_without_recreate_loads_and_never_creates() {
    for _ in 0..2 {
        let (mut r, first) = Resolver::new(config("helper", "m1"), false);
        assert!(matches!(first, ResolveAction::ListAssistants));
        let input = ResolveInput::Listed(vec![entry("asst_1", Some("helper"))]);
        assert!(r.expects(&input));
        let step = r.step(input);
        assert_eq!(step.events.len(), 1);
        assert_eq!(asst_loaded_name(&step.events[0]), Some(("helper".to_string(), "asst_1".to_string())));
        assert!(matches!(step.action, ResolveAction::Finish(ref id) if id.0 == "asst_1"));
        assert!(matches!(r.stage, ResolveStage::Done));
        assert!(!r.expects(&ResolveInput::Created(AsstId("x".to_string()))));
    }
}

#[test]
fn resolve_creates_when_missing() {
    let (mut r, _) = Resolver::new(config("helper", "m1"), false);
    let step = r.step(ResolveInput::Listed(vec![entry("asst_9", Some("other"))]));
    assert!(step.events.is_empty());
    match step.action {
        ResolveAction::CreateAssistant(c) => {
            assert_eq!(c.name, "helper");
            assert_eq!(c.model, "m1");
        },
        other => panic!("unexpected {:?}", other),
    }
    let step = r.step(ResolveInput::Created(AsstId("asst_new".to_string())));
    assert!(matches!(&step.events[..], [Event::Ais(AisEvent::AsstCreated(a))] if a.name == "helper" && a.id.0 == "asst_new"));
    assert!(matches!(step.action, ResolveAction::Finish(ref id) if id.0 == "asst_new"));
}

#[test]
fn recreate_deletes_every_file_despite_failures_then_creates() {
    let (mut r, _) = Resolver::new(config("helper", "m1"), true);
    let step = r.step(ResolveInput::Listed(vec![entry("asst_old", Some("helper"))]));
    assert!(matches!(step.action, ResolveAction::ListFiles(ref id) if id.0 == "asst_old"));
    let step = r.step(ResolveInput::FilesListed {
        attached: vec!["f1".to_string(), "f2".to_string(), "f3".to_string()],
        org_files: vec![org("f1", "a.md"), org("f2", "b.md"), org("f3", "c.md"), org("f4", "d.md")],
    });
    let mut deleted: Vec<String> = Vec::new();
    let mut action = step.action;
    let mut outcomes = vec![Err("gone".to_string()), Ok(()), Err("denied".to_string())].into_iter();
    let mut events: Vec<Event> = Vec::new();
    while let ResolveAction::DeleteOrgFile(id) = action {
        deleted.push(id.0.clone());
        let step = r.step(ResolveInput::FileDeleted(outcomes.next().unwrap()));
        events.extend(step.events);
        action = step.action;
    }
    deleted.sort();
    assert_eq!(deleted, vec!["f1".to_string(), "f2".to_string(), "f3".to_string()]);
    let cant = events.iter().filter(|e| matches!(e, Event::Ais(AisEvent::OrgFileCantDelete { .. }))).count();
    let ok = events.iter().filter(|e| matches!(e, Event::Ais(AisEvent::OrgFileDeleted(_)))).count();
    assert_eq!((cant, ok), (2, 1));
    assert!(matches!(action, ResolveAction::DeleteAssistant(ref id) if id.0 == "asst_old"));
    let step = r.step(ResolveInput::AsstDeleted);
    assert!(matches!(&step.events[..], [Event::Ais(AisEvent::AsstDeleted(a))] if a.id.0 == "asst_old"));
    assert!(matches!(step.action, ResolveAction::CreateAssistant(_)));
    let step = r.step(ResolveInput::Created(AsstId("asst_new".to_string())));
    assert!(matches!(step.action, ResolveAction::Finish(ref id) if id.0 == "asst_new"));
}

#[test]
fn recreate_with_no_files_deletes_assistant_directly() {
    let (mut r, _) = Resolver::new(config("helper", "m1"), true);
    r.step(ResolveInput::Listed(vec![entry("asst_old", Some("helper"))]));
    let step = r.step(ResolveInput::FilesListed { attached: vec![], org_files: vec![org("f1", "a.md")] });
    assert!(matches!(step.action, ResolveAction::DeleteAssistant(ref id) if id.0 == "asst_old"));
}

#[test]
fn file_map_joins_listings_and_last_name_wins() {
    let attached = vec!["f1".to_string(), "f3".to_string(), "f4".to_string()];
    let org_files = vec![org("f1", "a.md"), org("f2", "b.md"), org("f3", "a.md"), org("f4", "c.md")];
    let mut map: Vec<(String, String)> =
        get_files_hashmap(&attached, &org_files).into_iter().map(|r| (r.name, r.id.0)).collect();
    map.sort();
    assert_eq!(map, vec![("a.md".to_string(), "f3".to_string()), ("c.md".to_string(), "f4".to_string())]);
    assert!(get_files_hashmap(&vec![], &org_files).is_empty());
}

#[test]
fn upload_without_force_keeps_known_file() {
    let (mut u, first) = FileUpload::new(AsstId("asst_1".to_string()), "docs.md".to_string(), false);
    assert!(matches!(first, UploadAction::ListFiles(ref id) if id.0 == "asst_1"));
    let step = u.step(UploadInput::FilesListed { attached: vec!["f1".to_string()], org_files: vec![org("f1", "docs.md")] });
    assert!(step.events.is_empty());
    assert!(matches!(step.action, UploadAction::Finish(Ok((ref id, false))) if id.0 == "f1"));
    assert!(matches!(u.stage, UploadStage::Done));
}

#[test]
fn upload_new_file_sends_once() {
    let (mut u, _) = FileUpload::new(AsstId("asst_1".to_string()), "docs.md".to_string(), false);
    let step = u.step(UploadInput::FilesListed { attached: vec!["f1".to_string()], org_files: vec![org("f1", "other.md")] });
    assert!(matches!(&step.events[..], [Event::Ais(AisEvent::OrgFileUploading { file_name })] if file_name == "docs.md"));
    assert!(matches!(step.action, UploadAction::UploadFile(ref n) if n == "docs.md"));
    let step = u.step(UploadInput::Uploaded(FileId("f9".to_string())));
    assert!(matches!(&step.events[..], [Event::Ais(AisEvent::OrgFileUploaded(f))] if f.name == "docs.md" && f.id.0 == "f9"));
    assert!(matches!(step.action, UploadAction::AttachFile { ref asst_id, ref file_id } if asst_id.0 == "asst_1" && file_id.0 == "f9"));
    let step = u.step(UploadInput::Attached(FileId("f9".to_string())));
    assert!(step.events.is_empty());
    assert!(matches!(step.action, UploadAction::Finish(Ok((ref id, true))) if id.0 == "f9"));
}

#[test]
fn forced_upload_replaces_old_file_and_tolerates_cleanup_failures() {
    let (mut u, _) = FileUpload::new(AsstId("asst_1".to_string()), "docs.md".to_string(), true);
    let step = u.step(UploadInput::FilesListed { attached: vec!["f1".to_string()], org_files: vec![org("f1", "docs.md")] });
    assert!(matches!(step.action, UploadAction::DeleteOrgFile(ref id) if id.0 == "f1"));
    let step = u.step(UploadInput::OldDeleted(Err("boom".to_string())));
    assert!(matches!(&step.events[..], [Event::Ais(AisEvent::OrgFileCantDelete { file_ref, cause })] if file_ref.id.0 == "f1" && cause == "boom"));
    assert!(matches!(step.action, UploadAction::DetachFile { ref file_id, .. } if file_id.0 == "f1"));
    let step = u.step(UploadInput::OldDetached(Err("nope".to_string())));
    assert_eq!(step.events.len(), 2);
    assert!(matches!(&step.events[0], Event::Ais(AisEvent::AsstFileCantRemove { file_id, cause, .. }) if file_id.0 == "f1" && cause == "nope"));
    assert!(matches!(&step.events[1], Event::Ais(AisEvent::OrgFileUploading { .. })));
    assert!(matches!(step.action, UploadAction::UploadFile(_)));
}

#[test]
fn mismatched_attachment_id_is_an_error() {
    let (mut u, _) = FileUpload::new(AsstId("asst_1".to_string()), "docs.md".to_string(), false);
    u.step(UploadInput::FilesListed { attached: vec![], org_files: vec![] });
    u.step(UploadInput::Uploaded(FileId("f9".to_string())));
    let step = u.step(UploadInput::Attached(FileId("f8".to_string())));
    assert!(matches!(step.action, UploadAction::Finish(Err(Error::FileIdMismatch { ref uploaded, ref attached }))
        if uploaded.0 == "f9" && attached.0 == "f8"));
}

#[test]
fn stale_conversation_fails_instead_of_creating() {
    let (mut c, first) = ConvLoader::new(false);
    assert!(matches!(first, ConvAction::LoadSaved));
    let step = c.step(ConvInput::Loaded(Ok(Some(ThreadId("th_1".to_string())))));
    assert!(matches!(step.action, ConvAction::CheckThread(ref t) if t.0 == "th_1"));
    let step = c.step(ConvInput::ThreadChecked(Err("404".to_string())));
    assert!(step.events.is_empty());
    assert!(matches!(step.action, ConvAction::Finish(Err(Error::CannotFindThreadIdForConv(ref t))) if t == "th_1"));
    assert!(!c.expects(&ConvInput::Created(ThreadId("th_2".to_string()))));
}

#[test]
fn conversation_loaded_when_thread_exists() {
    let (mut c, _) = ConvLoader::new(false);
    c.step(ConvInput::Loaded(Ok(Some(ThreadId("th_1".to_string())))));
    let step = c.step(ConvInput::ThreadChecked(Ok(())));
    assert!(matches!(&step.events[..], [Event::Buddy(BuddyEvent::ConvLoaded)]));
    assert!(matches!(step.action, ConvAction::Finish(Ok(ref conv)) if conv.thread_id.0 == "th_1"));
}

#[test]
fn recreate_discards_then_creates_and_saves() {
    let (mut c, first) = ConvLoader::new(true);
    assert!(matches!(first, ConvAction::DiscardSaved));
    let step = c.step(ConvInput::Discarded);
    assert!(matches!(step.action, ConvAction::LoadSaved));
    let step = c.step(ConvInput::Loaded(Ok(None)));
    assert!(matches!(step.action, ConvAction::CreateThread));
    let step = c.step(ConvInput::Created(ThreadId("th_2".to_string())));
    assert!(step.events.is_empty());
    assert!(matches!(step.action, ConvAction::SaveConv(ref t) if t.0 == "th_2"));
    let step = c.step(ConvInput::Saved);
    assert!(matches!(&step.events[..], [Event::Buddy(BuddyEvent::ConvCreated)]));
    assert!(matches!(step.action, ConvAction::Finish(Ok(ref conv)) if conv.thread_id.0 == "th_2"));
    assert!(matches!(c.stage, ConvStage::Done));
}

fn started_turn(max_polls: Option<u64>) -> RunTurn {
    let (mut t, first) = RunTurn::new(AsstId("asst_1".to_string()), ThreadId("th_1".to_string()), "hello".to_string(), max_polls);
    assert!(matches!(first, RunAction::PostMessage { ref thread_id, ref text } if thread_id.0 == "th_1" && text == "hello"));
    let step = t.step(RunInput::MessagePosted);
    assert!(matches!(step.action, RunAction::StartRun { ref thread_id, ref asst_id } if thread_id.0 == "th_1" && asst_id.0 == "asst_1"));
    let step = t.step(RunInput::RunStarted("run_1".to_string()));
    assert!(matches!(step.action, RunAction::PollRun { ref run_id, .. } if run_id == "run_1"));
    t
}

#[test]
fn completed_run_returns_newest_text() {
    let mut t = started_turn(None);
    let step = t.step(RunInput::Polled(RunStatus::Queued));
    assert!(matches!(step.action, RunAction::Wait(ms) if ms == POLLING_DURATION_MS));
    assert_eq!(POLLING_DURATION_MS, 500);
    let step = t.step(RunInput::Waited);
    assert!(matches!(step.action, RunAction::PollRun { .. }));
    let step = t.step(RunInput::Polled(RunStatus::InProgress));
    assert!(matches!(step.action, RunAction::Wait(500)));
    t.step(RunInput::Waited);
    let step = t.step(RunInput::Polled(RunStatus::Completed));
    assert!(matches!(step.action, RunAction::FetchLatestMessage(ref th) if th.0 == "th_1"));
    let step = t.step(RunInput::Messages(vec![vec![MessageContent::Text("hi there".to_string())]]));
    assert!(matches!(step.action, RunAction::Finish(Ok(ref s)) if s == "hi there"));
    assert!(matches!(t.stage, RunStage::Done));
}

#[test]
fn failed_run_carries_status_and_reads_nothing() {
    for status in [RunStatus::Failed, RunStatus::Cancelled, RunStatus::Expired, RunStatus::RequiresAction] {
        let mut t = started_turn(None);
        let step = t.step(RunInput::Polled(status));
        assert!(matches!(step.action, RunAction::Finish(Err(Error::RunError(s))) if s == status));
        assert!(!t.expects(&RunInput::Messages(vec![])));
    }
}

#[test]
fn reply_extraction_errors() {
    assert!(matches!(get_first_thread_msg_content(vec![]), Err(Error::NoMessageFoundInMessages)));
    assert!(matches!(get_first_thread_msg_content(vec![vec![]]), Err(Error::NoMessageInMessageObjectContent)));
    assert!(matches!(get_text_content(vec![MessageContent::ImageFile("file_1".to_string())]), Err(Error::MessageImageNotSupported)));
    assert!(matches!(get_text_content(vec![MessageContent::ImageUrl("u".to_string()), MessageContent::Text("t".to_string())]), Err(Error::MessageImageNotSupported)));
    assert!(matches!(get_text_content(vec![MessageContent::Text("first".to_string()), MessageContent::Text("second".to_string())]), Ok(ref s) if s == "first"));
    assert!(matches!(get_text_content(vec![MessageContent::Refusal("I can't help with that.".to_string())]), Ok(ref s) if s == "I can't help with that."));
}

#[test]
fn bounded_polling_gives_up_on_pending_run() {
    let mut t = started_turn(Some(3));
    let step = t.step(RunInput::Polled(RunStatus::Queued));
    assert!(matches!(step.action, RunAction::Wait(500)));
    t.step(RunInput::Waited);
    let step = t.step(RunInput::Polled(RunStatus::InProgress));
    assert!(matches!(step.action, RunAction::Wait(500)));
    t.step(RunInput::Waited);
    let step = t.step(RunInput::Polled(RunStatus::InProgress));
    assert!(matches!(step.action, RunAction::Finish(Err(Error::RunStillPending(RunStatus::InProgress)))));
    assert!(matches!(t.stage, RunStage::Done));
}

#[test]
fn bounded_polling_still_reads_completed_run() {
    let mut t = started_turn(Some(1));
    let step = t.step(RunInput::Polled(RunStatus::Completed));
    assert!(matches!(step.action, RunAction::FetchLatestMessage(_)));
}

#[test]
fn unbounded_polling_keeps_waiting() {
    let mut t = started_turn(None);
    for _ in 0..50 {
        let step = t.step(RunInput::Polled(RunStatus::Queued));
        assert!(matches!(step.action, RunAction::Wait(500)));
        t.step(RunInput::Waited);
    }
    assert_eq!(t.polls, 0);
}

#[test]
fn unreadable_state_file_is_an_error() {
    let (mut c, _) = ConvLoader::new(false);
    let step = c.step(ConvInput::Loaded(Err("expected value at line 1".to_string())));
    assert!(step.events.is_empty());
    assert!(matches!(step.action, ConvAction::Finish(Err(Error::UnreadableConvFile(ref m))) if m == "expected value at line 1"));
    assert!(!c.expects(&ConvInput::Created(ThreadId("th_2".to_string()))));
    assert!(!c.expects(&ConvInput::Saved));
}

#[test]
fn instructions_uploaded_when_file_exists() {
    let (mut u, first) = InstUpload::new(AsstId("asst_1".to_string()));
    assert!(matches!(first, InstAction::ReadInstructions));
    let step = u.step(InstInput::Read(Some("Be brief.".to_string())));
    assert!(step.events.is_empty());
    assert!(matches!(step.action, InstAction::UploadInstructions { ref asst_id, ref text } if asst_id.0 == "asst_1" && text == "Be brief."));
    let step = u.step(InstInput::Uploaded);
    assert!(matches!(&step.events[..], [Event::Buddy(BuddyEvent::InstUploaded)]));
    assert!(matches!(step.action, InstAction::Finish(true)));
}

#[test]
fn instructions_skipped_without_file() {
    let (mut u, _) = InstUpload::new(AsstId("asst_1".to_string()));
    let step = u.step(InstInput::Read(None));
    assert!(step.events.is_empty());
    assert!(matches!(step.action, InstAction::Finish(false)));
    assert!(!u.expects(&InstInput::Uploaded));
}
