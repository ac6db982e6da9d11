use lianli_control::command::{Output, Ran, Read, Run, RunStep};
use lianli_control::destination::Destination;
use lianli_control::files::{FileKind, Metadata};
use lianli_control::media_decoding;
use lianli_control::media_decoding::{
    check_decoder, decoder_arguments, CheckStep, Checking,
};
use lianli_control::media_import::{import_path, Publish, PublishStep, PublishedSelection};
use lianli_control::media_import_job;
use lianli_control::media_import_job::{Found, Job, JobStep, Status};
use lianli_control::media_import_transfer::{
    selection_message, Arrival, ArrivalStep, Message, ReceiveStep, Receiver, SendStep, Sender,
};
use lianli_control::media_import_worker::{Start, StartStep, Work, WorkStep};
use lianli_control::media_ownership;
use lianli_control::media_ownership::{
    CatalogDirectoryReview, CatalogReviewedFile, Receipt, ReceiptFile, ReviewStep, Reviewing,
    Standing,
};
use lianli_control::media_preparation::{Decode, DecodeStep, Prepare, PrepareStep};
use lianli_control::media_publication::{
    open_directory, MediaPublication, PlaceStep, Placement, Presence, Usage, MAX_STORE_BYTES,
};
use lianli_control::media_removal::Journal;
use lianli_control::media_removal_record::{
    verify_remaining, Pending, RecordFile, RecordStep, Recording, Remaining, RemainingEntry,
};
use lianli_control::media_staging::{AddStep, CopyControl, Linked, MediaStaging};
use lianli_control::media_validation::{
    ensure_decodable, AssetAccessReport, AssetDependency, AssetKind,
};
use lianli_control::operation_job::{
    JobStatus, Submission, SubmitStep, Worker, WorkerStep,
};
use lianli_control::recovery_trigger::{query_arguments, submit_arguments};
use lianli_control::reservation::{Attempt, Held, Reservation, ReserveStep};
use lianli_control::runtime_health::{collect_report, Report};
use lianli_control::services::{
    FileIdentity, InstallationContext, ServiceAction, ServiceActionRequest, ServiceScope,
};

const ID: &str = "1234567890abcdef1234567890abcdef";

fn metadata(kind: FileKind, mode: u32, ino: u64, len: u64) -> Metadata {
    Metadata {
        kind,
        uid: 1000,
        gid: 1000,
        mode,
        dev: 1,
        ino,
        len,
        nlink: 1,
        mtime: 10,
        mtime_nsec: 20,
        ctime: 30,
        ctime_nsec: 40,
    }
}

fn file(ino: u64, len: u64) -> Metadata {
    metadata(FileKind::File, 0o600, ino, len)
}

fn directory(mode: u32) -> Metadata {
    metadata(FileKind::Directory, mode, 3, 0)
}

fn output(code: i32, stdout: &str, stderr: &str) -> Output {
    Output {
        code: Some(code),
        status: format!("exit status: {code}"),
        stdout: stdout.to_string(),
        stderr: stderr.to_string(),
    }
}

fn selected() -> PublishedSelection {
    PublishedSelection {
        import_id: ID.to_string(),
        lcds: vec![],
        templates: vec![],
        destination: None,
    }
}

fn ran(run: Result<Run, String>, code: i32, stderr: &str) -> Result<Ran, String> {
    let mut run = run?;
    let mut told = false;
    while run.step != RunStep::Complete && run.step != RunStep::Failed {
        match run.step {
            RunStep::CheckTime => run.tick(false, 0),
            RunStep::ReadOutput => run.read_output(Read::End),
            RunStep::ReadErrors => {
                run.read_errors(if told {
                    Read::End
                } else {
                    Read::Bytes(stderr.as_bytes().to_vec())
                });
                told = true;
            }
            RunStep::CheckExit => run.exited(true),
            RunStep::Finish => run.finished(Some(code)),
            _ => run.waited(),
        }
    }
    Ok(Ran { run, status: format!("exit status: {code}") })
}

fn dependency(path: &str, kind: AssetKind) -> AssetDependency {
    AssetDependency { path: path.to_string(), owner: "LCD".to_string(), kind }
}

fn control() -> CopyControl {
    CopyControl::new(5_000)
}

fn prepared(bytes: &[u8], after: &Metadata) -> Prepare {
    let meta = file(5, 4);
    let mut copies = control();
    let mut prepare = Prepare::begin("/destination/media");
    prepare.control(&control(), 0);
    prepare.collected(Ok(vec![dependency("/a.png", AssetKind::Image)]));
    prepare.stage(&Ok(directory(0o755)), 1000);
    prepare.control(&control(), 0);
    let mut adding = prepare.opened(&Ok(())).unwrap();
    let mut rest = bytes;
    while adding.step != AddStep::Added && adding.step != AddStep::Failed {
        match adding.step {
            AddStep::Inspect => adding.inspected(&meta),
            AddStep::CreateTemporary => adding.created(),
            AddStep::Read => {
                adding.bytes(rest);
                rest = b"";
            }
            AddStep::Write => adding.written(&mut copies),
            AddStep::Reread => adding.reread(after),
            AddStep::SyncTemporary => adding.synced(),
            AddStep::Keep => adding.kept(),
            AddStep::Link => adding.linked(&Linked::Done),
            AddStep::CheckLinked => adding.confirm(&copies, 0),
            _ => adding.control(&copies, 0),
        }
    }
    prepare.added(adding);
    prepare
}

fn staged() -> MediaStaging {
    let mut prepare = prepared(b"1234", &file(5, 4));
    while prepare.step != PrepareStep::Prepared {
        match prepare.step {
            PrepareStep::Sync => prepare.synced(),
            PrepareStep::Failed => panic!("{}", prepare.error),
            _ => prepare.control(&control(), 0),
        }
    }
    prepare.prepared().unwrap()
}

#[test]
fn selections_are_prepared_as_a_whole() {
    let media = staged();
    assert_eq!(media.unique_files(), 1);
    assert!(media.path_of("/a.png").unwrap().starts_with("/destination/media/"));
    let changed = prepared(b"1234", &file(6, 4));
    assert_eq!(changed.step, PrepareStep::Failed);
    assert_eq!(changed.error, "/a.png changed while being copied");
    let mut stopped = control();
    stopped.cancel();
    let mut prepare = Prepare::begin("/destination/media");
    prepare.control(&stopped, 0);
    assert_eq!(prepare.step, PrepareStep::Failed);
    let mut open = Prepare::begin("/destination/media");
    open.control(&control(), 0);
    open.collected(Ok(vec![]));
    open.stage(&Ok(directory(0o777)), 1000);
    assert_eq!(open.step, PrepareStep::Failed);
}

#[test]
fn prepared_selections_are_decoded_unchanged() {
    let media = staged();
    let place = media.path_of("/a.png").unwrap();
    let begin = || {
        let mut decode = Decode::begin();
        decode.control(&control(), 0);
        decode.collected(&media, "/stage", &vec![dependency(&place, AssetKind::Image)]);
        decode.before("one");
        decode.decoded();
        decode.control(&control(), 0);
        decode
    };
    let mut same = begin();
    assert!(same.dependencies[0].path.starts_with("/stage/"));
    same.after("one");
    assert_eq!(same.step, DecodeStep::Validated, "{}", same.error);
    let mut other = begin();
    other.after("two");
    assert_eq!(other.step, DecodeStep::Failed);
}

#[test]
fn files_are_decoded_once_and_looked_at_again() {
    assert!(media_decoding::check_account(true).is_err());
    assert_eq!(
        decoder_arguments(AssetKind::Image, "/a/b.png"),
        vec!["check-media-decode", "--kind", "image", "--extension", "png"]
    );
    assert_eq!(
        decoder_arguments(AssetKind::Font, "/a/b.ttf"),
        vec!["check-media-decode", "--kind", "font"]
    );
    assert!(check_decoder(&Ok(output(0, "", ""))).is_ok());
    assert!(check_decoder(&Ok(output(1, "", "bad image"))).unwrap_err().contains("bad image"));
    let all = || {
        vec![dependency("/a.png", AssetKind::Image), dependency("/a.png", AssetKind::Image)]
    };
    let drive = |again: Metadata, last: Metadata| {
        let mut checking = Checking::begin(1000, all()).unwrap();
        let mut decoded = 0;
        while checking.step != CheckStep::Checked && checking.step != CheckStep::Failed {
            match checking.step {
                CheckStep::ReadClock => checking.clock(0),
                CheckStep::Open => checking.opened(&Ok(file(5, 4))),
                CheckStep::Decode => {
                    decoded += 1;
                    checking.decoded(Ok(()));
                }
                CheckStep::Reexamine => checking.reexamined(&Ok(file(5, 4)), &Ok(again)),
                _ => checking.confirm(&Ok(last), 0),
            }
        }
        (checking, decoded)
    };
    let (good, decoded) = drive(file(5, 4), file(5, 4));
    assert_eq!(good.step, CheckStep::Checked, "{}", good.error);
    assert_eq!(decoded, 1);
    assert_eq!((good.validation.report.checked, good.validation.report.failed), (2, 0));
    let (changed, _) = drive(file(6, 4), file(5, 4));
    assert_eq!(changed.validation.report.failed, 2);
    let (replaced, _) = drive(file(5, 4), file(6, 4));
    assert_eq!(replaced.step, CheckStep::Failed);
    let mut late = Checking::begin(1000, all()).unwrap();
    late.clock(u64::MAX);
    assert_eq!(late.step, CheckStep::Failed);
}

fn receipt() -> Receipt {
    media_ownership::receipt(ID, 2, 3, &"a".repeat(64)).unwrap()
}

fn review(names: &[String]) -> CatalogDirectoryReview {
    CatalogDirectoryReview {
        directory: ID.to_string(),
        sha256: "c".repeat(64),
        bytes: 4,
        files: names
            .iter()
            .map(|name| CatalogReviewedFile {
                path: name.clone(),
                bytes: 4,
                sha256: "b".repeat(64),
                matches_catalog: None,
            })
            .collect(),
        missing_files: vec![],
    }
}

fn remaining(ino: u64, record: Option<Journal>) -> Remaining {
    let name = "b".repeat(64);
    Remaining {
        imports: 2,
        receipt: Ok(Some(receipt())),
        opened: Some(3),
        current: Some(3),
        fingerprint: Ok(()),
        entries: vec![RemainingEntry { name, meta: Ok(file(ino, 4)), elapsed_ms: 0 }],
        record: Ok(record),
        elapsed_ms: 0,
    }
}

fn unrecorded() -> Pending {
    Pending {
        removals: Ok(false),
        record: Ok(None),
        opened: Ok(()),
        remaining: remaining(5, None),
    }
}

fn recorded() -> Recording {
    let name = "b".repeat(64);
    let mut recording = Recording::prepare(review(&[name.clone()]));
    recording.resumed(unrecorded(), 1000);
    recording.owned(&Ok(true));
    recording.receipt(Some(receipt()));
    recording.before(&"c".repeat(64));
    assert_eq!(recording.step, RecordStep::Files, "{}", recording.error);
    recording.file(&Ok(file(5, 4)), 1000, 0);
    assert_eq!(recording.step, RecordStep::Compose, "{}", recording.error);
    recording.compose();
    assert_eq!(recording.step, RecordStep::Entries, "{}", recording.error);
    recording.entry(&name, 0);
    assert_eq!(recording.step, RecordStep::Entries, "{}", recording.error);
    recording.listed();
    recording.after(&"c".repeat(64));
    assert_eq!(recording.step, RecordStep::CountRecords, "{}", recording.error);
    recording.other(0);
    assert_eq!(recording.count, 1);
    recording.counted();
    recording.measured(100);
    recording.written();
    assert_eq!(recording.step, RecordStep::VerifyRecorded, "{}", recording.error);
    recording
}

#[test]
fn removals_are_recorded_with_every_reviewed_file() {
    let name = "b".repeat(64);
    let mut recording = recorded();
    let journal = recorded().journal.unwrap();
    let found = |ino| remaining(ino, recorded().journal);
    assert!(verify_remaining(&journal, &found(5), 1000).is_ok());
    assert!(verify_remaining(&journal, &found(6), 1000).is_err());
    recording.verified(&found(5), 1000);
    assert_eq!(recording.step, RecordStep::Prepared, "{}", recording.error);
    let mut unowned = Recording::prepare(review(&[name.clone()]));
    unowned.resumed(unrecorded(), 1000);
    unowned.owned(&Ok(false));
    assert_eq!(unowned.step, RecordStep::Failed);
    let mut stranger = Recording::prepare(review(&[name.clone()]));
    stranger.resumed(unrecorded(), 1000);
    stranger.owned(&Ok(true));
    stranger.receipt(Some(receipt()));
    stranger.before(&"c".repeat(64));
    stranger.file(&Ok(file(5, 4)), 1000, 0);
    stranger.compose();
    assert_eq!(stranger.step, RecordStep::Entries, "{}", stranger.error);
    stranger.entry(&"d".repeat(64), 0);
    assert_eq!(stranger.step, RecordStep::Failed);
    assert_eq!(stranger.error, "Review omitted a managed file");
    let mut changed = Recording::prepare(review(&[name.clone()]));
    changed.resumed(unrecorded(), 1000);
    changed.owned(&Ok(true));
    changed.receipt(Some(receipt()));
    changed.before(&"d".repeat(64));
    assert_eq!(changed.error, "Managed import changed since review");
}

#[test]
fn removal_preparation_rejects_incomplete_or_unsafe_reviews() {
    let name = "b".repeat(64);
    let mut escaping = review(&[name.clone()]);
    escaping.files[0].path = "../../original.png".to_string();
    let mut incomplete = review(&[name.clone()]);
    incomplete.files.clear();
    for refused in [escaping, incomplete] {
        let mut recording = Recording::prepare(refused);
        while recording.step != RecordStep::Failed {
            match recording.step {
                RecordStep::Resume => recording.resumed(unrecorded(), 1000),
                RecordStep::VerifyOwnership => recording.owned(&Ok(true)),
                RecordStep::ReadReceipt => recording.receipt(Some(receipt())),
                RecordStep::FingerprintBefore => recording.before(&"c".repeat(64)),
                RecordStep::Files => recording.file(&Ok(file(5, 4)), 1000, 0),
                RecordStep::Compose => recording.compose(),
                RecordStep::Entries => recording.entry(&name, 0),
                _ => panic!("The review was accepted"),
            }
        }
        assert!(recording.journal.is_none() || recording.error == "Review omitted a managed file");
    }
    assert_eq!(recorded().step, RecordStep::VerifyRecorded);
}

#[test]
fn resumed_removals_are_verified_before_they_are_compared() {
    let name = "b".repeat(64);
    let found = |ino| remaining(ino, recorded().journal);
    let pending = |ino| Pending {
        removals: Ok(true),
        record: Ok(Some(RecordFile {
            meta: file(9, 100),
            bytes: 100,
            journal: recorded().journal.ok_or_else(String::new),
        })),
        opened: Ok(()),
        remaining: found(ino),
    };
    let begin = || {
        let mut recording = Recording::prepare(review(&[name.clone()]));
        recording.resumed(pending(5), 1000);
        assert_eq!(recording.step, RecordStep::CompareResumed, "{}", recording.error);
        assert!(recording.resumed && recording.directory);
        recording
    };
    let mut stale = Recording::prepare(review(&[name.clone()]));
    stale.resumed(pending(6), 1000);
    assert_eq!(stale.error, "Managed file changed after removal was prepared");
    let fingerprint = "c".repeat(64);
    let mut same = begin();
    same.compared(&found(5), 1000, &vec![name.clone()], Ok(&fingerprint));
    assert_eq!(same.step, RecordStep::Prepared, "{}", same.error);
    let mut replaced = begin();
    replaced.compared(&found(6), 1000, &vec![], Ok(&fingerprint));
    assert_eq!(replaced.error, "Managed file changed after removal was prepared");
    let mut other = begin();
    other.compared(&found(5), 1000, &vec![name.clone()], Ok(&"d".repeat(64)));
    assert_eq!(other.error, "Managed contents changed since review");
    let mut missing = begin();
    missing.compared(&found(5), 1000, &vec![], Ok(&fingerprint));
    assert_eq!(missing.error, "Review contains a missing or duplicated managed file");
    let journal = recorded().journal.unwrap();
    assert_eq!(journal.files.len(), 1);
    assert_eq!(journal.files[0].name, name);
    assert_eq!(journal.files[0].identity.bytes, 4);
}

#[test]
fn each_reference_counts_with_its_own_result() {
    let references: Vec<AssetDependency> = [
        ("/a.png", "owner 0", AssetKind::Image),
        ("/a.png", "owner 1", AssetKind::Video),
        ("/a.png", "owner 2", AssetKind::Video),
    ]
    .iter()
    .map(|(path, owner, kind)| AssetDependency {
        path: path.to_string(),
        owner: owner.to_string(),
        kind: *kind,
    })
    .collect::<Vec<AssetDependency>>();
    let listed = references.clone();
    let mut checking = Checking::begin(1000, references).unwrap();
    assert_eq!((checking.at, checking.validation.report.checked), (0, 0));
    let mut decoded = 0;
    while checking.step != CheckStep::Checked {
        match checking.step {
            CheckStep::ReadClock => checking.clock(0),
            CheckStep::Open => checking.opened(&Ok(file(5, 4))),
            CheckStep::Decode => {
                decoded += 1;
                let result =
                    if decoded == 1 { Ok(()) } else { Err("not a video".to_string()) };
                checking.decoded(result);
            }
            CheckStep::Reexamine => checking.reexamined(&Ok(file(5, 4)), &Ok(file(5, 4))),
            CheckStep::Confirm => checking.confirm(&Ok(file(5, 4)), 0),
            _ => panic!("{}", checking.error),
        }
    }
    let report = &checking.validation.report;
    assert_eq!(decoded, 2);
    assert_eq!((report.checked, report.failed), (3, 2));
    let owners: Vec<&str> = report.issues.iter().map(|issue| issue.owner.as_str()).collect();
    assert_eq!(owners, vec!["owner 1", "owner 2"]);
    assert!(report.issues.iter().all(|issue| issue.error == "not a video"));
    let checked = Ok(checking);
    assert!(ensure_decodable(1000, &listed, &Ok(()), &checked)
        .unwrap_err()
        .starts_with("2 media references failed destination validation: owner 1: "));
    assert_eq!(
        ensure_decodable(0, &listed, &Ok(()), &checked).unwrap_err(),
        "Validate media under its unprivileged destination account"
    );
    let daemon = Err("Installed daemon is unavailable".to_string());
    assert_eq!(
        ensure_decodable(1000, &listed, &daemon, &checked).unwrap_err(),
        "Installed daemon is unavailable"
    );
    assert!(ensure_decodable(1000, &vec![], &daemon, &checked).is_ok());
}

#[test]
fn content_is_reviewed_between_two_verifications() {
    let mut pending = Reviewing::begin(ID);
    pending.removal(Some(review(&[])));
    assert_eq!(pending.step, ReviewStep::Reviewed);
    let begin = || {
        let mut reviewing = Reviewing::begin(ID);
        reviewing.removal(None);
        reviewing.orphan(None);
        reviewing
    };
    let standing = |own: u64, receipt: Option<Receipt>| Standing {
        root: Ok(directory(0o700)),
        media: Ok(directory(0o700)),
        receipts: Ok(Some(directory(0o700))),
        receipt: Ok(receipt.map(|receipt| ReceiptFile {
            meta: file(9, 100),
            bytes: 100,
            receipt: Ok(receipt),
        })),
        imports: Ok(metadata(FileKind::Directory, 0o700, 2, 0)),
        directory: Ok(metadata(FileKind::Directory, 0o700, own, 0)),
        fingerprint: Ok("a".repeat(64)),
    };
    let verified = |reviewing: &mut Reviewing| {
        reviewing.verified(standing(3, Some(receipt())), 1000);
        assert_eq!(reviewing.step, ReviewStep::Review, "{}", reviewing.error);
    };
    let mut good = begin();
    verified(&mut good);
    good.reviewed(Ok(review(&[])));
    good.confirmed(standing(3, Some(receipt())), 1000);
    assert_eq!(good.step, ReviewStep::Reviewed);
    let mut unowned = begin();
    unowned.verified(standing(3, None), 1000);
    assert_eq!(unowned.error, "Managed import ownership is unverified");
    let mut unread = begin();
    verified(&mut unread);
    unread.reviewed(Err("too many files".to_string()));
    assert_eq!(unread.error, "too many files");
    let mut changed = begin();
    verified(&mut changed);
    changed.reviewed(Ok(review(&[])));
    changed.confirmed(standing(3, None), 1000);
    assert_eq!(changed.error, "Managed import changed during content review");
    let mut replaced = begin();
    verified(&mut replaced);
    replaced.reviewed(Ok(review(&[])));
    replaced.confirmed(standing(4, Some(receipt())), 1000);
    assert_eq!(replaced.step, ReviewStep::Failed);
}

#[test]
fn staged_media_takes_its_place_after_its_receipt() {
    assert!(open_directory(&directory(0o755), 1000).is_ok());
    assert!(open_directory(&directory(0o775), 1000).is_err());
    let begin = || {
        Placement::begin(MediaPublication {
            id: ID.to_string(),
            preparation: format!(".lianli-migration-{ID}-abcdef"),
            media: ".lianli-media-abcdef".to_string(),
            fingerprint: "a".repeat(64),
        })
    };
    let moving = || {
        let mut placement = begin();
        placement.looked_up(&Presence::Missing, &Presence::Present);
        placement.staged(Ok("a".repeat(64)));
        placement
    };
    let mut good = moving();
    good.capacity(&counted());
    good.recorded(2, 3, &Ok(Some(receipt())), &Ok(()));
    good.renamed(&Ok(()));
    good.placed(Ok("a".repeat(64)));
    good.stage_synced();
    good.imports_synced();
    assert_eq!(good.step, PlaceStep::Placed);
    let mut full = moving();
    full.capacity(&Err("too much".to_string()));
    assert_eq!(full.error, "too much");
    let mut raced = moving();
    raced.capacity(&counted());
    raced.recorded(2, 3, &Ok(None), &Ok(()));
    raced.renamed(&Err("exists".to_string()));
    assert_eq!(raced.error, "Publishing managed media: exists");
    let mut again = begin();
    again.looked_up(&Presence::Present, &Presence::Missing);
    assert_eq!(again.step, PlaceStep::VerifyPlaced);
    again.placed(Ok("b".repeat(64)));
    assert_eq!(again.error, "Published media identity changed");
}

fn job() -> Job {
    let mut job = Job::begin(ID).unwrap();
    job.directory(&directory(0o700), 1000);
    job.lock(&file(9, 0), 1000);
    job.locked(true);
    job
}

#[test]
fn import_records_are_kept_under_the_lock() {
    assert!(Job::begin("short").is_err());
    let running = || {
        let mut job = job();
        assert!(job.status.active);
        job.measured(100);
        job.written();
        job
    };
    let mut job = running();
    job.ended(Ok(selected()));
    assert_eq!(job.status.result.as_ref().unwrap().import_id, ID);
    job.measured(200);
    job.written();
    assert_eq!(job.step, JobStep::Finished);
    let mut large = running();
    large.ended(Ok(selected()));
    large.measured(u64::MAX);
    assert_eq!(large.step, JobStep::Failed);
    let mut second = Job::begin(ID).unwrap();
    let mut strange = Job::begin(ID).unwrap();
    strange.directory(&directory(0o700), 1001);
    assert_eq!(strange.step, JobStep::Failed);
    second.directory(&directory(0o700), 1000);
    second.lock(&file(9, 0), 1000);
    second.locked(false);
    assert_eq!(second.error, "A managed import worker is already active");
    let found = |free, lock| Found {
        directory: directory(0o700),
        lock,
        free,
        file: file(10, 100),
        size: 100,
        status: Ok(Status::begin(ID).unwrap()),
    };
    let read = |found| media_import_job::read(found, 1000, &Ok(()));
    assert!(read(None).unwrap().is_none());
    assert!(read(Some(found(true, None))).unwrap().is_none());
    assert!(read(Some(found(false, Some(file(9, 0))))).unwrap().unwrap().active);
    let stopped = read(Some(found(true, Some(file(9, 0))))).unwrap().unwrap();
    assert!(!stopped.active && stopped.error.is_some());
    let mut unreadable = found(true, Some(file(9, 0)));
    unreadable.status = Err("bad text".to_string());
    assert_eq!(read(Some(unreadable)).unwrap_err(), "bad text");
}

#[test]
fn imports_are_submitted_with_a_durable_request() {
    let begin = || {
        let mut start = Start::begin(
            ServiceScope::User,
            "/home/user/config.json".to_string(),
            "/run/user/1000/lianli-media-import".to_string(),
        );
        start.context(true, &None);
        start.selection(Ok(()));
        start.runtime(1000, &directory(0o700));
        start.opened(&directory(0o700), 1000);
        start.requests(&directory(0o700), 1000, 1);
        start
    };
    let mut start = begin();
    start.identity(&vec![0x12; 16]);
    assert_eq!(start.id, "12".repeat(16));
    assert_eq!(
        start.selection,
        format!("/run/user/1000/lianli-media-import/selection-{}.json", "12".repeat(16))
    );
    assert!(start.arguments.contains(&start.selection));
    start.written();
    start.synced();
    start.submitted(&Ok(output(0, "", "")));
    assert_eq!(start.step, StartStep::Started);
    let mut short = begin();
    short.identity(&vec![0x12; 15]);
    assert_eq!(short.error, "Invalid import identity");
    let mut root = Start::begin(ServiceScope::User, "/c".to_string(), "/r".to_string());
    root.context(true, &None);
    root.selection(Ok(()));
    root.runtime(0, &directory(0o700));
    assert_eq!(root.error, "Managed import progress belongs to the desktop user");
}

#[test]
fn import_outcomes_are_saved_before_the_request_goes() {
    let runtime = "/run/user/1000/lianli-media-import";
    let selection = format!("{runtime}/selection-{ID}.json");
    let begin = |selection: &str| {
        let mut work = Work::begin(
            ServiceScope::User,
            selection.to_string(),
            "/root/config.json".to_string(),
            ID.to_string(),
        );
        work.context(true);
        work.runtime(1000, &directory(0o700));
        let mut job = job();
        job.measured(100);
        job.written();
        work.begun(&job);
        (work, job)
    };
    let recorded = |work: &Work, job: &mut Job| {
        job.ended(work.ending());
        job.measured(200);
        job.written();
    };
    let result = || selected();
    let canonical: Result<String, String> = Ok("/root".to_string());
    let dependencies: Result<Vec<AssetDependency>, String> = Ok(vec![dependency(
        &format!("/root/media/imports/{ID}/asset.png"),
        AssetKind::Image,
    )]);
    let executed = |work: &mut Work, code, answer| {
        let ended = ran(work.executing(), code, "refused");
        work.executed(&ended, answer, &canonical, &dependencies)
    };
    let (mut good, mut told) = begin(&selection);
    executed(&mut good, 0, Ok(result()));
    assert!(good.outcome.is_ok());
    recorded(&good, &mut told);
    assert_eq!(told.status.result.as_ref().unwrap().import_id, ID);
    good.saved(&told, runtime);
    assert_eq!(good.step, WorkStep::CheckRequest);
    good.request(&directory(0o700), &file(9, 10), 1000);
    good.removed();
    good.synced();
    assert_eq!(good.step, WorkStep::Finished);
    let (mut failed, mut unsaved) = begin(&selection);
    executed(&mut failed, 1, Ok(result()));
    assert!(failed.outcome.as_ref().unwrap_err().starts_with("Managed import failed: refused"));
    assert_eq!(failed.step, WorkStep::SaveOutcome);
    unsaved.failed("no space");
    failed.saved(&unsaved, runtime);
    assert_eq!(failed.error, "no space");
    let (mut garbled, _) = begin(&selection);
    executed(&mut garbled, 0, Err("bad text".to_string()));
    assert_eq!(
        garbled.outcome.as_ref().unwrap_err(),
        "Managed import returned an invalid result; inspect storage before retrying: bad text"
    );
    let (mut foreign, mut told) = begin("/tmp/selection.json");
    executed(&mut foreign, 0, Ok(result()));
    recorded(&foreign, &mut told);
    foreign.saved(&told, runtime);
    assert_eq!(foreign.step, WorkStep::Finished);
    let (relative, _) = begin("relative.json");
    assert_eq!(relative.step, WorkStep::SaveOutcome);
    assert!(relative.outcome.is_err());
    let mut busy = Work::begin(
        ServiceScope::User,
        selection.clone(),
        "/root/config.json".to_string(),
        ID.to_string(),
    );
    busy.context(true);
    busy.runtime(1000, &directory(0o700));
    let mut other = job();
    other.failed("A managed import worker is already active");
    busy.begun(&other);
    assert_eq!(busy.error, "A managed import worker is already active");
}

#[test]
fn selections_are_sent_source_by_source() {
    let begin = |sources: Vec<AssetDependency>| {
        let mut sender = Sender::begin();
        sender.account(false);
        sender.control(&control(), 0);
        sender.listed(Ok(sources));
        sender.selection();
        sender
    };
    let mut two =
        begin(vec![dependency("/a", AssetKind::Image), dependency("/b", AssetKind::Image)]);
    for expected in ["/a", "/b"] {
        two.source_control(&control(), 0);
        assert!(matches!(two.source_message(), Message::Asset { path } if path == expected));
        two.source(&Ok(()));
    }
    let told = selection_message(&b"abc".to_vec());
    assert!(matches!(told, Message::Selection { bytes: 3, sha256 } if sha256
        == "ba7816bf8f01cfea414140de5dae2223b00361a396177a9cb410ff61f20015ad"));
    assert_eq!(two.step, SendStep::AwaitComplete);
    two.completed(&Message::Complete, false);
    two.last_control(&control(), 0);
    assert_eq!(two.step, SendStep::Sent);
    assert_eq!(begin(vec![]).step, SendStep::AwaitComplete);
    let owned = AssetDependency { owner: "LCD 1".to_string(), ..dependency("/a", AssetKind::Image) };
    let mut gone = begin(vec![owned]);
    gone.source_control(&control(), 0);
    gone.source(&Err("not found".to_string()));
    assert_eq!(gone.error, "Opening selected source for LCD 1: not found");
    let mut root = Sender::begin();
    root.account(true);
    assert_eq!(root.step, SendStep::Failed);
}

fn destination() -> Destination {
    Destination {
        scope: ServiceScope::User,
        uid: 1000,
        gid: 1000,
        groups_fingerprint: "a".repeat(64),
        mount_namespace: FileIdentity { device: "4".to_string(), inode: "5".to_string() },
        state_directory: None,
        config_path: "/home/user/config.json".to_string(),
        working_directory: "/home/user".to_string(),
        state: None,
        assets: AssetAccessReport { uid: 1000, checked: 0, failed: 0, issues: vec![] },
    }
}

fn lock(inode: &str) -> FileIdentity {
    FileIdentity { device: "1".to_string(), inode: inode.to_string() }
}

fn held(inode: &str) -> Held {
    Held {
        expected: lock("2"),
        descriptor: metadata(FileKind::File, 0o666, 2, 0),
        path: Ok(lock(inode)),
        host: None,
    }
}

fn reserved() -> Reservation {
    let file = metadata(FileKind::File, 0o666, 2, 0);
    let mut reservation = Reservation::begin(&lock("2"), false, false);
    reservation.path(&Ok(lock("2")));
    reservation.opened(&file);
    reservation.tried(&Attempt::Granted, 0);
    reservation.verified(&file, &Ok(lock("2")), &None);
    assert_eq!(reservation.step, ReserveStep::Reserved, "{}", reservation.error);
    reservation
}

fn received(target: &str) -> Receiver {
    let mut receiver = Receiver::begin(false).unwrap();
    receiver.control(&control(), 0);
    receiver.selection(&Message::Selection { bytes: 10, sha256: "a".repeat(64) }, true);
    let mut prepare = Prepare::begin(target);
    prepare.control(&control(), 0);
    prepare.collected(Ok(vec![]));
    prepare.stage(&Ok(directory(0o755)), 1000);
    receiver.chosen(&prepare);
    while prepare.step != PrepareStep::Prepared {
        match prepare.step {
            PrepareStep::Sync => prepare.synced(),
            PrepareStep::Failed => panic!("{}", prepare.error),
            _ => prepare.control(&control(), 0),
        }
    }
    receiver.prepared(&prepare);
    receiver.control(&control(), 0);
    receiver.confirmed();
    assert_eq!(receiver.step, ReceiveStep::Received);
    receiver
}

fn decoded(target: &str) -> Decode {
    let media = MediaStaging::new(target).unwrap();
    let mut decode = Decode::begin();
    decode.control(&control(), 0);
    decode.collected(&media, "/stage", &vec![]);
    decode.before(&"a".repeat(64));
    decode.decoded();
    decode.control(&control(), 0);
    decode.after(&"a".repeat(64));
    decode
}

fn counted() -> Result<Usage, String> {
    let mut usage = Usage::new(MAX_STORE_BYTES);
    usage.import(0)?;
    usage.file(&Ok(file(5, 5)), 0)?;
    usage.end(0)?;
    usage.imports_done();
    usage.file(&Ok(file(6, 5)), 0)?;
    usage.end(0)?;
    Ok(usage)
}

fn published(fingerprint: &str, moved: bool) -> Publish {
    let media = MediaStaging::new(&import_path("/home/user", ID)).unwrap();
    let mut publish = Publish::begin(ID, fingerprint, vec![], vec![]);
    while publish.step != PublishStep::Published && publish.step != PublishStep::Failed {
        match publish.step {
            PublishStep::Measure => publish.measured(100),
            PublishStep::CheckTarget => publish.target(&media, "/home/user"),
            PublishStep::FingerprintStaged => publish.staged(fingerprint),
            PublishStep::Move if moved => publish.moved(&Ok(())),
            PublishStep::Move => publish.failed("no space"),
            PublishStep::FingerprintPublished => publish.published(fingerprint),
            PublishStep::CheckCapacity => publish.capacity(&counted()),
            PublishStep::CheckControl
            | PublishStep::RecheckControl
            | PublishStep::ConfirmControl => publish.control(&control(), 0),
            PublishStep::RecordOwnership => publish.recorded(2, 3, &Ok(None), &Ok(())),
            _ => publish.done(),
        }
    }
    publish
}

#[test]
fn imports_arrive_at_the_destination_they_were_prepared_for() {
    let begin = || {
        let mut arrival = Arrival::begin(ID.to_string(), "/home/user/config.json".to_string());
        arrival.worker(Ok(()));
        arrival.inspected(destination(), &Ok("/home/user".to_string()));
        assert_eq!(arrival.target, format!("/home/user/media/imports/{ID}"));
        arrival.received(&received(&arrival.target));
        arrival.validated(&decoded(&arrival.target));
        arrival.locked(&reserved(), &held("2"));
        assert_eq!(arrival.fingerprint, "a".repeat(64));
        arrival
    };
    let mut good = begin();
    good.unchanged(&destination());
    good.published(published(&good.fingerprint, true), Ok("/home/user".to_string()));
    assert_eq!(good.step, ArrivalStep::Published, "{}", good.error);
    let place = good.result.unwrap().destination.unwrap();
    assert_eq!(place.config_path, "/home/user/config.json");
    assert_eq!(place.state_directory, "/home/user");
    let mut unlocked = Arrival::begin(ID.to_string(), "/home/user/config.json".to_string());
    unlocked.worker(Ok(()));
    unlocked.inspected(destination(), &Ok("/home/user".to_string()));
    unlocked.received(&received(&unlocked.target));
    unlocked.validated(&decoded(&unlocked.target));
    unlocked.locked(&reserved(), &held("3"));
    assert_eq!(
        unlocked.error,
        "Reserved hardware lock path was replaced. Refusing state publication"
    );
    let mut unpublished = begin();
    unpublished.unchanged(&destination());
    unpublished.published(published(&"a".repeat(64), false), Ok("/home/user".to_string()));
    assert_eq!(unpublished.error, "no space");
    let mut short = Arrival::begin("short".to_string(), "/home/user/config.json".to_string());
    short.worker(Ok(()));
    assert_eq!(short.error, "Invalid import ID");
    let mut refused = Arrival::begin(ID.to_string(), "/home/user/config.json".to_string());
    refused.worker(Ok(()));
    refused.inspected(destination(), &Ok("/home/user".to_string()));
    let mut broken = Receiver::begin(false).unwrap();
    broken.failed("channel closed");
    refused.received(&broken);
    assert_eq!(refused.error, "channel closed");
    let mut moved = begin();
    let mut now = destination();
    now.uid = 1001;
    moved.unchanged(&now);
    assert_eq!(moved.error, "Managed import destination changed after preparation");
    let mut other = Arrival::begin(ID.to_string(), "/other.json".to_string());
    other.worker(Ok(()));
    other.inspected(destination(), &Ok("/home/user".to_string()));
    assert!(other.error.starts_with("Managed import destination differs"));
}

#[test]
fn operations_are_submitted_once_and_waited_for() {
    let request = ServiceActionRequest { scope: ServiceScope::User, action: ServiceAction::Start };
    let begin = || {
        let mut submission = Submission::begin(
            InstallationContext::Native,
            request,
            "/usr/bin/lianli-control".to_string(),
        );
        submission.idle(&None);
        submission.helper(&Some(metadata(FileKind::File, 0o755, 5, 10)));
        submission.identity(&vec![0xab; 16]);
        submission
    };
    let mut good = begin();
    assert_eq!(good.id, "ab".repeat(16));
    good.submitted(&Ok(output(0, "", "")));
    good.waited(29_999, &None);
    assert_eq!(good.step, SubmitStep::Wait);
    good.waited(29_999, &Some(JobStatus::begin(&"ab".repeat(16), request).unwrap()));
    assert_eq!(good.step, SubmitStep::Submitted);
    let mut silent = begin();
    silent.submitted(&Ok(output(0, "", "")));
    silent.waited(30_000, &None);
    assert!(silent.error.starts_with("The service worker has not reported progress."));
    let mut busy = Submission::begin(InstallationContext::Native, request, "/h".to_string());
    busy.idle(&Some(JobStatus::begin(ID, request).unwrap()));
    assert_eq!(busy.error, "Another service operation is running");
}

#[test]
fn operations_report_under_the_lock() {
    let request = ServiceActionRequest { scope: ServiceScope::User, action: ServiceAction::Start };
    assert!(Worker::begin("short", request).is_err());
    let working = || {
        let mut worker = Worker::begin(ID, request).unwrap();
        worker.runtime(1000, &directory(0o700));
        worker.directory(&directory(0o700), 1000);
        worker.lock(&file(9, 0), 1000);
        worker.locked(true);
        worker.measured(100);
        worker.active();
        worker
    };
    let mut good = working();
    good.report("Starting the service");
    assert_eq!(good.job.status.message, "Starting the service");
    good.ended(Ok("Started".to_string()));
    assert_eq!(good.job.status.success, Some(true));
    good.result_measured(200);
    good.saved(&Ok(()));
    assert_eq!(good.step, WorkerStep::Finished);
    let stamped = good.job.stamped(7);
    assert_eq!(stamped.updated_at_ms, 7);
    assert_eq!(stamped.status.message, good.job.status.message);
    let mut unsaved = working();
    unsaved.ended(Err("refused".to_string()));
    assert_eq!(unsaved.job.status.success, Some(false));
    unsaved.result_measured(200);
    unsaved.saved(&Err("no space".to_string()));
    assert_eq!(
        unsaved.error,
        "Service action finished but its result could not be saved. Recheck actual services: no space"
    );
    let mut second = Worker::begin(ID, request).unwrap();
    second.runtime(1000, &directory(0o700));
    second.directory(&directory(0o700), 1000);
    second.lock(&file(9, 0), 1000);
    second.locked(false);
    assert_eq!(second.error, "Another service worker owns progress");
}

#[test]
fn recovery_is_asked_for_without_waiting() {
    assert_eq!(query_arguments().last().unwrap(), "lianli-control-recovery.service");
    assert_eq!(submit_arguments()[3], "--no-block");
    assert_eq!(submit_arguments()[5], "start");
}

#[test]
fn reports_come_from_a_helper_that_ended_well() {
    let collect = |code, read: Result<Report, String>| {
        collect_report(&output(code, "", "crashed"), read, "1.0", None, 1000, 100, &vec![100])
    };
    assert_eq!(
        collect(1, Err("unused".to_string())).unwrap_err(),
        "Runtime helper failed: crashed"
    );
    assert_eq!(collect(0, Err("bad text".to_string())).unwrap_err(), "bad text");
}
