use lianli_control::account::Account;
use lianli_control::command::{Output, Ran, Read, Run, RunStep};
use lianli_control::container_deployment::Deployment;
use lianli_control::container_destination::{
    ConfigNames, DestinationAnswer, Launch as BoxLaunch, Route,
};
use lianli_control::destination::{Destination, Preflight, PreflightStep};
use lianli_control::destination_inspection::{Manager, ManagerStep};
use lianli_control::digest::Hasher;
use lianli_control::files::{FileKind, Metadata};
use lianli_control::media_import::{
    check_target, check_validated, import_path, replaced_path, selection_dependencies,
    staged_dependencies, Publish, PublishStep, PublishedDestination, PublishedSelection,
    SelectionSize,
};
use lianli_control::media_import_job::{
    check_alone, check_directory, check_file, check_read, check_written, read as read_import,
    Found as ImportFound, Job, JobStep, Status,
};
use lianli_control::media_import_launch::{
    check_outputs, destination_arguments, source_arguments, validate_result, Launch, LaunchStep,
};
use lianli_control::media_import_transfer::{
    check_complete, check_destination, check_reader, check_sender, check_size, check_unchanged,
    Message, ReceiveStep, Receiver,
};
use lianli_control::media_import_worker::{
    authorization_arguments, authorization_program, check_execution, check_request_file,
    check_requests, check_start, check_submission, launch_arguments, owns_request, request_name,
};
use lianli_control::media_ownership;
use lianli_control::media_ownership::{
    check_receipt, check_receipt_file, check_review, receipt_room, record, validate_id, verify,
    CatalogReviewedFile, Inventory, InventoryStep, Receipt, ReceiptFile, Review, ScanStep,
    Standing,
};
use lianli_control::media_publication;
use lianli_control::media_publication::{
    fingerprint_directory, is_media_name, names_object, Entry, MediaPublication, Presence, Usage,
    UsageStep, MAX_STORE_BYTES,
};
use lianli_control::media_removal::{
    check_covered, check_ownership, check_record, check_record_bytes, check_remaining,
    missing_files, orphan_review, pending_id, removal_order, remove, removed_fingerprint, valid_hash,
    valid_name, validate, verify_review, Journal, Preparation, RemovalStep,
};
use lianli_control::media_preparation::{Prepare, PrepareStep};
use lianli_control::media_removal_record::{Pending, RecordStep, Remaining, RemainingEntry};
use lianli_control::media_staging::{
    alias, check_parent, identity, AddStep, Adding, CopyControl, Linked, MediaStaging,
};
use lianli_control::media_validation::{
    check_failures, AssetAccessReport, AssetDependency, AssetKind, Validation,
};
use lianli_control::services::{FileIdentity, ServiceScope};

const ID: &str = "1234567890abcdef1234567890abcdef";
const OTHER: &str = "abcdef1234567890abcdef1234567890";

fn sha256(bytes: &[u8]) -> String {
    let mut hasher = Hasher::new();
    hasher.update(bytes);
    hasher.finish()
}

fn metadata(kind: FileKind, mode: u32, ino: u64, len: u64) -> Metadata {
    Metadata {
        kind,
        uid: 1000,
        gid: 1000,
        mode,
        dev: 1,
        ino,
        len,
        nlink: 1,
        mtime: 10,
        mtime_nsec: 20,
        ctime: 30,
        ctime_nsec: 40,
    }
}

fn file(ino: u64, len: u64) -> Metadata {
    metadata(FileKind::File, 0o600, ino, len)
}

fn output(code: i32, stderr: &str) -> Output {
    Output {
        code: Some(code),
        status: format!("exit status: {code}"),
        stdout: String::new(),
        stderr: stderr.to_string(),
    }
}

fn dependency(path: &str, owner: &str, kind: AssetKind) -> AssetDependency {
    AssetDependency { path: path.to_string(), owner: owner.to_string(), kind }
}

struct Source<'a> {
    path: &'a str,
    meta: Metadata,
    bytes: &'a [u8],
    after: Metadata,
}

fn source<'a>(path: &'a str, meta: Metadata, bytes: &'a [u8]) -> Source<'a> {
    Source { path, meta, bytes, after: meta }
}

fn add(media: MediaStaging, from: &Source, control: &mut CopyControl) -> Adding {
    let mut adding = media.add(from.path);
    let mut rest = from.bytes;
    while adding.step != AddStep::Added && adding.step != AddStep::Failed {
        match adding.step {
            AddStep::Inspect => adding.inspected(&from.meta),
            AddStep::CreateTemporary => adding.created(),
            AddStep::Read => {
                let (piece, later) = rest.split_at(rest.len().min(64 * 1024));
                adding.bytes(piece);
                rest = later;
            }
            AddStep::Write => adding.written(control),
            AddStep::Reread => adding.reread(&from.after),
            AddStep::SyncTemporary => adding.synced(),
            AddStep::Keep => adding.kept(),
            AddStep::Link => adding.linked(&Linked::Done),
            AddStep::CheckLinked => adding.confirm(control, 0),
            _ => adding.control(control, 0),
        }
    }
    adding
}

fn refused(media: MediaStaging, from: &Source) -> (MediaStaging, String) {
    let adding = add(media, from, &mut CopyControl::new(5_000));
    assert_eq!(adding.step, AddStep::Failed);
    (adding.staging, adding.error)
}

fn staged(media: MediaStaging, path: &str, meta: &Metadata, bytes: &[u8]) -> (MediaStaging, String) {
    let adding = add(media, &source(path, *meta, bytes), &mut CopyControl::new(5_000));
    assert_eq!(adding.step, AddStep::Added, "{}", adding.error);
    (adding.staging, adding.destination)
}

#[test]
fn copies_from_descriptors_deduplicates_content_and_preserves_extensions_and_offsets() {
    let bytes = vec![17u8; 128 * 1024];
    let meta = file(5, bytes.len() as u64);
    let mut control = CopyControl::new(5_000);
    let mut media = MediaStaging::new("/destination/media").unwrap();
    let mut places = Vec::new();
    for path in ["/descriptor-only.PNG", "/another-name.jpg", "/descriptor-only.PNG"] {
        let adding = add(media, &source(path, meta, &bytes), &mut control);
        assert_eq!(adding.step, AddStep::Added);
        media = adding.staging;
        places.push(adding.destination);
    }
    assert_eq!(places[0], places[2]);
    assert!(places[0].ends_with(".png"));
    assert!(places[1].ends_with(".jpg"));
    assert!(places[0].starts_with("/destination/media/"));
    assert_eq!(media.unique_files(), 1);
    assert_eq!(media.stored_bytes(), bytes.len() as u64);
    assert_eq!(control.copied_bytes(), 2 * bytes.len() as u64);
    assert_eq!(media.path_of("/descriptor-only.PNG").unwrap(), places[0]);
    assert!(media.path_of("/unknown.png").is_none());
}

#[test]
fn cancellation_deadlines_budgets_and_changed_sources_do_not_publish_extra_paths() {
    let path = "/source.png";
    let meta = file(5, 8);
    let mut media = MediaStaging::new("/destination/media").unwrap();
    media.asset_limit = 8;
    media.stage_limit = 8;
    let one = source(path, meta, b"12345678");
    let mut cancelled = CopyControl::new(5_000);
    cancelled.cancel();
    let adding = add(media, &one, &mut cancelled);
    assert_eq!(adding.step, AddStep::Failed);
    assert!(adding.error.contains("cancelled"));
    let adding = add(adding.staging, &one, &mut CopyControl::new(0));
    assert!(adding.error.contains("timed out"));
    assert!(adding.staging.path_of(path).is_none());
    let (media, _) = staged(adding.staging, path, &meta, b"12345678");
    let (media, error) = refused(media, &source("/duplicate.png", meta, b"12345678"));
    assert!(error.contains("budget"));
    let (media, error) = refused(media, &source(path, file(5, 7), b"changed"));
    assert!(error.contains("changed"));
    assert!(media.path_of(path).is_some());
    assert_eq!(media.unique_files(), 1);
}

#[test]
fn rejects_oversized_and_nonregular_sources_before_copying() {
    let media = MediaStaging::new("/destination/media").unwrap();
    let large = file(5, 2 * 1024 * 1024 * 1024 + 1);
    let (media, error) = refused(media, &source("/too-large.mp4", large, b""));
    assert!(error.contains("2 GiB"));
    let directory = metadata(FileKind::Directory, 0o700, 6, 0);
    let (media, error) = refused(media, &source("/root", directory, b""));
    assert!(error.contains("not a regular media file"));
    assert_eq!(media.unique_files(), 0);
    assert_eq!(media.stored_bytes(), 0);
}

#[test]
fn copies_are_of_the_whole_unchanged_source() {
    let meta = file(5, 4);
    let path = "/source.png";
    let media = MediaStaging::new("/destination/media").unwrap();
    let (media, error) = refused(media, &source(path, meta, b"12345"));
    assert_eq!(error, "/source.png grew while being copied");
    let (media, error) = refused(media, &source(path, meta, b"123"));
    assert_eq!(error, "/source.png changed while being copied");
    let touched = Source { after: Metadata { ctime: 31, ..meta }, ..source(path, meta, b"1234") };
    let (media, error) = refused(media, &touched);
    assert_eq!(error, "/source.png changed while being copied");
    let (media, _) = refused(media, &source("relative.png", meta, b"1234"));
    let (media, _) = refused(media, &source("/nul\0.png", meta, b"1234"));
    assert_eq!(media.unique_files(), 0);
    let (media, place) = staged(media, path, &meta, b"1234");
    assert_eq!(place, format!("/destination/media/{}.png", sha256(b"1234")));
    assert_eq!(media.unique_files(), 1);
    assert!(MediaStaging::new("relative").is_err());
    assert!(check_parent(&metadata(FileKind::Directory, 0o755, 7, 0), 1000).is_ok());
    assert!(check_parent(&metadata(FileKind::Directory, 0o775, 7, 0), 1000).is_err());
    assert_eq!(alias("/a/b.MP4", "d"), "d.mp4");
    assert_eq!(alias("/a/b", "d"), "d.bin");
    assert_eq!(alias("/a/b.not-plain", "d"), "d.bin");
}

fn linking(media: MediaStaging, path: &str) -> Adding {
    let meta = file(5, 4);
    let mut adding = media.add(path);
    let mut control = CopyControl::new(5_000);
    let mut read = false;
    while adding.step != AddStep::Link {
        match adding.step {
            AddStep::Inspect => adding.inspected(&meta),
            AddStep::CreateTemporary => adding.created(),
            AddStep::Read => {
                adding.bytes(if read { b"" } else { b"1234" });
                read = true;
            }
            AddStep::Write => adding.written(&mut control),
            AddStep::Reread => adding.reread(&meta),
            AddStep::SyncTemporary => adding.synced(),
            AddStep::Keep => adding.kept(),
            _ => adding.control(&control, 0),
        }
    }
    adding
}

#[test]
fn a_taken_name_has_to_be_of_the_same_object() {
    let media = || MediaStaging::new("/destination/media").unwrap();
    let mut same = linking(media(), "/source.png");
    same.linked(&Linked::Taken);
    assert_eq!(same.step, AddStep::CompareAlias);
    same.compared(&file(8, 4), &file(8, 4));
    same.confirm(&CopyControl::new(5_000), 0);
    assert_eq!(same.step, AddStep::Added);
    let mut other = linking(media(), "/source.png");
    other.linked(&Linked::Taken);
    other.compared(&file(8, 4), &file(9, 4));
    assert_eq!(other.error, "Staged media alias was replaced");
    let mut broken = linking(media(), "/source.png");
    broken.linked(&Linked::Failed("no space".to_string()));
    assert_eq!(broken.error, "Creating staged media filename: no space");
    assert!(broken.staging.path_of("/source.png").is_none());
}

#[test]
fn digests_are_those_of_the_standard() {
    assert_eq!(
        sha256(b"abc"),
        "ba7816bf8f01cfea414140de5dae2223b00361a396177a9cb410ff61f20015ad"
    );
    assert_eq!(
        sha256(b""),
        "e3b0c44298fc1c149afbf4c8996fb92427ae41e4649b934ca495991b7852b855"
    );
}

#[test]
fn caches_each_decoder_kind_and_reports_every_affected_owner() {
    let dependencies: Vec<AssetDependency> = [AssetKind::Image, AssetKind::Image, AssetKind::Font]
        .into_iter()
        .enumerate()
        .map(|(index, kind)| dependency("/root/file", &format!("owner {index}"), kind))
        .collect();
    let now = identity(&file(5, 6));
    let mut calls = 0;
    let mut validation = Validation::begin(1000, dependencies.len() as u64).unwrap();
    for one in &dependencies {
        let result = match validation.known(&one.path, one.kind, &now) {
            Some(result) => result,
            None => {
                calls += 1;
                let decoded = if one.kind.word() == "font" {
                    Ok(())
                } else {
                    Err("invalid image".to_string())
                };
                validation.decoded(&one.path, one.kind, now, decoded)
            }
        };
        validation.finish(one, result);
    }
    assert_eq!(calls, 2);
    let report = validation.report;
    assert_eq!((report.checked, report.failed, report.issues.len()), (3, 2, 2));
    assert_eq!(report.issues[1].owner, "owner 1");
    assert!(check_failures(&report).is_err());
    let clean = AssetAccessReport { uid: 1000, checked: 1, failed: 0, issues: vec![] };
    assert!(check_failures(&clean).is_ok());
}

#[test]
fn changed_and_replaced_files_are_rejected_and_never_reuse_old_decode_results() {
    for replace in [false, true] {
        let one = dependency("/root/file", "template child", AssetKind::Video);
        let original = identity(&file(5, 8));
        let current = identity(&file(if replace { 6 } else { 5 }, 11));
        let mut calls = 0;
        let mut validation = Validation::begin(1000, 2).unwrap();
        for _ in 0..2 {
            let before = if calls == 0 { original } else { current };
            assert!(validation.known(&one.path, one.kind, &before).is_none());
            calls += 1;
            let result = match Validation::unchanged(&before, &before, &current) {
                Ok(()) => validation.decoded(&one.path, one.kind, before, Ok(())),
                Err(error) => Err(error),
            };
            validation.finish(&one, result);
        }
        assert_eq!(calls, 2);
        assert_eq!(validation.report.failed, 1);
        assert!(validation.report.issues[0].error.contains("changed during decoding"));
        assert!(validation.confirm(0, &current, 0).is_ok());
        assert!(validation.confirm(0, &original, 0).is_err());
    }
}

fn counted(limit: u64) -> Result<Usage, String> {
    let mut usage = Usage::new(limit);
    usage.import(0)?;
    usage.file(&Ok(file(5, 5)), 0)?;
    usage.file(&Ok(file(5, 5)), 0)?;
    usage.end(0)?;
    usage.imports_done();
    usage.file(&Ok(file(5, 5)), 0)?;
    usage.file(&Ok(file(6, 5)), 0)?;
    usage.end(0)?;
    assert_eq!(usage.step, UsageStep::Within);
    Ok(usage)
}

#[test]
fn retained_imports_count_once_per_inode_and_failed_capacity_preserves_all_files() {
    let measure = |limit| counted(limit).map(|usage| usage.bytes);
    assert_eq!(measure(10).unwrap(), 10);
    assert!(measure(9).is_err());
    let mut usage = Usage::new(100);
    usage.import(0).unwrap();
    assert!(usage.file(&Ok(metadata(FileKind::Symlink, 0o777, 7, 5)), 0).is_err());
    let mut late = Usage::new(100);
    assert!(late.import(u64::MAX).is_err());
}

#[test]
fn published_names_carry_the_digest_of_their_contents() {
    let name = sha256(b"asset");
    assert!(names_object(&name));
    assert!(is_media_name(&format!("{name}.png")));
    assert!(!is_media_name("short.png"));
    assert_eq!(media_publication::stem_of(&format!("{name}.png")), name);
    let directory = metadata(FileKind::Directory, 0o700, 2, 0);
    let object = Entry { name: name.clone(), meta: Metadata { nlink: 2, ..file(5, 5) } };
    let extended = Entry { name: format!("{name}.png"), meta: Metadata { nlink: 2, ..file(5, 5) } };
    let one = fingerprint_directory(
        1000,
        &directory,
        &vec![object.clone(), extended.clone()],
        &directory,
    );
    let two = fingerprint_directory(1000, &directory, &vec![extended, object], &directory);
    assert_eq!(one.clone().unwrap(), two.unwrap());
    assert_eq!(one.unwrap().len(), 64);
    let moved = Metadata { mtime: 11, ..directory };
    assert!(fingerprint_directory(1000, &directory, &vec![], &moved).is_err());
}

fn publication() -> MediaPublication {
    MediaPublication {
        id: ID.to_string(),
        preparation: format!(".lianli-migration-{ID}-abcdef"),
        media: ".lianli-media-abcdef".to_string(),
        fingerprint: "a".repeat(64),
    }
}

#[test]
fn fingerprints_tell_every_change_of_a_file_apart() {
    let name = sha256(b"asset");
    let directory = metadata(FileKind::Directory, 0o700, 2, 0);
    let taken = |directory: &Metadata, name: &str, meta: Metadata| {
        let entries = vec![Entry { name: name.to_string(), meta }];
        fingerprint_directory(1000, directory, &entries, directory).unwrap()
    };
    let meta = file(5, 5);
    let before = taken(&directory, &name, meta);
    assert_eq!(before, taken(&directory, &name, meta));
    let mut others = vec![
        taken(&Metadata { ino: 3, ..directory }, &name, meta),
        taken(&directory, &sha256(b"other"), meta),
    ];
    for changed in [
        Metadata { ino: 6, ..meta },
        Metadata { len: 6, ..meta },
        Metadata { nlink: 2, ..meta },
        Metadata { gid: 1001, ..meta },
        Metadata { mtime: -10, ..meta },
        Metadata { mtime_nsec: 21, ..meta },
        Metadata { ctime: 31, ..meta },
        Metadata { ctime_nsec: 41, ..meta },
    ] {
        others.push(taken(&directory, &name, changed));
    }
    others.push(before);
    let count = others.len();
    others.sort();
    others.dedup();
    assert_eq!(others.len(), count);
}

#[test]
fn staged_paths_keep_to_the_destination_in_every_spelling() {
    let media = MediaStaging::new("/destination/media").unwrap();
    let (media, place) = staged(media, "/a/./b.PNG", &file(5, 4), b"1234");
    let expected = format!("/destination/media/{}.png", sha256(b"1234"));
    assert_eq!(place, expected);
    assert_eq!(media.path_of("/a//b.PNG").unwrap(), expected);
    let again = add(
        media,
        &source("/a/b.PNG", file(5, 4), b"1234"),
        &mut CopyControl::new(5_000),
    );
    assert_eq!(again.step, AddStep::Added);
    assert!(again.known);
    assert_eq!(again.destination, expected);
}

#[test]
fn publications_move_only_what_was_staged() {
    let one = publication();
    let missing = Presence::Missing;
    let present = Presence::Present;
    assert!(one.verify_staged(Ok("a".repeat(64))).is_ok());
    assert!(one.verify_staged(Ok("b".repeat(64))).is_err());
    assert!(one.verify_published(Ok("b".repeat(64))).is_err());
    assert!(one.published(Err("unreadable".to_string())).is_err());
    assert_eq!(one.publish(&missing, &present).unwrap(), media_publication::Publish::Move);
    assert_eq!(one.publish(&present, &missing).unwrap(), media_publication::Publish::Verify);
    let mut wrong = publication();
    wrong.fingerprint = "short".to_string();
    assert!(wrong.validate().is_err());
}

fn receipt() -> Receipt {
    media_ownership::receipt(ID, 2, 3, &"a".repeat(64)).unwrap()
}

#[test]
fn receipts_name_one_directory_and_its_fingerprint() {
    let one = receipt();
    assert!(check_receipt(&one, ID).is_ok());
    assert!(check_receipt(&one, OTHER).is_err());
    let directory = |ino| metadata(FileKind::Directory, 0o700, ino, 0);
    let standing = |imports, own, fingerprint| Standing {
        root: Ok(directory(7)),
        media: Ok(directory(8)),
        receipts: Ok(Some(directory(9))),
        receipt: Ok(Some(ReceiptFile { meta: file(9, 100), bytes: 100, receipt: Ok(receipt()) })),
        imports: Ok(directory(imports)),
        directory: Ok(directory(own)),
        fingerprint,
    };
    let check = |imports, own, fingerprint: Result<String, String>| {
        verify(ID, standing(imports, own, fingerprint), 1000)
    };
    assert!(check(2, 3, Ok("a".repeat(64))).unwrap());
    assert_eq!(
        check(2, 4, Ok("a".repeat(64))).unwrap_err(),
        "Managed import changed since publication. Automatic cleanup is not authorized"
    );
    assert!(check(2, 3, Ok("b".repeat(64))).is_err());
    assert_eq!(check(2, 3, Err("unreadable".to_string())).unwrap_err(), "unreadable");
    let good = || standing(2, 3, Ok("a".repeat(64)));
    assert!(!verify(ID, Standing { receipts: Ok(None), ..good() }, 1000).unwrap());
    assert!(!verify(ID, Standing { receipt: Ok(None), ..good() }, 1000).unwrap());
    assert_eq!(verify("short", good(), 1000).unwrap_err(), "Invalid managed import ID");
    assert_eq!(
        verify(ID, good(), 1001).unwrap_err(),
        "Media publication directory must belong to its account and exclude other writers"
    );
    let missing = Err("No such file or directory".to_string());
    assert_eq!(
        verify(ID, Standing { media: missing, ..good() }, 1000).unwrap_err(),
        "No such file or directory"
    );
    assert_eq!(record(&one, None).unwrap(), true);
    assert_eq!(record(&one, Some(&one)).unwrap(), false);
    assert!(record(&one, Some(&media_ownership::receipt(ID, 2, 4, &"a".repeat(64)).unwrap()))
        .is_err());
    assert!(validate_id("short").is_err());
    assert!(check_receipt_file(&file(9, 100), 1000).is_ok());
    assert!(check_receipt_file(&metadata(FileKind::File, 0o644, 9, 100), 1000).is_err());
    assert!(receipt_room(0, 0).is_ok());
    assert!(receipt_room(0, u64::MAX).is_err());
    assert!(check_review(true, true).is_ok());
}

#[test]
fn inventories_list_directories_with_what_is_known_of_them() {
    let mut inventory = Inventory::new();
    inventory.directory(0).unwrap();
    inventory.file(&Ok(file(5, 5)), 0).unwrap();
    inventory.file(&Ok(file(5, 5)), 0).unwrap();
    inventory.finish_directory("b", Ok(true));
    inventory.directory(0).unwrap();
    inventory.file(&Ok(file(6, 7)), 0).unwrap();
    inventory.finish_directory("a", Err("receipt is missing".to_string()));
    inventory.directories_done();
    inventory.receipts_done();
    let entries = inventory.finish(0).unwrap();
    assert_eq!(entries.len(), 2);
    assert_eq!((entries[0].directory.as_str(), entries[0].bytes), ("a", 7));
    assert!(!entries[0].ownership_verified);
    assert!(entries[0].issue.as_ref().unwrap().contains("receipt is missing"));
    assert_eq!((entries[1].directory.as_str(), entries[1].bytes), ("b", 5));
    assert!(entries[1].ownership_verified);
    let mut unsafe_kind = Inventory::new();
    unsafe_kind.directory(0).unwrap();
    assert!(unsafe_kind.file(&Ok(metadata(FileKind::Symlink, 0o777, 7, 5)), 0).is_err());
    assert_eq!(unsafe_kind.step, InventoryStep::Failed);
}

#[test]
fn inventories_list_receipts_and_removals_beside_directories() {
    let third = "c".repeat(32);
    let mut inventory = Inventory::new();
    inventory.directory(0).unwrap();
    inventory.finish_directory(ID, Ok(true));
    inventory.directories_done();
    inventory.receipt(0, &format!("{ID}.json")).unwrap();
    assert_eq!(inventory.step, InventoryStep::Receipts);
    inventory.receipt(0, &format!("{OTHER}.json")).unwrap();
    assert_eq!(inventory.step, InventoryStep::Orphan);
    inventory.orphan(&Err("no review".to_string()), Err("damaged".to_string())).unwrap();
    inventory.receipts_done();
    inventory.pending(ID, 0).unwrap();
    inventory.removal(Err("it changed".to_string())).unwrap();
    inventory.pending(&third, 0).unwrap();
    inventory.removal(Ok(true)).unwrap();
    let entries = inventory.finish(0).unwrap();
    assert_eq!(entries.len(), 3);
    assert!(entries.windows(2).all(|two| two[0].directory < two[1].directory));
    assert!(entries.iter().all(|e| e.ownership_verified || e.issue.is_some()));
    let of = |id: &str| entries.iter().find(|e| e.directory == id).unwrap();
    assert_eq!(of(ID).issue.as_deref(), Some("it changed"));
    assert!(!of(ID).ownership_verified);
    assert_eq!(
        of(OTHER).issue.as_deref(),
        Some("Invalid retained ownership receipt: damaged")
    );
    assert!(of(&third).ownership_verified);
    assert_eq!(
        of(&third).issue.as_deref(),
        Some("Interrupted removal. Review remaining files and references before resuming")
    );
    let begun = || {
        let mut inventory = Inventory::new();
        inventory.directories_done();
        inventory
    };
    let mut strange = begun();
    assert_eq!(
        strange.receipt(0, "notes.txt").unwrap_err(),
        "Unexpected file in managed receipt storage"
    );
    let mut short = begun();
    assert_eq!(short.receipt(0, "a.json").unwrap_err(), "Invalid managed import ID");
    let mut late = begun();
    assert_eq!(
        late.receipt(u64::MAX, &format!("{ID}.json")).unwrap_err(),
        "Managed receipt inventory exceeds its entry or time limit"
    );
    let mut gone = begun();
    gone.receipt(0, &format!("{ID}.json")).unwrap();
    assert_eq!(
        gone.orphan(&Ok(true), Ok(false)).unwrap_err(),
        "Managed receipt disappeared during inventory"
    );
    let mut ended = begun();
    ended.receipts_done();
    ended.pending(ID, 0).unwrap();
    assert_eq!(
        ended.removal(Ok(false)).unwrap_err(),
        "Managed removal record disappeared during inventory"
    );
    let mut over = begun();
    over.receipts_done();
    assert!(over.pending(ID, 5_000).is_err());
    let mut slow = begun();
    slow.receipts_done();
    assert!(slow.finish(u64::MAX).is_err());
}

#[test]
fn identifiers_are_judged_before_the_directory_is_looked_up() {
    let mut publish = Publish::begin("short", &"a".repeat(64), vec![], vec![]);
    publish.control(&CopyControl::new(5_000), 0);
    assert_eq!(publish.step, PublishStep::Measure);
    publish.measured(100);
    assert_eq!(publish.step, PublishStep::Failed);
    assert_eq!(publish.error, "Invalid managed import ID");
}

#[test]
fn reviews_hash_each_inode_once() {
    let name = sha256(b"asset");
    let meta = Metadata { nlink: 2, ..file(5, 5) };
    let mut review = Review::new();
    review.next(0).unwrap();
    review.opened(&format!("{name}.png"), &Ok(meta)).unwrap();
    assert_eq!(review.step, ScanStep::Read);
    review.read(0, &Ok(b"as".to_vec())).unwrap();
    review.read(0, &Ok(b"set".to_vec())).unwrap();
    review.read(0, &Ok(Vec::new())).unwrap();
    assert_eq!(review.step, ScanStep::Entries);
    assert_eq!(review.files[0].sha256, name);
    review.next(0).unwrap();
    review.opened(&name, &Ok(meta)).unwrap();
    assert_eq!(review.step, ScanStep::Entries);
    let done = review.finish(ID, &"a".repeat(64), &"a".repeat(64), 0).unwrap();
    assert_eq!(done.directory, ID);
    assert_eq!(done.bytes, 5);
    assert_eq!(done.files.len(), 2);
    assert_eq!(done.files[0].path, name);
    assert_eq!(done.files[0].matches_catalog, Some(true));
    assert!(Review::new().finish(ID, "a", "b", 0).is_err());
    assert!(Review::new().finish(ID, "a", "a", 600_000).is_err());
    let begun = || {
        let mut review = Review::new();
        review.next(0).unwrap();
        review.opened(&name, &Ok(meta)).unwrap();
        review
    };
    assert_eq!(
        begun().read(u64::MAX, &Ok(Vec::new())).unwrap_err(),
        "Managed review exceeded ten minutes"
    );
    assert_eq!(
        begun().read(0, &Ok(b"longer".to_vec())).unwrap_err(),
        "Managed media grew during review"
    );
    assert_eq!(
        begun().read(0, &Ok(Vec::new())).unwrap_err(),
        "Managed media shrank during review"
    );
    assert_eq!(begun().read(0, &Err("unreadable".to_string())).unwrap_err(), "unreadable");
    let mut late = Review::new();
    assert_eq!(
        late.next(u64::MAX).unwrap_err(),
        "Managed import review exceeded its entry or time limit"
    );
    let mut linked = Review::new();
    linked.next(0).unwrap();
    assert_eq!(
        linked.opened(&name, &Ok(metadata(FileKind::Symlink, 0o777, 5, 5))).unwrap_err(),
        "Managed review requires bounded regular files"
    );
}

fn reviewed(name: &str, bytes: u64, sha256: &str) -> CatalogReviewedFile {
    CatalogReviewedFile {
        path: name.to_string(),
        bytes,
        sha256: sha256.to_string(),
        matches_catalog: None,
    }
}

fn journal() -> Journal {
    let name = sha256(b"asset");
    let mut preparation = Preparation::new();
    let meta = Metadata { nlink: 2, ..file(5, 5) };
    for path in [name.clone(), format!("{name}.png")] {
        preparation.file(&reviewed(&path, 5, &name), &Ok(meta), 1000, 0).unwrap();
    }
    preparation.journal(receipt(), ID).unwrap()
}

#[test]
fn removal_records_cover_exactly_the_reviewed_files() {
    let name = sha256(b"asset");
    let meta = Metadata { nlink: 2, ..file(5, 5) };
    let one = journal();
    assert!(validate(&one, ID).is_ok());
    assert!(validate(&one, OTHER).is_err());
    assert_eq!(one.get(&name).unwrap().inode, 5);
    assert!(one.get("other").is_none());
    assert!(one.same(&journal()));
    assert!(one.get(&name).unwrap().matches(&meta, 1000));
    assert!(!one.get(&name).unwrap().matches(&file(6, 5), 1000));
    assert!(check_covered(&one, 0, &name, 0).is_ok());
    assert!(check_covered(&one, 0, "stranger", 0).is_err());
    assert!(check_remaining(&one, 0, &name, &Ok(meta), 1000, 0).is_ok());
    assert!(check_remaining(&one, 0, &name, &Ok(file(6, 5)), 1000, 0).is_err());
    assert!(check_ownership(&one, 2, &Some(receipt()), Some(3), Some(3)).is_ok());
    assert!(check_ownership(&one, 9, &Some(receipt()), Some(3), Some(3)).is_err());
    assert!(check_ownership(&one, 2, &Some(receipt()), Some(3), Some(4)).is_err());
    assert!(check_record(&one, Some(&journal()), 0).is_ok());
    assert!(check_record(&one, None, 0).is_err());
    assert!(check_record_bytes(u64::MAX).is_err());
    assert_eq!(
        missing_files(&one, &vec![reviewed(&name, 5, &name)]),
        vec![format!("{name}.png")]
    );
    assert!(valid_hash(&name));
    assert!(!valid_hash("short"));
    assert!(valid_name(&format!("{name}.png")));
    assert!(!valid_name("../escape"));
    let mut replaced = Preparation::new();
    assert!(replaced
        .file(&reviewed(&name, 6, &name), &Ok(meta), 1000, 0)
        .is_err());
}

#[test]
fn aliases_leave_before_their_objects() {
    let name = sha256(b"asset");
    let order = removal_order(&vec![
        reviewed(&name, 5, &name),
        reviewed(&format!("{name}.png"), 5, &name),
    ]);
    assert_eq!(order, vec![format!("{name}.png"), name]);
}

#[test]
fn removals_are_recorded_before_the_first_file_goes() {
    let name = sha256(b"asset");
    let meta = Metadata { nlink: 2, ..file(5, 5) };
    let mut review = Review::new();
    for path in [name.clone(), format!("{name}.png")] {
        review.next(0).unwrap();
        review.opened(&path, &Ok(meta)).unwrap();
        if review.step == ScanStep::Read {
            review.read(0, &Ok(b"asset".to_vec())).unwrap();
            review.read(0, &Ok(Vec::new())).unwrap();
        }
    }
    let before = "a".repeat(64);
    let done = review.finish(ID, &before, &before, 0).unwrap();
    let one = journal();
    let names = vec![name.clone(), format!("{name}.png")];
    let remaining = |names: &[String], held: bool| Remaining {
        imports: 2,
        receipt: Ok(Some(receipt())),
        opened: if held { Some(3) } else { None },
        current: if held { Some(3) } else { None },
        fingerprint: Ok(()),
        entries: names
            .iter()
            .map(|name| RemainingEntry { name: name.clone(), meta: Ok(meta), elapsed_ms: 0 })
            .collect(),
        record: Ok(Some(journal())),
        elapsed_ms: 0,
    };
    let unrecorded = || Pending {
        removals: Ok(false),
        record: Ok(None),
        opened: Ok(()),
        remaining: remaining(&[], true),
    };
    let mut removal = remove(ID, &done.sha256, 1000);
    removal.reviewed(done.clone());
    assert_eq!(removal.step, RemovalStep::Authorize);
    removal.done();
    removal.resumed(unrecorded());
    assert_eq!(removal.step, RemovalStep::ReadOrphan);
    removal.orphan(&Ok(true), &Ok(None));
    assert_eq!(removal.step, RemovalStep::Prepare);
    let mut recording = removal.recording();
    while recording.step != RecordStep::Prepared {
        match recording.step {
            RecordStep::Resume => recording.resumed(unrecorded(), 1000),
            RecordStep::VerifyOwnership => recording.owned(&Ok(true)),
            RecordStep::ReadReceipt => recording.receipt(Some(receipt())),
            RecordStep::FingerprintBefore => recording.before(&before),
            RecordStep::Files => recording.file(&Ok(meta), 1000, 0),
            RecordStep::Compose => recording.compose(),
            RecordStep::Entries => recording.listed(),
            RecordStep::FingerprintAfter => recording.after(&before),
            RecordStep::CountRecords => recording.counted(),
            RecordStep::Measure => recording.measured(100),
            RecordStep::Write => recording.written(),
            RecordStep::VerifyRecorded => recording.verified(&remaining(&names, true), 1000),
            _ => panic!("{}", recording.error),
        }
    }
    removal.prepared(recording);
    assert_eq!(removal.step, RemovalStep::VerifyReview);
    removal.compared(&remaining(&names, true), &names, Ok(&before));
    let mut removed = Vec::new();
    let mut steps = 0;
    while removal.step != RemovalStep::Finished && steps < 100 {
        steps += 1;
        match removal.step {
            RemovalStep::CheckFile => removal.checked(&Ok(meta), 0),
            RemovalStep::RemoveFile => {
                removed.push(removal.current().clone());
                removal.file_removed();
            }
            RemovalStep::VerifyEmptied => removal.verified(&remaining(&[], true)),
            RemovalStep::VerifyBeforeReceipt | RemovalStep::VerifyBeforeRecord => {
                removal.verified(&remaining(&[], false))
            }
            RemovalStep::Failed => panic!("{}", removal.error),
            _ => removal.done(),
        }
    }
    assert_eq!(removal.step, RemovalStep::Finished);
    assert_eq!(removed, vec![format!("{name}.png"), name]);
    let mut stale = remove(ID, "another review", 1000);
    stale.reviewed(done.clone());
    assert_eq!(stale.step, RemovalStep::Failed);
    let mut orphaned = remove(ID, &done.sha256, 1000);
    orphaned.reviewed(done.clone());
    orphaned.done();
    orphaned.resumed(unrecorded());
    orphaned.orphan(&Ok(false), &Ok(Some(b"receipt".to_vec())));
    assert_eq!(orphaned.error, "Managed orphan receipt changed. Review again");
    assert!(verify_review(
        &one,
        &vec![sha256(b"asset"), format!("{}.png", sha256(b"asset"))],
        &done,
        Ok(&before)
    )
    .is_ok());
}

#[test]
fn orphan_receipt_removal_requires_fresh_review_and_reference_authorization() {
    let receipt: Result<Option<Vec<u8>>, String> = Ok(Some(b"receipt".to_vec()));
    let review = || orphan_review(ID, b"receipt");
    let unrecorded = || Pending {
        removals: Ok(false),
        record: Ok(None),
        opened: Ok(()),
        remaining: Remaining {
            imports: 2,
            receipt: Ok(None),
            opened: None,
            current: None,
            fingerprint: Ok(()),
            entries: vec![],
            record: Ok(None),
            elapsed_ms: 0,
        },
    };
    let authorized = || {
        let mut removal = remove(ID, &review().sha256, 1000);
        removal.reviewed(review());
        assert_eq!(removal.step, RemovalStep::Authorize);
        removal
    };
    let mut referenced = authorized();
    referenced.failed("Referenced".to_string());
    assert_eq!(referenced.error, "Referenced");
    let mut stale = remove(ID, "stale", 1000);
    stale.reviewed(review());
    assert_eq!(stale.step, RemovalStep::Failed);
    let mut replaced = authorized();
    replaced.done();
    replaced.resumed(unrecorded());
    replaced.orphan(&Ok(false), &Ok(Some(b"replacement".to_vec())));
    assert_eq!(replaced.error, "Managed orphan receipt changed. Review again");
    let mut removal = authorized();
    removal.done();
    removal.resumed(unrecorded());
    removal.orphan(&Ok(false), &receipt);
    assert_eq!(removal.step, RemovalStep::RemoveOrphan);
    removal.done();
    assert_eq!(removal.step, RemovalStep::Finished);
}

#[test]
fn interrupted_removals_are_found_again_by_name() {
    assert!(pending_id(0, 0, "not-a-record").is_err());
    assert!(pending_id(0, u64::MAX, &format!("{ID}.json")).is_err());
    let orphan = orphan_review(ID, b"receipt");
    assert_eq!(orphan.directory, ID);
    assert!(orphan.files.is_empty());
    assert_eq!(removed_fingerprint(b"record").len(), 64);
    assert_ne!(removed_fingerprint(b"record"), removed_fingerprint(b"other"));
}

fn selected() -> PublishedSelection {
    PublishedSelection {
        import_id: ID.to_string(),
        lcds: vec![],
        templates: vec![],
        destination: None,
    }
}

fn ran(run: Result<Run, String>, code: i32, stderr: &str) -> Result<Ran, String> {
    let mut run = run?;
    let mut told = false;
    while run.step != RunStep::Complete && run.step != RunStep::Failed {
        match run.step {
            RunStep::CheckTime => run.tick(false, 0),
            RunStep::ReadOutput => run.read_output(Read::End),
            RunStep::ReadErrors => {
                run.read_errors(if told {
                    Read::End
                } else {
                    Read::Bytes(stderr.as_bytes().to_vec())
                });
                told = true;
            }
            RunStep::CheckExit => run.exited(true),
            RunStep::Finish => run.finished(Some(code)),
            _ => run.waited(),
        }
    }
    Ok(Ran { run, status: format!("exit status: {code}") })
}

fn selection(path: &str) -> Result<Vec<AssetDependency>, String> {
    Ok(vec![dependency(path, "LCD", AssetKind::Image)])
}

#[test]
fn guest_result_validation_does_not_require_host_visibility() {
    let directory = "/root/guest-only/state".to_string();
    let config = "/root/guest-alias/config.json";
    let path = format!("{directory}/media/imports/{ID}/asset.png");
    let mut result = PublishedSelection {
        import_id: ID.to_string(),
        lcds: vec![],
        templates: vec![],
        destination: Some(PublishedDestination {
            config_path: config.to_string(),
            state_directory: directory.clone(),
        }),
    };
    let unseen: Result<String, String> = Err("No such file or directory".to_string());
    let check = |result: &PublishedSelection, config: &str, path: &str| {
        validate_result(result, config, ID, &unseen, &selection(path))
    };
    check(&result, config, &path).unwrap();
    assert!(check(&result, &format!("{directory}/other.json"), &path).is_err());
    assert!(check(&result, config, &format!("{directory}/private.png")).is_err());
    result.destination.as_mut().unwrap().state_directory = format!("{directory}/../outside");
    assert!(check(&result, config, &path).is_err());
}

#[test]
fn result_must_match_the_requested_import_and_destination() {
    let config = "/root/config.json";
    let canonical: Result<String, String> = Ok("/root".to_string());
    let path = format!("/root/media/imports/{ID}/asset.png");
    let result = selected();
    validate_result(&result, config, ID, &canonical, &selection(&path)).unwrap();
    assert!(validate_result(&result, config, OTHER, &canonical, &selection(&path)).is_err());
    assert!(
        validate_result(&result, config, ID, &canonical, &selection("/root/private.png")).is_err()
    );
    assert!(validate_result(
        &result,
        config,
        ID,
        &canonical,
        &selection(&format!("{path}/../outside.png"))
    )
    .is_err());
}

fn account() -> Account {
    Account {
        uid: 1000,
        gid: 1000,
        groups: vec![1000],
        name: "user".to_string(),
        home: "/home/user".to_string(),
        container: None,
    }
}

fn checked(config: &str) -> Preflight {
    let one = account();
    let mut manager = Manager::begin(account());
    manager.activated(&output(0, ""));
    manager.identified(&output(0, ""), &Ok(("u".to_string(), vec![42])));
    let namespace = FileIdentity { device: "4".to_string(), inode: "5".to_string() };
    manager.compared(&namespace, &namespace);
    manager.status("Uid:\t1000 1000 1000 1000\nGid:\t1000 1000 1000 1000\nGroups:\t1000\n");
    assert_eq!(manager.step, ManagerStep::Verified, "{}", manager.error);
    let mut preflight = Preflight::begin(account(), ServiceScope::User, false);
    preflight.program(Some("lianli-control"));
    preflight.user_manager(&manager);
    let report = Destination {
        groups_fingerprint: one.group_fingerprint(),
        config_path: config.to_string(),
        ..destination()
    };
    preflight.inspected(&Ok(output(0, "")), Ok(report), &namespace);
    preflight.confirmed(&manager);
    assert_eq!(preflight.step, PreflightStep::Checked, "{}", preflight.error);
    preflight
}

#[test]
fn imports_run_between_a_source_and_a_checked_destination() {
    assert_eq!(
        source_arguments("/tmp/selection.json"),
        vec!["send-selected-media", "--selection", "/tmp/selection.json"]
    );
    assert!(destination_arguments(ServiceScope::User, ID, "/c.json").contains(&ID.to_string()));
    let good: Result<Output, String> = Ok(output(0, ""));
    let bad: Result<Output, String> = Ok(output(1, "refused"));
    assert!(check_outputs(&good, &good).is_ok());
    assert!(check_outputs(&bad, &good).unwrap_err().contains("refused"));
    assert!(check_outputs(&good, &bad).unwrap_err().contains("refused"));
    assert!(Launch::begin(ServiceScope::User, false, "/s", "/c.json", ID).is_err());
    assert!(Launch::begin(ServiceScope::User, true, "relative", "/c.json", ID).is_err());
    let transferring = || {
        let mut launch =
            Launch::begin(ServiceScope::User, true, "/s", "/root/config.json", ID).unwrap();
        launch.caller(account());
        launch.deployment(None);
        launch.preflight(&checked("/root/config.json"));
        assert_eq!(launch.step, LaunchStep::Transfer, "{}", launch.error);
        launch
    };
    let mut launch = transferring();
    let mut refused = transferring();
    let sent = ran(refused.sending(), 0, "");
    let arrived = ran(refused.receiving(), 1, "refused");
    refused.transferred(&sent, &arrived);
    assert_eq!(refused.step, LaunchStep::Failed);
    assert!(refused.error.contains("refused"));
    launch.transferred(&ran(launch.sending(), 0, ""), &ran(launch.receiving(), 0, ""));
    assert_eq!(launch.step, LaunchStep::Validate);
    let result = selected();
    launch.result(
        &Ok(result),
        &Ok("/root".to_string()),
        &selection(&format!("/root/media/imports/{ID}/asset.png")),
    );
    assert_eq!(launch.step, LaunchStep::Imported);
    let mut garbled = transferring();
    garbled.transferred(&ran(garbled.sending(), 0, ""), &ran(garbled.receiving(), 0, ""));
    garbled.result(&Err("eof".to_string()), &Ok("/root".to_string()), &Ok(vec![]));
    assert_eq!(
        garbled.error,
        "Invalid destination import result. Inspect storage before retrying: eof"
    );
    let mut elsewhere =
        Launch::begin(ServiceScope::User, true, "/s", "/root/config.json", ID).unwrap();
    elsewhere.caller(account());
    elsewhere.deployment(None);
    elsewhere.preflight(&checked("/other/config.json"));
    assert!(elsewhere.error.starts_with("The selected daemon configuration differs"));
    let mut unchecked =
        Launch::begin(ServiceScope::User, true, "/s", "/root/config.json", ID).unwrap();
    unchecked.caller(account());
    unchecked.deployment(None);
    let mut preflight = Preflight::begin(account(), ServiceScope::User, false);
    preflight.failed("no manager");
    unchecked.preflight(&preflight);
    assert_eq!(unchecked.error, "no manager");
}

#[test]
fn imports_into_a_box_follow_its_deployment() {
    let names = || ConfigNames { user: Ok(()), system: Ok(()) };
    let etc = Metadata { uid: 0, gid: 0, ..metadata(FileKind::Directory, 0o755, 2, 0) };
    let verifying = |config: &str| {
        let mut launch = Launch::begin(ServiceScope::User, true, "/s", config, ID).unwrap();
        launch.caller(account());
        launch.deployment(Some(Deployment {
            version: 1,
            owner_uid: 1000,
            owner_name: "user".to_string(),
            route: Route {
                launch: BoxLaunch {
                    name: "box".to_string(),
                    host_enter: "/usr/bin/distrobox-enter".to_string(),
                    binaries: "/usr/bin".to_string(),
                },
                user_config: "/home/user/config.json".to_string(),
                system_config: "/home/user/system/config.json".to_string(),
                user_working_directory: "/home/user".to_string(),
                system_working_directory: "/home/user".to_string(),
            },
        }));
        assert_eq!(launch.step, LaunchStep::VerifyDeployment);
        launch
    };
    let mut launch = verifying("/home/user/config.json");
    launch.deployed(&names(), &etc, "{}", &Ok(output(0, "")));
    assert_eq!(launch.step, LaunchStep::Discover, "{}", launch.error);
    let found = |state: Option<FileIdentity>| DestinationAnswer {
        output: Ok(output(0, "")),
        answer: Ok(Destination { state_directory: state, ..destination() }),
    };
    let state = FileIdentity { device: "6".to_string(), inode: "7".to_string() };
    launch.discovered(&Ok(()), &found(Some(state)));
    assert_eq!(launch.step, LaunchStep::Preflight, "{}", launch.error);
    assert_eq!(launch.execution.as_ref().unwrap().destination.name, "box");
    let mut unidentified = verifying("/home/user/config.json");
    unidentified.deployed(&names(), &etc, "{}", &Ok(output(0, "")));
    unidentified.discovered(&Ok(()), &found(None));
    assert_eq!(
        unidentified.error,
        "Container preflight did not report its state directory identity"
    );
    let mut moved = verifying("/home/user/other.json");
    moved.deployed(&names(), &etc, "{}", &Ok(output(0, "")));
    assert_eq!(
        moved.error,
        "The selected configuration differs from the installed Distrobox destination"
    );
    let mut replaced = verifying("/home/user/config.json");
    replaced.deployed(&names(), &etc, "{}", &Ok(output(1, "changed")));
    assert_eq!(replaced.error, "Container wrapper verification failed: changed");
}

fn chosen(label: &str) -> Prepare {
    let mut prepare = Prepare::begin("/managed");
    prepare.control(&CopyControl::new(5_000), 0);
    prepare.collected(Ok(vec![dependency(label, "LCD", AssetKind::Image)]));
    prepare.stage(&Ok(metadata(FileKind::Directory, 0o700, 7, 0)), 1000);
    assert_eq!(prepare.step, PrepareStep::CheckAsset, "{}", prepare.error);
    prepare
}

fn copied(adding: Adding, meta: &Metadata, bytes: &[u8]) -> Adding {
    let mut adding = adding;
    let mut control = CopyControl::new(5_000);
    let mut rest = bytes;
    while adding.step != AddStep::Added && adding.step != AddStep::Failed {
        match adding.step {
            AddStep::Inspect => adding.inspected(meta),
            AddStep::CreateTemporary => adding.created(),
            AddStep::Read => {
                adding.bytes(rest);
                rest = b"";
            }
            AddStep::Write => adding.written(&mut control),
            AddStep::Reread => adding.reread(meta),
            AddStep::SyncTemporary => adding.synced(),
            AddStep::Keep => adding.kept(),
            AddStep::Link => adding.linked(&Linked::Done),
            AddStep::CheckLinked => adding.confirm(&control, 0),
            _ => adding.control(&control, 0),
        }
    }
    adding
}

fn transfer_fixture(wrong_path: bool) {
    let label = "/root/source-that-does-not-exist.png";
    let bytes = b"[[{\"type\":\"image\"}],[]]";
    let control = CopyControl::new(5_000);
    let mut receiver = Receiver::begin(false).unwrap();
    receiver.control(&control, 0);
    receiver.selection(
        &Message::Selection { bytes: bytes.len(), sha256: sha256(bytes) },
        true,
    );
    assert_eq!(receiver.step, ReceiveStep::Choose);
    let mut prepare = chosen(label);
    receiver.chosen(&prepare);
    assert_eq!(receiver.paths, vec![label.to_string()]);
    receiver.asset_control(&control, 0).unwrap();
    let opened = receiver.asset(
        &Message::Asset {
            path: if wrong_path { "/unexpected".to_string() } else { label.to_string() },
        },
        true,
    );
    prepare.control(&control, 0);
    if wrong_path {
        assert!(prepare.opened(&opened).is_none());
        receiver.prepared(&prepare);
        assert_eq!(receiver.step, ReceiveStep::Failed);
        assert_eq!(
            receiver.error,
            format!("Opening LCD: {label}: Unexpected media descriptor order or path")
        );
    } else {
        let adding = prepare.opened(&opened).unwrap();
        prepare.added(copied(adding, &file(5, 4), b"1234"));
        while prepare.step != PrepareStep::Prepared {
            match prepare.step {
                PrepareStep::Sync => prepare.synced(),
                PrepareStep::Failed => panic!("{}", prepare.error),
                _ => prepare.control(&control, 0),
            }
        }
        receiver.prepared(&prepare);
        receiver.control(&control, 0);
        assert_eq!(receiver.step, ReceiveStep::Confirm);
        receiver.confirmed();
        assert_eq!(receiver.step, ReceiveStep::Received);
        assert!(check_complete(&Message::Complete, false).is_ok());
        assert!(check_complete(&Message::Complete, true).is_err());
    }
}

#[test]
fn destination_copies_received_descriptors_without_opening_source_labels() {
    transfer_fixture(false);
}

#[test]
fn unexpected_descriptor_path_discards_the_destination_stage() {
    transfer_fixture(true);
}

#[test]
fn transfers_are_bounded_and_unprivileged() {
    assert!(check_reader(true).is_err());
    assert!(check_sender(true).is_err());
    assert!(Receiver::begin(true).is_err());
    assert!(check_size(1024 * 1024).is_ok());
    assert_eq!(check_size(1024 * 1024 + 1).unwrap_err(), "Selection input exceeds 1 MiB");
    let refused = |message: &Message, descriptor| {
        let mut receiver = Receiver::begin(false).unwrap();
        receiver.control(&CopyControl::new(5_000), 0);
        receiver.selection(message, descriptor);
        receiver.error
    };
    let sized = |bytes, sha256: &str| Message::Selection { bytes, sha256: sha256.to_string() };
    assert_eq!(refused(&Message::Complete, false), "Expected a sealed media selection");
    assert_eq!(
        refused(&sized(10, "short"), true),
        "Invalid media selection size or checksum"
    );
    assert_eq!(refused(&sized(10, &"a".repeat(64)), false), "Selection descriptor missing");
    let choosing = || {
        let mut receiver = Receiver::begin(false).unwrap();
        receiver.control(&CopyControl::new(5_000), 0);
        receiver.selection(&sized(10, &"a".repeat(64)), true);
        receiver
    };
    let mut receiver = choosing();
    receiver.chosen(&chosen("/one"));
    receiver.asset_control(&CopyControl::new(5_000), 0).unwrap();
    assert_eq!(
        receiver.asset(&Message::Asset { path: "/one".to_string() }, false).unwrap_err(),
        "Media descriptor missing"
    );
    assert_eq!(receiver.step, ReceiveStep::AwaitCopies);
    let mut cancelled = CopyControl::new(5_000);
    cancelled.cancel();
    let mut stopped = choosing();
    stopped.chosen(&chosen("/one"));
    assert!(stopped.asset_control(&cancelled, 0).is_err());
    let mut none = choosing();
    let mut empty = Prepare::begin("/managed");
    empty.failed("No media");
    none.chosen(&empty);
    assert_eq!(none.error, "No media");
    let mut late = Receiver::begin(false).unwrap();
    late.control(&CopyControl::new(10), 20);
    assert_eq!(late.step, ReceiveStep::Failed);
}

fn destination() -> Destination {
    Destination {
        scope: ServiceScope::User,
        uid: 1000,
        gid: 1000,
        groups_fingerprint: "a".repeat(64),
        mount_namespace: FileIdentity { device: "4".to_string(), inode: "5".to_string() },
        state_directory: None,
        config_path: "/home/user/config.json".to_string(),
        working_directory: "/home/user".to_string(),
        state: None,
        assets: AssetAccessReport { uid: 1000, checked: 0, failed: 0, issues: vec![] },
    }
}

#[test]
fn imports_reach_the_destination_that_was_reviewed() {
    let one = destination();
    assert!(check_destination(&one, "/home/user/config.json").is_ok());
    assert!(check_destination(&one, "/other.json").is_err());
    assert!(check_unchanged(&one, &destination()).is_ok());
    let mut moved = destination();
    moved.mount_namespace.inode = "6".to_string();
    assert!(check_unchanged(&one, &moved).is_err());
}

#[test]
fn service_submission_bounds_lifetime_and_escapes_systemd_expansions() {
    let args = launch_arguments(
        ServiceScope::User,
        "/tmp/$request%u.json",
        "/home/user/config.json",
        ID,
    )
    .unwrap();
    assert!(args.iter().any(|arg| arg == "--property=RuntimeMaxSec=840s"));
    assert!(args.iter().any(|arg| arg == "--property=KillMode=control-group"));
    let separator = args.iter().position(|arg| arg == "--").unwrap();
    assert_eq!(
        &args[separator + 1..separator + 4],
        &["/usr/bin/lianli-control", "run-selected-media-import", "--scope"]
    );
    assert!(args.iter().any(|arg| arg == "/tmp/$$request%%u.json"));
    assert!(!args.iter().any(|arg| arg == "/bin/sh"));
}

#[test]
fn authorization_keeps_paths_as_literal_arguments_and_rejects_relative_targets() {
    let selection = "/tmp/selection $name; file.json";
    let config = "/home/user space/config.json";
    let args = authorization_arguments(ServiceScope::System, selection, config, ID).unwrap();
    assert_eq!(authorization_program(), "/usr/bin/pkexec");
    assert_eq!(args[6], selection);
    assert_eq!(args[8], config);
    assert!(authorization_arguments(ServiceScope::User, "relative", config, ID).is_err());
}

#[test]
fn import_requests_are_private_and_submitted_once() {
    assert!(check_start(true, &None).is_ok());
    assert!(check_start(false, &None).is_err());
    assert!(check_start(true, &Some(Status::begin(ID).unwrap())).is_err());
    let private = metadata(FileKind::Directory, 0o700, 2, 0);
    assert!(check_requests(&private, 1000, 0).is_ok());
    assert!(check_requests(&private, 1001, 0).is_err());
    assert!(check_requests(&metadata(FileKind::Directory, 0o755, 2, 0), 1000, 0).is_err());
    assert!(request_name(ID).contains(ID));
    assert!(check_submission(&Ok(output(0, ""))).is_ok());
    assert!(check_submission(&Ok(output(1, "denied"))).unwrap_err().contains("denied"));
    assert!(check_submission(&Err("late".to_string())).is_err());
    assert!(check_execution(&Ok(output(0, ""))).is_ok());
    assert!(check_request_file(&file(9, 10), 1000).is_ok());
    assert!(check_request_file(&metadata(FileKind::Symlink, 0o600, 9, 10), 1000).is_err());
    assert!(!owns_request("/tmp/selection.json", "/run/user/1000", ID));
}

fn begun_job() -> Job {
    let mut job = Job::begin(ID).unwrap();
    job.directory(&metadata(FileKind::Directory, 0o700, 2, 0), 1000);
    job.lock(&file(9, 0), 1000);
    job.locked(true);
    job.measured(100);
    job.written();
    assert_ne!(job.step, JobStep::Failed, "{}", job.error);
    job
}

fn finished_job(result: Result<PublishedSelection, String>) -> Job {
    let mut job = begun_job();
    job.ended(result);
    job.measured(200);
    job.written();
    assert_eq!(job.step, JobStep::Finished, "{}", job.error);
    job
}

fn import_found(lock: Option<Metadata>, free: bool, status: Status) -> ImportFound {
    ImportFound {
        directory: metadata(FileKind::Directory, 0o700, 2, 0),
        lock,
        free,
        file: file(10, 100),
        size: 100,
        status: Ok(status),
    }
}

#[test]
fn live_lock_excludes_duplicate_jobs_and_abandoned_status_never_claims_success() {
    assert!(read_import(None, 1000, &Ok(())).unwrap().is_none());
    assert!(read_import(Some(import_found(None, true, begun_job().status)), 1000, &Ok(()))
        .unwrap()
        .is_none());
    let job = begun_job();
    let lock = || Some(file(9, 0));
    assert!(read_import(Some(import_found(lock(), false, job.status)), 1000, &Ok(()))
        .unwrap()
        .unwrap()
        .active);
    let mut second = Job::begin(ID).unwrap();
    second.directory(&metadata(FileKind::Directory, 0o700, 2, 0), 1000);
    second.lock(&file(9, 0), 1000);
    second.locked(false);
    assert_eq!(second.step, JobStep::Failed);
    let dropped = import_found(lock(), true, begun_job().status);
    let stopped = read_import(Some(dropped), 1000, &Ok(())).unwrap().unwrap();
    assert!(!stopped.active && stopped.result.is_none());
    assert!(stopped.error.unwrap().contains("Files may have been copied"));
    let failed = finished_job(Err("x".repeat(4096)));
    let found = import_found(lock(), true, failed.status);
    let seen = read_import(Some(found), 1000, &Ok(())).unwrap().unwrap();
    assert_eq!(seen.error.unwrap().len(), 2048);
    assert!(check_alone(true).is_ok());
    assert!(check_alone(false).is_err());
}

#[test]
fn terminal_result_survives_reopen_and_status_links_are_refused() {
    let found = || import_found(Some(file(9, 0)), true, finished_job(Ok(selected())).status);
    let completed = read_import(Some(found()), 1000, &Ok(())).unwrap().unwrap();
    assert!(!completed.active && completed.error.is_none());
    assert_eq!(completed.result.unwrap().import_id, ID);
    let linked = ImportFound { file: metadata(FileKind::Symlink, 0o777, 10, 100), ..found() };
    assert!(read_import(Some(linked), 1000, &Ok(())).is_err());
    let relative = Err("paths are relative".to_string());
    assert!(read_import(Some(found()), 1000, &relative).is_err());
    assert!(check_file(&file(9, 10), 1000).is_ok());
    assert!(check_file(&metadata(FileKind::Symlink, 0o600, 9, 10), 1000).is_err());
    let private = metadata(FileKind::Directory, 0o700, 2, 0);
    assert!(check_directory(&private, 1000).is_ok());
    assert!(check_directory(&private, 1001).is_err());
    assert!(check_directory(&metadata(FileKind::Directory, 0o755, 2, 0), 1000).is_err());
    assert!(check_written(u64::MAX).is_err());
    assert!(check_read(u64::MAX).is_err());
    assert!(Status::begin("short").is_err());
}

#[test]
fn selections_are_bounded_and_point_into_their_import() {
    let mut size = SelectionSize { used: 0, limit: 10 };
    assert_eq!(size.write(6).unwrap(), 6);
    assert!(size.write(5).is_err());
    let groups = vec![
        vec![dependency("/a.png", "LCD", AssetKind::Image)],
        vec![dependency("/b.ttf", "template", AssetKind::Font)],
    ];
    let all = selection_dependencies(&groups, Ok(())).unwrap();
    assert_eq!(all.len(), 2);
    assert!(selection_dependencies(&groups, Err("relative".to_string())).is_err());
    let place = import_path("/home/user/.config/lianli", ID);
    assert_eq!(place, format!("/home/user/.config/lianli/media/imports/{ID}"));
    let (media, kept) =
        staged(MediaStaging::new(&place).unwrap(), "/a.png", &file(5, 5), b"asset");
    let name = sha256(b"asset");
    assert_eq!(kept, format!("{place}/{name}.png"));
    assert_eq!(replaced_path(&media, "/a.png"), kept);
    assert_eq!(replaced_path(&media, "/unknown.png"), "/unknown.png");
    let only = vec![dependency(&kept, "LCD", AssetKind::Image)];
    assert_eq!(
        staged_dependencies(&media, "/stage", &only).unwrap()[0].path,
        format!("/stage/{name}.png")
    );
    assert!(check_target(&media, "/home/user/.config/lianli", ID).is_ok());
    assert!(check_target(&media, "/home/user/.config/lianli", OTHER).is_err());
    assert!(check_validated("a", "a").is_ok());
    assert!(check_validated("a", "b").is_err());
}

#[test]
fn changed_validated_copies_are_not_published() {
    let place = import_path("/home/user/.config/lianli", OTHER);
    let media = MediaStaging::new(&place).unwrap();
    let mut publish = Publish::begin(OTHER, &"a".repeat(64), vec![], vec![]);
    publish.control(&CopyControl::new(5_000), 0);
    publish.measured(100);
    publish.target(&media, "/home/user/.config/lianli");
    publish.done();
    publish.capacity(&counted(MAX_STORE_BYTES));
    publish.staged(&"b".repeat(64));
    assert_eq!(publish.step, PublishStep::Failed);
    assert_eq!(publish.error, "Staged media changed after decoder validation");
}

#[test]
fn publications_are_recorded_before_they_move() {
    let place = import_path("/home/user/.config/lianli", ID);
    let media = MediaStaging::new(&place).unwrap();
    let drive = |staged: &str, published: &str| {
        let lcds = vec!["lcd".to_string()];
        let templates = vec!["template".to_string()];
        let mut publish = Publish::begin(ID, &"a".repeat(64), lcds, templates);
        let mut steps = 0;
        while publish.step != PublishStep::Published && publish.step != PublishStep::Failed {
            steps += 1;
            assert!(steps < 50);
            match publish.step {
                PublishStep::Measure => publish.measured(16_777_088),
                PublishStep::CheckTarget => publish.target(&media, "/home/user/.config/lianli"),
                PublishStep::FingerprintStaged => publish.staged(staged),
                PublishStep::Move => publish.moved(&Ok(())),
                PublishStep::FingerprintPublished => publish.published(published),
                PublishStep::CheckCapacity => publish.capacity(&counted(MAX_STORE_BYTES)),
                PublishStep::CheckControl
                | PublishStep::RecheckControl
                | PublishStep::ConfirmControl => publish.control(&CopyControl::new(5_000), 0),
                PublishStep::RecordOwnership => {
                    publish.recorded(2, 3, &Ok(publish.receipt(2, 3).ok()), &Ok(()))
                }
                _ => publish.done(),
            }
        }
        publish
    };
    let good = drive(&"a".repeat(64), &"a".repeat(64));
    let result = good.result();
    assert_eq!(result.import_id, ID);
    assert_eq!(result.lcds, vec!["lcd".to_string()]);
    assert_eq!(result.templates, vec!["template".to_string()]);
    assert!(result.destination.is_none());
    let mut large = Publish::begin(ID, &"a".repeat(64), vec![], vec![]);
    large.control(&CopyControl::new(5_000), 0);
    assert_eq!(large.step, PublishStep::Measure);
    large.measured(16_777_089);
    assert_eq!(large.step, PublishStep::Failed);
    let mut stopped = Publish::begin(ID, &"a".repeat(64), vec![], vec![]);
    let mut cancelled = CopyControl::new(5_000);
    cancelled.cancel();
    stopped.control(&cancelled, 0);
    assert_eq!(stopped.error, "Media staging was cancelled");
    let mut full = Publish::begin(ID, &"a".repeat(64), vec![], vec![]);
    full.control(&CopyControl::new(5_000), 0);
    full.measured(100);
    full.target(&media, "/home/user/.config/lianli");
    full.done();
    full.capacity(&counted(9));
    assert_eq!(full.step, PublishStep::Failed);
    let recording = |fingerprint: &str| {
        let mut publish = Publish::begin(ID, fingerprint, vec![], vec![]);
        publish.control(&CopyControl::new(5_000), 0);
        publish.measured(100);
        publish.target(&media, "/home/user/.config/lianli");
        publish.done();
        publish.capacity(&counted(MAX_STORE_BYTES));
        publish.staged(fingerprint);
        publish.done();
        publish.control(&CopyControl::new(5_000), 0);
        assert_eq!(publish.step, PublishStep::RecordOwnership, "{}", publish.error);
        publish
    };
    let mut other = recording(&"a".repeat(64));
    let earlier = other.receipt(2, 4).unwrap();
    assert_eq!((earlier.imports_inode, earlier.directory_inode), (2, 4));
    other.recorded(2, 3, &Ok(Some(earlier)), &Ok(()));
    assert_eq!(other.error, "Managed import ID already belongs to another publication");
    let mut unnamed = recording("short");
    unnamed.recorded(2, 3, &Ok(None), &Ok(()));
    assert_eq!(unnamed.error, "Invalid managed media fingerprint");
    let mut unkept = recording(&"a".repeat(64));
    unkept.recorded(2, 3, &Ok(None), &Err("no space".to_string()));
    assert_eq!(unkept.error, "no space");
    assert_eq!(drive(&"b".repeat(64), &"a".repeat(64)).step, PublishStep::Failed);
    assert_eq!(drive(&"a".repeat(64), &"b".repeat(64)).step, PublishStep::Failed);
}
