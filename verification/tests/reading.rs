use lianli_control::container_bootstrap::{host_directory, shared_arguments};
use lianli_control::container_setup::initialize_locks;
use lianli_control::files::{FileKind, Metadata};
use lianli_control::findings::CheckState;
use lianli_control::media_health::{encoder_arguments, probe_arguments};
use lianli_control::media_import_worker;
use lianli_control::media_ownership;
use lianli_control::media_ownership::{
    CatalogDirectoryReview, CatalogReviewedFile, Receipt, ReceiptFile,
};
use lianli_control::media_removal::{FileIdentity, Journal, JournalFile};
use lianli_control::media_removal_record::{
    find_orphan, pending_ids, read, resume, review, Pending, PendingEntry, RecordFile, Remaining,
    RemainingEntry,
};
use lianli_control::module_health::{
    dkms_arguments, file_arguments, header_arguments, journal_arguments, loaded_arguments,
};
use lianli_control::operation_job;
use lianli_control::operation_job::{read_at, Found, JobStatus};
use lianli_control::process_owner;
use lianli_control::runtime_health::{
    check_report, group_fingerprint, inspect, HidBackend, RenderNode,
};
use lianli_control::services::{
    InstallationContext, ServiceAction, ServiceActionRequest, ServiceScope,
};
use lianli_control::switch_rollback::check_recovery_runtime;
use sha2::{Digest, Sha256};

const ID: &str = "1234567890abcdef1234567890abcdef";

fn metadata(kind: FileKind, uid: u32, mode: u32, ino: u64, len: u64) -> Metadata {
    Metadata {
        kind,
        uid,
        gid: uid,
        mode,
        dev: 1,
        ino,
        len,
        nlink: 1,
        mtime: 10,
        mtime_nsec: 20,
        ctime: 30,
        ctime_nsec: 40,
    }
}

fn file(ino: u64, len: u64) -> Metadata {
    metadata(FileKind::File, 1000, 0o600, ino, len)
}

fn directory(mode: u32) -> Metadata {
    metadata(FileKind::Directory, 1000, mode, 2, 0)
}

fn fingerprint(bytes: &[u8]) -> String {
    Sha256::digest(bytes).iter().map(|byte| format!("{byte:02x}")).collect()
}

fn receipt() -> Receipt {
    media_ownership::receipt(ID, 2, 3, &"a".repeat(64)).unwrap()
}

fn journal() -> Journal {
    Journal {
        version: 1,
        receipt: receipt(),
        files: ["b", "c"]
            .iter()
            .map(|digit| JournalFile {
                name: digit.repeat(64),
                identity: FileIdentity {
                    inode: 5,
                    bytes: 4,
                    modified: (10, 20),
                    sha256: digit.repeat(64),
                },
            })
            .collect(),
    }
}

fn remaining(opened: Option<u64>) -> Remaining {
    Remaining {
        imports: 2,
        receipt: Ok(Some(receipt())),
        opened,
        current: opened,
        fingerprint: Ok(()),
        entries: match opened {
            Some(_) => {
                vec![RemainingEntry { name: "b".repeat(64), meta: Ok(file(5, 4)), elapsed_ms: 0 }]
            }
            None => vec![],
        },
        record: Ok(Some(journal())),
        elapsed_ms: 0,
    }
}

fn record(journal: Result<Journal, String>) -> Result<Option<RecordFile>, String> {
    Ok(Some(RecordFile { meta: file(9, 100), bytes: 100, journal }))
}

#[test]
fn removal_records_are_private_bounded_and_of_their_import() {
    assert!(read(ID, record(Ok(journal())), 1000).unwrap().unwrap().same(&journal()));
    assert!(read(ID, Ok(None), 1000).unwrap().is_none());
    let refused = |id: &str, found| read(id, found, 1000).err().unwrap();
    assert_eq!(refused("short", Ok(None)), "Invalid managed import ID");
    assert_eq!(
        refused(ID, Err("denied".to_string())),
        "Opening managed removal record: denied"
    );
    assert_eq!(refused(ID, record(Err("eof".to_string()))), "eof");
    let shared = RecordFile {
        meta: metadata(FileKind::File, 1000, 0o644, 9, 100),
        bytes: 100,
        journal: Ok(journal()),
    };
    assert_eq!(
        refused(ID, Ok(Some(shared))),
        "Managed removal record must be a bounded private regular file"
    );
    let grown = RecordFile { meta: file(9, 100), bytes: u64::MAX, journal: Ok(journal()) };
    assert_eq!(refused(ID, Ok(Some(grown))), "Managed removal record is too large");
    assert_eq!(
        refused(&"f".repeat(32), record(Ok(journal()))),
        "Invalid managed removal record"
    );
}

fn pending(opened: Option<u64>) -> Pending {
    Pending {
        removals: Ok(true),
        record: record(Ok(journal())),
        opened: Ok(()),
        remaining: remaining(opened),
    }
}

#[test]
fn pending_removals_are_taken_up_as_they_were_recorded() {
    assert!(resume(ID, pending(Some(3)), 1000).unwrap().unwrap().same(&journal()));
    assert!(resume(ID, pending(None), 1000).unwrap().is_some());
    let none = Pending { removals: Ok(false), ..pending(Some(3)) };
    assert!(resume(ID, none, 1000).unwrap().is_none());
    let unrecorded = Pending { record: Ok(None), ..pending(Some(3)) };
    assert!(resume(ID, unrecorded, 1000).unwrap().is_none());
    let closed = Pending { opened: Err("denied".to_string()), ..pending(Some(3)) };
    assert_eq!(resume(ID, closed, 1000).err().unwrap(), "denied");
    let replaced = resume(ID, pending(Some(4)), 1000).err().unwrap();
    assert_eq!(replaced, "Managed directory was replaced");
}

fn reviewed() -> CatalogDirectoryReview {
    CatalogDirectoryReview {
        directory: ID.to_string(),
        sha256: "d".repeat(64),
        bytes: 4,
        files: vec![CatalogReviewedFile {
            path: "b".repeat(64),
            bytes: 4,
            sha256: "b".repeat(64),
            matches_catalog: None,
        }],
        missing_files: vec![],
    }
}

#[test]
fn reviews_of_a_removal_name_what_is_gone() {
    let names = vec!["b".repeat(64)];
    let sha256 = "d".repeat(64);
    let held = |current, found: &str| {
        review(
            &journal(),
            &remaining(Some(3)),
            current,
            b"record",
            &remaining(Some(3)),
            &names,
            Ok(found),
            1000,
        )
    };
    let shown = held(Ok(reviewed()), &sha256).unwrap();
    assert_eq!(shown.files.len(), 1);
    assert_eq!(shown.missing_files, vec!["c".repeat(64)]);
    assert_eq!(
        held(Ok(reviewed()), &"e".repeat(64)).err().unwrap(),
        "Managed contents changed since review"
    );
    assert_eq!(held(Err("denied".to_string()), &sha256).err().unwrap(), "denied");
    let gone = review(
        &journal(),
        &remaining(None),
        Err("unused".to_string()),
        b"record",
        &remaining(None),
        &vec![],
        Err("unused".to_string()),
        1000,
    )
    .unwrap();
    assert_eq!(gone.sha256, fingerprint(b"lianli-removed-import-v1\0record"));
    assert_eq!(gone.missing_files, vec!["b".repeat(64), "c".repeat(64)]);
    assert!(gone.files.is_empty());
}

#[test]
fn pending_removals_are_listed_in_order() {
    let entry = |name: &str| PendingEntry { name: Ok(Some(name.to_string())), elapsed_ms: 0 };
    let other = "f".repeat(32);
    let names = vec![entry(&format!("{ID}.json")), entry(&format!("{other}.json"))];
    assert_eq!(pending_ids(&Some(names)).unwrap(), vec![ID.to_string(), other]);
    assert!(pending_ids(&None).unwrap().is_empty());
    let refused = |entry| pending_ids(&Some(vec![entry])).unwrap_err();
    assert_eq!(refused(entry("notes")), "Unexpected managed removal metadata");
    assert_eq!(
        refused(PendingEntry { name: Ok(None), elapsed_ms: 0 }),
        "Invalid managed removal record name"
    );
    assert_eq!(
        refused(PendingEntry { name: Err("gone".to_string()), elapsed_ms: 0 }),
        "gone"
    );
    assert_eq!(
        refused(PendingEntry { name: Ok(None), elapsed_ms: 2_000 }),
        "Managed removal inventory exceeded its limits"
    );
}

#[test]
fn orphans_are_receipts_without_a_directory() {
    let found = find_orphan(ID, &Ok(false), &Ok(Some(b"receipt".to_vec()))).unwrap().unwrap();
    assert_eq!(found.directory, ID);
    assert_eq!(found.sha256, fingerprint(b"lianli-orphan-receipt-v1\0receipt"));
    assert!(find_orphan(ID, &Ok(true), &Ok(Some(vec![]))).unwrap().is_none());
    assert!(find_orphan(ID, &Ok(false), &Ok(None)).unwrap().is_none());
    assert!(find_orphan("short", &Ok(false), &Ok(None)).is_err());
}

#[test]
fn receipts_are_private_bounded_and_of_their_import() {
    let found = |meta, bytes, receipt| Ok(Some(ReceiptFile { meta, bytes, receipt }));
    let shown = media_ownership::read(ID, found(file(9, 100), 100, Ok(receipt())), 1000);
    assert!(shown.unwrap().unwrap().same(&receipt()));
    assert!(media_ownership::read(ID, Ok(None), 1000).unwrap().is_none());
    let refused = |found| media_ownership::read(ID, found, 1000).err().unwrap();
    assert_eq!(
        refused(Err("denied".to_string())),
        "Opening managed import ownership receipt: denied"
    );
    assert_eq!(
        refused(found(file(9, 5000), 100, Ok(receipt()))),
        "Managed import receipt must be a private regular file of at most 4 KiB"
    );
    assert_eq!(
        refused(found(file(9, 100), 4097, Ok(receipt()))),
        "Managed import receipt exceeds 4 KiB"
    );
    assert_eq!(refused(found(file(9, 100), 100, Err("eof".to_string()))), "eof");
    let mut other = receipt();
    other.version = 2;
    assert_eq!(
        refused(found(file(9, 100), 100, Ok(other))),
        "Invalid managed import ownership receipt"
    );
}

fn job(active: bool) -> JobStatus {
    let request =
        ServiceActionRequest { scope: ServiceScope::User, action: ServiceAction::Restart };
    let mut job = JobStatus::begin(ID, request).unwrap();
    if !active {
        job.finish(&Ok("done".to_string()));
    }
    job
}

fn progress(active: bool) -> Result<Option<operation_job::RecordFile>, String> {
    Ok(Some(operation_job::RecordFile {
        meta: file(9, 100),
        bytes: 100,
        job: Ok(job(active)),
    }))
}

fn observed(before: bool, free: bool, after: bool) -> Found {
    Found {
        directory: directory(0o700),
        record: progress(before),
        lock: Ok(file(8, 0)),
        free: Ok(free),
        again: progress(after),
    }
}

#[test]
fn progress_is_observed_under_the_lock_of_its_worker() {
    assert!(read_at(None, 1000).unwrap().is_none());
    let running = read_at(Some(observed(true, false, true)), 1000).unwrap().unwrap();
    assert!(running.status.active);
    let interrupted = read_at(Some(observed(true, true, true)), 1000).unwrap().unwrap();
    assert_eq!(interrupted.status.success, Some(false));
    let finished = read_at(Some(observed(true, true, false)), 1000).unwrap().unwrap();
    assert_eq!(finished.status.success, Some(true));
    let refused = |found| read_at(Some(found), 1000).err().unwrap();
    assert_eq!(
        refused(Found { directory: directory(0o755), ..observed(true, false, true) }),
        "Service progress directory must be private and belong to this account"
    );
    assert_eq!(
        refused(Found { lock: Err("missing".to_string()), ..observed(true, true, true) }),
        "Service progress has no worker lock: missing"
    );
    assert_eq!(
        refused(Found { lock: Ok(directory(0o700)), ..observed(true, true, true) }),
        "Service progress has no worker lock: Invalid service progress lock"
    );
    assert_eq!(
        refused(Found { again: Ok(None), ..observed(true, true, true) }),
        "Service progress disappeared"
    );
    assert_eq!(
        refused(Found { record: Err("denied".to_string()), ..observed(true, true, true) }),
        "Reading service progress: denied"
    );
    let private = Ok(directory(0o700));
    let seen = operation_job::read(1000, &private, Some(observed(true, false, true)));
    assert!(seen.unwrap().unwrap().status.active);
    assert!(operation_job::read(1000, &private, None).unwrap().is_none());
    assert_eq!(
        operation_job::read(0, &private, None).err().unwrap(),
        "Service jobs run under the desktop user, not root"
    );
    assert!(operation_job::read(1000, &Ok(directory(0o755)), None).is_err());
}

#[test]
fn progress_and_imports_lie_in_the_private_runtime_directory() {
    let private = Ok(directory(0o700));
    assert_eq!(
        operation_job::runtime_path(1000, &private).unwrap(),
        "/run/user/1000/lianli-control"
    );
    assert_eq!(
        media_import_worker::runtime_path(1000, &private).unwrap(),
        "/run/user/1000/lianli-media-import"
    );
    assert!(operation_job::runtime_path(0, &private).is_err());
    assert!(media_import_worker::runtime_path(0, &private).is_err());
    assert!(operation_job::runtime_path(1000, &Ok(directory(0o755))).is_err());
    let missing = Err("missing".to_string());
    assert_eq!(media_import_worker::runtime_path(1000, &missing).unwrap_err(), "missing");
}

#[test]
fn setup_needs_sound_shared_locks() {
    let run = metadata(FileKind::Directory, 0, 0o755, 1, 0);
    let lock = metadata(FileKind::File, 0, 0o666, 2, 0);
    assert!(initialize_locks(&run, &vec![lock.clone(), lock.clone()]).is_ok());
    assert_eq!(
        initialize_locks(&run, &vec![lock.clone(), file(3, 0)]).unwrap_err(),
        "Repair the shared host lock ownership and permissions before setup"
    );
    let open = metadata(FileKind::Directory, 0, 0o777, 1, 0);
    assert_eq!(
        initialize_locks(&open, &vec![lock]).unwrap_err(),
        "Host runtime has unsafe permissions"
    );
}

#[test]
fn recovery_stays_in_the_session_in_which_it_began() {
    let session = |inode: &str| {
        Some(lianli_control::services::FileIdentity {
            device: "1".to_string(),
            inode: inode.to_string(),
        })
    };
    assert!(check_recovery_runtime(&session("2"), &session("2")).is_ok());
    assert!(check_recovery_runtime(&None, &None).is_ok());
    assert_eq!(
        check_recovery_runtime(&session("3"), &session("2")).unwrap_err(),
        "The user runtime changed while waiting for startup. Resume recovery in the current session"
    );
    assert!(check_recovery_runtime(&None, &session("2")).is_err());
}

#[test]
fn tools_are_asked_with_literal_arguments() {
    assert_eq!(encoder_arguments(), vec!["-hide_banner", "-encoders"]);
    assert_eq!(probe_arguments(), vec!["-version"]);
    assert_eq!(dkms_arguments("6.1"), vec!["status", "-k", "6.1"]);
    assert_eq!(loaded_arguments("evdi"), vec!["-d", "/sys/module/evdi"]);
    assert_eq!(file_arguments("6.1", "evdi"), vec!["-k", "6.1", "-F", "filename", "evdi"]);
    assert_eq!(header_arguments("6.1"), vec!["-f", "/lib/modules/6.1/build/Makefile"]);
    assert_eq!(journal_arguments()[5], "--grep=(?i)(evdi|hermes[-_]kms)");
    assert_eq!(process_owner::file_arguments(7, "status"), vec!["--", "/proc/7/status"]);
    assert_eq!(
        process_owner::namespace_arguments(7),
        vec!["--dereference", "--format=%d:%i", "--", "/proc/7/ns/pid"]
    );
    assert_eq!(host_directory(1000, "lianli-host-1"), "/run/user/1000/lianli-host-1");
    assert_eq!(
        shared_arguments(1000, "lianli-host-1"),
        vec!["-Lc", "%d:%i:%u:%a", "--", "/run/user/1000/lianli-host-1"]
    );
}

#[test]
fn processes_report_on_themselves() {
    let node = RenderNode {
        name: "renderD128".to_string(),
        role: Some("host\n".to_string()),
        owner: Ok(String::new()),
        device: Ok(FileKind::CharDevice),
        granted: Ok(false),
    };
    let groups = vec![100, 200];
    let report = inspect(
        "1.0",
        &InstallationContext::Native,
        1000,
        100,
        &groups,
        &Ok(groups.clone()),
        &Ok((200, true)),
        None,
        &Some(vec![Some(node)]),
    );
    let codes: Vec<&str> = report.findings.iter().map(|found| found.code.as_str()).collect();
    assert_eq!(codes, vec!["runtime.groups", "runtime.lock_access", "runtime.hermes_access"]);
    assert_eq!(report.findings[2].state, CheckState::Failed);
    assert_eq!(report.groups_fingerprint, group_fingerprint(&groups));
    assert!(check_report(&report, "1.0", None, 1000, 100, &groups).is_ok());
    let usb = report.findings[0].clone();
    let asked = inspect(
        "1.0",
        &InstallationContext::Native,
        1000,
        100,
        &groups,
        &Ok(groups.clone()),
        &Err("hidden".to_string()),
        Some((HidBackend::Rusb, usb)),
        &None,
    );
    assert_eq!(asked.findings.len(), 2);
    assert_eq!(asked.hid_backend, Some(HidBackend::Rusb));
    assert_eq!(asked.findings[0].state, CheckState::Unavailable);
}
