use lianli_control::account::Account;
use lianli_control::account_publication::{
    conclude, execute, Action, Message, Publication, ServeStep, Serving, Step,
};
use lianli_control::automatic_recovery;
use lianli_control::automatic_recovery::{check_service, run, Pending};
use lianli_control::command::{Output, Read, Run, RunStep};
use lianli_control::destination::StateSummary;
use lianli_control::files::{FileKind, Metadata};
use lianli_control::operation_job::{
    bounded_message, check_directory, check_file, check_helper, check_idle, check_lock,
    check_runtime, check_size, check_submission, has_reported, launch_arguments, needs_lock,
    new_id, observe, valid_id, JobStatus,
};
use lianli_control::reservation::{
    check_distinct, check_hardware_publication, check_inherited, check_operation_publication,
    check_retained, operation_identity, verify, Attempt, InheritedLock, InheritedReservations,
    Reservation, ReserveStep,
};
use lianli_control::saved_state::{
    asset_fingerprint, ensure_empty, inspect as inspect_saved, places, timeout_s, Checked, Inspection,
    InspectStep, SavedAsset,
};
use lianli_control::services::{
    FileIdentity, InstallationContext, ServiceAction, ServiceActionRequest, ServiceScope,
};

const ID: &str = "0123456789abcdef0123456789abcdef";

fn request() -> ServiceActionRequest {
    ServiceActionRequest { scope: ServiceScope::User, action: ServiceAction::Restart }
}

fn metadata(kind: FileKind, uid: u32, mode: u32, ino: u64, len: u64) -> Metadata {
    Metadata {
        kind,
        uid,
        gid: uid,
        mode,
        dev: 1,
        ino,
        len,
        nlink: 1,
        mtime: 10,
        mtime_nsec: 20,
        ctime: 30,
        ctime_nsec: 40,
    }
}

fn identity(device: &str, inode: &str) -> FileIdentity {
    FileIdentity { device: device.to_string(), inode: inode.to_string() }
}

fn output(code: i32, stderr: &str) -> Output {
    Output {
        code: Some(code),
        status: format!("exit status: {code}"),
        stdout: String::new(),
        stderr: stderr.to_string(),
    }
}

#[test]
fn observers_recover_progress_and_completion_without_owning_the_worker() {
    assert!(check_idle(&None).is_ok());
    let mut job = JobStatus::begin(ID, request()).unwrap();
    job.report("Verifying the new daemon instance");
    let first = observe(job.clone(), false, None).unwrap();
    assert!(first.status.active);
    assert_eq!(first.status.message, "Verifying the new daemon instance");
    assert!(needs_lock(&Some(job.clone())));
    assert!(check_idle(&Some(first)).is_err());
    job.finish(&Ok("New instance verified".to_string()));
    assert!(!needs_lock(&Some(job.clone())));
    assert!(!job.status.active);
    assert_eq!(job.status.success, Some(true));
    assert_eq!(job.status.message, "New instance verified");
    assert!(check_file(&metadata(FileKind::File, 1000, 0o600, 2, 10), 1000).is_ok());
    assert!(job.validate().is_ok());
}

#[test]
fn failed_operation_retains_bounded_actionable_result() {
    let mut job = JobStatus::begin(ID, request()).unwrap();
    job.finish(&Err(format!("Destination unavailable: {}", "x".repeat(32_000))));
    assert_eq!(job.status.success, Some(false));
    assert!(job.status.message.starts_with("Destination unavailable:"));
    assert!(job.status.message.len() < 16 * 1024);
    assert_eq!(bounded_message("short"), "short");
}

#[test]
fn abrupt_worker_exit_does_not_leave_permanent_busy_or_replay_an_action() {
    let mut job = JobStatus::begin(ID, request()).unwrap();
    job.report("Request sent. Verifying completion");
    let record = observe(job.clone(), true, Some(job.clone())).unwrap();
    assert!(!record.status.active);
    assert_eq!(record.status.success, Some(false));
    assert!(record.status.message.contains("interrupted"));
    assert!(record.status.message.contains("Recheck services before retrying"));
    assert!(job.status.active);
}

#[test]
fn progress_rejects_symlinks_shared_directories_and_unbounded_input() {
    assert!(check_lock(&metadata(FileKind::File, 1000, 0o600, 2, 0), 1000).is_ok());
    assert!(check_lock(&metadata(FileKind::Symlink, 1000, 0o600, 2, 0), 1000).is_err());
    assert!(check_file(&metadata(FileKind::Symlink, 1000, 0o600, 2, 0), 1000).is_err());
    assert!(check_size(16 * 1024).is_ok());
    assert!(check_size(16 * 1024 + 1).is_err());
    assert!(check_directory(&metadata(FileKind::Directory, 1000, 0o700, 2, 0), 1000).is_ok());
    assert!(check_directory(&metadata(FileKind::Directory, 1000, 0o755, 2, 0), 1000).is_err());
    assert!(check_directory(&metadata(FileKind::Directory, 1001, 0o700, 2, 0), 1000).is_err());
    assert!(check_runtime(1000, &metadata(FileKind::Directory, 1000, 0o700, 2, 0)).is_ok());
    assert!(check_runtime(0, &metadata(FileKind::Directory, 0, 0o700, 2, 0)).is_err());
}

#[test]
fn launch_keeps_arguments_literal_and_uses_a_detached_collectable_service() {
    let helper = "/a folder/$literal %value/lianli-control";
    let native = launch_arguments(&InstallationContext::Native, request(), helper, ID).unwrap();
    assert!(native.iter().any(|arg| arg == "--collect"));
    assert!(native.iter().any(|arg| arg == "--property=Restart=no"));
    let command = native.iter().position(|arg| arg == "--").unwrap() + 1;
    assert!(!native[..command]
        .iter()
        .any(|arg| ["--scope", "--pipe", "--pty", "--wait"].contains(&arg.as_str())));
    assert_eq!(
        &native[command..],
        [
            "/a folder/$$literal %value/lianli-control",
            "run-service-action",
            "--operation-id",
            ID,
            "--scope",
            "user",
            "--action",
            "restart"
        ]
    );
    let context = InstallationContext::Distrobox { name: "box with $literal".to_string() };
    let container = launch_arguments(&context, request(), helper, ID).unwrap();
    assert_eq!(
        &container[command..command + 6],
        [
            "/usr/bin/env",
            "--unset=INVOCATION_ID",
            "/usr/bin/distrobox-enter",
            "--name",
            "box with $$literal",
            "--"
        ]
    );
    assert_eq!(container[command + 6], "/a folder/$$literal %value/lianli-control");
    let system = launch_arguments(
        &context,
        ServiceActionRequest { scope: ServiceScope::System, ..request() },
        helper,
        ID,
    )
    .unwrap();
    assert!(system.windows(2).any(|pair| pair == ["--scope", "system"]));
    assert!(
        launch_arguments(&InstallationContext::UnsupportedContainer, request(), helper, ID)
            .is_err()
    );
    assert!(
        launch_arguments(&InstallationContext::Native, request(), helper, "../invalid").is_err()
    );
}

#[test]
fn submitted_operations_report_within_their_time() {
    assert_eq!(new_id(&(0u8..16).collect()), "000102030405060708090a0b0c0d0e0f");
    assert!(valid_id(ID));
    assert!(!valid_id("short"));
    assert!(check_submission(&Ok(output(0, ""))).is_ok());
    assert!(check_submission(&Ok(output(1, "denied"))).unwrap_err().contains("denied"));
    assert!(check_submission(&Err("late".to_string())).is_err());
    let job = JobStatus::begin(ID, request()).unwrap();
    assert_eq!(has_reported(29_999, &Some(job), ID).unwrap(), true);
    assert_eq!(has_reported(0, &None, ID).unwrap(), false);
    assert!(has_reported(30_000, &None, ID).is_err());
    assert!(check_helper(&Some(metadata(FileKind::File, 0, 0o755, 2, 10))).is_ok());
    assert!(check_helper(&Some(metadata(FileKind::File, 0, 0o644, 2, 10))).is_err());
    assert!(JobStatus::begin("../invalid", request()).is_err());
}

fn gathered(stdout: &[u8], stderr: &[u8], limit: usize, timeout_ms: u64) -> Run {
    let mut run = Run::begin(timeout_ms, limit).unwrap();
    let mut out: Vec<Read> = stdout.chunks(4096).map(|part| Read::Bytes(part.to_vec())).collect();
    let mut err: Vec<Read> = stderr.chunks(4096).map(|part| Read::Bytes(part.to_vec())).collect();
    let mut elapsed = 0;
    while run.step != RunStep::Complete && run.step != RunStep::Failed {
        match run.step {
            RunStep::CheckTime => run.tick(false, elapsed),
            RunStep::ReadOutput => {
                run.read_output(if out.is_empty() { Read::End } else { out.remove(0) })
            }
            RunStep::ReadErrors => {
                run.read_errors(if err.is_empty() { Read::End } else { err.remove(0) })
            }
            RunStep::CheckExit => run.exited(out.is_empty() && err.is_empty()),
            RunStep::Finish => run.finished(Some(1)),
            RunStep::Wait => {
                elapsed += run.wait_ms(u128::from(elapsed) * 1_000_000);
                run.waited();
            }
            RunStep::Complete | RunStep::Failed => unreachable!(),
        }
    }
    run
}

#[test]
fn captures_both_streams_and_preserves_unsuccessful_exit() {
    let result = gathered(b"disabled\n", b"detail\n", 64 * 1024, 2_000);
    assert_eq!(result.step, RunStep::Complete);
    assert_eq!(result.code, Some(1));
    assert_eq!(result.output.bytes, b"disabled\n".to_vec());
    assert_eq!(result.errors.bytes, b"detail\n".to_vec());
}

#[test]
fn output_flood_and_idle_child_are_bounded() {
    let flood = gathered(&vec![b'1'; 70 * 1024], b"", 64 * 1024, 2_000);
    assert_eq!(flood.step, RunStep::Failed);
    assert!(flood.error.contains("64 KiB"));
    let mut idle = Run::begin(100, 64 * 1024).unwrap();
    let mut elapsed = 0;
    while idle.step != RunStep::Failed {
        match idle.step {
            RunStep::CheckTime => idle.tick(false, elapsed),
            RunStep::ReadOutput => idle.read_output(Read::WouldBlock),
            RunStep::ReadErrors => idle.read_errors(Read::WouldBlock),
            RunStep::CheckExit => idle.exited(false),
            RunStep::Wait => {
                elapsed += idle.wait_ms(u128::from(elapsed) * 1_000_000).max(1);
                idle.waited();
            }
            _ => unreachable!(),
        }
    }
    assert!(idle.error.contains("timed out"));
    assert!(elapsed <= 200);
    let mut cancelled = Run::begin(100, 64 * 1024).unwrap();
    cancelled.tick(true, 0);
    assert_eq!(cancelled.step, RunStep::Failed);
}

#[test]
fn expanded_stdout_preserves_the_default_and_stderr_limits() {
    let input = vec![b'x'; 70 * 1024];
    let wide = gathered(&input, b"", 128 * 1024, 2_000);
    assert_eq!(wide.output.bytes.len(), 70 * 1024);
    assert_eq!(gathered(&input, b"", 64 * 1024, 2_000).step, RunStep::Failed);
    assert_eq!(gathered(b"", &input, 128 * 1024, 2_000).step, RunStep::Failed);
    assert!(Run::begin(2_000, 16 * 1024 * 1024 + 1).err().unwrap().contains("limit"));
}

#[test]
fn reservations_wait_for_a_writer_and_then_hold_the_same_file() {
    let expected = identity("1", "2");
    let lock = metadata(FileKind::File, 0, 0o666, 2, 0);
    let drive = |attempts: &[(Attempt, u64)], held: Metadata, found: FileIdentity| {
        let mut reservation = Reservation::begin(&expected, false, true);
        reservation.path(&Ok(expected.clone()));
        if reservation.step == ReserveStep::Open {
            reservation.opened(&lock);
        }
        for (attempt, elapsed_ms) in attempts {
            if reservation.step != ReserveStep::Lock {
                break;
            }
            reservation.tried(attempt, *elapsed_ms);
            if reservation.step == ReserveStep::Pause {
                reservation.paused();
            }
        }
        if reservation.step == ReserveStep::Verify {
            reservation.verified(&held, &Ok(found), &None);
        }
        reservation
    };
    let busy = (Attempt::Busy("in use".to_string()), 4_999);
    let late = (Attempt::Busy("in use".to_string()), 5_000);
    let granted = (Attempt::Granted, 0);
    let done = drive(&[busy.clone(), granted.clone()], lock, identity("1", "2"));
    assert_eq!(done.step, ReserveStep::Reserved);
    let timed_out = drive(&[busy.clone(), late], lock, identity("1", "2"));
    assert_eq!(timed_out.step, ReserveStep::Failed);
    let broken = drive(&[(Attempt::Failed("EIO".to_string()), 0)], lock, identity("1", "2"));
    assert!(broken.error.contains("EIO"));
    let replaced = drive(&[granted], lock, identity("1", "3"));
    assert_eq!(replaced.step, ReserveStep::Failed);
    assert!(verify(&expected, &lock, &Ok(identity("1", "2")), &None).is_ok());
    assert!(verify(&expected, &lock, &Err("gone".to_string()), &None).is_err());
    assert!(verify(&expected, &lock, &Ok(identity("1", "2")), &Some(Ok(identity("9", "9"))))
        .is_err());
}

#[test]
fn inherited_reservations_reject_other_owners_and_replaced_paths() {
    let held = metadata(FileKind::File, 0, 0o666, 2, 0);
    assert!(check_inherited(&held, &Ok(identity("1", "2")), &None, true).is_ok());
    assert!(check_inherited(&held, &Ok(identity("1", "3")), &None, true).is_err());
    let owned = metadata(FileKind::File, 1000, 0o666, 2, 0);
    assert!(check_inherited(&owned, &Ok(identity("1", "2")), &None, true).is_err());
    assert!(check_inherited(&owned, &Ok(identity("1", "2")), &None, false).is_ok());
    assert!(check_retained(&Attempt::Granted).is_ok());
    assert!(check_retained(&Attempt::Busy("in use".to_string())).is_err());
    assert!(check_distinct(&held, &metadata(FileKind::File, 0, 0o666, 3, 0)).is_ok());
    assert!(check_distinct(&held, &held).is_err());
    assert!(check_hardware_publication(true, false).is_ok());
    assert!(check_operation_publication(true).is_err());
    assert!(operation_identity(Ok(identity("1", "2")), &None, &Ok(identity("1", "2")))
        .unwrap()
        .same(&identity("1", "2")));
    assert!(operation_identity(Ok(identity("1", "2")), &None, &Ok(identity("1", "3"))).is_err());
}

fn saved(path: &str, len: u64) -> SavedAsset {
    SavedAsset {
        path: path.to_string(),
        source: Ok(metadata(FileKind::File, 1000, 0o600, 7, len)),
    }
}

fn summary(generation: &str) -> StateSummary {
    StateSummary {
        generation: generation.to_string(),
        profiles: 0,
        issue_count: 0,
        issues: vec![],
    }
}

#[test]
fn validation_rejects_settings_changes_and_accepts_unchanged_state() {
    let directory = metadata(FileKind::Directory, 1000, 0o700, 2, 0);
    let inspect = |after: u64, changed: bool| {
        let mut one = Inspection::begin("/root/config.json", "/root").unwrap();
        one.directory(&directory, 1000);
        one.present(&summary("generation"));
        one.before(&vec![saved("/root/active.png", 5)]);
        one.validated();
        one.after(&vec![saved("/root/active.png", after)]);
        if one.step == InspectStep::VerifyState {
            if changed {
                one.failed("Settings changed during validation");
            } else {
                one.unchanged();
                one.finish(&directory);
            }
        }
        one
    };
    let before = inspect(5, false).result();
    assert!(before.state.is_some());
    assert!(before.same(&inspect(5, false).result()));
    assert_eq!(inspect(5, true).step, InspectStep::Failed);
    assert_eq!(inspect(6, false).step, InspectStep::Failed);
}

#[test]
fn saved_media_and_unused_template_children_are_revalidated_after_decoding() {
    let directory = metadata(FileKind::Directory, 1000, 0o700, 2, 0);
    let inspect = |before: &Vec<SavedAsset>, after: &Vec<SavedAsset>| {
        let mut one = Inspection::begin("/root/config.json", "/root").unwrap();
        one.directory(&directory, 1000);
        one.present(&summary("generation"));
        one.before(before);
        one.validated();
        one.after(after);
        if one.step == InspectStep::VerifyState {
            one.unchanged();
            one.finish(&directory);
        }
        one
    };
    let media = |child| vec![saved("/root/active.png", 14), saved("/root/child.png", child)];
    let before = inspect(&media(15), &media(15)).result();
    assert_eq!(inspect(&media(15), &media(23)).step, InspectStep::Failed);
    let changed = inspect(&media(23), &media(23)).result();
    assert_eq!(before.state, changed.state);
    assert_ne!(before.assets, changed.assets);
    let gone = || {
        let mut media = media(23);
        media[0].source = Err("No such file or directory".to_string());
        media
    };
    let missing = inspect(&gone(), &gone()).result();
    assert_ne!(missing.assets, changed.assets);
    assert!(missing.same(&inspect(&gone(), &gone()).result()));
    let mut refused = Inspection::begin("/root/config.json", "/root").unwrap();
    refused.directory(&directory, 1000);
    refused.present(&summary("generation"));
    refused.before(&media(15));
    refused.failed("selected media is unavailable");
    assert_eq!(refused.step, InspectStep::Failed);
}

#[test]
fn missing_state_must_remain_empty_and_have_no_orphaned_auxiliary_files() {
    let paths = places("/root/config.json").unwrap();
    assert!(paths.contains(&"/root/config.json".to_string()));
    let missing: Vec<bool> = paths.iter().map(|_| true).collect();
    let directory = metadata(FileKind::Directory, 1000, 0o700, 2, 0);
    let mut one = Inspection::begin("/root/config.json", "/root").unwrap();
    one.directory(&directory, 1000);
    one.absent(&missing);
    one.before(&vec![]);
    one.validated();
    one.after(&vec![]);
    one.still_absent(&missing);
    one.finish(&directory);
    assert!(one.result().state.is_none());
    let mut orphaned = missing.clone();
    orphaned.pop();
    orphaned.push(false);
    assert!(ensure_empty(&orphaned).is_err());
    assert!(ensure_empty(&missing).is_ok());
    let mut late = Inspection::begin("/root/config.json", "/root").unwrap();
    late.directory(&directory, 1000);
    late.absent(&orphaned);
    assert_eq!(late.step, InspectStep::Failed);
    let begun = |target, root, config: &str| inspect_saved(&target, root, config, "/root").err();
    assert!(begun(Ok(()), false, "/root/config.json").is_none());
    assert_eq!(
        begun(Ok(()), true, "/root/config.json").unwrap(),
        "Validate saved settings under their unprivileged account"
    );
    let elsewhere = Err("Container state operation targets another configuration".to_string());
    assert!(begun(elsewhere, true, "/root/config.json").unwrap().contains("another configuration"));
    assert_eq!(begun(Ok(()), false, "config.json").unwrap(), "Saved-state paths must be absolute");
    assert_eq!(begun(Ok(()), false, "/").unwrap(), "Saved state has no directory");
    assert!(timeout_s(true) > timeout_s(false));
    assert_eq!(paths.len(), 4);
    assert_ne!(
        asset_fingerprint(&vec![saved("/a", 1)]).unwrap(),
        asset_fingerprint(&vec![saved("/a", 2)]).unwrap()
    );
    let checked = Checked { state: None, assets: "a".to_string() };
    assert!(!checked.same(&Checked { state: Some("s".to_string()), assets: "a".to_string() }));
}

fn restore() -> Action {
    Action::Restore { config: "/home/user/config.json".to_string(), backup: "backup-1".to_string() }
}

#[test]
fn settings_change_only_after_the_backup_is_recorded() {
    let mut publication = Publication::begin(&restore());
    for _ in 0..3 {
        publication.done();
    }
    assert_eq!(publication.step, Step::AwaitReady);
    publication.ready(&Message::Ready { backup: Some("undo-1".to_string()) }, false, &Ok(()));
    assert_eq!(publication.step, Step::RecordReady);
    publication.done();
    publication.done();
    publication.completed(&Message::Done { backup: Some("undo-1".to_string()) }, false, &Ok(()));
    assert_eq!(publication.step, Step::Done);
    assert_eq!(publication.result().unwrap(), Some("undo-1".to_string()));
    let mut other = Publication::begin(&restore());
    for _ in 0..3 {
        other.done();
    }
    other.ready(&Message::Ready { backup: Some("undo-1".to_string()) }, false, &Ok(()));
    other.done();
    other.done();
    other.completed(&Message::Done { backup: Some("undo-2".to_string()) }, false, &Ok(()));
    assert_eq!(other.step, Step::Failed);
    let good: Result<Output, String> = Ok(output(0, ""));
    let bad: Result<Output, String> = Ok(output(1, "worker failed"));
    assert!(conclude(Ok(None), &good).is_ok());
    assert!(conclude(Ok(None), &bad).unwrap_err().contains("worker failed"));
}

#[test]
fn workers_verify_their_reservations_around_the_change() {
    let mut serving = Serving::serve(1000).unwrap();
    let lock = |ino: u64, attempt: Attempt| InheritedLock {
        descriptor: metadata(FileKind::File, 0, 0o666, ino, 0),
        path: Ok(identity("1", &ino.to_string())),
        host: None,
        attempt,
    };
    let locks = |hardware: u64, attempt: Attempt| InheritedReservations {
        operation: lock(2, Attempt::Granted),
        hardware: lock(hardware, attempt),
        require_root: true,
    };
    let both = || locks(3, Attempt::Granted);
    let account = || Account {
        uid: 1000,
        gid: 1000,
        groups: vec![1000],
        name: "user".to_string(),
        home: "/home/user".to_string(),
        container: None,
    };
    let directory = metadata(FileKind::Directory, 1000, 0o700, 2, 0);
    let verified = |serving: &mut Serving, locks: &InheritedReservations| {
        serving.verified(locks, None, &Ok(()), &account(), &directory, &identity("4", "5"));
    };
    let asked = |serving: &mut Serving| {
        serving.operation(&Message::OperationLock, true);
        serving.hardware(&Message::HardwareLock, true);
        serving.reserved(&both());
        serving.request(&Message::Request { bytes: 10, digest: "a".repeat(64) }, true);
        serving.read(1000, restore());
        assert_eq!(serving.step, ServeStep::Verify, "{}", serving.error);
    };
    asked(&mut serving);
    verified(&mut serving, &both());
    serving.begun(Ok(Some("undo".to_string())));
    assert!(matches!(
        serving.ready_message(),
        Message::Ready { backup } if backup.as_deref() == Some("undo")
    ));
    serving.done();
    serving.proceed(&Message::Proceed, false);
    serving.reserved(&both());
    serving.changed(Ok(Some("kept".to_string())));
    serving.reserved(&both());
    assert!(matches!(
        serving.done_message(),
        Message::Done { backup } if backup.as_deref() == Some("kept")
    ));
    serving.done();
    assert_eq!(serving.step, ServeStep::Served);
    let mut stolen = Serving::serve(1000).unwrap();
    asked(&mut stolen);
    verified(&mut stolen, &locks(3, Attempt::Busy("held".to_string())));
    assert_eq!(stolen.error, "Publication cannot retain exclusive ownership: held");
    let mut shared = Serving::serve(1000).unwrap();
    asked(&mut shared);
    verified(&mut shared, &locks(2, Attempt::Granted));
    assert_eq!(shared.error, "Publication requires two distinct reservations");
    let mut full = Serving::serve(1000).unwrap();
    asked(&mut full);
    verified(&mut full, &both());
    full.begun(Err("no space".to_string()));
    assert_eq!(full.error, "no space");
    let mut unlocked = Serving::serve(1000).unwrap();
    unlocked.operation(&Message::OperationLock, false);
    assert_eq!(unlocked.step, ServeStep::Refused);
    assert!(Serving::serve(0).is_err());
    assert!(execute(&restore(), 1000, None, Some("lianli-control")).is_ok());
    assert!(execute(&restore(), 1000, None, Some("other")).is_err());
    let publish =
        Action::Publish { config: "/home/user/config.json".to_string(), destination_uid: 1001 };
    assert!(execute(&publish, 1000, None, Some("lianli-control")).is_err());
}

#[test]
fn nothing_pending_needs_no_recovery() {
    assert!(check_service(true, true).is_ok());
    assert!(check_service(false, true).is_err());
    assert!(check_service(true, false).is_err());
    let account = || Err("No such account".to_string());
    assert!(matches!(
        run(true, true, &Ok(None), &account()).unwrap(),
        Pending::Nothing { message } if message == "No service switch needs recovery."
    ));
    assert!(run(false, true, &Ok(None), &account()).is_err());
    assert!(run(true, false, &Ok(None), &account()).is_err());
    assert_eq!(
        run(true, true, &Err("busy".to_string()), &account()).err().unwrap(),
        "busy"
    );
    assert!(automatic_recovery::trigger(true, true));
    assert!(!automatic_recovery::trigger(false, true));
}
