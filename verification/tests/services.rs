use lianli_control::authorized_service::{
    check_coordinator, check_observer, mode, observe_arguments, Observation,
};
use lianli_control::command::Output;
use lianli_control::daemon_probe::{
    check_peer, request, validate_info, wait_ms, Exchange, ExchangeStep, Received, Written,
};
use lianli_control::distrobox_import::{validate_peer, Import, ImportStep, Peer};
use lianli_control::files::{FileKind, Metadata};
use lianli_control::media_import::{import_path, Publish, PublishStep};
use lianli_control::media_preparation::{Decode, DecodeStep};
use lianli_control::media_publication::{Usage, MAX_STORE_BYTES};
use lianli_control::media_staging::{CopyControl, MediaStaging};
use lianli_control::native_switch::{initial_state, reserve, verify_daemon, verify_running};
use lianli_control::ownership::{
    check_table, file_identity, host_identity, inspect, lock_owner, lock_path, parse_stat,
    stat_arguments, table_arguments, LockFacts, Table,
};
use lianli_control::process_owner;
use lianli_control::process_owner::{
    classify, namespace_pid, parse_cgroup, parse_start_time, parse_uid, read_process,
    verify_container_peer, PeerFiles, ProcessFiles,
};
use lianli_control::recovery_trigger;
use lianli_control::recovery_trigger::{named, submission, unit, State, Trigger, TriggerStep};
use lianli_control::services::{
    DaemonInfo, DaemonMode, FileIdentity, InstallationContext, OwnerProcess, OwnershipSnapshot,
    Policy, ServiceProbe, ServiceReport, ServiceScope, ServiceSelection, Startup, UnitState,
};
use lianli_control::switch_wait::{stop_decision, Start, StartStep, StopDecision};

const GUARDED_WRITES: &str = "guarded-writes";
const GRACEFUL_SHUTDOWN: &str = "graceful-shutdown";
const SERVICE_WRITE_GATE: &str = "service-write-gate";

fn identity(device: &str, inode: &str) -> FileIdentity {
    FileIdentity { device: device.to_string(), inode: inode.to_string() }
}

fn guard(info: &DaemonInfo) -> Result<(), String> {
    if info.capabilities.iter().any(|one| one == GUARDED_WRITES) {
        Ok(())
    } else {
        Err("Guarded writes are unsupported".to_string())
    }
}

fn info(pid: u32, capabilities: &[&str], lock: Option<FileIdentity>) -> DaemonInfo {
    DaemonInfo {
        version: "1.0".to_string(),
        protocol_version: 1,
        instance_id: "fixture".to_string(),
        pid,
        mode: DaemonMode::User,
        config_path: "/home/fixture/config.json".to_string(),
        capabilities: capabilities.iter().map(|one| one.to_string()).collect(),
        ownership_lock: lock,
        service_invocation: None,
        service_operation_lock: None,
    }
}

fn observation() -> Observation {
    Observation {
        owner: OwnershipSnapshot {
            identity: identity("1", "2"),
            owner_pid: Some(123),
            process: Some(ServiceProbe::Known {
                value: OwnerProcess {
                    pid: 123,
                    effective_uid: 1000,
                    start_time_ticks: "99".to_string(),
                    control_group: "/user.slice/fixture.service".to_string(),
                    service: Some(ServiceScope::User),
                },
            }),
        },
        info: info(123, &[GUARDED_WRITES, GRACEFUL_SHUTDOWN], Some(identity("1", "2"))),
    }
}

fn validated(
    one: &Observation,
    previous: &OwnershipSnapshot,
    scope: ServiceScope,
    uid: u32,
) -> Result<(), String> {
    one.validate(previous, scope, uid, &guard(&one.info))
}

#[test]
fn account_observation_requires_the_same_process_account_mode_and_lock() {
    let original = observation();
    assert!(validated(&original, &original.owner, ServiceScope::User, 1000).is_ok());
    assert!(validated(&original, &original.owner, ServiceScope::User, 1001).is_err());
    assert!(validated(&original, &original.owner, ServiceScope::System, 1000).is_err());
    for change in 0..10 {
        let mut changed = observation();
        match change {
            0 => changed.owner.identity.inode = "different".to_string(),
            1 => changed.owner.owner_pid = Some(124),
            2 => changed.info.pid = 124,
            3 => changed.info.mode = DaemonMode::System,
            4 => changed.info.ownership_lock = None,
            5 => changed.info.capabilities.clear(),
            _ => {
                let Some(ServiceProbe::Known { value }) = &mut changed.owner.process else {
                    unreachable!()
                };
                match change {
                    6 => value.start_time_ticks = "100".to_string(),
                    7 => value.control_group = "/another.service".to_string(),
                    8 => value.effective_uid = 1001,
                    _ => value.service = None,
                }
            }
        }
        assert!(
            validated(&changed, &original.owner, ServiceScope::User, 1000).is_err(),
            "change {change}"
        );
    }
}

#[test]
fn system_observation_uses_its_service_account_and_rejects_unknown_owners() {
    let mut current = observation();
    current.info.mode = DaemonMode::System;
    let Some(ServiceProbe::Known { value }) = &mut current.owner.process else {
        unreachable!()
    };
    value.effective_uid = 900;
    value.service = Some(ServiceScope::System);
    value.control_group = "/system.slice/lianli-daemon-system.service".to_string();
    assert!(validated(&current, &current.owner, ServiceScope::System, 1000).is_ok());
    let mut unknown = current.owner.clone();
    unknown.process = None;
    assert!(validated(&current, &unknown, ServiceScope::System, 1000).is_err());
}

#[test]
fn coordinators_and_observers_are_told_apart() {
    assert!(check_observer(true, 1000).is_ok());
    assert!(check_observer(false, 1000).is_err());
    assert!(check_observer(true, 0).is_err());
    assert!(check_coordinator(true, true, Some("lianli-control"), true).is_ok());
    assert!(check_coordinator(false, true, Some("lianli-control"), true).is_err());
    assert!(check_coordinator(true, true, Some("other"), true).is_err());
    assert_eq!(mode(ServiceScope::System), DaemonMode::System);
    assert_eq!(
        observe_arguments(ServiceScope::User),
        vec!["observe-service", "--scope", "user"]
    );
}

#[test]
fn service_controls_reject_old_forced_exit_daemons_even_at_the_same_version() {
    let owner = OwnershipSnapshot {
        identity: identity("1", "2"),
        owner_pid: Some(123),
        process: None,
    };
    let mut daemon = info(123, &[GUARDED_WRITES], Some(owner.identity.clone()));
    let check = |daemon: &DaemonInfo, scope| {
        validate_info(daemon, &owner, scope, &guard(daemon), GRACEFUL_SHUTDOWN)
    };
    assert!(check(&daemon, ServiceScope::User).is_err());
    daemon.capabilities.push(GRACEFUL_SHUTDOWN.to_string());
    assert!(check(&daemon, ServiceScope::User).is_ok());
    assert!(check(&daemon, ServiceScope::System).is_err());
    daemon.ownership_lock = None;
    assert!(check(&daemon, ServiceScope::User).is_err());
}

fn exchanged(reply: &[u8], limit: usize) -> Exchange {
    let text = request("GetDaemonInfo");
    assert_eq!(text, "{\"method\":\"GetDaemonInfo\"}\n");
    let bytes = text.into_bytes();
    let count = bytes.len();
    let mut exchange = Exchange::begin(bytes, limit);
    exchange.clock(4_999);
    exchange.wrote(Written::Count(count));
    exchange.clock(4_999);
    assert_eq!(exchange.step, ExchangeStep::Read);
    exchange.received(Received::Bytes(reply.to_vec()));
    exchange
}

#[test]
fn replies_must_be_bounded_complete_json_and_respect_the_deadline() {
    let good = exchanged(b"{\"status\":\"ok\",\"data\":42}\n", 64);
    assert_eq!(good.step, ExchangeStep::Replied);
    assert_eq!(good.response, b"{\"status\":\"ok\",\"data\":42}\n".to_vec());
    assert!(serde_json::from_slice::<serde_json::Value>(&good.response).is_ok());
    let garbage = exchanged(b"garbage\n", 64);
    assert!(serde_json::from_slice::<serde_json::Value>(&garbage.response).is_err());
    let oversized = exchanged(&[b'x'; 65], 64);
    assert_eq!(oversized.step, ExchangeStep::Failed);
    let closed = exchanged(b"", 64);
    assert_eq!(closed.step, ExchangeStep::Failed);
    let mut late = Exchange::begin(request("GetDaemonInfo").into_bytes(), 64);
    late.clock(5_000);
    assert_eq!(late.step, ExchangeStep::Failed);
    assert!(wait_ms(0).is_err());
    assert_eq!(wait_ms(20_000_000).unwrap(), 20);
    assert_eq!(wait_ms(20_900_000).unwrap(), 20);
    assert_eq!(wait_ms(1).unwrap(), 1);
}

#[test]
fn peers_of_the_daemon_socket_are_checked() {
    let Some(ServiceProbe::Known { value }) = observation().owner.process else {
        unreachable!()
    };
    assert!(check_peer(true, &value, 1000, 123).is_ok());
    assert!(check_peer(true, &value, 1001, 123).is_err());
    assert!(check_peer(true, &value, 1000, 124).is_err());
}

#[test]
fn import_refuses_another_account_namespace_instance_or_mode() {
    let mut base = info(42, &[GUARDED_WRITES, SERVICE_WRITE_GATE], None);
    base.instance_id = "selected".to_string();
    base.config_path = "/state/config.json".to_string();
    let peer = Peer { pid: 42, uid: 1000, gid: 1000 };
    let in_scope = |daemon: &DaemonInfo, config: &str, instance: &str, uid, same, scope| {
        validate_peer(
            daemon,
            &peer,
            config,
            instance,
            uid,
            same,
            scope,
            &guard(daemon),
            SERVICE_WRITE_GATE,
        )
    };
    let check = |daemon: &DaemonInfo, config: &str, instance: &str, uid, same| {
        in_scope(daemon, config, instance, uid, same, ServiceScope::User)
    };
    let config = "/state/config.json";
    check(&base, config, "selected", 1000, true).unwrap();
    assert!(check(&base, config, "selected", 1001, true).is_err());
    assert!(check(&base, config, "selected", 1000, false).is_err());
    assert!(check(&base, config, "restarted", 1000, true).is_err());
    assert!(check(&base, "/other/config.json", "selected", 1000, true).is_err());
    let mut changed = base.clone();
    changed.mode = DaemonMode::System;
    assert!(check(&changed, config, "selected", 1000, true).is_err());
    in_scope(&changed, config, "selected", 1000, true, ServiceScope::System).unwrap();
    assert!(in_scope(&changed, config, "selected", 1001, true, ServiceScope::System).is_err());
    assert!(in_scope(&changed, config, "selected", 1000, false, ServiceScope::System).is_err());
    assert!(in_scope(&base, config, "selected", 1000, true, ServiceScope::System).is_err());
    changed = base.clone();
    changed.capabilities.retain(|capability| capability != SERVICE_WRITE_GATE);
    assert!(check(&changed, config, "selected", 1000, true).is_err());
}

fn decoded(destination: &str) -> Decode {
    let media = MediaStaging::new(destination).unwrap();
    let mut decode = Decode::begin();
    decode.control(&CopyControl::new(5_000), 0);
    decode.collected(&media, "/stage", &vec![]);
    decode.before(&"a".repeat(64));
    decode.decoded();
    decode.control(&CopyControl::new(5_000), 0);
    decode.after(&"a".repeat(64));
    assert_eq!(decode.step, DecodeStep::Validated, "{}", decode.error);
    decode
}

fn counted() -> Result<Usage, String> {
    let mut usage = Usage::new(MAX_STORE_BYTES);
    usage.imports_done();
    usage.end(0)?;
    Ok(usage)
}

fn publish(id: &str, fingerprint: &str, lcds: Vec<String>) -> Publish {
    let media = MediaStaging::new(&import_path("/state", id)).unwrap();
    let mut publish = Publish::begin(id, fingerprint, lcds, vec![]);
    while publish.step != PublishStep::Published && publish.step != PublishStep::Failed {
        match publish.step {
            PublishStep::Measure => publish.measured(100),
            PublishStep::CheckTarget => publish.target(&media, "/state"),
            PublishStep::FingerprintStaged => publish.staged(fingerprint),
            PublishStep::Move => publish.moved(&Ok(())),
            PublishStep::FingerprintPublished => publish.published(fingerprint),
            PublishStep::CheckCapacity => publish.capacity(&counted()),
            PublishStep::CheckControl
            | PublishStep::RecheckControl
            | PublishStep::ConfirmControl => publish.control(&CopyControl::new(5_000), 0),
            PublishStep::RecordOwnership => publish.recorded(2, 3, &Ok(None), &Ok(())),
            _ => publish.done(),
        }
    }
    publish
}

#[test]
fn imports_in_a_box_publish_under_the_daemons_own_lock() {
    let id = "1234567890abcdef1234567890abcdef";
    let lock = identity("1", "2");
    let directory = Metadata {
        kind: FileKind::Directory,
        uid: 1000,
        gid: 1000,
        mode: 0o700,
        dev: 1,
        ino: 3,
        len: 0,
        nlink: 2,
        mtime: 0,
        mtime_nsec: 0,
        ctime: 0,
        ctime_nsec: 0,
    };
    let mut daemon = info(42, &[GUARDED_WRITES, SERVICE_WRITE_GATE], None);
    daemon.instance_id = "selected".to_string();
    daemon.config_path = "/state/config.json".to_string();
    daemon.service_operation_lock = Some(lock.clone());
    let peer = Peer { pid: 42, uid: 1000, gid: 1000 };
    let begin = |id: &str| {
        Import::begin(true, ServiceScope::User, "/state/config.json", "selected", id, 1000)
    };
    let connect = |import: &mut Import, same: Result<bool, String>| {
        import.connected(&daemon, &peer, &same, &guard(&daemon), SERVICE_WRITE_GATE)
    };
    let publishing = || {
        let mut import = begin(id).unwrap();
        connect(&mut import, Ok(true));
        import.tried(&lock);
        import.opened(&directory);
        import.transaction(&Ok(false));
        import.prepared(&decoded("/state/media/imports"));
        import.locked(lock.clone());
        import.reconnected(&daemon, &peer, &Ok(true), &guard(&daemon), SERVICE_WRITE_GATE);
        import.reopened(&directory);
        import.transaction(&Ok(false));
        assert_eq!(import.step, ImportStep::Publish, "{}", import.error);
        import
    };
    let mut import = publishing();
    assert_eq!(import.fingerprint, "a".repeat(64));
    let lcds = vec!["{\"type\":\"image\"}".to_string()];
    let published = publish(id, &import.fingerprint, lcds.clone());
    import.published(published, Ok("/state".to_string()));
    assert_eq!(import.step, ImportStep::Done, "{}", import.error);
    let result = import.result.unwrap();
    assert_eq!(result.import_id, id);
    assert_eq!(result.lcds, lcds);
    let place = result.destination.unwrap();
    assert_eq!(place.config_path, "/state/config.json");
    assert_eq!(place.state_directory, "/state");
    let mut lost = publishing();
    lost.published(publish(id, &"a".repeat(64), vec![]), Err("gone".to_string()));
    assert_eq!(lost.error, "gone");
    assert_eq!(begin("short").err().unwrap(), "Invalid managed import ID");
    let mut replaced = begin(id).unwrap();
    connect(&mut replaced, Ok(true));
    replaced.tried(&identity("1", "9"));
    assert_eq!(replaced.step, ImportStep::Failed);
    let mut open = begin(id).unwrap();
    connect(&mut open, Ok(true));
    open.tried(&lock);
    open.opened(&Metadata { mode: 0o777, ..directory });
    assert_eq!(
        open.error,
        "Media publication directory must belong to its account and exclude other writers"
    );
    let mut apart = begin(id).unwrap();
    connect(&mut apart, Ok(false));
    assert_eq!(apart.step, ImportStep::Failed);
    let mut unseen = begin(id).unwrap();
    connect(&mut unseen, Err("denied".to_string()));
    assert_eq!(unseen.error, "denied");
}

fn unit_state(scope: ServiceScope, active: bool) -> UnitState {
    UnitState {
        name: scope.unit().to_string(),
        load_state: "loaded".to_string(),
        active_state: if active { "active" } else { "inactive" }.to_string(),
        sub_state: if active { "running" } else { "dead" }.to_string(),
        unit_file_state: if active { "enabled" } else { "disabled" }.to_string(),
        main_pid: if active { 123 } else { 0 },
        fragment_path: "fixture".to_string(),
        control_group: None,
        kill_mode: None,
        send_sigkill: None,
        graceful_shutdown: None,
        invocation_id: None,
        distrobox_name: None,
    }
}

fn report(running: bool) -> ServiceReport {
    ServiceReport {
        context: InstallationContext::Native,
        user: ServiceProbe::Known { value: unit_state(ServiceScope::User, running) },
        system: ServiceProbe::Known { value: unit_state(ServiceScope::System, false) },
        ownership: Some(ServiceProbe::Known {
            value: OwnershipSnapshot {
                identity: identity("1", "2"),
                owner_pid: if running { Some(123) } else { None },
                process: if running {
                    Some(ServiceProbe::Known {
                        value: OwnerProcess {
                            pid: 123,
                            effective_uid: 1000,
                            start_time_ticks: "7".to_string(),
                            control_group: "/fixture".to_string(),
                            service: Some(ServiceScope::User),
                        },
                    })
                } else {
                    None
                },
            },
        }),
    }
}

fn policy(running: bool) -> Result<Policy, String> {
    Ok(Policy {
        user: if running { Startup::Enabled } else { Startup::Disabled },
        system: Startup::Disabled,
    })
}

fn unit_of(probe: &mut ServiceProbe<UnitState>) -> &mut UnitState {
    match probe {
        ServiceProbe::Known { value } => value,
        ServiceProbe::Unavailable { .. } => unreachable!(),
    }
}

fn owner_of(report: &mut ServiceReport) -> &mut OwnershipSnapshot {
    match &mut report.ownership {
        Some(ServiceProbe::Known { value }) => value,
        _ => unreachable!(),
    }
}

#[test]
fn logout_during_startup_wait_prevents_starting_in_a_replaced_session() {
    let mut activating = report(false);
    unit_of(&mut activating.user).active_state = "activating".to_string();
    unit_of(&mut activating.user).sub_state = "start".to_string();
    let mut start = Start::begin(
        ServiceSelection { scope: ServiceScope::User, uid: 1000 },
        "/fixture/config.json",
        0,
    );
    let mut logged_out = false;
    while start.step != StartStep::Failed {
        match start.step {
            StartStep::CheckContext | StartStep::ConfirmContext => {
                if logged_out {
                    start.failed("Runtime replaced after logout".to_string());
                } else {
                    start.done();
                }
            }
            StartStep::Inspect => {
                if logged_out {
                    start.inspected(&report(false));
                } else {
                    start.inspected(&activating);
                }
            }
            StartStep::ReadClock => start.clock(u64::from(logged_out) * 1000),
            StartStep::Pause => {
                logged_out = true;
                start.done();
            }
            _ => panic!("A replaced session must not start a service"),
        }
    }
    assert!(logged_out);
    assert!(start.error.contains("Runtime replaced after logout"));
}

#[test]
fn initial_inspection_distinguishes_owned_running_and_idle_sources() {
    for running in [false, true] {
        assert_eq!(
            initial_state(&report(running), policy(running), ServiceScope::System, 1000)
                .unwrap()
                .1,
            running
        );
    }
    assert!(initial_state(&report(true), policy(true), ServiceScope::System, 1001).is_err());
}

#[test]
fn source_preflight_rejects_competing_unverified_or_changing_owners_before_mutation() {
    for case in 0..6 {
        let mut report = report(true);
        let mut startup = policy(true);
        match case {
            0 => {
                let Some(ServiceProbe::Known { value }) = &mut owner_of(&mut report).process else {
                    unreachable!()
                };
                value.service = None;
            }
            1 => owner_of(&mut report).owner_pid = Some(124),
            2 => unit_of(&mut report.system).active_state = "activating".to_string(),
            3 => unit_of(&mut report.user).active_state = "deactivating".to_string(),
            4 => {
                report.ownership = Some(ServiceProbe::Unavailable {
                    reason: "unverified kernel owner".to_string(),
                })
            }
            _ => {
                unit_of(&mut report.system).unit_file_state = "enabled".to_string();
                startup = Err("Both hardware modes start by themselves".to_string());
            }
        }
        assert!(
            initial_state(&report, startup, ServiceScope::System, 1000).is_err(),
            "case {case}"
        );
    }
    let mut report = report(false);
    owner_of(&mut report).owner_pid = Some(900);
    assert!(initial_state(&report, policy(false), ServiceScope::System, 1000).is_err());
}

#[test]
fn running_daemons_are_verified_and_idle_hardware_is_reserved() {
    assert!(verify_running(&report(true), ServiceScope::User, 1000).is_ok());
    assert!(verify_running(&report(true), ServiceScope::User, 1001).is_err());
    assert!(verify_running(&report(true), ServiceScope::System, 1000).is_err());
    assert!(verify_running(&report(false), ServiceScope::User, 1000).is_err());
    assert!(reserve(&report(false), &identity("1", "2")).is_ok());
    assert!(reserve(&report(false), &identity("1", "3")).is_err());
    assert!(reserve(&report(true), &identity("1", "2")).is_err());
    let daemon = info(123, &[SERVICE_WRITE_GATE], None);
    assert!(verify_daemon(&daemon, "/home/fixture/config.json", SERVICE_WRITE_GATE).is_ok());
    assert!(verify_daemon(&daemon, "/other.json", SERVICE_WRITE_GATE).is_err());
    assert!(verify_daemon(&daemon, "/home/fixture/config.json", "other").is_err());
    assert_eq!(
        stop_decision(&report(true), ServiceScope::User).unwrap(),
        StopDecision::Stop
    );
    assert_eq!(
        stop_decision(&report(false), ServiceScope::User).unwrap(),
        StopDecision::Stopped
    );
}

fn lock_identity() -> FileIdentity {
    FileIdentity {
        device: libc::makedev(0, 47).to_string(),
        inode: "9007199254740993".to_string(),
    }
}

#[test]
fn matches_full_file_identity_and_ignores_waiting_contenders() {
    let table = "1: FLOCK ADVISORY WRITE 123 00:2f:9007199254740993 0 EOF\n2: -> FLOCK ADVISORY WRITE 456 00:2f:9007199254740993 0 EOF\n3: FLOCK ADVISORY WRITE 789 08:2f:9007199254740993 0 EOF\n";
    assert_eq!(lock_owner(table, &lock_identity()).unwrap(), Some(123));
    assert_eq!(lock_owner("", &lock_identity()).unwrap(), None);
    assert_eq!(
        lock_owner(
            "1: FLOCK ADVISORY WRITE 123 00:2f:9007199254740992 0 EOF",
            &lock_identity()
        )
        .unwrap(),
        None
    );
    assert!(lock_owner(
        "1: FLOCK ADVISORY WRITE -1 00:2f:9007199254740993 0 EOF",
        &lock_identity()
    )
    .is_err());
    assert!(lock_owner(
        "1: POSIX ADVISORY WRITE 123 00:2f:9007199254740993 0 EOF",
        &lock_identity()
    )
    .is_err());
}

#[test]
fn host_identity_rejects_symlinks_wrong_owners_and_lossy_inode_values() {
    let data = format!("{} 9007199254740993 81b6 0\n", lock_identity().device);
    let parsed = parse_stat(&data).unwrap();
    assert!(parsed.same(&lock_identity()));
    assert!(parse_stat("47 123 a1ff 0").is_err());
    assert!(parse_stat("47 123 81b6 1000").is_err());
    assert_eq!(parsed.inode, "9007199254740993");
}

#[test]
fn device_numbers_follow_the_kernel_layout() {
    let file = FileIdentity { device: "2053".to_string(), inode: "7".to_string() };
    let table = "1: FLOCK ADVISORY WRITE 9 08:05:7 0 EOF";
    assert_eq!(lock_owner(table, &file).unwrap(), Some(9));
    let large = FileIdentity {
        device: libc::makedev(0x12345, 0x6789a).to_string(),
        inode: "7".to_string(),
    };
    assert_eq!(
        lock_owner("1: FLOCK ADVISORY WRITE 9 12345:6789a:7 0 EOF", &large).unwrap(),
        Some(9)
    );
    assert_eq!(
        lock_owner("1: FLOCK ADVISORY WRITE 9 12345:6789a:7 0 EOF", &file).unwrap(),
        None
    );
}

#[test]
fn lock_tables_must_be_readable_and_unambiguous() {
    let file = lock_identity();
    let line = "1: FLOCK ADVISORY WRITE 123 00:2f:9007199254740993 0 EOF";
    assert_eq!(
        lock_owner(&format!("{line}\n{line}"), &file).unwrap_err(),
        "Ambiguous kernel lock ownership"
    );
    assert_eq!(
        lock_owner(&line.replace("123", "0"), &file).unwrap_err(),
        "Ambiguous kernel lock ownership"
    );
    assert_eq!(lock_owner("short", &file).unwrap_err(), "Unrecognized kernel lock record");
    assert_eq!(
        lock_owner("1: FLOCK ADVISORY WRITE 123 002f:1 0 EOF", &file).unwrap_err(),
        "Invalid kernel lock file identity"
    );
    assert_eq!(
        lock_owner(
            "1: FLOCK ADVISORY WRITE 123 08:2f:not-a-number 0 EOF",
            &file
        )
        .unwrap(),
        None
    );
    assert!(check_table(&"x".repeat(65_536)).is_ok());
    assert!(check_table(&"x".repeat(65_537)).is_err());
}

fn metadata(kind: FileKind, uid: u32, mode: u32) -> Metadata {
    Metadata {
        kind,
        uid,
        gid: uid,
        mode,
        dev: 1,
        ino: 2,
        len: 0,
        nlink: 1,
        mtime: 0,
        mtime_nsec: 0,
        ctime: 0,
        ctime_nsec: 0,
    }
}

#[test]
fn ownership_is_read_from_a_lock_that_stays_the_same_file() {
    let file = file_identity(&metadata(FileKind::File, 0, 0o666), true).unwrap();
    assert!(file.same(&identity("1", "2")));
    assert!(file_identity(&metadata(FileKind::Symlink, 0, 0o777), true).is_err());
    assert!(file_identity(&metadata(FileKind::File, 1000, 0o666), true).is_err());
    assert!(file_identity(&metadata(FileKind::File, 1000, 0o666), false).is_ok());
    let output = |code, stdout: &str| Output {
        code: Some(code),
        status: String::new(),
        stdout: stdout.to_string(),
        stderr: " denied ".to_string(),
    };
    let table = "1: FLOCK ADVISORY WRITE 123 00:2f:9007199254740993 0 EOF\n";
    let facts = |after| LockFacts {
        before: lock_identity(),
        table: Table::Own { text: table.to_string() },
        after,
    };
    let seen = inspect(facts(lock_identity())).unwrap();
    assert_eq!(seen.owner_pid, Some(123));
    assert!(seen.process.is_none());
    assert!(inspect(facts(identity("1", "2"))).is_err());
    let hosted = |before, code, after| {
        inspect(LockFacts {
            before: lock_identity(),
            table: Table::Host { before, output: output(code, table), after },
            after: lock_identity(),
        })
    };
    assert_eq!(hosted(lock_identity(), 0, lock_identity()).unwrap().owner_pid, Some(123));
    assert!(hosted(identity("1", "2"), 0, lock_identity())
        .unwrap_err()
        .contains("different ownership locks"));
    assert_eq!(
        hosted(lock_identity(), 1, lock_identity()).unwrap_err(),
        "Cannot inspect host kernel locks: denied"
    );
    assert!(hosted(lock_identity(), 0, identity("1", "2"))
        .unwrap_err()
        .contains("Host ownership lock changed"));
    assert_eq!(
        stat_arguments("/run/lock"),
        vec!["--printf=%d %i %f %u\n", "--", "/run/lock"]
    );
    assert_eq!(table_arguments(), vec!["/proc/locks"]);
    assert_eq!(lock_path(None).unwrap_err(), "Host ownership lock is unavailable");
    assert_eq!(lock_path(Some("/run/lock".to_string())).unwrap(), "/run/lock");
    assert!(host_identity(&output(0, "47 123 81b6 0\n")).is_ok());
    assert_eq!(
        host_identity(&output(1, "")).unwrap_err(),
        "Cannot inspect host ownership file: denied"
    );
}

#[test]
fn namespace_pids_require_one_bounded_nonzero_hierarchy() {
    assert_eq!(namespace_pid("NSpid:\t123\t456\t7\n").unwrap(), 7);
    for value in [
        "",
        "NSpid:\n",
        "NSpid: 1 0\n",
        "NSpid: 1\nNSpid: 2\n",
        "NSpid: 1 text\n",
    ] {
        assert!(namespace_pid(value).is_err());
    }
}

#[test]
fn a_reused_pid_cannot_be_reported_as_the_original_owner() {
    let stat = |start: u32| {
        let mut fields = vec!["0".to_string(); 20];
        fields[0] = "S".to_string();
        fields[19] = start.to_string();
        Ok(format!("123 (daemon) {}", fields.join(" ")))
    };
    let files = |first, second| ProcessFiles {
        stat: stat(first),
        status: Ok("Uid: 1000 1000 1000 1000\n".to_string()),
        cgroup: Ok("0::/user.slice/test.service\n".to_string()),
        stat_again: stat(second),
    };
    let result = read_process(123, &files(1, 2));
    assert!(result.err().unwrap().contains("reused"));
    let same = read_process(123, &files(1, 1)).unwrap();
    assert_eq!(same.start_time_ticks, "1");
    assert_eq!(same.effective_uid, 1000);
    assert_eq!(same.control_group, "/user.slice/test.service");
    let known = ServiceProbe::Known { value: unit_state(ServiceScope::User, true) };
    assert_eq!(
        process_owner::inspect(0, &files(1, 1), &known, &known, 1000).err().unwrap(),
        "Invalid hardware owner PID"
    );
}

fn group_unit(group: &str) -> ServiceProbe<UnitState> {
    let mut value = unit_state(ServiceScope::User, true);
    value.main_pid = 100;
    value.fragment_path = String::new();
    value.control_group = Some(group.to_string());
    ServiceProbe::Known { value }
}

#[test]
fn process_start_time_survives_unusual_names_and_keeps_full_precision() {
    let mut fields = vec!["0"; 20];
    fields[0] = "S";
    fields[19] = "9007199254740993";
    let stat = format!("123 (name ) \n( weird) {}\n", fields.join(" "));
    assert_eq!(parse_start_time(&stat, 123).unwrap(), 9007199254740993);
    assert!(parse_start_time(&stat, 456).is_err());
    assert!(parse_start_time("123 (broken) S 0", 123).is_err());
    assert_eq!(
        parse_uid("Name:\ttest\nUid:\t1000\t1001\t1002\t1003\n").unwrap(),
        1001
    );
    assert!(parse_uid("Uid: 1 2 3 4\nUid: 1 2 3 4\n").is_err());
}

#[test]
fn credentials_and_lock_identities_are_numbers() {
    assert_eq!(parse_uid("Uid: 1 x 3 4\n").unwrap_err(), "invalid digit found in string");
    assert_eq!(
        parse_uid("Uid: 1 4294967296 3 4\n").unwrap_err(),
        "number too large to fit in target type"
    );
    assert_eq!(
        lock_owner("", &identity("", "7")).unwrap_err(),
        "cannot parse integer from empty string"
    );
    assert_eq!(
        lock_owner("", &identity("7", "-1")).unwrap_err(),
        "invalid digit found in string"
    );
}

#[test]
fn supports_unified_and_hybrid_systemd_hierarchies_without_guessing() {
    assert_eq!(
        parse_cgroup("0::/user.slice/a.service\n").unwrap(),
        "/user.slice/a.service"
    );
    assert_eq!(
        parse_cgroup("0::/\n1:name=systemd:/user.slice/a.service\n2:cpu:/other\n").unwrap(),
        "/user.slice/a.service"
    );
    for invalid in [
        "0::/a/../b",
        "0::/a\n0::/b",
        "1:cpu:/a",
        "0::relative",
        "0::/a//b",
    ] {
        assert!(parse_cgroup(invalid).is_err(), "{invalid}");
    }
}

#[test]
fn system_owner_is_verifiable_before_the_user_manager_starts() {
    let user = ServiceProbe::Unavailable { reason: "user bus not started".to_string() };
    let mut system = group_unit("/system.slice/lianli-daemon-system.service");
    unit_of(&mut system).name = "lianli-daemon-system.service".to_string();
    let mut process = OwnerProcess {
        pid: 222,
        effective_uid: 987,
        start_time_ticks: "456".to_string(),
        control_group: "/system.slice/lianli-daemon-system.service".to_string(),
        service: None,
    };
    assert_eq!(
        classify(&process, &user, &system, 1000).unwrap(),
        Some(ServiceScope::System)
    );
    process.control_group.push_str("-other");
    assert!(classify(&process, &user, &system, 1000).is_err());
    process.control_group = "/user.slice/other.service".to_string();
    assert!(classify(&process, &user, &system, 1000).is_err());
    assert!(classify(&process, &user, &group_unit("/user.slice/other.service"), 1000).is_err());
}

#[test]
fn attributes_wrapper_children_but_rejects_other_accounts_and_prefix_collisions() {
    let user = group_unit("/user.slice/1000/app.slice/lianli.service");
    let system = group_unit("/system.slice/lianli-system.service");
    let mut process = OwnerProcess {
        pid: 222,
        effective_uid: 1000,
        start_time_ticks: "456".to_string(),
        control_group: "/user.slice/1000/app.slice/lianli.service/container".to_string(),
        service: None,
    };
    assert_eq!(
        classify(&process, &user, &system, 1000).unwrap(),
        Some(ServiceScope::User)
    );
    assert!(classify(&process, &user, &system, 2000).is_err());
    process.control_group = "/user.slice/1000/app.slice/lianli.service-other".to_string();
    assert_eq!(classify(&process, &user, &system, 1000).unwrap(), None);
    process.control_group = "/system.slice/lianli-system.service".to_string();
    process.effective_uid = 950;
    assert_eq!(
        classify(&process, &user, &system, 1000).unwrap(),
        Some(ServiceScope::System)
    );
    assert!(classify(&process, &group_unit("/"), &system, 1000).is_err());
    assert!(classify(&process, &system, &system, 1000).is_err());
}

#[test]
fn container_peers_must_be_the_process_that_the_host_sees() {
    let stat = |pid: u32, start: &str| {
        let mut fields = vec!["0"; 20];
        fields[19] = start;
        Ok(format!("{pid} (daemon) {}", fields.join(" ")))
    };
    let owner = OwnerProcess {
        pid: 500,
        effective_uid: 1000,
        start_time_ticks: "77".to_string(),
        control_group: "/a".to_string(),
        service: None,
    };
    let files = || PeerFiles {
        status: Ok("Uid: 1000 1000 1000 1000\nNSpid: 500 42\n".to_string()),
        namespace: Ok(Output {
            code: Some(0),
            status: String::new(),
            stdout: "4:4026531836\n".to_string(),
            stderr: String::new(),
        }),
        local: Ok((4, 4026531836)),
        local_stat: stat(42, "77"),
        host_stat: stat(500, "77"),
    };
    assert!(verify_container_peer(&files(), &owner, 42).is_ok());
    assert!(verify_container_peer(&files(), &owner, 0).unwrap_err().contains("not visible"));
    assert!(verify_container_peer(&files(), &owner, 43).unwrap_err().contains("namespace PID"));
    let mut elsewhere = files();
    elsewhere.local = Ok((4, 1));
    assert!(verify_container_peer(&elsewhere, &owner, 42)
        .unwrap_err()
        .contains("different PID namespaces"));
    let mut stale = owner.clone();
    stale.start_time_ticks = "0".to_string();
    assert!(verify_container_peer(&files(), &stale, 42)
        .unwrap_err()
        .contains("changed during verification"));
    let mut other = owner.clone();
    other.effective_uid = 1001;
    assert!(verify_container_peer(&files(), &other, 42)
        .unwrap_err()
        .contains("credentials changed"));
}

fn invocation(text: &str) -> Result<String, String> {
    match named(text) {
        Some(id) if id.len() == 32 && id.bytes().all(|byte| byte.is_ascii_hexdigit()) => Ok(id),
        _ => Err("Invalid invocation".to_string()),
    }
}

fn parse(text: &str) -> Result<State, String> {
    recovery_trigger::parse(text, &invocation(text))
}

#[test]
fn observes_only_known_recovery_states_and_real_invocations() {
    let state = |active: &str, invocation: &str| {
        format!(
            "Id={}\nLoadState=loaded\nActiveState={active}\nInvocationID={invocation}\n",
            unit()
        )
    };
    let id = "123456789abcdef0123456789abcdef0";
    for active in ["active", "activating", "deactivating", "reloading"] {
        assert!(parse(&state(active, id)).unwrap().busy);
        assert!(parse(&state(active, "")).is_err());
    }
    for active in ["inactive", "failed"] {
        assert!(!parse(&state(active, "")).unwrap().busy);
        assert!(parse(&state(active, "00000000000000000000000000000000"))
            .unwrap()
            .invocation
            .is_none());
        assert!(!parse(&state(active, id)).unwrap().busy);
    }
    for invalid in [
        state("active", "00000000000000000000000000000000"),
        state("unknown", id),
        state("active", "invalid"),
        state("active", id).replace(unit(), "unrelated.service"),
        state("active", id).replace("loaded", "not-found"),
        format!("{}ActiveState=inactive\n", state("active", id)),
    ] {
        assert!(parse(&invalid).is_err());
    }
    assert_eq!(unit(), "lianli-control-recovery.service");
    assert_eq!(named(&state("active", id)).unwrap(), id);
    assert!(named(&state("active", "00000000000000000000000000000000")).is_none());
    assert!(named("garbage").is_none());
    assert_eq!(parse(&state("active", id)).unwrap().invocation.unwrap(), id);
    assert_eq!(parse(&state("active", "invalid")).unwrap_err(), "Invalid invocation");
}

struct Fixture {
    states: Vec<State>,
    submitted: usize,
    elapsed_ms: u64,
    fail_inspection: bool,
    fail_submission: bool,
}

fn fixture(states: &[(bool, Option<&str>)]) -> Fixture {
    Fixture {
        states: states
            .iter()
            .map(|(busy, id)| State { busy: *busy, invocation: id.map(str::to_string) })
            .collect(),
        submitted: 0,
        elapsed_ms: 0,
        fail_inspection: false,
        fail_submission: false,
    }
}

fn seen(fixture: &mut Fixture) -> State {
    if fixture.states.len() > 1 {
        fixture.states.remove(0)
    } else {
        fixture.states[0].clone()
    }
}

fn run(fixture: &mut Fixture) -> Result<(), String> {
    let mut trigger = Trigger::begin();
    loop {
        match trigger.step {
            TriggerStep::Inspect | TriggerStep::InspectAgain if fixture.fail_inspection => {
                trigger.failed("Fixture observation failed")
            }
            TriggerStep::Inspect => trigger.inspected(&seen(fixture)),
            TriggerStep::InspectAgain => trigger.observed(&seen(fixture)),
            TriggerStep::ReadClock => trigger.clock(fixture.elapsed_ms),
            TriggerStep::Pause => {
                fixture.elapsed_ms += 60_000;
                trigger.paused();
            }
            TriggerStep::Submit => {
                fixture.submitted += 1;
                trigger.submitted(&if fixture.fail_submission {
                    Err("Fixture acknowledgement lost".to_string())
                } else {
                    Ok(())
                });
            }
            TriggerStep::Done => return Ok(()),
            TriggerStep::Failed => return Err(trigger.error),
        }
    }
}

#[test]
fn login_waits_for_the_existing_attempt_then_submits_once() {
    let mut waiting = fixture(&[
        (true, Some("old")),
        (true, Some("old")),
        (false, Some("old")),
    ]);
    run(&mut waiting).unwrap();
    assert_eq!(waiting.submitted, 1);
    assert_eq!(waiting.elapsed_ms, 120_000);
    for terminal in [Some("old"), None] {
        let mut collected = fixture(&[(true, Some("old")), (false, terminal)]);
        run(&mut collected).unwrap();
        assert_eq!(collected.submitted, 1);
    }
    for busy in [false, true] {
        let mut newer = fixture(&[(true, Some("old")), (busy, Some("new"))]);
        run(&mut newer).unwrap();
        assert_eq!(newer.submitted, 0);
    }
}

#[test]
fn bounded_observation_and_failed_submission_never_replay_a_request() {
    let mut waiting = fixture(&[(true, Some("old"))]);
    assert!(run(&mut waiting).is_err());
    assert_eq!(waiting.elapsed_ms, 15 * 60 * 1000);
    assert_eq!(waiting.submitted, 0);
    let mut failed = fixture(&[(false, None)]);
    failed.fail_inspection = true;
    assert!(run(&mut failed).is_err());
    assert_eq!(failed.submitted, 0);
    failed.fail_inspection = false;
    failed.fail_submission = true;
    assert!(run(&mut failed).is_err());
    assert_eq!(failed.submitted, 1);
}

#[test]
fn recovery_requests_report_what_came_of_them() {
    let output = |code, stderr: &str| Output {
        code: Some(code),
        status: String::new(),
        stdout: String::new(),
        stderr: stderr.to_string(),
    };
    assert!(submission(&Ok(output(0, ""))).is_ok());
    assert_eq!(
        submission(&Ok(output(1, "denied\n"))).unwrap_err(),
        "Cannot request pending switch recovery: denied. Recheck the installed recovery unit and Polkit rule"
    );
    assert!(submission(&Err("timed out".to_string()))
        .unwrap_err()
        .contains("was not confirmed"));
    assert_eq!(
        recovery_trigger::observe(&output(1, "no bus"), &Ok(String::new())).err().unwrap(),
        "Cannot inspect recovery before submission: no bus"
    );
}
