use lianli_control::account::{
    current_groups, group_count, group_room, normalize, Account, AccountEntry,
};
use lianli_control::command::Output;
use lianli_control::container_bootstrap::{
    check_source, deployment_for_action, install as bootstrap, repair, AfterLookup, Authorization,
    AuthorizeStep, Lookup, Staging,
};
use lianli_control::container_change::{
    arguments, box_name, call, deployment as deployment_of, dispatch, is_fresh, read, request,
    request_arguments, source, start,
    verify_host_request, verify_services, CachedProgress, Fingerprint, Question, Source,
};
use lianli_control::container_channel::{
    private_directory, verify_peer, worker_command, Handoff, HandoffStep, Message,
};
use lianli_control::container_deployment::{
    check_record, check_store, install, load, Deployment, Installation, RecordStep,
};
use lianli_control::container_destination::{
    validate_config, ConfigNames, Execution, Identity, Launch, Route,
};
use lianli_control::container_setup::{
    check_directory, check_existing, setup_selection, write_file, Write,
};
use lianli_control::destination::{
    check_program, check_report, preflight_recovery, recovery_arguments, user_config,
    user_environment, verify_build, verify_manager_groups, verify_override, verify_properties,
    verify_working_directory, DaemonBuildInfo, Destination, Preflight, PreflightStep,
};
use lianli_control::destination::{check_recovery_access, recovery_directory};
use lianli_control::destination_inspection::{
    Manager, ManagerStep, SystemDirectory, SystemDirectoryStep,
};
use lianli_control::files::{FileKind, Metadata};
use lianli_control::host_helper::{
    check_chain, check_executable, installed, packaged, standalone, Sighting,
};
use lianli_control::media_validation::AssetAccessReport;
use lianli_control::properties::Properties;
use lianli_control::reservation::Held;
use lianli_control::services::{
    FileIdentity, InstallationContext, Policy, ServiceAction, ServiceChangeRequest, ServiceScope,
    ServiceSelection, Startup,
};

fn names() -> ConfigNames {
    ConfigNames { user: Ok(()), system: Ok(()) }
}

fn identity(device: &str, inode: &str) -> FileIdentity {
    FileIdentity { device: device.to_string(), inode: inode.to_string() }
}

fn metadata(kind: FileKind, uid: u32, mode: u32) -> Metadata {
    Metadata {
        kind,
        uid,
        gid: uid,
        mode,
        dev: 1,
        ino: 2,
        len: 10,
        nlink: 1,
        mtime: 0,
        mtime_nsec: 0,
        ctime: 0,
        ctime_nsec: 0,
    }
}

fn output(code: i32, stdout: &str, stderr: &str) -> Output {
    Output {
        code: Some(code),
        status: format!("exit status: {code}"),
        stdout: stdout.to_string(),
        stderr: stderr.to_string(),
    }
}

fn fixture_account() -> Account {
    Account {
        uid: 1000,
        gid: 100,
        groups: vec![100, 200],
        name: "fixture".to_string(),
        home: "/home/fixture".to_string(),
        container: None,
    }
}

fn deployment() -> Deployment {
    Deployment {
        version: 1,
        owner_uid: 1000,
        owner_name: "fixture".to_string(),
        route: Route {
            launch: Launch {
                name: "fixture-box".to_string(),
                host_enter: "/usr/bin/distrobox-enter".to_string(),
                binaries: "/usr/bin".to_string(),
            },
            user_config: "/home/fixture/user/config.json".to_string(),
            system_config: "/home/fixture/system/config.json".to_string(),
            user_working_directory: "/home/fixture".to_string(),
            system_working_directory: "/home/fixture".to_string(),
        },
    }
}

#[test]
fn user_service_actions_use_only_the_callers_manager_and_fixed_unit() {
    let account = Account::user(
        Some(AccountEntry {
            uid: 65534,
            gid: 65534,
            name: "nobody".to_string(),
            home: "/".to_string(),
        }),
        &vec![65534],
    )
    .unwrap();
    for action in [ServiceAction::Start, ServiceAction::Stop, ServiceAction::Restart] {
        let command = account
            .user_service_command(action, true, 0, 0, &vec![0])
            .unwrap();
        assert_eq!(command.program, "/usr/bin/systemctl");
        assert_eq!(
            command.arguments,
            vec![
                "--user",
                "--no-ask-password",
                "--no-pager",
                "--no-block",
                "--job-mode=fail",
                action.argument(),
                "lianli-daemon.service",
            ]
        );
        let runtime = format!("/run/user/{}", account.uid);
        let bus = format!("unix:path={runtime}/bus");
        let value = |name: &str| {
            command
                .environment
                .iter()
                .find(|variable| variable.name == name)
                .map(|variable| variable.value.clone())
        };
        assert_eq!(value("XDG_RUNTIME_DIR"), Some(runtime));
        assert_eq!(value("DBUS_SESSION_BUS_ADDRESS"), Some(bus));
        assert_eq!(command.directory, "/");
    }
}

#[test]
fn account_helpers_clear_inherited_environment_and_use_exact_arguments() {
    let account = Account {
        uid: 1000,
        gid: 100,
        groups: vec![100],
        name: "fixture".to_string(),
        home: "/fixture home".to_string(),
        container: None,
    };
    let command = account
        .control_command(
            vec!["inspect-state".to_string(), "/a path/$(literal)".to_string()],
            false,
            1000,
            100,
            &vec![100],
        )
        .unwrap();
    assert_eq!(command.program, "/proc/self/exe");
    assert_eq!(command.arguments, vec!["inspect-state", "/a path/$(literal)"]);
    assert!(command
        .environment
        .iter()
        .any(|variable| variable.name == "HOME" && variable.value == "/fixture home"));
    assert!(!command.environment.iter().any(|variable| variable.name == "LD_PRELOAD"));
    assert_eq!(command.directory, "/");
    assert!(!command.change_account);
    let mut root = account;
    root.uid = 0;
    assert!(root.control_command(vec![], true, 0, 0, &vec![0]).is_err());
}

#[test]
fn helpers_without_authority_must_hold_the_credentials_already() {
    let account = fixture_account();
    assert!(account.verify_current(1000, 100, &vec![100, 200]).is_ok());
    assert!(account.verify_current(1000, 100, &vec![100]).is_err());
    assert!(account.verify_current(1001, 100, &vec![100, 200]).is_err());
    assert!(account.control_command(vec![], false, 1001, 100, &vec![100, 200]).is_err());
    assert!(account.control_command(vec![], true, 0, 0, &vec![0]).unwrap().change_account);
    assert!(Account::user(None, &vec![]).is_err());
    assert_eq!(Account::authorized_caller(true, Ok("1000")).unwrap(), 1000);
    assert_eq!(
        Account::authorized_caller(false, Ok("1000")).unwrap_err(),
        "Service switching requires administrator authorization"
    );
    assert_eq!(
        Account::authorized_caller(true, Err("environment variable not found")).unwrap_err(),
        "Start automatic service switching from the native GUI authorization flow: environment variable not found"
    );
    assert_eq!(
        Account::authorized_caller(true, Ok("root")).unwrap_err(),
        "Invalid authorized caller identity: invalid digit found in string"
    );
}

#[test]
fn group_lists_are_normalized() {
    assert_eq!(normalize(&vec![3, 1, 2, 3, 1]), vec![1, 2, 3]);
    assert_eq!(normalize(&vec![2, 1]), normalize(&vec![1, 2, 2]));
    assert_eq!(current_groups(2, 2, vec![5, 4], 9).unwrap(), vec![4, 5, 9]);
    assert!(current_groups(-1, 0, vec![], 9).is_err());
    assert!(group_room(-1).is_err());
    assert!(group_count(-1, 3, 3).is_err());
    let mut shuffled = fixture_account();
    assert_eq!(shuffled.group_fingerprint().len(), 64);
    let before = shuffled.group_fingerprint();
    shuffled.groups = vec![100, 201];
    assert_ne!(before, shuffled.group_fingerprint());
}

#[test]
fn bridge_requests_preserve_box_names_and_typed_options_as_separate_arguments() {
    assert_eq!(
        arguments(
            "box with spaces",
            ServiceChangeRequest::Switch {
                scope: ServiceScope::System,
                carry_settings: true
            }
        ),
        vec![
            "request-switch",
            "--expected-box",
            "box with spaces",
            "--scope",
            "system",
            "--carry-settings"
        ]
    );
    assert_eq!(
        arguments("box", ServiceChangeRequest::Recover {}),
        vec!["request-switch", "--expected-box", "box", "--recover"]
    );
    assert_eq!(
        request_arguments(ServiceChangeRequest::Switch {
            scope: ServiceScope::System,
            carry_settings: false
        }),
        vec!["--scope", "system"]
    );
}

#[test]
fn requests_name_one_mode_or_recovery() {
    assert_eq!(
        request(Some(ServiceScope::User), false, true).unwrap(),
        ServiceChangeRequest::Switch { scope: ServiceScope::User, carry_settings: true }
    );
    assert_eq!(request(None, true, false).unwrap(), ServiceChangeRequest::Recover {});
    assert_eq!(
        request(None, false, false).unwrap_err(),
        "Choose one destination mode or recovery"
    );
    assert!(request(Some(ServiceScope::User), true, false).is_err());
}

#[test]
fn boxes_ask_their_host_through_one_dispatcher() {
    let inside = InstallationContext::Distrobox { name: "my box".to_string() };
    assert_eq!(box_name(&inside).unwrap(), "my box");
    assert!(box_name(&InstallationContext::Native).is_err());
    let asked = call(&inside, &Question::Services.arguments("my box")).unwrap();
    assert_eq!(
        asked,
        vec![
            "-c",
            dispatch(),
            "lianli-host-switch",
            "check-container-services",
            "--expected-box",
            "my box"
        ]
    );
    assert!(call(&InstallationContext::Native, &vec![]).is_err());
    assert!(verify_services(&inside, &Ok(output(0, "", ""))).is_ok());
    assert_eq!(
        verify_services(&inside, &Ok(output(1, "", "missing unit\n"))).unwrap_err(),
        "Container service setup is unverified: missing unit"
    );
    assert_eq!(verify_services(&inside, &Err("late".to_string())).unwrap_err(), "late");
    assert_eq!(
        verify_services(&InstallationContext::Native, &Ok(output(0, "", ""))).unwrap_err(),
        "Container switching requires a supported Distrobox"
    );
    assert_eq!(Question::Services.timeout_ms(), 20_000);
    assert_eq!(Question::Progress.timeout_ms(), 4_000);
    assert_eq!(Question::Deployment.timeout_ms(), 4_000);
    let id = "00112233445566778899aabbccddeeff";
    let answer = Ok(id.to_string());
    let start = |output: &Result<Output, String>,
                 answer: &Result<String, String>,
                 form: &Result<(), String>| start(&inside, output, answer, form);
    assert_eq!(
        lianli_control::container_change::start(
            &InstallationContext::Native,
            &Ok(output(0, "", "")),
            &answer,
            &Ok(())
        )
        .unwrap_err(),
        "Container switching requires a supported Distrobox"
    );
    assert_eq!(start(&Ok(output(0, "", "")), &answer, &Ok(())).unwrap(), id);
    assert_eq!(
        start(&Ok(output(0, "", "")), &Err("expected value".to_string()), &Ok(())).unwrap_err(),
        "Invalid host switch response: expected value"
    );
    assert_eq!(
        start(
            &Ok(output(0, "", "")),
            &Ok("short".to_string()),
            &Err("Invalid service invocation".to_string())
        )
        .unwrap_err(),
        "Invalid service invocation"
    );
    assert_eq!(
        start(&Ok(output(1, "", "busy\n")), &answer, &Ok(())).unwrap_err(),
        "Host switch submission failed: busy"
    );
    assert!(start(&Err("late".to_string()), &answer, &Ok(()))
        .unwrap_err()
        .contains("not confirmed"));
}

#[test]
fn hosts_tell_their_progress_and_their_deployment() {
    let ok = Ok(output(0, "", ""));
    let failed = Ok(output(1, "", "denied\n"));
    let inside = InstallationContext::Distrobox { name: "my box".to_string() };
    let native = InstallationContext::Native;
    let file = metadata(FileKind::File, 0, 0o644);
    fn read_progress<T>(
        output: &Result<Output, String>,
        answer: Result<Option<T>, String>,
    ) -> Result<Option<T>, String> {
        let inside = InstallationContext::Distrobox { name: "my box".to_string() };
        let file = metadata(FileKind::File, 0, 0o644);
        read(&inside, &Ok(Some(file)), None, output, answer)
    }
    fn host_deployment<T>(
        there: &Result<bool, String>,
        output: &Result<Output, String>,
        answer: Result<Option<T>, String>,
    ) -> Result<Option<T>, String> {
        let inside = InstallationContext::Distrobox { name: "my box".to_string() };
        deployment_of(&inside, there, output, answer)
    }
    assert_eq!(read(&native, &Ok(None), None, &ok, Ok(Some(7))).unwrap(), None);
    assert_eq!(
        read(&native, &Ok(Some(file)), None, &ok, Ok(Some(7))).unwrap_err(),
        "Container switching requires a supported Distrobox"
    );
    assert_eq!(
        read(&inside, &Err("denied".to_string()), None, &ok, Ok(Some(7))).unwrap_err(),
        "Cannot inspect host switch progress: denied"
    );
    let cached = |age_ms| {
        let state = Fingerprint { dev: 1, ino: 2, mtime: 0, mtime_nsec: 0, len: 10 };
        Some((CachedProgress { fingerprint: state, active: true, age_ms }, Some(3)))
    };
    assert_eq!(
        read(&native, &Ok(Some(file)), cached(1_999), &failed, Ok(None)).unwrap(),
        Some(3)
    );
    assert_eq!(
        read(&inside, &Ok(Some(file)), cached(2_000), &ok, Ok(Some(7))).unwrap(),
        Some(7)
    );
    assert_eq!(
        deployment_of(&native, &Ok(true), &ok, Ok(Some(7))).unwrap_err(),
        "Container switching requires a supported Distrobox"
    );
    assert_eq!(deployment_of(&native, &Ok(false), &ok, Ok(Some(7))).unwrap(), None);
    assert_eq!(read_progress(&ok, Ok(Some(7))).unwrap(), Some(7));
    assert_eq!(read_progress::<u32>(&ok, Ok(None)).unwrap(), None);
    assert_eq!(
        read_progress(&failed, Ok(Some(7))).unwrap_err(),
        "Cannot read host switch progress: denied"
    );
    assert_eq!(
        read_progress::<u32>(&ok, Err("eof".to_string())).unwrap_err(),
        "Invalid host switch progress: eof"
    );
    assert_eq!(read_progress(&Err("late".to_string()), Ok(Some(7))).unwrap_err(), "late");
    assert_eq!(host_deployment(&Ok(true), &ok, Ok(Some(7))).unwrap(), Some(7));
    assert_eq!(host_deployment(&Ok(false), &failed, Ok(Some(7))).unwrap(), None);
    assert_eq!(
        host_deployment(&Ok(true), &failed, Ok(Some(7))).unwrap_err(),
        "Cannot inspect the existing host deployment: denied"
    );
    assert_eq!(
        host_deployment::<u32>(&Ok(true), &ok, Err("eof".to_string())).unwrap_err(),
        "Invalid host deployment response: eof"
    );
    assert_eq!(
        host_deployment(&Err("unreadable".to_string()), &ok, Ok(Some(7))).unwrap_err(),
        "unreadable"
    );
}

#[test]
fn progress_is_kept_for_a_while() {
    let file = Fingerprint { dev: 1, ino: 2, mtime: 3, mtime_nsec: 4, len: 5 };
    assert!(is_fresh(file, true, 1_999, file));
    assert!(!is_fresh(file, true, 2_000, file));
    assert!(is_fresh(file, false, 59_999, file));
    assert!(!is_fresh(file, false, 60_000, file));
    assert!(!is_fresh(file, false, 0, Fingerprint { len: 6, ..file }));
    let found = metadata(FileKind::File, 0, 0o644);
    let now = Fingerprint {
        dev: found.dev,
        ino: found.ino,
        mtime: found.mtime,
        mtime_nsec: found.mtime_nsec,
        len: found.len,
    };
    let cached = |age_ms| Some(CachedProgress { fingerprint: now, active: true, age_ms });
    assert_eq!(source(&Ok(Some(found.clone())), cached(1_999)), Ok(Source::Cached));
    assert_eq!(source(&Ok(Some(found.clone())), cached(2_000)), Ok(Source::Host));
    assert_eq!(source(&Ok(Some(found)), None), Ok(Source::Host));
    assert_eq!(source(&Ok(None), cached(0)), Ok(Source::Absent));
    assert_eq!(
        source(&Err("denied".to_string()), None).unwrap_err(),
        "Cannot inspect host switch progress: denied"
    );
}

#[test]
fn hosts_act_only_on_requests_from_their_own_box() {
    let account = fixture_account();
    let record = deployment();
    let known = names();
    let check = |native, name: &str, helper: Result<(), String>| {
        verify_host_request(native, &account, Some((&record, &known)), name, &helper)
    };
    assert!(check(true, "fixture-box", Ok(())).is_ok());
    assert!(check(false, "fixture-box", Ok(())).is_err());
    assert!(check(true, "other-box", Ok(())).is_err());
    assert_eq!(
        check(true, "fixture-box", Err("missing helper".to_string())).unwrap_err(),
        "missing helper"
    );
    assert!(verify_host_request(true, &account, None, "fixture-box", &Ok(())).is_err());
}

#[test]
fn workers_cannot_control_hardware() {
    for name in [
        "stop-service",
        "switch-mode",
        "diagnose",
        "box-worker",
        "send-state --help",
    ] {
        assert!(!worker_command(name));
    }
    assert!(worker_command("send-state"));
    assert!(private_directory("/run/user/1000", &metadata(FileKind::Directory, 1000, 0o700), 1000)
        .is_ok());
    assert!(private_directory("/run/user/1000", &metadata(FileKind::Directory, 1000, 0o755), 1000)
        .is_err());
    assert!(private_directory("/run/user/1000", &metadata(FileKind::Symlink, 1000, 0o700), 1000)
        .is_err());
    assert!(verify_peer(true, 1000, 42, 1000).is_ok());
    assert!(verify_peer(true, 1001, 42, 1000).is_err());
    assert!(verify_peer(false, 1000, 42, 1000).is_err());
}

#[test]
fn a_channel_is_handed_over_only_for_its_token() {
    let token = "00112233445566778899aabbccddeeff".to_string();
    let mut handoff = Handoff::begin(token.clone());
    handoff.accepted();
    handoff.peer(true, 1000, 42, 1000);
    handoff.hello(&Message::Hello { token: token.clone() }, false);
    handoff.sent();
    handoff.sent();
    handoff.sent();
    handoff.ready(&Message::Ready, false);
    assert_eq!(handoff.step, HandoffStep::Done);
    let mut wrong = Handoff::begin(token);
    wrong.accepted();
    wrong.peer(true, 1000, 42, 1000);
    wrong.hello(&Message::Hello { token: "other".to_string() }, false);
    assert_eq!(wrong.step, HandoffStep::Failed);
}

#[test]
fn execution_must_match_protected_owner_launcher_and_mode_paths() {
    let record = deployment();
    let mut execution = Execution {
        launch: record.route.launch.clone(),
        destination: Identity {
            name: record.route.launch.name.clone(),
            scope: ServiceScope::User,
            uid: record.owner_uid,
            gid: 1000,
            groups_fingerprint: "a".repeat(64),
            mount_namespace: identity("1", "2"),
            state_directory: identity("1", "3"),
            config_path: record.route.user_config.clone(),
            working_directory: record.route.user_working_directory.clone(),
        },
    };
    record.verify_execution(&execution, &names()).unwrap();
    execution.destination.scope = ServiceScope::System;
    assert!(record.verify_execution(&execution, &names()).is_err());
    execution.destination.config_path = record.route.system_config.clone();
    record.verify_execution(&execution, &names()).unwrap();
    execution.destination.uid += 1;
    assert!(record.verify_execution(&execution, &names()).is_err());
    execution.destination.uid = record.owner_uid;
    execution.launch.name = "other-box".to_string();
    assert!(record.verify_execution(&execution, &names()).is_err());
}

#[test]
fn loaded_wrapper_checks_reject_overrides_stale_units_and_other_owners() {
    let record = deployment();
    let path = "/etc/systemd/system/lianli-daemon-system.service";
    let properties = format!("LoadState=loaded\nNeedDaemonReload=no\nTransient=no\nDropInPaths=\nFragmentPath={path}\nUser=1000\n");
    record
        .verify_properties(ServiceScope::System, path, &properties)
        .unwrap();
    for (old, new) in [
        ("LoadState=loaded", "LoadState=not-found"),
        ("NeedDaemonReload=no", "NeedDaemonReload=yes"),
        ("Transient=no", "Transient=yes"),
        (
            "DropInPaths=",
            "DropInPaths=/run/systemd/system/override.conf",
        ),
        ("FragmentPath=/etc", "FragmentPath=/run"),
        ("User=1000", "User=0"),
    ] {
        assert!(
            record
                .verify_properties(ServiceScope::System, path, &properties.replace(old, new))
                .is_err(),
            "{old}"
        );
    }
    assert!(record.verify_properties(ServiceScope::System, path, "").is_err());
    record
        .verify_properties(
            ServiceScope::User,
            path,
            &properties.replace("User=1000", "User="),
        )
        .unwrap();
}

#[test]
fn wrapper_verification_rejects_other_modes_paths_and_extra_commands() {
    let record = deployment();
    let unit = record.unit(ServiceScope::System, &names()).unwrap();
    record.verify_unit(ServiceScope::System, &unit, &names()).unwrap();
    assert!(record.verify_unit(ServiceScope::User, &unit, &names()).is_err());
    assert!(record
        .verify_unit(
            ServiceScope::System,
            &unit.replace("fixture-box", "other-box"),
            &names()
        )
        .is_err());
    assert!(record
        .verify_unit(
            ServiceScope::System,
            &format!("{unit}\n[Service]\nExecStartPost=/bin/true\n"),
            &names()
        )
        .is_err());
    let mut bad = record;
    bad.owner_uid = 0;
    assert!(bad.validate(&names()).is_err());
    bad.owner_uid = 1000;
    bad.version = 2;
    assert!(bad.validate(&names()).is_err());
}

#[test]
fn deployment_records_are_read_only_from_protected_files() {
    let etc = metadata(FileKind::Directory, 0, 0o755);
    let store = metadata(FileKind::Directory, 0, 0o755);
    let file = metadata(FileKind::File, 0, 0o644);
    let loaded = load(true, &etc, Some(&store), Some((file, 10, deployment())), &names());
    assert_eq!(loaded.unwrap().unwrap().owner_name, "fixture");
    assert!(load(true, &etc, None, None, &names()).unwrap().is_none());
    assert!(load(true, &etc, Some(&store), None, &names()).unwrap().is_none());
    assert!(load(false, &etc, None, None, &names()).is_err());
    let writable = metadata(FileKind::Directory, 0, 0o777);
    assert!(load(true, &etc, Some(&writable), None, &names()).is_err());
    let linked = Metadata { nlink: 2, ..file };
    assert!(check_record(&linked, 0, 10).is_err());
    assert!(check_record(&file, 0, 32_769).is_err());
    assert!(check_store(&store, 0).is_ok());
    assert_eq!(
        deployment()
            .verify_installed(
                &fixture_account(),
                &names(),
                true,
                &etc,
                "{}",
                &Ok(output(1, "", "differs"))
            )
            .unwrap_err(),
        "Container wrapper verification failed: differs"
    );
    let args = deployment()
        .verification_arguments(&fixture_account(), &names(), true, &etc, "{}")
        .unwrap();
    assert_eq!(args, vec!["inspect-container-deployment", "--deployment", "{}"]);
}

#[test]
fn deployments_are_recorded_under_both_reservations() {
    let etc = metadata(FileKind::Directory, 0, 0o755);
    let begin = || install(deployment(), fixture_account(), names());
    let held = |inode: &str| Held {
        expected: identity("1", "2"),
        descriptor: metadata(FileKind::File, 0, 0o644),
        path: Ok(identity("1", inode)),
        host: None,
    };
    let verified = |recording: &mut Installation| {
        recording.host(true, &etc);
        recording.authority(true);
        recording.owner();
        recording.account(&fixture_account());
        recording.operation(&held("2"));
        recording.hardware(&held("2"));
        recording.journal(false);
        assert_eq!(recording.step, RecordStep::VerifyUnits, "{}", recording.error);
    };
    let mut recording = begin();
    verified(&mut recording);
    recording.units(true, &etc, "{}", &Ok(output(0, "", "")));
    recording.operation(&held("2"));
    recording.hardware(&held("2"));
    assert_eq!(recording.step, RecordStep::Write);
    let store = metadata(FileKind::Directory, 0, 0o755);
    recording.written(&Ok(store), &Ok(()), "{}", &Ok(()));
    recording.operation(&held("2"));
    recording.hardware(&held("2"));
    assert_eq!(recording.step, RecordStep::Recorded);
    let mut other = begin();
    verified(&mut other);
    other.units(true, &etc, "{}", &Ok(output(1, "", "differs")));
    assert_eq!(other.error, "Container wrapper verification failed: differs");
    let mut writing = begin();
    verified(&mut writing);
    writing.units(true, &etc, "{}", &Ok(output(0, "", "")));
    writing.operation(&held("2"));
    writing.hardware(&held("2"));
    writing.written(&Ok(store), &Ok(()), &"x".repeat(32_769), &Ok(()));
    assert_eq!(writing.error, "Deployment record exceeds 32 KiB");
    let mut replaced = begin();
    verified(&mut replaced);
    replaced.units(true, &etc, "{}", &Ok(output(0, "", "")));
    replaced.operation(&held("3"));
    assert_eq!(replaced.step, RecordStep::Failed);
    let mut renamed = begin();
    renamed.host(true, &etc);
    renamed.authority(true);
    renamed.owner();
    renamed.account(&Account { gid: 7, ..fixture_account() });
    assert_eq!(renamed.error, "The host account changed during setup");
    let mut refused = begin();
    refused.host(true, &etc);
    refused.authority(false);
    assert_eq!(refused.step, RecordStep::Failed);
    assert_eq!(refused.error, "Deployment installation requires host authorization");
    let mut pending = begin();
    pending.host(true, &etc);
    pending.authority(true);
    pending.owner();
    pending.account(&fixture_account());
    pending.operation(&held("2"));
    pending.hardware(&held("2"));
    pending.journal(true);
    assert!(pending.error.contains("pending switch"));
}

fn execution() -> Execution {
    Execution {
        launch: Launch {
            name: "fixture box".to_string(),
            host_enter: "/usr/bin/distrobox-enter".to_string(),
            binaries: "/opt/app with spaces".to_string(),
        },
        destination: Identity {
            name: "fixture box".to_string(),
            scope: ServiceScope::User,
            uid: 1000,
            gid: 1000,
            groups_fingerprint: "a".repeat(64),
            mount_namespace: identity("4", "5"),
            state_directory: identity("6", "7"),
            config_path: "/home/user/state/user/custom.json".to_string(),
            working_directory: "/home/user".to_string(),
        },
    }
}

#[test]
fn same_owner_modes_require_distinct_state_directories_in_the_same_box() {
    let user = execution();
    let mut system = user.clone();
    system.destination.scope = ServiceScope::System;
    system.destination.config_path = "/home/user/state/system/config.json".to_string();
    assert!(user.ensure_separate(&system, &names()).is_err());
    system.destination.state_directory.inode = "8".to_string();
    user.ensure_separate(&system, &names()).unwrap();
    system.destination.config_path = user.destination.config_path.clone();
    assert!(user.ensure_separate(&system, &names()).is_err());
    system.destination.config_path = "/home/user/state/system/config.json".to_string();
    system.destination.uid = 1001;
    assert!(user.ensure_separate(&system, &names()).is_err());
    system.destination.uid = 1000;
    system.destination.mount_namespace.inode = "other".to_string();
    assert!(user.ensure_separate(&system, &names()).is_err());
}

#[test]
fn launch_arguments_keep_paths_and_destination_metadata_as_single_arguments() {
    let execution = execution();
    let encoded = "{\"name\":\"fixture box\"}";
    let args = execution
        .launch
        .arguments(
            &execution.destination,
            encoded,
            &Ok(()),
            &vec![
                "check-saved-state".to_string(),
                "--config".to_string(),
                "/a path/$(literal).json".to_string(),
            ],
        )
        .unwrap();
    assert_eq!(args[5], "--binaries");
    assert_eq!(args[6], "/opt/app with spaces");
    let index = args.iter().position(|value| value == "--destination").unwrap();
    assert_eq!(args[index + 1], encoded);
    assert_eq!(args.last().unwrap(), "/a path/$(literal).json");
    let mut wrong = execution.destination.clone();
    wrong.name = "another box".to_string();
    assert!(execution.launch.arguments(&wrong, encoded, &Ok(()), &vec![]).is_err());
}

#[test]
fn destination_reports_must_match_credentials_namespace_paths_and_directory_identity() {
    let identity = execution().destination;
    identity.check_config(&identity.config_path).unwrap();
    assert!(identity.check_config("/home/user/state/system/config.json").is_err());
    let mut report = Destination {
        scope: identity.scope,
        uid: identity.uid,
        gid: identity.gid,
        groups_fingerprint: identity.groups_fingerprint.clone(),
        mount_namespace: identity.mount_namespace.clone(),
        state_directory: Some(identity.state_directory.clone()),
        config_path: identity.config_path.clone(),
        working_directory: identity.working_directory.clone(),
        state: None,
        assets: AssetAccessReport { uid: 1000, checked: 0, failed: 0, issues: vec![] },
    };
    assert!(identity.matches(&report));
    report.state_directory = None;
    assert!(!identity.matches(&report));
    report.state_directory = Some(identity.state_directory.clone());
    report.groups_fingerprint = "b".repeat(64);
    assert!(!identity.matches(&report));
    report.groups_fingerprint = identity.groups_fingerprint.clone();
    report.mount_namespace.inode = "123".to_string();
    assert!(!identity.matches(&report));
}

#[test]
fn destination_paths_preserve_custom_filenames_but_reject_reserved_or_ambiguous_targets() {
    let name = |path: &str| {
        if path.ends_with("/profiles") || path.ends_with("/lcd_templates.json") {
            Err("The configuration name is reserved".to_string())
        } else {
            Ok(())
        }
    };
    validate_config("/state/my-settings.json", &name("/state/my-settings.json")).unwrap();
    for path in [
        "relative.json",
        "/state/../config.json",
        "/state/profiles",
        "/state/lcd_templates.json",
        "/",
    ] {
        assert!(validate_config(path, &name(path)).is_err());
    }
    let mut identity = execution().destination;
    identity.uid = 0;
    assert!(identity.validate(&Ok(())).is_err());
}

#[test]
fn setup_recovers_only_an_uninstalled_system_selection() {
    let disabled = Policy { user: Startup::Disabled, system: Startup::Disabled };
    let old = Some(ServiceSelection { scope: ServiceScope::System, uid: 930 });
    let user = Some(ServiceSelection { scope: ServiceScope::User, uid: 1000 });
    assert_eq!(setup_selection(old, 1000, disabled, true, false).unwrap(), user);
    for scope in [ServiceScope::User, ServiceScope::System] {
        let owned = Some(ServiceSelection { scope, uid: 1000 });
        assert_eq!(setup_selection(owned, 1000, disabled, false, true).unwrap(), owned);
    }
    assert_eq!(setup_selection(None, 1000, disabled, true, false).unwrap(), None);
    assert!(setup_selection(old, 1000, disabled, false, false).is_err());
    assert!(setup_selection(old, 1000, disabled, true, true).is_err());
    let foreign_user = Some(ServiceSelection { scope: ServiceScope::User, uid: 1001 });
    assert!(setup_selection(foreign_user, 1000, disabled, true, false).is_err());
    for enabled in [Startup::Enabled, Startup::Runtime] {
        for startup in [
            Policy { user: enabled, ..disabled },
            Policy { system: enabled, ..disabled },
        ] {
            assert!(setup_selection(old, 1000, startup, true, false).is_err());
        }
    }
}

#[test]
fn setup_keeps_custom_files_and_backs_up_recognized_ones() {
    let path = "/etc/systemd/user/fixture.service";
    assert_eq!(write_file(path, "old", None, &vec![]).unwrap(), Write::Create);
    assert_eq!(write_file(path, "old", Some("old"), &vec![]).unwrap(), Write::Keep);
    assert_eq!(
        write_file(path, "new", Some("old"), &vec!["old".to_string()]).unwrap(),
        Write::BackUpAndReplace
    );
    assert_eq!(write_file(path, "new", Some("new"), &vec![]).unwrap(), Write::Keep);
    assert!(write_file(path, "another", Some("new"), &vec![]).is_err());
    let file = metadata(FileKind::File, 1000, 0o644);
    assert!(check_existing(&file, 1000).is_ok());
    assert!(check_existing(&Metadata { nlink: 2, ..file }, 1000).is_err());
    assert!(check_existing(&metadata(FileKind::Symlink, 1000, 0o644), 1000).is_err());
    assert!(check_directory(&metadata(FileKind::Directory, 1000, 0o755), 1000).is_ok());
    assert!(check_directory(&metadata(FileKind::Directory, 1000, 0o777), 1000).is_err());
}

#[test]
fn installed_daemon_requires_matching_protocol_and_safe_switching_capabilities() {
    let required: Vec<String> = [
        "guarded-writes",
        "graceful-shutdown",
        "service-write-gate",
        "service-selection",
        "service-startup-gate",
        "media-decode",
    ]
    .iter()
    .map(|one| one.to_string())
    .collect();
    let mut build = DaemonBuildInfo {
        version: "1.0".to_string(),
        protocol_version: 3,
        capabilities: required.clone(),
    };
    let check = |build: &DaemonBuildInfo| verify_build(build, "1.0", 3, &required);
    assert!(check(&build).is_ok());
    build.capabilities.pop();
    assert!(check(&build).is_err());
    build.capabilities.push("media-decode".to_string());
    build.capabilities.retain(|value| value != "service-startup-gate");
    assert!(check(&build).is_err());
    build.capabilities.push("service-startup-gate".to_string());
    assert!(check(&build).is_ok());
    build.protocol_version += 1;
    assert!(check(&build).is_err());
    build.protocol_version = 3;
    build.version = "old".to_string();
    assert!(check(&build).is_err());
}

#[test]
fn stale_manager_credentials_cannot_validate_destination_access() {
    let account = fixture_account();
    assert!(verify_manager_groups(
        "Uid:\t1000 1000 1000 1000\nGid:\t100 100 100 100\nGroups:\t200\n",
        &account
    )
    .is_ok());
    for status in [
        "Uid: 1000 1000 1000 1000\nGid: 100 100 100 100\nGroups: 100\n",
        "Uid: 1001 1001 1001 1001\nGid: 100 100 100 100\nGroups: 100 200\n",
        "Uid: 1000 1000 1000 1000\nGid: 300 300 300 300\nGroups: 100 200\n",
        "Groups: 100 200\n",
    ] {
        assert!(verify_manager_groups(status, &account).is_err());
    }
}

#[test]
fn manager_credentials_are_numbers() {
    assert_eq!(
        verify_manager_groups(
            "Uid: 1000 1000 none 1000\nGid: 100 100 100 100\nGroups: 200\n",
            &fixture_account()
        )
        .unwrap_err(),
        "invalid digit found in string"
    );
}

#[test]
fn manager_environment_paths_are_preserved_without_shell_interpretation() {
    let home = "/home/fixture";
    let env = Properties::new();
    assert_eq!(
        user_config(&env, home).unwrap(),
        "/home/fixture/.config/lianli/config.json"
    );
    let env = env.with("HOME".to_string(), "/different home".to_string());
    assert_eq!(
        user_config(&env, home).unwrap(),
        "/different home/.config/lianli/config.json"
    );
    let env = env.with("XDG_CONFIG_HOME".to_string(), "relative $(literal)".to_string());
    assert_eq!(
        user_config(&env, home).unwrap(),
        "/home/fixture/relative $(literal)/lianli/config.json"
    );
    let env = env.with("XDG_CONFIG_HOME".to_string(), "/absolute custom".to_string());
    assert_eq!(
        user_config(&env, home).unwrap(),
        "/absolute custom/lianli/config.json"
    );
}

#[test]
fn overridden_stale_or_uninstalled_native_units_are_not_assumed_safe() {
    let text = |reload: &str, fragment: &str| {
        Properties::parse(
            &format!(
                "LoadState=loaded\nNeedDaemonReload={reload}\nDropInPaths=\nWorkingDirectory=\nFragmentPath={fragment}\n"
            ),
            '=',
        )
    };
    let packaged = "/usr/lib/systemd/user/lianli-daemon.service";
    assert!(verify_properties(&text("no", packaged), ServiceScope::User).is_ok());
    assert!(verify_properties(&text("yes", packaged), ServiceScope::User).is_err());
    assert!(verify_properties(
        &text("no", "/home/user/.config/systemd/user/lianli-daemon.service"),
        ServiceScope::User
    )
    .is_err());
    assert!(verify_properties(&text("no", packaged), ServiceScope::System).is_err());
}

#[test]
fn harmless_environment_overrides_and_default_user_working_directory_are_supported() {
    for text in [
        "[Service]\nEnvironment=LIANLI_ENABLE_HW_VIDEO=1\n",
        "[Service]\nEnvironment=\"RUST_LOG=info\"\nEnvironment=WAYLAND_DISPLAY=wayland-1\n",
    ] {
        verify_override(text).unwrap();
    }
    for text in [
        "[Service]\nExecStart=/bin/false",
        "[Service]\nEnvironment=HOME=/other",
        "[Service]\nEnvironment=LD_PRELOAD=/tmp/custom.so",
        "[Service]\nEnvironment=\"RUST_LOG=info\" HOME=/other",
        "[Service]\nEnvironment=\"",
    ] {
        assert!(verify_override(text).is_err(), "{text}");
    }
    verify_working_directory("!/home/fixture", "/home/fixture").unwrap();
    verify_working_directory("/", "/").unwrap();
    assert!(verify_working_directory("/custom", "/home/fixture").is_err());
}

fn destination_report(account: &Account) -> Destination {
    Destination {
        scope: ServiceScope::User,
        uid: account.uid,
        gid: account.gid,
        groups_fingerprint: account.group_fingerprint(),
        mount_namespace: identity("4", "5"),
        state_directory: None,
        config_path: "/home/fixture/.config/lianli/config.json".to_string(),
        working_directory: "/home/fixture".to_string(),
        state: None,
        assets: AssetAccessReport { uid: account.uid, checked: 0, failed: 0, issues: vec![] },
    }
}

fn manager() -> Manager {
    let mut manager = Manager::begin(fixture_account());
    manager.activated(&output(0, "", ""));
    manager.identified(&output(0, "", ""), &Ok(("u".to_string(), vec![42])));
    manager.compared(&identity("1", "2"), &identity("1", "2"));
    manager.status("Uid:\t1000 1000 1000 1000\nGid:\t100 100 100 100\nGroups:\t200\n");
    assert_eq!(manager.step, ManagerStep::Verified, "{}", manager.error);
    manager
}

#[test]
fn preflights_confirm_the_users_manager_around_the_inspection() {
    let account = fixture_account();
    let begin = |scope, prepare| Preflight::begin(fixture_account(), scope, prepare);
    let mut preflight = begin(ServiceScope::User, true);
    preflight.program(Some("lianli-control"));
    assert_eq!(preflight.step, PreflightStep::CheckUserManager);
    preflight.user_manager(&manager());
    preflight.inspected(
        &Ok(output(0, "{}", "")),
        Ok(destination_report(&account)),
        &identity("4", "5"),
    );
    assert_eq!(preflight.step, PreflightStep::ConfirmUserManager);
    preflight.confirmed(&manager());
    assert_eq!(preflight.step, PreflightStep::Checked);
    assert!(preflight.report.is_some());

    let mut asleep = begin(ServiceScope::User, true);
    asleep.program(Some("lianli-control"));
    let mut stopped = Manager::begin(fixture_account());
    stopped.activated(&output(1, "", "no bus"));
    asleep.user_manager(&stopped);
    assert_eq!(asleep.error, "The user service manager is unavailable: no bus");

    let mut elsewhere = begin(ServiceScope::User, true);
    elsewhere.program(Some("lianli-control"));
    elsewhere.user_manager(&manager());
    elsewhere.inspected(
        &Ok(output(0, "{}", "")),
        Ok(destination_report(&account)),
        &identity("4", "6"),
    );
    assert_eq!(elsewhere.error, "Destination preflight ran under a different account");

    let mut system = begin(ServiceScope::System, true);
    system.program(Some("lianli-control"));
    system.host_namespace(&identity("4", "5"), &identity("4", "5"));
    assert_eq!(system.step, PreflightStep::PrepareSystemDirectory);
    let mut directory = SystemDirectory::begin(fixture_account());
    directory.authority(true, 1000);
    directory.parent(&metadata(FileKind::Directory, 0, 0o755));
    directory.looked_up(false);
    directory.owner(&Metadata { gid: 100, ..metadata(FileKind::Directory, 1000, 0o750) });
    assert_eq!(directory.step, SystemDirectoryStep::Ready, "{}", directory.error);
    system.prepared(&directory);
    let unread = || Err("expected value".to_string());
    system.inspected(&Ok(output(1, "", "refused\n")), unread(), &identity("4", "5"));
    assert_eq!(system.error, "Destination preflight failed: refused");
    let mut garbled = begin(ServiceScope::User, true);
    garbled.program(Some("lianli-control"));
    garbled.user_manager(&manager());
    garbled.inspected(&Ok(output(0, "", "")), unread(), &identity("4", "5"));
    assert_eq!(garbled.error, "Invalid destination preflight response: expected value");

    let mut stray = begin(ServiceScope::System, false);
    stray.program(Some("other"));
    assert_eq!(stray.step, PreflightStep::Failed);
    assert!(check_program(None).is_err());
    assert!(check_report(&destination_report(&account), &account, ServiceScope::User, &identity("4", "5")).is_ok());
    assert_eq!(
        recovery_arguments("/a path"),
        vec!["check-recovery-access", "--config", "/a path"]
    );
    assert!(preflight_recovery(&output(1, "", "locked")).unwrap_err().ends_with(": locked"));
    assert!(user_environment("as", &vec!["HOME=/home/a".to_string()]).unwrap().is("HOME", "/home/a"));
    assert!(user_environment("s", &vec![]).is_err());
}

#[test]
fn installed_helpers_lie_in_protected_chains() {
    let directory = metadata(FileKind::Directory, 0, 0o755);
    let link = metadata(FileKind::Symlink, 0, 0o777);
    let binary = metadata(FileKind::File, 0, 0o755);
    let path = "/usr/local/lianli-control";
    assert!(check_chain(path, "/usr", 0, &vec![binary, link, directory]).is_ok());
    assert!(check_chain(path, "/usr", 0, &vec![metadata(FileKind::File, 0, 0o775), link, directory])
        .is_err());
    assert!(check_chain(path, "/usr", 0, &vec![binary, metadata(FileKind::Directory, 0, 0o777), directory])
        .is_err());
    assert!(check_chain(path, "/usr", 1, &vec![binary, link, directory]).is_err());
    assert!(check_chain("/opt/lianli-control", "/usr", 0, &vec![binary]).is_err());
    assert!(check_executable(path, &binary).is_ok());
    assert!(check_executable(path, &metadata(FileKind::File, 0, 0o644)).is_err());
    assert!(check_executable("/usr/local/other", &binary).is_err());
    assert_eq!(installed(Sighting::Present, Sighting::Missing).unwrap(), packaged());
    assert_eq!(installed(Sighting::Missing, Sighting::Present).unwrap(), standalone());
    assert!(installed(Sighting::Missing, Sighting::Missing).is_err());
    assert_eq!(
        installed(Sighting::Unreadable("denied".to_string()), Sighting::Present).unwrap_err(),
        "Cannot inspect installed host helper: denied"
    );
}

#[test]
fn staging_rejects_scripts_symlinks_and_oversized_files() {
    let mut script = Staging::begin();
    let refused = script.chunk(&b"#!/bin/sh\nexit 0\n".to_vec()).is_err();
    assert!(refused || script.finish().is_err());
    assert!(check_source(&metadata(FileKind::File, 1000, 0o755)).is_ok());
    assert!(check_source(&metadata(FileKind::Symlink, 1000, 0o755)).is_err());
    let large = Metadata { len: 134_217_729, ..metadata(FileKind::File, 1000, 0o755) };
    assert!(check_source(&large).is_err());
}

#[test]
fn staged_helpers_have_the_digest_of_their_bytes() {
    let mut staging = Staging::begin();
    staging.chunk(&b"\x7fELFtest fixture bytes".to_vec()).unwrap();
    let whole = staging.finish().unwrap();
    let mut parts = Staging::begin();
    parts.chunk(&b"\x7fELFtest ".to_vec()).unwrap();
    parts.chunk(&b"fixture bytes".to_vec()).unwrap();
    assert_eq!(parts.finish().unwrap(), whole);
    let boxed = InstallationContext::Distrobox { name: "box".to_string() };
    let begin = |uid, request: &str| {
        let mut one = Authorization::begin(uid, "/opt/box", request, "install");
        one.context(&boxed);
        one.check_request();
        one
    };
    assert_eq!(begin(0, "{}").error, "Host setup requires the original box owner");
    assert_eq!(begin(1000, &"x".repeat(40_000)).error, "Host setup request exceeds 32 KiB");
    let private = metadata(FileKind::Directory, 1000, 0o700);
    let mut one = begin(1000, "{}");
    one.routed();
    one.runtime(&private);
    one.made();
    one.shared(&private, &Ok(output(0, "1:2:1000:700\n", "")));
    assert_eq!(one.step, AuthorizeStep::Stage, "{}", one.error);
    let mut staging = Staging::begin();
    staging.chunk(&b"\x7fELFtest fixture bytes".to_vec()).unwrap();
    one.staged(Ok(staging), Ok(()));
    one.version(&Ok(output(0, "lianli-control 1.0\n", "")), "1.0");
    assert_eq!(one.step, AuthorizeStep::Authorize);
    assert!(one.arguments("script", "/run/helper").iter().any(|arg| arg == &whole));
    one.authorized(&Ok(output(0, "", "")));
    assert_eq!(one.step, AuthorizeStep::Authorized);
    assert_eq!(one.source(), "/opt/box/lianli-control");
    let mut native = Authorization::begin(1000, "/opt/box", "{}", "install");
    native.context(&InstallationContext::Native);
    assert_eq!(native.step, AuthorizeStep::Failed);
    let mut open = begin(1000, "{}");
    open.routed();
    open.runtime(&metadata(FileKind::Directory, 1000, 0o755));
    assert_eq!(open.error, "The shared host user runtime is unavailable or not private");
}

#[test]
fn denied_access_is_repaired_once() {
    let denied = Lookup::Denied("Permission denied".to_string());
    let inside = InstallationContext::Distrobox { name: "fixture-box".to_string() };
    let after = |lookup: &Lookup, repaired| deployment_for_action(&inside, lookup, repaired);
    assert_eq!(after(&Lookup::Found, false).unwrap(), AfterLookup::Use);
    assert_eq!(after(&denied, false).unwrap(), AfterLookup::Repair);
    assert_eq!(after(&denied, true).unwrap_err(), "Permission denied");
    assert!(after(&Lookup::Failed("broken".to_string()), false).is_err());
    assert_eq!(
        deployment_for_action(&InstallationContext::Native, &denied, false).unwrap_err(),
        "Set up host support from the selected Distrobox"
    );
    let repairing = repair(&inside, 1000, Some("/opt/box")).unwrap();
    assert_eq!((repairing.action.as_str(), repairing.request.as_str()), ("repair", "fixture-box"));
    assert_eq!(
        repair(&inside, 1000, None).err().unwrap(),
        "Application directory is unavailable"
    );
    assert!(repair(&InstallationContext::Native, 1000, Some("/opt/box")).is_err());
    let installing = bootstrap(&inside, &deployment(), &names(), 1000, "{}").unwrap();
    assert_eq!((installing.action.as_str(), installing.request.as_str()), ("install", "{}"));
    assert_eq!(installing.source(), "/usr/bin/lianli-control");
    assert_eq!(
        bootstrap(&InstallationContext::Native, &deployment(), &names(), 1000, "{}").err().unwrap(),
        "Bootstrap host support from the selected Distrobox"
    );
    assert_eq!(
        bootstrap(&inside, &deployment(), &names(), 1001, "{}").err().unwrap(),
        "Host setup must use this box and its original account"
    );
}

#[test]
fn recovery_is_tested_in_the_directory_of_the_configuration() {
    assert_eq!(recovery_directory(1000, "/home/a/config.json").unwrap(), "/home/a");
    let own = Ok(metadata(FileKind::Directory, 1000, 0o700));
    assert!(check_recovery_access(1000, "/home/a/config.json", &own, &Ok(())).is_ok());
    assert_eq!(
        check_recovery_access(1000, "/", &own, &Ok(())).unwrap_err(),
        "Recovery configuration has no directory"
    );
    for (uid, config) in [(0, "/home/a/config.json"), (1000, "config.json")] {
        assert_eq!(
            check_recovery_access(uid, config, &own, &Ok(())).unwrap_err(),
            "Check recovery access under its unprivileged destination account"
        );
    }
    let open = Ok(metadata(FileKind::Directory, 1000, 0o777));
    assert_eq!(
        check_recovery_access(1000, "/home/a/config.json", &open, &Ok(())).unwrap_err(),
        "Media publication directory must belong to its account and exclude other writers"
    );
    let full = Err("no space".to_string());
    assert_eq!(
        check_recovery_access(1000, "/home/a/config.json", &own, &full).unwrap_err(),
        "no space"
    );
}
