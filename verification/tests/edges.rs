use lianli_control::account::Account;
use lianli_control::authorized_service::{check_action, check_context, needs_lingering};
use lianli_control::command::Output;
use lianli_control::container_bootstrap::proposal;
use lianli_control::container_channel::{check_run, receive, watch, Expected, Message, Watch};
use lianli_control::container_deployment::{unit_location, Deployment};
use lianli_control::container_destination::{
    initialize_worker, inspect_identity, ConfigNames, DestinationAnswer, Execution, Identity,
    IdentityAnswer, Launch, Route,
};
use lianli_control::daemon_probe::{socket_path, Probe, ProbeStep};
use lianli_control::destination::{Destination, StateSummary};
use lianli_control::diagnostic_logs::{message_arguments, recent_arguments};
use lianli_control::distrobox_import::{check_visible, Peer};
use lianli_control::files::{FileKind, Metadata};
use lianli_control::media_validation::AssetAccessReport;
use lianli_control::process_owner::{host_file, PeerFiles};
use lianli_control::saved_state;
use lianli_control::saved_state::Checked;
use lianli_control::services::{
    FileIdentity, InstallationContext, OwnerProcess, OwnershipSnapshot, ServiceAction,
    ServiceActionRequest, ServiceProbe, ServiceReport, ServiceScope,
};

fn identity(device: &str, inode: &str) -> FileIdentity {
    FileIdentity { device: device.to_string(), inode: inode.to_string() }
}

fn directory(uid: u32, mode: u32) -> Metadata {
    Metadata {
        kind: FileKind::Directory,
        uid,
        gid: uid,
        mode,
        dev: 6,
        ino: 7,
        len: 10,
        nlink: 1,
        mtime: 0,
        mtime_nsec: 0,
        ctime: 0,
        ctime_nsec: 0,
    }
}

fn account() -> Account {
    Account {
        uid: 1000,
        gid: 100,
        groups: vec![100, 200],
        name: "fixture".to_string(),
        home: "/home/fixture".to_string(),
        container: None,
    }
}

fn names() -> ConfigNames {
    ConfigNames { user: Ok(()), system: Ok(()) }
}

fn launch() -> Launch {
    Launch {
        name: "fixture-box".to_string(),
        host_enter: "/usr/bin/distrobox-enter".to_string(),
        binaries: "/usr/bin".to_string(),
    }
}

fn route() -> Route {
    Route {
        launch: launch(),
        user_config: "/home/fixture/user/config.json".to_string(),
        system_config: "/home/fixture/system/config.json".to_string(),
        user_working_directory: "/home/fixture".to_string(),
        system_working_directory: "/home/fixture".to_string(),
    }
}

fn execution(scope: ServiceScope) -> Execution {
    let (directory, inode) = match scope {
        ServiceScope::User => ("user", "7"),
        ServiceScope::System => ("system", "8"),
    };
    Execution {
        launch: launch(),
        destination: Identity {
            name: "fixture-box".to_string(),
            scope,
            uid: 1000,
            gid: 100,
            groups_fingerprint: "a".repeat(64),
            mount_namespace: identity("4", "5"),
            state_directory: identity("6", inode),
            config_path: format!("/home/fixture/{directory}/config.json"),
            working_directory: "/home/fixture".to_string(),
        },
    }
}

#[test]
fn only_managed_system_services_that_run_need_lingering() {
    let request = |scope, action| ServiceActionRequest { scope, action };
    assert!(needs_lingering(request(ServiceScope::System, ServiceAction::Start), true));
    assert!(needs_lingering(request(ServiceScope::System, ServiceAction::Restart), true));
    assert!(!needs_lingering(request(ServiceScope::System, ServiceAction::Stop), true));
    assert!(!needs_lingering(request(ServiceScope::System, ServiceAction::Start), false));
    assert!(!needs_lingering(request(ServiceScope::User, ServiceAction::Start), true));
    let report = |context| ServiceReport {
        context,
        user: ServiceProbe::Unavailable { reason: "unused".to_string() },
        system: ServiceProbe::Unavailable { reason: "unused".to_string() },
        ownership: None,
    };
    assert!(check_context(&report(InstallationContext::Native)).is_ok());
    assert_eq!(
        check_context(&report(InstallationContext::UnsupportedContainer)).unwrap_err(),
        "Service inspection left the native host"
    );
}

#[test]
fn deployments_are_proposed_for_the_same_owner_on_both_sides() {
    let printed = |succeeded, stdout: &str| Output {
        code: Some(if succeeded { 0 } else { 1 }),
        status: String::new(),
        stdout: stdout.to_string(),
        stderr: String::new(),
    };
    let inside = InstallationContext::Distrobox { name: "fixture-box".to_string() };
    let proposed = |succeeded, uid: &str, config: Option<&str>| {
        proposal(
            &inside,
            Ok(None),
            &account(),
            &printed(true, uid),
            &printed(succeeded, "fixture\n"),
            config.map(str::to_string),
            None,
            Some("/usr/bin"),
            &names(),
        )
    };
    let deployment = proposed(true, "1000\n", None).unwrap();
    assert_eq!(deployment.version, 1);
    assert_eq!(deployment.owner_name, "fixture");
    assert_eq!(deployment.route.launch.host_enter, "/usr/bin/distrobox-enter");
    assert_eq!(
        deployment.route.system_config,
        "/home/fixture/.local/share/lianli-system/config.json"
    );
    let own = proposed(true, "1000", Some("/home/fixture/own/config.json")).unwrap();
    assert_eq!(own.route.user_config, "/home/fixture/own/config.json");
    for (succeeded, uid) in [(false, "1000"), (true, "1001"), (true, "")] {
        assert_eq!(
            proposed(succeeded, uid, None).err().unwrap(),
            "The host and box must use the same account for managed services"
        );
    }
    let shared = "/home/fixture/.local/share/lianli-system/other.json";
    assert_eq!(
        proposed(true, "1000", Some(shared)).err().unwrap(),
        "Container service modes must use separate state directories"
    );
    let asked = |context: &InstallationContext, existing, binaries| {
        proposal(
            context,
            existing,
            &account(),
            &printed(true, "1000\n"),
            &printed(true, "fixture\n"),
            None,
            None,
            binaries,
            &names(),
        )
    };
    assert_eq!(
        asked(&InstallationContext::Native, Ok(None), Some("/usr/bin")).err().unwrap(),
        "Set up host support from the selected Distrobox"
    );
    assert_eq!(asked(&inside, Err("late".to_string()), Some("/usr/bin")).err().unwrap(), "late");
    assert_eq!(
        asked(&inside, Ok(None), None).err().unwrap(),
        "Application directory is unavailable"
    );
    let mut existing = proposed(true, "1000\n", None).unwrap();
    existing.owner_name = "another".to_string();
    assert_eq!(asked(&inside, Ok(Some(existing)), None).unwrap().owner_name, "another");
}

#[test]
fn worker_launches_are_checked_in_order() {
    let arguments = |list: &[&str]| list.iter().map(|part| part.to_string()).collect::<Vec<_>>();
    let run = |uid, enter: &str, list: &[&str]| {
        check_run(uid, "fixture-box", enter, "/usr/bin", &arguments(list))
    };
    let enter = "/usr/bin/distrobox-enter";
    assert!(run(1000, enter, &["send-state"]).is_ok());
    assert_eq!(
        run(0, enter, &["send-state"]).unwrap_err(),
        "Enter container workers as the unprivileged box owner"
    );
    assert_eq!(
        run(1000, "/usr/bin/podman", &["send-state"]).unwrap_err(),
        "Invalid container worker launch route"
    );
    assert_eq!(run(1000, enter, &[]).unwrap_err(), "Invalid container worker arguments");
    assert_eq!(
        run(1000, enter, &["switch-mode"]).unwrap_err(),
        "Only state transfer workers may receive a container channel"
    );
}

#[test]
fn workers_end_with_their_parent() {
    assert_eq!(watch(true, 1, false), Watch::Stop);
    assert_eq!(watch(false, 1, false), Watch::Exit);
    assert_eq!(watch(false, -1, false), Watch::Exit);
    assert_eq!(watch(false, -1, true), Watch::Continue);
    assert_eq!(watch(false, 0, false), Watch::Continue);
    assert!(receive(Expected::Channel, &Message::Channel, true).is_ok());
    assert_eq!(
        receive(Expected::Channel, &Message::Stdout, true).unwrap_err(),
        "Unexpected container handoff response"
    );
    assert_eq!(
        receive(Expected::Channel, &Message::Channel, false).unwrap_err(),
        "Missing container transfer descriptor"
    );
    assert_eq!(
        receive(Expected::Stdout, &Message::Channel, true).unwrap_err(),
        "Missing container stdout handoff"
    );
    assert_eq!(
        receive(Expected::Stderr, &Message::Stderr, false).unwrap_err(),
        "Missing container stderr descriptor"
    );
}

#[test]
fn units_lie_where_their_manager_looks() {
    assert_eq!(
        unit_location(ServiceScope::User, "/home/fixture"),
        "/home/fixture/.config/systemd/user/lianli-daemon.service"
    );
    assert_eq!(
        unit_location(ServiceScope::System, "/home/fixture"),
        "/etc/systemd/system/lianli-daemon-system.service"
    );
}

#[test]
fn switching_in_a_box_needs_two_separate_destinations() {
    let etc = || Metadata { uid: 0, gid: 0, ..directory(0, 0o755) };
    let output = |code| Output {
        code: Some(code),
        status: String::new(),
        stdout: String::new(),
        stderr: "denied".to_string(),
    };
    let known = |scope| IdentityAnswer {
        output: Ok(output(0)),
        answer: Ok(execution(scope).destination),
    };
    let report = |scope, inode: &str| {
        let one = execution(scope).destination;
        DestinationAnswer {
            output: Ok(output(0)),
            answer: Ok(Destination {
                scope,
                uid: one.uid,
                gid: one.gid,
                groups_fingerprint: one.groups_fingerprint,
                mount_namespace: one.mount_namespace,
                state_directory: Some(identity("6", inode)),
                config_path: one.config_path,
                working_directory: one.working_directory,
                state: None,
                assets: AssetAccessReport { uid: one.uid, checked: 0, failed: 0, issues: vec![] },
            }),
        }
    };
    let user = report(ServiceScope::User, "7");
    let system = report(ServiceScope::System, "8");
    let shared = report(ServiceScope::System, "7");
    let deployment = Deployment {
        version: 1,
        owner_uid: 1000,
        owner_name: "fixture".to_string(),
        route: route(),
    };
    let switched = |host: &Account, verified: i32, system: &DestinationAnswer| {
        deployment.switch_accounts(
            host,
            &names(),
            true,
            &etc(),
            "{}",
            &Ok(output(verified)),
            &user,
            system,
        )
    };
    let both = switched(&account(), 0, &system).unwrap();
    assert_eq!(both.0.destination.config_path, "/home/fixture/user/config.json");
    assert_eq!(both.1.destination.config_path, "/home/fixture/system/config.json");
    let mut stranger = account();
    stranger.uid = 1001;
    assert!(switched(&stranger, 0, &system).is_err());
    assert_eq!(
        switched(&account(), 1, &system).err().unwrap(),
        "Container wrapper verification failed: denied"
    );
    assert_eq!(
        switched(&account(), 0, &shared).err().unwrap(),
        "User and system modes must use separate state directories"
    );
    let recovered = |user, system| {
        route().recovery_accounts(true, &account(), &names(), user, system)
    };
    assert!(recovered(known(ServiceScope::User), known(ServiceScope::System)).is_ok());
    assert_eq!(
        recovered(known(ServiceScope::User), known(ServiceScope::User)).err().unwrap(),
        "Container recovery identity differs from the requested destination"
    );
    let lost = IdentityAnswer {
        output: Ok(output(1)),
        answer: Err("unused".to_string()),
    };
    assert_eq!(
        recovered(known(ServiceScope::User), lost).err().unwrap(),
        "Container recovery identity is unavailable: denied"
    );
    let request = |scope, action| ServiceActionRequest { scope, action };
    let recorded = Some((
        Deployment {
            version: 1,
            owner_uid: 1000,
            owner_name: "fixture".to_string(),
            route: route(),
        },
        names(),
    ));
    let start = request(ServiceScope::System, ServiceAction::Start);
    assert!(check_action(start, &account(), &recorded, &Ok(true)).is_ok());
    assert!(check_action(start, &account(), &recorded, &Ok(false)).is_err());
    assert!(check_action(start, &stranger, &recorded, &Ok(true)).is_err());
    assert!(check_action(start, &stranger, &None, &Ok(false)).is_ok());
    let stop = request(ServiceScope::System, ServiceAction::Stop);
    assert!(check_action(stop, &account(), &recorded, &Ok(false)).is_ok());
}

#[test]
fn recovery_asks_the_box_for_its_identity() {
    let asked = |native, account: &Account, working: &str| {
        Execution::for_recovery(
            native,
            account,
            &launch(),
            ServiceScope::System,
            "/home/fixture/system/config.json",
            &Ok(()),
            working,
        )
    };
    let arguments = asked(true, &account(), "/home/fixture").unwrap();
    assert_eq!(arguments[0], "box-worker");
    assert_eq!(arguments[8], "inspect-container-identity");
    assert_eq!(arguments.last().unwrap(), "/home/fixture");
    assert!(asked(false, &account(), "/home/fixture").is_err());
    assert!(asked(true, &account(), "relative").is_err());
    let mut inside = account();
    inside.container = Some(execution(ServiceScope::User));
    assert_eq!(
        asked(true, &inside, "/home/fixture").unwrap_err(),
        "Inspect container recovery through its original host account"
    );
}

#[test]
fn workers_take_one_bounded_destination() {
    let own = directory(1000, 0o700);
    let taken = || Identity {
        groups_fingerprint: account().group_fingerprint(),
        mount_namespace: identity("4", "5"),
        state_directory: identity("6", "7"),
        ..execution(ServiceScope::User).destination
    };
    let bound = |text: &str, read, namespace: &FileIdentity, set: Option<&Identity>| {
        initialize_worker(text, read, &Ok(()), &account(), &own, namespace, set)
    };
    let here = identity("4", "5");
    let first = bound("{}", Ok(taken()), &here, None).unwrap();
    assert_eq!(first.config_path, taken().config_path);
    assert_eq!(
        bound("{}", Ok(taken()), &here, Some(&first)).unwrap_err(),
        "Container worker destination was already set"
    );
    assert_eq!(
        bound(&"x".repeat(16_385), Ok(taken()), &here, None).unwrap_err(),
        "Container destination metadata exceeds 16 KiB"
    );
    assert_eq!(
        bound("{}", Err("missing field".to_string()), &here, None).unwrap_err(),
        "missing field"
    );
    assert!(bound("{}", Ok(taken()), &identity("4", "9"), None).is_err());
    let rooted = Identity { uid: 0, ..taken() };
    assert_eq!(
        bound("{}", Ok(rooted), &here, None).unwrap_err(),
        "Container state workers require a named box and unprivileged account"
    );
}

#[test]
fn boxes_identify_their_own_state_directory() {
    let identified = |name: &str, working: &str, found: &Metadata| {
        inspect_identity(
            name,
            ServiceScope::User,
            "/home/fixture/user/config.json",
            &Ok(()),
            working,
            &account(),
            found,
            &identity("4", "5"),
        )
    };
    let found = identified("fixture-box", "/home/fixture", &directory(1000, 0o700)).unwrap();
    assert_eq!(found.state_directory.inode, "7");
    assert_eq!(found.mount_namespace.inode, "5");
    assert_eq!(found.gid, 100);
    assert!(identified("fixture-box", "relative", &directory(1000, 0o700)).is_err());
    assert_eq!(
        identified("", "/home/fixture", &directory(1000, 0o700)).err().unwrap(),
        "Container state workers require a named box and unprivileged account"
    );
    assert_eq!(
        identified("fixture-box", "/home/fixture", &directory(1000, 0o777)).err().unwrap(),
        "The container state directory changed after preflight"
    );
}

#[test]
fn daemons_listen_in_the_runtime_directory_of_their_mode() {
    let native = InstallationContext::Native;
    let inside = InstallationContext::Distrobox { name: "fixture-box".to_string() };
    assert_eq!(
        socket_path(&native, ServiceScope::System, None, 1000).unwrap(),
        "/run/lianli/lianli-daemon.sock"
    );
    assert_eq!(
        socket_path(&native, ServiceScope::User, Some("/elsewhere"), 1000).unwrap(),
        "/run/user/1000/lianli-daemon.sock"
    );
    assert_eq!(
        socket_path(&inside, ServiceScope::User, Some("/run/box"), 1000).unwrap(),
        "/run/box/lianli-daemon.sock"
    );
    assert_eq!(
        socket_path(&inside, ServiceScope::User, None, 1000).unwrap_err(),
        "Missing container runtime directory"
    );
    assert_eq!(
        socket_path(&inside, ServiceScope::User, Some("run"), 1000).unwrap_err(),
        "User runtime directory must be absolute"
    );
}

#[test]
fn daemons_of_a_box_are_verified_through_the_host() {
    let owner = || OwnershipSnapshot {
        identity: identity("1", "2"),
        owner_pid: Some(10),
        process: Some(ServiceProbe::Known {
            value: OwnerProcess {
                pid: 10,
                effective_uid: 1000,
                start_time_ticks: "5".to_string(),
                control_group: "/user.slice".to_string(),
                service: Some(ServiceScope::User),
            },
        }),
    };
    let reached = || {
        let mut probe = Probe::begin(false, ServiceScope::User, owner());
        probe.check_owner();
        probe.connected(&Ok(()));
        probe.peer(true, 1000, 7);
        assert_eq!(probe.step, ProbeStep::CheckContainerPeer, "{}", probe.error);
        probe
    };
    let stat = |pid: u32, start: &str| {
        let mut fields = vec!["0"; 20];
        fields[19] = start;
        Ok(format!("{pid} (daemon) {}", fields.join(" ")))
    };
    let files = |uid: u32| PeerFiles {
        status: Ok(format!("Uid: {uid} {uid} {uid} {uid}\nNSpid: 10 7\n")),
        namespace: Ok(Output {
            code: Some(0),
            status: String::new(),
            stdout: "4:4026531836\n".to_string(),
            stderr: String::new(),
        }),
        local: Ok((4, 4026531836)),
        local_stat: stat(7, "5"),
        host_stat: stat(10, "5"),
    };
    let mut verified = reached();
    verified.container_peer(&files(1000));
    assert_eq!(verified.step, ProbeStep::AskInfo, "{}", verified.error);
    let mut refused = reached();
    refused.container_peer(&files(1001));
    assert_eq!(refused.step, ProbeStep::Failed);
    assert!(refused.error.contains("credentials changed"));
}

#[test]
fn journals_are_asked_for_one_unit_and_invocation() {
    assert_eq!(
        recent_arguments("--user", "lianli-daemon.service").last().unwrap(),
        "_SYSTEMD_USER_UNIT=lianli-daemon.service"
    );
    assert_eq!(
        recent_arguments("--system", "lianli-daemon-system.service").last().unwrap(),
        "_SYSTEMD_UNIT=lianli-daemon-system.service"
    );
    assert_eq!(
        message_arguments("--user", "lianli-daemon.service", "abc").last().unwrap(),
        "_SYSTEMD_INVOCATION_ID=abc"
    );
}

#[test]
fn peers_and_host_processes_must_be_visible() {
    assert!(check_visible(&Peer { pid: 1, uid: 1000, gid: 100 }).is_ok());
    assert_eq!(
        check_visible(&Peer { pid: 0, uid: 1000, gid: 100 }).unwrap_err(),
        "Daemon is not visible in this process namespace"
    );
    let output = |code| Output {
        code: Some(code),
        status: String::new(),
        stdout: "Uid: 0".to_string(),
        stderr: "denied\n".to_string(),
    };
    assert_eq!(host_file(&output(0), "status").unwrap(), "Uid: 0");
    assert_eq!(
        host_file(&output(1), "status").unwrap_err(),
        "Cannot read host process status: denied"
    );
}

#[test]
fn saved_state_is_what_the_preflight_saw() {
    let destination = Destination {
        scope: ServiceScope::User,
        uid: 1000,
        gid: 100,
        groups_fingerprint: account().group_fingerprint(),
        mount_namespace: identity("4", "5"),
        state_directory: None,
        config_path: "/home/fixture/config.json".to_string(),
        working_directory: "/home/fixture".to_string(),
        state: Some(StateSummary {
            generation: "one".to_string(),
            profiles: 0,
            issue_count: 0,
            issues: vec![],
        }),
        assets: AssetAccessReport { uid: 1000, checked: 0, failed: 0, issues: vec![] },
    };
    let output = |code| Output {
        code: Some(code),
        status: String::new(),
        stdout: String::new(),
        stderr: "refused\n".to_string(),
    };
    let checked = |state: &str| Ok(Checked { state: Some(state.to_string()), assets: String::new() });
    let found =
        saved_state::check(true, &destination, &Ok(output(0)), checked("one")).unwrap();
    assert_eq!(found.state.unwrap(), "one");
    assert_eq!(
        saved_state::check(false, &destination, &Ok(output(0)), checked("one")).err().unwrap(),
        "Saved-state account differs from destination preflight"
    );
    let late = Err("late".to_string());
    assert_eq!(
        saved_state::check(true, &destination, &late, checked("one")).err().unwrap(),
        "late"
    );
    let refused = |code, read| {
        saved_state::check(true, &destination, &Ok(output(code)), read).err().unwrap()
    };
    assert_eq!(refused(1, checked("one")), "Saved-state validation failed: refused");
    assert_eq!(
        refused(0, Err("eof".to_string())),
        "Invalid saved-state validation response: eof"
    );
    assert_eq!(
        refused(0, checked("two")),
        "Saved settings changed after destination preflight. Prepare the switch again"
    );
}
