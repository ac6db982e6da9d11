use lianli_control::account::Account;
use lianli_control::authorized_service;
use lianli_control::command::{Ran, Read, Run, RunStep};
use lianli_control::container_channel::{
    attach, run, AttachStep, Entry, EntryStep, HandoffStep, Message,
};
use lianli_control::container_deployment::{install, Deployment, RecordStep};
use lianli_control::container_destination::{ConfigNames, Launch, Route};
use lianli_control::container_setup::{FileStep, FileWrite, Setup, SetupStep};
use lianli_control::daemon_probe::{Probe, ProbeStep};
use lianli_control::destination::inspect;
use lianli_control::destination_inspection::InspectionStep;
use lianli_control::diagnostic_logs::{plain_text, LogSource, Reading};
use lianli_control::files::{FileKind, Metadata};
use lianli_control::reservation::Held;
use lianli_control::services::{
    DaemonInfo, DaemonMode, FileIdentity, InstallationContext, OwnerProcess, OwnershipSnapshot,
    Policy, ServiceAction, ServiceActionRequest, ServiceProbe, ServiceReport, ServiceScope,
    Startup, UnitState,
};

fn identity(device: &str, inode: &str) -> FileIdentity {
    FileIdentity { device: device.to_string(), inode: inode.to_string() }
}

fn metadata(kind: FileKind, uid: u32, mode: u32) -> Metadata {
    Metadata {
        kind,
        uid,
        gid: uid,
        mode,
        dev: 1,
        ino: 2,
        len: 10,
        nlink: 1,
        mtime: 0,
        mtime_nsec: 0,
        ctime: 0,
        ctime_nsec: 0,
    }
}

fn account() -> Account {
    Account {
        uid: 1000,
        gid: 100,
        groups: vec![100, 200],
        name: "fixture".to_string(),
        home: "/home/fixture".to_string(),
        container: None,
    }
}

fn names() -> ConfigNames {
    ConfigNames { user: Ok(()), system: Ok(()) }
}

fn deployment() -> Deployment {
    Deployment {
        version: 1,
        owner_uid: 1000,
        owner_name: "fixture".to_string(),
        route: Route {
            launch: Launch {
                name: "fixture-box".to_string(),
                host_enter: "/usr/bin/distrobox-enter".to_string(),
                binaries: "/usr/bin".to_string(),
            },
            user_config: "/home/fixture/user/config.json".to_string(),
            system_config: "/home/fixture/system/config.json".to_string(),
            user_working_directory: "/home/fixture".to_string(),
            system_working_directory: "/home/fixture".to_string(),
        },
    }
}

fn unit(scope: ServiceScope) -> ServiceProbe<UnitState> {
    ServiceProbe::Known {
        value: UnitState {
            name: scope.unit().to_string(),
            load_state: "loaded".to_string(),
            active_state: "inactive".to_string(),
            sub_state: "dead".to_string(),
            unit_file_state: "disabled".to_string(),
            main_pid: 0,
            fragment_path: "fixture".to_string(),
            control_group: None,
            kill_mode: None,
            send_sigkill: None,
            graceful_shutdown: None,
            invocation_id: None,
            distrobox_name: None,
        },
    }
}

fn owner(pid: Option<u32>) -> OwnershipSnapshot {
    OwnershipSnapshot {
        identity: identity("1", "2"),
        owner_pid: pid,
        process: pid.map(|pid| ServiceProbe::Known {
            value: OwnerProcess {
                pid,
                effective_uid: 1000,
                start_time_ticks: "1".to_string(),
                control_group: "/g".to_string(),
                service: Some(ServiceScope::User),
            },
        }),
    }
}

fn report(ownership: Option<ServiceProbe<OwnershipSnapshot>>) -> ServiceReport {
    ServiceReport {
        context: InstallationContext::Native,
        user: unit(ServiceScope::User),
        system: unit(ServiceScope::System),
        ownership,
    }
}

fn held() -> Held {
    Held {
        expected: identity("1", "2"),
        descriptor: metadata(FileKind::File, 0, 0o644),
        path: Ok(identity("1", "2")),
        host: None,
    }
}

fn written(path: &str, contents: &str, previous: &[String]) -> FileWrite {
    let mut write =
        FileWrite::begin(path.to_string(), 0, contents.to_string(), previous.to_vec());
    write.located("/root");
    let directory = metadata(FileKind::Directory, 0, 0o755);
    while write.step == FileStep::OpenDirectory {
        write.entered(&directory);
    }
    write.existing(None);
    write.written();
    write.synced();
    assert_eq!(write.step, FileStep::Written, "{}", write.error);
    write
}

fn writing() -> Setup {
    let mut setup = Setup::install(deployment(), names());
    setup.context(true);
    setup.caller(account());
    setup.helper("/opt/helper", None);
    setup.done();
    setup.done();
    setup.journal(false);
    setup.inspected(report(Some(ServiceProbe::Known { value: owner(None) })));
    setup.startup(Policy { user: Startup::Disabled, system: Startup::Disabled });
    setup.selection(None);
    setup.done();
    setup.record(None);
    if setup.step == SetupStep::ReplaceSelection {
        setup.done();
    }
    assert_eq!(setup.step, SetupStep::WriteSystemUnit, "{}", setup.error);
    setup
}

#[test]
fn setup_files_have_their_places_and_their_texts() {
    let mut setup = writing();
    let text = "Exec=/usr/bin/lianli-control run";
    let standalone = "Exec=/usr/local/libexec/lianli/lianli-control run";
    let expected = [
        ("/etc/systemd/system/lianli-daemon-system.service", None, 0),
        ("/etc/systemd/system/lianli-control-recovery.service", Some(standalone), 2),
        ("/etc/tmpfiles.d/lianli.conf", Some(text), 0),
        ("/etc/polkit-1/rules.d/49-lianli-recovery.rules", Some(text), 0),
        ("/etc/xdg/autostart/com.sgtaziz.lianlilinux.recovery.desktop", Some(standalone), 2),
    ];
    for (path, contents, replaceable) in expected {
        let file = setup.file(text).unwrap();
        assert_eq!(file.path, path);
        let whole = match contents {
            Some(contents) => contents.to_string(),
            None => deployment().unit(ServiceScope::System, &names()).unwrap(),
        };
        assert_eq!(file.contents, whole);
        assert_eq!(file.previous.len(), replaceable);
        setup.wrote(text, &written(&file.path, &file.contents, &file.previous));
    }
    assert_eq!(setup.step, SetupStep::InstallUserUnits, "{}", setup.error);
    let mut refused = writing();
    let file = refused.file(text).unwrap();
    let mut custom = written(&file.path, &file.contents, &file.previous);
    custom.failed("A custom support file needs review before replacement");
    refused.wrote(text, &custom);
    assert_eq!(refused.error, "A custom support file needs review before replacement");
}

#[test]
fn setups_end_with_the_record_of_their_deployment() {
    let mut setup = writing();
    for _ in 0..5 {
        let file = setup.file("text").unwrap();
        setup.wrote("text", &written(&file.path, &file.contents, &file.previous));
    }
    let output = |code| lianli_control::command::Output {
        code: Some(code),
        status: String::new(),
        stdout: String::new(),
        stderr: "refused".to_string(),
    };
    setup.output(&output(0));
    setup.output(&output(0));
    setup.output(&output(0));
    setup.done();
    setup.done();
    assert_eq!(setup.step, SetupStep::InstallRecord, "{}", setup.error);
    let etc = metadata(FileKind::Directory, 0, 0o755);
    let mut recording = install(deployment(), account(), names());
    recording.host(true, &etc);
    recording.authority(true);
    recording.owner();
    recording.account(&account());
    recording.operation(&held());
    recording.hardware(&held());
    recording.journal(false);
    recording.units(true, &etc, "{}", &Ok(output(0)));
    recording.operation(&held());
    recording.hardware(&held());
    recording.written(&Ok(etc), &Ok(()), "{}", &Ok(()));
    recording.operation(&held());
    recording.hardware(&held());
    assert_eq!(recording.step, RecordStep::Recorded, "{}", recording.error);
    setup.installed(&recording);
    assert_eq!(setup.step, SetupStep::Done, "{}", setup.error);
}

fn arguments(list: &[&str]) -> Vec<String> {
    list.iter().map(|one| one.to_string()).collect()
}

fn entered(launched: bool) -> Entry {
    let mut entry = Entry::begin(
        1000,
        "fixture-box".to_string(),
        "/usr/bin/distrobox-enter".to_string(),
        "/usr/bin".to_string(),
        Some("{}".to_string()),
        arguments(&["send-state"]),
    )
    .unwrap();
    entry.runtime(
        Some("/run/user/1000".to_string()),
        &Ok(metadata(FileKind::Directory, 1000, 0o700)),
    );
    entry.broker("/run/user/1000/broker", &vec![0xab; 16]);
    if entry.step == EntryStep::CheckChannel {
        entry.channel(&Ok(()));
    }
    entry.compose();
    assert_eq!(entry.step, EntryStep::HandOver, "{}", entry.error);
    let mut handoff = entry.handing();
    assert_eq!(handoff.token, "ab".repeat(16));
    handoff.accepted();
    handoff.peer(true, 1000, 42, 1000);
    let token = handoff.token.clone();
    handoff.hello(&Message::Hello { token }, false);
    while handoff.step != HandoffStep::Done && handoff.step != HandoffStep::Failed {
        match handoff.step {
            HandoffStep::AwaitReady if launched => handoff.ready(&Message::Ready, false),
            HandoffStep::AwaitReady => handoff.failed("The worker went away"),
            _ => handoff.sent(),
        }
    }
    entry.handed(&handoff);
    entry
}

fn ran(run: Result<Run, String>, code: i32) -> Result<Ran, String> {
    let mut run = run?;
    while run.step != RunStep::Complete && run.step != RunStep::Failed {
        match run.step {
            RunStep::CheckTime => run.tick(false, 0),
            RunStep::ReadOutput => run.read_output(Read::End),
            RunStep::ReadErrors => run.read_errors(Read::End),
            RunStep::CheckExit => run.exited(true),
            RunStep::Finish => run.finished(Some(code)),
            _ => run.waited(),
        }
    }
    Ok(Ran { run, status: format!("exit status: {code}") })
}

#[test]
fn workers_enter_a_box_and_take_over_their_channel() {
    let mut entry = entered(true);
    assert!(!entry.cancels());
    assert!(entry.command.contains(&"send-state".to_string()));
    assert!(entry.command.contains(&"ab".repeat(16)));
    entry.launched(&ran(entry.launching(), 0));
    assert_eq!(entry.step, EntryStep::Finished, "{}", entry.error);
    assert_eq!(entry.output.unwrap().code, Some(0));
    let mut lost = entered(false);
    assert!(lost.cancels());
    lost.launched(&ran(lost.launching(), 1));
    assert_eq!(lost.step, EntryStep::Failed);
    let begun = |uid, list: &[&str]| {
        Entry::begin(
            uid,
            "fixture-box".to_string(),
            "/usr/bin/distrobox-enter".to_string(),
            "/usr/bin".to_string(),
            None,
            arguments(list),
        )
    };
    assert_eq!(
        begun(1000, &[]).err().unwrap(),
        "Invalid container worker arguments"
    );
    assert!(begun(0, &["send-state"]).is_err());
    let mut open = begun(1000, &["send-state"]).unwrap();
    open.runtime(
        Some("/run/user/1000".to_string()),
        &Ok(metadata(FileKind::Directory, 1000, 0o755)),
    );
    assert_eq!(
        open.error,
        "Container transfer requires a private runtime directory owned by this account"
    );
    let mut homeless = begun(1000, &["send-state"]).unwrap();
    homeless.runtime(None, &Err("unused".to_string()));
    assert_eq!(homeless.error, "Missing host user runtime directory");
    let composed = |uid, list: &[&str]| {
        run(
            uid,
            "fixture-box",
            "/usr/bin/distrobox-enter",
            "/usr/bin",
            "/run/user/1000/broker/channel",
            "token",
            None,
            arguments(list),
        )
    };
    assert!(composed(1000, &["send-state"]).is_ok());
    assert!(composed(0, &["send-state"]).is_err());
    assert!(composed(1000, &["switch-mode"]).is_err());
    assert_eq!(attach(1000, true).unwrap().step, AttachStep::Restrict);
    assert_eq!(
        attach(0, true).err().unwrap(),
        "Receive container worker channels under an unprivileged account"
    );
}

fn info() -> DaemonInfo {
    DaemonInfo {
        version: "1.0".to_string(),
        protocol_version: 1,
        instance_id: "one".to_string(),
        pid: 42,
        mode: DaemonMode::User,
        config_path: "/home/fixture/config.json".to_string(),
        capabilities: vec!["graceful".to_string()],
        ownership_lock: Some(identity("1", "2")),
        service_invocation: None,
        service_operation_lock: None,
    }
}

fn probed() -> Probe {
    let mut probe = Probe::begin(true, ServiceScope::User, owner(Some(42)));
    probe.check_owner();
    probe.connected(&Ok(()));
    probe.peer(true, 1000, 42);
    assert_eq!(probe.step, ProbeStep::AskInfo, "{}", probe.error);
    let asked = probe.exchange();
    assert_eq!(asked.request, b"{\"method\":\"GetDaemonInfo\"}\n".to_vec());
    assert_eq!(asked.limit, 65_536);
    assert_eq!(
        probe.socket(&InstallationContext::Native, None, 1000).unwrap(),
        "/run/user/1000/lianli-daemon.sock"
    );
    probe.described(Ok(info()), &Ok(()), "graceful");
    assert_eq!(probe.step, ProbeStep::AskConfig, "{}", probe.error);
    let asked = probe.exchange();
    assert_eq!(asked.request, b"{\"method\":\"GetConfig\"}\n".to_vec());
    assert_eq!(asked.limit, 16 * 1024 * 1024);
    probe.configured(&Ok(()));
    assert_eq!(probe.step, ProbeStep::Probed, "{}", probe.error);
    probe
}

#[test]
fn observers_see_the_owner_and_its_daemon() {
    let known = || report(Some(ServiceProbe::Known { value: owner(Some(42)) }));
    let observe = |native, uid, report, probe| {
        authorized_service::observe(native, uid, ServiceScope::User, report, probe)
    };
    let seen = observe(true, 1000, known(), probed()).unwrap();
    assert_eq!(seen.info.instance_id, "one");
    assert_eq!(seen.owner.owner_pid, Some(42));
    for (native, uid) in [(false, 1000), (true, 0)] {
        assert_eq!(
            observe(native, uid, known(), probed()).err().unwrap(),
            "Observe native services under the caller's unprivileged account"
        );
    }
    assert_eq!(
        observe(true, 1000, report(None), probed()).err().unwrap(),
        "The hardware owner could not be verified"
    );
    let mut failed = Probe::begin(true, ServiceScope::User, owner(Some(42)));
    failed.failed("Service IPC verification timed out");
    assert_eq!(
        observe(true, 1000, known(), failed).err().unwrap(),
        "Service IPC verification timed out"
    );
}

#[test]
fn services_are_coordinated_with_authority() {
    let request =
        ServiceActionRequest { scope: ServiceScope::System, action: ServiceAction::Start };
    let execute = |root, program, unchanged, deployment| {
        authorized_service::execute(
            root,
            true,
            program,
            unchanged,
            request,
            &account(),
            &deployment,
            &Ok(true),
        )
    };
    assert!(execute(true, Some("lianli-control"), true, None).is_ok());
    assert_eq!(
        execute(false, Some("lianli-control"), true, None).unwrap_err(),
        "Service coordination requires its authorized native root process"
    );
    assert_eq!(
        execute(true, Some("other"), true, None).unwrap_err(),
        "Use the standalone coordinator for account service actions"
    );
    assert_eq!(
        execute(true, Some("lianli-control"), false, None).unwrap_err(),
        "The caller's account or groups changed after switch preflight"
    );
    let foreign = Deployment { owner_uid: 1001, ..deployment() };
    assert!(execute(true, Some("lianli-control"), true, Some((foreign, names()))).is_err());
}

#[test]
fn inspections_begin_with_the_credentials_of_their_account() {
    let begun = |gid| {
        inspect(ServiceScope::User, false, account(), 1000, gid, &vec![100, 200])
    };
    let inspection = begun(100).unwrap();
    assert_eq!(inspection.step, InspectionStep::VerifyRecipe);
    assert_eq!(inspection.working, "/home/fixture");
    assert!(begun(101).err().unwrap().starts_with("Destination helper does not have the intended"));
}

#[test]
fn plain_text_keeps_what_is_clean_and_joins_what_is_whole() {
    let clean = "line one\n\tline two";
    assert_eq!(plain_text(clean), clean);
    let first = "\u{1b}[1mred\u{1b}[0m ";
    let second = "and \u{7}more";
    assert_eq!(
        plain_text(&format!("{first}{second}")),
        format!("{}{}", plain_text(first), plain_text(second))
    );
    let open = "\u{1b}[3";
    assert_eq!(plain_text(&format!("{open}1mred")), "red");
    assert_eq!(format!("{}{}", plain_text(open), plain_text("1mred")), "1mred");
    let reading = Reading::begin(LogSource::UserDaemon).unwrap();
    assert!(reading.limit().is_none());
    let mut running = Reading::begin(LogSource::UserDaemon).unwrap();
    running.state(&lianli_control::command::Output {
        code: Some(0),
        status: String::new(),
        stdout: "0123456789abcdef0123456789abcdef\n".to_string(),
        stderr: String::new(),
    });
    assert_eq!(running.limit(), Some(1024 * 1024));
}
