use lianli_control::account::Account;
use lianli_control::account_publication::{settle, Action, Beginning, Ending};
use lianli_control::authorized_service::{Dispatch, DispatchStep, Inquiry, InquiryStep};
use lianli_control::command::{Output, Read, Run, RunStep};
use lianli_control::container_channel::{
    token, AttachStep, Attachment, Installed, Message as ChannelMessage,
};
use lianli_control::container_deployment::{unit_arguments, Deployment, Units, UnitsStep};
use lianli_control::container_destination::{
    identify, verify_config, ConfigNames, Execution, Identity, Launch, Route,
};
use lianli_control::container_setup::{
    install_user, reload_arguments, session_arguments, user_units_arguments, FileStep, FileWrite,
    Record, UserSetup, UserSetupStep, Write,
};
use lianli_control::daemon_probe::{check_reply, Probe, ProbeStep, Reply};
use lianli_control::destination::{DaemonBuildInfo, Destination, StateSummary};
use lianli_control::destination_inspection::{
    activation_arguments, check_daemon_build, check_daemon_file, environment_arguments,
    identity_arguments, override_arguments, recipe_arguments, verify_drop_in, Inspection,
    InspectionStep, Manager, ManagerStep, Placed, Recipe, RecipeStep, SystemDirectory,
    SystemDirectoryStep,
};
use lianli_control::diagnostic_logs::{state_arguments, LogSource, Reading, ReadingStep};
use lianli_control::distrobox_service;
use lianli_control::distrobox_service::{command_arguments, owner_arguments, Commands};
use lianli_control::files::{FileKind, Metadata};
use lianli_control::host_helper::{places, HelperPath, HelperStep};
use lianli_control::media_validation::AssetAccessReport;
use lianli_control::reservation::{
    hardware_path, operation_found, operation_path, operation_reserved, Held, Reservation,
};
use lianli_control::services::{
    DaemonInfo, DaemonMode, FileIdentity, OwnerProcess, OwnershipSnapshot, ServiceAction,
    ServiceActionRequest, ServiceProbe, ServiceScope,
};

const INVOCATION: &str = "0123456789abcdef0123456789abcdef";

fn identity(device: &str, inode: &str) -> FileIdentity {
    FileIdentity { device: device.to_string(), inode: inode.to_string() }
}

fn metadata(kind: FileKind, uid: u32, mode: u32) -> Metadata {
    Metadata {
        kind,
        uid,
        gid: uid,
        mode,
        dev: 1,
        ino: 2,
        len: 10,
        nlink: 1,
        mtime: 0,
        mtime_nsec: 0,
        ctime: 0,
        ctime_nsec: 0,
    }
}

fn output(code: i32, stdout: &str, stderr: &str) -> Output {
    Output {
        code: Some(code),
        status: format!("exit status: {code}"),
        stdout: stdout.to_string(),
        stderr: stderr.to_string(),
    }
}

fn fixture_account() -> Account {
    Account {
        uid: 1000,
        gid: 100,
        groups: vec![100, 200],
        name: "fixture".to_string(),
        home: "/home/fixture".to_string(),
        container: None,
    }
}

fn deployment() -> Deployment {
    Deployment {
        version: 1,
        owner_uid: 1000,
        owner_name: "fixture".to_string(),
        route: Route {
            launch: launch(),
            user_config: "/home/fixture/user/config.json".to_string(),
            system_config: "/home/fixture/system/config.json".to_string(),
            user_working_directory: "/home/fixture".to_string(),
            system_working_directory: "/home/fixture".to_string(),
        },
    }
}

fn launch() -> Launch {
    Launch {
        name: "fixture-box".to_string(),
        host_enter: "/usr/bin/distrobox-enter".to_string(),
        binaries: "/usr/bin".to_string(),
    }
}

fn names() -> ConfigNames {
    ConfigNames { user: Ok(()), system: Ok(()) }
}

#[test]
fn user_managers_are_identified_and_compared() {
    assert_eq!(activation_arguments().last().unwrap(), "Version");
    assert_eq!(identity_arguments()[7], "GetConnectionUnixProcessID");
    assert_eq!(environment_arguments().last().unwrap(), "Environment");
    let good = output(0, "", "");
    let answer = |pid: u32| Ok(("u".to_string(), vec![pid]));
    let mut manager = Manager::begin(fixture_account());
    manager.activated(&good);
    manager.identified(&good, &answer(42));
    assert_eq!(manager.pid, 42);
    manager.compared(&identity("1", "2"), &identity("1", "2"));
    let status = "Uid:\t1000 1000 1000 1000\nGid:\t100 100 100 100\nGroups:\t200\n";
    manager.status(status);
    assert_eq!(manager.step, ManagerStep::Verified, "{}", manager.error);
    let mut asleep = Manager::begin(fixture_account());
    asleep.activated(&output(1, "", " no bus\n"));
    assert_eq!(asleep.error, "The user service manager is unavailable: no bus");
    let identified = |output: &Output, answer: &Result<(String, Vec<u32>), String>| {
        let mut manager = Manager::begin(fixture_account());
        manager.activated(&good);
        manager.identified(output, answer);
        manager
    };
    assert_eq!(identified(&good, &answer(0)).error, "Invalid user manager process identity");
    assert_eq!(identified(&good, &Err("bad answer".to_string())).error, "bad answer");
    assert_eq!(
        identified(&output(1, "", "denied"), &answer(42)).error,
        "Cannot verify the user manager's namespace: denied"
    );
    let mut elsewhere = identified(&good, &answer(42));
    elsewhere.compared(&identity("1", "2"), &identity("1", "3"));
    assert!(elsewhere.error.starts_with("The user service uses another mount namespace."));
    let mut long = identified(&good, &answer(42));
    long.compared(&identity("1", "2"), &identity("1", "2"));
    long.status(&" ".repeat(65_537));
    assert_eq!(long.error, "User manager credentials exceed their read limit");
}

#[test]
fn recipes_are_the_supplied_unit_with_harmless_overrides() {
    assert_eq!(recipe_arguments(ServiceScope::User)[0], "--user");
    assert_eq!(
        override_arguments(ServiceScope::User)[5],
        "/org/freedesktop/systemd1/unit/lianli_2ddaemon_2eservice"
    );
    let shown = |extra: &str| {
        output(
            0,
            &format!(
                "LoadState=loaded\nNeedDaemonReload=no\nFragmentPath=/usr/lib/systemd/user/lianli-daemon.service\n{extra}"
            ),
            "",
        )
    };
    let unit = metadata(FileKind::File, 0, 0o644);
    let supplied = b"[Service]\n".to_vec();
    let begin = || Recipe::begin(ServiceScope::User, 1000, "/home/fixture".to_string());
    let mut plain = begin();
    plain.properties(&shown("DropInPaths=\nWorkingDirectory=!/home/fixture\n"));
    assert_eq!(plain.fragment, "/usr/lib/systemd/user/lianli-daemon.service");
    plain.unit(&unit, &supplied, &supplied);
    assert_eq!(plain.step, RecipeStep::Verified);
    let overridden = || {
        let mut recipe = begin();
        recipe.properties(&shown("DropInPaths=/a.conf /b.conf\n"));
        recipe.unit(&unit, &supplied, &supplied);
        assert_eq!(recipe.step, RecipeStep::ListOverrides);
        recipe
    };
    let mut two = overridden();
    two.listed(&output(0, "", ""), Ok(vec!["/a.conf".to_string(), "/b.conf".to_string()]));
    let own = metadata(FileKind::File, 1000, 0o600);
    two.drop_in(&own, &b"[Service]\nEnvironment=RUST_LOG=debug\n".to_vec());
    assert_eq!(two.checked, 1);
    two.drop_in(&unit, &b"# nothing\n".to_vec());
    two.overrides_checked();
    assert_eq!(two.step, RecipeStep::Verified);
    let mut many = overridden();
    many.listed(&output(0, "", ""), Ok(vec!["/a.conf".to_string(); 33]));
    assert_eq!(many.error, "Too many service overrides to inspect");
    let mut hidden = overridden();
    hidden.listed(&output(1, "", "denied"), Ok(vec![]));
    assert_eq!(hidden.error, "Cannot inspect service overrides: denied");
    let mut changed = begin();
    changed.properties(&shown(""));
    changed.unit(&unit, &b"other".to_vec(), &supplied);
    assert!(changed.error.starts_with("Install the current supplied native unit"));
    let mut unseen = begin();
    unseen.properties(&output(4, "", "no manager"));
    assert_eq!(unseen.error, "Cannot inspect destination unit: no manager");
    let drop_in = |m: &Metadata, bytes: &[u8]| {
        verify_drop_in(m, &bytes.to_vec(), "/a.conf", ServiceScope::User, 1000)
    };
    assert!(drop_in(&own, b"").is_ok());
    assert_eq!(
        drop_in(&metadata(FileKind::File, 1001, 0o600), b"").unwrap_err(),
        "Service override has unexpected ownership or write permissions: /a.conf"
    );
    assert_eq!(
        drop_in(&own, &vec![b' '; 16_385]).unwrap_err(),
        "Service override is too large: /a.conf"
    );
    assert_eq!(
        drop_in(&own, b"\xff").unwrap_err(),
        "invalid utf-8 sequence of 1 bytes from index 0"
    );
    assert_eq!(
        drop_in(&own, b"[Service]\nExecStart=/bin/sh\n").unwrap_err(),
        "Unsupported service override /a.conf: Override directive ExecStart affects the verified service recipe"
    );
}

fn build(version: &str) -> DaemonBuildInfo {
    DaemonBuildInfo {
        version: version.to_string(),
        protocol_version: 3,
        capabilities: vec!["gate".to_string()],
    }
}

fn needed() -> Vec<String> {
    vec!["gate".to_string()]
}

#[test]
fn installed_daemons_are_protected_and_of_this_version() {
    let program = metadata(FileKind::File, 0, 0o755);
    assert!(check_daemon_file(&Ok(program)).is_ok());
    assert_eq!(
        check_daemon_file(&Err("not found".to_string())).unwrap_err(),
        "Installed daemon is unavailable: not found"
    );
    assert!(check_daemon_file(&Ok(metadata(FileKind::File, 0, 0o644))).is_err());
    let check = |output: &Output, build: Result<DaemonBuildInfo, String>| {
        check_daemon_build(output, &build, "1.0", 3, &needed())
    };
    let good = output(0, "", "");
    assert!(check(&good, Ok(build("1.0"))).is_ok());
    assert_eq!(
        check(&output(1, "", "no libraries"), Ok(build("1.0"))).unwrap_err(),
        "Installed daemon cannot report its capabilities: no libraries. Update it and its runtime libraries before switching"
    );
    assert_eq!(
        check(&good, Err("bad text".to_string())).unwrap_err(),
        "Invalid installed daemon capability report: bad text"
    );
    assert!(check(&good, Ok(build("1.1"))).is_err());
}

fn verified_recipe(scope: ServiceScope) -> Recipe {
    let mut recipe = Recipe::begin(scope, 1000, "/home/fixture".to_string());
    let path = match scope {
        ServiceScope::User => "/usr/lib/systemd/user/lianli-daemon.service",
        ServiceScope::System => "/usr/lib/systemd/system/lianli-daemon-system.service",
    };
    recipe.properties(&output(
        0,
        &format!("LoadState=loaded\nNeedDaemonReload=no\nFragmentPath={path}\n"),
        "",
    ));
    recipe.unit(&metadata(FileKind::File, 0, 0o644), &vec![1], &vec![1]);
    assert_eq!(recipe.step, RecipeStep::Verified);
    recipe
}

fn probing(prepare: bool) -> Inspection {
    let account = fixture_account();
    let mut one = Inspection::begin(ServiceScope::User, prepare, account);
    one.account(1000, 100, &vec![100, 200]);
    one.recipe(&verified_recipe(ServiceScope::User));
    one.daemon_file(&Ok(metadata(FileKind::File, 0, 0o755)));
    one.daemon_build(&output(0, "", ""), &Ok(build("1.0")), "1.0", 3, &needed());
    one.environment(
        &output(0, "", ""),
        &Ok((
            "as".to_string(),
            vec!["HOME=/elsewhere".to_string(), "XDG_CONFIG_HOME=/cfg".to_string()],
        )),
    );
    assert_eq!(one.config, "/cfg/lianli/config.json");
    if prepare {
        assert_eq!(one.step, InspectionStep::PrepareDirectory);
        one.prepared();
    }
    one.opened(&Ok(metadata(FileKind::Directory, 1000, 0o700)));
    one.transaction(false);
    assert_eq!(one.step, InspectionStep::ProbeWrite, "{}", one.error);
    one
}

fn opened_inspection(prepare: bool) -> Inspection {
    let mut one = probing(prepare);
    one.probed(&Ok(()));
    assert_eq!(one.step, InspectionStep::ReadState);
    one
}

#[test]
fn destinations_are_inspected_before_they_are_reported() {
    let directory = metadata(FileKind::Directory, 1000, 0o700);
    let mut empty = opened_inspection(true);
    empty.state(None);
    empty.auxiliary(false, false, false);
    empty.confirm(&directory, identity("4", "5"));
    assert_eq!(empty.step, InspectionStep::Inspected);
    let report = empty.report.unwrap();
    assert_eq!(report.config_path, "/cfg/lianli/config.json");
    assert_eq!(report.working_directory, "/home/fixture");
    assert!(report.state_directory.unwrap().same(&identity("1", "2")));
    assert!(report.state.is_none());
    assert_eq!(report.assets.checked, 0);
    let summary = |issues: Vec<String>| StateSummary {
        generation: "g".to_string(),
        profiles: 1,
        issue_count: issues.len() as u64,
        issues,
    };
    let mut saved = opened_inspection(false);
    saved.state(Some(summary(vec![])));
    saved.checked(AssetAccessReport { uid: 1000, checked: 2, failed: 0, issues: vec![] });
    saved.confirm(&directory, identity("4", "5"));
    assert_eq!(saved.report.unwrap().assets.checked, 2);
    let mut broken = opened_inspection(false);
    broken.state(Some(summary(vec!["a".to_string(), "b".to_string()])));
    assert_eq!(broken.error, "Destination state has invalid settings: a\nb");
    let mut orphans = opened_inspection(false);
    orphans.state(None);
    orphans.auxiliary(false, true, false);
    assert!(orphans.error.starts_with("Destination has saved auxiliary state"));
    let mut replaced = opened_inspection(false);
    replaced.state(None);
    replaced.auxiliary(false, false, false);
    replaced.confirm(&Metadata { ino: 3, ..directory }, identity("4", "5"));
    assert_eq!(replaced.error, "Destination state directory changed during preflight");
    let system = Inspection::begin(ServiceScope::System, true, fixture_account());
    assert_eq!(system.config, "/var/lib/lianli/config.json");
    assert_eq!(system.working, "/");
    let mut other = Inspection::begin(ServiceScope::User, false, fixture_account());
    other.account(1000, 100, &vec![100]);
    assert!(other.error.starts_with("Destination helper does not have the intended UID"));
    let mut locked = probing(false);
    locked.probed(&Err("read-only".to_string()));
    assert_eq!(
        locked.error,
        "Destination account cannot write its configuration directory: read-only"
    );
}

#[test]
fn system_directories_take_their_place_when_they_are_ready() {
    let account = || Account { uid: 990, gid: 990, ..fixture_account() };
    let begin = || {
        let mut one = SystemDirectory::begin(account());
        one.authority(true, 990);
        one.parent(&metadata(FileKind::Directory, 0, 0o755));
        one
    };
    let own = metadata(FileKind::Directory, 990, 0o750);
    let mut there = begin();
    there.looked_up(false);
    there.owner(&own);
    assert_eq!(there.step, SystemDirectoryStep::Ready);
    let renaming = || {
        let mut one = begin();
        one.looked_up(true);
        one.made();
        one.assigned(&Ok(()));
        one.protected();
        one
    };
    let mut made = renaming();
    made.renamed(&Placed::Done);
    made.synced();
    made.owner(&own);
    assert_eq!(made.step, SystemDirectoryStep::Ready);
    let mut raced = renaming();
    raced.renamed(&Placed::Exists);
    raced.owner(&metadata(FileKind::Directory, 0, 0o755));
    assert!(raced.error.starts_with("Existing system state directory has the wrong owner"));
    let mut full = renaming();
    full.renamed(&Placed::Failed("no space".to_string()));
    assert_eq!(full.error, "Creating system state directory: no space");
    let mut kept = begin();
    kept.looked_up(true);
    kept.made();
    kept.assigned(&Err("denied".to_string()));
    assert_eq!(kept.error, "Cannot assign destination state directory: denied");
    let mut user = SystemDirectory::begin(account());
    user.authority(false, 990);
    assert_eq!(user.step, SystemDirectoryStep::Failed);
}

#[test]
fn installed_units_agree_with_their_deployment() {
    assert_eq!(unit_arguments(ServiceScope::System)[0], "--system");
    let etc = metadata(FileKind::Directory, 0, 0o755);
    let shown = |path: &str, user: &str| {
        output(
            0,
            &format!(
                "LoadState=loaded\nFragmentPath={path}\nDropInPaths=\nNeedDaemonReload=no\nUser={user}\nTransient=no\n"
            ),
            "",
        )
    };
    let path = "/etc/systemd/system/lianli-daemon-system.service";
    let begin = || {
        let mut units = Units::begin(deployment(), names(), true);
        units.host(true, &etc);
        units.valid();
        units
    };
    let text = deployment().unit(ServiceScope::System, &names()).unwrap();
    let mut system = begin();
    system.system_loaded(&shown(path, "1000"), path);
    system.system_file(&metadata(FileKind::File, 0, 0o644), &text);
    assert_eq!(system.step, UnitsStep::Inspected, "{}", system.error);
    let mut unseen = begin();
    unseen.system_loaded(&output(1, "", "gone"), path);
    assert_eq!(unseen.error, "Cannot inspect installed container wrapper: gone");
    let mut edited = begin();
    edited.system_loaded(&shown(path, "1000"), path);
    edited.system_file(&metadata(FileKind::File, 0, 0o644), "other");
    assert_eq!(
        edited.error,
        "The installed Distrobox wrapper differs from its deployment record"
    );
    let mut both = Units::begin(deployment(), names(), false);
    both.host(true, &etc);
    both.owner(&fixture_account());
    let user_path = "/home/fixture/.config/systemd/user/lianli-daemon.service";
    both.user_loaded(&shown(user_path, ""), user_path);
    let user_text = deployment().unit(ServiceScope::User, &names()).unwrap();
    both.user_file(&metadata(FileKind::File, 1000, 0o644), &user_text);
    assert_eq!(both.step, UnitsStep::LoadSystem, "{}", both.error);
}

fn box_report() -> Destination {
    Destination {
        scope: ServiceScope::User,
        uid: 1000,
        gid: 100,
        groups_fingerprint: "a".repeat(64),
        mount_namespace: identity("4", "5"),
        state_directory: Some(identity("1", "2")),
        config_path: "/home/fixture/user/config.json".to_string(),
        working_directory: "/home/fixture".to_string(),
        state: None,
        assets: AssetAccessReport { uid: 1000, checked: 0, failed: 0, issues: vec![] },
    }
}

#[test]
fn boxes_answer_for_the_destination_that_was_asked_for() {
    let account = fixture_account();
    let discover = |output: &Output, answer: Result<Destination, String>| {
        Execution::discovered(
            &account,
            launch(),
            ServiceScope::User,
            "/home/fixture/user/config.json",
            "/home/fixture",
            output,
            &answer,
            &Ok(()),
        )
    };
    let good = output(0, "", "");
    let found = discover(&good, Ok(box_report())).unwrap();
    assert_eq!(found.destination.name, "fixture-box");
    assert_eq!(
        discover(&output(1, "", "no box"), Ok(box_report())).unwrap_err(),
        "Container destination preflight failed: no box"
    );
    assert_eq!(
        discover(&good, Err("bad text".to_string())).unwrap_err(),
        "Invalid container destination response: bad text"
    );
    let recover = |output: &Output, answer: Result<Identity, String>| {
        Execution::recovered(
            &account,
            launch(),
            ServiceScope::User,
            "/home/fixture/user/config.json",
            "/home/fixture",
            output,
            answer,
            &Ok(()),
        )
    };
    assert!(recover(&good, Ok(found.destination.clone())).is_ok());
    assert_eq!(
        recover(&output(1, "", "no box"), Ok(found.destination.clone())).unwrap_err(),
        "Container recovery identity is unavailable: no box"
    );
    assert_eq!(recover(&good, Err("bad text".to_string())).unwrap_err(), "bad text");
    let directory = metadata(FileKind::Directory, 1000, 0o700);
    assert!(identify(&directory).same(&identity("1", "2")));
    let mut worker = found.destination.clone();
    worker.groups_fingerprint = account.group_fingerprint();
    let verify = |worker: Option<&Identity>, config: &str| {
        verify_config(worker, config, &Ok(()), &account, &directory, &identity("4", "5"))
    };
    assert!(verify(None, "/other.json").is_ok());
    assert!(verify(Some(&worker), "/home/fixture/user/config.json").is_ok());
    assert_eq!(
        verify(Some(&worker), "/other.json").unwrap_err(),
        "Container state operation targets another configuration"
    );
    assert!(verify(Some(&found.destination), "/home/fixture/user/config.json").is_err());
}

#[test]
fn user_units_are_installed_on_the_host() {
    assert_eq!(reload_arguments(ServiceScope::User), vec!["--user", "daemon-reload"]);
    assert_eq!(session_arguments(), vec!["--user", "enable", "lianli-session.service"]);
    assert_eq!(user_units_arguments("{}", "null")[4], "null");
    let account = fixture_account();
    let record = || Record { deployment: deployment(), names: names() };
    let begin = |previous| UserSetup::begin(deployment(), names(), previous, fixture_account());
    let composed = |previous| {
        let mut setup = begin(previous);
        setup.context(true);
        setup.compose();
        setup
    };
    let write = |setup: &UserSetup| {
        let unit = setup.unit.as_ref().unwrap();
        let mut write = FileWrite::begin(
            unit.path.clone(),
            account.uid,
            unit.contents.clone(),
            unit.previous.clone(),
        );
        write.located("/home/fixture");
        let directory = metadata(FileKind::Directory, 1000, 0o755);
        while write.step == FileStep::OpenDirectory {
            write.entered(&directory);
        }
        write.existing(None);
        write.written();
        write.synced();
        assert_eq!(write.step, FileStep::Written, "{}", write.error);
        write
    };
    let mut setup = composed(None);
    let unit = setup.unit.as_ref().unwrap();
    assert_eq!(unit.path, "/home/fixture/.config/systemd/user/lianli-daemon.service");
    assert_eq!(unit.contents, deployment().unit(ServiceScope::User, &names()).unwrap());
    assert_eq!(unit.previous.len(), 1);
    setup.unit_written(&write(&setup));
    setup.compose_session();
    assert!(setup.unit.as_ref().unwrap().path.ends_with("/lianli-session.service"));
    setup.session_written(&write(&setup));
    setup.reloaded(&output(0, "", ""));
    setup.enabled(&output(1, "", "masked"));
    assert_eq!(setup.error, "Desktop capture startup could not be enabled: masked");
    let mut stale = composed(Some(record()));
    assert_eq!(stale.unit.as_ref().unwrap().previous.len(), 2);
    stale.unit_written(&write(&stale));
    stale.compose_session();
    assert_eq!(stale.unit.as_ref().unwrap().previous.len(), 1);
    stale.session_written(&write(&stale));
    stale.reloaded(&output(1, "", "no bus"));
    assert_eq!(stale.error, "User unit reload failed: no bus");
    let mut custom = composed(None);
    let mut refused = write(&custom);
    refused.failed("A custom support file needs review before replacement");
    custom.unit_written(&refused);
    assert_eq!(custom.error, "A custom support file needs review before replacement");
    let mut boxed = begin(None);
    boxed.context(false);
    assert_eq!(boxed.step, UserSetupStep::Failed);
    assert_eq!(
        install_user(false, &deployment(), &names(), None, &account).err().unwrap(),
        "Install user wrappers on the host"
    );
}

#[test]
fn setup_files_are_backed_up_before_they_are_replaced() {
    let write = || {
        let mut write = FileWrite::begin(
            "/etc/systemd/system/unit".to_string(),
            0,
            "new".to_string(),
            vec!["old".to_string()],
        );
        write.located("/home/fixture");
        assert_eq!(write.descent, vec!["systemd", "system"]);
        let directory = metadata(FileKind::Directory, 0, 0o755);
        write.entered(&directory);
        write.entered(&directory);
        write.entered(&directory);
        assert_eq!(write.step, FileStep::ReadExisting);
        write
    };
    let safe = metadata(FileKind::File, 0, 0o644);
    let mut fresh = write();
    fresh.existing(None);
    assert_eq!(fresh.step, FileStep::WriteFile);
    fresh.written();
    fresh.synced();
    assert_eq!(fresh.step, FileStep::Written);
    let mut known = write();
    known.existing(Some((&safe, Ok("old"))));
    assert_eq!(known.decision, Write::BackUpAndReplace);
    assert_eq!(known.step, FileStep::BackUp);
    let copy = known.copy("0a1b2c");
    assert_eq!(copy.path, "/etc/systemd/system/.lianli-before-setup-0a1b2c");
    assert_eq!((copy.contents.as_str(), copy.mode), ("old", 0o600));
    known.backed_up(&copy);
    assert_eq!(known.step, FileStep::WriteFile);
    let replacement = known.replacement();
    assert_eq!(replacement.path, "/etc/systemd/system/unit");
    assert_eq!((replacement.contents.as_str(), replacement.mode), ("new", 0o644));
    let mut current = write();
    current.existing(Some((&safe, Ok("new"))));
    assert_eq!(current.step, FileStep::Written);
    let mut custom = write();
    custom.existing(Some((&safe, Ok("mine"))));
    assert_eq!(
        custom.error,
        "A custom support file needs review before replacement: /etc/systemd/system/unit"
    );
    let mut open = write();
    open.existing(Some((&metadata(FileKind::File, 0, 0o666), Err("not text".to_string()))));
    assert!(open.error.starts_with("Existing setup file has unsafe ownership"));
    let mut outside = FileWrite::begin("/usr/x".to_string(), 0, String::new(), vec![]);
    outside.located("/home/fixture");
    assert_eq!(outside.error, "Setup path left its expected directory: prefix not found");
    let mut root = FileWrite::begin("/".to_string(), 0, String::new(), vec![]);
    root.located("/home/fixture");
    assert_eq!(root.error, "Setup file has no directory");
}

#[test]
fn box_services_are_recognised_from_both_queries() {
    assert_eq!(
        command_arguments(ServiceScope::User, "ExecStartEx").last().unwrap(),
        "ExecStartEx"
    );
    assert_eq!(owner_arguments().last().unwrap(), "lianli-daemon-system.service");
    let none = || Commands { signature: "a(sasasttttuii)".to_string(), data: vec![] };
    let inspect = |code, answer: Result<Commands, String>| {
        distrobox_service::inspect(
            ServiceScope::User,
            (output(0, "", ""), Ok(none())),
            (output(code, "", "denied"), answer),
            &Ok(()),
        )
    };
    assert!(inspect(0, Ok(none())).unwrap().is_none());
    assert_eq!(
        inspect(1, Ok(none())).unwrap_err(),
        "Cannot inspect Distrobox service commands with host busctl: denied"
    );
    assert_eq!(inspect(0, Err("bad text".to_string())).unwrap_err(), "bad text");
}

#[test]
fn helpers_are_followed_to_where_they_lead() {
    assert_eq!(
        places("/usr/bin/lianli-control", "/").unwrap(),
        vec!["/usr/bin/lianli-control", "/usr/bin", "/usr", "/"]
    );
    assert_eq!(places("/usr/bin/x", "/usr/bin").unwrap(), vec!["/usr/bin/x", "/usr/bin"]);
    assert!(places("/opt/x", "/usr").is_none());
    let link = metadata(FileKind::Symlink, 0, 0o777);
    let directory = metadata(FileKind::Directory, 0, 0o755);
    let program = metadata(FileKind::File, 0, 0o755);
    let mut helper = HelperPath::begin("/usr/bin/lianli-control".to_string(), "/".to_string(), 0);
    helper.chain(&vec![link, directory, directory, directory]);
    helper.resolved("/opt/lianli-control".to_string(), "/".to_string());
    helper.resolved_chain(&vec![program, directory, directory]);
    helper.executable(&program);
    assert_eq!(helper.step, HelperStep::Verified, "{}", helper.error);
    let mut open = HelperPath::begin("/usr/bin/lianli-control".to_string(), "/".to_string(), 0);
    open.chain(&vec![link, metadata(FileKind::Directory, 0, 0o777), directory, directory]);
    assert_eq!(open.step, HelperStep::Failed);
}

#[test]
fn helpers_answer_while_the_operation_is_reserved() {
    let held = |inode: &str| Held {
        expected: identity("1", "2"),
        descriptor: Metadata { dev: 1, ino: 2, ..metadata(FileKind::File, 0, 0o666) },
        path: Ok(identity("1", inode)),
        host: None,
    };
    let asked = || {
        let mut inquiry = Inquiry::begin(identity("1", "2"));
        inquiry.reserved(&held("2"));
        assert_eq!(inquiry.step, InquiryStep::Run, "{}", inquiry.error);
        inquiry
    };
    let mut good = asked();
    good.ran(output(0, "{}", ""));
    good.answered(&held("2"), Ok(()));
    assert_eq!(good.step, InquiryStep::Answered);
    let answered = |code, inode: &str, read| {
        let mut inquiry = asked();
        inquiry.ran(output(code, "", "denied"));
        inquiry.answered(&held(inode), read);
        inquiry.error
    };
    assert_eq!(
        answered(1, "2", Ok(())),
        "Caller-account service inspection failed: denied"
    );
    assert_eq!(
        answered(1, "3", Ok(())),
        "Reserved hardware lock path was replaced. Refusing state publication"
    );
    assert_eq!(
        answered(0, "2", Err("bad text".to_string())),
        "Invalid caller-account service inspection: bad text"
    );
    let request = |scope| ServiceActionRequest { scope, action: ServiceAction::Start };
    let mut user = Dispatch::begin(request(ServiceScope::User), identity("1", "2"));
    user.reserved(&held("2"));
    user.user(&output(1, "", "no bus"));
    assert_eq!(user.error, "User service request failed: no bus");
    let requested = || {
        let mut system = Dispatch::begin(request(ServiceScope::System), identity("1", "2"));
        system.reserved(&held("2"));
        system.system(Ok(()));
        system
    };
    let mut system = requested();
    system.confirmed(&held("2"));
    assert_eq!(system.step, DispatchStep::Dispatched);
    let mut lost = requested();
    lost.confirmed(&held("3"));
    assert_eq!(lost.step, DispatchStep::Failed);
}

#[test]
fn publications_begin_and_end_by_their_action() {
    let config = || "/c.json".to_string();
    let restore = Action::Restore { config: config(), backup: "b".to_string() };
    let resume = Action::ResumeRestore {
        config: config(),
        backup: "b".to_string(),
        undo: "u".to_string(),
    };
    let recover = Action::Recover { config: config() };
    assert_eq!(restore.beginning(), Beginning::Restoration);
    assert_eq!(restore.ending(), Ending::Publish);
    assert_eq!(resume.beginning(), Beginning::Resumption);
    assert_eq!(resume.ending(), Ending::ResumePublication);
    assert_eq!(recover.beginning(), Beginning::Nothing);
    assert_eq!(recover.ending(), Ending::Recover);
    let done = || Ok(Some("backup".to_string()));
    assert_eq!(settle(done(), Ok(()), Ok(())), done());
    assert_eq!(settle(done(), Ok(()), Err("lost".to_string())).unwrap_err(), "lost");
    assert_eq!(
        settle(Err("x".to_string()), Err("released".to_string()), Ok(())).unwrap_err(),
        "released"
    );
}

#[test]
fn workers_attach_with_all_descriptors_in_place() {
    assert_eq!(token(&vec![0, 255, 16]), "00ff10");
    let begun = |packet| {
        let mut one = Attachment::begin(packet);
        one.account(1000);
        one.restricted(&Ok(()));
        one.directory("/run/user/1000/x", &metadata(FileKind::Directory, 1000, 0o700), 1000);
        one.token(Ok(()));
        one.connected(&Ok(()));
        one.peer(true, 1000, 7, 1000);
        one.greeted();
        one.channel(&ChannelMessage::Channel, true);
        one
    };
    let mut packets = begun(true);
    assert_eq!(packets.step, AttachStep::CheckPackets);
    packets.packets();
    packets.stdout(&ChannelMessage::Stdout, true);
    packets.stderr(&ChannelMessage::Stderr, true);
    packets.input_installed(&Installed::Done);
    packets.stdout_installed(&Installed::Done);
    packets.stderr_installed(&Installed::NotInstalled("bad".to_string()));
    assert_eq!(packets.error, "Installing the container transfer descriptor: bad");
    let mut plain = begun(false);
    assert_eq!(plain.step, AttachStep::AwaitStdout);
    plain.stdout(&ChannelMessage::Stdout, true);
    plain.stderr(&ChannelMessage::Stderr, true);
    plain.input_installed(&Installed::Done);
    plain.stdout_installed(&Installed::Done);
    plain.stderr_installed(&Installed::Done);
    plain.answered();
    assert_eq!(plain.step, AttachStep::Attached);
    let mut refused = Attachment::begin(false);
    refused.account(1000);
    refused.restricted(&Err("denied".to_string()));
    assert_eq!(refused.error, "Cannot restrict container worker privileges: denied");
}

fn ran(stdout: &[u8], stderr: &[u8]) -> Run {
    let mut run = Run::begin(1_000, 64).unwrap();
    let mut out = vec![Read::Bytes(stdout.to_vec()), Read::End];
    let mut err = vec![Read::Bytes(stderr.to_vec()), Read::End];
    while run.step != RunStep::Complete {
        match run.step {
            RunStep::CheckTime => run.tick(false, 0),
            RunStep::ReadOutput => {
                let next = out.remove(0);
                run.read_output(next)
            }
            RunStep::ReadErrors => {
                let next = err.remove(0);
                run.read_errors(next)
            }
            RunStep::CheckExit => run.exited(true),
            RunStep::Finish => run.finished(Some(3)),
            RunStep::Wait => run.waited(),
            _ => panic!("{}", run.error),
        }
    }
    run
}

#[test]
fn output_is_text_and_errors_are_read_as_far_as_they_are() {
    let good = ran("héllo".as_bytes(), b"bad \xff byte").output("exit".to_string()).unwrap();
    assert_eq!(good.stdout, "héllo");
    assert_eq!(good.stderr, "bad \u{fffd} byte");
    assert_eq!(good.code, Some(3));
    assert_eq!(
        ran(b"\xff", b"").output(String::new()).unwrap_err(),
        "Invalid diagnostic output encoding: invalid utf-8 sequence of 1 bytes from index 0"
    );
}

#[test]
fn messages_are_read_for_one_invocation() {
    assert_eq!(state_arguments("--user", "u")[2], "--property=InvocationID");
    assert!(Reading::begin(LogSource::SavedDaemonLog).is_err());
    let begin = || Reading::begin(LogSource::UserDaemon).unwrap();
    let mut running = begin();
    running.state(&output(0, &format!("{INVOCATION}\n"), ""));
    assert_eq!(running.step, ReadingStep::ReadMessages);
    running.journal(&output(0, "{\"MESSAGE\":\"one\"}\n{\"MESSAGE\":\"two\"}\n", ""));
    assert_eq!(running.messages, vec!["one", "two"]);
    let mut stopped = begin();
    stopped.state(&output(0, "\n", ""));
    assert_eq!(stopped.step, ReadingStep::ReadRecent);
    stopped.recent(&output(0, &format!("{{\"_SYSTEMD_INVOCATION_ID\":\"{INVOCATION}\"}}\n"), ""));
    assert_eq!(stopped.invocation, INVOCATION);
    stopped.journal(&output(1, "", "no journal"));
    assert_eq!(stopped.error, "Journal query unavailable: no journal");
    let mut hidden = begin();
    hidden.state(&output(0, "", ""));
    hidden.recent(&output(1, "", "denied"));
    assert_eq!(hidden.error, "Cannot inspect latest daemon logs: denied");
    let mut empty = begin();
    empty.state(&output(0, "", ""));
    empty.recent(&output(0, "", ""));
    assert!(empty
        .error
        .starts_with("No previous daemon invocation was found in the readable journal: EOF"));
    let mut broken = begin();
    broken.state(&output(0, INVOCATION, ""));
    broken.journal(&output(0, "{\"MESSAGE\":\"one\"}\nbroken\n", ""));
    assert!(broken.error.starts_with("expected value"), "{}", broken.error);
}

fn owner() -> OwnershipSnapshot {
    OwnershipSnapshot {
        identity: identity("1", "2"),
        owner_pid: Some(42),
        process: Some(ServiceProbe::Known {
            value: OwnerProcess {
                pid: 42,
                effective_uid: 1000,
                start_time_ticks: "1".to_string(),
                control_group: "/g".to_string(),
                service: Some(ServiceScope::User),
            },
        }),
    }
}

#[test]
fn daemons_are_asked_over_the_owners_connection() {
    assert!(check_reply(&Ok(Reply::Data)).is_ok());
    assert_eq!(
        check_reply(&Ok(Reply::Error { message: "busy".to_string() })).unwrap_err(),
        "Service IPC: busy"
    );
    let asked = |native| {
        let mut probe = Probe::begin(native, ServiceScope::User, owner());
        probe.check_owner();
        probe.connected(&Ok(()));
        probe
    };
    let mut other = asked(true);
    other.peer(true, 1000, 43);
    assert_eq!(other.error, "Service IPC belongs to another process");
    let mut unknown = asked(true);
    unknown.peer(false, 0, 0);
    assert_eq!(unknown.error, "Cannot verify service IPC peer");
    let mut boxed = asked(false);
    boxed.peer(true, 1000, 0);
    assert_eq!(boxed.step, ProbeStep::CheckContainerPeer);
    let mut unverified = Probe::begin(
        true,
        ServiceScope::User,
        OwnershipSnapshot { process: None, ..owner() },
    );
    unverified.check_owner();
    assert_eq!(unverified.error, "Hardware owner process is unverified");
    let info = DaemonInfo {
        version: "1.0".to_string(),
        protocol_version: 3,
        service_invocation: None,
        pid: 42,
        mode: DaemonMode::User,
        config_path: "/c.json".to_string(),
        instance_id: "i".to_string(),
        capabilities: vec!["graceful".to_string()],
        ownership_lock: Some(identity("1", "2")),
        service_operation_lock: None,
    };
    let described = |info: DaemonInfo| {
        let mut probe = asked(true);
        probe.peer(true, 1000, 42);
        probe.described(Ok(info), &Ok(()), "graceful");
        probe
    };
    let mut good = described(info.clone());
    good.configured(&Ok(()));
    assert_eq!(good.step, ProbeStep::Probed);
    let mut silent = described(info.clone());
    silent.configured(&Err("bad text".to_string()));
    assert_eq!(
        silent.error,
        "The service did not return its loaded configuration: bad text"
    );
    let moved = described(DaemonInfo { ownership_lock: None, ..info });
    assert_eq!(moved.error, "Service IPC reports another hardware lock");
}

#[test]
fn locks_are_named_before_they_are_reserved() {
    assert_eq!(hardware_path(None).unwrap_err(), "Shared host lock is unavailable");
    assert_eq!(
        operation_path(None).unwrap_err(),
        "Host service operation lock is unavailable"
    );
    assert!(operation_found(&Err("missing".to_string()))
        .unwrap_err()
        .ends_with("before using service controls: missing"));
    let mut reservation = Reservation::begin(&identity("1", "2"), false, true);
    reservation.failed("busy");
    assert_eq!(
        operation_reserved(&reservation).unwrap_err(),
        "Cannot serialize service actions. Another operation or settings write may be running: busy"
    );
}
