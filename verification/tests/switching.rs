use lianli_control::account::Account;
use lianli_control::automatic_recovery;
use lianli_control::automatic_recovery::Pending;
use lianli_control::saved_state::Checked;
use lianli_control::services::{
    DaemonInfo, DaemonMode, FileIdentity, InstallationContext, OwnerProcess, OwnershipSnapshot,
    Policy, ServiceProbe, ServiceReport, ServiceScope, ServiceSelection, Startup, UnitState,
};
use lianli_control::switch_recovery::{caller_uid, recover, Record, Recovery, Step as Recover};
use lianli_control::switch_rollback;
use lianli_control::switch_rollback::{Rollback, Step as Back};
use lianli_control::switch_run::{
    announce, decodes, execute, phase_to_record, Intent, Phase, Step, Switch,
};
use lianli_control::switch_wait::{stop_wait, Start, StartStep, Stop, StopStep, Stopping};

const GATE: &str = "service-write-gate";
const ID: &str = "0123456789abcdef0123456789abcdef";

fn identity(device: &str, inode: &str) -> FileIdentity {
    FileIdentity { device: device.to_string(), inode: inode.to_string() }
}

fn unit_state(scope: ServiceScope, active: bool) -> UnitState {
    UnitState {
        name: scope.unit().to_string(),
        load_state: "loaded".to_string(),
        active_state: if active { "active" } else { "inactive" }.to_string(),
        sub_state: if active { "running" } else { "dead" }.to_string(),
        unit_file_state: if active { "enabled" } else { "disabled" }.to_string(),
        main_pid: if active { 123 } else { 0 },
        fragment_path: "fixture".to_string(),
        control_group: None,
        kill_mode: None,
        send_sigkill: None,
        graceful_shutdown: None,
        invocation_id: None,
        distrobox_name: None,
    }
}

fn report(active: Option<ServiceScope>) -> ServiceReport {
    ServiceReport {
        context: InstallationContext::Native,
        user: ServiceProbe::Known {
            value: unit_state(ServiceScope::User, active == Some(ServiceScope::User)),
        },
        system: ServiceProbe::Known {
            value: unit_state(ServiceScope::System, active == Some(ServiceScope::System)),
        },
        ownership: Some(ServiceProbe::Known {
            value: OwnershipSnapshot {
                identity: identity("1", "2"),
                owner_pid: active.map(|_| 123),
                process: active.map(|scope| ServiceProbe::Known {
                    value: OwnerProcess {
                        pid: 123,
                        effective_uid: if scope == ServiceScope::User { 1000 } else { 900 },
                        start_time_ticks: "7".to_string(),
                        control_group: "/fixture".to_string(),
                        service: Some(scope),
                    },
                }),
            },
        }),
    }
}

fn policy() -> Policy {
    Policy { user: Startup::Enabled, system: Startup::Disabled }
}

fn daemon(config: &str) -> DaemonInfo {
    DaemonInfo {
        version: "1.0".to_string(),
        protocol_version: 1,
        instance_id: "new instance".to_string(),
        pid: 123,
        mode: DaemonMode::User,
        config_path: config.to_string(),
        capabilities: vec![GATE.to_string()],
        ownership_lock: None,
        service_invocation: None,
        service_operation_lock: None,
    }
}

fn checked(name: &str) -> Checked {
    Checked { state: Some(name.to_string()), assets: "a".to_string() }
}

fn account(uid: u32, name: &str) -> Account {
    Account {
        uid,
        gid: uid,
        groups: vec![uid],
        name: name.to_string(),
        home: format!("/home/{name}"),
        container: None,
    }
}

fn caller() -> Account {
    account(1000, "fixture")
}

fn system() -> Account {
    account(900, "lianli")
}

struct Driven {
    switch: Switch,
    taken: Vec<Step>,
}

fn drive(carry: bool, fail_at: Option<Step>, restored: bool, eligible: bool) -> Driven {
    let mut switch = execute(true, ServiceScope::System, carry, caller(), system()).unwrap();
    let mut taken = Vec::new();
    loop {
        let step = switch.step;
        taken.push(step);
        assert!(taken.len() < 100);
        match step {
            Step::Switched | Step::Restored | Step::Pending | Step::Refused => {
                return Driven { switch, taken };
            }
            _ => {}
        }
        if fail_at == Some(step) && step != Step::StartDestination {
            switch.failed("the step failed".to_string());
            continue;
        }
        match step {
            Step::LoadJournal => switch.journal(false),
            Step::ReadRuntime => switch.runtime(Some(identity("5", "6"))),
            Step::Inspect => switch.inspected(&report(Some(ServiceScope::User)), Ok(policy())),
            Step::ReadSelection => switch.selection(None),
            Step::PreflightSource => {
                switch.source("/source.json".to_string(), "/source".to_string(), true)
            }
            Step::PreflightDestination => {
                switch.target("/destination.json".to_string(), "/destination".to_string(), 0)
            }
            Step::InspectSource => switch.source_report(&report(Some(ServiceScope::User))),
            Step::ProbeSource => switch.source_daemon(&daemon("/source.json"), GATE),
            Step::CheckSource => switch.checked(checked("source")),
            Step::CheckDestination => switch.checked(checked("destination")),
            Step::DrawIdentifier => switch.identify(ID.to_string()),
            Step::RecheckSource | Step::ConfirmSource => switch.rechecked(&checked("source")),
            Step::RecheckDestination | Step::ConfirmDestination => {
                switch.rechecked(&checked("destination"))
            }
            Step::InspectAgain => {
                switch.reinspected(&report(Some(ServiceScope::User)), Ok(policy()))
            }
            Step::RereadRuntime => switch.runtime_again(&Some(identity("5", "6"))),
            Step::RereadAccounts => switch.accounts(&caller(), &system()),
            Step::CheckSourceLaunch => switch.launch("/source.json", "/source"),
            Step::CheckDestinationLaunch | Step::ConfirmLaunch => {
                switch.launch("/destination.json", "/destination")
            }
            Step::InspectIdle => switch.stopped(&report(None)),
            Step::StartDestination => {
                let selection = ServiceSelection { scope: ServiceScope::System, uid: 900 };
                let mut start = Start::begin(selection, "/destination.json", 0);
                if fail_at == Some(step) {
                    start.failed("the step failed".to_string());
                } else {
                    start = finished(start, "/destination.json");
                }
                switch.started(&start)
            }
            Step::RollBack => {
                let mut rollback = switch.rollback(Phase::StartingDestination);
                if restored {
                    rollback = undone(rollback, true).0;
                    assert_eq!(rollback.step, Back::Finished, "{}", rollback.error);
                } else {
                    rollback.failed("the source did not return".to_string());
                }
                switch.rolled_back(&rollback)
            }
            Step::RecordBothFailures => switch.both_recorded(eligible),
            Step::ResumeSystem => switch.system_resumed(),
            _ => switch.done(),
        }
    }
}

fn place(taken: &[Step], step: Step) -> usize {
    taken.iter().position(|one| *one == step).unwrap()
}

#[test]
fn a_switch_stops_reserves_publishes_and_starts_in_order() {
    let done = drive(true, None, true, false);
    assert_eq!(done.switch.step, Step::Switched);
    let taken = &done.taken;
    assert!(place(taken, Step::CreateJournal) < place(taken, Step::StopSource));
    assert!(place(taken, Step::StopSource) < place(taken, Step::ReserveHardware));
    assert!(place(taken, Step::ReserveHardware) < place(taken, Step::PublishTransfer));
    assert!(place(taken, Step::PublishTransfer) < place(taken, Step::ReleaseHardware));
    assert!(place(taken, Step::ReleaseHardware) < place(taken, Step::StartDestination));
    assert!(done.switch.result().unwrap().is_ok());
    assert_eq!(done.switch.instance, "new instance");
    let plain = drive(false, None, true, false);
    assert_eq!(plain.switch.step, Step::Switched);
    assert!(!plain.taken.contains(&Step::PublishTransfer));
}

#[test]
fn early_failures_are_refused_and_later_ones_rolled_back() {
    for step in [Step::LoadJournal, Step::Inspect, Step::CheckSource] {
        let refused = drive(true, Some(step), true, false);
        assert_eq!(refused.switch.step, Step::Refused);
        assert!(!refused.taken.contains(&Step::StopSource));
        assert!(refused.switch.result().unwrap().is_err());
    }
    let restored = drive(true, Some(Step::StartDestination), true, false);
    assert_eq!(restored.switch.step, Step::Restored);
    assert!(restored.taken.contains(&Step::RollBack));
    assert!(restored.switch.result().unwrap().unwrap_err().contains("the step failed"));
    let pending = drive(true, Some(Step::StartDestination), false, false);
    assert_eq!(pending.switch.step, Step::Pending);
    assert!(!pending.taken.contains(&Step::ResumeSystem));
    let resumed = drive(true, Some(Step::StartDestination), false, true);
    assert_eq!(resumed.switch.step, Step::Pending);
    assert!(resumed.taken.contains(&Step::ResumeSystem));
}

#[test]
fn switches_begin_on_the_host_and_never_over_a_pending_one() {
    assert!(execute(false, ServiceScope::System, true, caller(), system()).is_err());
    let mut switch = execute(true, ServiceScope::System, true, caller(), system()).unwrap();
    switch.journal(true);
    assert_eq!(switch.step, Step::Refused);
    assert!(announce(Step::AnnounceStop).is_some());
    assert!(announce(Step::StopSource).is_none());
    assert_eq!(phase_to_record(Step::RecordStopping), Some(Phase::StoppingSource));
    assert_eq!(phase_to_record(Step::StopSource), None);
}

#[test]
fn changed_settings_stop_a_switch_before_anything_is_published() {
    let mut switch = execute(true, ServiceScope::System, true, caller(), system()).unwrap();
    while switch.step != Step::ConfirmSource {
        match switch.step {
            Step::LoadJournal => switch.journal(false),
            Step::ReadRuntime => switch.runtime(Some(identity("5", "6"))),
            Step::Inspect => switch.inspected(&report(Some(ServiceScope::User)), Ok(policy())),
            Step::ReadSelection => switch.selection(None),
            Step::PreflightSource => {
                switch.source("/source.json".to_string(), "/source".to_string(), true)
            }
            Step::PreflightDestination => {
                switch.target("/destination.json".to_string(), "/destination".to_string(), 0)
            }
            Step::InspectSource => switch.source_report(&report(Some(ServiceScope::User))),
            Step::ProbeSource => switch.source_daemon(&daemon("/source.json"), GATE),
            Step::CheckSource => switch.checked(checked("source")),
            Step::CheckDestination => switch.checked(checked("destination")),
            Step::DrawIdentifier => switch.identify(ID.to_string()),
            Step::CreateJournal => {
                let intent = switch.intent();
                assert_eq!(intent.id, ID);
                assert_eq!(intent.source.uid, 1000);
                assert_eq!(intent.destination.uid, 900);
                assert!(intent.source_was_running);
                switch.done();
            }
            Step::RecheckSource => switch.rechecked(&checked("source")),
            Step::RecheckDestination => switch.rechecked(&checked("destination")),
            Step::InspectAgain => {
                switch.reinspected(&report(Some(ServiceScope::User)), Ok(policy()))
            }
            Step::RereadRuntime => switch.runtime_again(&Some(identity("5", "6"))),
            Step::RereadAccounts => switch.accounts(&caller(), &system()),
            Step::CheckSourceLaunch => switch.launch("/source.json", "/source"),
            Step::CheckDestinationLaunch => switch.launch("/destination.json", "/destination"),
            Step::InspectIdle => switch.stopped(&report(None)),
            Step::Refused => panic!("{}", switch.error),
            _ => switch.done(),
        }
    }
    switch.rechecked(&checked("changed"));
    assert_eq!(switch.step, Step::RecordFailure);
    assert!(!switch.error.is_empty());
}

fn stopped(mut stop: Stop, scope: ServiceScope) -> Stop {
    let mut acted = 0;
    while stop.step != StopStep::Stopped && stop.step != StopStep::Failed {
        match stop.step {
            StopStep::Inspect => stop.inspected(&report(Some(scope))),
            StopStep::InspectRunning => stop.verified(&report(Some(scope))),
            StopStep::ProbeRunning => stop.probed(&daemon("/source.json"), GATE),
            StopStep::Act => {
                assert!(stop.announced(Err("progress cannot be stored".to_string())).is_ok());
                acted += 1;
                stop.done();
            }
            _ => panic!("a running service is stopped at once"),
        }
    }
    assert_eq!(acted, 1);
    stop
}

fn restored(selection: ServiceSelection) -> Start {
    finished(Start::restore(selection, "/source.json", 0), "/source.json")
}

fn finished(mut start: Start, config: &str) -> Start {
    let scope = start.selection.scope;
    while start.step != StartStep::Started && start.step != StartStep::Failed {
        match start.step {
            StartStep::Inspect => start.inspected(&report(None)),
            StartStep::InspectStarted => start.verified(&report(Some(scope))),
            StartStep::ProbeStarted => start.probed(&daemon(config), GATE),
            StartStep::Act => {
                let told = start.announced(Err("progress cannot be stored".to_string()));
                assert_eq!(told.is_ok(), start.restoring);
                start.done();
            }
            _ => start.done(),
        }
    }
    assert_eq!(start.step, StartStep::Started, "{}", start.error);
    start
}

fn rolled_back(phase: Phase) -> (Rollback, Vec<Back>) {
    rolled_back_with(phase, true)
}

fn rolled_back_with(phase: Phase, announced: bool) -> (Rollback, Vec<Back>) {
    let source = ServiceSelection { scope: ServiceScope::User, uid: 1000 };
    let destination = ServiceSelection { scope: ServiceScope::System, uid: 900 };
    let rollback = Rollback::begin(
        phase,
        source,
        destination,
        "/source.json".to_string(),
        Some("/source".to_string()),
        true,
        None,
        identity("1", "2"),
    );
    undone(rollback, announced)
}

fn undone(mut rollback: Rollback, announced: bool) -> (Rollback, Vec<Back>) {
    let source = rollback.source;
    let mut taken = Vec::new();
    while rollback.step != Back::Finished && rollback.step != Back::Failed {
        let step = rollback.step;
        taken.push(step);
        assert!(taken.len() < 100);
        match step {
            Back::Announce if !announced => {
                rollback.failed("progress cannot be stored".to_string())
            }
            Back::StopSystem => {
                let stop = Stop::recovered_system(1000, "/source.json", 0);
                rollback.stopped(&stopped(stop, ServiceScope::System))
            }
            Back::StopDestination => {
                let stop = Stop::destination(ServiceScope::System, 0);
                rollback.stopped(&stopped(stop, ServiceScope::System))
            }
            Back::StartEarly | Back::StartSource => rollback.started(&restored(source)),
            Back::InspectRecovered => {
                rollback.recovered_report(&report(Some(ServiceScope::System)), Ok(policy()))
            }
            Back::CheckSystemLaunch | Back::CheckEarlyLaunch | Back::CheckUnselectedLaunch => {
                rollback.launch("/source.json", "/source")
            }
            Back::InspectSystemIdle
            | Back::InspectStopped
            | Back::InspectRestoring
            | Back::InspectUnselected
            | Back::InspectUnstarted
            | Back::InspectUnverified => rollback.idle_report(&report(None)),
            Back::ReadRuntime => rollback.runtime(None, true),
            Back::InspectDestination => {
                rollback.destination_report(&report(Some(ServiceScope::System)))
            }
            Back::InspectStartup => rollback.startup_report(&report(None)),
            Back::CompareEarlyPolicy | Back::ComparePolicy => {
                rollback.policy(Ok(policy()), Ok(policy()))
            }
            Back::CompareEarlySelection | Back::CompareSelection => rollback.selection(None),
            Back::CompareRuntime | Back::CompareRuntimeAgain => rollback.same_runtime(&None),
            Back::InspectSource => rollback.source_report(&report(Some(ServiceScope::User))),
            Back::ProbeSource => rollback.source_daemon(&daemon("/source.json"), GATE),
            Back::RestoreStopped | Back::RestoreRestoring => {
                rollback.journaled(Phase::RestoringStartup)
            }
            _ => match switch_rollback::phase_to_record(step) {
                Some(next) => {
                    rollback.recorded();
                    assert_eq!(rollback.phase, next);
                }
                None => rollback.done(),
            },
        }
    }
    (rollback, taken)
}

#[test]
fn rollbacks_restore_settings_under_the_reservation_and_then_start_the_source() {
    let (rollback, taken) = rolled_back(Phase::StartingDestination);
    assert_eq!(rollback.step, Back::Finished, "{}", rollback.error);
    let at = |step: Back| taken.iter().position(|one| *one == step).unwrap();
    assert!(at(Back::PauseLaunches) < at(Back::StopDestination));
    assert!(at(Back::StopDestination) < at(Back::ReserveStopped));
    assert!(at(Back::ReserveStopped) < at(Back::RestoreStopped));
    assert!(at(Back::RestoreStopped) < at(Back::StartSource));
    assert_eq!(*taken.last().unwrap(), Back::RecordRolledBack);
    let told: Vec<&str> =
        taken.iter().filter_map(|step| switch_rollback::announce(*step)).collect();
    assert_eq!(told, vec!["Restoring the previous service mode…"]);
}

#[test]
fn rollbacks_before_the_stop_only_discard_the_transfer() {
    let (rollback, taken) = rolled_back(Phase::Preparing);
    assert_eq!(rollback.step, Back::Finished, "{}", rollback.error);
    assert!(taken.contains(&Back::DiscardTransfer));
    assert!(!taken.contains(&Back::StopDestination));
    assert!(!taken.contains(&Back::StartSource));
}

#[test]
fn announcements_that_fail_do_not_end_a_rollback() {
    for phase in [Phase::StartingDestination, Phase::RestoringStartup, Phase::Preparing] {
        let (told, steps) = rolled_back_with(phase, true);
        let (untold, same) = rolled_back_with(phase, false);
        assert_eq!(told.step, Back::Finished, "{}", told.error);
        assert_eq!(untold.step, Back::Finished, "{}", untold.error);
        assert_eq!(told.phase, untold.phase);
        assert_eq!(steps, same);
    }
    let mut failing = Rollback::begin(
        Phase::StartingDestination,
        ServiceSelection { scope: ServiceScope::User, uid: 1000 },
        ServiceSelection { scope: ServiceScope::System, uid: 900 },
        "/source.json".to_string(),
        Some("/source".to_string()),
        true,
        None,
        identity("1", "2"),
    );
    failing.runtime(None, true);
    failing.failed("the journal cannot be written".to_string());
    assert_eq!(failing.step, Back::Failed);
    let plain = Start::begin(
        ServiceSelection { scope: ServiceScope::User, uid: 1000 },
        "/source.json",
        0,
    );
    assert!(!plain.restoring);
}

#[test]
fn stops_wait_for_a_service_that_changes_state() {
    let mut changing = report(Some(ServiceScope::System));
    let mut state = unit_state(ServiceScope::System, true);
    state.active_state = "deactivating".to_string();
    state.sub_state = "stop-sigterm".to_string();
    changing.system = ServiceProbe::Known { value: state };
    let mut stop = Stop::destination(ServiceScope::System, 500);
    assert_eq!(stop.deadline, 90_500);
    stop.inspected(&changing);
    assert_eq!(stop.step, StopStep::ReadClock);
    stop.clock(90_499);
    assert_eq!(stop.step, StopStep::Pause);
    stop.done();
    assert_eq!(stop.step, StopStep::Inspect);
    stop.inspected(&report(None));
    assert_eq!(stop.step, StopStep::Stopped);
    let mut late = Stop::recovered_system(1000, "/source.json", 0);
    late.inspected(&changing);
    late.clock(90_000);
    assert_eq!(late.step, StopStep::Failed);
    assert_eq!(
        late.error,
        "The recovered system source is still changing state. It will not be forced to stop"
    );
    let mut late = Stop::destination(ServiceScope::System, 0);
    late.inspected(&changing);
    late.clock(90_000);
    assert_eq!(
        late.error,
        "Destination shutdown or startup is still in progress. Recovery remains pending without a forced stop"
    );
    let mut other = Stop::recovered_system(900, "/source.json", 0);
    other.inspected(&report(Some(ServiceScope::System)));
    assert_eq!(other.step, StopStep::InspectRunning);
    other.verified(&report(Some(ServiceScope::System)));
    assert_eq!(other.step, StopStep::ProbeRunning, "{}", other.error);
    other.probed(&daemon("/other.json"), GATE);
    assert_eq!(other.step, StopStep::Failed);
}

#[test]
fn changed_accounts_stop_a_switch() {
    let mut switch = execute(true, ServiceScope::System, false, caller(), system()).unwrap();
    while switch.step != Step::RereadAccounts {
        match switch.step {
            Step::LoadJournal => switch.journal(false),
            Step::ReadRuntime => switch.runtime(Some(identity("5", "6"))),
            Step::Inspect => switch.inspected(&report(Some(ServiceScope::User)), Ok(policy())),
            Step::ReadSelection => switch.selection(None),
            Step::PreflightSource => {
                switch.source("/source.json".to_string(), "/source".to_string(), true)
            }
            Step::PreflightDestination => {
                switch.target("/destination.json".to_string(), "/destination".to_string(), 0)
            }
            Step::InspectSource => switch.source_report(&report(Some(ServiceScope::User))),
            Step::ProbeSource => switch.source_daemon(&daemon("/source.json"), GATE),
            Step::CheckSource => switch.checked(checked("source")),
            Step::CheckDestination => switch.checked(checked("destination")),
            Step::DrawIdentifier => switch.identify(ID.to_string()),
            Step::RecheckSource => switch.rechecked(&checked("source")),
            Step::RecheckDestination => switch.rechecked(&checked("destination")),
            Step::InspectAgain => {
                switch.reinspected(&report(Some(ServiceScope::User)), Ok(policy()))
            }
            Step::RereadRuntime => switch.runtime_again(&Some(identity("5", "6"))),
            Step::Refused | Step::RecordFailure => panic!("{}", switch.error),
            _ => switch.done(),
        }
    }
    let mut moved = caller();
    moved.home = "/home/./fixture/".to_string();
    assert!(moved.same(&caller()));
    moved.groups.push(7);
    assert!(!moved.same(&caller()));
    switch.accounts(&moved, &system());
    assert_eq!(
        switch.error,
        "A service account changed during preparation. Prepare the switch again"
    );
}

#[test]
fn rollbacks_fail_when_the_hardware_lock_was_replaced() {
    let selection = ServiceSelection { scope: ServiceScope::User, uid: 1000 };
    let mut rollback = Rollback::begin(
        Phase::RestoringStartup,
        selection,
        ServiceSelection { scope: ServiceScope::System, uid: 900 },
        "/source.json".to_string(),
        None,
        true,
        None,
        identity("1", "9"),
    );
    while rollback.step != Back::InspectUnselected && rollback.step != Back::Failed {
        match rollback.step {
            Back::ReadRuntime => rollback.runtime(None, true),
            _ => rollback.done(),
        }
    }
    if rollback.step == Back::InspectUnselected {
        rollback.idle_report(&report(None));
    }
    assert_eq!(rollback.step, Back::Failed);
    assert!(!rollback.error.is_empty());
}

fn record(phase: Phase) -> Record {
    Record {
        intent: Intent {
            id: ID.to_string(),
            caller_name: "fixture".to_string(),
            source: ServiceSelection { scope: ServiceScope::User, uid: 1000 },
            destination: ServiceSelection { scope: ServiceScope::System, uid: 900 },
            source_config: "/source.json".to_string(),
            destination_config: "/destination.json".to_string(),
            source_working_directory: Some("/source".to_string()),
            destination_working_directory: None,
            source_was_running: true,
            previous_selection: None,
            user_startup: Startup::Enabled,
            system_startup: Startup::Disabled,
            carry_settings: true,
            user_runtime: None,
        },
        phase,
    }
}

#[test]
fn pending_switches_are_recovered_for_their_caller() {
    let mut one = caller();
    one.name = "fixture".to_string();
    let journal = || Ok(Some(record(Phase::Preparing)));
    let found = automatic_recovery::run(true, true, &journal(), &Ok(one)).unwrap();
    assert!(matches!(found, Pending::Switch { id } if id == ID));
    let mut renamed = caller();
    renamed.name = "other".to_string();
    assert!(automatic_recovery::run(true, true, &journal(), &Ok(renamed))
        .err()
        .unwrap()
        .starts_with("The pending switch account changed."));
    let unknown = Err("No such account".to_string());
    assert_eq!(
        automatic_recovery::run(true, true, &journal(), &unknown).err().unwrap(),
        "No such account"
    );
}

#[test]
fn only_a_destination_that_keeps_its_settings_is_decoded() {
    assert!(decodes(Step::CheckDestination, false));
    assert!(!decodes(Step::CheckDestination, true));
    for step in [Step::CheckSource, Step::RecheckSource, Step::RecheckDestination] {
        assert!(!decodes(step, false));
    }
}

fn recovered(mut one: Option<Record>, fail: Option<Recover>, eligible: bool) -> Recovery {
    let mut recovery = recover(true, 1000, "fixture", 900, Some(ID.to_string())).unwrap();
    let mut steps = 0;
    loop {
        steps += 1;
        assert!(steps < 50);
        let step = recovery.step;
        if recovery.result().is_some() {
            return recovery;
        }
        match step {
            Recover::LoadJournal => recovery.journal(one.take()),
            Recover::ReadLock => recovery.lock(identity("1", "2")),
            Recover::RollBack => {
                let mut rollback = recovery.rollback();
                if fail == Some(step) {
                    rollback.failed("the step failed".to_string());
                } else {
                    rollback = undone(rollback, false).0;
                }
                recovery.rolled_back(&rollback)
            }
            Recover::RecordFailure => recovery.failure_recorded(eligible),
            Recover::ResumeSystem => recovery.system_resumed(),
            _ => recovery.done(),
        }
    }
}

#[test]
fn recovery_rolls_back_a_pending_switch_of_the_caller() {
    assert_eq!(caller_uid(&record(Phase::Ready)), 1000);
    let step = |one: Record| recovered(Some(one), None, false).step;
    assert_eq!(step(record(Phase::StoppingSource)), Recover::Restored);
    assert_eq!(step(record(Phase::Complete)), Recover::Archived);
    let mut unknown = record(Phase::RestoringStartup);
    unknown.intent.source_working_directory = None;
    assert_eq!(
        recovered(Some(unknown), None, false).result().unwrap().unwrap_err(),
        "The original working directory is unknown. Preserve the journal for manual recovery"
    );
    assert_eq!(recovered(None, None, false).step, Recover::NothingPending);
    let failed = |eligible| {
        recovered(Some(record(Phase::StoppingSource)), Some(Recover::RollBack), eligible)
    };
    assert_eq!(failed(false).step, Recover::Refused);
    assert_eq!(failed(true).step, Recover::Pending);
    assert!(failed(true).result().unwrap().unwrap_err().contains("the step failed"));
    let mut foreign = record(Phase::StoppingSource);
    foreign.intent.source.uid = 1001;
    assert_eq!(step(foreign), Recover::Refused);
    let mut other = record(Phase::StoppingSource);
    other.intent.id = "f".repeat(32);
    assert_eq!(step(other), Recover::Refused);
    assert!(recover(false, 1000, "fixture", 900, None).is_err());
}

#[test]
fn destinations_are_started_once_and_verified() {
    let selection = ServiceSelection { scope: ServiceScope::User, uid: 1000 };
    let mut start = Start::begin(selection, "/source.json", 0);
    let mut acted = 0;
    let mut waited = 0;
    while start.step != StartStep::Started {
        match start.step {
            StartStep::Inspect => start.inspected(&report(if acted > 0 {
                Some(ServiceScope::User)
            } else {
                None
            })),
            StartStep::InspectStarted | StartStep::InspectRunning => {
                start.verified(&report(Some(ServiceScope::User)))
            }
            StartStep::ProbeStarted | StartStep::ProbeRunning => {
                start.probed(&daemon("/source.json"), GATE)
            }
            StartStep::ReadClock => start.clock(waited),
            StartStep::Act => {
                acted += 1;
                start.done();
            }
            StartStep::Pause => {
                waited += 1000;
                start.done();
            }
            StartStep::Failed => panic!("{}", start.error),
            _ => start.done(),
        }
    }
    assert_eq!(acted, 1);
    assert_eq!(start.instance, "new instance");
    assert!(stop_wait(Stopping::Destination, 0, 10).is_ok());
    assert!(stop_wait(Stopping::Destination, 10, 10).is_err());
    assert!(stop_wait(Stopping::RecoveredSystem, 11, 10).is_err());
}
