//! Switching the hardware between the user service and the system service, and undoing a switch
//! that did not finish.

use crate::path;
use crate::services::{
    DaemonInfo, OwnerProcess, OwnershipSnapshot, Policy, ServiceProbe, ServiceReport, ServiceScope,
    UnitState,
};
use crate::text;
use crate::text::{lent, outcome};
use vstd::prelude::*;

verus! {

/// The scope that a switch leaves when it goes to `scope`.
pub fn other(scope: ServiceScope) -> (r: ServiceScope)
    ensures
        r == scope.other_spec(),
{
    match scope {
        ServiceScope::User => ServiceScope::System,
        ServiceScope::System => ServiceScope::User,
    }
}

pub open spec fn known_of<T>(probe: ServiceProbe<T>) -> Result<T, Seq<char>> {
    match probe {
        ServiceProbe::Known { value } => Ok(value),
        ServiceProbe::Unavailable { reason } => Err("Service state is unverified: "@ + reason@),
    }
}

/// The value of a probe that succeeded.
pub fn known<T>(probe: &ServiceProbe<T>) -> (r: Result<&T, String>)
    ensures
        lent(r) == known_of(*probe),
{
    match probe {
        ServiceProbe::Known { value } => Ok(value),
        ServiceProbe::Unavailable { reason } => {
            let mut message = "Service state is unverified: ".to_owned();
            message.append(reason.as_str());
            Err(message)
        },
    }
}

pub open spec fn unit_of(report: ServiceReport, scope: ServiceScope) -> Result<
    UnitState,
    Seq<char>,
> {
    match scope {
        ServiceScope::User => known_of(report.user),
        ServiceScope::System => known_of(report.system),
    }
}

/// The state of one service's unit.
pub fn unit(report: &ServiceReport, scope: ServiceScope) -> (r: Result<&UnitState, String>)
    ensures
        lent(r) == unit_of(*report, scope),
{
    match scope {
        ServiceScope::User => known(&report.user),
        ServiceScope::System => known(&report.system),
    }
}

pub open spec fn ownership_of(report: ServiceReport) -> Result<OwnershipSnapshot, Seq<char>> {
    match report.ownership {
        Some(probe) => known_of(probe),
        None => Err("Hardware ownership is unverified"@),
    }
}

/// Who holds the hardware.
pub fn ownership(report: &ServiceReport) -> (r: Result<&OwnershipSnapshot, String>)
    ensures
        lent(r) == ownership_of(*report),
{
    match &report.ownership {
        Some(probe) => known(probe),
        None => Err("Hardware ownership is unverified".to_owned()),
    }
}

/// A service without a process that will not start one by itself.
pub open spec fn is_idle(unit: UnitState) -> bool {
    (unit.active_state@ == "inactive"@ || unit.active_state@ == "failed"@) && unit.main_pid == 0
}

pub fn idle(unit: &UnitState) -> (r: bool)
    ensures
        r == is_idle(*unit),
{
    (text::eq(unit.active_state.as_str(), "inactive") || text::eq(
        unit.active_state.as_str(),
        "failed",
    )) && unit.main_pid == 0
}

pub open spec fn is_running(unit: UnitState) -> bool {
    unit.active_state@ == "active"@ && unit.sub_state@ == "running"@
}

pub fn running(unit: &UnitState) -> (r: bool)
    ensures
        r == is_running(*unit),
{
    text::eq(unit.active_state.as_str(), "active") && text::eq(unit.sub_state.as_str(), "running")
}

/// The process behind an ownership snapshot, with the complaint for a missing one.
pub open spec fn process_of(owner: OwnershipSnapshot, missing: Seq<char>) -> Result<
    OwnerProcess,
    Seq<char>,
> {
    match owner.process {
        Some(probe) => known_of(probe),
        None => Err(missing),
    }
}

fn process<'a>(owner: &'a OwnershipSnapshot, missing: &str) -> (r: Result<&'a OwnerProcess, String>)
    ensures
        lent(r) == process_of(*owner, missing@),
{
    match &owner.process {
        Some(probe) => known(probe),
        None => Err(missing.to_owned()),
    }
}

/// Whether a switch to `destination` may begin: the destination is idle, and the source is either
/// idle with nobody holding the hardware, or running as the verified holder under `source_uid`.
pub open spec fn initial_of(
    report: ServiceReport,
    startup: Result<Policy, Seq<char>>,
    destination: ServiceScope,
    source_uid: u32,
) -> Result<(Policy, bool), Seq<char>> {
    match (startup, unit_of(report, destination)) {
        (Err(e), _) => Err(e),
        (_, Err(e)) => Err(e),
        (Ok(policy), Ok(target)) => if !is_idle(target) {
            Err("The destination service is running or changing state"@)
        } else {
            match (unit_of(report, destination.other_spec()), ownership_of(report)) {
                (Err(e), _) => Err(e),
                (_, Err(e)) => Err(e),
                (Ok(source), Ok(owner)) => if is_idle(source) {
                    if owner.owner_pid is Some {
                        Err(
                            "A manual or foreign daemon owns the hardware. Stop it cleanly before switching"@,
                        )
                    } else {
                        Ok((policy, false))
                    }
                } else if !is_running(source) {
                    Err("Wait for the source service to finish changing state"@)
                } else {
                    match process_of(owner, "The source process is unverified"@) {
                        Err(e) => Err(e),
                        Ok(process) => if owner.owner_pid == Some(process.pid) && process.service
                            == Some(destination.other_spec()) && process.effective_uid
                            == source_uid {
                            Ok((policy, true))
                        } else {
                            Err(
                                "The source hardware owner belongs to another account or launch route"@,
                            )
                        },
                    }
                },
            }
        },
    }
}

/// Judges an inspection before a switch to `destination`. `startup` is the startup policy that the
/// inspection shows, once validated. Returns the policy and whether the source runs.
pub fn initial_state(
    report: &ServiceReport,
    startup: Result<Policy, String>,
    destination: ServiceScope,
    source_uid: u32,
) -> (r: Result<(Policy, bool), String>)
    ensures
        outcome(r) == initial_of(*report, outcome(startup), destination, source_uid),
{
    let policy = match startup {
        Ok(policy) => policy,
        Err(e) => return Err(e),
    };
    let target = match unit(report, destination) {
        Ok(target) => target,
        Err(e) => return Err(e),
    };
    if !idle(target) {
        return Err("The destination service is running or changing state".to_owned());
    }
    let source = match unit(report, other(destination)) {
        Ok(source) => source,
        Err(e) => return Err(e),
    };
    let owner = match ownership(report) {
        Ok(owner) => owner,
        Err(e) => return Err(e),
    };
    if idle(source) {
        if owner.owner_pid.is_some() {
            return Err(
                "A manual or foreign daemon owns the hardware. Stop it cleanly before switching".to_owned(),
            );
        }
        return Ok((policy, false));
    }
    if !running(source) {
        return Err("Wait for the source service to finish changing state".to_owned());
    }
    let holder = match process(owner, "The source process is unverified") {
        Ok(holder) => holder,
        Err(e) => return Err(e),
    };
    if owner.owner_pid == Some(holder.pid) && holder.service == Some(other(destination))
        && holder.effective_uid == source_uid {
        Ok((policy, true))
    } else {
        Err("The source hardware owner belongs to another account or launch route".to_owned())
    }
}

/// Whether an inspection shows the daemon of `scope` running alone under `uid`.
pub open spec fn running_of(report: ServiceReport, scope: ServiceScope, uid: u32) -> Result<
    OwnershipSnapshot,
    Seq<char>,
> {
    match unit_of(report, scope) {
        Err(e) => Err(e),
        Ok(selected) => if !is_running(selected) {
            Err("The selected daemon is not running"@)
        } else {
            match unit_of(report, scope.other_spec()) {
                Err(e) => Err(e),
                Ok(rest) => if !is_idle(rest) {
                    Err("The other hardware mode is active or changing state"@)
                } else {
                    match ownership_of(report) {
                        Err(e) => Err(e),
                        Ok(owner) => match process_of(
                            owner,
                            "The selected daemon owner is unverified"@,
                        ) {
                            Err(e) => Err(e),
                            Ok(process) => if process.effective_uid == uid && process.service
                                == Some(scope) {
                                Ok(owner)
                            } else {
                                Err("The selected daemon uses a different account or service"@)
                            },
                        },
                    }
                },
            }
        },
    }
}

/// Judges an inspection of a daemon that should be running. What it returns is to be probed.
pub fn verify_running(report: &ServiceReport, scope: ServiceScope, uid: u32) -> (r: Result<
    &OwnershipSnapshot,
    String,
>)
    ensures
        lent(r) == running_of(*report, scope, uid),
{
    let selected = match unit(report, scope) {
        Ok(selected) => selected,
        Err(e) => return Err(e),
    };
    if !running(selected) {
        return Err("The selected daemon is not running".to_owned());
    }
    let rest = match unit(report, other(scope)) {
        Ok(rest) => rest,
        Err(e) => return Err(e),
    };
    if !idle(rest) {
        return Err("The other hardware mode is active or changing state".to_owned());
    }
    let owner = match ownership(report) {
        Ok(owner) => owner,
        Err(e) => return Err(e),
    };
    let holder = match process(owner, "The selected daemon owner is unverified") {
        Ok(holder) => holder,
        Err(e) => return Err(e),
    };
    if holder.effective_uid == uid && holder.service == Some(scope) {
        Ok(owner)
    } else {
        Err("The selected daemon uses a different account or service".to_owned())
    }
}

/// Whether a list of capabilities names one.
pub open spec fn names(capabilities: Seq<String>, one: Seq<char>) -> bool {
    exists|i: int| 0 <= i < capabilities.len() && (#[trigger] capabilities[i])@ == one
}

pub fn has_capability(capabilities: &Vec<String>, one: &str) -> (r: bool)
    ensures
        r == names(capabilities@, one@),
{
    let mut i: usize = 0;
    while i < capabilities.len()
        invariant
            i <= capabilities@.len(),
            forall|j: int| 0 <= j < i ==> (#[trigger] capabilities@[j])@ != one@,
        decreases capabilities@.len() - i,
    {
        if text::eq(capabilities[i].as_str(), one) {
            return true;
        }
        i += 1;
    }
    false
}

/// Whether a daemon answered for the expected configuration and honours the startup gate, whose
/// capability is called `gate`.
pub open spec fn answer_of(info: DaemonInfo, config: Seq<char>, gate: Seq<char>) -> Result<
    (),
    Seq<char>,
> {
    if !path::same_path(info.config_path@, config) {
        Err("The daemon loaded a different configuration path"@)
    } else if !names(info.capabilities@, gate) {
        Err("Restart the installed daemon with startup-gate support before switching"@)
    } else {
        Ok(())
    }
}

/// Judges what a running daemon reports of itself.
pub fn verify_daemon(info: &DaemonInfo, config: &str, gate: &str) -> (r: Result<(), String>)
    ensures
        outcome(r) == answer_of(*info, config@, gate@),
{
    if !path::same(info.config_path.as_str(), config) {
        return Err("The daemon loaded a different configuration path".to_owned());
    }
    if !has_capability(&info.capabilities, gate) {
        return Err(
            "Restart the installed daemon with startup-gate support before switching".to_owned(),
        );
    }
    Ok(())
}

/// Whether both services have exited and nobody holds the lock `expected`.
pub open spec fn reserve_of(report: ServiceReport, expected: (Seq<char>, Seq<char>)) -> Result<
    (),
    Seq<char>,
> {
    let busy = Err(
        "Wait for both service processes to exit cleanly before publication or recovery"@,
    );
    match unit_of(report, ServiceScope::User) {
        Err(e) => Err(e),
        Ok(user) => if !is_idle(user) {
            busy
        } else {
            match unit_of(report, ServiceScope::System) {
                Err(e) => Err(e),
                Ok(system) => if !is_idle(system) {
                    busy
                } else {
                    match ownership_of(report) {
                        Err(e) => Err(e),
                        Ok(owner) => if owner.owner_pid is None && owner.identity@ == expected {
                            Ok(())
                        } else {
                            Err("Hardware ownership changed during the switch"@)
                        },
                    }
                },
            }
        },
    }
}

/// Judges an inspection before the hardware is reserved.
pub fn reserve(report: &ServiceReport, expected: &crate::services::FileIdentity) -> (r: Result<
    (),
    String,
>)
    ensures
        outcome(r) == reserve_of(*report, expected@),
{
    let user = match unit(report, ServiceScope::User) {
        Ok(user) => user,
        Err(e) => return Err(e),
    };
    if !idle(user) {
        return Err(
            "Wait for both service processes to exit cleanly before publication or recovery".to_owned(),
        );
    }
    let system = match unit(report, ServiceScope::System) {
        Ok(system) => system,
        Err(e) => return Err(e),
    };
    if !idle(system) {
        return Err(
            "Wait for both service processes to exit cleanly before publication or recovery".to_owned(),
        );
    }
    let owner = match ownership(report) {
        Ok(owner) => owner,
        Err(e) => return Err(e),
    };
    if owner.owner_pid.is_none() && owner.identity.same(expected) {
        Ok(())
    } else {
        Err("Hardware ownership changed during the switch".to_owned())
    }
}

/// Whether the launch environment is still the one that was prepared.
pub open spec fn launch_of(
    config: Seq<char>,
    working: Seq<char>,
    expected_config: Seq<char>,
    expected_working: Seq<char>,
) -> Result<(), Seq<char>> {
    if path::same_path(config, expected_config) && path::same_path(working, expected_working) {
        Ok(())
    } else {
        Err(
            "The destination launch environment changed. Restore the previous mode before retrying"@,
        )
    }
}

/// Compares a fresh preflight with the paths that were prepared.
pub fn check_launch(
    config: &str,
    working: &str,
    expected_config: &str,
    expected_working: &str,
) -> (r: Result<(), String>)
    ensures
        outcome(r) == launch_of(config@, working@, expected_config@, expected_working@),
{
    if path::same(config, expected_config) && path::same(working, expected_working) {
        Ok(())
    } else {
        Err(
            "The destination launch environment changed. Restore the previous mode before retrying".to_owned(),
        )
    }
}

/// A switch begins only with an idle destination, and either nobody owns the hardware or the source
/// service does, under its own account.
pub proof fn switches_begin_with_a_verified_owner(
    report: ServiceReport,
    startup: Result<Policy, Seq<char>>,
    destination: ServiceScope,
    source_uid: u32,
)
    ensures
        initial_of(report, startup, destination, source_uid) matches Ok((policy, runs)) ==> {
            &&& startup == Ok::<Policy, Seq<char>>(policy)
            &&& unit_of(report, destination) matches Ok(target)
            &&& is_idle(target)
            &&& ownership_of(report) matches Ok(owner)
            &&& if runs {
                &&& process_of(owner, "The source process is unverified"@) matches Ok(process)
                &&& owner.owner_pid == Some(process.pid)
                &&& process.service == Some(destination.other_spec())
                &&& process.effective_uid == source_uid
            } else {
                owner.owner_pid is None
            }
        },
{
}

/// One report never shows both modes running, nor a running mode and hardware that may be reserved.
pub proof fn modes_exclude_each_other(
    report: ServiceReport,
    scope: ServiceScope,
    uid: u32,
    other_uid: u32,
    lock: (Seq<char>, Seq<char>),
)
    requires
        running_of(report, scope, uid) is Ok,
    ensures
        running_of(report, scope.other_spec(), other_uid) is Err,
        reserve_of(report, lock) is Err,
{
    reveal_strlit("active");
    reveal_strlit("inactive");
    reveal_strlit("failed");
    assert("active"@ != "inactive"@ && "active"@ != "failed"@) by {
        assert("active"@[0] == 'a');
        assert("inactive"@[0] == 'i');
        assert("failed"@[0] == 'f');
    }
}

/// A switch may begin, to either side, exactly where the startup policy is known, the destination
/// has no process and none is on its way, and either the source is likewise without a process and
/// nobody holds the hardware, or the source runs and the one that holds the hardware is the process
/// of the source under the source's account. The policy is passed on, with whether the source runs.
pub proof fn switches_begin_exactly_when_the_services_are_settled(
    report: ServiceReport,
    startup: Result<Policy, Seq<char>>,
    destination: ServiceScope,
    source_uid: u32,
)
    ensures
        ({
            let (to, from, source) = match destination {
                ServiceScope::User => (report.user, report.system, ServiceScope::System),
                ServiceScope::System => (report.system, report.user, ServiceScope::User),
            };
            let here = to->value;
            let there = from->value;
            let holder = report.ownership->0->value;
            let settled = {
                &&& startup is Ok
                &&& to is Known
                &&& here.main_pid == 0
                &&& here.active_state@ == "inactive"@ || here.active_state@ == "failed"@
                &&& from is Known
                &&& report.ownership is Some
                &&& report.ownership->0 is Known
            };
            let off = {
                &&& there.main_pid == 0
                &&& there.active_state@ == "inactive"@ || there.active_state@ == "failed"@
                &&& holder.owner_pid is None
            };
            let on = {
                let process = holder.process->0->value;
                &&& there.active_state@ == "active"@
                &&& there.sub_state@ == "running"@
                &&& holder.process is Some
                &&& holder.process->0 is Known
                &&& holder.owner_pid == Some(process.pid)
                &&& process.service == Some(source)
                &&& process.effective_uid == source_uid
            };
            let begun = initial_of(report, startup, destination, source_uid);
            &&& settled && off ==> begun == Ok::<(Policy, bool), Seq<char>>((startup->Ok_0, false))
            &&& settled && on ==> begun == Ok::<(Policy, bool), Seq<char>>((startup->Ok_0, true))
            &&& begun is Ok ==> settled && (off || on)
        }),
{
    states_are_told_apart();
}

/// The words for the states of a unit differ.
proof fn states_are_told_apart()
    ensures
        "active"@ != "inactive"@,
        "active"@ != "failed"@,
{
    reveal_strlit("active");
    reveal_strlit("inactive");
    reveal_strlit("failed");
    assert("active"@[0] == 'a');
    assert("inactive"@[0] == 'i');
    assert("failed"@[0] == 'f');
}

/// A daemon is found running exactly where its unit runs, the unit of the other mode has no process,
/// and the process that holds the hardware is that of the daemon's service under its account. Who
/// holds the hardware is passed on.
pub proof fn daemons_run_exactly_when_they_hold_the_hardware_alone(
    report: ServiceReport,
    scope: ServiceScope,
    uid: u32,
)
    ensures
        ({
            let (own, rest) = match scope {
                ServiceScope::User => (report.user, report.system),
                ServiceScope::System => (report.system, report.user),
            };
            let holder = report.ownership->0->value;
            let process = holder.process->0->value;
            let runs = {
                &&& own is Known
                &&& own->value.active_state@ == "active"@
                &&& own->value.sub_state@ == "running"@
                &&& rest is Known
                &&& rest->value.main_pid == 0
                &&& rest->value.active_state@ == "inactive"@ || rest->value.active_state@
                    == "failed"@
                &&& report.ownership is Some
                &&& report.ownership->0 is Known
                &&& holder.process is Some
                &&& holder.process->0 is Known
                &&& process.effective_uid == uid
                &&& process.service == Some(scope)
            };
            &&& runs ==> running_of(report, scope, uid) == Ok::<OwnershipSnapshot, Seq<char>>(holder)
            &&& running_of(report, scope, uid) is Ok ==> runs
        }),
{
}

/// The hardware may be reserved exactly where neither service has a process or is about to have one,
/// nobody holds the lock, and the lock is still the same file.
pub proof fn hardware_is_free_exactly_when_both_services_are_off(
    report: ServiceReport,
    expected: (Seq<char>, Seq<char>),
)
    ensures
        reserve_of(report, expected) is Ok <==> {
            let holder = report.ownership->0->value;
            &&& report.user is Known
            &&& report.user->value.main_pid == 0
            &&& report.user->value.active_state@ == "inactive"@ || report.user->value.active_state@
                == "failed"@
            &&& report.system is Known
            &&& report.system->value.main_pid == 0
            &&& report.system->value.active_state@ == "inactive"@
                || report.system->value.active_state@ == "failed"@
            &&& report.ownership is Some
            &&& report.ownership->0 is Known
            &&& holder.owner_pid is None
            &&& holder.identity.device@ == expected.0
            &&& holder.identity.inode@ == expected.1
        },
{
}

/// A daemon is taken for the selected one exactly where it loaded the configuration of that path, in
/// whatever spelling, and names the startup gate among its capabilities.
pub proof fn daemons_are_known_by_configuration_and_gate(
    info: DaemonInfo,
    config: Seq<char>,
    gate: Seq<char>,
)
    ensures
        answer_of(info, config, gate) is Ok <==> {
            &&& path::is_absolute(info.config_path@) == path::is_absolute(config)
            &&& path::components_of(info.config_path@) == path::components_of(config)
            &&& exists|i: int|
                0 <= i < info.capabilities@.len() && (#[trigger] info.capabilities@[i])@ == gate
        },
{
}

/// A launch is the prepared one exactly where neither of its two paths changed, and it stays so when
/// both sides change places.
pub proof fn launches_are_compared_by_both_paths(
    config: Seq<char>,
    working: Seq<char>,
    expected_config: Seq<char>,
    expected_working: Seq<char>,
)
    ensures
        launch_of(config, working, expected_config, expected_working) is Ok <==> {
            &&& path::is_absolute(config) == path::is_absolute(expected_config)
            &&& path::components_of(config) == path::components_of(expected_config)
            &&& path::is_absolute(working) == path::is_absolute(expected_working)
            &&& path::components_of(working) == path::components_of(expected_working)
        },
        launch_of(config, working, expected_config, expected_working) == launch_of(
            expected_config,
            expected_working,
            config,
            working,
        ),
{
}

} // verus!
