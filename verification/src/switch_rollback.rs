//! Undoing a mode switch: from any recorded phase back to the mode that was there before.

use crate::native_switch::{
    answer_of, check_launch, idle, is_idle, launch_of, reserve, reserve_of, running_of, unit, unit_of,
    verify_daemon, verify_running,
};
use crate::services::{
    optional, optional_identity, same_optional_identity, DaemonInfo, FileIdentity, Policy,
    ServiceReport, ServiceScope, ServiceSelection,
};
use crate::switch_run::Phase;
use crate::switch_wait::{start_announced, Start, StartStep, Stop, StopStep, Stopping};
use crate::text::outcome;
use vstd::prelude::*;

verus! {

/// What a rollback does next.
#[derive(Clone, Copy, Debug, PartialEq, Eq, Structural)]
pub enum Step {
    ResumeSystem,
    InspectRecovered,
    PreflightRecovery,
    CheckSystemLaunch,
    RecordStoppingSystem,
    PauseForSystem,
    StopSystem,
    InspectSystemIdle,
    ReserveForSystem,
    RecordSystemStopped,
    DiscardTransfer,
    RecordDiscarded,
    ReadRuntime,
    RecordStoppingDestination,
    Announce,
    InspectDestination,
    PauseLaunches,
    StopDestination,
    InspectStopped,
    ReserveStopped,
    RestoreStopped,
    InspectRestoring,
    ReserveRestoring,
    RestoreRestoring,
    InspectStartup,
    CompareEarlyPolicy,
    CompareEarlySelection,
    CheckEarlyLaunch,
    StartEarly,
    InspectUnselected,
    ReserveUnselected,
    CheckUnselectedLaunch,
    RestoreSelection,
    RecordStartingSource,
    CompareRuntime,
    ComparePolicy,
    CompareSelection,
    StartSource,
    InspectUnstarted,
    ReserveUnstarted,
    RecordVerifyingSource,
    CompareRuntimeAgain,
    InspectSource,
    ProbeSource,
    InspectUnverified,
    ReserveUnverified,
    RecordRolledBack,
    Finished,
    Failed,
}

/// The place of a step in the order of a rollback.
pub open spec fn rank(step: Step) -> int {
    match step {
        Step::ResumeSystem => 0,
        Step::InspectRecovered => 1,
        Step::PreflightRecovery => 2,
        Step::CheckSystemLaunch => 3,
        Step::RecordStoppingSystem => 4,
        Step::PauseForSystem => 5,
        Step::StopSystem => 6,
        Step::InspectSystemIdle => 7,
        Step::ReserveForSystem => 8,
        Step::RecordSystemStopped => 9,
        Step::DiscardTransfer => 10,
        Step::RecordDiscarded => 11,
        Step::ReadRuntime => 12,
        Step::RecordStoppingDestination => 13,
        Step::Announce => 14,
        Step::InspectDestination => 15,
        Step::PauseLaunches => 16,
        Step::StopDestination => 17,
        Step::InspectStopped => 18,
        Step::ReserveStopped => 19,
        Step::RestoreStopped => 20,
        Step::InspectRestoring => 21,
        Step::ReserveRestoring => 22,
        Step::RestoreRestoring => 23,
        Step::InspectStartup => 24,
        Step::CompareEarlyPolicy => 25,
        Step::CompareEarlySelection => 26,
        Step::CheckEarlyLaunch => 27,
        Step::StartEarly => 28,
        Step::InspectUnselected => 29,
        Step::ReserveUnselected => 30,
        Step::CheckUnselectedLaunch => 31,
        Step::RestoreSelection => 32,
        Step::RecordStartingSource => 33,
        Step::CompareRuntime => 34,
        Step::ComparePolicy => 35,
        Step::CompareSelection => 36,
        Step::StartSource => 37,
        Step::InspectUnstarted => 38,
        Step::ReserveUnstarted => 39,
        Step::RecordVerifyingSource => 40,
        Step::CompareRuntimeAgain => 41,
        Step::InspectSource => 42,
        Step::ProbeSource => 43,
        Step::InspectUnverified => 44,
        Step::ReserveUnverified => 45,
        Step::RecordRolledBack => 46,
        Step::Finished => 47,
        Step::Failed => 48,
    }
}

/// The step that must come directly before, for the steps that have only one.
pub open spec fn predecessor(step: Step) -> Option<Step> {
    match step {
        Step::PreflightRecovery => Some(Step::InspectRecovered),
        Step::CheckSystemLaunch => Some(Step::PreflightRecovery),
        Step::RecordStoppingSystem => Some(Step::CheckSystemLaunch),
        Step::StopSystem => Some(Step::PauseForSystem),
        Step::InspectSystemIdle => Some(Step::StopSystem),
        Step::ReserveForSystem => Some(Step::InspectSystemIdle),
        Step::RecordSystemStopped => Some(Step::ReserveForSystem),
        Step::RecordStoppingDestination => Some(Step::ReadRuntime),
        Step::InspectDestination => Some(Step::Announce),
        Step::PauseLaunches => Some(Step::InspectDestination),
        Step::StopDestination => Some(Step::PauseLaunches),
        Step::InspectStopped => Some(Step::StopDestination),
        Step::ReserveStopped => Some(Step::InspectStopped),
        Step::RestoreStopped => Some(Step::ReserveStopped),
        Step::ReserveRestoring => Some(Step::InspectRestoring),
        Step::RestoreRestoring => Some(Step::ReserveRestoring),
        Step::CompareEarlyPolicy => Some(Step::InspectStartup),
        Step::CompareEarlySelection => Some(Step::CompareEarlyPolicy),
        Step::CheckEarlyLaunch => Some(Step::CompareEarlySelection),
        Step::StartEarly => Some(Step::CheckEarlyLaunch),
        Step::InspectUnselected => Some(Step::InspectStartup),
        Step::ReserveUnselected => Some(Step::InspectUnselected),
        Step::CheckUnselectedLaunch => Some(Step::ReserveUnselected),
        Step::RestoreSelection => Some(Step::CheckUnselectedLaunch),
        Step::ComparePolicy => Some(Step::CompareRuntime),
        Step::CompareSelection => Some(Step::ComparePolicy),
        Step::StartSource => Some(Step::CompareSelection),
        Step::InspectUnstarted => Some(Step::CompareSelection),
        Step::ReserveUnstarted => Some(Step::InspectUnstarted),
        Step::InspectSource => Some(Step::CompareRuntimeAgain),
        Step::ProbeSource => Some(Step::InspectSource),
        Step::InspectUnverified => Some(Step::CompareRuntimeAgain),
        Step::ReserveUnverified => Some(Step::InspectUnverified),
        _ => None,
    }
}

/// Whether the step at index `i` of a log stands right behind the one that it needs.
pub open spec fn ordered_at(log: Seq<Step>, i: int) -> bool {
    predecessor(log[i]) is Some ==> i > 0 && log[i - 1] == predecessor(log[i])->0
}

/// Where a rollback enters from a phase before anything was restored.
pub open spec fn entry(from: int, phase: Phase, carry: bool) -> Step {
    if from <= 0 && phase == Phase::RestoringSystem {
        Step::ResumeSystem
    } else if from <= 1 && (phase == Phase::SystemRestored || phase
        == Phase::StoppingRecoveredSystem) {
        Step::InspectRecovered
    } else if phase == Phase::Preparing || phase == Phase::Ready {
        if carry {
            Step::DiscardTransfer
        } else {
            Step::RecordDiscarded
        }
    } else {
        Step::ReadRuntime
    }
}

/// Whether a phase already belongs to the restoration.
pub open spec fn restoring(phase: Phase) -> bool {
    phase == Phase::StoppingDestination || phase == Phase::RestoringDestination || phase
        == Phase::RestoringStartup || phase == Phase::StartingSource || phase
        == Phase::VerifyingSource
}

/// Where the restoration goes on: the first stage from `from` on that the phase asks for.
pub open spec fn stage(from: int, phase: Phase) -> Step {
    if from <= 0 && phase == Phase::StoppingDestination {
        Step::InspectDestination
    } else if from <= 1 && phase == Phase::RestoringDestination {
        Step::InspectRestoring
    } else if from <= 2 && phase == Phase::RestoringStartup {
        Step::InspectStartup
    } else if from <= 3 && phase == Phase::StartingSource {
        Step::CompareRuntime
    } else if from <= 4 && phase == Phase::VerifyingSource {
        Step::CompareRuntimeAgain
    } else {
        Step::Finished
    }
}

/// A rollback under way.
pub struct Rollback {
    pub source: ServiceSelection,
    pub destination: ServiceSelection,
    pub source_config: String,
    pub source_working: Option<String>,
    pub carry: bool,
    pub previous: Option<ServiceSelection>,
    pub lock: FileIdentity,
    /// The phase that the journal held at the beginning.
    pub begun: Phase,
    pub phase: Phase,
    pub runtime: Option<FileIdentity>,
    pub should_run: bool,
    pub step: Step,
    pub error: String,
    /// The steps that succeeded, in order.
    pub log: Ghost<Seq<Step>>,
}

/// The steps that only succeed or fail.
pub open spec fn plain(step: Step) -> bool {
    match step {
        Step::PreflightRecovery
        | Step::PauseForSystem
        | Step::ReserveForSystem
        | Step::DiscardTransfer
        | Step::Announce
        | Step::PauseLaunches
        | Step::ReserveStopped
        | Step::ReserveRestoring
        | Step::ReserveUnselected
        | Step::RestoreSelection
        | Step::ReserveUnstarted
        | Step::ReserveUnverified => true,
        _ => false,
    }
}

/// The steps after which the journal says itself how far it is.
pub open spec fn journals(step: Step) -> bool {
    step == Step::ResumeSystem || step == Step::RecordSystemStopped || step == Step::RestoreStopped
        || step == Step::RestoreRestoring
}

/// The steps that other machines decide.
pub open spec fn waits(step: Step) -> bool {
    step == Step::StopSystem || step == Step::StopDestination || step == Step::StartEarly || step
        == Step::StartSource
}

/// The steps in which the services must be idle before the hardware is reserved.
pub open spec fn wants_idle(step: Step) -> bool {
    step == Step::InspectSystemIdle || step == Step::InspectStopped || step == Step::InspectRestoring
        || step == Step::InspectUnselected || step == Step::InspectUnstarted || step
        == Step::InspectUnverified
}

/// What a step tells the caller.
pub open spec fn announcement(step: Step) -> Option<Seq<char>> {
    if step == Step::Announce {
        Some("Restoring the previous service mode…"@)
    } else {
        None
    }
}

pub fn announce(step: Step) -> (r: Option<&'static str>)
    ensures
        match r {
            Some(t) => announcement(step) == Some(t@),
            None => announcement(step) is None,
        },
{
    if step == Step::Announce {
        Some("Restoring the previous service mode…")
    } else {
        None
    }
}

/// The phase that a step writes to the journal.
pub open spec fn recorded_phase(step: Step) -> Option<Phase> {
    match step {
        Step::RecordStoppingSystem => Some(Phase::StoppingRecoveredSystem),
        Step::RecordDiscarded => Some(Phase::RolledBack),
        Step::RecordStoppingDestination => Some(Phase::StoppingDestination),
        Step::RecordStartingSource => Some(Phase::StartingSource),
        Step::RecordVerifyingSource => Some(Phase::VerifyingSource),
        Step::RecordRolledBack => Some(Phase::RolledBack),
        _ => None,
    }
}

pub fn phase_to_record(step: Step) -> (r: Option<Phase>)
    ensures
        r == recorded_phase(step),
{
    match step {
        Step::RecordStoppingSystem => Some(Phase::StoppingRecoveredSystem),
        Step::RecordDiscarded => Some(Phase::RolledBack),
        Step::RecordStoppingDestination => Some(Phase::StoppingDestination),
        Step::RecordStartingSource => Some(Phase::StartingSource),
        Step::RecordVerifyingSource => Some(Phase::VerifyingSource),
        Step::RecordRolledBack => Some(Phase::RolledBack),
        _ => None,
    }
}

impl Rollback {
    /// The step that follows when the current one succeeded.
    pub open spec fn next(self) -> Step {
        match self.step {
            Step::ResumeSystem => entry(1, self.phase, self.carry),
            Step::InspectRecovered => Step::PreflightRecovery,
            Step::PreflightRecovery => Step::CheckSystemLaunch,
            Step::CheckSystemLaunch => if self.phase == Phase::SystemRestored {
                Step::RecordStoppingSystem
            } else {
                Step::PauseForSystem
            },
            Step::RecordStoppingSystem => Step::PauseForSystem,
            Step::PauseForSystem => Step::StopSystem,
            Step::StopSystem => Step::InspectSystemIdle,
            Step::InspectSystemIdle => Step::ReserveForSystem,
            Step::ReserveForSystem => Step::RecordSystemStopped,
            Step::RecordSystemStopped => entry(2, self.phase, self.carry),
            Step::DiscardTransfer => Step::RecordDiscarded,
            Step::RecordDiscarded => Step::Finished,
            Step::ReadRuntime => if restoring(self.phase) {
                Step::Announce
            } else {
                Step::RecordStoppingDestination
            },
            Step::RecordStoppingDestination => Step::Announce,
            Step::Announce => stage(0, self.phase),
            Step::InspectDestination => Step::PauseLaunches,
            Step::PauseLaunches => Step::StopDestination,
            Step::StopDestination => Step::InspectStopped,
            Step::InspectStopped => Step::ReserveStopped,
            Step::ReserveStopped => Step::RestoreStopped,
            Step::RestoreStopped => stage(1, self.phase),
            Step::InspectRestoring => Step::ReserveRestoring,
            Step::ReserveRestoring => Step::RestoreRestoring,
            Step::RestoreRestoring => stage(2, self.phase),
            Step::InspectStartup => Step::InspectUnselected,
            Step::CompareEarlyPolicy => Step::CompareEarlySelection,
            Step::CompareEarlySelection => Step::CheckEarlyLaunch,
            Step::CheckEarlyLaunch => Step::StartEarly,
            Step::StartEarly => Step::RecordStartingSource,
            Step::InspectUnselected => Step::ReserveUnselected,
            Step::ReserveUnselected => Step::CheckUnselectedLaunch,
            Step::CheckUnselectedLaunch => Step::RestoreSelection,
            Step::RestoreSelection => Step::RecordStartingSource,
            Step::RecordStartingSource => stage(3, self.phase),
            Step::CompareRuntime => Step::ComparePolicy,
            Step::ComparePolicy => Step::CompareSelection,
            Step::CompareSelection => if self.should_run {
                Step::StartSource
            } else {
                Step::InspectUnstarted
            },
            Step::StartSource => Step::RecordVerifyingSource,
            Step::InspectUnstarted => Step::ReserveUnstarted,
            Step::ReserveUnstarted => Step::RecordVerifyingSource,
            Step::RecordVerifyingSource => stage(4, self.phase),
            Step::CompareRuntimeAgain => if self.should_run {
                Step::InspectSource
            } else {
                Step::InspectUnverified
            },
            Step::InspectSource => Step::ProbeSource,
            Step::ProbeSource => Step::RecordRolledBack,
            Step::InspectUnverified => Step::ReserveUnverified,
            Step::ReserveUnverified => Step::RecordRolledBack,
            Step::RecordRolledBack => Step::Finished,
            Step::Finished => Step::Finished,
            Step::Failed => Step::Failed,
        }
    }

    /// The complaint where a launch is to be checked and its working directory was never recorded.
    pub open spec fn unknown_working(self, next: Step) -> Option<Seq<char>> {
        if self.source_working is Some {
            None
        } else if next == Step::CheckSystemLaunch {
            Some("The original system working directory is unknown"@)
        } else if next == Step::CheckEarlyLaunch || next == Step::CheckUnselectedLaunch {
            Some(
                "The original working directory is unknown. Preserve the journal for manual recovery"@,
            )
        } else {
            None
        }
    }

    /// The rollback when the journal holds the phase that the current step writes.
    pub open spec fn noted(self) -> Rollback {
        Rollback { phase: recorded_phase(self.step)->0, ..self }
    }

    /// The rollback when the current step succeeded and `next` follows.
    pub open spec fn moved(self, next: Step) -> Rollback {
        Rollback { step: next, log: Ghost(self.log@.push(self.step)), ..self }
    }

    /// Every step in the log stands right behind the one that it needs.
    pub open spec fn wf(self) -> bool {
        &&& forall|i: int| 0 <= i < self.log@.len() ==> #[trigger] ordered_at(self.log@, i)
        &&& predecessor(self.step) is Some ==> self.log@.len() > 0 && self.log@.last()
            == predecessor(self.step)->0
        &&& self.step == Step::CheckSystemLaunch || self.step == Step::CheckEarlyLaunch || self.step
            == Step::CheckUnselectedLaunch ==> self.source_working is Some
        &&& self.step == Step::Announce ==> restoring(self.phase)
    }
}

/// What a journal says after a step that leaves it to the journal: the system was restored, the
/// restoration goes on, or it is at the startup.
pub open spec fn tells(step: Step, phase: Phase) -> bool {
    match step {
        Step::ResumeSystem => phase == Phase::SystemRestored,
        Step::RecordSystemStopped => phase != Phase::Preparing && phase != Phase::Ready,
        Step::RestoreStopped => phase == Phase::RestoringDestination || phase
            == Phase::RestoringStartup,
        Step::RestoreRestoring => phase == Phase::RestoringStartup,
        _ => true,
    }
}

impl Rollback {
    /// Selection and startup are as before the switch: they were restored, or were found so by the
    /// start of a source that was on its way already.
    pub open spec fn startup_restored(self) -> bool {
        self.log@.contains(Step::RestoreSelection) || (self.should_run && self.log@.contains(
            Step::StartEarly,
        ))
    }

    /// The source runs again where it is to run, and was otherwise found off.
    pub open spec fn source_restarted(self) -> bool {
        self.log@.contains(
            if self.should_run {
                Step::StartSource
            } else {
                Step::ReserveUnstarted
            },
        )
    }

    /// What the source is now was verified.
    pub open spec fn source_verified(self) -> bool {
        self.log@.contains(
            if self.should_run {
                Step::ProbeSource
            } else {
                Step::ReserveUnverified
            },
        )
    }

    /// What a rollback owes has been done up to its present step.
    pub open spec fn thorough(self) -> bool {
        let at = rank(self.step);
        if self.step == Step::Failed {
            true
        } else if self.begun == Phase::Preparing || self.begun == Phase::Ready {
            ||| self.step == Step::DiscardTransfer && self.carry && self.log@ =~= Seq::empty()
            ||| self.step == Step::RecordDiscarded && self.log@ =~= (if self.carry {
                seq![Step::DiscardTransfer]
            } else {
                Seq::empty()
            })
            ||| self.step == Step::Finished && self.phase == Phase::RolledBack && self.log@ =~= (
            if self.carry {
                seq![Step::DiscardTransfer, Step::RecordDiscarded]
            } else {
                seq![Step::RecordDiscarded]
            })
        } else {
            let system = self.begun == Phase::RestoringSystem || self.begun == Phase::SystemRestored
                || self.begun == Phase::StoppingRecoveredSystem;
            let verifying = self.begun == Phase::VerifyingSource;
            let starting = verifying || self.begun == Phase::StartingSource;
            let reselecting = starting || self.begun == Phase::RestoringStartup;
            let restoring_settings = reselecting || self.begun == Phase::RestoringDestination;
            &&& at == rank(Step::DiscardTransfer) || at == rank(Step::RecordDiscarded) ==> false
            &&& at < rank(Step::DiscardTransfer) ==> system
            &&& system && at > rank(Step::StopSystem) ==> self.log@.contains(Step::StopSystem)
            &&& system && at > rank(Step::RecordDiscarded) ==> self.log@.contains(
                Step::RecordSystemStopped,
            )
            &&& rank(Step::CompareEarlyPolicy) <= at <= rank(Step::StartEarly) ==> self.should_run
            &&& self.step == Step::StartSource || self.step == Step::InspectSource || self.step
                == Step::ProbeSource ==> self.should_run
            &&& self.step == Step::InspectUnstarted || self.step == Step::ReserveUnstarted || self.step
                == Step::InspectUnverified || self.step == Step::ReserveUnverified
                ==> !self.should_run
            &&& !system ==> {
                &&& self.step == Step::ReadRuntime ==> self.phase == self.begun
                &&& self.step == Step::RecordStoppingDestination ==> !restoring(self.begun)
                &&& self.step == Step::Announce ==> self.phase == (if restoring_settings {
                    self.begun
                } else {
                    Phase::StoppingDestination
                })
                &&& at > rank(Step::StopDestination) && !restoring_settings ==> self.log@.contains(
                    Step::StopDestination,
                )
                &&& at > rank(Step::RestoreRestoring) && !reselecting ==> self.log@.contains(
                    Step::RestoreStopped,
                ) || self.log@.contains(Step::RestoreRestoring)
                &&& at >= rank(Step::RecordStartingSource) && !starting ==> self.startup_restored()
                &&& at >= rank(Step::RecordVerifyingSource) && !verifying ==> self.source_restarted()
            }
            &&& at >= rank(Step::RecordRolledBack) ==> self.source_verified()
            &&& self.step == Step::Finished ==> self.phase == Phase::RolledBack && self.log@.len() > 0
                && self.log@.last() == Step::RecordRolledBack
        }
    }

    /// Whether the current step can lead to `next` with nothing left out.
    pub open spec fn leads(self, next: Step) -> bool {
        &&& self.thorough()
        &&& rank(self.step) < rank(Step::Finished)
        &&& next == self.next() || (self.step == Step::InspectStartup && self.should_run && next
            == Step::CompareEarlyPolicy)
        &&& recorded_phase(self.step) is Some ==> self.phase == recorded_phase(self.step)->0
        &&& tells(self.step, self.phase)
    }
}

/// The current step failed.
pub open spec fn stops(before: Rollback, after: Rollback, text: Seq<char>) -> bool {
    after == (Rollback { step: Step::Failed, error: after.error, ..before }) && after.error@ == text
}

/// The current step succeeded and `next` follows, where it can.
pub open spec fn moves(before: Rollback, after: Rollback, next: Step) -> bool {
    match before.unknown_working(next) {
        Some(text) => stops(before, after, text),
        None => after == before.moved(next),
    }
}

/// The current step succeeded or failed as a check says.
pub open spec fn follows<T>(
    before: Rollback,
    after: Rollback,
    next: Step,
    check: Result<T, Seq<char>>,
) -> bool {
    match check {
        Ok(_) => moves(before, after, next),
        Err(text) => stops(before, after, text),
    }
}

/// The current step failed. A rollback goes on behind an announcement that failed, as if it had
/// been made.
pub open spec fn fails(before: Rollback, after: Rollback, text: Seq<char>) -> bool {
    if before.step == Step::Announce {
        moves(before, after, before.next())
    } else {
        stops(before, after, text)
    }
}

/// Whether a stop is the one that the current step waits for.
pub open spec fn stops_for(r: Rollback, stop: Stop) -> bool {
    match r.step {
        Step::StopSystem => stop.which == Stopping::RecoveredSystem && stop.uid == r.source.uid
            && stop.config@ == r.source_config@,
        Step::StopDestination => stop.which == Stopping::Destination && stop.scope
            == r.destination.scope,
        _ => false,
    }
}

/// Whether a start is the one that the current step waits for.
pub open spec fn starts_for(r: Rollback, start: Start) -> bool {
    (r.step == Step::StartEarly || r.step == Step::StartSource) && start.restoring
        && start.selection == r.source && start.config@ == r.source_config@
}

/// Whether a policy that the services show is the one to restore.
pub open spec fn policy_of(
    shown: Result<Policy, Seq<char>>,
    wanted: Result<Policy, Seq<char>>,
    complaint: Seq<char>,
) -> Result<(), Seq<char>> {
    match (shown, wanted) {
        (Err(e), _) => Err(e),
        (_, Err(e)) => Err(e),
        (Ok(a), Ok(b)) => if a == b {
            Ok(())
        } else {
            Err(complaint)
        },
    }
}

/// The complaint when startup no longer is as it should be restored.
pub open spec fn startup_complaint(step: Step) -> Seq<char> {
    if step == Step::CompareEarlyPolicy || step == Step::CompareEarlySelection {
        "The previous daemon restarted before its startup policy was restored"@
    } else {
        "Startup selection changed before source restart. Preserve the journal and recheck recovery"@
    }
}

/// What an inspection of a recovered system service must show: a readable startup policy, and an
/// idle user service.
pub open spec fn recovered_of(report: ServiceReport, startup: Result<Policy, Seq<char>>) -> Result<
    (),
    Seq<char>,
> {
    match (startup, unit_of(report, ServiceScope::User)) {
        (Err(e), _) => Err(e),
        (_, Err(e)) => Err(e),
        (Ok(_), Ok(user)) => if is_idle(user) {
            Ok(())
        } else {
            Err(
                "Wait for the blocked user destination to become inactive before finishing recovery"@,
            )
        },
    }
}

fn entry_step(from: u8, phase: Phase, carry: bool) -> (r: Step)
    ensures
        r == entry(from as int, phase, carry),
{
    if from == 0 && phase == Phase::RestoringSystem {
        Step::ResumeSystem
    } else if from <= 1 && (phase == Phase::SystemRestored || phase
        == Phase::StoppingRecoveredSystem) {
        Step::InspectRecovered
    } else if phase == Phase::Preparing || phase == Phase::Ready {
        if carry {
            Step::DiscardTransfer
        } else {
            Step::RecordDiscarded
        }
    } else {
        Step::ReadRuntime
    }
}

fn stage_step(from: u8, phase: Phase) -> (r: Step)
    ensures
        r == stage(from as int, phase),
{
    if from == 0 && phase == Phase::StoppingDestination {
        Step::InspectDestination
    } else if from <= 1 && phase == Phase::RestoringDestination {
        Step::InspectRestoring
    } else if from <= 2 && phase == Phase::RestoringStartup {
        Step::InspectStartup
    } else if from <= 3 && phase == Phase::StartingSource {
        Step::CompareRuntime
    } else if from <= 4 && phase == Phase::VerifyingSource {
        Step::CompareRuntimeAgain
    } else {
        Step::Finished
    }
}

/// A step that succeeds keeps the log in order.
pub proof fn moving_keeps_order(r: Rollback, next: Step)
    requires
        r.wf(),
        next == r.next() || (r.step == Step::InspectStartup && next == Step::CompareEarlyPolicy),
        r.unknown_working(next) is None,
        r.step == Step::RecordStoppingDestination ==> restoring(r.phase),
    ensures
        r.moved(next).wf(),
{
    let m = r.moved(next);
    assert forall|i: int| 0 <= i < m.log@.len() implies #[trigger] ordered_at(m.log@, i) by {
        if i < r.log@.len() {
            assert(ordered_at(r.log@, i));
        }
    }
    assert(m.log@.last() == r.step);
}

/// A step that succeeds leaves nothing out.
proof fn moving_stays_thorough(r: Rollback, next: Step)
    requires
        r.wf(),
        r.leads(next),
    ensures
        r.moved(next).thorough(),
{
    crate::steps::push_holds(r.log@, r.step);
}

fn restoring_phase(phase: Phase) -> (r: bool)
    ensures
        r == restoring(phase),
{
    phase == Phase::StoppingDestination || phase == Phase::RestoringDestination || phase
        == Phase::RestoringStartup || phase == Phase::StartingSource || phase
        == Phase::VerifyingSource
}

impl Rollback {
    fn following(&self) -> (r: Step)
        ensures
            r == self.next(),
    {
        match self.step {
            Step::ResumeSystem => entry_step(1, self.phase, self.carry),
            Step::InspectRecovered => Step::PreflightRecovery,
            Step::PreflightRecovery => Step::CheckSystemLaunch,
            Step::CheckSystemLaunch => if self.phase == Phase::SystemRestored {
                Step::RecordStoppingSystem
            } else {
                Step::PauseForSystem
            },
            Step::RecordStoppingSystem => Step::PauseForSystem,
            Step::PauseForSystem => Step::StopSystem,
            Step::StopSystem => Step::InspectSystemIdle,
            Step::InspectSystemIdle => Step::ReserveForSystem,
            Step::ReserveForSystem => Step::RecordSystemStopped,
            Step::RecordSystemStopped => entry_step(2, self.phase, self.carry),
            Step::DiscardTransfer => Step::RecordDiscarded,
            Step::RecordDiscarded => Step::Finished,
            Step::ReadRuntime => if restoring_phase(self.phase) {
                Step::Announce
            } else {
                Step::RecordStoppingDestination
            },
            Step::RecordStoppingDestination => Step::Announce,
            Step::Announce => stage_step(0, self.phase),
            Step::InspectDestination => Step::PauseLaunches,
            Step::PauseLaunches => Step::StopDestination,
            Step::StopDestination => Step::InspectStopped,
            Step::InspectStopped => Step::ReserveStopped,
            Step::ReserveStopped => Step::RestoreStopped,
            Step::RestoreStopped => stage_step(1, self.phase),
            Step::InspectRestoring => Step::ReserveRestoring,
            Step::ReserveRestoring => Step::RestoreRestoring,
            Step::RestoreRestoring => stage_step(2, self.phase),
            Step::InspectStartup => Step::InspectUnselected,
            Step::CompareEarlyPolicy => Step::CompareEarlySelection,
            Step::CompareEarlySelection => Step::CheckEarlyLaunch,
            Step::CheckEarlyLaunch => Step::StartEarly,
            Step::StartEarly => Step::RecordStartingSource,
            Step::InspectUnselected => Step::ReserveUnselected,
            Step::ReserveUnselected => Step::CheckUnselectedLaunch,
            Step::CheckUnselectedLaunch => Step::RestoreSelection,
            Step::RestoreSelection => Step::RecordStartingSource,
            Step::RecordStartingSource => stage_step(3, self.phase),
            Step::CompareRuntime => Step::ComparePolicy,
            Step::ComparePolicy => Step::CompareSelection,
            Step::CompareSelection => if self.should_run {
                Step::StartSource
            } else {
                Step::InspectUnstarted
            },
            Step::StartSource => Step::RecordVerifyingSource,
            Step::InspectUnstarted => Step::ReserveUnstarted,
            Step::ReserveUnstarted => Step::RecordVerifyingSource,
            Step::RecordVerifyingSource => stage_step(4, self.phase),
            Step::CompareRuntimeAgain => if self.should_run {
                Step::InspectSource
            } else {
                Step::InspectUnverified
            },
            Step::InspectSource => Step::ProbeSource,
            Step::ProbeSource => Step::RecordRolledBack,
            Step::InspectUnverified => Step::ReserveUnverified,
            Step::ReserveUnverified => Step::RecordRolledBack,
            Step::RecordRolledBack => Step::Finished,
            Step::Finished => Step::Finished,
            Step::Failed => Step::Failed,
        }
    }

    /// Begins the rollback of a switch that its journal left in a phase.
    pub fn begin(
        phase: Phase,
        source: ServiceSelection,
        destination: ServiceSelection,
        source_config: String,
        source_working: Option<String>,
        carry: bool,
        previous: Option<ServiceSelection>,
        lock: FileIdentity,
    ) -> (r: Rollback)
        ensures
            r.wf(),
            r.step == entry(0, phase, carry),
            r.begun == phase,
            r.phase == phase,
            r.source == source,
            r.destination == destination,
            r.source_config == source_config,
            r.source_working == source_working,
            r.carry == carry,
            r.previous == previous,
            r.lock == lock,
            r.log@ == Seq::<Step>::empty(),
            r.runtime is None,
            !r.should_run,
            r.thorough(),
    {
        Rollback {
            source,
            destination,
            source_config,
            source_working,
            carry,
            previous,
            lock,
            begun: phase,
            phase,
            runtime: None,
            should_run: false,
            step: entry_step(0, phase, carry),
            error: String::new(),
            log: Ghost(Seq::empty()),
        }
    }

    fn stop(&mut self, error: String)
        requires
            old(self).wf(),
        ensures
            stops(*old(self), *final(self), error@),
            final(self).wf(),
            final(self).thorough(),
    {
        self.error = error;
        self.step = Step::Failed;
    }

    /// The current step failed. An announcement that failed must not prevent the restoration. A
    /// stop and a start fail as `stopped` and `started` say.
    pub fn failed(&mut self, error: String)
        requires
            old(self).wf(),
            !waits(old(self).step),
        ensures
            fails(*old(self), *final(self), error@),
            final(self).wf(),
            old(self).thorough() ==> final(self).thorough(),
    {
        if self.step == Step::Announce {
            let next = self.following();
            self.proceed(next);
        } else {
            self.stop(error);
        }
    }

    /// `StopSystem` and `StopDestination`: a stop that came to its end.
    pub fn stopped(&mut self, stop: &Stop)
        requires
            old(self).wf(),
            stop.wf(),
            stops_for(*old(self), *stop),
            stop.step == StopStep::Stopped || stop.step == StopStep::Failed,
        ensures
            if stop.step == StopStep::Stopped {
                moves(*old(self), *final(self), old(self).next())
            } else {
                stops(*old(self), *final(self), stop.error@)
            },
            final(self).wf(),
            old(self).thorough() ==> final(self).thorough(),
    {
        if stop.step == StopStep::Stopped {
            let next = self.following();
            self.proceed(next);
        } else {
            self.stop(stop.error.clone());
        }
    }

    /// `StartEarly` and `StartSource`: a start that came to its end.
    pub fn started(&mut self, start: &Start)
        requires
            old(self).wf(),
            start.wf(),
            starts_for(*old(self), *start),
            start.step == StartStep::Started || start.step == StartStep::Failed,
        ensures
            if start.step == StartStep::Started {
                moves(*old(self), *final(self), old(self).next())
            } else {
                stops(*old(self), *final(self), start.error@)
            },
            final(self).wf(),
            old(self).thorough() ==> final(self).thorough(),
    {
        if start.step == StartStep::Started {
            let next = self.following();
            self.proceed(next);
        } else {
            self.stop(start.error.clone());
        }
    }

    /// Ends the current step with success.
    fn proceed(&mut self, next: Step)
        requires
            old(self).wf(),
            next == old(self).next() || (old(self).step == Step::InspectStartup && next
                == Step::CompareEarlyPolicy),
            old(self).step == Step::RecordStoppingDestination ==> restoring(old(self).phase),
        ensures
            moves(*old(self), *final(self), next),
            final(self).wf(),
            old(self).leads(next) ==> final(self).thorough(),
    {
        if self.source_working.is_none() {
            if next == Step::CheckSystemLaunch {
                self.stop("The original system working directory is unknown".to_owned());
                return;
            }
            if next == Step::CheckEarlyLaunch || next == Step::CheckUnselectedLaunch {
                self.stop(
                    "The original working directory is unknown. Preserve the journal for manual recovery".to_owned(),
                );
                return;
            }
        }
        proof {
            moving_keeps_order(*self, next);
            if self.leads(next) {
                moving_stays_thorough(*self, next);
            }
        }
        self.log = Ghost(self.log@.push(self.step));
        self.step = next;
    }

    fn settle(&mut self, check: Result<(), String>)
        requires
            old(self).wf(),
            old(self).step != Step::RecordStoppingDestination,
        ensures
            follows(*old(self), *final(self), old(self).next(), outcome(check)),
            final(self).wf(),
            old(self).thorough() && rank(old(self).step) < rank(Step::Finished) && recorded_phase(
                old(self).step,
            ) is None && !journals(old(self).step) ==> final(self).thorough(),
    {
        match check {
            Ok(()) => {
                let next = self.following();
                self.proceed(next);
            },
            Err(e) => self.stop(e),
        }
    }

    /// A step without a reply of its own succeeded.
    pub fn done(&mut self)
        requires
            old(self).wf(),
            plain(old(self).step),
        ensures
            moves(*old(self), *final(self), old(self).next()),
            final(self).wf(),
            old(self).thorough() ==> final(self).thorough(),
    {
        let next = self.following();
        self.proceed(next);
    }

    /// A step wrote its phase to the journal.
    pub fn recorded(&mut self)
        requires
            old(self).wf(),
            recorded_phase(old(self).step) is Some,
        ensures
            moves(old(self).noted(), *final(self), old(self).noted().next()),
            final(self).wf(),
            old(self).thorough() ==> final(self).thorough(),
    {
        self.phase = match phase_to_record(self.step) {
            Some(phase) => phase,
            None => self.phase,
        };
        let next = self.following();
        self.proceed(next);
    }

    /// `ResumeSystem`, `RecordSystemStopped`, `RestoreStopped` and `RestoreRestoring` succeeded, and
    /// the journal then says `phase`.
    pub fn journaled(&mut self, phase: Phase)
        requires
            old(self).wf(),
            journals(old(self).step),
        ensures
            moves(
                (Rollback { phase, ..*old(self) }),
                *final(self),
                (Rollback { phase, ..*old(self) }).next(),
            ),
            final(self).wf(),
            old(self).thorough() && tells(old(self).step, phase) ==> final(self).thorough(),
    {
        self.phase = phase;
        let next = self.following();
        self.proceed(next);
    }

    /// `InspectRecovered`: the services and the startup policy that they show.
    pub fn recovered_report(&mut self, report: &ServiceReport, startup: Result<Policy, String>)
        requires
            old(self).wf(),
            old(self).step == Step::InspectRecovered,
        ensures
            follows(
                *old(self),
                *final(self),
                Step::PreflightRecovery,
                recovered_of(*report, outcome(startup)),
            ),
            final(self).wf(),
            old(self).thorough() ==> final(self).thorough(),
    {
        let check = match startup {
            Err(e) => Err(e),
            Ok(_) => match unit(report, ServiceScope::User) {
                Err(e) => Err(e),
                Ok(user) => if idle(user) {
                    Ok(())
                } else {
                    Err(
                        "Wait for the blocked user destination to become inactive before finishing recovery".to_owned(),
                    )
                },
            },
        };
        self.settle(check);
    }

    /// `CheckSystemLaunch`, `CheckEarlyLaunch` and `CheckUnselectedLaunch`: the paths that a fresh
    /// preflight of the source gives.
    pub fn launch(&mut self, config: &str, working: &str)
        requires
            old(self).wf(),
            old(self).step == Step::CheckSystemLaunch || old(self).step == Step::CheckEarlyLaunch
                || old(self).step == Step::CheckUnselectedLaunch,
        ensures
            follows(
                *old(self),
                *final(self),
                old(self).next(),
                launch_of(
                    config@,
                    working@,
                    old(self).source_config@,
                    optional(old(self).source_working)->0,
                ),
            ),
            final(self).wf(),
            old(self).thorough() ==> final(self).thorough(),
    {
        let check = match &self.source_working {
            Some(expected) => check_launch(
                config,
                working,
                self.source_config.as_str(),
                expected.as_str(),
            ),
            None => Err(String::new()),
        };
        self.settle(check);
    }

    /// An inspection in which both services must be idle and the lock free.
    pub fn idle_report(&mut self, report: &ServiceReport)
        requires
            old(self).wf(),
            wants_idle(old(self).step),
        ensures
            follows(
                *old(self),
                *final(self),
                old(self).next(),
                reserve_of(*report, old(self).lock@),
            ),
            final(self).wf(),
            old(self).thorough() ==> final(self).thorough(),
    {
        let check = reserve(report, &self.lock);
        self.settle(check);
    }

    /// `ReadRuntime`: the user's runtime directory now, and whether the source is to run again.
    pub fn runtime(&mut self, identity: Option<FileIdentity>, should_run: bool)
        requires
            old(self).wf(),
            old(self).step == Step::ReadRuntime,
        ensures
            moves(
                (Rollback { runtime: identity, should_run, ..*old(self) }),
                *final(self),
                old(self).next(),
            ),
            final(self).wf(),
            old(self).thorough() ==> final(self).thorough(),
    {
        let next = self.following();
        self.runtime = identity;
        self.should_run = should_run;
        self.proceed(next);
    }

    /// `InspectDestination`: the services, where the destination's state must be known.
    pub fn destination_report(&mut self, report: &ServiceReport)
        requires
            old(self).wf(),
            old(self).step == Step::InspectDestination,
        ensures
            follows(
                *old(self),
                *final(self),
                Step::PauseLaunches,
                unit_of(*report, old(self).destination.scope),
            ),
            final(self).wf(),
            old(self).thorough() ==> final(self).thorough(),
    {
        let check = match unit(report, self.destination.scope) {
            Ok(_) => Ok(()),
            Err(e) => Err(e),
        };
        self.settle(check);
    }

    /// `InspectStartup`: the services before startup is restored. A source that should run may
    /// already be on its way.
    pub fn startup_report(&mut self, report: &ServiceReport)
        requires
            old(self).wf(),
            old(self).step == Step::InspectStartup,
        ensures
            if !old(self).should_run {
                moves(*old(self), *final(self), Step::InspectUnselected)
            } else {
                match unit_of(*report, old(self).source.scope) {
                    Err(e) => stops(*old(self), *final(self), e),
                    Ok(source) => moves(
                        *old(self),
                        *final(self),
                        if is_idle(source) {
                            Step::InspectUnselected
                        } else {
                            Step::CompareEarlyPolicy
                        },
                    ),
                }
            },
            final(self).wf(),
            old(self).thorough() ==> final(self).thorough(),
    {
        if !self.should_run {
            self.proceed(Step::InspectUnselected);
            return;
        }
        match unit(report, self.source.scope) {
            Err(e) => self.stop(e),
            Ok(source) => if idle(source) {
                self.proceed(Step::InspectUnselected)
            } else {
                self.proceed(Step::CompareEarlyPolicy)
            },
        }
    }

    /// `CompareEarlyPolicy` and `ComparePolicy`: the policy that the services show, and the one
    /// that the journal wants restored.
    pub fn policy(&mut self, shown: Result<Policy, String>, wanted: Result<Policy, String>)
        requires
            old(self).wf(),
            old(self).step == Step::CompareEarlyPolicy || old(self).step == Step::ComparePolicy,
        ensures
            follows(
                *old(self),
                *final(self),
                old(self).next(),
                policy_of(outcome(shown), outcome(wanted), startup_complaint(old(self).step)),
            ),
            final(self).wf(),
            old(self).thorough() ==> final(self).thorough(),
    {
        let check = match shown {
            Err(e) => Err(e),
            Ok(a) => match wanted {
                Err(e) => Err(e),
                Ok(b) => if a == b {
                    Ok(())
                } else {
                    Err(self.complaint())
                },
            },
        };
        self.settle(check);
    }

    fn complaint(&self) -> (r: String)
        ensures
            r@ == startup_complaint(self.step),
    {
        if self.step == Step::CompareEarlyPolicy || self.step == Step::CompareEarlySelection {
            "The previous daemon restarted before its startup policy was restored".to_owned()
        } else {
            "Startup selection changed before source restart. Preserve the journal and recheck recovery".to_owned()
        }
    }

    /// `CompareEarlySelection` and `CompareSelection`: the service that the host selects.
    pub fn selection(&mut self, found: Option<ServiceSelection>)
        requires
            old(self).wf(),
            old(self).step == Step::CompareEarlySelection || old(self).step
                == Step::CompareSelection,
        ensures
            follows(
                *old(self),
                *final(self),
                old(self).next(),
                if found == old(self).previous {
                    Ok(())
                } else {
                    Err(startup_complaint(old(self).step))
                },
            ),
            final(self).wf(),
            old(self).thorough() ==> final(self).thorough(),
    {
        let same = match (found, self.previous) {
            (Some(a), Some(b)) => a == b,
            (None, None) => true,
            _ => false,
        };
        let check = if same {
            Ok(())
        } else {
            Err(self.complaint())
        };
        self.settle(check);
    }

    /// `CompareRuntime` and `CompareRuntimeAgain`: the user's runtime directory, which must be the
    /// one that the rollback began with.
    pub fn same_runtime(&mut self, identity: &Option<FileIdentity>)
        requires
            old(self).wf(),
            old(self).step == Step::CompareRuntime || old(self).step == Step::CompareRuntimeAgain,
        ensures
            follows(
                *old(self),
                *final(self),
                old(self).next(),
                if optional_identity(*identity) == optional_identity(old(self).runtime) {
                    Ok(())
                } else if old(self).step == Step::CompareRuntime {
                    Err(
                        "The user runtime changed during restoration. Resume recovery in the current session"@,
                    )
                } else {
                    Err(
                        "The user runtime changed during source startup. Preserve the journal and recheck recovery"@,
                    )
                },
            ),
            final(self).wf(),
            old(self).thorough() ==> final(self).thorough(),
    {
        let check = if same_optional_identity(identity, &self.runtime) {
            Ok(())
        } else if self.step == Step::CompareRuntime {
            Err(
                "The user runtime changed during restoration. Resume recovery in the current session".to_owned(),
            )
        } else {
            Err(
                "The user runtime changed during source startup. Preserve the journal and recheck recovery".to_owned(),
            )
        };
        self.settle(check);
    }

    /// `InspectSource`: the services, where the source must be running alone.
    pub fn source_report(&mut self, report: &ServiceReport)
        requires
            old(self).wf(),
            old(self).step == Step::InspectSource,
        ensures
            follows(
                *old(self),
                *final(self),
                Step::ProbeSource,
                running_of(*report, old(self).source.scope, old(self).source.uid),
            ),
            final(self).wf(),
            old(self).thorough() ==> final(self).thorough(),
    {
        let check = match verify_running(report, self.source.scope, self.source.uid) {
            Ok(_) => Ok(()),
            Err(e) => Err(e),
        };
        self.settle(check);
    }

    /// `ProbeSource`: what the source reports of itself.
    pub fn source_daemon(&mut self, info: &DaemonInfo, gate: &str)
        requires
            old(self).wf(),
            old(self).step == Step::ProbeSource,
        ensures
            follows(
                *old(self),
                *final(self),
                Step::RecordRolledBack,
                answer_of(*info, old(self).source_config@, gate@),
            ),
            final(self).wf(),
            old(self).thorough() ==> final(self).thorough(),
    {
        let check = verify_daemon(info, self.source_config.as_str(), gate);
        self.settle(check);
    }
}

/// Settings are restored only right after both services were seen idle and the hardware was
/// reserved.
pub proof fn settings_are_restored_under_reservation(r: Rollback)
    requires
        r.wf(),
        r.step == Step::RestoreStopped || r.step == Step::RestoreRestoring || r.step
            == Step::RecordSystemStopped,
    ensures
        r.log@.len() >= 2,
        r.step == Step::RestoreStopped ==> r.log@[r.log@.len() - 1] == Step::ReserveStopped
            && r.log@[r.log@.len() - 2] == Step::InspectStopped,
        r.step == Step::RestoreRestoring ==> r.log@[r.log@.len() - 1] == Step::ReserveRestoring
            && r.log@[r.log@.len() - 2] == Step::InspectRestoring,
        r.step == Step::RecordSystemStopped ==> r.log@[r.log@.len() - 1] == Step::ReserveForSystem
            && r.log@[r.log@.len() - 2] == Step::InspectSystemIdle,
{
    assert(ordered_at(r.log@, r.log@.len() - 1));
}

/// The source is started again only right after the session, the startup policy and the selection
/// were found as they should be restored.
pub proof fn source_starts_only_as_it_was(r: Rollback)
    requires
        r.wf(),
        r.step == Step::StartSource,
    ensures
        r.log@.len() >= 3,
        r.log@[r.log@.len() - 1] == Step::CompareSelection,
        r.log@[r.log@.len() - 2] == Step::ComparePolicy,
        r.log@[r.log@.len() - 3] == Step::CompareRuntime,
{
    assert(ordered_at(r.log@, r.log@.len() - 1));
    assert(ordered_at(r.log@, r.log@.len() - 2));
}

/// The destination is stopped only after its state was read and competing launches were paused.
pub proof fn destination_stops_only_when_launches_are_paused(r: Rollback)
    requires
        r.wf(),
        r.step == Step::StopDestination,
    ensures
        r.log@.len() >= 2,
        r.log@[r.log@.len() - 1] == Step::PauseLaunches,
        r.log@[r.log@.len() - 2] == Step::InspectDestination,
{
    assert(ordered_at(r.log@, r.log@.len() - 1));
}

/// No rollback ends because of an announcement: one that failed leaves the rollback where one that
/// was made leaves it, and the actions that stop and start services do not learn of theirs.
pub proof fn announcements_never_end_a_rollback(
    before: Rollback,
    failed: Rollback,
    done: Rollback,
    text: Seq<char>,
    start: Start,
    result: Result<(), Seq<char>>,
)
    requires
        before.step == Step::Announce,
        fails(before, failed, text),
        moves(before, done, before.next()),
        start.restoring,
    ensures
        failed == done,
        failed == before.moved(before.next()),
        failed.step != Step::Failed,
        start_announced(start, result) == Ok::<(), Seq<char>>(()),
{
}

/// Every step that succeeds brings a rollback closer to its end.
pub proof fn rollbacks_end(r: Rollback, next: Step)
    requires
        rank(r.step) < rank(Step::Finished),
        next == r.next() || (r.step == Step::InspectStartup && next == Step::CompareEarlyPolicy),
    ensures
        rank(r.step) < rank(next) <= rank(Step::Finished),
{
}

/// A switch that failed before its source was stopped is rolled back by discarding what was
/// prepared, and by nothing else.
pub proof fn early_failures_discard_only(r: Rollback)
    requires
        r.step == entry(0, r.phase, r.carry),
        r.phase == Phase::Preparing || r.phase == Phase::Ready,
    ensures
        r.carry ==> r.step == Step::DiscardTransfer && r.moved(r.next()).step
            == Step::RecordDiscarded,
        !r.carry ==> r.step == Step::RecordDiscarded,
        forall|d: Rollback| d.step == Step::RecordDiscarded ==> #[trigger] d.next() == Step::Finished,
{
}

/// Where the journal says after a restoration that it goes on with it, a rollback finishes only
/// behind a record that the switch was rolled back.
pub proof fn rollbacks_finish_with_the_record(r: Rollback)
    requires
        r.wf(),
        rank(r.step) < rank(Step::Finished),
        r.next() == Step::Finished,
        recorded_phase(r.step) is Some ==> r == r.noted(),
        r.step == Step::RestoreStopped ==> r.phase == Phase::RestoringDestination || r.phase
            == Phase::RestoringStartup,
        r.step == Step::RestoreRestoring ==> r.phase == Phase::RestoringStartup,
    ensures
        r.step == Step::RecordRolledBack || r.step == Step::RecordDiscarded,
        recorded_phase(r.step) == Some(Phase::RolledBack),
        r.phase == Phase::RolledBack,
{
}

/// Whether the user's runtime directory is still the one that was there when recovery began, asked
/// while a start is waited for.
pub fn check_recovery_runtime(now: &Option<FileIdentity>, expected: &Option<FileIdentity>) -> (r: Result<
    (),
    String,
>)
    ensures
        outcome(r) == if optional_identity(*now) == optional_identity(*expected) {
            Ok(())
        } else {
            Err(
                "The user runtime changed while waiting for startup. Resume recovery in the current session"@,
            )
        },
{
    if same_optional_identity(now, expected) {
        Ok(())
    } else {
        Err(
            "The user runtime changed while waiting for startup. Resume recovery in the current session".to_owned(),
        )
    }
}

/// A rollback only ever discards what was prepared where the source was not stopped yet: in all other
/// phases it goes on to restore. A service that recovery brought up by itself is taken down first.
pub proof fn only_unstopped_switches_are_discarded(phase: Phase, carry: bool)
    ensures
        ({
            let first = entry(0, phase, carry);
            let discards = first == Step::DiscardTransfer || first == Step::RecordDiscarded;
            &&& discards <==> phase == Phase::Preparing || phase == Phase::Ready
            &&& discards ==> (first == Step::DiscardTransfer <==> carry)
            &&& first == Step::ResumeSystem <==> phase == Phase::RestoringSystem
            &&& first == Step::InspectRecovered <==> phase == Phase::SystemRestored || phase
                == Phase::StoppingRecoveredSystem
            &&& first == Step::ReadRuntime || discards || first == Step::ResumeSystem || first
                == Step::InspectRecovered
        }),
{
}

/// A rollback that finishes has restored all that the switch may have changed by the phase in which
/// the rollback found it. Where the source may have been stopped, the destination was stopped, its
/// settings were restored, startup and selection were restored, the source was started again if it
/// is to run and was verified, and only behind all that the switch was recorded as rolled back. What
/// an earlier attempt at the restoration recorded as done may be left out. Where the source was not
/// stopped yet, nothing but the preparation was undone.
pub proof fn finished_rollbacks_restored_the_source(r: Rollback)
    requires
        r.wf(),
        r.thorough(),
        r.step == Step::Finished,
    ensures
        r.phase == Phase::RolledBack,
        ({
            let unstopped = r.begun == Phase::Preparing || r.begun == Phase::Ready;
            let recovered = r.begun == Phase::RestoringSystem || r.begun == Phase::SystemRestored
                || r.begun == Phase::StoppingRecoveredSystem;
            let verifying = r.begun == Phase::VerifyingSource;
            let starting = verifying || r.begun == Phase::StartingSource;
            let reselecting = starting || r.begun == Phase::RestoringStartup;
            let resettling = reselecting || r.begun == Phase::RestoringDestination;
            &&& unstopped ==> r.log@ =~= (if r.carry {
                seq![Step::DiscardTransfer, Step::RecordDiscarded]
            } else {
                seq![Step::RecordDiscarded]
            })
            &&& !unstopped ==> r.log@.last() == Step::RecordRolledBack && r.log@.contains(
                if r.should_run {
                    Step::ProbeSource
                } else {
                    Step::ReserveUnverified
                },
            )
            &&& recovered ==> r.log@.contains(Step::StopSystem)
            &&& !unstopped && !recovered && !verifying ==> r.log@.contains(
                if r.should_run {
                    Step::StartSource
                } else {
                    Step::ReserveUnstarted
                },
            )
            &&& !unstopped && !recovered && !starting ==> r.log@.contains(Step::RestoreSelection) || (
            r.should_run && r.log@.contains(Step::StartEarly) && r.log@.contains(
                Step::CompareEarlyPolicy,
            ) && r.log@.contains(Step::CompareEarlySelection))
            &&& !unstopped && !recovered && !reselecting ==> r.log@.contains(Step::RestoreStopped)
                || r.log@.contains(Step::RestoreRestoring)
            &&& !unstopped && !recovered && !resettling ==> r.log@.contains(Step::StopDestination)
        }),
{
    if r.log@.contains(Step::StartEarly) {
        let i = r.log@.index_of(Step::StartEarly);
        assert(ordered_at(r.log@, i));
        assert(ordered_at(r.log@, i - 1));
        assert(ordered_at(r.log@, i - 2));
        assert(r.log@[i - 2] == Step::CompareEarlySelection);
        assert(r.log@[i - 3] == Step::CompareEarlyPolicy);
    }
}

/// What a rollback compares must be the same on both sides: it goes on where the two policies agree,
/// and only there.
pub proof fn policies_must_agree(
    shown: Result<Policy, Seq<char>>,
    wanted: Result<Policy, Seq<char>>,
    complaint: Seq<char>,
)
    ensures
        policy_of(shown, wanted, complaint) is Ok <==> shown is Ok && wanted is Ok
            && shown->Ok_0.user == wanted->Ok_0.user && shown->Ok_0.system == wanted->Ok_0.system,
{
}

/// A recovered system service is taken down only where its startup policy can be read and the user's
/// service has no process, and always there.
pub proof fn recovered_systems_wait_for_the_user_service(
    report: ServiceReport,
    startup: Result<Policy, Seq<char>>,
)
    ensures
        recovered_of(report, startup) is Ok <==> startup is Ok && report.user is Known
            && report.user->value.main_pid == 0 && (report.user->value.active_state@ == "inactive"@
            || report.user->value.active_state@ == "failed"@),
{
}

/// A rollback waits for its own services: the destination is stopped in its own mode, a recovered
/// system with the account and the configuration of the source, and only the source is started, with
/// its own configuration and so as not to be stopped by an announcement.
pub proof fn rollbacks_wait_for_their_own_services(r: Rollback, stop: Stop, start: Start)
    ensures
        stops_for(r, stop) && r.step == Step::StopDestination ==> stop.which == Stopping::Destination
            && stop.scope == r.destination.scope,
        stops_for(r, stop) && r.step == Step::StopSystem ==> stop.which == Stopping::RecoveredSystem
            && stop.uid == r.source.uid && stop.config@ == r.source_config@,
        stops_for(r, stop) ==> r.step == Step::StopDestination || r.step == Step::StopSystem,
        starts_for(r, start) <==> (r.step == Step::StartEarly || r.step == Step::StartSource)
            && start.restoring && start.selection.scope == r.source.scope && start.selection.uid
            == r.source.uid && start.config@ == r.source_config@,
{
}

/// The services must be off before the hardware is reserved, wherever it is: each reservation stands
/// right behind such a look.
pub proof fn reservations_follow_a_look(r: Rollback)
    requires
        r.wf(),
        r.step == Step::ReserveForSystem || r.step == Step::ReserveStopped || r.step
            == Step::ReserveRestoring || r.step == Step::ReserveUnselected || r.step
            == Step::ReserveUnstarted || r.step == Step::ReserveUnverified,
    ensures
        r.log@.len() > 0,
        wants_idle(r.log@.last()),
{
}

/// The phases that a rollback records are those that it reaches, and it records the switch as rolled
/// back only behind its last step or behind what was discarded.
pub proof fn rollbacks_record_what_they_reach(step: Step)
    ensures
        recorded_phase(step) == Some(Phase::RolledBack) <==> step == Step::RecordRolledBack || step
            == Step::RecordDiscarded,
        recorded_phase(step) == Some(Phase::StoppingDestination) <==> step
            == Step::RecordStoppingDestination,
        recorded_phase(step) == Some(Phase::StartingSource) <==> step == Step::RecordStartingSource,
        recorded_phase(step) == Some(Phase::VerifyingSource) <==> step == Step::RecordVerifyingSource,
        recorded_phase(step) == Some(Phase::StoppingRecoveredSystem) <==> step
            == Step::RecordStoppingSystem,
{
}

/// An interrupted restoration goes on at the stage that the journal recorded, and at no other.
pub proof fn restorations_go_on_where_they_were(phase: Phase)
    ensures
        stage(0, phase) == Step::InspectDestination <==> phase == Phase::StoppingDestination,
        stage(0, phase) == Step::InspectRestoring <==> phase == Phase::RestoringDestination,
        stage(0, phase) == Step::InspectStartup <==> phase == Phase::RestoringStartup,
        stage(0, phase) == Step::CompareRuntime <==> phase == Phase::StartingSource,
        stage(0, phase) == Step::CompareRuntimeAgain <==> phase == Phase::VerifyingSource,
        restoring(phase) <==> stage(0, phase) != Step::Finished,
{
}

} // verus!
