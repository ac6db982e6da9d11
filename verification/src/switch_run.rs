//! The order of a mode switch: what is done next, and what becomes of each reply.

use crate::account::{same_account, Account};
use crate::native_switch::{
    answer_of, check_launch, initial_of, initial_state, launch_of, other, ownership, ownership_of,
    reserve, reserve_of, running_of, verify_daemon, verify_running,
};
use crate::saved_state::Checked;
use crate::services::{
    copy_optional_identity, optional, optional_identity, same_optional_identity, DaemonInfo, FileIdentity,
    Policy, ServiceReport, ServiceScope, ServiceSelection, Startup,
};
use crate::switch_rollback;
use crate::switch_rollback::Rollback;
use crate::switch_wait::{Start, StartStep};
use crate::text;
use crate::text::outcome;
use vstd::prelude::*;

verus! {

/// How far a switch has come, as its journal records it.
#[derive(Clone, Copy, Debug, PartialEq, Eq, Structural)]
pub enum Phase {
    Preparing,
    Ready,
    StoppingSource,
    SourceStopped,
    Published,
    SelectingDestination,
    StartingDestination,
    VerifyingDestination,
    Complete,
    StoppingDestination,
    RestoringDestination,
    RestoringStartup,
    StartingSource,
    VerifyingSource,
    RolledBack,
    RestoringSystem,
    SystemRestored,
    StoppingRecoveredSystem,
}

/// What a switch does next.
#[derive(Clone, Copy, Debug, PartialEq, Eq, Structural)]
pub enum Step {
    LoadJournal,
    OpenBackend,
    AnnounceChecks,
    ReadRuntime,
    Inspect,
    ReadSelection,
    PreflightSource,
    PreflightDestination,
    AnnounceOldMedia,
    InspectSource,
    ProbeSource,
    CheckSource,
    CheckDestination,
    DrawIdentifier,
    CreateJournal,
    AnnouncePreparation,
    PrepareTransfer,
    RecordTransfer,
    RecheckSource,
    RecheckDestination,
    InspectAgain,
    RecordReady,
    RereadRuntime,
    RereadAccounts,
    CheckSourceLaunch,
    CheckDestinationLaunch,
    AnnounceStop,
    RecordStopping,
    PauseLaunches,
    StopSource,
    RecordStopped,
    InspectIdle,
    ReserveHardware,
    ConfirmSource,
    ConfirmDestination,
    AnnouncePublication,
    PublishTransfer,
    RecordPublished,
    RecordSelecting,
    ConfirmLaunch,
    SelectDestination,
    RecordStarting,
    ReleaseHardware,
    AnnounceStart,
    StartDestination,
    RecordVerifying,
    RecordInstance,
    RecordComplete,
    CleanUp,
    FinishJournal,
    Switched,
    RecordFailure,
    RollBack,
    CleanUpRestored,
    FinishRestored,
    Restored,
    RecordBothFailures,
    ResumeSystem,
    RecordDetail,
    Pending,
    Refused,
}

/// The place of a step in the order of a switch. Steps after `Switched` belong to no plan.
pub open spec fn rank(step: Step) -> int {
    match step {
        Step::LoadJournal => 0,
        Step::OpenBackend => 1,
        Step::AnnounceChecks => 2,
        Step::ReadRuntime => 3,
        Step::Inspect => 4,
        Step::ReadSelection => 5,
        Step::PreflightSource => 6,
        Step::PreflightDestination => 7,
        Step::AnnounceOldMedia => 8,
        Step::InspectSource => 9,
        Step::ProbeSource => 10,
        Step::CheckSource => 11,
        Step::CheckDestination => 12,
        Step::DrawIdentifier => 13,
        Step::CreateJournal => 14,
        Step::AnnouncePreparation => 15,
        Step::PrepareTransfer => 16,
        Step::RecordTransfer => 17,
        Step::RecheckSource => 18,
        Step::RecheckDestination => 19,
        Step::InspectAgain => 20,
        Step::RecordReady => 21,
        Step::RereadRuntime => 22,
        Step::RereadAccounts => 23,
        Step::CheckSourceLaunch => 24,
        Step::CheckDestinationLaunch => 25,
        Step::AnnounceStop => 26,
        Step::RecordStopping => 27,
        Step::PauseLaunches => 28,
        Step::StopSource => 29,
        Step::RecordStopped => 30,
        Step::InspectIdle => 31,
        Step::ReserveHardware => 32,
        Step::ConfirmSource => 33,
        Step::ConfirmDestination => 34,
        Step::AnnouncePublication => 35,
        Step::PublishTransfer => 36,
        Step::RecordPublished => 37,
        Step::RecordSelecting => 38,
        Step::ConfirmLaunch => 39,
        Step::SelectDestination => 40,
        Step::RecordStarting => 41,
        Step::ReleaseHardware => 42,
        Step::AnnounceStart => 43,
        Step::StartDestination => 44,
        Step::RecordVerifying => 45,
        Step::RecordInstance => 46,
        Step::RecordComplete => 47,
        Step::CleanUp => 48,
        Step::FinishJournal => 49,
        Step::Switched => 50,
        _ => 51,
    }
}

/// Whether a switch takes a step at all: the transfer belongs to switches that carry the settings,
/// the source is verified and stopped only where it runs.
pub open spec fn planned(step: Step, carry: bool, running: bool, old_media: bool) -> bool {
    match step {
        Step::AnnounceOldMedia => old_media,
        Step::InspectSource | Step::ProbeSource | Step::StopSource => running,
        Step::AnnouncePreparation
        | Step::PrepareTransfer
        | Step::RecordTransfer
        | Step::AnnouncePublication
        | Step::PublishTransfer => carry,
        Step::RecordPublished => !carry,
        _ => rank(step) <= 50,
    }
}

/// The step that follows a step that succeeded.
pub open spec fn following(step: Step, carry: bool, running: bool, old_media: bool) -> Step {
    match step {
        Step::LoadJournal => Step::OpenBackend,
        Step::OpenBackend => Step::AnnounceChecks,
        Step::AnnounceChecks => Step::ReadRuntime,
        Step::ReadRuntime => Step::Inspect,
        Step::Inspect => Step::ReadSelection,
        Step::ReadSelection => Step::PreflightSource,
        Step::PreflightSource => Step::PreflightDestination,
        Step::PreflightDestination => if old_media {
            Step::AnnounceOldMedia
        } else if running {
            Step::InspectSource
        } else {
            Step::CheckSource
        },
        Step::AnnounceOldMedia => if running {
            Step::InspectSource
        } else {
            Step::CheckSource
        },
        Step::InspectSource => Step::ProbeSource,
        Step::ProbeSource => Step::CheckSource,
        Step::CheckSource => Step::CheckDestination,
        Step::CheckDestination => Step::DrawIdentifier,
        Step::DrawIdentifier => Step::CreateJournal,
        Step::CreateJournal => if carry {
            Step::AnnouncePreparation
        } else {
            Step::RecheckSource
        },
        Step::AnnouncePreparation => Step::PrepareTransfer,
        Step::PrepareTransfer => Step::RecordTransfer,
        Step::RecordTransfer => Step::RecheckSource,
        Step::RecheckSource => Step::RecheckDestination,
        Step::RecheckDestination => Step::InspectAgain,
        Step::InspectAgain => Step::RecordReady,
        Step::RecordReady => Step::RereadRuntime,
        Step::RereadRuntime => Step::RereadAccounts,
        Step::RereadAccounts => Step::CheckSourceLaunch,
        Step::CheckSourceLaunch => Step::CheckDestinationLaunch,
        Step::CheckDestinationLaunch => Step::AnnounceStop,
        Step::AnnounceStop => Step::RecordStopping,
        Step::RecordStopping => Step::PauseLaunches,
        Step::PauseLaunches => if running {
            Step::StopSource
        } else {
            Step::RecordStopped
        },
        Step::StopSource => Step::RecordStopped,
        Step::RecordStopped => Step::InspectIdle,
        Step::InspectIdle => Step::ReserveHardware,
        Step::ReserveHardware => Step::ConfirmSource,
        Step::ConfirmSource => Step::ConfirmDestination,
        Step::ConfirmDestination => if carry {
            Step::AnnouncePublication
        } else {
            Step::RecordPublished
        },
        Step::AnnouncePublication => Step::PublishTransfer,
        Step::PublishTransfer => Step::RecordSelecting,
        Step::RecordPublished => Step::RecordSelecting,
        Step::RecordSelecting => Step::ConfirmLaunch,
        Step::ConfirmLaunch => Step::SelectDestination,
        Step::SelectDestination => Step::RecordStarting,
        Step::RecordStarting => Step::ReleaseHardware,
        Step::ReleaseHardware => Step::AnnounceStart,
        Step::AnnounceStart => Step::StartDestination,
        Step::StartDestination => Step::RecordVerifying,
        Step::RecordVerifying => Step::RecordInstance,
        Step::RecordInstance => Step::RecordComplete,
        Step::RecordComplete => Step::CleanUp,
        Step::CleanUp => Step::FinishJournal,
        Step::FinishJournal => Step::Switched,
        Step::RecordFailure => Step::RollBack,
        Step::RollBack => Step::CleanUpRestored,
        Step::CleanUpRestored => Step::FinishRestored,
        Step::FinishRestored => Step::Restored,
        Step::RecordDetail => Step::Pending,
        _ => step,
    }
}

/// A switch whose journal exists and whose result is still open: a failure now leads to recovery.
pub open spec fn journaled(step: Step) -> bool {
    rank(Step::CreateJournal) < rank(step) < rank(Step::CleanUp)
}

/// The steps during which the hardware is reserved.
pub open spec fn reserved(step: Step) -> bool {
    rank(Step::ReserveHardware) < rank(step) <= rank(Step::ReleaseHardware)
}

/// A mode switch under way: what was asked, what has been found out, and the next step.
pub struct Switch {
    pub destination: ServiceScope,
    pub carry: bool,
    pub source_uid: u32,
    pub destination_uid: u32,
    pub caller_name: String,
    /// Both accounts as they were at the beginning.
    pub caller: Account,
    pub system: Account,
    pub step: Step,
    pub running: bool,
    pub old_media: bool,
    pub source_saved: bool,
    pub startup: Option<Policy>,
    pub lock: Option<FileIdentity>,
    pub previous: Option<ServiceSelection>,
    pub runtime: Option<FileIdentity>,
    pub source_config: String,
    pub source_working: String,
    pub destination_config: String,
    pub destination_working: String,
    pub source_checked: Option<Checked>,
    pub destination_checked: Option<Checked>,
    pub identifier: String,
    pub instance: String,
    pub error: String,
    pub recovery: String,
    pub detail: String,
    /// The steps that succeeded, in order.
    pub log: Ghost<Seq<Step>>,
}

/// What a journal says of a switch from its beginning.
#[derive(Debug)]
pub struct Intent {
    pub id: String,
    pub caller_name: String,
    pub source: ServiceSelection,
    pub destination: ServiceSelection,
    pub source_config: String,
    pub destination_config: String,
    pub source_working_directory: Option<String>,
    pub destination_working_directory: Option<String>,
    pub source_was_running: bool,
    pub previous_selection: Option<ServiceSelection>,
    pub user_startup: Startup,
    pub system_startup: Startup,
    pub carry_settings: bool,
    pub user_runtime: Option<FileIdentity>,
}

/// The steps whose only reply is that they succeeded.
pub open spec fn plain(step: Step) -> bool {
    match step {
        Step::OpenBackend
        | Step::AnnounceChecks
        | Step::AnnounceOldMedia
        | Step::CreateJournal
        | Step::AnnouncePreparation
        | Step::PrepareTransfer
        | Step::RecordTransfer
        | Step::RecordReady
        | Step::AnnounceStop
        | Step::RecordStopping
        | Step::PauseLaunches
        | Step::StopSource
        | Step::RecordStopped
        | Step::ReserveHardware
        | Step::AnnouncePublication
        | Step::PublishTransfer
        | Step::RecordPublished
        | Step::RecordSelecting
        | Step::SelectDestination
        | Step::RecordStarting
        | Step::ReleaseHardware
        | Step::AnnounceStart
        | Step::RecordVerifying
        | Step::RecordInstance
        | Step::RecordComplete
        | Step::CleanUp
        | Step::FinishJournal
        | Step::RecordFailure
        | Step::CleanUpRestored
        | Step::FinishRestored
        | Step::RecordDetail => true,
        _ => false,
    }
}

/// The steps with which a switch ends.
pub open spec fn terminal(step: Step) -> bool {
    step == Step::Switched || step == Step::Restored || step == Step::Pending || step
        == Step::Refused
}

impl Switch {
    /// The next step after success.
    pub open spec fn next(self) -> Step {
        following(self.step, self.carry, self.running, self.old_media)
    }

    /// The machine after its step succeeded.
    pub open spec fn advanced(self) -> Switch {
        Switch { step: self.next(), log: Ghost(self.log@.push(self.step)), ..self }
    }

    /// Settings that were never saved cannot be carried.
    pub open spec fn unsaved(self) -> bool {
        self.next() == Step::CheckSource && self.carry && !self.source_saved
    }

    /// Where a failure of the current step leads.
    pub open spec fn after_failure(self) -> Step {
        if journaled(self.step) {
            Step::RecordFailure
        } else if self.step == Step::RollBack {
            Step::RecordBothFailures
        } else if self.step == Step::ResumeSystem {
            Step::RecordDetail
        } else {
            Step::Refused
        }
    }

    /// Whether every planned step before the current one succeeded, and nothing else did.
    pub open spec fn wf(self) -> bool {
        &&& rank(self.step) <= 50 ==> {
            &&& planned(self.step, self.carry, self.running, self.old_media)
            &&& forall|s: Step|
                #![trigger rank(s)]
                planned(s, self.carry, self.running, self.old_media) && rank(s) < rank(self.step)
                    ==> self.log@.contains(s)
            &&& forall|i: int|
                0 <= i < self.log@.len() ==> rank(#[trigger] self.log@[i]) < rank(self.step)
        }
        &&& rank(Step::Inspect) < rank(self.step) <= 50 ==> self.startup is Some && self.lock is Some
        &&& rank(Step::CheckSource) < rank(self.step) <= 50 ==> self.source_checked is Some
        &&& rank(Step::CheckDestination) < rank(self.step) <= 50 ==> self.destination_checked is Some
        &&& self.old_media ==> self.carry
        &&& rank(self.step) > 50 && self.step != Step::Refused ==> self.log@.contains(
            Step::CreateJournal,
        ) && self.startup is Some && self.lock is Some
    }

    /// The service that is switched from.
    pub open spec fn source_selection(self) -> ServiceSelection {
        ServiceSelection { scope: self.destination.other_spec(), uid: self.source_uid }
    }

    /// The service that is switched to.
    pub open spec fn destination_selection(self) -> ServiceSelection {
        ServiceSelection { scope: self.destination, uid: self.destination_uid }
    }
}

/// Whether a start is that of the switch's destination.
pub open spec fn starts_for(s: Switch, start: Start) -> bool {
    &&& !start.restoring
    &&& start.selection == s.destination_selection()
    &&& start.config@ == s.destination_config@
}

/// Whether a rollback undoes the switch.
pub open spec fn undoes(s: Switch, rollback: Rollback) -> bool {
    &&& rollback.source == s.source_selection()
    &&& rollback.destination == s.destination_selection()
    &&& rollback.source_config@ == s.source_config@
    &&& optional(rollback.source_working) == Some(s.source_working@)
    &&& rollback.carry == s.carry
    &&& rollback.previous == s.previous
    &&& s.lock is Some && rollback.lock@ == s.lock->0@
}

/// The current step failed with a text.
pub open spec fn stops(before: Switch, after: Switch, text: Seq<char>) -> bool {
    &&& after.step == before.after_failure()
    &&& if before.step == Step::RollBack {
        after == (Switch { step: after.step, recovery: after.recovery, ..before })
            && after.recovery@ == text
    } else if before.step == Step::ResumeSystem {
        after == (Switch { step: after.step, detail: after.detail, ..before }) && after.detail@
            == "System restoration is also pending: "@ + text
    } else {
        after == (Switch { step: after.step, error: after.error, ..before }) && after.error@ == text
    }
}

/// The current step succeeded; the next one begins, unless the settings to carry were never saved.
pub open spec fn advances(before: Switch, after: Switch) -> bool {
    if before.unsaved() {
        stops(before, after, "Save current settings before carrying them to another service account"@)
    } else {
        after == before.advanced()
    }
}

/// The current step succeeded or failed as a check says.
pub open spec fn follows<T>(before: Switch, after: Switch, check: Result<T, Seq<char>>) -> bool {
    match check {
        Ok(_) => advances(before, after),
        Err(text) => stops(before, after, text),
    }
}

fn following_step(step: Step, carry: bool, running: bool, old_media: bool) -> (r: Step)
    ensures
        r == following(step, carry, running, old_media),
{
    match step {
        Step::LoadJournal => Step::OpenBackend,
        Step::OpenBackend => Step::AnnounceChecks,
        Step::AnnounceChecks => Step::ReadRuntime,
        Step::ReadRuntime => Step::Inspect,
        Step::Inspect => Step::ReadSelection,
        Step::ReadSelection => Step::PreflightSource,
        Step::PreflightSource => Step::PreflightDestination,
        Step::PreflightDestination => if old_media {
            Step::AnnounceOldMedia
        } else if running {
            Step::InspectSource
        } else {
            Step::CheckSource
        },
        Step::AnnounceOldMedia => if running {
            Step::InspectSource
        } else {
            Step::CheckSource
        },
        Step::InspectSource => Step::ProbeSource,
        Step::ProbeSource => Step::CheckSource,
        Step::CheckSource => Step::CheckDestination,
        Step::CheckDestination => Step::DrawIdentifier,
        Step::DrawIdentifier => Step::CreateJournal,
        Step::CreateJournal => if carry {
            Step::AnnouncePreparation
        } else {
            Step::RecheckSource
        },
        Step::AnnouncePreparation => Step::PrepareTransfer,
        Step::PrepareTransfer => Step::RecordTransfer,
        Step::RecordTransfer => Step::RecheckSource,
        Step::RecheckSource => Step::RecheckDestination,
        Step::RecheckDestination => Step::InspectAgain,
        Step::InspectAgain => Step::RecordReady,
        Step::RecordReady => Step::RereadRuntime,
        Step::RereadRuntime => Step::RereadAccounts,
        Step::RereadAccounts => Step::CheckSourceLaunch,
        Step::CheckSourceLaunch => Step::CheckDestinationLaunch,
        Step::CheckDestinationLaunch => Step::AnnounceStop,
        Step::AnnounceStop => Step::RecordStopping,
        Step::RecordStopping => Step::PauseLaunches,
        Step::PauseLaunches => if running {
            Step::StopSource
        } else {
            Step::RecordStopped
        },
        Step::StopSource => Step::RecordStopped,
        Step::RecordStopped => Step::InspectIdle,
        Step::InspectIdle => Step::ReserveHardware,
        Step::ReserveHardware => Step::ConfirmSource,
        Step::ConfirmSource => Step::ConfirmDestination,
        Step::ConfirmDestination => if carry {
            Step::AnnouncePublication
        } else {
            Step::RecordPublished
        },
        Step::AnnouncePublication => Step::PublishTransfer,
        Step::PublishTransfer => Step::RecordSelecting,
        Step::RecordPublished => Step::RecordSelecting,
        Step::RecordSelecting => Step::ConfirmLaunch,
        Step::ConfirmLaunch => Step::SelectDestination,
        Step::SelectDestination => Step::RecordStarting,
        Step::RecordStarting => Step::ReleaseHardware,
        Step::ReleaseHardware => Step::AnnounceStart,
        Step::AnnounceStart => Step::StartDestination,
        Step::StartDestination => Step::RecordVerifying,
        Step::RecordVerifying => Step::RecordInstance,
        Step::RecordInstance => Step::RecordComplete,
        Step::RecordComplete => Step::CleanUp,
        Step::CleanUp => Step::FinishJournal,
        Step::FinishJournal => Step::Switched,
        Step::RecordFailure => Step::RollBack,
        Step::RollBack => Step::CleanUpRestored,
        Step::CleanUpRestored => Step::FinishRestored,
        Step::FinishRestored => Step::Restored,
        Step::RecordDetail => Step::Pending,
        _ => step,
    }
}

fn is_journaled(step: Step) -> (r: bool)
    ensures
        r == journaled(step),
{
    match step {
        Step::AnnouncePreparation
        | Step::PrepareTransfer
        | Step::RecordTransfer
        | Step::RecheckSource
        | Step::RecheckDestination
        | Step::InspectAgain
        | Step::RecordReady
        | Step::RereadRuntime
        | Step::RereadAccounts
        | Step::CheckSourceLaunch
        | Step::CheckDestinationLaunch
        | Step::AnnounceStop
        | Step::RecordStopping
        | Step::PauseLaunches
        | Step::StopSource
        | Step::RecordStopped
        | Step::InspectIdle
        | Step::ReserveHardware
        | Step::ConfirmSource
        | Step::ConfirmDestination
        | Step::AnnouncePublication
        | Step::PublishTransfer
        | Step::RecordPublished
        | Step::RecordSelecting
        | Step::ConfirmLaunch
        | Step::SelectDestination
        | Step::RecordStarting
        | Step::ReleaseHardware
        | Step::AnnounceStart
        | Step::StartDestination
        | Step::RecordVerifying
        | Step::RecordInstance
        | Step::RecordComplete => true,
        _ => false,
    }
}

/// A step that succeeds keeps the switch well-formed.
pub proof fn advancing_keeps_order(s: Switch)
    requires
        s.wf(),
        !terminal(s.step),
        s.step != Step::RecordBothFailures,
        s.step != Step::ResumeSystem,
        s.step == Step::Inspect ==> s.startup is Some && s.lock is Some,
        s.step == Step::CheckSource ==> s.source_checked is Some,
        s.step == Step::CheckDestination ==> s.destination_checked is Some,
    ensures
        s.advanced().wf(),
{
    let a = s.advanced();
    assert(a.log@[a.log@.len() - 1] == s.step);
    assert(a.log@.contains(s.step));
    assert forall|t: Step| s.log@.contains(t) implies a.log@.contains(t) by {
        let i = choose|i: int| 0 <= i < s.log@.len() && s.log@[i] == t;
        assert(a.log@[i] == t);
    }
    if rank(a.step) <= 50 {
        assert forall|t: Step|
            #![trigger rank(t)]
            planned(t, a.carry, a.running, a.old_media) && rank(t) < rank(
                a.step,
            ) implies a.log@.contains(t) by {
            if t != s.step {
                assert(rank(t) < rank(s.step));
            }
        }
    }
}

/// A step that fails keeps the switch well-formed.
pub proof fn stopping_keeps_order(before: Switch, after: Switch, text: Seq<char>)
    requires
        before.wf(),
        !terminal(before.step),
        stops(before, after, text),
    ensures
        after.wf(),
{
    if journaled(before.step) {
        assert(rank(Step::CreateJournal) < rank(before.step));
        assert(planned(Step::CreateJournal, before.carry, before.running, before.old_media));
    }
}

/// What a first inspection must show, and the lock that it names.
pub open spec fn began(s: Switch, report: ServiceReport, startup: Result<Policy, Seq<char>>) -> Result<
    (Policy, bool),
    Seq<char>,
> {
    initial_of(report, startup, s.destination, s.source_uid)
}

/// Whether the running source is the selected service.
pub open spec fn selection_of(s: Switch, selection: Option<ServiceSelection>) -> Result<
    (),
    Seq<char>,
> {
    let source = ServiceSelection { scope: s.destination.other_spec(), uid: s.source_uid };
    if !s.running || selection is None || selection == Some(source) {
        Ok(())
    } else {
        Err(
            "The running source conflicts with the selected host account. Resolve that selection before a recoverable switch"@,
        )
    }
}

/// Whether an inspection still shows what the first one did.
pub open spec fn unchanged(s: Switch, report: ServiceReport, startup: Result<Policy, Seq<char>>) -> Result<
    (),
    Seq<char>,
> {
    match initial_of(report, startup, s.destination, s.source_uid) {
        Err(e) => Err(e),
        Ok((policy, running)) => if Some(policy) == s.startup && running == s.running
            && ownership_of(report)->Ok_0.identity@ == s.lock->0@ {
            Ok(())
        } else {
            Err("Service ownership or startup selection changed during preparation"@)
        },
    }
}

/// Whether saved settings are still those that were checked first.
pub open spec fn same_state(expected: Checked, found: Checked) -> Result<(), Seq<char>> {
    if expected@ == found@ {
        Ok(())
    } else {
        Err(
            "Settings or media changed during switch preparation. Restore the previous mode and prepare again"@,
        )
    }
}

impl Switch {
    /// Ends the current step with success.
    fn proceed(&mut self)
        requires
            old(self).wf(),
            !terminal(old(self).step),
            old(self).step != Step::RecordBothFailures,
            old(self).step != Step::ResumeSystem,
            old(self).step == Step::Inspect ==> old(self).startup is Some && old(self).lock is Some,
            old(self).step == Step::CheckSource ==> old(self).source_checked is Some,
            old(self).step == Step::CheckDestination ==> old(self).destination_checked is Some,
        ensures
            advances(*old(self), *final(self)),
            final(self).wf(),
    {
        let next = following_step(self.step, self.carry, self.running, self.old_media);
        if next == Step::CheckSource && self.carry && !self.source_saved {
            self.stop(
                "Save current settings before carrying them to another service account".to_owned(),
            );
            return;
        }
        proof {
            advancing_keeps_order(*self);
        }
        self.log = Ghost(self.log@.push(self.step));
        self.step = next;
    }

    /// The current step failed. A start and a rollback fail as `started` and `rolled_back` say.
    pub fn failed(&mut self, error: String)
        requires
            old(self).wf(),
            !terminal(old(self).step),
            old(self).step != Step::StartDestination,
            old(self).step != Step::RollBack,
        ensures
            stops(*old(self), *final(self), error@),
            final(self).wf(),
    {
        self.stop(error);
    }

    fn stop(&mut self, error: String)
        requires
            old(self).wf(),
            !terminal(old(self).step),
        ensures
            stops(*old(self), *final(self), error@),
            final(self).wf(),
    {
        let ghost before = *self;
        let ghost text = error@;
        if is_journaled(self.step) {
            self.error = error;
            self.step = Step::RecordFailure;
        } else if self.step == Step::RollBack {
            self.recovery = error;
            self.step = Step::RecordBothFailures;
        } else if self.step == Step::ResumeSystem {
            let mut detail = "System restoration is also pending: ".to_owned();
            detail.append(error.as_str());
            self.detail = detail;
            self.step = Step::RecordDetail;
        } else {
            self.error = error;
            self.step = Step::Refused;
        }
        proof {
            stopping_keeps_order(before, *self, text);
        }
    }

    /// The current step succeeded or failed as a check says.
    fn settle(&mut self, check: Result<(), String>)
        requires
            old(self).wf(),
            !terminal(old(self).step),
            old(self).step != Step::RecordBothFailures,
            old(self).step != Step::ResumeSystem,
            old(self).step == Step::Inspect ==> old(self).startup is Some && old(self).lock is Some,
            old(self).step == Step::CheckSource ==> old(self).source_checked is Some,
            old(self).step == Step::CheckDestination ==> old(self).destination_checked is Some,
        ensures
            follows(*old(self), *final(self), outcome(check)),
            final(self).wf(),
    {
        match check {
            Ok(()) => self.proceed(),
            Err(e) => self.stop(e),
        }
    }

    /// A step without a reply of its own succeeded.
    pub fn done(&mut self)
        requires
            old(self).wf(),
            plain(old(self).step),
        ensures
            advances(*old(self), *final(self)),
            final(self).wf(),
    {
        self.proceed();
    }

    /// `LoadJournal`: whether an earlier switch is still pending.
    pub fn journal(&mut self, pending: bool)
        requires
            old(self).wf(),
            old(self).step == Step::LoadJournal,
        ensures
            follows(
                *old(self),
                *final(self),
                if pending {
                    Err::<(), Seq<char>>("Recover the pending switch before starting another"@)
                } else {
                    Ok(())
                },
            ),
            final(self).wf(),
    {
        if pending {
            self.failed("Recover the pending switch before starting another".to_owned());
        } else {
            self.proceed();
        }
    }

    /// `ReadRuntime`: the caller's private runtime directory.
    pub fn runtime(&mut self, identity: Option<FileIdentity>)
        requires
            old(self).wf(),
            old(self).step == Step::ReadRuntime,
        ensures
            match identity {
                Some(_) => advances((Switch { runtime: identity, ..*old(self) }), *final(self)),
                None => stops(
                    *old(self),
                    *final(self),
                    "Log in with a private user runtime directory before switching services"@,
                ),
            },
            final(self).wf(),
    {
        if identity.is_some() {
            self.runtime = identity;
            self.proceed();
        } else {
            self.failed(
                "Log in with a private user runtime directory before switching services".to_owned(),
            );
        }
    }

    /// `Inspect`: the services before the switch, with the startup policy that they show.
    pub fn inspected(&mut self, report: &ServiceReport, startup: Result<Policy, String>)
        requires
            old(self).wf(),
            old(self).step == Step::Inspect,
        ensures
            match began(*old(self), *report, outcome(startup)) {
                Ok((policy, running)) => advances(
                    (Switch {
                        startup: Some(policy),
                        running,
                        lock: Some(ownership_of(*report)->Ok_0.identity),
                        ..*old(self)
                    }),
                    *final(self),
                ),
                Err(text) => stops(*old(self), *final(self), text),
            },
            final(self).wf(),
    {
        match initial_state(report, startup, self.destination, self.source_uid) {
            Err(e) => self.failed(e),
            Ok((policy, running)) => {
                match ownership(report) {
                    Err(e) => {
                        assert(false);
                        self.failed(e)
                    },
                    Ok(owner) => {
                        let lock = owner.identity.copy();
                        self.startup = Some(policy);
                        self.running = running;
                        self.lock = Some(lock);
                        self.proceed();
                    },
                }
            },
        }
    }

    /// `ReadSelection`: the service that the host selects.
    pub fn selection(&mut self, selection: Option<ServiceSelection>)
        requires
            old(self).wf(),
            old(self).step == Step::ReadSelection,
        ensures
            match selection_of(*old(self), selection) {
                Ok(_) => advances((Switch { previous: selection, ..*old(self) }), *final(self)),
                Err(text) => stops(*old(self), *final(self), text),
            },
            final(self).wf(),
    {
        let source = ServiceSelection { scope: other(self.destination), uid: self.source_uid };
        let fits = match selection {
            None => true,
            Some(chosen) => !self.running || chosen == source,
        };
        if fits {
            self.previous = selection;
            self.proceed();
        } else {
            self.failed(
                "The running source conflicts with the selected host account. Resolve that selection before a recoverable switch".to_owned(),
            );
        }
    }

    /// `PreflightSource`: the source's paths, and whether it has saved settings.
    pub fn source(&mut self, config: String, working: String, saved: bool)
        requires
            old(self).wf(),
            old(self).step == Step::PreflightSource,
        ensures
            advances(
                (Switch {
                    source_config: config,
                    source_working: working,
                    source_saved: saved,
                    ..*old(self)
                }),
                *final(self),
            ),
            final(self).wf(),
    {
        self.source_config = config;
        self.source_working = working;
        self.source_saved = saved;
        self.proceed();
    }

    /// `PreflightDestination`: the destination's paths, and how many of its media are unavailable.
    pub fn target(&mut self, config: String, working: String, unavailable: u64)
        requires
            old(self).wf(),
            old(self).step == Step::PreflightDestination,
        ensures
            advances(
                (Switch {
                    destination_config: config,
                    destination_working: working,
                    old_media: old(self).carry && unavailable > 0,
                    ..*old(self)
                }),
                *final(self),
            ),
            final(self).wf(),
    {
        self.destination_config = config;
        self.destination_working = working;
        self.old_media = self.carry && unavailable > 0;
        self.proceed();
    }

    /// `InspectSource`: the services, where the source must be running alone.
    pub fn source_report(&mut self, report: &ServiceReport)
        requires
            old(self).wf(),
            old(self).step == Step::InspectSource,
        ensures
            follows(
                *old(self),
                *final(self),
                running_of(*report, old(self).destination.other_spec(), old(self).source_uid),
            ),
            final(self).wf(),
    {
        match verify_running(report, other(self.destination), self.source_uid) {
            Ok(_) => self.proceed(),
            Err(e) => self.failed(e),
        }
    }

    /// `ProbeSource`: what the running source reports of itself. The capability `gate` is the
    /// startup gate's.
    pub fn source_daemon(&mut self, info: &DaemonInfo, gate: &str)
        requires
            old(self).wf(),
            old(self).step == Step::ProbeSource,
        ensures
            follows(
                *old(self),
                *final(self),
                answer_of(*info, old(self).source_config@, gate@),
            ),
            final(self).wf(),
    {
        let check = verify_daemon(info, self.source_config.as_str(), gate);
        self.settle(check);
    }

    /// `CheckSource` and `CheckDestination`: the saved settings of an account.
    pub fn checked(&mut self, checked: Checked)
        requires
            old(self).wf(),
            old(self).step == Step::CheckSource || old(self).step == Step::CheckDestination,
        ensures
            advances(
                if old(self).step == Step::CheckSource {
                    Switch { source_checked: Some(checked), ..*old(self) }
                } else {
                    Switch { destination_checked: Some(checked), ..*old(self) }
                },
                *final(self),
            ),
            final(self).wf(),
    {
        if self.step == Step::CheckSource {
            self.source_checked = Some(checked);
        } else {
            self.destination_checked = Some(checked);
        }
        self.proceed();
    }

    /// `DrawIdentifier`: a fresh identifier for the switch.
    pub fn identify(&mut self, identifier: String)
        requires
            old(self).wf(),
            old(self).step == Step::DrawIdentifier,
        ensures
            advances((Switch { identifier, ..*old(self) }), *final(self)),
            final(self).wf(),
    {
        self.identifier = identifier;
        self.proceed();
    }

    /// `RecheckSource`, `RecheckDestination`, `ConfirmSource` and `ConfirmDestination`: the saved
    /// settings of an account, which must not have changed.
    pub fn rechecked(&mut self, found: &Checked)
        requires
            old(self).wf(),
            old(self).step == Step::RecheckSource || old(self).step == Step::ConfirmSource || old(
                self,
            ).step == Step::RecheckDestination || old(self).step == Step::ConfirmDestination,
        ensures
            follows(
                *old(self),
                *final(self),
                same_state(
                    if old(self).step == Step::RecheckSource || old(self).step
                        == Step::ConfirmSource {
                        old(self).source_checked->0
                    } else {
                        old(self).destination_checked->0
                    },
                    *found,
                ),
            ),
            final(self).wf(),
    {
        let expected = if self.step == Step::RecheckSource || self.step == Step::ConfirmSource {
            &self.source_checked
        } else {
            &self.destination_checked
        };
        let same = match expected {
            Some(expected) => expected.same(found),
            None => false,
        };
        if same {
            self.proceed();
        } else {
            self.failed(
                "Settings or media changed during switch preparation. Restore the previous mode and prepare again".to_owned(),
            );
        }
    }

    /// `InspectAgain`: the services after preparation, which must not have changed.
    pub fn reinspected(&mut self, report: &ServiceReport, startup: Result<Policy, String>)
        requires
            old(self).wf(),
            old(self).step == Step::InspectAgain,
        ensures
            follows(*old(self), *final(self), unchanged(*old(self), *report, outcome(startup))),
            final(self).wf(),
    {
        match initial_state(report, startup, self.destination, self.source_uid) {
            Err(e) => self.failed(e),
            Ok((policy, running)) => {
                let same_lock = match (ownership(report), &self.lock) {
                    (Ok(owner), Some(lock)) => owner.identity.same(lock),
                    _ => false,
                };
                let same_policy = match self.startup {
                    Some(before) => before == policy,
                    None => false,
                };
                if same_policy && running == self.running && same_lock {
                    self.proceed();
                } else {
                    self.failed(
                        "Service ownership or startup selection changed during preparation".to_owned(),
                    );
                }
            },
        }
    }

    /// `RereadRuntime`: the caller's runtime directory, which must be the same.
    pub fn runtime_again(&mut self, identity: &Option<FileIdentity>)
        requires
            old(self).wf(),
            old(self).step == Step::RereadRuntime,
        ensures
            follows(
                *old(self),
                *final(self),
                if optional_identity(*identity) == optional_identity(old(self).runtime) {
                    Ok(())
                } else {
                    Err(
                        "The desktop runtime changed during preparation. Prepare the switch again"@,
                    )
                },
            ),
            final(self).wf(),
    {
        if same_optional_identity(identity, &self.runtime) {
            self.proceed();
        } else {
            self.failed(
                "The desktop runtime changed during preparation. Prepare the switch again".to_owned(),
            );
        }
    }

    /// `RereadAccounts`: both accounts, which must be the same as at the beginning.
    pub fn accounts(&mut self, caller: &Account, system: &Account)
        requires
            old(self).wf(),
            old(self).step == Step::RereadAccounts,
        ensures
            follows(
                *old(self),
                *final(self),
                if same_account(*caller, old(self).caller) && same_account(
                    *system,
                    old(self).system,
                ) {
                    Ok(())
                } else {
                    Err("A service account changed during preparation. Prepare the switch again"@)
                },
            ),
            final(self).wf(),
    {
        if caller.same(&self.caller) && system.same(&self.system) {
            self.proceed();
        } else {
            self.failed(
                "A service account changed during preparation. Prepare the switch again".to_owned(),
            );
        }
    }

    /// `CheckSourceLaunch`, `CheckDestinationLaunch` and `ConfirmLaunch`: the paths that a fresh
    /// preflight of the account gives.
    pub fn launch(&mut self, config: &str, working: &str)
        requires
            old(self).wf(),
            old(self).step == Step::CheckSourceLaunch || old(self).step
                == Step::CheckDestinationLaunch || old(self).step == Step::ConfirmLaunch,
        ensures
            follows(
                *old(self),
                *final(self),
                if old(self).step == Step::CheckSourceLaunch {
                    launch_of(
                        config@,
                        working@,
                        old(self).source_config@,
                        old(self).source_working@,
                    )
                } else {
                    launch_of(
                        config@,
                        working@,
                        old(self).destination_config@,
                        old(self).destination_working@,
                    )
                },
            ),
            final(self).wf(),
    {
        let check = if self.step == Step::CheckSourceLaunch {
            check_launch(
                config,
                working,
                self.source_config.as_str(),
                self.source_working.as_str(),
            )
        } else {
            check_launch(
                config,
                working,
                self.destination_config.as_str(),
                self.destination_working.as_str(),
            )
        };
        self.settle(check);
    }

    /// `InspectIdle`: the services after the source was stopped.
    pub fn stopped(&mut self, report: &ServiceReport)
        requires
            old(self).wf(),
            old(self).step == Step::InspectIdle,
        ensures
            follows(*old(self), *final(self), reserve_of(*report, old(self).lock->0@)),
            final(self).wf(),
    {
        let check = match &self.lock {
            Some(lock) => reserve(report, lock),
            None => Err(String::new()),
        };
        self.settle(check);
    }

    /// `StartDestination`: the start of the destination, which came to its end.
    pub fn started(&mut self, start: &Start)
        requires
            old(self).wf(),
            old(self).step == Step::StartDestination,
            start.wf(),
            starts_for(*old(self), *start),
            start.step == StartStep::Started || start.step == StartStep::Failed,
        ensures
            if start.step == StartStep::Started {
                final(self).instance@ == start.instance@ && advances(
                    (Switch { instance: final(self).instance, ..*old(self) }),
                    *final(self),
                )
            } else {
                stops(*old(self), *final(self), start.error@)
            },
            final(self).wf(),
    {
        if start.step == StartStep::Started {
            self.instance = start.instance.clone();
            self.proceed();
        } else {
            self.stop(start.error.clone());
        }
    }

    /// `RollBack`: the rollback of the switch, as it begins from the phase that the journal holds.
    pub fn rollback(&self, phase: Phase) -> (r: Rollback)
        requires
            self.wf(),
            self.step == Step::RollBack,
        ensures
            r.wf(),
            undoes(*self, r),
            r.begun == phase,
            r.phase == phase,
            r.step == switch_rollback::entry(0, phase, self.carry),
            r.log@ == Seq::<switch_rollback::Step>::empty(),
            r.runtime is None,
            !r.should_run,
            r.thorough(),
    {
        let lock = match &self.lock {
            Some(lock) => lock.copy(),
            None => FileIdentity { device: String::new(), inode: String::new() },
        };
        Rollback::begin(
            phase,
            ServiceSelection { scope: other(self.destination), uid: self.source_uid },
            ServiceSelection { scope: self.destination, uid: self.destination_uid },
            self.source_config.clone(),
            Some(self.source_working.clone()),
            self.carry,
            self.previous,
            lock,
        )
    }

    /// `RollBack`: the rollback of the switch, which came to its end.
    pub fn rolled_back(&mut self, rollback: &Rollback)
        requires
            old(self).wf(),
            old(self).step == Step::RollBack,
            rollback.wf(),
            undoes(*old(self), *rollback),
            rollback.step == switch_rollback::Step::Finished || rollback.step
                == switch_rollback::Step::Failed,
        ensures
            if rollback.step == switch_rollback::Step::Finished {
                advances(*old(self), *final(self))
            } else {
                stops(*old(self), *final(self), rollback.error@)
            },
            final(self).wf(),
    {
        if rollback.step == switch_rollback::Step::Finished {
            self.proceed();
        } else {
            self.stop(rollback.error.clone());
        }
    }

    /// `RecordBothFailures`: whether the journal allows the system service to be restored alone.
    pub fn both_recorded(&mut self, eligible: bool)
        requires
            old(self).wf(),
            old(self).step == Step::RecordBothFailures,
        ensures
            if eligible {
                *final(self) == (Switch { step: Step::ResumeSystem, ..*old(self) })
            } else {
                *final(self) == (Switch {
                    step: Step::Pending,
                    detail: final(self).detail,
                    ..*old(self)
                }) && final(self).detail@ == "Recovery remains pending: "@ + old(self).recovery@
                    + ". Preserve the switch journal and recover before trying another switch"@
            },
            final(self).wf(),
    {
        if eligible {
            self.step = Step::ResumeSystem;
        } else {
            let mut detail = "Recovery remains pending: ".to_owned();
            detail.append(self.recovery.as_str());
            detail.append(
                ". Preserve the switch journal and recover before trying another switch",
            );
            self.detail = detail;
            self.step = Step::Pending;
        }
    }

    /// `ResumeSystem` succeeded.
    pub fn system_resumed(&mut self)
        requires
            old(self).wf(),
            old(self).step == Step::ResumeSystem,
        ensures
            *final(self) == (Switch {
                step: Step::RecordDetail,
                detail: final(self).detail,
                ..*old(self)
            }),
            final(self).detail@
                == "System startup restored. User settings recovery will resume when the session and home are available"@,
            final(self).wf(),
    {
        self.detail =
        "System startup restored. User settings recovery will resume when the session and home are available".to_owned();
        self.step = Step::RecordDetail;
    }
}

/// A switch that has not done anything yet.
pub open spec fn fresh(
    s: Switch,
    destination: ServiceScope,
    carry: bool,
    caller: Account,
    system: Account,
) -> bool {
    &&& s.wf()
    &&& s.step == Step::LoadJournal
    &&& s.log@ == Seq::<Step>::empty()
    &&& !s.running && !s.old_media && !s.source_saved
    &&& s.startup is None && s.lock is None && s.previous is None && s.runtime is None
    &&& s.source_checked is None && s.destination_checked is None
    &&& s.recovery@.len() == 0
    &&& s.destination == destination
    &&& s.carry == carry
    &&& s.caller == caller
    &&& s.system == system
    &&& s.caller_name@ == caller.name@
    &&& s.source_uid == (if destination == ServiceScope::User {
        system.uid
    } else {
        caller.uid
    })
    &&& s.destination_uid == (if destination == ServiceScope::User {
        caller.uid
    } else {
        system.uid
    })
}

/// Begins a switch to `destination` for a caller. The service operation lock is held from here on.
pub fn execute(
    native: bool,
    destination: ServiceScope,
    carry: bool,
    caller: Account,
    system: Account,
) -> (r: Result<Switch, String>)
    ensures
        match r {
            Ok(s) => native && fresh(s, destination, carry, caller, system),
            Err(e) => !native && e@ == "Automatic switching requires the native host application"@,
        },
{
    if !native {
        return Err("Automatic switching requires the native host application".to_owned());
    }
    let to_user = destination == ServiceScope::User;
    Ok(
        Switch {
            destination,
            carry,
            source_uid: if to_user {
                system.uid
            } else {
                caller.uid
            },
            destination_uid: if to_user {
                caller.uid
            } else {
                system.uid
            },
            caller_name: caller.name.clone(),
            caller,
            system,
            step: Step::LoadJournal,
            running: false,
            old_media: false,
            source_saved: false,
            startup: None,
            lock: None,
            previous: None,
            runtime: None,
            source_config: String::new(),
            source_working: String::new(),
            destination_config: String::new(),
            destination_working: String::new(),
            source_checked: None,
            destination_checked: None,
            identifier: String::new(),
            instance: String::new(),
            error: String::new(),
            recovery: String::new(),
            detail: String::new(),
            log: Ghost(Seq::empty()),
        },
    )
}

/// What a step tells the caller.
pub open spec fn announcement(step: Step) -> Option<Seq<char>> {
    match step {
        Step::AnnounceChecks => Some(
            "Checking both service accounts, startup selection and saved settings…"@,
        ),
        Step::AnnounceOldMedia => Some(
            "Old destination media is unavailable. Its settings will be backed up and replaced by the copied settings."@,
        ),
        Step::AnnouncePreparation => Some(
            "Preparing settings and decoding copied media under the destination account…"@,
        ),
        Step::AnnounceStop => Some(
            "Pausing competing starts and stopping the current daemon cleanly…"@,
        ),
        Step::AnnouncePublication => Some(
            "Publishing prepared settings and media with rollback backups…"@,
        ),
        Step::AnnounceStart => Some("Starting and verifying the selected daemon…"@),
        _ => None,
    }
}

pub fn announce(step: Step) -> (r: Option<&'static str>)
    ensures
        match r {
            Some(t) => announcement(step) == Some(t@),
            None => announcement(step) is None,
        },
{
    match step {
        Step::AnnounceChecks => Some(
            "Checking both service accounts, startup selection and saved settings…",
        ),
        Step::AnnounceOldMedia => Some(
            "Old destination media is unavailable. Its settings will be backed up and replaced by the copied settings.",
        ),
        Step::AnnouncePreparation => Some(
            "Preparing settings and decoding copied media under the destination account…",
        ),
        Step::AnnounceStop => Some(
            "Pausing competing starts and stopping the current daemon cleanly…",
        ),
        Step::AnnouncePublication => Some(
            "Publishing prepared settings and media with rollback backups…",
        ),
        Step::AnnounceStart => Some("Starting and verifying the selected daemon…"),
        _ => None,
    }
}

/// The phase that a step writes to the journal.
pub open spec fn recorded_phase(step: Step) -> Option<Phase> {
    match step {
        Step::CreateJournal => Some(Phase::Preparing),
        Step::RecordReady => Some(Phase::Ready),
        Step::RecordStopping => Some(Phase::StoppingSource),
        Step::RecordStopped => Some(Phase::SourceStopped),
        Step::RecordPublished => Some(Phase::Published),
        Step::RecordSelecting => Some(Phase::SelectingDestination),
        Step::RecordStarting => Some(Phase::StartingDestination),
        Step::RecordVerifying => Some(Phase::VerifyingDestination),
        Step::RecordComplete => Some(Phase::Complete),
        _ => None,
    }
}

pub fn phase_to_record(step: Step) -> (r: Option<Phase>)
    ensures
        r == recorded_phase(step),
{
    match step {
        Step::CreateJournal => Some(Phase::Preparing),
        Step::RecordReady => Some(Phase::Ready),
        Step::RecordStopping => Some(Phase::StoppingSource),
        Step::RecordStopped => Some(Phase::SourceStopped),
        Step::RecordPublished => Some(Phase::Published),
        Step::RecordSelecting => Some(Phase::SelectingDestination),
        Step::RecordStarting => Some(Phase::StartingDestination),
        Step::RecordVerifying => Some(Phase::VerifyingDestination),
        Step::RecordComplete => Some(Phase::Complete),
        _ => None,
    }
}

impl Switch {
    /// What the journal is created with.
    pub fn intent(&self) -> (r: Intent)
        requires
            self.wf(),
            self.step == Step::CreateJournal,
        ensures
            r.id@ == self.identifier@,
            r.caller_name@ == self.caller_name@,
            r.source == (ServiceSelection {
                scope: self.destination.other_spec(),
                uid: self.source_uid,
            }),
            r.destination == (ServiceSelection {
                scope: self.destination,
                uid: self.destination_uid,
            }),
            r.source_config@ == self.source_config@,
            r.destination_config@ == self.destination_config@,
            optional(r.source_working_directory) == Some(self.source_working@),
            optional(r.destination_working_directory) == Some(self.destination_working@),
            r.source_was_running == self.running,
            r.previous_selection == self.previous,
            r.user_startup == self.startup->0.user,
            r.system_startup == self.startup->0.system,
            r.carry_settings == self.carry,
            r.user_runtime == self.runtime,
    {
        let startup = match self.startup {
            Some(startup) => startup,
            None => Policy { user: Startup::Disabled, system: Startup::Disabled },
        };
        Intent {
            id: self.identifier.clone(),
            caller_name: self.caller_name.clone(),
            source: ServiceSelection { scope: other(self.destination), uid: self.source_uid },
            destination: ServiceSelection { scope: self.destination, uid: self.destination_uid },
            source_config: self.source_config.clone(),
            destination_config: self.destination_config.clone(),
            source_working_directory: Some(self.source_working.clone()),
            destination_working_directory: Some(self.destination_working.clone()),
            source_was_running: self.running,
            previous_selection: self.previous,
            user_startup: startup.user,
            system_startup: startup.system,
            carry_settings: self.carry,
            user_runtime: copy_optional_identity(&self.runtime),
        }
    }

    /// What the journal is told of a failure.
    pub open spec fn note_spec(self) -> Option<Seq<char>> {
        match self.step {
            Step::RecordFailure => Some(self.error@),
            Step::RecordBothFailures => Some(
                "Switch failed: "@ + self.error@ + ". Recovery also failed: "@ + self.recovery@,
            ),
            Step::RecordDetail => Some(
                self.error@ + ". "@ + self.recovery@ + ". "@ + self.detail@,
            ),
            _ => None,
        }
    }

    pub fn note(&self) -> (r: Option<String>)
        ensures
            optional(r) == self.note_spec(),
    {
        match self.step {
            Step::RecordFailure => Some(self.error.clone()),
            Step::RecordBothFailures => {
                let mut note = "Switch failed: ".to_owned();
                note.append(self.error.as_str());
                note.append(". Recovery also failed: ");
                note.append(self.recovery.as_str());
                Some(note)
            },
            Step::RecordDetail => {
                let mut note = self.error.clone();
                note.append(". ");
                note.append(self.recovery.as_str());
                note.append(". ");
                note.append(self.detail.as_str());
                Some(note)
            },
            _ => None,
        }
    }

    /// What the switch ends with. An error after a recovery says first what became of that.
    pub open spec fn result_spec(self) -> Option<Result<Seq<char>, Seq<char>>> {
        match self.step {
            Step::Switched => Some(
                Ok(
                    "Service mode switched. Selected account and loaded configuration have been verified."@,
                ),
            ),
            Step::Restored => Some(
                Err("The switch failed. Previous service mode was restored: "@ + self.error@),
            ),
            Step::Pending => Some(Err(self.detail@ + ": "@ + self.error@)),
            Step::Refused => Some(Err(self.error@)),
            _ => None,
        }
    }

    pub fn result(&self) -> (r: Option<Result<String, String>>)
        ensures
            match r {
                None => self.result_spec() is None,
                Some(Ok(t)) => self.result_spec() == Some(Ok::<Seq<char>, Seq<char>>(t@)),
                Some(Err(t)) => self.result_spec() == Some(Err::<Seq<char>, Seq<char>>(t@)),
            },
    {
        match self.step {
            Step::Switched => Some(
                Ok(
                    "Service mode switched. Selected account and loaded configuration have been verified.".to_owned(),
                ),
            ),
            Step::Restored => {
                let mut text =
                    "The switch failed. Previous service mode was restored: ".to_owned();
                text.append(self.error.as_str());
                Some(Err(text))
            },
            Step::Pending => {
                let mut text = self.detail.clone();
                text.append(": ");
                text.append(self.error.as_str());
                Some(Err(text))
            },
            Step::Refused => Some(Err(self.error.clone())),
            _ => None,
        }
    }
}

/// The source is stopped only after the journal was created, the preparation was recorded as ready
/// and as stopping, and competing launches were paused.
pub proof fn source_stops_only_after_the_journal_says_so(s: Switch)
    requires
        s.wf(),
        s.step == Step::StopSource,
    ensures
        s.log@.contains(Step::CreateJournal),
        s.log@.contains(Step::InspectAgain),
        s.log@.contains(Step::RecordReady),
        s.log@.contains(Step::RecordStopping),
        s.log@.contains(Step::PauseLaunches),
        s.running,
{
    assert(rank(Step::CreateJournal) < rank(s.step));
    assert(rank(Step::InspectAgain) < rank(s.step));
    assert(rank(Step::RecordReady) < rank(s.step));
    assert(rank(Step::RecordStopping) < rank(s.step));
    assert(rank(Step::PauseLaunches) < rank(s.step));
}

/// While the hardware is reserved, the source was stopped where it ran, both services were seen
/// idle, and the journal had recorded the stop.
pub proof fn reservation_follows_the_stop(s: Switch)
    requires
        s.wf(),
        reserved(s.step),
    ensures
        s.log@.contains(Step::PauseLaunches),
        s.running ==> s.log@.contains(Step::StopSource),
        s.log@.contains(Step::RecordStopped),
        s.log@.contains(Step::InspectIdle),
        s.log@.contains(Step::ReserveHardware),
{
    assert(rank(Step::PauseLaunches) < rank(s.step));
    assert(rank(Step::StopSource) < rank(s.step));
    assert(rank(Step::RecordStopped) < rank(s.step));
    assert(rank(Step::InspectIdle) < rank(s.step));
    assert(rank(Step::ReserveHardware) < rank(s.step));
}

/// Settings are published and the destination selected only while the hardware is reserved, and
/// after the saved settings of both accounts were found unchanged.
pub proof fn publication_happens_under_reservation(s: Switch)
    requires
        s.wf(),
        s.step == Step::PublishTransfer || s.step == Step::SelectDestination,
    ensures
        reserved(s.step),
        s.log@.contains(Step::ConfirmSource),
        s.log@.contains(Step::ConfirmDestination),
        s.step == Step::PublishTransfer ==> s.carry,
{
    assert(rank(Step::ConfirmSource) < rank(s.step));
    assert(rank(Step::ConfirmDestination) < rank(s.step));
}

/// The destination is started only when it is selected, its settings are in place and the
/// reservation has been released.
pub proof fn destination_starts_last(s: Switch)
    requires
        s.wf(),
        s.step == Step::StartDestination,
    ensures
        !reserved(s.step),
        s.log@.contains(Step::SelectDestination),
        s.log@.contains(Step::ReleaseHardware),
        s.carry ==> s.log@.contains(Step::PublishTransfer),
        s.running ==> s.log@.contains(Step::StopSource),
{
    assert(rank(Step::SelectDestination) < rank(s.step));
    assert(rank(Step::ReleaseHardware) < rank(s.step));
    assert(rank(Step::PublishTransfer) < rank(s.step));
    assert(rank(Step::StopSource) < rank(s.step));
}

/// A switch that reports success has verified the started daemon and recorded its completion.
pub proof fn success_means_verified(s: Switch)
    requires
        s.wf(),
        s.step == Step::Switched,
    ensures
        s.log@.contains(Step::StartDestination),
        s.log@.contains(Step::RecordInstance),
        s.log@.contains(Step::RecordComplete),
        s.log@.contains(Step::FinishJournal),
{
    assert(rank(Step::StartDestination) < rank(s.step));
    assert(rank(Step::RecordInstance) < rank(s.step));
    assert(rank(Step::RecordComplete) < rank(s.step));
    assert(rank(Step::FinishJournal) < rank(s.step));
}

/// A failure before the journal exists ends the switch with nothing changed; a failure while it is
/// open always leads to recovery.
pub proof fn failures_before_the_journal_change_nothing(before: Switch, after: Switch, text: Seq<char>)
    requires
        before.wf(),
        rank(before.step) <= 50,
        !terminal(before.step),
        stops(before, after, text),
    ensures
        rank(before.step) <= rank(Step::CreateJournal) ==> after.step == Step::Refused
            && !after.log@.contains(Step::CreateJournal) && !after.log@.contains(Step::StopSource)
            && !after.log@.contains(Step::SelectDestination),
        journaled(before.step) ==> after.step == Step::RecordFailure && after.log@.contains(
            Step::CreateJournal,
        ),
{
    if rank(before.step) <= rank(Step::CreateJournal) {
        assert(after.log@ == before.log@);
    } else if journaled(before.step) {
        stopping_keeps_order(before, after, text);
    }
}

/// Every step that succeeds brings a switch closer to its end.
pub proof fn switches_end(s: Switch)
    requires
        rank(s.step) < 50,
    ensures
        rank(s.step) < rank(s.advanced().step) <= 50,
{
}

/// Whether the media of saved settings are decoded at a step: only those of a destination that keeps
/// its own settings.
pub open spec fn decodes_of(step: Step, carry: bool) -> bool {
    step == Step::CheckDestination && !carry
}

/// Whether a check of saved settings decodes their media.
pub fn decodes(step: Step, carry: bool) -> (r: bool)
    ensures
        r == decodes_of(step, carry),
{
    match step {
        Step::CheckDestination => !carry,
        _ => false,
    }
}

/// A switch that reports success went through all of it: both sides were examined and found
/// unchanged before the source was touched and again before anything was published, the source was
/// stopped where it ran, the hardware was reserved, settings were published where they are carried,
/// the destination was selected and started, and every phase was recorded.
pub proof fn finished_switches_left_nothing_out(s: Switch)
    requires
        s.wf(),
        s.step == Step::Switched,
    ensures
        s.log@.contains(Step::LoadJournal),
        s.log@.contains(Step::ReadRuntime),
        s.log@.contains(Step::Inspect),
        s.log@.contains(Step::ReadSelection),
        s.log@.contains(Step::PreflightSource),
        s.log@.contains(Step::PreflightDestination),
        s.running ==> s.log@.contains(Step::InspectSource) && s.log@.contains(Step::ProbeSource),
        s.log@.contains(Step::CheckSource),
        s.log@.contains(Step::CheckDestination),
        s.log@.contains(Step::CreateJournal),
        s.carry ==> s.log@.contains(Step::PrepareTransfer) && s.log@.contains(Step::RecordTransfer),
        s.log@.contains(Step::RecheckSource),
        s.log@.contains(Step::RecheckDestination),
        s.log@.contains(Step::InspectAgain),
        s.log@.contains(Step::RecordReady),
        s.log@.contains(Step::RereadRuntime),
        s.log@.contains(Step::RereadAccounts),
        s.log@.contains(Step::CheckSourceLaunch),
        s.log@.contains(Step::CheckDestinationLaunch),
        s.log@.contains(Step::RecordStopping),
        s.log@.contains(Step::PauseLaunches),
        s.running ==> s.log@.contains(Step::StopSource),
        s.log@.contains(Step::RecordStopped),
        s.log@.contains(Step::InspectIdle),
        s.log@.contains(Step::ReserveHardware),
        s.log@.contains(Step::ConfirmSource),
        s.log@.contains(Step::ConfirmDestination),
        s.carry ==> s.log@.contains(Step::PublishTransfer),
        !s.carry ==> s.log@.contains(Step::RecordPublished),
        s.log@.contains(Step::RecordSelecting),
        s.log@.contains(Step::ConfirmLaunch),
        s.log@.contains(Step::SelectDestination),
        s.log@.contains(Step::RecordStarting),
        s.log@.contains(Step::ReleaseHardware),
        s.log@.contains(Step::StartDestination),
        s.log@.contains(Step::RecordVerifying),
        s.log@.contains(Step::RecordInstance),
        s.log@.contains(Step::RecordComplete),
        s.log@.contains(Step::CleanUp),
        s.log@.contains(Step::FinishJournal),
{
    let top = rank(s.step);
    assert(rank(Step::LoadJournal) < top);
    assert(rank(Step::ReadRuntime) < top);
    assert(rank(Step::Inspect) < top);
    assert(rank(Step::ReadSelection) < top);
    assert(rank(Step::PreflightSource) < top);
    assert(rank(Step::PreflightDestination) < top);
    assert(rank(Step::InspectSource) < top);
    assert(rank(Step::ProbeSource) < top);
    assert(rank(Step::CheckSource) < top);
    assert(rank(Step::CheckDestination) < top);
    assert(rank(Step::CreateJournal) < top);
    assert(rank(Step::PrepareTransfer) < top);
    assert(rank(Step::RecordTransfer) < top);
    assert(rank(Step::RecheckSource) < top);
    assert(rank(Step::RecheckDestination) < top);
    assert(rank(Step::InspectAgain) < top);
    assert(rank(Step::RecordReady) < top);
    assert(rank(Step::RereadRuntime) < top);
    assert(rank(Step::RereadAccounts) < top);
    assert(rank(Step::CheckSourceLaunch) < top);
    assert(rank(Step::CheckDestinationLaunch) < top);
    assert(rank(Step::RecordStopping) < top);
    assert(rank(Step::PauseLaunches) < top);
    assert(rank(Step::StopSource) < top);
    assert(rank(Step::RecordStopped) < top);
    assert(rank(Step::InspectIdle) < top);
    assert(rank(Step::ReserveHardware) < top);
    assert(rank(Step::ConfirmSource) < top);
    assert(rank(Step::ConfirmDestination) < top);
    assert(rank(Step::PublishTransfer) < top);
    assert(rank(Step::RecordPublished) < top);
    assert(rank(Step::RecordSelecting) < top);
    assert(rank(Step::ConfirmLaunch) < top);
    assert(rank(Step::SelectDestination) < top);
    assert(rank(Step::RecordStarting) < top);
    assert(rank(Step::ReleaseHardware) < top);
    assert(rank(Step::StartDestination) < top);
    assert(rank(Step::RecordVerifying) < top);
    assert(rank(Step::RecordInstance) < top);
    assert(rank(Step::RecordComplete) < top);
    assert(rank(Step::CleanUp) < top);
    assert(rank(Step::FinishJournal) < top);
}

/// What a plan is for: settings are prepared and published exactly where they are carried, and a
/// source is examined and stopped exactly where it runs.
pub proof fn plans_follow_the_request(step: Step, carry: bool, running: bool, old_media: bool)
    ensures
        ({
            let next = following(step, carry, running, old_media);
            &&& planned(Step::StopSource, carry, running, old_media) <==> running
            &&& planned(Step::ProbeSource, carry, running, old_media) <==> running
            &&& planned(Step::PrepareTransfer, carry, running, old_media) <==> carry
            &&& planned(Step::PublishTransfer, carry, running, old_media) <==> carry
            &&& planned(Step::RecordPublished, carry, running, old_media) <==> !carry
            &&& step == Step::CreateJournal ==> (next == Step::AnnouncePreparation <==> carry)
            &&& step == Step::ConfirmDestination ==> (next == Step::AnnouncePublication <==> carry)
            &&& step == Step::PauseLaunches ==> (next == Step::StopSource <==> running)
            &&& step == Step::RollBack ==> next == Step::CleanUpRestored
        }),
{
}

/// The journal tells a rollback apart what must be undone: it says that the source was not touched
/// yet only up to the step before it is, every phase is recorded by one step, in the order of the
/// switch, and the completion by the last.
pub proof fn phases_are_recorded_where_they_are_reached(a: Step, b: Step)
    requires
        recorded_phase(a) is Some,
        recorded_phase(b) is Some,
    ensures
        recorded_phase(a) == recorded_phase(b) ==> a == b,
        recorded_phase(a) == Some(Phase::Preparing) || recorded_phase(a) == Some(Phase::Ready) ==> rank(
            a,
        ) < rank(Step::RecordStopping) < rank(Step::StopSource),
        recorded_phase(a) == Some(Phase::Preparing) && a != b ==> rank(a) < rank(b),
        recorded_phase(a) == Some(Phase::SourceStopped) ==> rank(Step::StopSource) < rank(a) < rank(
            Step::ReserveHardware,
        ),
        recorded_phase(a) == Some(Phase::StoppingSource) ==> rank(Step::RecordReady) < rank(a) < rank(
            Step::PauseLaunches,
        ),
        recorded_phase(a) == Some(Phase::SelectingDestination) ==> rank(a) < rank(
            Step::SelectDestination,
        ),
        recorded_phase(a) == Some(Phase::StartingDestination) ==> rank(Step::SelectDestination) < rank(
            a,
        ) < rank(Step::StartDestination),
        recorded_phase(a) == Some(Phase::VerifyingDestination) ==> rank(Step::StartDestination)
            < rank(a),
        recorded_phase(a) == Some(Phase::Complete) && a != b ==> rank(b) < rank(a),
        recorded_phase(Step::CreateJournal) == Some(Phase::Preparing),
        recorded_phase(Step::RecordReady) == Some(Phase::Ready),
        recorded_phase(Step::RecordStopping) == Some(Phase::StoppingSource),
        recorded_phase(Step::RecordStopped) == Some(Phase::SourceStopped),
        recorded_phase(Step::RecordComplete) == Some(Phase::Complete),
{
}

/// A running source is in nobody's way exactly where the host selects no service or that very one.
pub proof fn running_sources_are_the_selected_ones(s: Switch, selection: Option<ServiceSelection>)
    ensures
        selection_of(s, selection) is Ok <==> {
            ||| !s.running
            ||| selection is None
            ||| selection->0.uid == s.source_uid && (selection->0.scope == ServiceScope::System <==> s.destination
                == ServiceScope::User)
        },
{
}

/// A second look confirms the first exactly where the switch might still begin, with the same policy,
/// the same answer on whether the source runs, and the same lock.
pub proof fn second_looks_compare_with_the_first(
    s: Switch,
    report: ServiceReport,
    startup: Result<Policy, Seq<char>>,
)
    requires
        s.startup is Some,
        s.lock is Some,
    ensures
        unchanged(s, report, startup) is Ok <==> {
            let begun = initial_of(report, startup, s.destination, s.source_uid);
            let holder = report.ownership->0->value;
            &&& begun is Ok
            &&& begun->Ok_0.0.user == s.startup->0.user
            &&& begun->Ok_0.0.system == s.startup->0.system
            &&& begun->Ok_0.1 == s.running
            &&& holder.identity.device@ == s.lock->0.device@
            &&& holder.identity.inode@ == s.lock->0.inode@
        },
{
}

/// Saved settings count as unchanged exactly where both the settings and the media are.
pub proof fn settings_are_compared_whole(expected: Checked, found: Checked)
    ensures
        same_state(expected, found) is Ok <==> {
            &&& expected.assets@ == found.assets@
            &&& expected.state is Some == found.state is Some
            &&& expected.state is Some ==> expected.state->0@ == found.state->0@
        },
{
}

/// A switch ends with the good news only where it switched, and with the failure that began its
/// recovery in all other ends.
pub proof fn results_follow_the_end(s: Switch)
    ensures
        s.result_spec() is Some <==> s.step == Step::Switched || s.step == Step::Restored || s.step
            == Step::Pending || s.step == Step::Refused,
        s.result_spec() is Some ==> (s.result_spec()->0 is Ok <==> s.step == Step::Switched),
        s.step == Step::Refused ==> s.result_spec()->0->Err_0 == s.error@,
{
}

/// Media are decoded in one check only: that of a destination which keeps its own settings.
pub proof fn kept_settings_are_decoded(step: Step, carry: bool)
    ensures
        decodes_of(step, carry) <==> step == Step::CheckDestination && !carry,
{
}

/// A failure leads to recovery exactly while the journal is open: before that the switch is refused with
/// nothing changed, and a rollback that fails is recorded.
pub proof fn failures_lead_to_recovery(s: Switch)
    ensures
        s.after_failure() == Step::RecordFailure <==> rank(Step::CreateJournal) < rank(s.step) < rank(
            Step::CleanUp,
        ),
        s.step == Step::RollBack ==> s.after_failure() == Step::RecordBothFailures,
        s.step == Step::ResumeSystem ==> s.after_failure() == Step::RecordDetail,
        rank(s.step) <= rank(Step::CreateJournal) ==> s.after_failure() == Step::Refused,
        s.step == Step::StopSource || s.step == Step::PublishTransfer || s.step
            == Step::SelectDestination || s.step == Step::StartDestination || s.step
            == Step::RecordVerifying ==> s.after_failure() == Step::RecordFailure,
{
}

/// Only settings that are to be carried must have been saved, and that is asked before the source is
/// checked.
pub proof fn carried_settings_must_be_saved(s: Switch)
    ensures
        s.unsaved() ==> s.carry && !s.source_saved,
        (s.step == Step::PreflightDestination && !s.old_media && !s.running) || s.step
            == Step::ProbeSource ==> (s.unsaved() <==> s.carry && !s.source_saved),
{
}

/// A switch goes between the two modes: its source and destination are of different modes, and the
/// system's side has the system's account.
pub proof fn switches_go_between_the_modes(
    s: Switch,
    destination: ServiceScope,
    carry: bool,
    caller: Account,
    system: Account,
)
    requires
        fresh(s, destination, carry, caller, system),
    ensures
        s.destination_selection().scope == destination,
        s.source_selection().scope != destination,
        destination == ServiceScope::User ==> s.destination_selection().uid == caller.uid
            && s.source_selection().uid == system.uid,
        destination == ServiceScope::System ==> s.destination_selection().uid == system.uid
            && s.source_selection().uid == caller.uid,
{
}

/// What is undone and started belongs to the switch: the rollback has its two sides, its source's
/// paths, its earlier selection and its lock, and the start its destination.
pub proof fn switches_undo_themselves(s: Switch, rollback: Rollback, start: Start)
    ensures
        undoes(s, rollback) ==> rollback.source == s.source_selection() && rollback.destination
            == s.destination_selection() && rollback.source_config@ == s.source_config@
            && rollback.carry == s.carry && rollback.previous == s.previous && rollback.lock@
            == s.lock->0@ && rollback.source_working is Some && rollback.source_working->0@
            == s.source_working@,
        starts_for(s, start) ==> !start.restoring && start.selection.scope == s.destination
            && start.selection.uid == s.destination_uid && start.config@ == s.destination_config@,
{
}

} // verus!
