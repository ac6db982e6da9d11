//! Recovering a switch that a journal still holds.

use crate::services::{optional, FileIdentity, ServiceScope, ServiceSelection};
use crate::switch_rollback;
use crate::switch_rollback::Rollback;
use crate::switch_run::{Intent, Phase};
use crate::text;
use vstd::prelude::*;

verus! {

/// What a journal holds.
#[derive(Debug)]
pub struct Record {
    pub intent: Intent,
    pub phase: Phase,
}

/// The selection of a switch that belongs to the desktop user.
pub open spec fn user_side(intent: Intent) -> ServiceSelection {
    if intent.source.scope == ServiceScope::User {
        intent.source
    } else {
        intent.destination
    }
}

/// The selection of a switch that belongs to the packaged account.
pub open spec fn system_side(intent: Intent) -> ServiceSelection {
    if user_side(intent) == intent.source {
        intent.destination
    } else {
        intent.source
    }
}

/// The account for which a journal can be recovered.
pub fn caller_uid(record: &Record) -> (r: u32)
    ensures
        r == user_side(record.intent).uid,
{
    if record.intent.source.scope == ServiceScope::User {
        record.intent.source.uid
    } else {
        record.intent.destination.uid
    }
}

#[derive(Clone, Copy, Debug, PartialEq, Eq, Structural)]
pub enum Step {
    LoadJournal,
    CleanUpArchived,
    FinishArchived,
    Archived,
    OpenBackend,
    ReadLock,
    RollBack,
    CleanUpRestored,
    FinishRestored,
    Restored,
    RecordFailure,
    ResumeSystem,
    RecordDetail,
    NothingPending,
    Pending,
    Refused,
}

/// A recovery under way.
pub struct Recovery {
    pub caller_uid: u32,
    pub caller_name: String,
    pub system_uid: u32,
    pub expected: Option<String>,
    /// What the journal held.
    pub record: Option<Record>,
    /// The hardware lock.
    pub lock: Option<FileIdentity>,
    pub step: Step,
    pub error: String,
    pub detail: String,
    /// The steps that succeeded, in order.
    pub log: Ghost<Seq<Step>>,
}

/// Whether a journal is the one to recover, for this caller and this packaged account.
pub open spec fn belongs(r: Recovery, record: Record) -> Result<(), Seq<char>> {
    let intent = record.intent;
    if r.expected is Some && r.expected->0@ != intent.id@ {
        Err("A different switch replaced the automatic recovery request. Recheck its state"@)
    } else if r.caller_uid == user_side(intent).uid && r.caller_name@ == intent.caller_name@
        && r.system_uid == system_side(intent).uid {
        Ok(())
    } else {
        Err(
            "The journal belongs to another caller or the packaged account changed. Preserve it for administrator recovery"@,
        )
    }
}

/// A switch that only waits to be archived.
pub open spec fn settled(phase: Phase) -> bool {
    phase == Phase::Complete || phase == Phase::RolledBack
}

pub open spec fn plain(step: Step) -> bool {
    step == Step::CleanUpArchived || step == Step::FinishArchived || step == Step::OpenBackend
        || step == Step::CleanUpRestored || step == Step::FinishRestored || step
        == Step::RecordDetail
}

pub open spec fn terminal(step: Step) -> bool {
    step == Step::Archived || step == Step::Restored || step == Step::NothingPending || step
        == Step::Pending || step == Step::Refused
}

pub open spec fn next(step: Step) -> Step {
    match step {
        Step::CleanUpArchived => Step::FinishArchived,
        Step::FinishArchived => Step::Archived,
        Step::OpenBackend => Step::ReadLock,
        Step::CleanUpRestored => Step::FinishRestored,
        Step::FinishRestored => Step::Restored,
        Step::RecordDetail => Step::Pending,
        _ => step,
    }
}

/// The current step failed.
pub open spec fn stops(before: Recovery, after: Recovery, text: Seq<char>) -> bool {
    if before.step == Step::ResumeSystem {
        after == (Recovery { step: Step::RecordDetail, detail: after.detail, ..before })
            && after.detail@ == "System restoration is also pending: "@ + text
    } else if before.step == Step::RollBack {
        after == (Recovery { step: Step::RecordFailure, error: after.error, ..before })
            && after.error@ == text
    } else {
        after == (Recovery { step: Step::Refused, error: after.error, ..before }) && after.error@
            == text
    }
}

/// Whether a rollback undoes the switch that the journal holds.
pub open spec fn undoes(r: Recovery, rollback: Rollback) -> bool {
    &&& r.record is Some
    &&& r.lock is Some
    &&& rollback.begun == r.record->0.phase
    &&& rollback.source == r.record->0.intent.source
    &&& rollback.destination == r.record->0.intent.destination
    &&& rollback.source_config@ == r.record->0.intent.source_config@
    &&& optional(rollback.source_working) == optional(
        r.record->0.intent.source_working_directory,
    )
    &&& rollback.carry == r.record->0.intent.carry_settings
    &&& rollback.previous == r.record->0.intent.previous_selection
    &&& rollback.lock@ == r.lock->0@
}

/// The current step succeeded and `step` follows.
pub open spec fn moves(before: Recovery, after: Recovery, step: Step) -> bool {
    after == (Recovery { step, log: Ghost(before.log@.push(before.step)), ..before })
}

/// Begins a recovery. The service operation lock is held from here on. `expected` is the identifier
/// of the switch that an automatic recovery was asked for.
pub fn recover(
    native: bool,
    caller_uid: u32,
    caller_name: &str,
    system_uid: u32,
    expected: Option<String>,
) -> (r: Result<Recovery, String>)
    ensures
        match r {
            Ok(m) => native && m.wf() && m.step == Step::LoadJournal && m.caller_uid == caller_uid
                && m.caller_name@ == caller_name@ && m.system_uid == system_uid && m.expected
                == expected && m.record is None && m.lock is None && m.log@ == Seq::<
                Step,
            >::empty(),
            Err(e) => !native && e@ == "Recover service switching from the native host application"@,
        },
{
    if !native {
        return Err("Recover service switching from the native host application".to_owned());
    }
    Ok(
        Recovery {
            caller_uid,
            caller_name: caller_name.to_owned(),
            system_uid,
            expected,
            record: None,
            lock: None,
            step: Step::LoadJournal,
            error: String::new(),
            detail: String::new(),
            log: Ghost(Seq::empty()),
        },
    )
}

/// The steps that a recovery has behind it at a step, where it did not come to restoring the system
/// service alone.
pub open spec fn path(step: Step) -> Seq<Step> {
    match step {
        Step::CleanUpArchived => seq![Step::LoadJournal],
        Step::FinishArchived => seq![Step::LoadJournal, Step::CleanUpArchived],
        Step::Archived => seq![Step::LoadJournal, Step::CleanUpArchived, Step::FinishArchived],
        Step::OpenBackend => seq![Step::LoadJournal],
        Step::ReadLock => seq![Step::LoadJournal, Step::OpenBackend],
        Step::RollBack | Step::RecordFailure => seq![
            Step::LoadJournal,
            Step::OpenBackend,
            Step::ReadLock,
        ],
        Step::CleanUpRestored => path_restored(),
        Step::FinishRestored => path_restored().push(Step::CleanUpRestored),
        Step::Restored => path_restored().push(Step::CleanUpRestored).push(Step::FinishRestored),
        Step::NothingPending => seq![Step::LoadJournal],
        _ => Seq::empty(),
    }
}

pub open spec fn path_restored() -> Seq<Step> {
    seq![Step::LoadJournal, Step::OpenBackend, Step::ReadLock, Step::RollBack]
}

pub open spec fn path_failed() -> Seq<Step> {
    seq![Step::LoadJournal, Step::OpenBackend, Step::ReadLock, Step::RecordFailure]
}

impl Recovery {
    /// Exactly the steps before the present one succeeded.
    pub open spec fn wf(self) -> bool {
        &&& self.step == Step::OpenBackend || self.step == Step::ReadLock || self.step
            == Step::RollBack ==> self.record is Some && belongs(self, self.record->0) is Ok
            && !settled(self.record->0.phase)
        &&& self.step == Step::RollBack ==> self.lock is Some
        &&& match self.step {
            Step::Refused => true,
            Step::ResumeSystem => self.log@ == path_failed(),
            Step::RecordDetail => self.log@ == path_failed() || self.log@ == path_failed().push(
                Step::ResumeSystem,
            ),
            Step::Pending => self.log@ == path_failed().push(Step::RecordDetail) || self.log@
                == path_failed().push(Step::ResumeSystem).push(Step::RecordDetail),
            step => self.log@ == path(step),
        }
    }

    /// The current step failed. A rollback fails as `rolled_back` says.
    pub fn failed(&mut self, error: String)
        requires
            old(self).wf(),
            !terminal(old(self).step),
            old(self).step != Step::RollBack,
        ensures
            final(self).wf(),
            stops(*old(self), *final(self), error@),
    {
        self.stop(error);
    }

    fn stop(&mut self, error: String)
        requires
            old(self).wf(),
            !terminal(old(self).step),
        ensures
            final(self).wf(),
            stops(*old(self), *final(self), error@),
    {
        if self.step == Step::ResumeSystem {
            let mut detail = "System restoration is also pending: ".to_owned();
            detail.append(error.as_str());
            self.detail = detail;
            self.step = Step::RecordDetail;
        } else if self.step == Step::RollBack {
            self.error = error;
            self.step = Step::RecordFailure;
        } else {
            self.error = error;
            self.step = Step::Refused;
        }
    }

    /// A step without a reply of its own succeeded.
    pub fn done(&mut self)
        requires
            old(self).wf(),
            plain(old(self).step),
        ensures
            final(self).wf(),
            moves(*old(self), *final(self), next(old(self).step)),
    {
        self.log = Ghost(self.log@.push(self.step));
        self.step = match self.step {
            Step::CleanUpArchived => Step::FinishArchived,
            Step::FinishArchived => Step::Archived,
            Step::OpenBackend => Step::ReadLock,
            Step::CleanUpRestored => Step::FinishRestored,
            Step::FinishRestored => Step::Restored,
            Step::RecordDetail => Step::Pending,
            step => step,
        };
        assert(self.step != Step::Pending ==> self.log@ =~= path(self.step));
    }

    /// `ReadLock`: the identity of the hardware lock.
    pub fn lock(&mut self, identity: FileIdentity)
        requires
            old(self).wf(),
            old(self).step == Step::ReadLock,
        ensures
            final(self).wf(),
            moves(
                (Recovery { lock: Some(identity), ..*old(self) }),
                *final(self),
                Step::RollBack,
            ),
    {
        self.lock = Some(identity);
        self.log = Ghost(self.log@.push(self.step));
        self.step = Step::RollBack;
        assert(self.log@ =~= path(self.step));
    }

    /// `RollBack`: the rollback of the switch that the journal holds, as it begins.
    pub fn rollback(&self) -> (r: Rollback)
        requires
            self.wf(),
            self.step == Step::RollBack,
        ensures
            r.wf(),
            undoes(*self, r),
            r.phase == r.begun,
            r.step == switch_rollback::entry(0, r.phase, r.carry),
            r.log@ == Seq::<switch_rollback::Step>::empty(),
            r.runtime is None,
            !r.should_run,
            r.thorough(),
    {
        let lock = match &self.lock {
            Some(lock) => lock.copy(),
            None => FileIdentity { device: String::new(), inode: String::new() },
        };
        match &self.record {
            Some(record) => Rollback::begin(
                record.phase,
                record.intent.source,
                record.intent.destination,
                record.intent.source_config.clone(),
                crate::services::copy_optional(&record.intent.source_working_directory),
                record.intent.carry_settings,
                record.intent.previous_selection,
                lock,
            ),
            None => {
                let none = ServiceSelection { scope: ServiceScope::User, uid: 0 };
                Rollback::begin(
                    Phase::Preparing,
                    none,
                    none,
                    String::new(),
                    None,
                    false,
                    None,
                    lock,
                )
            },
        }
    }

    /// `RollBack`: the rollback of the switch that the journal holds, which came to its end.
    pub fn rolled_back(&mut self, rollback: &Rollback)
        requires
            old(self).wf(),
            old(self).step == Step::RollBack,
            rollback.wf(),
            undoes(*old(self), *rollback),
            rollback.step == switch_rollback::Step::Finished || rollback.step
                == switch_rollback::Step::Failed,
        ensures
            final(self).wf(),
            if rollback.step == switch_rollback::Step::Finished {
                moves(*old(self), *final(self), Step::CleanUpRestored)
            } else {
                stops(*old(self), *final(self), rollback.error@)
            },
    {
        if rollback.step == switch_rollback::Step::Finished {
            self.log = Ghost(self.log@.push(self.step));
            self.step = Step::CleanUpRestored;
            assert(self.log@ =~= path(self.step));
        } else {
            self.stop(rollback.error.clone());
        }
    }

    /// `LoadJournal`: the pending switch, where there is one.
    pub fn journal(&mut self, record: Option<Record>)
        requires
            old(self).wf(),
            old(self).step == Step::LoadJournal,
        ensures
            final(self).wf(),
            match record {
                None => moves(*old(self), *final(self), Step::NothingPending),
                Some(found) => match belongs(*old(self), found) {
                    Err(text) => stops(*old(self), *final(self), text),
                    Ok(_) => moves(
                        (Recovery { record, ..*old(self) }),
                        *final(self),
                        if settled(found.phase) {
                            Step::CleanUpArchived
                        } else {
                            Step::OpenBackend
                        },
                    ),
                },
            },
    {
        let found = match record {
            None => {
                self.log = Ghost(self.log@.push(Step::LoadJournal));
                self.step = Step::NothingPending;
                assert(self.log@ =~= path(self.step));
                return;
            },
            Some(found) => found,
        };
        let replaced = match &self.expected {
            Some(id) => !text::eq(id.as_str(), found.intent.id.as_str()),
            None => false,
        };
        if replaced {
            self.stop(
                "A different switch replaced the automatic recovery request. Recheck its state".to_owned(),
            );
            return;
        }
        let source_is_user = found.intent.source.scope == ServiceScope::User;
        let user = if source_is_user {
            found.intent.source
        } else {
            found.intent.destination
        };
        let system = if user == found.intent.source {
            found.intent.destination
        } else {
            found.intent.source
        };
        if !(self.caller_uid == user.uid && text::eq(
            self.caller_name.as_str(),
            found.intent.caller_name.as_str(),
        ) && self.system_uid == system.uid) {
            self.stop(
                "The journal belongs to another caller or the packaged account changed. Preserve it for administrator recovery".to_owned(),
            );
            return;
        }
        self.log = Ghost(self.log@.push(Step::LoadJournal));
        self.step = if found.phase == Phase::Complete || found.phase == Phase::RolledBack {
            Step::CleanUpArchived
        } else {
            Step::OpenBackend
        };
        self.record = Some(found);
        assert(self.log@ =~= path(self.step));
    }

    /// `RecordFailure`: whether the journal allows the system service to be restored alone.
    pub fn failure_recorded(&mut self, eligible: bool)
        requires
            old(self).wf(),
            old(self).step == Step::RecordFailure,
        ensures
            final(self).wf(),
            *final(self) == (Recovery {
                step: if eligible {
                    Step::ResumeSystem
                } else {
                    Step::Refused
                },
                log: Ghost(old(self).log@.push(Step::RecordFailure)),
                ..*old(self)
            }),
    {
        self.log = Ghost(self.log@.push(Step::RecordFailure));
        assert(self.log@ =~= path_failed());
        self.step = if eligible {
            Step::ResumeSystem
        } else {
            Step::Refused
        };
    }

    /// `ResumeSystem` succeeded.
    pub fn system_resumed(&mut self)
        requires
            old(self).wf(),
            old(self).step == Step::ResumeSystem,
        ensures
            final(self).wf(),
            *final(self) == (Recovery {
                step: Step::RecordDetail,
                detail: final(self).detail,
                log: Ghost(old(self).log@.push(Step::ResumeSystem)),
                ..*old(self)
            }),
            final(self).detail@
                == "System startup restored. User settings recovery will resume when the session and home are available"@,
    {
        self.log = Ghost(self.log@.push(Step::ResumeSystem));
        self.detail =
        "System startup restored. User settings recovery will resume when the session and home are available".to_owned();
        self.step = Step::RecordDetail;
    }

    /// What the journal is told of a failure.
    pub open spec fn note_spec(self) -> Option<Seq<char>> {
        match self.step {
            Step::RecordFailure => Some("Recovery remains pending: "@ + self.error@),
            Step::RecordDetail => Some(self.error@ + ". "@ + self.detail@),
            _ => None,
        }
    }

    pub fn note(&self) -> (r: Option<String>)
        ensures
            crate::services::optional(r) == self.note_spec(),
    {
        match self.step {
            Step::RecordFailure => {
                let mut note = "Recovery remains pending: ".to_owned();
                note.append(self.error.as_str());
                Some(note)
            },
            Step::RecordDetail => {
                let mut note = self.error.clone();
                note.append(". ");
                note.append(self.detail.as_str());
                Some(note)
            },
            _ => None,
        }
    }

    /// What the recovery ends with.
    pub open spec fn result_spec(self) -> Option<Result<Seq<char>, Seq<char>>> {
        match self.step {
            Step::NothingPending => Some(Ok("No service switch needs recovery."@)),
            Step::Archived => Some(Ok("Completed switch record archived."@)),
            Step::Restored => Some(Ok("Previous service mode restored and verified."@)),
            Step::Pending => Some(Err(self.detail@ + ": "@ + self.error@)),
            Step::Refused => Some(Err(self.error@)),
            _ => None,
        }
    }

    pub fn result(&self) -> (r: Option<Result<String, String>>)
        ensures
            match r {
                None => self.result_spec() is None,
                Some(Ok(t)) => self.result_spec() == Some(Ok::<Seq<char>, Seq<char>>(t@)),
                Some(Err(t)) => self.result_spec() == Some(Err::<Seq<char>, Seq<char>>(t@)),
            },
    {
        match self.step {
            Step::NothingPending => Some(Ok("No service switch needs recovery.".to_owned())),
            Step::Archived => Some(Ok("Completed switch record archived.".to_owned())),
            Step::Restored => Some(
                Ok("Previous service mode restored and verified.".to_owned()),
            ),
            Step::Pending => {
                let mut text = self.detail.clone();
                text.append(": ");
                text.append(self.error.as_str());
                Some(Err(text))
            },
            Step::Refused => Some(Err(self.error.clone())),
            _ => None,
        }
    }
}

/// A recovery that reports the previous mode as restored has read the journal and the hardware lock,
/// rolled the switch back, cleaned up and archived the journal, in this order and nothing else.
pub proof fn restored_switches_were_rolled_back(r: Recovery)
    requires
        r.wf(),
        r.step == Step::Restored,
    ensures
        r.log@ == seq![
            Step::LoadJournal,
            Step::OpenBackend,
            Step::ReadLock,
            Step::RollBack,
            Step::CleanUpRestored,
            Step::FinishRestored,
        ],
        r.result_spec() == Some(
            Ok::<Seq<char>, Seq<char>>("Previous service mode restored and verified."@),
        ),
{
    assert(r.log@ =~= seq![
        Step::LoadJournal,
        Step::OpenBackend,
        Step::ReadLock,
        Step::RollBack,
        Step::CleanUpRestored,
        Step::FinishRestored,
    ]);
}

/// A switch that was complete or rolled back already is only archived: no service is touched.
pub proof fn settled_switches_are_only_archived(r: Recovery)
    requires
        r.wf(),
        r.step == Step::Archived,
    ensures
        !r.log@.contains(Step::OpenBackend),
        !r.log@.contains(Step::RollBack),
        r.log@.contains(Step::FinishArchived),
{
    assert(r.log@[2] == Step::FinishArchived);
}

/// The system service is restored alone only after the rollback failed and that was recorded.
pub proof fn systems_are_restored_alone_after_a_failure(r: Recovery)
    requires
        r.wf(),
        r.step == Step::ResumeSystem,
    ensures
        r.log@.contains(Step::RecordFailure),
        !r.log@.contains(Step::RollBack),
{
    assert(r.log@[3] == Step::RecordFailure);
}

/// The two sides of a switch are the two selections of its journal.
pub proof fn sides_cover_the_switch(intent: Intent)
    requires
        intent.source.scope != intent.destination.scope,
    ensures
        user_side(intent).scope == ServiceScope::User,
        system_side(intent).scope == ServiceScope::System,
{
}

/// A journal is recovered exactly for the desktop user who began the switch and the packaged account
/// that it names, and, where one switch was asked for, only if it is that one.
pub proof fn journals_are_recovered_for_their_caller(r: Recovery, record: Record)
    requires
        record.intent.source.scope != record.intent.destination.scope,
    ensures
        belongs(r, record) is Ok <==> {
            let to_user = record.intent.destination.scope == ServiceScope::User;
            let user = if to_user {
                record.intent.destination
            } else {
                record.intent.source
            };
            let system = if to_user {
                record.intent.source
            } else {
                record.intent.destination
            };
            &&& r.expected is Some ==> r.expected->0@ == record.intent.id@
            &&& r.caller_uid == user.uid
            &&& r.caller_name@ == record.intent.caller_name@
            &&& r.system_uid == system.uid
        },
{
}

/// Only a switch that was completed or rolled back is archived without being rolled back.
pub proof fn unfinished_switches_are_rolled_back(phase: Phase)
    ensures
        settled(phase) <==> phase == Phase::Complete || phase == Phase::RolledBack,
{
}

/// A recovery that ends well found nothing to do, archived what was settled, or restored the mode of
/// before. Every other end is an error with the reason that recovery failed.
pub proof fn recoveries_report_what_they_did(r: Recovery)
    ensures
        r.result_spec() is Some && r.result_spec()->0 is Ok <==> r.step == Step::NothingPending
            || r.step == Step::Archived || r.step == Step::Restored,
        r.result_spec() is Some && r.result_spec()->0 is Err <==> r.step == Step::Pending || r.step
            == Step::Refused,
        r.step == Step::Refused ==> r.result_spec()->0->Err_0 == r.error@,
        r.step == Step::Pending ==> r.result_spec()->0->Err_0 == r.detail@ + ": "@ + r.error@,
{
}

/// A recovery undoes what the journal recorded and nothing else: its two sides, the paths of the
/// source, whether settings were carried, the earlier selection, from the phase that was reached.
pub proof fn recoveries_undo_what_was_recorded(r: Recovery, rollback: Rollback)
    requires
        undoes(r, rollback),
    ensures
        ({
            let intent = r.record->0.intent;
            &&& rollback.begun == r.record->0.phase
            &&& rollback.source == intent.source
            &&& rollback.destination == intent.destination
            &&& rollback.source_config@ == intent.source_config@
            &&& rollback.source_working is Some <==> intent.source_working_directory is Some
            &&& rollback.source_working is Some ==> rollback.source_working->0@
                == intent.source_working_directory->0@
            &&& rollback.carry == intent.carry_settings
            &&& rollback.previous == intent.previous_selection
            &&& rollback.lock@ == r.lock->0@
        }),
{
}

} // verus!
