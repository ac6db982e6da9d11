//! Setting up the managed services of a box on the host: what is checked before anything changes,
//! what is written, and in which order.

use crate::account::Account;
use crate::command::{output_complaint, Output};
use crate::container_deployment::{
    deployed_unit, owner_complaint, Deployment, Installation, RecordStep,
};
use crate::container_destination::ConfigNames;
use crate::destination::check_output;
use crate::distrobox_unit;
use crate::distrobox_unit::{generate_of, generate_session_of, written};
use crate::files::{FileKind, Metadata};
use crate::host_helper;
use crate::native_switch::{idle, is_idle, ownership, ownership_of, unit, unit_of};
use crate::path;
use crate::services::{
    FileIdentity, Policy, ServiceReport, ServiceScope, ServiceSelection, Startup,
};
use crate::steps::push_holds;
use crate::text;
use crate::text::{outcome, texts};
use vstd::prelude::*;

verus! {

/// The largest file that setup writes or replaces, in bytes.
pub const LIMIT: usize = 65_536;

/// What to do about a file that setup supplies.
#[derive(Clone, Copy, Debug, PartialEq, Eq, Structural)]
pub enum Write {
    /// The file is as it should be.
    Keep,
    Create,
    /// Keep a private copy of the file, then replace it.
    BackUpAndReplace,
}

/// What to do about a file: it is replaced only if it holds what setup once wrote.
pub open spec fn write_of(
    p: Seq<char>,
    contents: Seq<char>,
    existing: Option<Seq<char>>,
    previous: Seq<Seq<char>>,
) -> Result<Write, Seq<char>> {
    if text::byte_len(contents) > LIMIT {
        Err("Setup file exceeds 64 KiB"@)
    } else {
        match existing {
            None => Ok(Write::Create),
            Some(there) => if text::byte_len(there) > LIMIT {
                Err("Existing setup file exceeds 64 KiB"@)
            } else if there == contents {
                Ok(Write::Keep)
            } else if previous.contains(there) {
                Ok(Write::BackUpAndReplace)
            } else {
                Err("A custom support file needs review before replacement: "@ + p)
            },
        }
    }
}

pub fn write_file(p: &str, contents: &str, existing: Option<&str>, previous: &Vec<String>) -> (r:
    Result<Write, String>)
    ensures
        outcome(r) == write_of(
            p@,
            contents@,
            match existing {
                Some(there) => Some(there@),
                None => None,
            },
            texts(previous@),
        ),
{
    if text::len(contents) > LIMIT {
        return Err("Setup file exceeds 64 KiB".to_owned());
    }
    match existing {
        None => Ok(Write::Create),
        Some(there) => {
            if text::len(there) > LIMIT {
                return Err("Existing setup file exceeds 64 KiB".to_owned());
            }
            if text::eq(there, contents) {
                return Ok(Write::Keep);
            }
            if text::is_among(there, previous) {
                return Ok(Write::BackUpAndReplace);
            }
            let mut e = "A custom support file needs review before replacement: ".to_owned();
            e.append(p);
            Err(e)
        },
    }
}

/// Writing a file once more changes nothing.
pub proof fn setup_writes_are_idempotent(
    p: Seq<char>,
    contents: Seq<char>,
    existing: Option<Seq<char>>,
    previous: Seq<Seq<char>>,
    later: Seq<Seq<char>>,
)
    requires
        write_of(p, contents, existing, previous) is Ok,
    ensures
        write_of(p, contents, Some(contents), later) == Ok::<Write, Seq<char>>(Write::Keep),
{
}

/// A file that setup did not write is never replaced.
pub proof fn custom_files_are_kept(
    p: Seq<char>,
    contents: Seq<char>,
    there: Seq<char>,
    previous: Seq<Seq<char>>,
)
    requires
        there != contents,
        !previous.contains(there),
    ensures
        write_of(p, contents, Some(there), previous) is Err,
{
}

/// A file of the owner that nobody else can write, reach under another name, or fill.
pub open spec fn is_replaceable(m: Metadata, owner: u32) -> bool {
    m.kind == FileKind::File && m.uid == owner && m.mode & 0o022 == 0 && m.nlink == 1 && m.len
        <= LIMIT
}

pub fn check_existing(m: &Metadata, owner: u32) -> (r: Result<(), String>)
    ensures
        outcome(r) == if is_replaceable(*m, owner) {
            Ok(())
        } else {
            Err("Existing setup file has unsafe ownership, permissions or size"@)
        },
{
    if m.kind == FileKind::File && m.uid == owner && m.mode & 0o022 == 0 && m.nlink == 1 && m.len
        <= LIMIT as u64 {
        Ok(())
    } else {
        Err("Existing setup file has unsafe ownership, permissions or size".to_owned())
    }
}

pub fn check_directory(m: &Metadata, owner: u32) -> (r: Result<(), String>)
    ensures
        outcome(r) == if m.uid == owner && m.mode & 0o022 == 0 {
            Ok(())
        } else {
            Err("Setup directory has unsafe ownership or permissions"@)
        },
{
    if m.uid == owner && m.mode & 0o022 == 0 {
        Ok(())
    } else {
        Err("Setup directory has unsafe ownership or permissions".to_owned())
    }
}

pub open spec fn descent_of(p: Seq<char>, boundary: Seq<char>) -> Result<Seq<Seq<char>>, Seq<char>> {
    match path::below(p, boundary) {
        None => Err("Setup path left its expected directory: prefix not found"@),
        Some(parts) => if path::descends(parts) {
            Ok(parts)
        } else {
            Err("Invalid setup directory component"@)
        },
    }
}

/// The directories to enter one after the other, from the boundary down to a path.
pub fn open_directory(p: &str, boundary: &str) -> (r: Result<Vec<String>, String>)
    ensures
        match r {
            Ok(v) => descent_of(p@, boundary@) == Ok::<Seq<Seq<char>>, Seq<char>>(texts(v@)),
            Err(e) => descent_of(p@, boundary@) == Err::<Seq<Seq<char>>, Seq<char>>(e@),
        },
{
    match path::strip(p, boundary) {
        None => Err("Setup path left its expected directory: prefix not found".to_owned()),
        Some(parts) => {
            let ghost all = texts(parts@);
            let mut i: usize = 0;
            while i < parts.len()
                invariant
                    all == texts(parts@),
                    path::below(p@, boundary@) == Some(all),
                    i <= parts@.len(),
                    forall|j: int| 0 <= j < i ==> !path::is_parent(#[trigger] all[j]),
                decreases parts@.len() - i,
            {
                assert(all[i as int] == parts@[i as int]@);
                if path::is_dots(parts[i].as_str()) {
                    assert(path::is_parent(all[i as int]));
                    return Err("Invalid setup directory component".to_owned());
                }
                i += 1;
            }
            assert(all.len() == parts@.len());
            Ok(parts)
        },
    }
}

pub fn check_runtime(m: &Metadata) -> (r: Result<(), String>)
    ensures
        outcome(r) == if m.kind == FileKind::Directory && m.uid == 0 && m.mode & 0o022 == 0 {
            Ok(())
        } else {
            Err("Host runtime has unsafe permissions"@)
        },
{
    if m.kind == FileKind::Directory && m.uid == 0 && m.mode & 0o022 == 0 {
        Ok(())
    } else {
        Err("Host runtime has unsafe permissions".to_owned())
    }
}

/// A lock that every account on the host can take.
pub open spec fn is_shared_lock(m: Metadata) -> bool {
    m.kind == FileKind::File && m.uid == 0 && m.nlink == 1 && m.mode & 0o777 == 0o666
}

pub fn check_lock(m: &Metadata) -> (r: Result<(), String>)
    ensures
        outcome(r) == if is_shared_lock(*m) {
            Ok(())
        } else {
            Err("Repair the shared host lock ownership and permissions before setup"@)
        },
{
    if m.kind == FileKind::File && m.uid == 0 && m.nlink == 1 && m.mode & 0o777 == 0o666 {
        Ok(())
    } else {
        Err("Repair the shared host lock ownership and permissions before setup".to_owned())
    }
}

/// Why the shared locks of the host cannot be used: `run` is its runtime directory, and each lock was
/// made where it was missing.
pub open spec fn locks_complaint(run: Metadata, locks: Seq<Metadata>) -> Option<Seq<char>> {
    if !(run.kind == FileKind::Directory && run.uid == 0 && run.mode & 0o022 == 0) {
        Some("Host runtime has unsafe permissions"@)
    } else if exists|i: int| 0 <= i < locks.len() && !is_shared_lock(#[trigger] locks[i]) {
        Some("Repair the shared host lock ownership and permissions before setup"@)
    } else {
        None
    }
}

pub fn initialize_locks(run: &Metadata, locks: &Vec<Metadata>) -> (r: Result<(), String>)
    ensures
        match r {
            Ok(_) => locks_complaint(*run, locks@) is None,
            Err(e) => locks_complaint(*run, locks@) == Some(e@),
        },
{
    check_runtime(run)?;
    let mut i: usize = 0;
    while i < locks.len()
        invariant
            i <= locks@.len(),
            run.kind == FileKind::Directory && run.uid == 0 && run.mode & 0o022 == 0,
            forall|j: int| 0 <= j < i ==> is_shared_lock(#[trigger] locks@[j]),
        decreases locks@.len() - i,
    {
        match check_lock(&locks[i]) {
            Err(e) => {
                assert(!is_shared_lock(locks@[i as int]));
                return Err(e);
            },
            Ok(_) => {},
        }
        i += 1;
    }
    Ok(())
}

/// The selection that setup leaves behind. Only a selection of a system service that is gone gives
/// way to the owner's.
pub open spec fn selection_of(
    selection: Option<ServiceSelection>,
    owner_uid: u32,
    startup: Policy,
    system_missing: bool,
    managed: bool,
) -> Result<Option<ServiceSelection>, Seq<char>> {
    match selection {
        None => Ok(None),
        Some(s) => if s.uid == owner_uid {
            Ok(Some(s))
        } else if s.scope == ServiceScope::System && system_missing && !managed && startup.user
            == Startup::Disabled && startup.system == Startup::Disabled {
            Ok(Some(ServiceSelection { scope: ServiceScope::User, uid: owner_uid }))
        } else {
            Err(
                "The host selects another service account. Stop the previous daemon cleanly and use the host control helper to select user mode for UID "@
                    + text::decimal(owner_uid as nat) + " before retrying setup"@,
            )
        },
    }
}

pub fn setup_selection(
    selection: Option<ServiceSelection>,
    owner_uid: u32,
    startup: Policy,
    system_missing: bool,
    managed: bool,
) -> (r: Result<Option<ServiceSelection>, String>)
    ensures
        outcome(r) == selection_of(selection, owner_uid, startup, system_missing, managed),
{
    match selection {
        None => Ok(None),
        Some(s) => {
            if s.uid == owner_uid {
                return Ok(Some(s));
            }
            if s.scope == ServiceScope::System && system_missing && !managed && startup.user
                == Startup::Disabled && startup.system == Startup::Disabled {
                return Ok(Some(ServiceSelection { scope: ServiceScope::User, uid: owner_uid }));
            }
            let mut e =
                "The host selects another service account. Stop the previous daemon cleanly and use the host control helper to select user mode for UID ".to_owned();
            e.append(text::format_u64(owner_uid as u64).as_str());
            e.append(" before retrying setup");
            Err(e)
        },
    }
}

/// A selection that setup leaves behind belongs to the owner, and setting up again keeps it, however
/// the services stand by then.
pub proof fn setup_selections_are_kept(
    selection: Option<ServiceSelection>,
    owner_uid: u32,
    startup: Policy,
    system_missing: bool,
    managed: bool,
    later: Policy,
    later_missing: bool,
    later_managed: bool,
)
    requires
        selection_of(selection, owner_uid, startup, system_missing, managed) is Ok,
    ensures
        selection_of(selection, owner_uid, startup, system_missing, managed)->Ok_0 matches Some(s)
            ==> s.uid == owner_uid,
        selection_of(
            selection_of(selection, owner_uid, startup, system_missing, managed)->Ok_0,
            owner_uid,
            later,
            later_missing,
            later_managed,
        ) == selection_of(selection, owner_uid, startup, system_missing, managed),
{
}

/// Whether the unit of the system service stands in the way of a boxed one.
pub open spec fn may_be_replaced(load_state: Seq<char>, boxed: bool, file_state: Seq<char>) -> bool {
    load_state == "not-found"@ || boxed || file_state == "disabled"@ || file_state == "masked"@
        || file_state == "masked-runtime"@ || file_state == ""@
}

/// What speaks against a setup in what the inspection reports. Otherwise the hardware lock to take
/// and whether the system service is missing.
pub open spec fn report_of(report: ServiceReport) -> Result<
    ((Seq<char>, Seq<char>), bool),
    Seq<char>,
> {
    match unit_of(report, ServiceScope::User) {
        Err(e) => Err(e),
        Ok(user) => if !is_idle(user) {
            Err("Stop both hardware services before installing managed wrappers"@)
        } else {
            match unit_of(report, ServiceScope::System) {
                Err(e) => Err(e),
                Ok(system) => if !is_idle(system) {
                    Err("Stop both hardware services before installing managed wrappers"@)
                } else {
                    match ownership_of(report) {
                        Err(e) => Err(e),
                        Ok(owner) => if !may_be_replaced(
                            system.load_state@,
                            system.distrobox_name is Some,
                            system.unit_file_state@,
                        ) {
                            Err(
                                "Disable native system-service startup before installing a boxed system wrapper"@,
                            )
                        } else if owner.owner_pid is Some {
                            Err("Stop the current hardware daemon before setup"@)
                        } else {
                            Ok((owner.identity@, system.load_state@ == "not-found"@))
                        },
                    }
                },
            }
        },
    }
}

/// Checks what the inspection reports. The result is the hardware lock to take and whether the
/// system service is missing.
pub fn check_report(report: &ServiceReport) -> (r: Result<(FileIdentity, bool), String>)
    ensures
        match r {
            Ok((identity, missing)) => report_of(*report) == Ok::<
                ((Seq<char>, Seq<char>), bool),
                Seq<char>,
            >((identity@, missing)),
            Err(e) => report_of(*report) == Err::<((Seq<char>, Seq<char>), bool), Seq<char>>(e@),
        },
{
    let user = unit(report, ServiceScope::User)?;
    if !idle(user) {
        return Err("Stop both hardware services before installing managed wrappers".to_owned());
    }
    let system = unit(report, ServiceScope::System)?;
    if !idle(system) {
        return Err("Stop both hardware services before installing managed wrappers".to_owned());
    }
    let owner = ownership(report)?;
    let missing = text::eq(system.load_state.as_str(), "not-found");
    let state = system.unit_file_state.as_str();
    if !(missing || system.distrobox_name.is_some() || text::eq(state, "disabled") || text::eq(
        state,
        "masked",
    ) || text::eq(state, "masked-runtime") || text::eq(state, "")) {
        return Err(
            "Disable native system-service startup before installing a boxed system wrapper".to_owned(),
        );
    }
    if owner.owner_pid.is_some() {
        return Err("Stop the current hardware daemon before setup".to_owned());
    }
    Ok((owner.identity.copy(), missing))
}

/// The stations of a setup.
#[derive(Clone, Copy, Debug, PartialEq, Eq, Structural)]
pub enum SetupStep {
    CheckContext,
    FindCaller,
    FindHelper,
    InitializeLocks,
    LockOperation,
    ReadJournal,
    InspectServices,
    ReadStartup,
    ReadSelection,
    ReserveHardware,
    ReadRecord,
    ReplaceSelection,
    WriteSystemUnit,
    WriteRecoveryUnit,
    WriteRuntimeRules,
    WriteAuthorizationRules,
    WriteAutostart,
    InstallUserUnits,
    EnableRecovery,
    ReloadManager,
    VerifyOperation,
    VerifyHardware,
    InstallRecord,
    Done,
    Failed,
}

/// The place of a station in the order of a setup.
pub open spec fn rank(step: SetupStep) -> int {
    match step {
        SetupStep::CheckContext => 0,
        SetupStep::FindCaller => 1,
        SetupStep::FindHelper => 2,
        SetupStep::InitializeLocks => 3,
        SetupStep::LockOperation => 4,
        SetupStep::ReadJournal => 5,
        SetupStep::InspectServices => 6,
        SetupStep::ReadStartup => 7,
        SetupStep::ReadSelection => 8,
        SetupStep::ReserveHardware => 9,
        SetupStep::ReadRecord => 10,
        SetupStep::ReplaceSelection => 11,
        SetupStep::WriteSystemUnit => 12,
        SetupStep::WriteRecoveryUnit => 13,
        SetupStep::WriteRuntimeRules => 14,
        SetupStep::WriteAuthorizationRules => 15,
        SetupStep::WriteAutostart => 16,
        SetupStep::InstallUserUnits => 17,
        SetupStep::EnableRecovery => 18,
        SetupStep::ReloadManager => 19,
        SetupStep::VerifyOperation => 20,
        SetupStep::VerifyHardware => 21,
        SetupStep::InstallRecord => 22,
        SetupStep::Done => 23,
        SetupStep::Failed => 24,
    }
}

/// A station that changes the host.
pub open spec fn writes(step: SetupStep) -> bool {
    rank(SetupStep::ReplaceSelection) <= rank(step) <= rank(SetupStep::ReloadManager) || step
        == SetupStep::InstallRecord
}

/// The station after one that only succeeds or fails.
pub open spec fn after(step: SetupStep) -> SetupStep {
    match step {
        SetupStep::InitializeLocks => SetupStep::LockOperation,
        SetupStep::LockOperation => SetupStep::ReadJournal,
        SetupStep::ReserveHardware => SetupStep::ReadRecord,
        SetupStep::ReplaceSelection => SetupStep::WriteSystemUnit,
        SetupStep::VerifyOperation => SetupStep::VerifyHardware,
        SetupStep::VerifyHardware => SetupStep::InstallRecord,
        _ => step,
    }
}

/// The station after one that writes a file.
pub open spec fn after_file(step: SetupStep) -> SetupStep {
    match step {
        SetupStep::WriteSystemUnit => SetupStep::WriteRecoveryUnit,
        SetupStep::WriteRecoveryUnit => SetupStep::WriteRuntimeRules,
        SetupStep::WriteRuntimeRules => SetupStep::WriteAuthorizationRules,
        SetupStep::WriteAuthorizationRules => SetupStep::WriteAutostart,
        SetupStep::WriteAutostart => SetupStep::InstallUserUnits,
        _ => step,
    }
}

/// A station that writes a file.
pub open spec fn is_file(step: SetupStep) -> bool {
    after_file(step) != step
}

/// Where the file of a station lies.
pub open spec fn file_path(step: SetupStep) -> Seq<char> {
    match step {
        SetupStep::WriteSystemUnit => "/etc/systemd/system/lianli-daemon-system.service"@,
        SetupStep::WriteRecoveryUnit => "/etc/systemd/system/lianli-control-recovery.service"@,
        SetupStep::WriteRuntimeRules => "/etc/tmpfiles.d/lianli.conf"@,
        SetupStep::WriteAuthorizationRules => "/etc/polkit-1/rules.d/49-lianli-recovery.rules"@,
        _ => "/etc/xdg/autostart/com.sgtaziz.lianlilinux.recovery.desktop"@,
    }
}

/// A station that only succeeds or fails.
pub open spec fn plain(step: SetupStep) -> bool {
    after(step) != step
}

/// What a helper station reports before the helper's own words.
pub open spec fn failure_words(step: SetupStep) -> Seq<char> {
    match step {
        SetupStep::InstallUserUnits => "User wrapper installation failed: "@,
        SetupStep::EnableRecovery => "Boot recovery setup failed: "@,
        _ => "System unit reload failed: "@,
    }
}

/// The station after a helper.
pub open spec fn after_helper(step: SetupStep) -> SetupStep {
    match step {
        SetupStep::InstallUserUnits => SetupStep::EnableRecovery,
        SetupStep::EnableRecovery => SetupStep::ReloadManager,
        _ => SetupStep::VerifyOperation,
    }
}

/// A recorded deployment, with what the rules on configuration file names hold of it.
pub struct Record {
    pub deployment: Deployment,
    pub names: ConfigNames,
}

/// A setup under way.
pub struct Setup {
    pub deployment: Deployment,
    pub names: ConfigNames,
    pub step: SetupStep,
    /// The account that asked for the setup.
    pub account: Option<Account>,
    /// Whether the packaged helper is the one that is installed.
    pub packaged: bool,
    pub system_missing: bool,
    pub startup: Policy,
    pub selection: Option<ServiceSelection>,
    /// The selection to publish, where it is another.
    pub selected: Option<ServiceSelection>,
    /// What an earlier setup recorded.
    pub previous: Option<Record>,
    pub report: Option<ServiceReport>,
    pub identity: Option<FileIdentity>,
    pub error: String,
    /// The stations that were passed, in order.
    pub log: Ghost<Seq<SetupStep>>,
}

/// Whether every station before one was passed. The selection is replaced only where it must be.
pub open spec fn reached(log: Seq<SetupStep>, step: SetupStep) -> bool {
    forall|s: SetupStep|
        rank(s) < rank(step) && s != SetupStep::ReplaceSelection ==> #[trigger] log.contains(s)
}

pub open spec fn setup_stops(before: Setup, now: Setup, text: Seq<char>) -> bool {
    now == (Setup { step: SetupStep::Failed, error: now.error, ..before }) && now.error@ == text
}

/// The station was passed, and nothing else changed.
pub open spec fn setup_moves(before: Setup, now: Setup, next: SetupStep) -> bool {
    now == (Setup { step: next, log: Ghost(before.log@.push(before.step)), ..before })
}

/// Whether the first failure is reported, or else the next station reached.
pub open spec fn setup_passes(
    before: Setup,
    now: Setup,
    complaint: Option<Seq<char>>,
    next: SetupStep,
) -> bool {
    match complaint {
        Some(text) => setup_stops(before, now, text),
        None => setup_moves(before, now, next),
    }
}

proof fn reached_next(log: Seq<SetupStep>, step: SetupStep, next: SetupStep)
    requires
        reached(log, step),
        rank(next) == rank(step) + 1 || step == SetupStep::ReadRecord && next
            == SetupStep::WriteSystemUnit,
    ensures
        reached(log.push(step), next),
{
    push_holds(log, step);
    assert forall|s: SetupStep|
        rank(s) < rank(next) && s != SetupStep::ReplaceSelection implies #[trigger] log.push(
        step,
    ).contains(s) by {
        assert(s == step || rank(s) < rank(step));
    }
}

impl Setup {
    /// Every station before the present one was passed, unless the setup failed. The report is kept
    /// until it is judged.
    pub open spec fn wf(self) -> bool {
        &&& self.step != SetupStep::Failed ==> reached(self.log@, self.step)
        &&& (self.step == SetupStep::ReadStartup || self.step == SetupStep::ReadSelection)
            ==> self.report is Some
        &&& rank(SetupStep::FindCaller) < rank(self.step) && self.step != SetupStep::Failed
            ==> self.account is Some && owner_complaint(
            self.deployment,
            self.names,
            self.account->0,
        ) is None
    }

    /// Begins the setup of a deployment. `names` says what the rules on configuration file names
    /// hold of its configurations.
    pub fn install(deployment: Deployment, names: ConfigNames) -> (r: Setup)
        ensures
            r.wf(),
            r.deployment == deployment,
            r.names == names,
            r.step == SetupStep::CheckContext,
            r.previous is None,
            r.log@ == Seq::<SetupStep>::empty(),
            r.account is None,
            !r.packaged,
            !r.system_missing,
            r.selection is None,
            r.selected is None,
            r.report is None,
            r.identity is None,
    {
        Setup {
            deployment,
            names,
            step: SetupStep::CheckContext,
            account: None,
            packaged: false,
            system_missing: false,
            startup: Policy { user: Startup::Disabled, system: Startup::Disabled },
            selection: None,
            selected: None,
            previous: None,
            report: None,
            identity: None,
            error: String::new(),
            log: Ghost(Seq::empty()),
        }
    }

    /// The present station failed.
    pub fn failed(&mut self, reason: &str)
        requires
            old(self).wf(),
        ensures
            final(self).wf(),
            setup_stops(*old(self), *final(self), reason@),
    {
        self.step = SetupStep::Failed;
        self.error = reason.to_owned();
    }

    fn advance(&mut self, next: SetupStep)
        requires
            old(self).wf(),
            old(self).step != SetupStep::Failed,
            rank(next) == rank(old(self).step) + 1 || old(self).step == SetupStep::ReadRecord && next
                == SetupStep::WriteSystemUnit,
            (next == SetupStep::ReadStartup || next == SetupStep::ReadSelection) ==> old(
                self,
            ).report is Some,
            rank(SetupStep::FindCaller) < rank(next) ==> old(self).account is Some
                && owner_complaint(
                old(self).deployment,
                old(self).names,
                old(self).account->0,
            ) is None,
        ensures
            final(self).wf(),
            setup_moves(*old(self), *final(self), next),
    {
        proof {
            reached_next(self.log@, self.step, next);
        }
        self.log = Ghost(self.log@.push(self.step));
        self.step = next;
    }

    /// A station that only succeeds or fails succeeded.
    pub fn done(&mut self)
        requires
            old(self).wf(),
            plain(old(self).step),
        ensures
            final(self).wf(),
            setup_moves(*old(self), *final(self), after(old(self).step)),
    {
        let next = match self.step {
            SetupStep::InitializeLocks => SetupStep::LockOperation,
            SetupStep::LockOperation => SetupStep::ReadJournal,
            SetupStep::ReserveHardware => SetupStep::ReadRecord,
            SetupStep::ReplaceSelection => SetupStep::WriteSystemUnit,
            SetupStep::VerifyOperation => SetupStep::VerifyHardware,
            SetupStep::VerifyHardware => SetupStep::InstallRecord,
            other => other,
        };
        self.advance(next);
    }

    /// Whether the program runs on the host.
    pub fn context(&mut self, native: bool)
        requires
            old(self).wf(),
            old(self).step == SetupStep::CheckContext,
        ensures
            final(self).wf(),
            setup_passes(
                *old(self),
                *final(self),
                if native {
                    None
                } else {
                    Some("Install managed services on the host"@)
                },
                SetupStep::FindCaller,
            ),
    {
        if native {
            self.advance(SetupStep::FindCaller);
        } else {
            self.failed("Install managed services on the host");
        }
    }

    /// The account that asked for the setup.
    pub fn caller(&mut self, account: Account)
        requires
            old(self).wf(),
            old(self).step == SetupStep::FindCaller,
        ensures
            final(self).wf(),
            match owner_complaint(old(self).deployment, old(self).names, account) {
                Some(text) => setup_stops(*old(self), *final(self), text),
                None => setup_moves(
                    (Setup { account: Some(account), ..*old(self) }),
                    *final(self),
                    SetupStep::FindHelper,
                ),
            },
    {
        match self.deployment.verify_owner(&account, &self.names) {
            Ok(_) => {
                self.account = Some(account);
                self.advance(SetupStep::FindHelper);
            },
            Err(e) => {
                self.failed(e.as_str());
            },
        }
    }

    /// The path of the installed helper, and that of the packaged one without links, where there is
    /// one.
    pub fn helper(&mut self, installed: &str, canonical: Option<&str>)
        requires
            old(self).wf(),
            old(self).step == SetupStep::FindHelper,
        ensures
            final(self).wf(),
            setup_moves(
                (Setup {
                    packaged: canonical is Some && path::same_path(canonical->0@, installed@),
                    ..*old(self)
                }),
                *final(self),
                SetupStep::InitializeLocks,
            ),
    {
        self.packaged = match canonical {
            Some(canonical) => path::same(canonical, installed),
            None => false,
        };
        self.advance(SetupStep::InitializeLocks);
    }

    /// Whether a switch is pending.
    pub fn journal(&mut self, pending: bool)
        requires
            old(self).wf(),
            old(self).step == SetupStep::ReadJournal,
        ensures
            final(self).wf(),
            setup_passes(
                *old(self),
                *final(self),
                if pending {
                    Some("Recover the pending switch before setting up services"@)
                } else {
                    None
                },
                SetupStep::InspectServices,
            ),
    {
        if pending {
            self.failed("Recover the pending switch before setting up services");
        } else {
            self.advance(SetupStep::InspectServices);
        }
    }

    /// What the inspection reports. It is judged once the startup and the selection are known.
    pub fn inspected(&mut self, report: ServiceReport)
        requires
            old(self).wf(),
            old(self).step == SetupStep::InspectServices,
        ensures
            final(self).wf(),
            setup_moves(
                (Setup { report: Some(report), ..*old(self) }),
                *final(self),
                SetupStep::ReadStartup,
            ),
    {
        self.report = Some(report);
        self.advance(SetupStep::ReadStartup);
    }

    /// Which services start by themselves.
    pub fn startup(&mut self, startup: Policy)
        requires
            old(self).wf(),
            old(self).step == SetupStep::ReadStartup,
        ensures
            final(self).wf(),
            setup_moves(
                (Setup { startup, ..*old(self) }),
                *final(self),
                SetupStep::ReadSelection,
            ),
    {
        self.startup = startup;
        self.advance(SetupStep::ReadSelection);
    }

    /// The service that the host selects. With it the report is judged.
    pub fn selection(&mut self, selection: Option<ServiceSelection>)
        requires
            old(self).wf(),
            old(self).step == SetupStep::ReadSelection,
        ensures
            final(self).wf(),
            match report_of(old(self).report->0) {
                Err(text) => setup_stops(*old(self), *final(self), text),
                Ok((identity, missing)) => {
                    &&& final(self).identity matches Some(i)
                    &&& i@ == identity
                    &&& setup_moves(
                        (Setup {
                            selection,
                            system_missing: missing,
                            identity: final(self).identity,
                            ..*old(self)
                        }),
                        *final(self),
                        SetupStep::ReserveHardware,
                    )
                },
            },
    {
        let judged = match &self.report {
            Some(report) => check_report(report),
            None => Err("Service state is unverified".to_owned()),
        };
        match judged {
            Ok((identity, missing)) => {
                self.selection = selection;
                self.identity = Some(identity);
                self.system_missing = missing;
                self.advance(SetupStep::ReserveHardware);
            },
            Err(e) => {
                self.failed(e.as_str());
            },
        }
    }

    /// What an earlier setup recorded. It must have been for the same account.
    pub fn record(&mut self, previous: Option<Record>)
        requires
            old(self).wf(),
            old(self).step == SetupStep::ReadRecord,
        ensures
            final(self).wf(),
            match record_of(*old(self), previous) {
                Err(text) => setup_stops(*old(self), *final(self), text),
                Ok(selected) => setup_moves(
                    (Setup { selected, previous, ..*old(self) }),
                    *final(self),
                    if selected == old(self).selection {
                        SetupStep::WriteSystemUnit
                    } else {
                        SetupStep::ReplaceSelection
                    },
                ),
            },
    {
        let judged = match &self.account {
            None => Ok(None),
            Some(account) => {
                let owned = match &previous {
                    Some(record) => record.deployment.verify_owner(account, &record.names),
                    None => Ok(()),
                };
                match owned {
                    Err(e) => Err(e),
                    Ok(_) => setup_selection(
                        self.selection,
                        account.uid,
                        self.startup,
                        self.system_missing,
                        previous.is_some(),
                    ),
                }
            },
        };
        let selected = match judged {
            Ok(selected) => selected,
            Err(e) => {
                self.failed(e.as_str());
                return;
            },
        };
        self.selected = selected;
        self.previous = previous;
        if same_selection(self.selected, self.selection) {
            self.advance(SetupStep::WriteSystemUnit);
        } else {
            self.advance(SetupStep::ReplaceSelection);
        }
    }

    /// A helper of the setup ended.
    pub fn output(&mut self, output: &Output)
        requires
            old(self).wf(),
            old(self).step == SetupStep::InstallUserUnits || old(self).step
                == SetupStep::EnableRecovery || old(self).step == SetupStep::ReloadManager,
        ensures
            final(self).wf(),
            setup_passes(
                *old(self),
                *final(self),
                if output.code == Some(0i32) {
                    None
                } else {
                    Some(failure_words(old(self).step) + text::trimmed(output.stderr@))
                },
                after_helper(old(self).step),
            ),
    {
        if output.success() {
            let next = match self.step {
                SetupStep::InstallUserUnits => SetupStep::EnableRecovery,
                SetupStep::EnableRecovery => SetupStep::ReloadManager,
                _ => SetupStep::VerifyOperation,
            };
            self.advance(next);
        } else {
            let mut e = match self.step {
                SetupStep::InstallUserUnits => "User wrapper installation failed: ".to_owned(),
                SetupStep::EnableRecovery => "Boot recovery setup failed: ".to_owned(),
                _ => "System unit reload failed: ".to_owned(),
            };
            e.append(text::trim(output.stderr.as_str()).as_str());
            self.failed(e.as_str());
        }
    }

    /// The file of the present station. `text` is the packaged file, which the system's unit does not
    /// need.
    pub fn file(&self, text: &str) -> (r: Result<UserUnit, String>)
        requires
            is_file(self.step),
        ensures
            match r {
                Ok(file) => {
                    &&& file.path@ == file_path(self.step)
                    &&& file_of(*self, text@) == Ok::<(Seq<char>, Seq<Seq<char>>), Seq<char>>(
                        (file.contents@, texts(file.previous@)),
                    )
                },
                Err(e) => file_of(*self, text@) == Err::<(Seq<char>, Seq<Seq<char>>), Seq<char>>(
                    e@,
                ),
            },
    {
        let (path, (contents, previous)) = match self.step {
            SetupStep::WriteSystemUnit => (
                "/etc/systemd/system/lianli-daemon-system.service".to_owned(),
                self.system_unit()?,
            ),
            SetupStep::WriteRecoveryUnit => (
                "/etc/systemd/system/lianli-control-recovery.service".to_owned(),
                self.supplied(text),
            ),
            SetupStep::WriteRuntimeRules => (
                "/etc/tmpfiles.d/lianli.conf".to_owned(),
                (text.to_owned(), Vec::new()),
            ),
            SetupStep::WriteAuthorizationRules => (
                "/etc/polkit-1/rules.d/49-lianli-recovery.rules".to_owned(),
                (text.to_owned(), Vec::new()),
            ),
            _ => (
                "/etc/xdg/autostart/com.sgtaziz.lianlilinux.recovery.desktop".to_owned(),
                self.supplied(text),
            ),
        };
        assert(texts(Seq::<String>::empty()) =~= Seq::<Seq<char>>::empty());
        Ok(UserUnit { path, contents, previous })
    }

    /// How the write of the present station's file ended. `text` is the packaged file.
    pub fn wrote(&mut self, text: &str, write: &FileWrite)
        requires
            old(self).wf(),
            is_file(old(self).step),
            write.wf(),
            write.ended(),
            write.path@ == file_path(old(self).step),
            write.owner == 0,
            file_of(*old(self), text@) == Ok::<(Seq<char>, Seq<Seq<char>>), Seq<char>>(
                (write.contents@, texts(write.previous@)),
            ),
        ensures
            final(self).wf(),
            match write.step {
                FileStep::Written => setup_moves(
                    *old(self),
                    *final(self),
                    after_file(old(self).step),
                ),
                _ => setup_stops(*old(self), *final(self), write.error@),
            },
    {
        match write.step {
            FileStep::Written => {
                let next = match self.step {
                    SetupStep::WriteSystemUnit => SetupStep::WriteRecoveryUnit,
                    SetupStep::WriteRecoveryUnit => SetupStep::WriteRuntimeRules,
                    SetupStep::WriteRuntimeRules => SetupStep::WriteAuthorizationRules,
                    SetupStep::WriteAuthorizationRules => SetupStep::WriteAutostart,
                    _ => SetupStep::InstallUserUnits,
                };
                self.advance(next);
            },
            _ => {
                self.failed(write.error.as_str());
            },
        }
    }

    /// How the recording of this deployment for this account ended.
    pub fn installed(&mut self, installation: &Installation)
        requires
            old(self).wf(),
            old(self).step == SetupStep::InstallRecord,
            installation.wf(),
            installation.deployment == old(self).deployment,
            installation.names == old(self).names,
            installation.account == old(self).account->0,
            installation.step == RecordStep::Recorded || installation.step == RecordStep::Failed,
        ensures
            final(self).wf(),
            match installation.step {
                RecordStep::Recorded => setup_moves(*old(self), *final(self), SetupStep::Done),
                _ => setup_stops(*old(self), *final(self), installation.error@),
            },
    {
        match installation.step {
            RecordStep::Recorded => {
                self.advance(SetupStep::Done);
            },
            _ => {
                self.failed(installation.error.as_str());
            },
        }
    }

    /// The unit of the system service to write, and the one that it may replace.
    pub fn system_unit(&self) -> (r: Result<(String, Vec<String>), String>)
        ensures
            match r {
                Ok((contents, previous)) => system_unit_of(*self) == Ok::<
                    (Seq<char>, Seq<Seq<char>>),
                    Seq<char>,
                >((contents@, texts(previous@))),
                Err(e) => system_unit_of(*self) == Err::<(Seq<char>, Seq<Seq<char>>), Seq<char>>(
                    e@,
                ),
            },
    {
        let mut previous: Vec<String> = Vec::new();
        match &self.previous {
            Some(record) => {
                let unit = record.deployment.unit(ServiceScope::System, &record.names)?;
                let ghost old_text = unit@;
                previous.push(unit);
                assert(texts(previous@) =~= seq![old_text]);
            },
            None => {
                assert(texts(previous@) =~= Seq::<Seq<char>>::empty());
            },
        }
        let contents = self.deployment.unit(ServiceScope::System, &self.names)?;
        Ok((contents, previous))
    }

    /// A supplied file that names the helper: as it is to be written, and what it may replace.
    pub fn supplied(&self, text: &str) -> (r: (String, Vec<String>))
        ensures
            r.0@ == supplied_of(text@, self.packaged),
            texts(r.1@) == seq![text@, supplied_of(text@, false)],
    {
        proof {
            reveal_strlit("/usr/bin/lianli-control");
        }
        let standalone = text::replace_all(
            text,
            host_helper::packaged(),
            host_helper::standalone(),
        );
        let contents = if self.packaged {
            text::replace_all(text, host_helper::packaged(), host_helper::packaged())
        } else {
            standalone.clone()
        };
        let mut previous: Vec<String> = Vec::new();
        previous.push(text.to_owned());
        previous.push(standalone);
        assert(texts(previous@) =~= seq![text@, supplied_of(text@, false)]);
        (contents, previous)
    }
}

/// What the file of a setup's station holds and what it may replace, by the packaged file.
pub open spec fn file_of(setup: Setup, text: Seq<char>) -> Result<
    (Seq<char>, Seq<Seq<char>>),
    Seq<char>,
> {
    match setup.step {
        SetupStep::WriteSystemUnit => system_unit_of(setup),
        SetupStep::WriteRuntimeRules | SetupStep::WriteAuthorizationRules => Ok(
            (text, Seq::empty()),
        ),
        _ => Ok(
            (supplied_of(text, setup.packaged), seq![text, supplied_of(text, false)]),
        ),
    }
}

/// A supplied file with the path of the installed helper in it.
pub open spec fn supplied_of(s: Seq<char>, packaged: bool) -> Seq<char> {
    text::replaced_from(
        s,
        host_helper::packaged_spec(),
        if packaged {
            host_helper::packaged_spec()
        } else {
            host_helper::standalone_spec()
        },
        0,
    )
}

fn same_selection(a: Option<ServiceSelection>, b: Option<ServiceSelection>) -> (r: bool)
    ensures
        r == (a == b),
{
    match (a, b) {
        (Some(x), Some(y)) => x == y,
        (None, None) => true,
        _ => false,
    }
}

/// What an earlier record means for a setup: the selection to leave behind.
pub open spec fn record_of(setup: Setup, previous: Option<Record>) -> Result<
    Option<ServiceSelection>,
    Seq<char>,
> {
    let account = setup.account->0;
    match previous {
        Some(record) if owner_complaint(record.deployment, record.names, account) is Some => Err(
            owner_complaint(record.deployment, record.names, account)->0,
        ),
        _ => selection_of(
            setup.selection,
            account.uid,
            setup.startup,
            setup.system_missing,
            previous is Some,
        ),
    }
}

/// The unit of the system service that a setup writes, and what it may replace.
pub open spec fn system_unit_of(setup: Setup) -> Result<(Seq<char>, Seq<Seq<char>>), Seq<char>> {
    let unit = deployed_unit(setup.deployment, setup.names, ServiceScope::System);
    match setup.previous {
        None => match unit {
            Err(e) => Err(e),
            Ok(contents) => Ok((contents, Seq::empty())),
        },
        Some(record) => match deployed_unit(
            record.deployment,
            record.names,
            ServiceScope::System,
        ) {
            Err(e) => Err(e),
            Ok(old_unit) => match unit {
                Err(e) => Err(e),
                Ok(contents) => Ok((contents, seq![old_unit])),
            },
        },
    }
}

/// Nothing on the host changes before the caller owns the deployment, no switch is pending, both
/// services are idle and the hardware is reserved.
pub proof fn changes_follow_the_reservation(setup: Setup)
    requires
        setup.wf(),
        writes(setup.step),
    ensures
        setup.log@.contains(SetupStep::FindCaller),
        setup.log@.contains(SetupStep::LockOperation),
        setup.log@.contains(SetupStep::ReadJournal),
        setup.log@.contains(SetupStep::InspectServices),
        setup.log@.contains(SetupStep::ReserveHardware),
        setup.log@.contains(SetupStep::ReadRecord),
{
}

/// The record is installed last, when every file is written, the managers have reloaded and both
/// locks were verified again.
pub proof fn the_record_is_installed_last(setup: Setup)
    requires
        setup.wf(),
        setup.step == SetupStep::InstallRecord,
    ensures
        forall|s: SetupStep|
            rank(s) < rank(SetupStep::InstallRecord) && s != SetupStep::ReplaceSelection
                ==> #[trigger] setup.log@.contains(s),
{
}

/// A setup that is done has installed the record.
pub proof fn finished_setups_have_a_record(setup: Setup)
    requires
        setup.wf(),
        setup.step == SetupStep::Done,
    ensures
        setup.log@.contains(SetupStep::InstallRecord),
{
    assert(rank(SetupStep::InstallRecord) < rank(SetupStep::Done));
}

/// A file to write, and what it may replace.
pub struct UserUnit {
    pub path: String,
    pub contents: String,
    pub previous: Vec<String>,
}

/// The user's daemon unit that a setup writes.
pub open spec fn daemon_unit_of(
    deployment: Deployment,
    names: ConfigNames,
    previous: Option<(&Deployment, &ConfigNames)>,
    account: Account,
) -> Result<(Seq<char>, Seq<Seq<char>>), Seq<char>> {
    let launch = deployment.route.launch;
    match owner_complaint(deployment, names, account) {
        Some(e) => Err(e),
        None => match generate_of(launch.name@, launch.host_enter@, launch.binaries@) {
            Err(e) => Err(e),
            Ok(simple) => match previous {
                None => match deployed_unit(deployment, names, ServiceScope::User) {
                    Err(e) => Err(e),
                    Ok(unit) => Ok((unit, seq![simple])),
                },
                Some((record, record_names)) => match owner_complaint(
                    *record,
                    *record_names,
                    account,
                ) {
                    Some(e) => Err(e),
                    None => match deployed_unit(*record, *record_names, ServiceScope::User) {
                        Err(e) => Err(e),
                        Ok(old_unit) => match deployed_unit(
                            deployment,
                            names,
                            ServiceScope::User,
                        ) {
                            Err(e) => Err(e),
                            Ok(unit) => Ok((unit, seq![simple, old_unit])),
                        },
                    },
                },
            },
        },
    }
}

/// Where a user's units lie.
pub open spec fn user_unit_path(home: Seq<char>, name: Seq<char>) -> Seq<char> {
    path::join_of(path::join_of(home, ".config/systemd/user"@), name)
}

fn user_unit_location(home: &str, name: &str) -> (r: String)
    ensures
        r@ == user_unit_path(home@, name@),
{
    path::join(path::join(home, ".config/systemd/user").as_str(), name)
}

/// The user's daemon unit to write, on the host.
pub fn install_user(
    native: bool,
    deployment: &Deployment,
    names: &ConfigNames,
    previous: Option<(&Deployment, &ConfigNames)>,
    account: &Account,
) -> (r: Result<UserUnit, String>)
    ensures
        match r {
            _ if !native => r matches Err(e) && e@ == "Install user wrappers on the host"@,
            Ok(unit) => {
                &&& daemon_unit_of(*deployment, *names, previous, *account) == Ok::<
                    (Seq<char>, Seq<Seq<char>>),
                    Seq<char>,
                >((unit.contents@, texts(unit.previous@)))
                &&& unit.path@ == user_unit_path(account.home@, ServiceScope::User.unit_spec())
            },
            Err(e) => daemon_unit_of(*deployment, *names, previous, *account) == Err::<
                (Seq<char>, Seq<Seq<char>>),
                Seq<char>,
            >(e@),
        },
{
    if !native {
        return Err("Install user wrappers on the host".to_owned());
    }
    deployment.verify_owner(account, names)?;
    let launch = &deployment.route.launch;
    let simple = distrobox_unit::generate(
        launch.name.as_str(),
        launch.host_enter.as_str(),
        launch.binaries.as_str(),
    )?;
    let mut replaceable: Vec<String> = Vec::new();
    let ghost simple_text = simple@;
    replaceable.push(simple);
    assert(texts(replaceable@) =~= seq![simple_text]);
    match previous {
        Some((record, record_names)) => {
            record.verify_owner(account, record_names)?;
            let old_unit = record.unit(ServiceScope::User, record_names)?;
            let ghost old_text = old_unit@;
            replaceable.push(old_unit);
            assert(texts(replaceable@) =~= seq![simple_text, old_text]);
        },
        None => {},
    }
    let contents = deployment.unit(ServiceScope::User, names)?;
    Ok(
        UserUnit {
            path: user_unit_location(account.home.as_str(), ServiceScope::User.unit()),
            contents,
            previous: replaceable,
        },
    )
}

/// The desktop capture unit of a deployment.
pub open spec fn session_of(deployment: Deployment) -> Result<Seq<char>, Seq<char>> {
    let launch = deployment.route.launch;
    generate_session_of(launch.name@, launch.host_enter@, launch.binaries@)
}

fn session(deployment: &Deployment) -> (r: Result<String, String>)
    ensures
        written(r) == session_of(*deployment),
{
    let launch = &deployment.route.launch;
    distrobox_unit::generate_session(
        launch.name.as_str(),
        launch.host_enter.as_str(),
        launch.binaries.as_str(),
    )
}

pub open spec fn session_unit_of(deployment: Deployment, previous: Option<&Deployment>) -> Result<
    (Seq<char>, Seq<Seq<char>>),
    Seq<char>,
> {
    match session_of(deployment) {
        Err(e) => Err(e),
        Ok(unit) => match previous {
            None => Ok((unit, Seq::empty())),
            Some(record) => match session_of(*record) {
                Err(e) => Err(e),
                Ok(old_unit) => Ok((unit, seq![old_unit])),
            },
        },
    }
}

/// The user's desktop capture unit to write.
pub fn install_session(
    deployment: &Deployment,
    previous: Option<&Deployment>,
    account: &Account,
) -> (r: Result<UserUnit, String>)
    ensures
        match r {
            Ok(unit) => {
                &&& session_unit_of(*deployment, previous) == Ok::<
                    (Seq<char>, Seq<Seq<char>>),
                    Seq<char>,
                >((unit.contents@, texts(unit.previous@)))
                &&& unit.path@ == user_unit_path(account.home@, "lianli-session.service"@)
            },
            Err(e) => session_unit_of(*deployment, previous) == Err::<
                (Seq<char>, Seq<Seq<char>>),
                Seq<char>,
            >(e@),
        },
{
    let contents = session(deployment)?;
    let mut replaceable: Vec<String> = Vec::new();
    match previous {
        Some(record) => {
            let old_unit = session(record)?;
            let ghost old_text = old_unit@;
            replaceable.push(old_unit);
            assert(texts(replaceable@) =~= seq![old_text]);
        },
        None => {
            assert(texts(replaceable@) =~= Seq::<Seq<char>>::empty());
        },
    }
    Ok(
        UserUnit {
            path: user_unit_location(account.home.as_str(), "lianli-session.service"),
            contents,
            previous: replaceable,
        },
    )
}

/// The arguments of the helper that installs the user's units under the owner's account.
pub open spec fn user_units_arguments_of(deployment: Seq<char>, previous: Seq<char>) -> Seq<Seq<char>> {
    seq![
        "install-container-user-units"@,
        "--deployment"@,
        deployment,
        "--previous"@,
        previous,
    ]
}

pub fn user_units_arguments(deployment: &str, previous: &str) -> (r: Vec<String>)
    ensures
        texts(r@) == user_units_arguments_of(deployment@, previous@),
{
    let mut r: Vec<String> = Vec::new();
    r.push("install-container-user-units".to_owned());
    r.push("--deployment".to_owned());
    r.push(deployment.to_owned());
    r.push("--previous".to_owned());
    r.push(previous.to_owned());
    assert(texts(r@) =~= user_units_arguments_of(deployment@, previous@));
    r
}

/// The arguments of systemctl that start recovery with the system.
pub open spec fn recovery_arguments_of() -> Seq<Seq<char>> {
    seq![
        "--system"@,
        "--no-reload"@,
        "add-wants"@,
        "multi-user.target"@,
        "lianli-control-recovery.service"@,
    ]
}

pub fn recovery_arguments() -> (r: Vec<String>)
    ensures
        texts(r@) == recovery_arguments_of(),
{
    let mut r: Vec<String> = Vec::new();
    r.push("--system".to_owned());
    r.push("--no-reload".to_owned());
    r.push("add-wants".to_owned());
    r.push("multi-user.target".to_owned());
    r.push("lianli-control-recovery.service".to_owned());
    assert(texts(r@) =~= recovery_arguments_of());
    r
}

/// The arguments of systemctl that make a manager read its units again.
pub open spec fn reload_arguments_of(scope: ServiceScope) -> Seq<Seq<char>> {
    seq![
        scope.argument_spec(),
        "daemon-reload"@,
    ]
}

pub fn reload_arguments(scope: ServiceScope) -> (r: Vec<String>)
    ensures
        texts(r@) == reload_arguments_of(scope),
{
    let mut r: Vec<String> = Vec::new();
    r.push(scope.argument().to_owned());
    r.push("daemon-reload".to_owned());
    assert(texts(r@) =~= reload_arguments_of(scope));
    r
}

/// The arguments of systemctl that start the desktop capture with the session.
pub open spec fn session_arguments_of() -> Seq<Seq<char>> {
    seq![
        "--user"@,
        "enable"@,
        "lianli-session.service"@,
    ]
}

pub fn session_arguments() -> (r: Vec<String>)
    ensures
        texts(r@) == session_arguments_of(),
{
    let mut r: Vec<String> = Vec::new();
    r.push("--user".to_owned());
    r.push("enable".to_owned());
    r.push("lianli-session.service".to_owned());
    assert(texts(r@) =~= session_arguments_of());
    r
}

/// Where the installation of a user's units stands.
#[derive(Clone, Copy, Debug, PartialEq, Eq, Structural)]
pub enum UserSetupStep {
    CheckContext,
    Compose,
    WriteUnit,
    ComposeSession,
    WriteSession,
    Reload,
    Enable,
    Installed,
    Failed,
}

pub open spec fn user_setup_rank(step: UserSetupStep) -> int {
    match step {
        UserSetupStep::CheckContext => 0,
        UserSetupStep::Compose => 1,
        UserSetupStep::WriteUnit => 2,
        UserSetupStep::ComposeSession => 3,
        UserSetupStep::WriteSession => 4,
        UserSetupStep::Reload => 5,
        UserSetupStep::Enable => 6,
        UserSetupStep::Installed => 7,
        UserSetupStep::Failed => 8,
    }
}

/// Whether a write is that of a unit.
pub open spec fn carries(write: FileWrite, unit: UserUnit, owner: u32) -> bool {
    &&& write.path@ == unit.path@
    &&& write.owner == owner
    &&& write.contents@ == unit.contents@
    &&& texts(write.previous@) == texts(unit.previous@)
}

/// The installation of a user's units: the daemon's, then the desktop capture's.
pub struct UserSetup {
    pub deployment: Deployment,
    pub names: ConfigNames,
    /// What an earlier setup recorded.
    pub previous: Option<Record>,
    /// The account whose units they are.
    pub account: Account,
    /// The unit to write now.
    pub unit: Option<UserUnit>,
    pub step: UserSetupStep,
    pub error: String,
    /// The steps that succeeded, in order.
    pub log: Ghost<Seq<UserSetupStep>>,
}

pub open spec fn user_setup_stops(before: UserSetup, after: UserSetup, text: Seq<char>) -> bool {
    after == (UserSetup { step: UserSetupStep::Failed, error: after.error, ..before })
        && after.error@ == text
}

pub open spec fn user_setup_moves(before: UserSetup, after: UserSetup, next: UserSetupStep) -> bool {
    after == (UserSetup { step: next, log: Ghost(before.log@.push(before.step)), ..before })
}

impl UserSetup {
    /// Every step before the present one succeeded.
    pub open spec fn wf(self) -> bool {
        self.step != UserSetupStep::Failed ==> {
            &&& forall|s: UserSetupStep|
                user_setup_rank(s) < user_setup_rank(self.step) ==> #[trigger] self.log@.contains(s)
            &&& self.step == UserSetupStep::WriteUnit || self.step == UserSetupStep::WriteSession ==> self.unit is Some
        }
    }

    pub fn begin(
        deployment: Deployment,
        names: ConfigNames,
        previous: Option<Record>,
        account: Account,
    ) -> (r: UserSetup)
        ensures
            r.wf(),
            r.deployment == deployment,
            r.names == names,
            r.previous == previous,
            r.account == account,
            r.step == UserSetupStep::CheckContext,
            r.log@ == Seq::<UserSetupStep>::empty(),
            r.unit is None,
    {
        UserSetup {
            deployment,
            names,
            previous,
            account,
            unit: None,
            step: UserSetupStep::CheckContext,
            error: String::new(),
            log: Ghost(Seq::empty()),
        }
    }

    fn advance(&mut self, next: UserSetupStep)
        requires
            (UserSetup {
                step: next,
                log: Ghost(old(self).log@.push(old(self).step)),
                ..*old(self)
            }).wf(),
        ensures
            final(self).wf(),
            user_setup_moves(*old(self), *final(self), next),
    {
        self.log = Ghost(self.log@.push(self.step));
        self.step = next;
    }

    /// A step could not be done.
    pub fn failed(&mut self, reason: &str)
        ensures
            final(self).wf(),
            user_setup_stops(*old(self), *final(self), reason@),
    {
        self.step = UserSetupStep::Failed;
        self.error = reason.to_owned();
    }

    /// Units are installed only on the host.
    pub fn context(&mut self, native: bool)
        requires
            old(self).wf(),
            old(self).step == UserSetupStep::CheckContext,
        ensures
            final(self).wf(),
            match if native {
                None::<Seq<char>>
            } else {
                Some("Install user wrappers on the host"@)
            } {
                Some(e) => user_setup_stops(*old(self), *final(self), e),
                None => user_setup_moves(*old(self), *final(self), UserSetupStep::Compose),
            },
    {
        match (if native {
            Ok::<(), String>(())
        } else {
            Err("Install user wrappers on the host".to_owned())
        }) {
            Err(e) => {
                self.failed(e.as_str());
            },
            Ok(_) => {
                proof {
                    push_holds(self.log@, self.step);
                }
                self.advance(UserSetupStep::Compose);
            },
        }
    }

    /// The daemon's unit is made up.
    pub fn compose(&mut self)
        requires
            old(self).wf(),
            old(self).step == UserSetupStep::Compose,
        ensures
            final(self).wf(),
            match daemon_unit_of(
                old(self).deployment,
                old(self).names,
                match old(self).previous {
                    Some(record) => Some((&record.deployment, &record.names)),
                    None => None,
                },
                old(self).account,
            ) {
                Err(e) => user_setup_stops(*old(self), *final(self), e),
                Ok((contents, replaceable)) => {
                    &&& *final(self) == (UserSetup {
                        unit: final(self).unit,
                        step: UserSetupStep::WriteUnit,
                        log: Ghost(old(self).log@.push(old(self).step)),
                        ..*old(self)
                    })
                    &&& final(self).unit matches Some(unit)
                    &&& unit.path@ == user_unit_path(
                        old(self).account.home@,
                        ServiceScope::User.unit_spec(),
                    )
                    &&& unit.contents@ == contents
                    &&& texts(unit.previous@) == replaceable
                },
            },
    {
        let previous = match &self.previous {
            Some(record) => Some((&record.deployment, &record.names)),
            None => None,
        };
        let composed = install_user(true, &self.deployment, &self.names, previous, &self.account);
        match composed {
            Err(e) => {
                self.failed(e.as_str());
            },
            Ok(unit) => {
                self.unit = Some(unit);
                proof {
                    push_holds(self.log@, self.step);
                }
                self.advance(UserSetupStep::WriteUnit);
            },
        }
    }

    /// How the write of the daemon's unit ended.
    pub fn unit_written(&mut self, write: &FileWrite)
        requires
            old(self).wf(),
            old(self).step == UserSetupStep::WriteUnit,
            write.wf(),
            write.ended(),
            carries(*write, old(self).unit->0, old(self).account.uid),
        ensures
            final(self).wf(),
            match write.step {
                FileStep::Written => user_setup_moves(
                    *old(self),
                    *final(self),
                    UserSetupStep::ComposeSession,
                ),
                _ => user_setup_stops(*old(self), *final(self), write.error@),
            },
    {
        match write.step {
            FileStep::Written => {
                proof {
                    push_holds(self.log@, self.step);
                }
                self.advance(UserSetupStep::ComposeSession);
            },
            _ => {
                self.failed(write.error.as_str());
            },
        }
    }

    /// The desktop capture's unit is made up.
    pub fn compose_session(&mut self)
        requires
            old(self).wf(),
            old(self).step == UserSetupStep::ComposeSession,
        ensures
            final(self).wf(),
            match session_unit_of(
                old(self).deployment,
                match old(self).previous {
                    Some(record) => Some(&record.deployment),
                    None => None,
                },
            ) {
                Err(e) => user_setup_stops(*old(self), *final(self), e),
                Ok((contents, replaceable)) => {
                    &&& *final(self) == (UserSetup {
                        unit: final(self).unit,
                        step: UserSetupStep::WriteSession,
                        log: Ghost(old(self).log@.push(old(self).step)),
                        ..*old(self)
                    })
                    &&& final(self).unit matches Some(unit)
                    &&& unit.path@ == user_unit_path(
                        old(self).account.home@,
                        "lianli-session.service"@,
                    )
                    &&& unit.contents@ == contents
                    &&& texts(unit.previous@) == replaceable
                },
            },
    {
        let previous = match &self.previous {
            Some(record) => Some(&record.deployment),
            None => None,
        };
        let composed = install_session(&self.deployment, previous, &self.account);
        match composed {
            Err(e) => {
                self.failed(e.as_str());
            },
            Ok(unit) => {
                self.unit = Some(unit);
                proof {
                    push_holds(self.log@, self.step);
                }
                self.advance(UserSetupStep::WriteSession);
            },
        }
    }

    /// How the write of the desktop capture's unit ended.
    pub fn session_written(&mut self, write: &FileWrite)
        requires
            old(self).wf(),
            old(self).step == UserSetupStep::WriteSession,
            write.wf(),
            write.ended(),
            carries(*write, old(self).unit->0, old(self).account.uid),
        ensures
            final(self).wf(),
            match write.step {
                FileStep::Written => user_setup_moves(
                    *old(self),
                    *final(self),
                    UserSetupStep::Reload,
                ),
                _ => user_setup_stops(*old(self), *final(self), write.error@),
            },
    {
        match write.step {
            FileStep::Written => {
                proof {
                    push_holds(self.log@, self.step);
                }
                self.advance(UserSetupStep::Reload);
            },
            _ => {
                self.failed(write.error.as_str());
            },
        }
    }

    /// The user's manager read its units again.
    pub fn reloaded(&mut self, output: &Output)
        requires
            old(self).wf(),
            old(self).step == UserSetupStep::Reload,
        ensures
            final(self).wf(),
            match output_complaint(*output, "User unit reload failed: "@) {
                Some(e) => user_setup_stops(*old(self), *final(self), e),
                None => user_setup_moves(*old(self), *final(self), UserSetupStep::Enable),
            },
    {
        match check_output(output, "User unit reload failed: ") {
            Err(e) => {
                self.failed(e.as_str());
            },
            Ok(_) => {
                proof {
                    push_holds(self.log@, self.step);
                }
                self.advance(UserSetupStep::Enable);
            },
        }
    }

    /// The desktop capture starts with the session.
    pub fn enabled(&mut self, output: &Output)
        requires
            old(self).wf(),
            old(self).step == UserSetupStep::Enable,
        ensures
            final(self).wf(),
            match output_complaint(*output, "Desktop capture startup could not be enabled: "@) {
                Some(e) => user_setup_stops(*old(self), *final(self), e),
                None => user_setup_moves(*old(self), *final(self), UserSetupStep::Installed),
            },
    {
        match check_output(output, "Desktop capture startup could not be enabled: ") {
            Err(e) => {
                self.failed(e.as_str());
            },
            Ok(_) => {
                proof {
                    push_holds(self.log@, self.step);
                }
                self.advance(UserSetupStep::Installed);
            },
        }
    }
}

/// The user's units count as installed only after both were written and the manager read them.
pub proof fn user_units_are_written_before_the_reload(m: UserSetup)
    requires
        m.wf(),
        m.step == UserSetupStep::Installed,
    ensures
        m.log@.contains(UserSetupStep::CheckContext),
        m.log@.contains(UserSetupStep::WriteUnit),
        m.log@.contains(UserSetupStep::WriteSession),
        m.log@.contains(UserSetupStep::Reload),
        m.log@.contains(UserSetupStep::Enable),
{
}

/// What to do about a file, by what stands in its place.
pub open spec fn decision_of(
    file: FileWrite,
    found: Option<(&Metadata, Result<&str, String>)>,
) -> Result<Write, Seq<char>> {
    match found {
        None => write_of(file.path@, file.contents@, None, texts(file.previous@)),
        Some((m, there)) => if !is_replaceable(*m, file.owner) {
            Err("Existing setup file has unsafe ownership, permissions or size"@)
        } else {
            match there {
                Err(e) => Err(e@),
                Ok(there) => write_of(
                    file.path@,
                    file.contents@,
                    Some(there@),
                    texts(file.previous@),
                ),
            }
        },
    }
}

/// Where a file that setup supplies stands.
#[derive(Clone, Copy, Debug, PartialEq, Eq, Structural)]
pub enum FileStep {
    CheckSize,
    OpenDirectory,
    ReadExisting,
    BackUp,
    WriteFile,
    SyncDirectory,
    Written,
    Failed,
}

pub open spec fn file_rank(step: FileStep) -> int {
    match step {
        FileStep::CheckSize => 0,
        FileStep::OpenDirectory => 1,
        FileStep::ReadExisting => 2,
        FileStep::BackUp => 3,
        FileStep::WriteFile => 4,
        FileStep::SyncDirectory => 5,
        FileStep::Written => 6,
        FileStep::Failed => 7,
    }
}

/// A file that is as it should be is not written, and only one that is replaced is copied.
pub open spec fn file_takes(step: FileStep, decision: Write) -> bool {
    match step {
        FileStep::BackUp => decision == Write::BackUpAndReplace,
        FileStep::WriteFile | FileStep::SyncDirectory => decision != Write::Keep,
        _ => true,
    }
}

/// A file that setup supplies: what stands in its place is kept unless setup once wrote it, and
/// then a copy of it is made durable first.
pub struct FileWrite {
    pub path: String,
    pub owner: u32,
    pub contents: String,
    /// What setup may have written there before.
    pub previous: Vec<String>,
    /// The directories to enter below the boundary, once they are known.
    pub descent: Vec<String>,
    /// How many places were found safe, the boundary first, not counting the last of them.
    pub entered: usize,
    pub decision: Write,
    /// What stands there, where it is replaced.
    pub existing: String,
    pub step: FileStep,
    pub error: String,
    /// The steps that succeeded, in order.
    pub log: Ghost<Seq<FileStep>>,
}

pub open spec fn file_stops(before: FileWrite, after: FileWrite, text: Seq<char>) -> bool {
    after == (FileWrite { step: FileStep::Failed, error: after.error, ..before })
        && after.error@ == text
}

pub open spec fn file_moves(before: FileWrite, after: FileWrite, next: FileStep) -> bool {
    after == (FileWrite { step: next, log: Ghost(before.log@.push(before.step)), ..before })
}

/// The directory that a file must lie below.
pub open spec fn boundary_of(owner: u32, home: Seq<char>) -> Seq<char> {
    if owner == 0 {
        "/etc"@
    } else {
        home
    }
}

/// A file to write: where, what it holds and who may read it.
pub struct Supply {
    pub path: String,
    pub contents: String,
    pub mode: u32,
}

/// Whether a file is the copy of what a write replaces.
pub open spec fn is_copy(write: FileWrite, drawn: Seq<char>, copy: Supply) -> bool {
    &&& path::parent_of(write.path@) is Some
    &&& copy.path@ == path::join_of(
        path::parent_of(write.path@)->0,
        ".lianli-before-setup-"@ + drawn,
    )
    &&& copy.contents@ == write.existing@
    &&& copy.mode == 0o600
}

impl FileWrite {
    /// Every step taken before the present one succeeded.
    pub open spec fn wf(self) -> bool {
        self.step != FileStep::Failed ==> {
            &&& forall|s: FileStep|
                file_rank(s) < file_rank(self.step) && file_takes(s, self.decision)
                    ==> #[trigger] self.log@.contains(s)
            &&& self.entered <= self.descent@.len()
            &&& self.step == FileStep::CheckSize ==> self.entered == 0
            &&& file_rank(self.step) > 0 ==> path::parent_of(self.path@) is Some
            &&& file_rank(self.step) > 1 ==> self.entered == self.descent@.len()
                && path::file_name_of(self.path@) is Some
        }
    }

    /// Whether nothing is left to do.
    pub open spec fn ended(self) -> bool {
        self.step == FileStep::Written || self.step == FileStep::Failed
    }

    pub fn begin(path: String, owner: u32, contents: String, previous: Vec<String>) -> (r: FileWrite)
        ensures
            r.wf(),
            r.path == path,
            r.owner == owner,
            r.contents == contents,
            r.previous == previous,
            r.descent@.len() == 0,
            r.entered == 0,
            r.step == FileStep::CheckSize,
            r.log@ == Seq::<FileStep>::empty(),
    {
        FileWrite {
            path,
            owner,
            contents,
            previous,
            descent: Vec::new(),
            entered: 0,
            decision: Write::Create,
            existing: String::new(),
            step: FileStep::CheckSize,
            error: String::new(),
            log: Ghost(Seq::empty()),
        }
    }

    fn advance(&mut self, next: FileStep)
        requires
            (FileWrite {
                step: next,
                log: Ghost(old(self).log@.push(old(self).step)),
                ..*old(self)
            }).wf(),
        ensures
            final(self).wf(),
            file_moves(*old(self), *final(self), next),
    {
        self.log = Ghost(self.log@.push(self.step));
        self.step = next;
    }

    /// A step could not be done.
    pub fn failed(&mut self, reason: &str)
        ensures
            final(self).wf(),
            file_stops(*old(self), *final(self), reason@),
    {
        self.step = FileStep::Failed;
        self.error = reason.to_owned();
    }

    /// The size of the file and the way to its directory, below the directory of the host's
    /// configuration for a file of the host, and below the owner's home otherwise.
    pub fn located(&mut self, home: &str)
        requires
            old(self).wf(),
            old(self).step == FileStep::CheckSize,
        ensures
            final(self).wf(),
            if text::byte_len(old(self).contents@) > LIMIT {
                file_stops(*old(self), *final(self), "Setup file exceeds 64 KiB"@)
            } else if path::parent_of(old(self).path@) is None {
                file_stops(*old(self), *final(self), "Setup file has no directory"@)
            } else {
                match descent_of(
                    path::parent_of(old(self).path@)->0,
                    boundary_of(old(self).owner, home@),
                ) {
                    Err(e) => file_stops(*old(self), *final(self), e),
                    Ok(parts) => {
                        &&& *final(self) == (FileWrite {
                            descent: final(self).descent,
                            step: FileStep::OpenDirectory,
                            log: Ghost(old(self).log@.push(old(self).step)),
                            ..*old(self)
                        })
                        &&& texts(final(self).descent@) == parts
                    },
                }
            },
    {
        if text::len(self.contents.as_str()) > LIMIT {
            self.failed("Setup file exceeds 64 KiB");
            return ;
        }
        let parent = match path::parent(self.path.as_str()) {
            Some(parent) => parent,
            None => {
                self.failed("Setup file has no directory");
                return ;
            },
        };
        let boundary = if self.owner == 0 {
            "/etc"
        } else {
            home
        };
        match open_directory(parent.as_str(), boundary) {
            Err(e) => {
                self.failed(e.as_str());
            },
            Ok(descent) => {
                self.descent = descent;
                proof {
                    push_holds(self.log@, self.step);
                }
                self.advance(FileStep::OpenDirectory);
            },
        }
    }

    /// The boundary, or the next directory below it, was made where it was missing and opened without
    /// following links.
    pub fn entered(&mut self, m: &Metadata)
        requires
            old(self).wf(),
            old(self).step == FileStep::OpenDirectory,
        ensures
            final(self).wf(),
            if !(m.uid == old(self).owner && m.mode & 0o022 == 0) {
                file_stops(
                    *old(self),
                    *final(self),
                    "Setup directory has unsafe ownership or permissions"@,
                )
            } else if old(self).entered < old(self).descent@.len() {
                *final(self) == (FileWrite {
                    entered: (old(self).entered + 1) as usize,
                    ..*old(self)
                })
            } else if path::file_name_of(old(self).path@) is None {
                file_stops(*old(self), *final(self), "Setup file has no filename"@)
            } else {
                file_moves(*old(self), *final(self), FileStep::ReadExisting)
            },
    {
        let count: usize = self.descent.len();
        match check_directory(m, self.owner) {
            Err(e) => {
                self.failed(e.as_str());
            },
            Ok(_) => {
                if self.entered < count {
                    self.entered = self.entered + 1;
                } else if path::file_name(self.path.as_str()).is_none() {
                    self.failed("Setup file has no filename");
                } else {
                    proof {
                        push_holds(self.log@, self.step);
                    }
                    self.advance(FileStep::ReadExisting);
                }
            },
        }
    }

    /// What stands there was opened without following links, and what reading it gave, up to one
    /// byte more than is accepted.
    pub fn existing(&mut self, found: Option<(&Metadata, Result<&str, String>)>)
        requires
            old(self).wf(),
            old(self).step == FileStep::ReadExisting,
        ensures
            final(self).wf(),
            match decision_of(*old(self), found) {
                Err(e) => file_stops(*old(self), *final(self), e),
                Ok(decision) => {
                    &&& *final(self) == (FileWrite {
                        decision,
                        existing: final(self).existing,
                        step: match decision {
                            Write::Keep => FileStep::Written,
                            Write::Create => FileStep::WriteFile,
                            Write::BackUpAndReplace => FileStep::BackUp,
                        },
                        log: Ghost(old(self).log@.push(old(self).step)),
                        ..*old(self)
                    })
                    &&& final(self).existing@ == match found {
                        Some((_, Ok(there))) => there@,
                        _ => Seq::empty(),
                    }
                },
            },
    {
        let there = match &found {
            Some((_, Ok(there))) => (*there).to_owned(),
            _ => String::new(),
        };
        assert(found matches Some((_, Ok(_))) || there@ =~= Seq::empty());
        match self.decide(found) {
            Err(e) => {
                self.failed(e.as_str());
            },
            Ok(decision) => {
                self.existing = there;
                self.decision = decision;
                proof {
                    push_holds(self.log@, self.step);
                }
                match decision {
                    Write::Keep => {
                        self.advance(FileStep::Written);
                    },
                    Write::Create => {
                        self.advance(FileStep::WriteFile);
                    },
                    Write::BackUpAndReplace => {
                        self.advance(FileStep::BackUp);
                    },
                }
            },
        }
    }

    fn decide(&self, found: Option<(&Metadata, Result<&str, String>)>) -> (r: Result<Write, String>)
        ensures
            outcome(r) == decision_of(*self, found),
    {
        match found {
            None => write_file(self.path.as_str(), self.contents.as_str(), None, &self.previous),
            Some((m, there)) => {
                check_existing(m, self.owner)?;
                match there {
                    Err(e) => Err(e),
                    Ok(there) => write_file(
                        self.path.as_str(),
                        self.contents.as_str(),
                        Some(there),
                        &self.previous,
                    ),
                }
            },
        }
    }

    /// The copy of what stands there: beside the file, for its owner alone, and named by what was
    /// drawn for it.
    pub fn copy(&self, drawn: &str) -> (r: Supply)
        requires
            self.wf(),
            self.step == FileStep::BackUp,
        ensures
            is_copy(*self, drawn@, r),
    {
        match path::parent(self.path.as_str()) {
            Some(parent) => {
                let mut name = ".lianli-before-setup-".to_owned();
                name.append(drawn);
                Supply {
                    path: path::join(parent.as_str(), name.as_str()),
                    contents: self.existing.clone(),
                    mode: 0o600,
                }
            },
            None => Supply { path: String::new(), contents: String::new(), mode: 0 },
        }
    }

    /// The file as it is put in its place.
    pub fn replacement(&self) -> (r: Supply)
        ensures
            r.path@ == self.path@,
            r.contents@ == self.contents@,
            r.mode == 0o644,
    {
        Supply { path: self.path.clone(), contents: self.contents.clone(), mode: 0o644 }
    }

    /// The copy was made durable.
    pub fn backed_up(&mut self, copy: &Supply)
        requires
            old(self).wf(),
            old(self).step == FileStep::BackUp,
            exists|drawn: Seq<char>| is_copy(*old(self), drawn, *copy),
        ensures
            final(self).wf(),
            file_moves(*old(self), *final(self), FileStep::WriteFile),
    {
        proof {
            push_holds(self.log@, self.step);
        }
        self.advance(FileStep::WriteFile);
    }

    /// The file was written under another name, made durable and renamed.
    pub fn written(&mut self)
        requires
            old(self).wf(),
            old(self).step == FileStep::WriteFile,
        ensures
            final(self).wf(),
            file_moves(*old(self), *final(self), FileStep::SyncDirectory),
    {
        proof {
            push_holds(self.log@, self.step);
        }
        self.advance(FileStep::SyncDirectory);
    }

    /// The directory was written back.
    pub fn synced(&mut self)
        requires
            old(self).wf(),
            old(self).step == FileStep::SyncDirectory,
        ensures
            final(self).wf(),
            file_moves(*old(self), *final(self), FileStep::Written),
    {
        proof {
            push_holds(self.log@, self.step);
        }
        self.advance(FileStep::Written);
    }
}

/// When a file that stood there is about to be replaced, a copy of it was made durable.
pub proof fn replaced_files_are_copied_first(m: FileWrite)
    requires
        m.wf(),
        m.step == FileStep::WriteFile || m.step == FileStep::SyncDirectory,
        m.decision == Write::BackUpAndReplace,
    ensures
        m.log@.contains(FileStep::BackUp),
{
}

/// A file is created exactly where nothing stands in its place, left alone where it is as it should
/// be, and replaced, behind a copy, where it holds what setup once wrote. In all other cases, and
/// where either is too large, nothing is done.
pub proof fn files_are_replaced_only_if_setup_wrote_them(
    p: Seq<char>,
    contents: Seq<char>,
    existing: Option<Seq<char>>,
    previous: Seq<Seq<char>>,
)
    ensures
        ({
            let done = write_of(p, contents, existing, previous);
            let fits = text::byte_len(contents) <= 65_536 && (existing is Some ==> text::byte_len(
                existing->0,
            ) <= 65_536);
            &&& done == Ok::<Write, Seq<char>>(Write::Create) <==> fits && existing is None
            &&& done == Ok::<Write, Seq<char>>(Write::Keep) <==> fits && existing == Some(contents)
            &&& done == Ok::<Write, Seq<char>>(Write::BackUpAndReplace) <==> fits && existing is Some
                && existing->0 != contents && previous.contains(existing->0)
        }),
{
}

/// A file may be replaced exactly where it is a regular one of the owner, closed to other writers,
/// known by one name and of bounded size.
pub proof fn replaceable_files_belong_to_the_owner(m: Metadata, owner: u32)
    ensures
        is_replaceable(m, owner) <==> m.kind == FileKind::File && m.uid == owner && m.mode & 0o022 == 0
            && m.nlink == 1 && m.len <= 65_536,
        is_shared_lock(m) <==> m.kind == FileKind::File && m.uid == 0 && m.nlink == 1 && m.mode & 0o777
            == 0o666,
{
}

/// What stands in place of a file is judged exactly where it may be replaced and could be read.
pub proof fn files_are_judged_by_what_stands_there(
    file: FileWrite,
    found: Option<(&Metadata, Result<&str, String>)>,
)
    ensures
        found is None ==> decision_of(file, found) == write_of(
            file.path@,
            file.contents@,
            None,
            texts(file.previous@),
        ),
        found matches Some((m, there)) ==> (decision_of(file, found) is Ok ==> is_replaceable(
            *m,
            file.owner,
        ) && there is Ok),
        found matches Some((m, there)) ==> (is_replaceable(*m, file.owner) && there is Ok
            ==> decision_of(file, found) == write_of(
            file.path@,
            file.contents@,
            Some(there->Ok_0@),
            texts(file.previous@),
        )),
{
}

/// The directories of a file are entered from its boundary, which is the host's configuration for
/// root and the home for everybody else, and never upwards.
pub proof fn files_stay_below_their_boundary(
    p: Seq<char>,
    boundary: Seq<char>,
    owner: u32,
    home: Seq<char>,
)
    ensures
        descent_of(p, boundary) is Ok <==> path::below(p, boundary) is Some && forall|i: int|
            0 <= i < path::below(p, boundary)->0.len() ==> (#[trigger] path::below(p, boundary)->0[i])
                != seq!['.', '.'],
        descent_of(p, boundary) is Ok ==> descent_of(p, boundary)->Ok_0 == path::below(p, boundary)->0,
        boundary_of(0, home) == "/etc"@,
        owner != 0 ==> boundary_of(owner, home) == home,
{
    if path::below(p, boundary) is Some {
        let parts = path::below(p, boundary)->0;
        if path::descends(parts) {
            assert forall|i: int| 0 <= i < parts.len() implies (#[trigger] parts[i]) != seq![
                '.',
                '.',
            ] by {
                assert(!path::is_parent(parts[i]));
            }
        }
    }
}

/// The shared locks can be used exactly where the runtime directory is root's and closed to other
/// writers, and each lock is a regular file of root's that everybody may take.
pub proof fn shared_locks_can_be_taken_by_all(run: Metadata, locks: Seq<Metadata>)
    ensures
        locks_complaint(run, locks) is None <==> {
            &&& run.kind == FileKind::Directory && run.uid == 0 && run.mode & 0o022 == 0
            &&& forall|i: int|
                0 <= i < locks.len() ==> (#[trigger] locks[i]).kind == FileKind::File && locks[i].uid
                    == 0 && locks[i].nlink == 1 && locks[i].mode & 0o777 == 0o666
        },
{
    if locks_complaint(run, locks) is None {
        assert forall|i: int| 0 <= i < locks.len() implies (#[trigger] locks[i]).kind
            == FileKind::File && locks[i].uid == 0 && locks[i].nlink == 1 && locks[i].mode & 0o777
            == 0o666 by {
            assert(is_shared_lock(locks[i]));
        }
    }
}

/// A setup leaves the host's selection alone where there is none or it is the owner's. Only a system
/// service that is gone, that no setup manages and that nothing starts gives way to the owner's user
/// service. Everything else is refused.
pub proof fn selections_give_way_only_where_they_are_void(
    selection: Option<ServiceSelection>,
    owner_uid: u32,
    startup: Policy,
    system_missing: bool,
    managed: bool,
)
    ensures
        ({
            let left = selection_of(selection, owner_uid, startup, system_missing, managed);
            let own = selection is None || selection->0.uid == owner_uid;
            let void = selection is Some && selection->0.scope == ServiceScope::System
                && system_missing && !managed && startup.user == Startup::Disabled && startup.system
                == Startup::Disabled;
            &&& own ==> left == Ok::<Option<ServiceSelection>, Seq<char>>(selection)
            &&& !own && void ==> left == Ok::<Option<ServiceSelection>, Seq<char>>(
                Some(ServiceSelection { scope: ServiceScope::User, uid: owner_uid }),
            )
            &&& left is Ok <==> own || void
        }),
{
}

/// Services can be set up exactly where neither has a process or is about to have one, the system's is
/// missing, boxed or not started by itself, and nobody holds the hardware. The lock and whether the
/// system's is missing are passed on.
pub proof fn services_are_set_up_while_they_are_off(report: ServiceReport)
    ensures
        ({
            let found = report_of(report);
            let user = report.user->value;
            let system = report.system->value;
            let holder = report.ownership->0->value;
            &&& found is Ok <==> {
                &&& report.user is Known
                &&& user.main_pid == 0
                &&& user.active_state@ == "inactive"@ || user.active_state@ == "failed"@
                &&& report.system is Known
                &&& system.main_pid == 0
                &&& system.active_state@ == "inactive"@ || system.active_state@ == "failed"@
                &&& report.ownership is Some
                &&& report.ownership->0 is Known
                &&& holder.owner_pid is None
                &&& {
                    ||| system.load_state@ == "not-found"@
                    ||| system.distrobox_name is Some
                    ||| system.unit_file_state@ == "disabled"@
                    ||| system.unit_file_state@ == "masked"@
                    ||| system.unit_file_state@ == "masked-runtime"@
                    ||| system.unit_file_state@ == ""@
                }
            }
            &&& found is Ok ==> found->Ok_0.0 == (holder.identity.device@, holder.identity.inode@)
            &&& found is Ok ==> (found->Ok_0.1 <==> system.load_state@ == "not-found"@)
        }),
{
}

/// An earlier record counts exactly where it is of the same owner. Then, or without one, the selection
/// is judged, as a managed one where there is a record.
pub proof fn earlier_records_are_of_the_same_owner(setup: Setup, previous: Option<Record>)
    requires
        setup.account is Some,
    ensures
        previous matches Some(record) ==> (record_of(setup, previous) is Ok ==> owner_complaint(
            record.deployment,
            record.names,
            setup.account->0,
        ) is None),
        previous is None || owner_complaint(
            previous->0.deployment,
            previous->0.names,
            setup.account->0,
        ) is None ==> record_of(setup, previous) == selection_of(
            setup.selection,
            setup.account->0.uid,
            setup.startup,
            setup.system_missing,
            previous is Some,
        ),
{
}

/// The unit of the system service that a setup writes is that of its own deployment, and it replaces
/// only that of the earlier record.
pub proof fn system_units_are_of_the_deployment(setup: Setup)
    requires
        system_unit_of(setup) is Ok,
    ensures
        Ok::<Seq<char>, Seq<char>>(system_unit_of(setup)->Ok_0.0) == deployed_unit(
            setup.deployment,
            setup.names,
            ServiceScope::System,
        ),
        setup.previous is None ==> system_unit_of(setup)->Ok_0.1.len() == 0,
        setup.previous matches Some(record) ==> system_unit_of(setup)->Ok_0.1.len() == 1 && Ok::<
            Seq<char>,
            Seq<char>,
        >(system_unit_of(setup)->Ok_0.1[0]) == deployed_unit(
            record.deployment,
            record.names,
            ServiceScope::System,
        ),
{
}

/// The user's unit that a setup writes is that of its own deployment, for its owner, and it replaces
/// only an unmanaged one of the same box or that of an earlier record of the same owner.
pub proof fn user_units_are_of_the_deployment(
    deployment: Deployment,
    names: ConfigNames,
    previous: Option<(&Deployment, &ConfigNames)>,
    account: Account,
)
    requires
        daemon_unit_of(deployment, names, previous, account) is Ok,
    ensures
        ({
            let (unit, replaced) = daemon_unit_of(deployment, names, previous, account)->Ok_0;
            let launch = deployment.route.launch;
            &&& owner_complaint(deployment, names, account) is None
            &&& Ok::<Seq<char>, Seq<char>>(unit) == deployed_unit(
                deployment,
                names,
                ServiceScope::User,
            )
            &&& replaced.len() == (if previous is Some {
                2int
            } else {
                1int
            })
            &&& Ok::<Seq<char>, Seq<char>>(replaced[0]) == generate_of(
                launch.name@,
                launch.host_enter@,
                launch.binaries@,
            )
            &&& previous matches Some((record, record_names)) ==> owner_complaint(
                *record,
                *record_names,
                account,
            ) is None && Ok::<Seq<char>, Seq<char>>(replaced[1]) == deployed_unit(
                *record,
                *record_names,
                ServiceScope::User,
            )
        }),
{
}

/// Every file of a setup has its own place, and is written once: the next station is another.
pub proof fn files_have_their_own_place(a: SetupStep, b: SetupStep)
    requires
        is_file(a),
        is_file(b),
    ensures
        a != b ==> file_path(a) != file_path(b),
        rank(after_file(a)) == rank(a) + 1,
        file_path(SetupStep::WriteSystemUnit) == "/etc/systemd/system/"@
            + ServiceScope::System.unit_spec(),
{
    reveal_strlit("/etc/systemd/system/");
    reveal_strlit("lianli-daemon-system.service");
    reveal_strlit("/etc/systemd/system/lianli-daemon-system.service");
    reveal_strlit("/etc/systemd/system/lianli-control-recovery.service");
    reveal_strlit("/etc/tmpfiles.d/lianli.conf");
    reveal_strlit("/etc/polkit-1/rules.d/49-lianli-recovery.rules");
    reveal_strlit("/etc/xdg/autostart/com.sgtaziz.lianlilinux.recovery.desktop");
    assert(file_path(SetupStep::WriteSystemUnit)[27] == 'd');
    assert(file_path(SetupStep::WriteRecoveryUnit)[27] == 'c');
    assert(file_path(SetupStep::WriteSystemUnit)[5] == 's');
    assert(file_path(SetupStep::WriteRecoveryUnit)[5] == 's');
    assert(file_path(SetupStep::WriteRuntimeRules)[5] == 't');
    assert(file_path(SetupStep::WriteAuthorizationRules)[5] == 'p');
    assert(file_path(SetupStep::WriteAutostart)[5] == 'x');
    assert(file_path(SetupStep::WriteSystemUnit) =~= "/etc/systemd/system/"@
        + ServiceScope::System.unit_spec());
}

/// A supplied file is written as it is where the helper is the packaged one.
pub proof fn packaged_helpers_change_nothing(s: Seq<char>)
    ensures
        supplied_of(s, true) == s,
{
    unchanged_from(s, 0);
    assert(s.skip(0) =~= s);
}

proof fn unchanged_from(s: Seq<char>, i: int)
    requires
        0 <= i <= s.len(),
    ensures
        text::replaced_from(s, host_helper::packaged_spec(), host_helper::packaged_spec(), i)
            == s.skip(i),
    decreases s.len() - i,
{
    let part = host_helper::packaged_spec();
    if part.len() == 0 || i + part.len() > s.len() {
    } else if s.subrange(i, i + part.len()) == part {
        unchanged_from(s, i + part.len() as int);
        assert(part + s.skip(i + part.len()) =~= s.skip(i));
    } else {
        unchanged_from(s, i + 1);
        assert(seq![s[i]] + s.skip(i + 1) =~= s.skip(i));
    }
}

/// The user's capture unit is that of the deployment's box, and it replaces only that of the earlier
/// record.
pub proof fn session_units_are_of_the_deployment(
    deployment: Deployment,
    previous: Option<&Deployment>,
)
    requires
        session_unit_of(deployment, previous) is Ok,
    ensures
        ({
            let (unit, replaced) = session_unit_of(deployment, previous)->Ok_0;
            let launch = deployment.route.launch;
            &&& Ok::<Seq<char>, Seq<char>>(unit) == generate_session_of(
                launch.name@,
                launch.host_enter@,
                launch.binaries@,
            )
            &&& previous is None ==> replaced.len() == 0
            &&& previous matches Some(record) ==> replaced.len() == 1 && Ok::<Seq<char>, Seq<char>>(
                replaced[0],
            ) == generate_session_of(
                record.route.launch.name@,
                record.route.launch.host_enter@,
                record.route.launch.binaries@,
            )
        }),
{
}

/// A file is copied exactly where it is replaced, and written exactly where it is not as it should be.
pub proof fn files_are_copied_where_they_are_replaced(decision: Write)
    ensures
        file_takes(FileStep::BackUp, decision) <==> decision == Write::BackUpAndReplace,
        file_takes(FileStep::WriteFile, decision) <==> decision != Write::Keep,
        file_takes(FileStep::SyncDirectory, decision) <==> decision != Write::Keep,
        file_takes(FileStep::ReadExisting, decision),
{
}

/// What is asked of the managers is asked of the right one: boot recovery of the system's, capture of
/// the user's, and each is made to read its own units again.
pub proof fn managers_are_told_of_their_units(scope: ServiceScope)
    ensures
        reload_arguments_of(scope)[0] == scope.argument_spec(),
        recovery_arguments_of()[0] == ServiceScope::System.argument_spec(),
        recovery_arguments_of().last() == "lianli-control-recovery.service"@,
        session_arguments_of()[0] == ServiceScope::User.argument_spec(),
        session_arguments_of().last() == "lianli-session.service"@,
{
}

/// The user's units are written as they were made, each to its own path and for the owner.
pub proof fn user_units_are_written_as_made(write: FileWrite, unit: UserUnit, owner: u32)
    requires
        carries(write, unit, owner),
    ensures
        write.path@ == unit.path@,
        write.contents@ == unit.contents@,
        write.owner == owner,
        texts(write.previous@) == texts(unit.previous@),
{
}

/// What is replaced is kept beside it, as it was and for its owner alone.
pub proof fn copies_hold_what_is_replaced(write: FileWrite, drawn: Seq<char>, copy: Supply)
    requires
        is_copy(write, drawn, copy),
    ensures
        copy.contents@ == write.existing@,
        copy.mode & 0o077 == 0,
        copy.mode == 0o600,
        path::parent_of(write.path@) is Some,
        copy.path@ == path::join_of(
            path::parent_of(write.path@)->0,
            ".lianli-before-setup-"@ + drawn,
        ),
{
    assert(0o600u32 & 0o077 == 0) by (bit_vector);
}

} // verus!
