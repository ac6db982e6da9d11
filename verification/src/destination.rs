//! The account, files and service unit that a switch would hand the hardware to, and what must hold
//! of them beforehand.

use crate::account::{holds, normalize, normalized, same_account, same_groups, Account};
use crate::command::Output;
use crate::destination_inspection::{
    working_of, Inspection, InspectionStep, Manager, ManagerStep, SystemDirectory,
    SystemDirectoryStep,
};
use crate::digest;
use crate::distrobox_unit::written;
use crate::files::{FileKind, Metadata};
use crate::media_publication::{directory_complaint, open_directory};
use crate::media_validation::AssetAccessReport;
use crate::path;
use crate::properties::{gathered, properties_of, value_of, Properties};
use crate::services::{FileIdentity, ServiceScope};
use crate::steps;
use crate::text;
use crate::text::{outcome, texts};
use vstd::prelude::*;

verus! {

/// The longest path of a configuration, in bytes.
pub const MAX_CONFIG_PATH: usize = 4096;

/// The largest unit or override that is read, in bytes.
pub const MAX_UNIT: usize = 16_384;

/// The most overrides of a unit.
pub const MAX_OVERRIDES: usize = 32;

/// The most that is read of a process's status, in bytes.
pub const MAX_STATUS: usize = 65_536;

/// What a saved state amounts to.
#[derive(Clone, Debug)]
pub struct StateSummary {
    pub generation: String,
    pub profiles: u64,
    pub issue_count: u64,
    pub issues: Vec<String>,
}

#[derive(Clone, Debug)]
pub struct Destination {
    pub scope: ServiceScope,
    pub uid: u32,
    pub gid: u32,
    pub groups_fingerprint: String,
    pub mount_namespace: FileIdentity,
    pub state_directory: Option<FileIdentity>,
    pub config_path: String,
    pub working_directory: String,
    pub state: Option<StateSummary>,
    pub assets: AssetAccessReport,
}

/// What a daemon binary says of itself.
#[derive(Clone, Debug)]
pub struct DaemonBuildInfo {
    pub version: String,
    pub protocol_version: u32,
    pub capabilities: Vec<String>,
}

/// Whether the running program is the installed control helper.
pub fn check_program(file_name: Option<&str>) -> (r: Result<(), String>)
    ensures
        outcome(r) == if file_name matches Some(n) && n@ == "lianli-control"@ {
            Ok(())
        } else {
            Err("Run destination preflight through the installed standalone control helper"@)
        },
{
    let named = match file_name {
        Some(n) => text::eq(n, "lianli-control"),
        None => false,
    };
    if named {
        Ok(())
    } else {
        Err("Run destination preflight through the installed standalone control helper".to_owned())
    }
}

/// Whether this process and the service manager see the same files.
pub fn check_host_namespace(own: &FileIdentity, manager: &FileIdentity) -> (r: Result<(), String>)
    ensures
        outcome(r) == if own@ == manager@ {
            Ok(())
        } else {
            Err("System destination must be inspected from the service manager's host namespace"@)
        },
{
    if own.same(manager) {
        Ok(())
    } else {
        Err(
            "System destination must be inspected from the service manager's host namespace".to_owned(),
        )
    }
}

pub open spec fn inspection_of(scope: ServiceScope, prepare: bool) -> Seq<Seq<char>> {
    let asked = seq!["inspect-destination"@, "--scope"@, scope.word_spec()];
    if prepare {
        asked.push("--prepare-directory"@)
    } else {
        asked
    }
}

/// The arguments of the helper that inspects a destination under its account.
pub fn inspection_arguments(scope: ServiceScope, prepare_directory: bool) -> (r: Vec<String>)
    ensures
        texts(r@) == inspection_of(scope, prepare_directory),
{
    let mut r: Vec<String> = Vec::new();
    r.push("inspect-destination".to_owned());
    r.push("--scope".to_owned());
    r.push(scope.word().to_owned());
    if prepare_directory {
        r.push("--prepare-directory".to_owned());
    }
    assert(texts(r@) =~= inspection_of(scope, prepare_directory));
    r
}

/// Whether the helper succeeded: its failure is reported after the words given.
pub fn check_output(output: &Output, words: &str) -> (r: Result<(), String>)
    ensures
        outcome(r) == if output.code == Some(0i32) {
            Ok(())
        } else {
            Err(words@ + text::trimmed(output.stderr@))
        },
{
    if output.success() {
        return Ok(());
    }
    let mut e = words.to_owned();
    e.append(text::trim(output.stderr.as_str()).as_str());
    Err(e)
}

/// Whether a report comes from an account in this mount namespace.
pub open spec fn comes_from(
    report: Destination,
    account: Account,
    scope: ServiceScope,
    namespace: FileIdentity,
) -> bool {
    report.scope == scope && report.uid == account.uid && report.gid == account.gid
        && report.groups_fingerprint@ == digest::fingerprint(digest::le32s(account.groups@))
        && report.mount_namespace@ == namespace@
}

/// Whether the report of a preflight can be relied on.
pub fn check_report(
    report: &Destination,
    account: &Account,
    scope: ServiceScope,
    namespace: &FileIdentity,
) -> (r: Result<(), String>)
    ensures
        outcome(r) == if !comes_from(*report, *account, scope, *namespace) {
            Err("Destination preflight ran under a different account"@)
        } else if report.assets.uid != account.uid {
            Err("Destination assets were checked under a different account"@)
        } else {
            Ok(())
        },
{
    if !(report.scope == scope && report.uid == account.uid && report.gid == account.gid
        && text::eq(
        report.groups_fingerprint.as_str(),
        account.group_fingerprint().as_str(),
    ) && report.mount_namespace.same(namespace)) {
        return Err("Destination preflight ran under a different account".to_owned());
    }
    if report.assets.uid != account.uid {
        return Err("Destination assets were checked under a different account".to_owned());
    }
    Ok(())
}

#[derive(Clone, Copy, Debug, PartialEq, Eq, Structural)]
pub enum PreflightStep {
    CheckProgram,
    CheckHostNamespace,
    PrepareSystemDirectory,
    CheckUserManager,
    Inspect,
    ConfirmUserManager,
    Checked,
    Failed,
}

pub open spec fn preflight_rank(step: PreflightStep) -> int {
    match step {
        PreflightStep::CheckProgram => 0,
        PreflightStep::CheckHostNamespace => 1,
        PreflightStep::PrepareSystemDirectory => 2,
        PreflightStep::CheckUserManager => 2,
        PreflightStep::Inspect => 3,
        PreflightStep::ConfirmUserManager => 4,
        PreflightStep::Checked => 5,
        PreflightStep::Failed => 6,
    }
}

/// Whether a preflight takes a step.
pub open spec fn preflight_takes(step: PreflightStep, scope: ServiceScope, prepare: bool) -> bool {
    match step {
        PreflightStep::CheckHostNamespace => scope == ServiceScope::System,
        PreflightStep::PrepareSystemDirectory => scope == ServiceScope::System && prepare,
        PreflightStep::CheckUserManager => scope == ServiceScope::User,
        PreflightStep::ConfirmUserManager => scope == ServiceScope::User,
        _ => true,
    }
}

/// The preflight of a destination under way.
pub struct Preflight {
    /// The account of the destination.
    pub account: Account,
    pub scope: ServiceScope,
    pub prepare_directory: bool,
    pub step: PreflightStep,
    pub report: Option<Destination>,
    pub error: String,
    /// The steps that succeeded, in order.
    pub log: Ghost<Seq<PreflightStep>>,
}

pub open spec fn preflight_stops(before: Preflight, after: Preflight, text: Seq<char>) -> bool {
    after == (Preflight { step: PreflightStep::Failed, error: after.error, ..before })
        && after.error@ == text
}

pub open spec fn preflight_moves(before: Preflight, after: Preflight, next: PreflightStep) -> bool {
    after == (Preflight { step: next, log: Ghost(before.log@.push(before.step)), ..before })
}

/// What speaks against the answer of the helper that inspects a destination.
pub open spec fn answer_complaint(
    output: Result<Output, String>,
    report: Result<Destination, String>,
    account: Account,
    scope: ServiceScope,
    namespace: FileIdentity,
) -> Option<Seq<char>> {
    match output {
        Err(e) => Some(e@),
        Ok(o) => if o.code != Some(0i32) {
            Some("Destination preflight failed: "@ + text::trimmed(o.stderr@))
        } else {
            match report {
                Err(e) => Some("Invalid destination preflight response: "@ + e@),
                Ok(report) => if !comes_from(report, account, scope, namespace) {
                    Some("Destination preflight ran under a different account"@)
                } else if report.assets.uid != account.uid {
                    Some("Destination assets were checked under a different account"@)
                } else {
                    None
                },
            }
        },
    }
}

impl Preflight {
    /// Every step that this preflight takes before the present one succeeded, and there is a report
    /// once the destination was inspected.
    pub open spec fn wf(self) -> bool {
        self.step != PreflightStep::Failed ==> {
            &&& forall|s: PreflightStep|
                preflight_rank(s) < preflight_rank(self.step) && preflight_takes(
                    s,
                    self.scope,
                    self.prepare_directory,
                ) ==> #[trigger] self.log@.contains(s)
            &&& preflight_rank(self.step) > preflight_rank(PreflightStep::Inspect)
                ==> self.report is Some
        }
    }

    pub fn begin(account: Account, scope: ServiceScope, prepare_directory: bool) -> (r: Preflight)
        ensures
            r.wf(),
            r.account == account,
            r.scope == scope,
            r.prepare_directory == prepare_directory,
            r.step == PreflightStep::CheckProgram,
            r.report is None,
            r.log@ == Seq::<PreflightStep>::empty(),
    {
        Preflight {
            account,
            scope,
            prepare_directory,
            step: PreflightStep::CheckProgram,
            report: None,
            error: String::new(),
            log: Ghost(Seq::empty()),
        }
    }

    fn advance(&mut self, next: PreflightStep)
        requires
            old(self).wf(),
            old(self).step != PreflightStep::Failed,
            next != PreflightStep::Failed,
            forall|s: PreflightStep|
                #[trigger] preflight_rank(s) < preflight_rank(next) && preflight_takes(
                    s,
                    old(self).scope,
                    old(self).prepare_directory,
                ) ==> preflight_rank(s) < preflight_rank(old(self).step) || s == old(self).step,
            preflight_rank(next) > preflight_rank(PreflightStep::Inspect) ==> old(self).report is Some,
        ensures
            final(self).wf(),
            preflight_moves(*old(self), *final(self), next),
    {
        proof {
            steps::push_holds(self.log@, self.step);
        }
        self.log = Ghost(self.log@.push(self.step));
        self.step = next;
    }

    /// A step could not be done.
    pub fn failed(&mut self, reason: &str)
        ensures
            final(self).wf(),
            preflight_stops(*old(self), *final(self), reason@),
    {
        self.step = PreflightStep::Failed;
        self.error = reason.to_owned();
    }

    /// The file name of the running program.
    pub fn program(&mut self, file_name: Option<&str>)
        requires
            old(self).wf(),
            old(self).step == PreflightStep::CheckProgram,
        ensures
            final(self).wf(),
            if file_name matches Some(n) && n@ == "lianli-control"@ {
                preflight_moves(
                    *old(self),
                    *final(self),
                    match old(self).scope {
                        ServiceScope::System => PreflightStep::CheckHostNamespace,
                        ServiceScope::User => PreflightStep::CheckUserManager,
                    },
                )
            } else {
                preflight_stops(
                    *old(self),
                    *final(self),
                    "Run destination preflight through the installed standalone control helper"@,
                )
            },
    {
        match check_program(file_name) {
            Err(e) => {
                self.failed(e.as_str());
            },
            Ok(_) => match self.scope {
                ServiceScope::System => {
                    self.advance(PreflightStep::CheckHostNamespace);
                },
                ServiceScope::User => {
                    self.advance(PreflightStep::CheckUserManager);
                },
            },
        }
    }

    /// The mount namespaces of this process and of the service manager.
    pub fn host_namespace(&mut self, own: &FileIdentity, manager: &FileIdentity)
        requires
            old(self).wf(),
            old(self).step == PreflightStep::CheckHostNamespace,
            old(self).scope == ServiceScope::System,
        ensures
            final(self).wf(),
            if own@ == manager@ {
                preflight_moves(
                    *old(self),
                    *final(self),
                    if old(self).prepare_directory {
                        PreflightStep::PrepareSystemDirectory
                    } else {
                        PreflightStep::Inspect
                    },
                )
            } else {
                preflight_stops(
                    *old(self),
                    *final(self),
                    "System destination must be inspected from the service manager's host namespace"@,
                )
            },
    {
        match check_host_namespace(own, manager) {
            Err(e) => {
                self.failed(e.as_str());
            },
            Ok(_) => {
                if self.prepare_directory {
                    self.advance(PreflightStep::PrepareSystemDirectory);
                } else {
                    self.advance(PreflightStep::Inspect);
                }
            },
        }
    }

    /// How the preparation of the system's state directory for the account ended.
    pub fn prepared(&mut self, directory: &SystemDirectory)
        requires
            old(self).wf(),
            old(self).step == PreflightStep::PrepareSystemDirectory,
            old(self).scope == ServiceScope::System,
            directory.wf(),
            same_account(directory.account, old(self).account),
            directory.step == SystemDirectoryStep::Ready || directory.step
                == SystemDirectoryStep::Failed,
        ensures
            final(self).wf(),
            match directory.step {
                SystemDirectoryStep::Ready => preflight_moves(
                    *old(self),
                    *final(self),
                    PreflightStep::Inspect,
                ),
                _ => preflight_stops(*old(self), *final(self), directory.error@),
            },
    {
        match directory.step {
            SystemDirectoryStep::Ready => {
                self.advance(PreflightStep::Inspect);
            },
            _ => {
                self.failed(directory.error.as_str());
            },
        }
    }

    /// How the check of the account's service manager ended.
    pub fn user_manager(&mut self, manager: &Manager)
        requires
            old(self).wf(),
            old(self).step == PreflightStep::CheckUserManager,
            old(self).scope == ServiceScope::User,
            manager.wf(),
            same_account(manager.account, old(self).account),
            manager.step == ManagerStep::Verified || manager.step == ManagerStep::Failed,
        ensures
            final(self).wf(),
            match manager.step {
                ManagerStep::Verified => preflight_moves(
                    *old(self),
                    *final(self),
                    PreflightStep::Inspect,
                ),
                _ => preflight_stops(*old(self), *final(self), manager.error@),
            },
    {
        match manager.step {
            ManagerStep::Verified => {
                self.advance(PreflightStep::Inspect);
            },
            _ => {
                self.failed(manager.error.as_str());
            },
        }
    }

    /// The answer of the helper that inspected the destination under its account, with the report
    /// that it printed.
    pub fn inspected(
        &mut self,
        output: &Result<Output, String>,
        report: Result<Destination, String>,
        namespace: &FileIdentity,
    )
        requires
            old(self).wf(),
            old(self).step == PreflightStep::Inspect,
        ensures
            final(self).wf(),
            match answer_complaint(
                *output,
                report,
                old(self).account,
                old(self).scope,
                *namespace,
            ) {
                Some(e) => preflight_stops(*old(self), *final(self), e),
                None => preflight_moves(
                    (Preflight { report: Some(report->Ok_0), ..*old(self) }),
                    *final(self),
                    match old(self).scope {
                        ServiceScope::User => PreflightStep::ConfirmUserManager,
                        ServiceScope::System => PreflightStep::Checked,
                    },
                ),
            },
    {
        match output {
            Err(e) => {
                self.failed(e.as_str());
            },
            Ok(o) => match check_output(o, "Destination preflight failed: ") {
                Err(e) => {
                    self.failed(e.as_str());
                },
                Ok(_) => match report {
                    Err(e) => {
                        self.failed(
                            text::worded(
                                "Invalid destination preflight response: ",
                                e.as_str(),
                            ).as_str(),
                        );
                    },
                    Ok(report) => match check_report(
                        &report,
                        &self.account,
                        self.scope,
                        namespace,
                    ) {
                        Err(e) => {
                            self.failed(e.as_str());
                        },
                        Ok(_) => {
                            self.report = Some(report);
                            match self.scope {
                                ServiceScope::User => {
                                    self.advance(PreflightStep::ConfirmUserManager);
                                },
                                ServiceScope::System => {
                                    self.advance(PreflightStep::Checked);
                                },
                            }
                        },
                    },
                },
            },
        }
    }

    /// How the second check of the account's service manager ended.
    pub fn confirmed(&mut self, manager: &Manager)
        requires
            old(self).wf(),
            old(self).step == PreflightStep::ConfirmUserManager,
            old(self).scope == ServiceScope::User,
            manager.wf(),
            same_account(manager.account, old(self).account),
            manager.step == ManagerStep::Verified || manager.step == ManagerStep::Failed,
        ensures
            final(self).wf(),
            match manager.step {
                ManagerStep::Verified => preflight_moves(
                    *old(self),
                    *final(self),
                    PreflightStep::Checked,
                ),
                _ => preflight_stops(*old(self), *final(self), manager.error@),
            },
    {
        match manager.step {
            ManagerStep::Verified => {
                self.advance(PreflightStep::Checked);
            },
            _ => {
                self.failed(manager.error.as_str());
            },
        }
    }
}

/// A user's destination counts as checked only where the manager was verified before and after it was
/// inspected, the system's only from the manager's own namespace.
pub proof fn checked_destinations_were_inspected(preflight: Preflight)
    requires
        preflight.wf(),
        preflight.step == PreflightStep::Checked,
    ensures
        preflight.report is Some,
        preflight.log@.contains(PreflightStep::Inspect),
        preflight.scope == ServiceScope::User ==> preflight.log@.contains(
            PreflightStep::CheckUserManager,
        ) && preflight.log@.contains(PreflightStep::ConfirmUserManager),
        preflight.scope == ServiceScope::System ==> preflight.log@.contains(
            PreflightStep::CheckHostNamespace,
        ),
{
}

/// The arguments of the helper that tests whether a home is ready for recovery.
pub open spec fn recovery_of(config: Seq<char>) -> Seq<Seq<char>> {
    seq!["check-recovery-access"@, "--config"@, config]
}

pub fn recovery_arguments(config: &str) -> (r: Vec<String>)
    ensures
        texts(r@) == recovery_of(config@),
{
    let mut r: Vec<String> = Vec::new();
    r.push("check-recovery-access".to_owned());
    r.push("--config".to_owned());
    r.push(config.to_owned());
    assert(texts(r@) =~= recovery_of(config@));
    r
}

/// Whether a home is ready for recovery, by what the helper gave.
pub fn preflight_recovery(output: &Output) -> (r: Result<(), String>)
    ensures
        outcome(r) == if output.code == Some(0i32) {
            Ok(())
        } else {
            Err("The destination home is not ready for recovery: "@ + text::trimmed(output.stderr@))
        },
{
    check_output(output, "The destination home is not ready for recovery: ")
}

/// The directory of a configuration whose recovery is tested.
pub open spec fn recovery_directory_of(uid: u32, config: Seq<char>) -> Result<Seq<char>, Seq<char>> {
    if !(uid != 0 && path::is_absolute(config)) {
        Err("Check recovery access under its unprivileged destination account"@)
    } else {
        match path::parent_of(config) {
            None => Err("Recovery configuration has no directory"@),
            Some(p) => Ok(p),
        }
    }
}

/// The directory to open for a test of recovery: under the unprivileged account, for an absolute
/// path.
pub fn recovery_directory(uid: u32, config: &str) -> (r: Result<String, String>)
    ensures
        written(r) == recovery_directory_of(uid, config@),
{
    if !(uid != 0 && path::absolute(config)) {
        return Err("Check recovery access under its unprivileged destination account".to_owned());
    }
    match path::parent(config) {
        None => Err("Recovery configuration has no directory".to_owned()),
        Some(p) => Ok(p),
    }
}

/// Whether the account can recover its configuration: `opened` is the configuration's directory, and
/// `probed` what came of making a file there and writing it back.
pub fn check_recovery_access(
    uid: u32,
    config: &str,
    opened: &Result<Metadata, String>,
    probed: &Result<(), String>,
) -> (r: Result<(), String>)
    ensures
        outcome(r) == match recovery_directory_of(uid, config@) {
            Err(e) => Err(e),
            Ok(_) => match *opened {
                Err(e) => Err(e@),
                Ok(m) => match directory_complaint(m, uid) {
                    Some(e) => Err(e),
                    None => match *probed {
                        Err(e) => Err(e@),
                        Ok(_) => Ok(()),
                    },
                },
            },
        },
{
    recovery_directory(uid, config)?;
    match opened {
        Err(e) => Err(e.clone()),
        Ok(m) => {
            open_directory(m, uid)?;
            match probed {
                Err(e) => Err(e.clone()),
                Ok(_) => Ok(()),
            }
        },
    }
}

/// The installed unit of a mode below a systemd directory.
pub open spec fn unit_path(prefix: Seq<char>, scope: ServiceScope) -> Seq<char> {
    prefix + "/"@ + scope.word_spec() + "/"@ + scope.unit_spec()
}

pub open spec fn is_installed_unit(p: Seq<char>, scope: ServiceScope) -> bool {
    path::same_path(p, unit_path("/usr/lib/systemd"@, scope)) || path::same_path(
        p,
        unit_path("/lib/systemd"@, scope),
    ) || path::same_path(p, unit_path("/etc/systemd"@, scope))
}

fn unit_at(prefix: &str, scope: ServiceScope) -> (r: String)
    ensures
        r@ == unit_path(prefix@, scope),
{
    let mut r = prefix.to_owned();
    r.append("/");
    r.append(scope.word());
    r.append("/");
    r.append(scope.unit());
    r
}

/// The path of a unit that is loaded, current and installed, by what the manager says of it.
pub open spec fn fragment_of(properties: Map<Seq<char>, Seq<char>>, scope: ServiceScope) -> Result<
    Seq<char>,
    Seq<char>,
> {
    if !(value_of(properties, "LoadState"@) == Some("loaded"@) && value_of(
        properties,
        "NeedDaemonReload"@,
    ) == Some("no"@)) {
        Err("The service unit must be loaded and current. Run daemon-reload after updating it"@)
    } else {
        match value_of(properties, "FragmentPath"@) {
            None => Err("Destination unit path is unverified"@),
            Some(p) => if is_installed_unit(p, scope) {
                Ok(p)
            } else {
                Err("Automatic switching requires an installed native service unit"@)
            },
        }
    }
}

pub fn verify_properties(properties: &Properties, scope: ServiceScope) -> (r: Result<
    String,
    String,
>)
    ensures
        match r {
            Ok(p) => fragment_of(properties@, scope) == Ok::<Seq<char>, Seq<char>>(p@),
            Err(e) => fragment_of(properties@, scope) == Err::<Seq<char>, Seq<char>>(e@),
        },
{
    if !(properties.is("LoadState", "loaded") && properties.is("NeedDaemonReload", "no")) {
        return Err(
            "The service unit must be loaded and current. Run daemon-reload after updating it".to_owned(),
        );
    }
    match properties.get("FragmentPath") {
        None => Err("Destination unit path is unverified".to_owned()),
        Some(p) => {
            if path::same(p.as_str(), unit_at("/usr/lib/systemd", scope).as_str()) || path::same(
                p.as_str(),
                unit_at("/lib/systemd", scope).as_str(),
            ) || path::same(p.as_str(), unit_at("/etc/systemd", scope).as_str()) {
                Ok(p.clone())
            } else {
                Err("Automatic switching requires an installed native service unit".to_owned())
            }
        },
    }
}

/// A working directory without the mark that lets it be missing.
pub open spec fn required_directory(value: Seq<char>) -> Seq<char> {
    if value.len() > 0 && value[0] == '!' {
        value.skip(1)
    } else {
        value
    }
}

pub fn verify_working_directory(value: &str, expected: &str) -> (r: Result<(), String>)
    ensures
        outcome(r) == if value@.len() == 0 || path::same_path(
            required_directory(value@),
            expected@,
        ) {
            Ok(())
        } else {
            Err("Service working directory must be "@ + expected@ + " for automatic switching"@)
        },
{
    let v = text::chars(value);
    if v.len() == 0 {
        return Ok(());
    }
    let directory = if v[0] == '!' {
        let d = text::slice(&v, 1, v.len());
        assert(d@ =~= value@.skip(1));
        d
    } else {
        value.to_owned()
    };
    if path::same(directory.as_str(), expected) {
        return Ok(());
    }
    let mut e = "Service working directory must be ".to_owned();
    e.append(expected);
    e.append(" for automatic switching");
    Err(e)
}

/// What the manager says of a unit, checked: the path of the unit, and whether it has overrides.
pub open spec fn recipe_of(
    properties: Map<Seq<char>, Seq<char>>,
    scope: ServiceScope,
    working: Seq<char>,
) -> Result<(Seq<char>, bool), Seq<char>> {
    match fragment_of(properties, scope) {
        Err(e) => Err(e),
        Ok(fragment) => match value_of(properties, "WorkingDirectory"@) {
            Some(value) if !(value.len() == 0 || path::same_path(
                required_directory(value),
                working,
            )) => Err("Service working directory must be "@ + working + " for automatic switching"@),
            _ => Ok(
                (
                    fragment,
                    match value_of(properties, "DropInPaths"@) {
                        Some(paths) => paths.len() > 0,
                        None => false,
                    },
                ),
            ),
        },
    }
}

/// Checks what the manager says of a unit. The result is the path of the unit and whether it has
/// overrides.
pub fn verify_service_recipe(text: &str, scope: ServiceScope, working: &str) -> (r: Result<
    (String, bool),
    String,
>)
    ensures
        match r {
            Ok((p, overrides)) => recipe_of(properties_of(text@, '='), scope, working@) == Ok::<
                (Seq<char>, bool),
                Seq<char>,
            >((p@, overrides)),
            Err(e) => recipe_of(properties_of(text@, '='), scope, working@) == Err::<
                (Seq<char>, bool),
                Seq<char>,
            >(e@),
        },
{
    let properties = Properties::parse(text, '=');
    let fragment = verify_properties(&properties, scope)?;
    match properties.get("WorkingDirectory") {
        Some(value) => {
            verify_working_directory(value.as_str(), working)?;
        },
        None => {},
    }
    let overrides = match properties.get("DropInPaths") {
        Some(paths) => text::chars(paths.as_str()).len() > 0,
        None => false,
    };
    Ok((fragment, overrides))
}

/// The object under which the manager's bus knows a unit.
pub open spec fn object_of(scope: ServiceScope) -> Seq<char> {
    "/org/freedesktop/systemd1/unit/"@ + text::replaced(
        text::replaced(scope.unit_spec(), '-', "_2d"@),
        '.',
        "_2e"@,
    )
}

pub fn unit_object(scope: ServiceScope) -> (r: String)
    ensures
        r@ == object_of(scope),
{
    let mut r = "/org/freedesktop/systemd1/unit/".to_owned();
    r.append(
        text::replace(text::replace(scope.unit(), '-', "_2d").as_str(), '.', "_2e").as_str(),
    );
    r
}

pub fn check_override_count(count: usize) -> (r: Result<(), String>)
    ensures
        outcome(r) == if count <= MAX_OVERRIDES {
            Ok(())
        } else {
            Err("Too many service overrides to inspect"@)
        },
{
    if count <= MAX_OVERRIDES {
        Ok(())
    } else {
        Err("Too many service overrides to inspect".to_owned())
    }
}

/// An override that only root, or for a user unit its user, can have written.
pub open spec fn is_trusted_override(m: Metadata, scope: ServiceScope, uid: u32) -> bool {
    m.kind == FileKind::File && m.mode & 0o022 == 0 && (m.uid == 0 || scope == ServiceScope::User
        && m.uid == uid)
}

pub fn check_override_file(m: &Metadata, scope: ServiceScope, uid: u32, p: &str) -> (r: Result<
    (),
    String,
>)
    ensures
        outcome(r) == if is_trusted_override(*m, scope, uid) {
            Ok(())
        } else {
            Err("Service override has unexpected ownership or write permissions: "@ + p@)
        },
{
    if m.kind == FileKind::File && m.mode & 0o022 == 0 && (m.uid == 0 || scope == ServiceScope::User
        && m.uid == uid) {
        return Ok(());
    }
    let mut e = "Service override has unexpected ownership or write permissions: ".to_owned();
    e.append(p);
    Err(e)
}

pub fn check_override_size(size: usize, p: &str) -> (r: Result<(), String>)
    ensures
        outcome(r) == if size <= MAX_UNIT {
            Ok(())
        } else {
            Err("Service override is too large: "@ + p@)
        },
{
    if size <= MAX_UNIT {
        return Ok(());
    }
    let mut e = "Service override is too large: ".to_owned();
    e.append(p);
    Err(e)
}

/// A line that says nothing: empty, or a comment.
pub open spec fn is_silent(line: Seq<char>) -> bool {
    line.len() == 0 || line[0] == '#' || line[0] == ';'
}

/// A value without the quotation marks round it.
pub open spec fn bare(value: Seq<char>) -> Seq<char> {
    if value.len() >= 2 && (value[0] == '"' && value.last() == '"' || value[0] == '\'' && value.last()
        == '\'') {
        value.subrange(1, value.len() - 1)
    } else {
        value
    }
}

/// A character that would need quoting.
pub open spec fn is_awkward(c: char) -> bool {
    c == '"' || c == '\'' || c == '\\' || text::is_space(c)
}

pub open spec fn is_simple(value: Seq<char>) -> bool {
    forall|i: int| 0 <= i < value.len() ==> !is_awkward(#[trigger] value[i])
}

/// A variable that cannot change what the service does.
pub open spec fn is_harmless(name: Seq<char>) -> bool {
    name == "LIANLI_ENABLE_HW_VIDEO"@ || name == "RUST_LOG"@ || name == "DISPLAY"@ || name
        == "WAYLAND_DISPLAY"@ || name == "HYPRLAND_INSTANCE_SIGNATURE"@
}

/// What speaks against a directive in an override, where `service` says whether it stands in the
/// service section.
pub open spec fn directive_complaint(line: Seq<char>, service: bool) -> Option<Seq<char>> {
    match text::split_once_spec(line, '=') {
        None => Some("Invalid override directive"@),
        Some((key, value)) => if !(service && text::trimmed(key) == "Environment"@) {
            Some(
                "Override directive "@ + text::trimmed(key)
                    + " affects the verified service recipe"@,
            )
        } else {
            assignment_complaint(text::trimmed(value))
        },
    }
}

/// What speaks against the value of an environment directive.
pub open spec fn assignment_complaint(value: Seq<char>) -> Option<Seq<char>> {
    if value.len() == 0 {
        None
    } else if !is_simple(bare(value)) {
        Some("Use one simple environment assignment per override line"@)
    } else {
        match text::split_once_spec(bare(value), '=') {
            None => Some("Invalid environment assignment"@),
            Some((name, _)) => if is_harmless(name) {
                None
            } else {
                Some(
                    "Service override "@ + name + " is unsupported for automatic switching"@,
                )
            },
        }
    }
}

/// The first complaint about the lines of an override from `i` on.
pub open spec fn override_from(lines: Seq<Seq<char>>, i: int, service: bool) -> Option<Seq<char>>
    decreases lines.len() - i,
{
    if i < 0 || i >= lines.len() {
        None
    } else {
        let line = text::trimmed(lines[i]);
        if is_silent(line) {
            override_from(lines, i + 1, service)
        } else if line[0] == '[' {
            override_from(lines, i + 1, line == "[Service]"@)
        } else {
            match directive_complaint(line, service) {
                Some(e) => Some(e),
                None => override_from(lines, i + 1, service),
            }
        }
    }
}

fn simple(value: &Vec<char>) -> (r: bool)
    ensures
        r == is_simple(value@),
{
    let mut i: usize = 0;
    while i < value.len()
        invariant
            i <= value@.len(),
            forall|j: int| 0 <= j < i ==> !is_awkward(#[trigger] value@[j]),
        decreases value@.len() - i,
    {
        let c = value[i];
        if c == '"' || c == '\'' || c == '\\' || text::space(c) {
            assert(is_awkward(value@[i as int]));
            return false;
        }
        i += 1;
    }
    true
}

fn unquoted(value: &str) -> (r: String)
    ensures
        r@ == bare(value@),
{
    let v = text::chars(value);
    let n: usize = v.len();
    if n >= 2 && ((v[0] == '"' && v[n - 1] == '"') || (v[0] == '\'' && v[n - 1] == '\'')) {
        text::slice(&v, 1, n - 1)
    } else {
        value.to_owned()
    }
}

fn harmless(name: &str) -> (r: bool)
    ensures
        r == is_harmless(name@),
{
    text::eq(name, "LIANLI_ENABLE_HW_VIDEO") || text::eq(name, "RUST_LOG") || text::eq(
        name,
        "DISPLAY",
    ) || text::eq(name, "WAYLAND_DISPLAY") || text::eq(name, "HYPRLAND_INSTANCE_SIGNATURE")
}

fn check_assignment(value: &str) -> (r: Result<(), String>)
    ensures
        match r {
            Ok(_) => assignment_complaint(value@) is None,
            Err(e) => assignment_complaint(value@) == Some(e@),
        },
{
    if text::chars(value).len() == 0 {
        return Ok(());
    }
    let value = unquoted(value);
    if !simple(&text::chars(value.as_str())) {
        return Err("Use one simple environment assignment per override line".to_owned());
    }
    match text::split_once(value.as_str(), '=') {
        None => Err("Invalid environment assignment".to_owned()),
        Some((name, _)) => {
            if harmless(name.as_str()) {
                return Ok(());
            }
            let mut e = "Service override ".to_owned();
            e.append(name.as_str());
            e.append(" is unsupported for automatic switching");
            Err(e)
        },
    }
}

fn check_directive(line: &str, service: bool) -> (r: Result<(), String>)
    ensures
        match r {
            Ok(_) => directive_complaint(line@, service) is None,
            Err(e) => directive_complaint(line@, service) == Some(e@),
        },
{
    match text::split_once(line, '=') {
        None => Err("Invalid override directive".to_owned()),
        Some((key, value)) => {
            let key = text::trim(key.as_str());
            if !(service && text::eq(key.as_str(), "Environment")) {
                let mut e = "Override directive ".to_owned();
                e.append(key.as_str());
                e.append(" affects the verified service recipe");
                return Err(e);
            }
            check_assignment(text::trim(value.as_str()).as_str())
        },
    }
}

/// Whether an override only sets variables that cannot change what the service does.
pub fn verify_override(text: &str) -> (r: Result<(), String>)
    ensures
        match r {
            Ok(_) => override_from(text::lines_of(text@), 0, false) is None,
            Err(e) => override_from(text::lines_of(text@), 0, false) == Some(e@),
        },
{
    let lines = text::lines(text);
    let ghost all = texts(lines@);
    let mut service = false;
    let mut i: usize = 0;
    while i < lines.len()
        invariant
            all == texts(lines@),
            all == text::lines_of(text@),
            i <= lines@.len(),
            override_from(all, 0, false) == override_from(all, i as int, service),
        decreases lines@.len() - i,
    {
        assert(all[i as int] == lines@[i as int]@);
        let line = text::trim(lines[i].as_str());
        let v = text::chars(line.as_str());
        if v.len() == 0 || v[0] == '#' || v[0] == ';' {
        } else if v[0] == '[' {
            service = text::eq(line.as_str(), "[Service]");
        } else {
            check_directive(line.as_str(), service)?;
        }
        i += 1;
    }
    assert(all.len() == lines@.len());
    Ok(())
}

/// Every assignment that an accepted override makes is of a variable that cannot change what the
/// service does.
pub proof fn overrides_only_set_harmless_variables(lines: Seq<Seq<char>>, i: int, service: bool, at: int)
    requires
        override_from(lines, i, service) is None,
        0 <= i <= at < lines.len(),
        !is_silent(text::trimmed(lines[at])),
        text::trimmed(lines[at])[0] != '[',
    ensures
        text::split_once_spec(text::trimmed(lines[at]), '=') matches Some((key, value))
            && text::trimmed(key) == "Environment"@ && (text::trimmed(value).len() > 0 ==> (
        text::split_once_spec(bare(text::trimmed(value)), '=') matches Some((name, _))
            && is_harmless(name))),
    decreases at - i,
{
    let line = text::trimmed(lines[i]);
    if i < at {
        if is_silent(line) {
            overrides_only_set_harmless_variables(lines, i + 1, service, at);
        } else if line[0] == '[' {
            overrides_only_set_harmless_variables(lines, i + 1, line == "[Service]"@, at);
        } else {
            overrides_only_set_harmless_variables(lines, i + 1, service, at);
        }
    }
}

/// What is accepted outside the service section is accepted in it.
proof fn sections_only_help(lines: Seq<Seq<char>>, i: int, service: bool)
    requires
        override_from(lines, i, false) is None,
    ensures
        override_from(lines, i, service) is None,
    decreases lines.len() - i,
{
    if 0 <= i < lines.len() {
        let line = text::trimmed(lines[i]);
        if is_silent(line) {
            sections_only_help(lines, i + 1, service);
        }
    }
}

proof fn overrides_follow(a: Seq<Seq<char>>, b: Seq<Seq<char>>, i: int, service: bool)
    requires
        0 <= i <= a.len(),
        override_from(a, i, service) is None,
        override_from(b, 0, false) is None,
    ensures
        override_from(a + b, i, service) is None,
    decreases a.len() - i,
{
    if i < a.len() {
        assert((a + b)[i] == a[i]);
        let line = text::trimmed(a[i]);
        if !is_silent(line) && line[0] == '[' {
            overrides_follow(a, b, i + 1, line == "[Service]"@);
        } else {
            overrides_follow(a, b, i + 1, service);
        }
    } else {
        sections_only_help(b, 0, service);
        override_shifts(a, b, 0, service);
    }
}

proof fn override_shifts(a: Seq<Seq<char>>, b: Seq<Seq<char>>, i: int, service: bool)
    requires
        0 <= i <= b.len(),
    ensures
        override_from(a + b, a.len() + i, service) == override_from(b, i, service),
    decreases b.len() - i,
{
    if i < b.len() {
        assert((a + b)[a.len() + i] == b[i]);
        let line = text::trimmed(b[i]);
        if !is_silent(line) && line[0] == '[' {
            override_shifts(a, b, i + 1, line == "[Service]"@);
        } else {
            override_shifts(a, b, i + 1, service);
        }
    }
}

proof fn ended_overrides(now: Seq<Seq<char>>, before: Seq<Seq<char>>, i: int, service: bool)
    requires
        text::ended(now, before),
        0 <= i <= before.len(),
        override_from(before, i, service) is None,
    ensures
        override_from(now, i, service) is None,
    decreases before.len() - i,
{
    if i < before.len() {
        if i < before.len() - 1 {
            assert(now.drop_last()[i] == now[i]);
            assert(before.drop_last()[i] == before[i]);
        }
        text::trimming_drops_a_return(before[i]);
        assert(text::trimmed(now[i]) == text::trimmed(before[i]));
        let line = text::trimmed(before[i]);
        if !is_silent(line) && line[0] == '[' {
            ended_overrides(now, before, i + 1, line == "[Service]"@);
        } else {
            ended_overrides(now, before, i + 1, service);
        }
    } else if now.len() > before.len() {
        assert(now[i] == Seq::<char>::empty());
        assert(text::trimmed(now[i]) =~= Seq::<char>::empty());
        assert(override_from(now, i + 1, service) is None);
    }
}

/// Two overrides that are accepted are accepted as one, the second on the lines after the first.
pub proof fn accepted_overrides_can_be_joined(a: Seq<char>, b: Seq<char>)
    requires
        override_from(text::lines_of(a), 0, false) is None,
        override_from(text::lines_of(b), 0, false) is None,
    ensures
        override_from(text::lines_of(a + "\n"@ + b), 0, false) is None,
{
    reveal_strlit("\n");
    let p = a.push('\n');
    assert(a + "\n"@ =~= p);
    text::lines_of_joined(p, b);
    text::lines_of_ended(a);
    ended_overrides(text::lines_of(p), text::lines_of(a), 0, false);
    overrides_follow(text::lines_of(p), text::lines_of(b), 0, false);
}

pub fn check_state_directory(m: &Metadata, uid: u32) -> (r: Result<(), String>)
    ensures
        outcome(r) == if m.uid == uid && m.mode & 0o022 == 0 {
            Ok(())
        } else {
            Err(
                "Destination state directory must belong to its daemon account and must not be writable by other accounts"@,
            )
        },
{
    if m.uid == uid && m.mode & 0o022 == 0 {
        Ok(())
    } else {
        Err(
            "Destination state directory must belong to its daemon account and must not be writable by other accounts".to_owned(),
        )
    }
}

pub fn check_no_transaction(present: bool) -> (r: Result<(), String>)
    ensures
        outcome(r) == if present {
            Err(
                "Destination has an interrupted state transaction. Recover it before preparing another switch"@,
            )
        } else {
            Ok(())
        },
{
    if present {
        Err(
            "Destination has an interrupted state transaction. Recover it before preparing another switch".to_owned(),
        )
    } else {
        Ok(())
    }
}

pub fn check_settings(summary: &StateSummary) -> (r: Result<(), String>)
    ensures
        outcome(r) == if summary.issue_count == 0 {
            Ok(())
        } else {
            Err(
                "Destination state has invalid settings: "@ + text::joined(
                    texts(summary.issues@),
                    "\n"@,
                ),
            )
        },
{
    if summary.issue_count == 0 {
        return Ok(());
    }
    let mut e = "Destination state has invalid settings: ".to_owned();
    e.append(text::join(&summary.issues, "\n").as_str());
    Err(e)
}

/// Whether the templates, presets and profiles are all missing, as beside a missing configuration.
pub fn check_no_orphans(templates: bool, presets: bool, profiles: bool) -> (r: Result<(), String>)
    ensures
        outcome(r) == if templates || presets || profiles {
            Err(
                "Destination has saved auxiliary state without config.json. Repair it before switching"@,
            )
        } else {
            Ok(())
        },
{
    if templates || presets || profiles {
        Err(
            "Destination has saved auxiliary state without config.json. Repair it before switching".to_owned(),
        )
    } else {
        Ok(())
    }
}

pub fn check_same_directory(before: &Metadata, now: &Metadata) -> (r: Result<(), String>)
    ensures
        outcome(r) == if now.kind == FileKind::Directory && now.dev == before.dev && now.ino
            == before.ino {
            Ok(())
        } else {
            Err("Destination state directory changed during preflight"@)
        },
{
    if now.kind == FileKind::Directory && now.dev == before.dev && now.ino == before.ino {
        Ok(())
    } else {
        Err("Destination state directory changed during preflight".to_owned())
    }
}

/// Whether a report says this of a destination. A destination without saved state has no assets to
/// check.
pub open spec fn reports(
    r: Destination,
    scope: ServiceScope,
    account: Account,
    namespace: (Seq<char>, Seq<char>),
    state_directory: (Seq<char>, Seq<char>),
    config_path: Seq<char>,
    working_directory: Seq<char>,
    saved: Option<(StateSummary, AssetAccessReport)>,
) -> bool {
    &&& r.scope == scope
    &&& r.uid == account.uid
    &&& r.gid == account.gid
    &&& r.groups_fingerprint@ == digest::fingerprint(digest::le32s(account.groups@))
    &&& r.mount_namespace@ == namespace
    &&& r.state_directory matches Some(directory)
    &&& directory@ == state_directory
    &&& r.config_path@ == config_path
    &&& r.working_directory@ == working_directory
    &&& match saved {
        Some((summary, assets)) => r.state == Some(summary) && r.assets == assets,
        None => {
            &&& r.state is None
            &&& r.assets.uid == account.uid
            &&& r.assets.checked == 0
            &&& r.assets.failed == 0
            &&& r.assets.issues@.len() == 0
        },
    }
}

/// Begins to inspect a destination under its own account, whose credentials this process must have.
pub fn inspect(
    scope: ServiceScope,
    prepare_directory: bool,
    account: Account,
    uid: u32,
    gid: u32,
    groups: &Vec<u32>,
) -> (r: Result<Inspection, String>)
    ensures
        match r {
            Ok(i) => {
                &&& holds(account, uid, gid, groups@)
                &&& i.wf()
                &&& i.scope == scope
                &&& i.prepare_directory == prepare_directory
                &&& i.account == account
                &&& i.working@ == working_of(scope, account)
                &&& scope == ServiceScope::System ==> i.config@ == "/var/lib/lianli/config.json"@
                &&& i.step == InspectionStep::VerifyRecipe
                &&& i.report is None
            },
            Err(e) => !holds(account, uid, gid, groups@) && e@
                == "Destination helper does not have the intended UID, primary group and supplementary groups"@,
        },
{
    let mut inspection = Inspection::begin(scope, prepare_directory, account);
    inspection.account(uid, gid, groups);
    match inspection.step {
        InspectionStep::Failed => Err(inspection.error),
        _ => Ok(inspection),
    }
}

/// The report on a destination.
pub fn report_on(
    scope: ServiceScope,
    account: &Account,
    namespace: FileIdentity,
    state_directory: FileIdentity,
    config_path: String,
    working_directory: String,
    saved: Option<(StateSummary, AssetAccessReport)>,
) -> (r: Destination)
    ensures
        reports(
            r,
            scope,
            *account,
            namespace@,
            state_directory@,
            config_path@,
            working_directory@,
            saved,
        ),
{
    let (state, assets) = match saved {
        Some((summary, assets)) => (Some(summary), assets),
        None => (
            None,
            AssetAccessReport { uid: account.uid, checked: 0, failed: 0, issues: Vec::new() },
        ),
    };
    Destination {
        scope,
        uid: account.uid,
        gid: account.gid,
        groups_fingerprint: account.group_fingerprint(),
        mount_namespace: namespace,
        state_directory: Some(state_directory),
        config_path,
        working_directory,
        state,
        assets,
    }
}

pub fn check_setup_authority(root: bool, account: &Account, system_uid: u32) -> (r: Result<
    (),
    String,
>)
    ensures
        outcome(r) == if root && account.uid == system_uid {
            Ok(())
        } else {
            Err("System destination setup requires its authorized native administrator"@)
        },
{
    if root && account.uid == system_uid {
        Ok(())
    } else {
        Err("System destination setup requires its authorized native administrator".to_owned())
    }
}

pub fn check_state_parent(m: &Metadata) -> (r: Result<(), String>)
    ensures
        outcome(r) == if m.uid == 0 && m.mode & 0o022 == 0 {
            Ok(())
        } else {
            Err("System state parent is not protected and root-owned"@)
        },
{
    if m.uid == 0 && m.mode & 0o022 == 0 {
        Ok(())
    } else {
        Err("System state parent is not protected and root-owned".to_owned())
    }
}

pub fn check_system_directory(m: &Metadata, account: &Account) -> (r: Result<(), String>)
    ensures
        outcome(r) == if m.uid == account.uid && m.gid == account.gid && m.mode & 0o022 == 0 {
            Ok(())
        } else {
            Err(
                "Existing system state directory has the wrong owner, group or write permissions. Repair it before switching"@,
            )
        },
{
    if m.uid == account.uid && m.gid == account.gid && m.mode & 0o022 == 0 {
        Ok(())
    } else {
        Err(
            "Existing system state directory has the wrong owner, group or write permissions. Repair it before switching".to_owned(),
        )
    }
}

/// The process of the user's service manager, by what the bus answered.
pub fn manager_pid(signature: &str, data: &Vec<u32>) -> (r: Result<u32, String>)
    ensures
        outcome(r) == if signature@ == "u"@ && data@.len() == 1 && data@[0] != 0 {
            Ok(data@[0])
        } else {
            Err("Invalid user manager process identity"@)
        },
{
    if text::eq(signature, "u") && data.len() == 1 && data[0] != 0 {
        Ok(data[0])
    } else {
        Err("Invalid user manager process identity".to_owned())
    }
}

pub fn check_manager_namespace(manager: &FileIdentity, own: &FileIdentity) -> (r: Result<
    (),
    String,
>)
    ensures
        outcome(r) == if manager@ == own@ {
            Ok(())
        } else {
            Err(
                "The user service uses another mount namespace. Automatic native switching cannot validate its files from this helper"@,
            )
        },
{
    if manager.same(own) {
        Ok(())
    } else {
        Err(
            "The user service uses another mount namespace. Automatic native switching cannot validate its files from this helper".to_owned(),
        )
    }
}

/// The numbers that words stand for, or what is wrong with the first that stands for none.
pub open spec fn numbers_of(words: Seq<Seq<char>>, n: int) -> Result<Seq<u32>, Seq<char>>
    decreases n,
{
    if n <= 0 {
        Ok(Seq::empty())
    } else {
        match numbers_of(words, n - 1) {
            Err(e) => Err(e),
            Ok(before) => match text::u32_of(words[n - 1], 10) {
                Err(e) => Err(e),
                Ok(number) => Ok(before.push(number)),
            },
        }
    }
}

/// The list or error of a call.
pub open spec fn counted(r: Result<Vec<u32>, String>) -> Result<Seq<u32>, Seq<char>> {
    match r {
        Ok(v) => Ok(v@),
        Err(e) => Err(e@),
    }
}

/// Reads the numbers that words stand for.
pub fn read_numbers(words: &Vec<String>) -> (r: Result<Vec<u32>, String>)
    ensures
        counted(r) == numbers_of(texts(words@), words@.len() as int),
{
    let ghost all = texts(words@);
    let mut out: Vec<u32> = Vec::new();
    let mut error: Option<String> = None;
    let mut i: usize = 0;
    while i < words.len()
        invariant
            all == texts(words@),
            i <= words@.len(),
            numbers_of(all, i as int) == match error {
                Some(e) => Err(e@),
                None => Ok(out@),
            },
        decreases words@.len() - i,
    {
        assert(all[i as int] == words@[i as int]@);
        if error.is_none() {
            match text::read_u32(words[i].as_str(), 10) {
                Ok(n) => {
                    out.push(n);
                },
                Err(e) => {
                    error = Some(e);
                },
            }
        }
        i += 1;
    }
    match error {
        Some(e) => Err(e),
        None => Ok(out),
    }
}

/// The numbers under a name in the status of a process.
pub open spec fn field_numbers(fields: Map<Seq<char>, Seq<char>>, name: Seq<char>) -> Result<
    Seq<u32>,
    Seq<char>,
> {
    match value_of(fields, name) {
        None => Err("User manager credentials are unavailable"@),
        Some(value) => numbers_of(text::words(value), text::words(value).len() as int),
    }
}

/// Four times the same number.
pub open spec fn four_times(numbers: Seq<u32>, n: u32) -> bool {
    numbers =~= seq![n, n, n, n]
}

/// Whether the manager's groups, with the primary one, are the account's.
pub open spec fn has_groups(groups: Seq<u32>, account: Account) -> bool {
    normalized(groups.push(account.gid), account.groups@)
}

pub open spec fn manager_complaint(status: Seq<char>, account: Account) -> Option<Seq<char>> {
    let fields = properties_of(status, ':');
    match field_numbers(fields, "Uid"@) {
        Err(e) => Some(e),
        Ok(uid) => match field_numbers(fields, "Gid"@) {
            Err(e) => Some(e),
            Ok(gid) => if !four_times(uid, account.uid) || !four_times(gid, account.gid) {
                Some("User manager belongs to another account or primary group"@)
            } else {
                match field_numbers(fields, "Groups"@) {
                    Err(e) => Some(e),
                    Ok(groups) => if has_groups(groups, account) {
                        None
                    } else {
                        Some(
                            "The user service manager has stale supplementary groups. Log out completely and log in again, or reboot if user lingering keeps the manager running"@,
                        )
                    },
                }
            },
        },
    }
}

fn numbers(fields: &Properties, name: &str) -> (r: Result<Vec<u32>, String>)
    ensures
        counted(r) == field_numbers(fields@, name@),
{
    let value = match fields.get(name) {
        None => {
            return Err("User manager credentials are unavailable".to_owned());
        },
        Some(value) => value,
    };
    let words = text::split_whitespace(value.as_str());
    assert(texts(words@).len() == words@.len());
    read_numbers(&words)
}

fn all_four(v: &Vec<u32>, n: u32) -> (r: bool)
    ensures
        r == four_times(v@, n),
{
    let r = v.len() == 4 && v[0] == n && v[1] == n && v[2] == n && v[3] == n;
    proof {
        if four_times(v@, n) {
            assert(v@.len() == 4);
            assert(v@[0] == n && v@[1] == n && v@[2] == n && v@[3] == n);
        }
    }
    r
}

/// Whether the user's service manager has the credentials of the account.
pub fn verify_manager_groups(status: &str, account: &Account) -> (r: Result<(), String>)
    ensures
        match r {
            Ok(_) => manager_complaint(status@, *account) is None,
            Err(e) => manager_complaint(status@, *account) == Some(e@),
        },
{
    let fields = Properties::parse(status, ':');
    let uid = numbers(&fields, "Uid")?;
    let gid = numbers(&fields, "Gid")?;
    if !all_four(&uid, account.uid) || !all_four(&gid, account.gid) {
        return Err("User manager belongs to another account or primary group".to_owned());
    }
    let mut groups = numbers(&fields, "Groups")?;
    let ghost listed = groups@;
    groups.push(account.gid);
    let groups = normalize(&groups);
    if !same_groups(&groups, &account.groups) {
        proof {
            if has_groups(listed, *account) {
                crate::account::normal_form_is_unique(
                    listed.push(account.gid),
                    groups@,
                    account.groups@,
                );
            }
        }
        return Err(
            "The user service manager has stale supplementary groups. Log out completely and log in again, or reboot if user lingering keeps the manager running".to_owned(),
        );
    }
    Ok(())
}

pub open spec fn is_protected_unit(m: Metadata) -> bool {
    m.kind == FileKind::File && m.uid == 0 && m.mode & 0o022 == 0 && m.len <= MAX_UNIT
}

/// Whether an installed unit is protected and holds exactly the supplied text.
pub fn verify_recipe(m: &Metadata, bytes: &Vec<u8>, supplied: &Vec<u8>) -> (r: Result<(), String>)
    ensures
        outcome(r) == if !is_protected_unit(*m) {
            Err("Native destination unit must be a protected root-owned file"@)
        } else if bytes@ != supplied@ {
            Err(
                "Install the current supplied native unit and reload the manager before automatic switching"@,
            )
        } else {
            Ok(())
        },
{
    if !(m.kind == FileKind::File && m.uid == 0 && m.mode & 0o022 == 0 && m.len
        <= MAX_UNIT as u64) {
        return Err("Native destination unit must be a protected root-owned file".to_owned());
    }
    if !same_bytes(bytes, supplied) {
        return Err(
            "Install the current supplied native unit and reload the manager before automatic switching".to_owned(),
        );
    }
    Ok(())
}

/// Whether two byte strings are equal.
pub fn same_bytes(a: &Vec<u8>, b: &Vec<u8>) -> (r: bool)
    ensures
        r == (a@ == b@),
{
    if a.len() != b.len() {
        return false;
    }
    let mut i: usize = 0;
    while i < a.len()
        invariant
            i <= a@.len() == b@.len(),
            forall|j: int| 0 <= j < i ==> a@[j] == b@[j],
        decreases a@.len() - i,
    {
        if a[i] != b[i] {
            return false;
        }
        i += 1;
    }
    assert(a@ =~= b@);
    true
}

pub fn verify_daemon_binary(m: &Metadata) -> (r: Result<(), String>)
    ensures
        outcome(r) == if m.kind == FileKind::File && m.uid == 0 && m.mode & 0o022 == 0 && m.mode
            & 0o111 != 0 {
            Ok(())
        } else {
            Err("Install a protected root-owned daemon binary before automatic switching"@)
        },
{
    if m.kind == FileKind::File && m.uid == 0 && m.mode & 0o022 == 0 && m.mode & 0o111 != 0 {
        Ok(())
    } else {
        Err("Install a protected root-owned daemon binary before automatic switching".to_owned())
    }
}

/// Whether every required capability is among those that are there.
pub open spec fn has_all(there: Seq<Seq<char>>, required: Seq<Seq<char>>) -> bool {
    forall|i: int| 0 <= i < required.len() ==> there.contains(#[trigger] required[i])
}

/// Whether the installed daemon fits this program: its version, its protocol, and the capabilities
/// that switching needs.
pub fn verify_build(
    build: &DaemonBuildInfo,
    version: &str,
    protocol_version: u32,
    required: &Vec<String>,
) -> (r: Result<(), String>)
    ensures
        outcome(r) == if build.version@ != version@ || build.protocol_version != protocol_version {
            Err("Install matching control and daemon versions before switching"@)
        } else if !has_all(texts(build.capabilities@), texts(required@)) {
            Err(
                "Installed daemon lacks the shutdown, write coordination, host selection, startup gate or media validation support needed for switching"@,
            )
        } else {
            Ok(())
        },
{
    if !text::eq(build.version.as_str(), version) || build.protocol_version != protocol_version {
        return Err("Install matching control and daemon versions before switching".to_owned());
    }
    let ghost there = texts(build.capabilities@);
    let ghost wanted = texts(required@);
    let mut i: usize = 0;
    while i < required.len()
        invariant
            there == texts(build.capabilities@),
            wanted == texts(required@),
            i <= required@.len(),
            forall|j: int| 0 <= j < i ==> there.contains(#[trigger] wanted[j]),
            build.version@ == version@,
            build.protocol_version == protocol_version,
        decreases required@.len() - i,
    {
        if !text::is_among(required[i].as_str(), &build.capabilities) {
            assert(!there.contains(wanted[i as int]));
            return Err(
                "Installed daemon lacks the shutdown, write coordination, host selection, startup gate or media validation support needed for switching".to_owned(),
            );
        }
        assert(wanted[i as int] == required@[i as int]@);
        i += 1;
    }
    assert(wanted.len() == required@.len());
    Ok(())
}

/// The assignments among those of an environment that say where configurations stand.
pub open spec fn kept_of(environment: Map<Seq<char>, Seq<char>>) -> Map<Seq<char>, Seq<char>> {
    environment.restrict(Set::new(|name: Seq<char>| name == "HOME"@ || name == "XDG_CONFIG_HOME"@))
}

/// The environment of the user's service manager, as far as it says where configurations stand, by
/// what the bus answered.
pub fn user_environment(signature: &str, data: &Vec<String>) -> (r: Result<Properties, String>)
    ensures
        match r {
            Ok(environment) => signature@ == "as"@ && environment@ == kept_of(
                gathered(texts(data@), '=', data@.len() as int),
            ),
            Err(e) => signature@ != "as"@ && e@ == "Unexpected user manager environment format"@,
        },
{
    if !text::eq(signature, "as") {
        return Err("Unexpected user manager environment format".to_owned());
    }
    let all = Properties::gather(data, '=');
    let mut r = Properties::new();
    match all.get("HOME") {
        Some(home) => {
            r = r.with("HOME".to_owned(), home.clone());
        },
        None => {},
    }
    match all.get("XDG_CONFIG_HOME") {
        Some(base) => {
            r = r.with("XDG_CONFIG_HOME".to_owned(), base.clone());
        },
        None => {},
    }
    assert(r@ =~= kept_of(all@));
    Ok(r)
}

/// Where a user's daemon keeps its configuration, in the manager's environment.
pub open spec fn config_path_of(
    environment: Map<Seq<char>, Seq<char>>,
    working: Seq<char>,
) -> Seq<char> {
    let home = match value_of(environment, "HOME"@) {
        Some(home) => home,
        None => working,
    };
    let base = match value_of(environment, "XDG_CONFIG_HOME"@) {
        Some(base) => base,
        None => path::join_of(home, ".config"@),
    };
    let p = path::join_of(base, "lianli/config.json"@);
    if path::is_absolute(p) {
        p
    } else {
        path::join_of(working, p)
    }
}

pub fn user_config(environment: &Properties, working: &str) -> (r: Result<String, String>)
    ensures
        match r {
            Ok(p) => p@ == config_path_of(environment@, working@) && text::byte_len(p@)
                <= MAX_CONFIG_PATH,
            Err(e) => text::byte_len(config_path_of(environment@, working@)) > MAX_CONFIG_PATH && e@
                == "Destination configuration path exceeds its limit"@,
        },
{
    let home = match environment.get("HOME") {
        Some(home) => home.clone(),
        None => working.to_owned(),
    };
    let base = match environment.get("XDG_CONFIG_HOME") {
        Some(base) => base.clone(),
        None => path::join(home.as_str(), ".config"),
    };
    let p = path::join(base.as_str(), "lianli/config.json");
    let p = if path::absolute(p.as_str()) {
        p
    } else {
        path::join(working, p.as_str())
    };
    if text::len(p.as_str()) > MAX_CONFIG_PATH {
        return Err("Destination configuration path exceeds its limit".to_owned());
    }
    Ok(p)
}

/// The answer of a helper is accepted exactly where it succeeded and its report is of the asked
/// service, of this account with its groups, from this mount namespace, and its media were checked
/// under the account.
pub proof fn answers_come_from_the_account(
    output: Result<Output, String>,
    report: Result<Destination, String>,
    account: Account,
    scope: ServiceScope,
    namespace: FileIdentity,
)
    ensures
        answer_complaint(output, report, account, scope, namespace) is None <==> {
            let r = report->Ok_0;
            &&& output is Ok
            &&& output->Ok_0.code == Some(0i32)
            &&& report is Ok
            &&& r.scope == scope
            &&& r.uid == account.uid
            &&& r.gid == account.gid
            &&& r.groups_fingerprint@ == digest::fingerprint(digest::le32s(account.groups@))
            &&& r.mount_namespace.device@ == namespace.device@
            &&& r.mount_namespace.inode@ == namespace.inode@
            &&& r.assets.uid == account.uid
        },
{
}

/// A preflight looks at what its service has: the host's namespace and, where wanted, the directory
/// for the system's, the manager before and after for the user's.
pub proof fn preflights_look_at_their_service(scope: ServiceScope, prepare: bool)
    ensures
        preflight_takes(PreflightStep::CheckHostNamespace, scope, prepare) <==> scope
            == ServiceScope::System,
        preflight_takes(PreflightStep::PrepareSystemDirectory, scope, prepare) <==> scope
            == ServiceScope::System && prepare,
        preflight_takes(PreflightStep::CheckUserManager, scope, prepare) <==> scope
            == ServiceScope::User,
        preflight_takes(PreflightStep::ConfirmUserManager, scope, prepare) <==> scope
            == ServiceScope::User,
        preflight_takes(PreflightStep::CheckProgram, scope, prepare),
        preflight_takes(PreflightStep::Inspect, scope, prepare),
        inspection_of(scope, prepare)[2] == scope.word_spec(),
        inspection_of(scope, prepare).len() == (if prepare {
            4int
        } else {
            3int
        }),
{
}

/// Recovery is tested exactly under an unprivileged account, by the absolute path of a configuration
/// that lies in a directory, and there.
pub proof fn recovery_is_tested_in_the_directory(uid: u32, config: Seq<char>)
    ensures
        recovery_directory_of(uid, config) is Ok <==> uid != 0 && path::is_absolute(config)
            && path::components_of(config).len() > 0,
        recovery_directory_of(uid, config) is Ok ==> Some(recovery_directory_of(uid, config)->Ok_0)
            == path::parent_of(config),
{
}

/// A unit counts exactly where it is loaded, current and installed in one of the three places of its
/// own service. Its path is passed on.
pub proof fn units_are_loaded_current_and_installed(
    properties: Map<Seq<char>, Seq<char>>,
    scope: ServiceScope,
)
    ensures
        ({
            let found = fragment_of(properties, scope);
            let p = value_of(properties, "FragmentPath"@);
            let at = "/"@ + scope.word_spec() + "/"@ + scope.unit_spec();
            &&& found is Ok <==> {
                &&& value_of(properties, "LoadState"@) == Some("loaded"@)
                &&& value_of(properties, "NeedDaemonReload"@) == Some("no"@)
                &&& p is Some
                &&& path::same_path(p->0, "/usr/lib/systemd"@ + at) || path::same_path(
                    p->0,
                    "/lib/systemd"@ + at,
                ) || path::same_path(p->0, "/etc/systemd"@ + at)
            }
            &&& found is Ok ==> found->Ok_0 == p->0
        }),
{
    let at = "/"@ + scope.word_spec() + "/"@ + scope.unit_spec();
    assert("/usr/lib/systemd"@ + at =~= unit_path("/usr/lib/systemd"@, scope));
    assert("/lib/systemd"@ + at =~= unit_path("/lib/systemd"@, scope));
    assert("/etc/systemd"@ + at =~= unit_path("/etc/systemd"@, scope));
}

/// The recipe of a service is accepted exactly where its unit counts and its working directory is
/// unset or the expected one, whether it may be missing or not. It has overrides where any are named.
pub proof fn recipes_keep_the_working_directory(
    properties: Map<Seq<char>, Seq<char>>,
    scope: ServiceScope,
    working: Seq<char>,
)
    ensures
        ({
            let found = recipe_of(properties, scope, working);
            let value = value_of(properties, "WorkingDirectory"@);
            let paths = value_of(properties, "DropInPaths"@);
            &&& found is Ok <==> fragment_of(properties, scope) is Ok && (value is None
                || value->0.len() == 0 || path::same_path(
                if value->0[0] == '!' {
                    value->0.skip(1)
                } else {
                    value->0
                },
                working,
            ))
            &&& found is Ok ==> found->Ok_0.0 == fragment_of(properties, scope)->Ok_0
            &&& found is Ok ==> (found->Ok_0.1 <==> paths is Some && paths->0.len() > 0)
        }),
{
}

/// An override is trusted exactly where it is a regular file that nobody else may write, of root, or
/// of the user for the user's own service.
pub proof fn overrides_are_trusted_by_their_owner(m: Metadata, scope: ServiceScope, uid: u32)
    ensures
        is_trusted_override(m, scope, uid) <==> m.kind == FileKind::File && m.mode & 0o022 == 0 && (
        m.uid == 0 || (scope == ServiceScope::User && m.uid == uid)),
        is_protected_unit(m) <==> m.kind == FileKind::File && m.uid == 0 && m.mode & 0o022 == 0
            && m.len <= 16_384,
{
}

/// A directive of an override is accepted exactly where it stands in the service's section and sets
/// nothing, or one of the variables that cannot change what the service does, to a plain value.
pub proof fn directives_set_harmless_variables(line: Seq<char>, service: bool)
    ensures
        directive_complaint(line, service) is None <==> (text::split_once_spec(line, '=') matches Some(
            (key, value),
        ) && service && text::trimmed(key) == "Environment"@ && {
            let set = text::trimmed(value);
            let plain = bare(set);
            ||| set.len() == 0
            ||| {
                &&& forall|i: int|
                    0 <= i < plain.len() ==> (#[trigger] plain[i]) != '"' && plain[i] != '\''
                        && plain[i] != '\\' && !text::is_space(plain[i])
                &&& text::split_once_spec(plain, '=') matches Some((name, _)) && (name
                    == "LIANLI_ENABLE_HW_VIDEO"@ || name == "RUST_LOG"@ || name == "DISPLAY"@ || name
                    == "WAYLAND_DISPLAY"@ || name == "HYPRLAND_INSTANCE_SIGNATURE"@)
            }
        }),
{
    match text::split_once_spec(line, '=') {
        None => {},
        Some((key, value)) => {
            let plain = bare(text::trimmed(value));
            assert(is_simple(plain) <==> forall|i: int|
                0 <= i < plain.len() ==> (#[trigger] plain[i]) != '"' && plain[i] != '\'' && plain[i]
                    != '\\' && !text::is_space(plain[i])) by {
                if is_simple(plain) {
                    assert forall|i: int| 0 <= i < plain.len() implies (#[trigger] plain[i]) != '"'
                        && plain[i] != '\'' && plain[i] != '\\' && !text::is_space(plain[i]) by {
                        assert(!is_awkward(plain[i]));
                    }
                }
            }
        },
    }
}

/// The user's manager is accepted exactly where all four of its accounts and groups are the account's,
/// and its groups with the primary one are those of the account.
pub proof fn managers_have_the_credentials_of_the_account(status: Seq<char>, account: Account)
    ensures
        manager_complaint(status, account) is None <==> {
            let fields = properties_of(status, ':');
            let n = account.uid;
            let g = account.gid;
            &&& field_numbers(fields, "Uid"@) is Ok
            &&& field_numbers(fields, "Uid"@)->Ok_0 =~= seq![n, n, n, n]
            &&& field_numbers(fields, "Gid"@) is Ok
            &&& field_numbers(fields, "Gid"@)->Ok_0 =~= seq![g, g, g, g]
            &&& field_numbers(fields, "Groups"@) is Ok
            &&& normalized(field_numbers(fields, "Groups"@)->Ok_0.push(g), account.groups@)
        },
{
}

/// A user's configuration lies where its environment says: below the directory of configurations if
/// one is named, else below the home, which is the working directory unless another is named.
pub proof fn configurations_follow_the_environment(
    environment: Map<Seq<char>, Seq<char>>,
    working: Seq<char>,
)
    requires
        path::is_absolute(working),
    ensures
        ({
            let home = value_of(environment, "HOME"@);
            let base = value_of(environment, "XDG_CONFIG_HOME"@);
            let found = config_path_of(environment, working);
            &&& base is Some && path::is_absolute(base->0) ==> found == path::join_of(
                base->0,
                "lianli/config.json"@,
            )
            &&& base is None && home is Some && path::is_absolute(home->0) ==> found == path::join_of(
                path::join_of(home->0, ".config"@),
                "lianli/config.json"@,
            )
            &&& base is None && home is None ==> found == path::join_of(
                path::join_of(working, ".config"@),
                "lianli/config.json"@,
            )
            &&& path::is_absolute(found)
        }),
{
    reveal_strlit("lianli/config.json");
    reveal_strlit(".config");
    assert("lianli/config.json"@[0] == 'l');
    assert(".config"@[0] == '.');
}

/// A report says of a destination what was found of it, and that no media failed where none are
/// saved.
pub proof fn reports_say_what_was_found(
    r: Destination,
    scope: ServiceScope,
    account: Account,
    namespace: (Seq<char>, Seq<char>),
    state_directory: (Seq<char>, Seq<char>),
    config_path: Seq<char>,
    working_directory: Seq<char>,
    saved: Option<(StateSummary, AssetAccessReport)>,
)
    requires
        reports(
            r,
            scope,
            account,
            namespace,
            state_directory,
            config_path,
            working_directory,
            saved,
        ),
    ensures
        r.scope == scope,
        r.uid == account.uid,
        r.gid == account.gid,
        r.config_path@ == config_path,
        r.working_directory@ == working_directory,
        r.state is Some <==> saved is Some,
        saved is None ==> r.assets.failed == 0 && r.assets.checked == 0 && r.assets.uid == account.uid,
        saved matches Some((summary, assets)) ==> r.assets == assets && r.state == Some(summary),
{
}

/// The numbers of a list are all read or none, each at its own place.
pub proof fn numbers_are_read_in_order(words: Seq<Seq<char>>, n: int, i: int)
    requires
        0 <= i < n <= words.len(),
    ensures
        numbers_of(words, n) is Ok <==> forall|k: int|
            0 <= k < n ==> text::u32_of(#[trigger] words[k], 10) is Ok,
        numbers_of(words, n) is Ok ==> numbers_of(words, n)->Ok_0.len() == n && numbers_of(
            words,
            n,
        )->Ok_0[i] == text::u32_of(words[i], 10)->Ok_0,
    decreases n,
{
    if n == 1 {
        assert(numbers_of(words, 0) == Ok::<Seq<u32>, Seq<char>>(Seq::empty()));
    } else if i < n - 1 {
        numbers_are_read_in_order(words, n - 1, i);
    } else {
        numbers_are_read_in_order(words, n - 1, 0);
    }
}

} // verus!
