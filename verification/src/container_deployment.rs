//! The record of the managed services of a box on the host, and the installed units that must agree
//! with it.

use crate::account::{same_account, Account};
use crate::command::{output_complaint, Output};
use crate::container_destination::{
    both_of, complaint, discovered_of, identity_complaint, route_complaint, same_launch, ConfigNames,
    DestinationAnswer, Execution, Route,
};
use crate::destination::check_output;
use crate::distrobox_unit;
use crate::distrobox_unit::{generate_managed_of, written};
use crate::files::{FileKind, Metadata};
use crate::path;
use crate::properties::{properties_of, value_of, Properties};
use crate::reservation::{held_complaint, Held};
use crate::services::ServiceScope;
use crate::steps;
use crate::text;
use crate::text::{outcome, texts};
use vstd::prelude::*;

verus! {

/// The largest record or unit, in bytes.
pub const LIMIT: usize = 32_768;

/// The longest name of an owner, in bytes.
pub const MAX_OWNER: usize = 256;

#[derive(Clone, Debug)]
pub struct Deployment {
    pub version: u32,
    pub owner_uid: u32,
    pub owner_name: String,
    pub route: Route,
}

pub open spec fn deployment_complaint(d: Deployment, names: ConfigNames) -> Option<Seq<char>> {
    if d.version != 1 {
        Some("Unsupported Distrobox deployment version"@)
    } else if d.owner_uid == 0 || d.owner_name@.len() == 0 || text::byte_len(d.owner_name@)
        > MAX_OWNER || !text::no_control(d.owner_name@) {
        Some("Invalid Distrobox deployment owner"@)
    } else {
        route_complaint(d.route, names)
    }
}

pub open spec fn owner_complaint(d: Deployment, names: ConfigNames, account: Account) -> Option<
    Seq<char>,
> {
    if deployment_complaint(d, names) is Some {
        deployment_complaint(d, names)
    } else if account.container is None && account.uid == d.owner_uid && account.name@
        == d.owner_name@ {
        None
    } else {
        Some("The Distrobox deployment belongs to another host account"@)
    }
}

/// The check on configuration names that concerns a mode.
pub open spec fn name_of(names: ConfigNames, scope: ServiceScope) -> Result<(), String> {
    match scope {
        ServiceScope::User => names.user,
        ServiceScope::System => names.system,
    }
}

pub open spec fn execution_complaint(d: Deployment, names: ConfigNames, e: Execution) -> Option<
    Seq<char>,
> {
    let identity = e.destination;
    if deployment_complaint(d, names) is Some {
        deployment_complaint(d, names)
    } else if identity_complaint(identity, name_of(names, identity.scope)) is Some {
        identity_complaint(identity, name_of(names, identity.scope))
    } else if same_launch(e.launch, d.route.launch) && identity.name@ == d.route.launch.name@
        && identity.uid == d.owner_uid && path::same_path(
        identity.config_path@,
        d.route.config_of(identity.scope),
    ) && path::same_path(identity.working_directory@, d.route.working_of(identity.scope)) {
        None
    } else {
        Some("The container execution differs from the protected deployment"@)
    }
}

/// The unit that a deployment installs for a mode.
#[verifier::opaque]
pub open spec fn deployed_unit(d: Deployment, names: ConfigNames, scope: ServiceScope) -> Result<
    Seq<char>,
    Seq<char>,
> {
    if deployment_complaint(d, names) is Some {
        Err(deployment_complaint(d, names)->0)
    } else {
        generate_managed_of(d.route, names, scope, d.owner_uid)
    }
}

/// Whether the manager loaded a unit from this path, current and without overrides.
pub open spec fn is_loaded(properties: Map<Seq<char>, Seq<char>>, p: Seq<char>) -> bool {
    &&& value_of(properties, "LoadState"@) == Some("loaded"@)
    &&& value_of(properties, "NeedDaemonReload"@) == Some("no"@)
    &&& value_of(properties, "Transient"@) == Some("no"@)
    &&& value_of(properties, "DropInPaths"@) == Some(""@)
    &&& value_of(properties, "FragmentPath"@) matches Some(fragment)
    &&& path::same_path(fragment, p)
}

/// The account that the manager names for a unit.
pub open spec fn unit_owner(d: Deployment, scope: ServiceScope) -> Seq<char> {
    match scope {
        ServiceScope::User => ""@,
        ServiceScope::System => text::decimal(d.owner_uid as nat),
    }
}

pub open spec fn properties_complaint(
    d: Deployment,
    scope: ServiceScope,
    p: Seq<char>,
    properties: Map<Seq<char>, Seq<char>>,
) -> Option<Seq<char>> {
    if !is_loaded(properties, p) {
        Some("Install the managed wrapper without overrides and reload the service manager"@)
    } else if value_of(properties, "User"@) != Some(unit_owner(d, scope)) {
        Some("The loaded wrapper uses another service account"@)
    } else {
        None
    }
}

/// The account that must own an installed unit.
pub open spec fn file_owner(d: Deployment, scope: ServiceScope) -> u32 {
    match scope {
        ServiceScope::User => d.owner_uid,
        ServiceScope::System => 0,
    }
}

/// A file of an owner that nobody else can write, under any other name, or fill.
pub open spec fn is_sound_file(m: Metadata, owner: u32) -> bool {
    m.kind == FileKind::File && m.uid == owner && m.mode & 0o022 == 0 && m.nlink == 1 && m.len
        <= LIMIT
}

fn sound_file(m: &Metadata, owner: u32) -> (r: bool)
    ensures
        r == is_sound_file(*m, owner),
{
    m.kind == FileKind::File && m.uid == owner && m.mode & 0o022 == 0 && m.nlink == 1 && m.len
        <= LIMIT as u64
}

/// Where the unit of a mode is installed.
pub open spec fn location_of(scope: ServiceScope, home: Seq<char>) -> Seq<char> {
    match scope {
        ServiceScope::User => path::join_of(
            path::join_of(home, ".config/systemd/user"@),
            scope.unit_spec(),
        ),
        ServiceScope::System => path::join_of("/etc/systemd/system"@, scope.unit_spec()),
    }
}

pub fn unit_location(scope: ServiceScope, home: &str) -> (r: String)
    ensures
        r@ == location_of(scope, home@),
{
    match scope {
        ServiceScope::User => path::join(
            path::join(home, ".config/systemd/user").as_str(),
            scope.unit(),
        ),
        ServiceScope::System => path::join("/etc/systemd/system", scope.unit()),
    }
}

/// What speaks against an installed unit.
pub open spec fn wrapper_complaint(
    deployment: Deployment,
    names: ConfigNames,
    scope: ServiceScope,
    m: Metadata,
    contents: Seq<char>,
) -> Option<Seq<char>> {
    if !is_sound_file(m, file_owner(deployment, scope)) {
        Some("Installed container wrapper has unsafe ownership, permissions or size"@)
    } else if text::byte_len(contents) > LIMIT {
        Some("Installed container wrapper exceeds 32 KiB"@)
    } else {
        match deployed_unit(deployment, names, scope) {
            Err(e) => Some(e),
            Ok(unit) => if contents == unit {
                None
            } else {
                Some("The installed Distrobox wrapper differs from its deployment record"@)
            },
        }
    }
}

impl Deployment {
    pub fn validate(&self, names: &ConfigNames) -> (r: Result<(), String>)
        ensures
            complaint(r) == deployment_complaint(*self, *names),
    {
        if self.version != 1 {
            return Err("Unsupported Distrobox deployment version".to_owned());
        }
        let letters = text::chars(self.owner_name.as_str());
        if self.owner_uid == 0 || letters.len() == 0 || text::len(self.owner_name.as_str())
            > MAX_OWNER || !text::printable(self.owner_name.as_str()) {
            return Err("Invalid Distrobox deployment owner".to_owned());
        }
        self.route.validate(names)
    }

    pub fn verify_owner(&self, account: &Account, names: &ConfigNames) -> (r: Result<(), String>)
        ensures
            complaint(r) == owner_complaint(*self, *names, *account),
    {
        self.validate(names)?;
        if account.container.is_none() && account.uid == self.owner_uid && text::eq(
            account.name.as_str(),
            self.owner_name.as_str(),
        ) {
            Ok(())
        } else {
            Err("The Distrobox deployment belongs to another host account".to_owned())
        }
    }

    pub fn verify_execution(&self, execution: &Execution, names: &ConfigNames) -> (r: Result<
        (),
        String,
    >)
        ensures
            complaint(r) == execution_complaint(*self, *names, *execution),
    {
        self.validate(names)?;
        let identity = &execution.destination;
        match identity.scope {
            ServiceScope::User => {
                identity.validate(&names.user)?;
            },
            ServiceScope::System => {
                identity.validate(&names.system)?;
            },
        }
        let (config, working) = self.route.paths(identity.scope);
        if execution.launch.same(&self.route.launch) && text::eq(
            identity.name.as_str(),
            self.route.launch.name.as_str(),
        ) && identity.uid == self.owner_uid && path::same(
            identity.config_path.as_str(),
            config.as_str(),
        ) && path::same(identity.working_directory.as_str(), working.as_str()) {
            Ok(())
        } else {
            Err("The container execution differs from the protected deployment".to_owned())
        }
    }

    /// The unit to install for a mode.
    pub fn unit(&self, scope: ServiceScope, names: &ConfigNames) -> (r: Result<String, String>)
        ensures
            written(r) == deployed_unit(*self, *names, scope),
    {
        proof {
            reveal(deployed_unit);
        }
        self.validate(names)?;
        distrobox_unit::generate_managed(&self.route, names, scope, self.owner_uid)
    }

    pub fn verify_unit(&self, scope: ServiceScope, contents: &str, names: &ConfigNames) -> (r:
        Result<(), String>)
        ensures
            outcome(r) == match deployed_unit(*self, *names, scope) {
                Err(e) => Err(e),
                Ok(unit) => if contents@ == unit {
                    Ok(())
                } else {
                    Err("The installed Distrobox wrapper differs from its deployment record"@)
                },
            },
    {
        let unit = self.unit(scope, names)?;
        if text::eq(contents, unit.as_str()) {
            Ok(())
        } else {
            Err("The installed Distrobox wrapper differs from its deployment record".to_owned())
        }
    }

    /// Whether the manager has loaded the unit of a mode as it is installed.
    pub fn verify_properties(&self, scope: ServiceScope, p: &str, text: &str) -> (r: Result<
        (),
        String,
    >)
        ensures
            complaint(r) == properties_complaint(*self, scope, p@, properties_of(text@, '=')),
    {
        let properties = Properties::parse(text, '=');
        let located = match properties.get("FragmentPath") {
            Some(fragment) => path::same(fragment.as_str(), p),
            None => false,
        };
        if !(properties.is("LoadState", "loaded") && properties.is("NeedDaemonReload", "no")
            && properties.is("Transient", "no") && properties.is("DropInPaths", "") && located) {
            return Err(
                "Install the managed wrapper without overrides and reload the service manager".to_owned(),
            );
        }
        let owner = match scope {
            ServiceScope::User => "".to_owned(),
            ServiceScope::System => text::format_u64(self.owner_uid as u64),
        };
        if !properties.is("User", owner.as_str()) {
            return Err("The loaded wrapper uses another service account".to_owned());
        }
        Ok(())
    }

    /// Whether an installed unit is safe and holds exactly what the deployment says.
    pub fn inspect_unit(
        &self,
        scope: ServiceScope,
        m: &Metadata,
        contents: &str,
        names: &ConfigNames,
    ) -> (r: Result<(), String>)
        ensures
            complaint(r) == wrapper_complaint(*self, *names, scope, *m, contents@),
    {
        let owner: u32 = match scope {
            ServiceScope::User => self.owner_uid,
            ServiceScope::System => 0,
        };
        if !sound_file(m, owner) {
            return Err(
                "Installed container wrapper has unsafe ownership, permissions or size".to_owned(),
            );
        }
        if text::len(contents) > LIMIT {
            return Err("Installed container wrapper exceeds 32 KiB".to_owned());
        }
        self.verify_unit(scope, contents, names)
    }
}

pub open spec fn host_complaint(native: bool, etc: Metadata) -> Option<Seq<char>> {
    if !native {
        Some("Inspect deployment records through the native host helper"@)
    } else if etc.kind == FileKind::Directory && etc.uid == 0 && etc.mode & 0o022 == 0 {
        None
    } else {
        Some("The host configuration directory has unsafe ownership or permissions"@)
    }
}

/// Whether records may be read here: on the host, below a protected configuration directory.
pub fn host_context(native: bool, etc: &Metadata) -> (r: Result<(), String>)
    ensures
        complaint(r) == host_complaint(native, *etc),
{
    if !native {
        return Err("Inspect deployment records through the native host helper".to_owned());
    }
    if etc.kind == FileKind::Directory && etc.uid == 0 && etc.mode & 0o022 == 0 {
        Ok(())
    } else {
        Err("The host configuration directory has unsafe ownership or permissions".to_owned())
    }
}

pub fn check_store(m: &Metadata, owner: u32) -> (r: Result<(), String>)
    ensures
        outcome(r) == if m.uid == owner && m.mode & 0o022 == 0 {
            Ok(())
        } else {
            Err("Deployment directory has unsafe ownership or permissions"@)
        },
{
    if m.uid == owner && m.mode & 0o022 == 0 {
        Ok(())
    } else {
        Err("Deployment directory has unsafe ownership or permissions".to_owned())
    }
}

/// Whether a record file can be read: its metadata, and how many bytes were read of it.
pub fn check_record(m: &Metadata, owner: u32, size: usize) -> (r: Result<(), String>)
    ensures
        outcome(r) == if !is_sound_file(*m, owner) {
            Err("Deployment record has unsafe ownership, permissions or size"@)
        } else if size > LIMIT {
            Err("Deployment record exceeds 32 KiB"@)
        } else {
            Ok(())
        },
{
    if !sound_file(m, owner) {
        return Err("Deployment record has unsafe ownership, permissions or size".to_owned());
    }
    check_record_size(size)
}

pub fn check_record_size(size: usize) -> (r: Result<(), String>)
    ensures
        outcome(r) == if size > LIMIT {
            Err("Deployment record exceeds 32 KiB"@)
        } else {
            Ok(())
        },
{
    if size > LIMIT {
        Err("Deployment record exceeds 32 KiB".to_owned())
    } else {
        Ok(())
    }
}

/// The deployment that the host records, where there is one: the directory of the records, and the
/// record file with the number of bytes read of it and what they say.
pub open spec fn loaded(
    native: bool,
    etc: Metadata,
    store: Option<Metadata>,
    record: Option<(Metadata, usize, Deployment)>,
    names: ConfigNames,
) -> Result<Option<Deployment>, Seq<char>> {
    if host_complaint(native, etc) is Some {
        Err(host_complaint(native, etc)->0)
    } else {
        match store {
            None => Ok(None),
            Some(store) => if !(store.uid == 0 && store.mode & 0o022 == 0) {
                Err("Deployment directory has unsafe ownership or permissions"@)
            } else {
                match record {
                    None => Ok(None),
                    Some((m, size, d)) => if !is_sound_file(m, 0) {
                        Err("Deployment record has unsafe ownership, permissions or size"@)
                    } else if size > LIMIT {
                        Err("Deployment record exceeds 32 KiB"@)
                    } else {
                        match deployment_complaint(d, names) {
                            Some(e) => Err(e),
                            None => Ok(Some(d)),
                        }
                    },
                }
            },
        }
    }
}

pub fn load(
    native: bool,
    etc: &Metadata,
    store: Option<&Metadata>,
    record: Option<(Metadata, usize, Deployment)>,
    names: &ConfigNames,
) -> (r: Result<Option<Deployment>, String>)
    ensures
        outcome(r) == loaded(
            native,
            *etc,
            match store {
                Some(m) => Some(*m),
                None => None,
            },
            record,
            *names,
        ),
{
    match host_context(native, etc) {
        Ok(_) => {},
        Err(e) => {
            return Err(e);
        },
    }
    match store {
        None => {
            return Ok(None);
        },
        Some(m) => {
            match check_store(m, 0) {
                Ok(_) => {},
                Err(e) => {
                    return Err(e);
                },
            }
        },
    }
    match record {
        None => Ok(None),
        Some((m, size, d)) => {
            match check_record(&m, 0, size) {
                Ok(_) => {},
                Err(e) => {
                    return Err(e);
                },
            }
            match d.validate(names) {
                Ok(_) => Ok(Some(d)),
                Err(e) => Err(e),
            }
        },
    }
}

/// The arguments of the helper that inspects the installed units under the owner's account.
pub open spec fn inspection_of(text: Seq<char>) -> Seq<Seq<char>> {
    seq!["inspect-container-deployment"@, "--deployment"@, text]
}

pub open spec fn verification_complaint(
    d: Deployment,
    names: ConfigNames,
    account: Account,
    native: bool,
    etc: Metadata,
    text: Seq<char>,
) -> Option<Seq<char>> {
    match owner_complaint(d, names, account) {
        Some(e) => Some(e),
        None => match host_complaint(native, etc) {
            Some(e) => Some(e),
            None => if text::byte_len(text) > LIMIT {
                Some("Deployment record exceeds 32 KiB"@)
            } else {
                None
            },
        },
    }
}

impl Deployment {
    /// The arguments by which the owner's helper inspects the installed units. `text` is this
    /// deployment written out.
    pub fn verification_arguments(
        &self,
        account: &Account,
        names: &ConfigNames,
        native: bool,
        etc: &Metadata,
        text: &str,
    ) -> (r: Result<Vec<String>, String>)
        ensures
            match r {
                Ok(args) => verification_complaint(*self, *names, *account, native, *etc, text@)
                    is None && texts(args@) == inspection_of(text@),
                Err(e) => verification_complaint(*self, *names, *account, native, *etc, text@)
                    == Some(e@),
            },
    {
        match self.verify_owner(account, names) {
            Ok(_) => {},
            Err(e) => {
                return Err(e);
            },
        }
        match host_context(native, etc) {
            Ok(_) => {},
            Err(e) => {
                return Err(e);
            },
        }
        match check_record_size(text::len(text)) {
            Ok(_) => {},
            Err(e) => {
                return Err(e);
            },
        }
        let mut args: Vec<String> = Vec::new();
        args.push("inspect-container-deployment".to_owned());
        args.push("--deployment".to_owned());
        args.push(text.to_owned());
        assert(texts(args@) =~= inspection_of(text@));
        Ok(args)
    }
}

/// Whether the installed units are as recorded, by what the owner's helper gave.
pub fn inspected(output: &Output) -> (r: Result<(), String>)
    ensures
        complaint(r) == output_complaint(*output, "Container wrapper verification failed: "@),
{
    check_output(output, "Container wrapper verification failed: ")
}

/// What speaks against the installed units, by what came of running the owner's helper.
pub open spec fn installed_complaint(
    d: Deployment,
    names: ConfigNames,
    account: Account,
    native: bool,
    etc: Metadata,
    text: Seq<char>,
    output: Result<Output, String>,
) -> Option<Seq<char>> {
    match verification_complaint(d, names, account, native, etc, text) {
        Some(e) => Some(e),
        None => match output {
            Err(e) => Some(e@),
            Ok(output) => output_complaint(output, "Container wrapper verification failed: "@),
        },
    }
}

/// The destinations of both modes for a switch.
pub open spec fn switch_accounts_of(
    d: Deployment,
    names: ConfigNames,
    host: Account,
    installed: Option<Seq<char>>,
    native: bool,
    user: DestinationAnswer,
    system: DestinationAnswer,
) -> Result<(Execution, Execution), Seq<char>> {
    match installed {
        Some(e) => Err(e),
        None => both_of(
            discovered_of(d.route, native, host, ServiceScope::User, names.user, user),
            discovered_of(d.route, native, host, ServiceScope::System, names.system, system),
            names,
        ),
    }
}

impl Deployment {
    /// Whether the installed units are those of this deployment, which is `text` written out:
    /// `output` is what came of inspecting them.
    pub fn verify_installed(
        &self,
        account: &Account,
        names: &ConfigNames,
        native: bool,
        etc: &Metadata,
        text: &str,
        output: &Result<Output, String>,
    ) -> (r: Result<(), String>)
        ensures
            complaint(r) == installed_complaint(
                *self,
                *names,
                *account,
                native,
                *etc,
                text@,
                *output,
            ),
    {
        self.verification_arguments(account, names, native, etc, text)?;
        match output {
            Err(e) => Err(e.clone()),
            Ok(output) => inspected(output),
        }
    }

    /// The destinations of both modes for a switch: `output` is what came of inspecting the installed
    /// units with this deployment, which is `text` written out, and the box was then asked for each.
    pub fn switch_accounts(
        &self,
        host: &Account,
        names: &ConfigNames,
        native: bool,
        etc: &Metadata,
        text: &str,
        output: &Result<Output, String>,
        user: &DestinationAnswer,
        system: &DestinationAnswer,
    ) -> (r: Result<(Execution, Execution), String>)
        ensures
            outcome(r) == switch_accounts_of(
                *self,
                *names,
                *host,
                installed_complaint(*self, *names, *host, native, *etc, text@, *output),
                native,
                *user,
                *system,
            ),
    {
        self.verify_installed(host, names, native, etc, text, output)?;
        let user = self.route.find(native, host, ServiceScope::User, &names.user, user)?;
        let system = self.route.find(native, host, ServiceScope::System, &names.system, system)?;
        user.ensure_separate(&system, names)?;
        Ok((user, system))
    }
}

/// What a deployment record passes on its way to the disk.
#[derive(Clone, Copy, Debug, PartialEq, Eq, Structural)]
pub enum RecordStep {
    CheckHost,
    CheckAuthority,
    CheckOwner,
    CheckAccount,
    VerifyOperation,
    VerifyHardware,
    CheckJournal,
    VerifyUnits,
    ConfirmOperation,
    ConfirmHardware,
    Write,
    ConfirmOperationAgain,
    ConfirmHardwareAgain,
    Recorded,
    Failed,
}

pub open spec fn rank(step: RecordStep) -> int {
    match step {
        RecordStep::CheckHost => 0,
        RecordStep::CheckAuthority => 1,
        RecordStep::CheckOwner => 2,
        RecordStep::CheckAccount => 3,
        RecordStep::VerifyOperation => 4,
        RecordStep::VerifyHardware => 5,
        RecordStep::CheckJournal => 6,
        RecordStep::VerifyUnits => 7,
        RecordStep::ConfirmOperation => 8,
        RecordStep::ConfirmHardware => 9,
        RecordStep::Write => 10,
        RecordStep::ConfirmOperationAgain => 11,
        RecordStep::ConfirmHardwareAgain => 12,
        RecordStep::Recorded => 13,
        RecordStep::Failed => 14,
    }
}

pub open spec fn following(step: RecordStep) -> RecordStep {
    match step {
        RecordStep::CheckHost => RecordStep::CheckAuthority,
        RecordStep::CheckAuthority => RecordStep::CheckOwner,
        RecordStep::CheckOwner => RecordStep::CheckAccount,
        RecordStep::CheckAccount => RecordStep::VerifyOperation,
        RecordStep::VerifyOperation => RecordStep::VerifyHardware,
        RecordStep::VerifyHardware => RecordStep::CheckJournal,
        RecordStep::CheckJournal => RecordStep::VerifyUnits,
        RecordStep::VerifyUnits => RecordStep::ConfirmOperation,
        RecordStep::ConfirmOperation => RecordStep::ConfirmHardware,
        RecordStep::ConfirmHardware => RecordStep::Write,
        RecordStep::Write => RecordStep::ConfirmOperationAgain,
        RecordStep::ConfirmOperationAgain => RecordStep::ConfirmHardwareAgain,
        RecordStep::ConfirmHardwareAgain => RecordStep::Recorded,
        RecordStep::Recorded => RecordStep::Recorded,
        RecordStep::Failed => RecordStep::Failed,
    }
}

fn next_step(step: RecordStep) -> (r: RecordStep)
    ensures
        r == following(step),
{
    match step {
        RecordStep::CheckHost => RecordStep::CheckAuthority,
        RecordStep::CheckAuthority => RecordStep::CheckOwner,
        RecordStep::CheckOwner => RecordStep::CheckAccount,
        RecordStep::CheckAccount => RecordStep::VerifyOperation,
        RecordStep::VerifyOperation => RecordStep::VerifyHardware,
        RecordStep::VerifyHardware => RecordStep::CheckJournal,
        RecordStep::CheckJournal => RecordStep::VerifyUnits,
        RecordStep::VerifyUnits => RecordStep::ConfirmOperation,
        RecordStep::ConfirmOperation => RecordStep::ConfirmHardware,
        RecordStep::ConfirmHardware => RecordStep::Write,
        RecordStep::Write => RecordStep::ConfirmOperationAgain,
        RecordStep::ConfirmOperationAgain => RecordStep::ConfirmHardwareAgain,
        RecordStep::ConfirmHardwareAgain => RecordStep::Recorded,
        RecordStep::Recorded => RecordStep::Recorded,
        RecordStep::Failed => RecordStep::Failed,
    }
}

/// A step that verifies the operation's lock.
pub open spec fn is_operation(step: RecordStep) -> bool {
    step == RecordStep::VerifyOperation || step == RecordStep::ConfirmOperation || step
        == RecordStep::ConfirmOperationAgain
}

/// A step that verifies the hardware's lock.
pub open spec fn is_hardware(step: RecordStep) -> bool {
    step == RecordStep::VerifyHardware || step == RecordStep::ConfirmHardware || step
        == RecordStep::ConfirmHardwareAgain
}

/// Why a deployment's text was not written: the directory of the record, the record that stood there,
/// the size of the text and the write itself are looked at in turn.
pub open spec fn write_complaint(
    d: Deployment,
    names: ConfigNames,
    directory: Result<Metadata, String>,
    stood: Result<(), String>,
    text: Seq<char>,
    wrote: Result<(), String>,
) -> Option<Seq<char>> {
    match directory {
        Err(e) => Some(e@),
        Ok(m) => if !(m.uid == 0 && m.mode & 0o022 == 0) {
            Some("Deployment directory has unsafe ownership or permissions"@)
        } else if deployment_complaint(d, names) is Some {
            deployment_complaint(d, names)
        } else if stood is Err {
            complaint(stood)
        } else if text::byte_len(text) > LIMIT {
            Some("Deployment record exceeds 32 KiB"@)
        } else {
            complaint(wrote)
        },
    }
}

/// The recording of a deployment under way.
pub struct Installation {
    pub deployment: Deployment,
    pub names: ConfigNames,
    /// The account for which the deployment is made.
    pub account: Account,
    pub step: RecordStep,
    pub error: String,
    /// The steps that succeeded, in order.
    pub log: Ghost<Seq<RecordStep>>,
}

pub open spec fn stops(before: Installation, after: Installation, text: Seq<char>) -> bool {
    after == (Installation { step: RecordStep::Failed, error: after.error, ..before })
        && after.error@ == text
}

pub open spec fn moves(before: Installation, after: Installation) -> bool {
    after == (Installation {
        step: following(before.step),
        log: Ghost(before.log@.push(before.step)),
        ..before
    })
}

/// A deployment is recorded step by step. A step that fails ends it.
pub fn install(deployment: Deployment, account: Account, names: ConfigNames) -> (r: Installation)
    ensures
        r.wf(),
        r.deployment == deployment,
        r.account == account,
        r.names == names,
        r.step == RecordStep::CheckHost,
        r.log@ == Seq::<RecordStep>::empty(),
{
    Installation {
        deployment,
        names,
        account,
        step: RecordStep::CheckHost,
        error: String::new(),
        log: Ghost(Seq::empty()),
    }
}

impl Installation {
    /// Every step before the present one succeeded.
    pub open spec fn wf(self) -> bool {
        self.step != RecordStep::Failed ==> forall|s: RecordStep|
            rank(s) < rank(self.step) ==> #[trigger] self.log@.contains(s)
    }

    fn advance(&mut self)
        requires
            old(self).wf(),
            old(self).step != RecordStep::Failed,
            old(self).step != RecordStep::Recorded,
        ensures
            final(self).wf(),
            moves(*old(self), *final(self)),
    {
        proof {
            steps::push_holds(self.log@, self.step);
        }
        self.log = Ghost(self.log@.push(self.step));
        self.step = next_step(self.step);
    }

    fn check(&mut self, result: Result<(), String>)
        requires
            old(self).wf(),
            old(self).step != RecordStep::Failed,
            old(self).step != RecordStep::Recorded,
        ensures
            final(self).wf(),
            match result {
                Ok(_) => moves(*old(self), *final(self)),
                Err(e) => stops(*old(self), *final(self), e@),
            },
    {
        match result {
            Ok(_) => {
                self.advance();
            },
            Err(e) => {
                self.failed(e.as_str());
            },
        }
    }

    /// A step could not be done.
    pub fn failed(&mut self, reason: &str)
        ensures
            final(self).wf(),
            stops(*old(self), *final(self), reason@),
    {
        self.step = RecordStep::Failed;
        self.error = reason.to_owned();
    }

    /// The operation's lock was looked at.
    pub fn operation(&mut self, held: &Held)
        requires
            old(self).wf(),
            is_operation(old(self).step),
        ensures
            final(self).wf(),
            match held_complaint(*held) {
                Some(e) => stops(*old(self), *final(self), e),
                None => moves(*old(self), *final(self)),
            },
    {
        self.check(held.check());
    }

    /// The hardware's lock was looked at.
    pub fn hardware(&mut self, held: &Held)
        requires
            old(self).wf(),
            is_hardware(old(self).step),
        ensures
            final(self).wf(),
            match held_complaint(*held) {
                Some(e) => stops(*old(self), *final(self), e),
                None => moves(*old(self), *final(self)),
            },
    {
        self.check(held.check());
    }

    /// The installed units were inspected with this deployment, which is `text` written out.
    pub fn units(
        &mut self,
        native: bool,
        etc: &Metadata,
        text: &str,
        output: &Result<Output, String>,
    )
        requires
            old(self).wf(),
            old(self).step == RecordStep::VerifyUnits,
        ensures
            final(self).wf(),
            match installed_complaint(
                old(self).deployment,
                old(self).names,
                old(self).account,
                native,
                *etc,
                text@,
                *output,
            ) {
                Some(e) => stops(*old(self), *final(self), e),
                None => moves(*old(self), *final(self)),
            },
    {
        let checked = self.deployment.verify_installed(
            &self.account,
            &self.names,
            native,
            etc,
            text,
            output,
        );
        self.check(checked);
    }

    /// The deployment was written, with `text` as its form on the disk. `stood` is what reading the
    /// record that stood there gave.
    pub fn written(
        &mut self,
        directory: &Result<Metadata, String>,
        stood: &Result<(), String>,
        text: &str,
        wrote: &Result<(), String>,
    )
        requires
            old(self).wf(),
            old(self).step == RecordStep::Write,
        ensures
            final(self).wf(),
            match write_complaint(
                old(self).deployment,
                old(self).names,
                *directory,
                *stood,
                text@,
                *wrote,
            ) {
                Some(e) => stops(*old(self), *final(self), e),
                None => moves(*old(self), *final(self)),
            },
    {
        let judged = match directory {
            Err(e) => Err(e.clone()),
            Ok(m) => match check_store(m, 0) {
                Err(e) => Err(e),
                Ok(_) => match self.deployment.validate(&self.names) {
                    Err(e) => Err(e),
                    Ok(_) => match stood {
                        Err(e) => Err(e.clone()),
                        Ok(_) => match check_record_size(text::len(text)) {
                            Err(e) => Err(e),
                            Ok(_) => match wrote {
                                Err(e) => Err(e.clone()),
                                Ok(_) => Ok(()),
                            },
                        },
                    },
                },
            },
        };
        self.check(judged);
    }

    /// Where this process runs, and the host's configuration directory.
    pub fn host(&mut self, native: bool, etc: &Metadata)
        requires
            old(self).wf(),
            old(self).step == RecordStep::CheckHost,
        ensures
            final(self).wf(),
            match host_complaint(native, *etc) {
                Some(e) => stops(*old(self), *final(self), e),
                None => moves(*old(self), *final(self)),
            },
    {
        self.check(host_context(native, etc));
    }

    /// Whether this process has the host's authority.
    pub fn authority(&mut self, root: bool)
        requires
            old(self).wf(),
            old(self).step == RecordStep::CheckAuthority,
        ensures
            final(self).wf(),
            if root {
                moves(*old(self), *final(self))
            } else {
                stops(
                    *old(self),
                    *final(self),
                    "Deployment installation requires host authorization"@,
                )
            },
    {
        if root {
            self.advance();
        } else {
            self.failed("Deployment installation requires host authorization");
        }
    }

    /// Whether the deployment is the account's.
    pub fn owner(&mut self)
        requires
            old(self).wf(),
            old(self).step == RecordStep::CheckOwner,
        ensures
            final(self).wf(),
            match owner_complaint(old(self).deployment, old(self).names, old(self).account) {
                Some(e) => stops(*old(self), *final(self), e),
                None => moves(*old(self), *final(self)),
            },
    {
        let owned = self.deployment.verify_owner(&self.account, &self.names);
        self.check(owned);
    }

    /// The account as the host knows it now.
    pub fn account(&mut self, now: &Account)
        requires
            old(self).wf(),
            old(self).step == RecordStep::CheckAccount,
        ensures
            final(self).wf(),
            if same_account(*now, old(self).account) {
                moves(*old(self), *final(self))
            } else {
                stops(*old(self), *final(self), "The host account changed during setup"@)
            },
    {
        if now.same(&self.account) {
            self.advance();
        } else {
            self.failed("The host account changed during setup");
        }
    }

    /// Whether a switch is pending.
    pub fn journal(&mut self, pending: bool)
        requires
            old(self).wf(),
            old(self).step == RecordStep::CheckJournal,
        ensures
            final(self).wf(),
            if pending {
                stops(
                    *old(self),
                    *final(self),
                    "Recover the pending switch before changing deployment"@,
                )
            } else {
                moves(*old(self), *final(self))
            },
    {
        if pending {
            self.failed("Recover the pending switch before changing deployment");
        } else {
            self.advance();
        }
    }
}

/// What is verified, what is written and for whom stay the same from the beginning of a recording to
/// its end.
pub proof fn recordings_keep_their_deployment(before: Installation, now: Installation, text: Seq<char>)
    requires
        moves(before, now) || stops(before, now, text),
    ensures
        now.deployment == before.deployment,
        now.names == before.names,
        now.account == before.account,
{
}

/// A deployment is written only with authority, for its owner, under both reservations, with no
/// switch pending, and after its installed units were verified.
pub proof fn records_follow_the_verified_units(installation: Installation)
    requires
        installation.wf(),
        installation.step == RecordStep::Write,
    ensures
        installation.log@.contains(RecordStep::CheckAuthority),
        installation.log@.contains(RecordStep::CheckOwner),
        installation.log@.contains(RecordStep::CheckJournal),
        installation.log@.contains(RecordStep::VerifyUnits),
        installation.log@.contains(RecordStep::ConfirmOperation),
        installation.log@.contains(RecordStep::ConfirmHardware),
{
}

/// An execution that a deployment accepts runs in the deployment's box, for its owner, on the paths
/// of its mode.
pub proof fn accepted_executions_stay_within_the_deployment(
    d: Deployment,
    names: ConfigNames,
    e: Execution,
)
    requires
        execution_complaint(d, names, e) is None,
    ensures
        e.destination.uid == d.owner_uid,
        e.destination.uid != 0,
        e.destination.name@ == d.route.launch.name@,
        path::same_path(e.destination.config_path@, d.route.config_of(e.destination.scope)),
{
}

/// The arguments of systemctl that ask how an installed unit is loaded.
pub open spec fn unit_arguments_of(scope: ServiceScope) -> Seq<Seq<char>> {
    seq![
        scope.argument_spec(),
        "--no-pager"@,
        "--no-ask-password"@,
        "show"@,
        "--property=LoadState,FragmentPath,DropInPaths,NeedDaemonReload,User,Transient"@,
        scope.unit_spec(),
    ]
}

pub fn unit_arguments(scope: ServiceScope) -> (r: Vec<String>)
    ensures
        texts(r@) == unit_arguments_of(scope),
{
    let mut r: Vec<String> = Vec::new();
    r.push(scope.argument().to_owned());
    r.push("--no-pager".to_owned());
    r.push("--no-ask-password".to_owned());
    r.push("show".to_owned());
    r.push("--property=LoadState,FragmentPath,DropInPaths,NeedDaemonReload,User,Transient".to_owned());
    r.push(scope.unit().to_owned());
    assert(texts(r@) =~= unit_arguments_of(scope));
    r
}

/// What speaks against how a unit is loaded.
pub open spec fn loaded_complaint(
    deployment: Deployment,
    scope: ServiceScope,
    output: Output,
    p: Seq<char>,
) -> Option<Seq<char>> {
    match output_complaint(output, "Cannot inspect installed container wrapper: "@) {
        Some(e) => Some(e),
        None => properties_complaint(deployment, scope, p, properties_of(output.stdout@, '=')),
    }
}

impl Deployment {
    fn verify_loaded(&self, scope: ServiceScope, output: &Output, p: &str) -> (r: Result<
        (),
        String,
    >)
        ensures
            complaint(r) == loaded_complaint(*self, scope, *output, p@),
    {
        check_output(output, "Cannot inspect installed container wrapper: ")?;
        self.verify_properties(scope, p, output.stdout.as_str())
    }
}

/// Where the inspection of the installed units stands.
#[derive(Clone, Copy, Debug, PartialEq, Eq, Structural)]
pub enum UnitsStep {
    CheckHost,
    CheckOwner,
    LoadUser,
    ReadUser,
    LoadSystem,
    ReadSystem,
    Inspected,
    Failed,
}

pub open spec fn units_rank(step: UnitsStep) -> int {
    match step {
        UnitsStep::CheckHost => 0,
        UnitsStep::CheckOwner => 1,
        UnitsStep::LoadUser => 2,
        UnitsStep::ReadUser => 3,
        UnitsStep::LoadSystem => 4,
        UnitsStep::ReadSystem => 5,
        UnitsStep::Inspected => 6,
        UnitsStep::Failed => 7,
    }
}

/// The user's unit is looked at unless only the system's is asked for.
pub open spec fn units_takes(step: UnitsStep, system_only: bool) -> bool {
    match step {
        UnitsStep::LoadUser | UnitsStep::ReadUser => !system_only,
        _ => true,
    }
}

/// The inspection of the units that a deployment installed: how each is loaded, and what its file
/// holds.
pub struct Units {
    pub deployment: Deployment,
    pub names: ConfigNames,
    /// Whether only the system's unit is asked for.
    pub system_only: bool,
    pub step: UnitsStep,
    pub error: String,
    /// The steps that succeeded, in order.
    pub log: Ghost<Seq<UnitsStep>>,
}

pub open spec fn units_stops(before: Units, after: Units, text: Seq<char>) -> bool {
    after == (Units { step: UnitsStep::Failed, error: after.error, ..before })
        && after.error@ == text
}

pub open spec fn units_moves(before: Units, after: Units, next: UnitsStep) -> bool {
    after == (Units { step: next, log: Ghost(before.log@.push(before.step)), ..before })
}

impl Units {
    /// Every step taken before the present one succeeded.
    pub open spec fn wf(self) -> bool {
        self.step != UnitsStep::Failed ==> forall|s: UnitsStep|
            units_rank(s) < units_rank(self.step) && units_takes(s, self.system_only)
                ==> #[trigger] self.log@.contains(s)
    }

    pub fn begin(deployment: Deployment, names: ConfigNames, system_only: bool) -> (r: Units)
        ensures
            r.wf(),
            r.deployment == deployment,
            r.names == names,
            r.system_only == system_only,
            r.step == UnitsStep::CheckHost,
            r.log@ == Seq::<UnitsStep>::empty(),
    {
        Units {
            deployment,
            names,
            system_only,
            step: UnitsStep::CheckHost,
            error: String::new(),
            log: Ghost(Seq::empty()),
        }
    }

    fn advance(&mut self, next: UnitsStep)
        requires
            (Units {
                step: next,
                log: Ghost(old(self).log@.push(old(self).step)),
                ..*old(self)
            }).wf(),
        ensures
            final(self).wf(),
            units_moves(*old(self), *final(self), next),
    {
        self.log = Ghost(self.log@.push(self.step));
        self.step = next;
    }

    /// A step could not be done.
    pub fn failed(&mut self, reason: &str)
        ensures
            final(self).wf(),
            units_stops(*old(self), *final(self), reason@),
    {
        self.step = UnitsStep::Failed;
        self.error = reason.to_owned();
    }

    /// The host was looked at.
    pub fn host(&mut self, native: bool, etc: &Metadata)
        requires
            old(self).wf(),
            old(self).step == UnitsStep::CheckHost,
        ensures
            final(self).wf(),
            match host_complaint(native, *etc) {
                Some(e) => units_stops(*old(self), *final(self), e),
                None => units_moves(*old(self), *final(self), UnitsStep::CheckOwner),
            },
    {
        match host_context(native, etc) {
            Err(e) => {
                self.failed(e.as_str());
            },
            Ok(_) => {
                proof {
                    steps::push_holds(self.log@, self.step);
                }
                self.advance(UnitsStep::CheckOwner);
            },
        }
    }

    /// The system's unit is looked at by whoever may read it.
    pub fn valid(&mut self)
        requires
            old(self).wf(),
            old(self).step == UnitsStep::CheckOwner,
            old(self).system_only,
        ensures
            final(self).wf(),
            match deployment_complaint(old(self).deployment, old(self).names) {
                Some(e) => units_stops(*old(self), *final(self), e),
                None => units_moves(*old(self), *final(self), UnitsStep::LoadSystem),
            },
    {
        match self.deployment.validate(&self.names) {
            Err(e) => {
                self.failed(e.as_str());
            },
            Ok(_) => {
                proof {
                    steps::push_holds(self.log@, self.step);
                }
                self.advance(UnitsStep::LoadSystem);
            },
        }
    }

    /// Both units are looked at under the owner's account.
    pub fn owner(&mut self, account: &Account)
        requires
            old(self).wf(),
            old(self).step == UnitsStep::CheckOwner,
            !old(self).system_only,
        ensures
            final(self).wf(),
            match owner_complaint(old(self).deployment, old(self).names, *account) {
                Some(e) => units_stops(*old(self), *final(self), e),
                None => units_moves(*old(self), *final(self), UnitsStep::LoadUser),
            },
    {
        match self.deployment.verify_owner(account, &self.names) {
            Err(e) => {
                self.failed(e.as_str());
            },
            Ok(_) => {
                proof {
                    steps::push_holds(self.log@, self.step);
                }
                self.advance(UnitsStep::LoadUser);
            },
        }
    }

    /// systemctl said how the user's unit is loaded.
    pub fn user_loaded(&mut self, output: &Output, p: &str)
        requires
            old(self).wf(),
            old(self).step == UnitsStep::LoadUser,
        ensures
            final(self).wf(),
            match loaded_complaint(old(self).deployment, ServiceScope::User, *output, p@) {
                Some(e) => units_stops(*old(self), *final(self), e),
                None => units_moves(*old(self), *final(self), UnitsStep::ReadUser),
            },
    {
        match self.deployment.verify_loaded(ServiceScope::User, output, p) {
            Err(e) => {
                self.failed(e.as_str());
            },
            Ok(_) => {
                proof {
                    steps::push_holds(self.log@, self.step);
                }
                self.advance(UnitsStep::ReadUser);
            },
        }
    }

    /// The user's unit was opened and read, up to one byte more than is accepted.
    pub fn user_file(&mut self, m: &Metadata, contents: &str)
        requires
            old(self).wf(),
            old(self).step == UnitsStep::ReadUser,
        ensures
            final(self).wf(),
            match wrapper_complaint(old(self).deployment, old(self).names, ServiceScope::User, *m, contents@) {
                Some(e) => units_stops(*old(self), *final(self), e),
                None => units_moves(*old(self), *final(self), UnitsStep::LoadSystem),
            },
    {
        match self.deployment.inspect_unit(ServiceScope::User, m, contents, &self.names) {
            Err(e) => {
                self.failed(e.as_str());
            },
            Ok(_) => {
                proof {
                    steps::push_holds(self.log@, self.step);
                }
                self.advance(UnitsStep::LoadSystem);
            },
        }
    }

    /// systemctl said how the system's unit is loaded.
    pub fn system_loaded(&mut self, output: &Output, p: &str)
        requires
            old(self).wf(),
            old(self).step == UnitsStep::LoadSystem,
        ensures
            final(self).wf(),
            match loaded_complaint(old(self).deployment, ServiceScope::System, *output, p@) {
                Some(e) => units_stops(*old(self), *final(self), e),
                None => units_moves(*old(self), *final(self), UnitsStep::ReadSystem),
            },
    {
        match self.deployment.verify_loaded(ServiceScope::System, output, p) {
            Err(e) => {
                self.failed(e.as_str());
            },
            Ok(_) => {
                proof {
                    steps::push_holds(self.log@, self.step);
                }
                self.advance(UnitsStep::ReadSystem);
            },
        }
    }

    /// The system's unit was opened and read, up to one byte more than is accepted.
    pub fn system_file(&mut self, m: &Metadata, contents: &str)
        requires
            old(self).wf(),
            old(self).step == UnitsStep::ReadSystem,
        ensures
            final(self).wf(),
            match wrapper_complaint(old(self).deployment, old(self).names, ServiceScope::System, *m, contents@) {
                Some(e) => units_stops(*old(self), *final(self), e),
                None => units_moves(*old(self), *final(self), UnitsStep::Inspected),
            },
    {
        match self.deployment.inspect_unit(ServiceScope::System, m, contents, &self.names) {
            Err(e) => {
                self.failed(e.as_str());
            },
            Ok(_) => {
                proof {
                    steps::push_holds(self.log@, self.step);
                }
                self.advance(UnitsStep::Inspected);
            },
        }
    }
}

/// Units count as inspected only after the system's, and unless only that was asked for the user's
/// too, was found loaded and read.
pub proof fn inspected_units_agree_with_the_deployment(m: Units)
    requires
        m.wf(),
        m.step == UnitsStep::Inspected,
    ensures
        m.log@.contains(UnitsStep::LoadSystem),
        m.log@.contains(UnitsStep::ReadSystem),
        !m.system_only ==> m.log@.contains(UnitsStep::LoadUser) && m.log@.contains(UnitsStep::ReadUser),
{
}

/// A deployment is valid exactly where it is of the first version, has an unprivileged owner with a
/// short name without control characters, and a valid route. It is its owner's exactly where the
/// account is of the host and has that number and that name.
pub proof fn deployments_have_an_owner(d: Deployment, names: ConfigNames, account: Account)
    ensures
        deployment_complaint(d, names) is None <==> d.version == 1 && d.owner_uid != 0
            && d.owner_name@.len() > 0 && text::byte_len(d.owner_name@) <= 256 && text::no_control(
            d.owner_name@,
        ) && route_complaint(d.route, names) is None,
        owner_complaint(d, names, account) is None <==> deployment_complaint(d, names) is None
            && account.container is None && account.uid == d.owner_uid && account.name@
            == d.owner_name@,
{
}

/// An execution is the deployment's exactly where both are valid and it is in the deployed box, of the
/// owner, with the configuration and the working directory of its own mode.
pub proof fn executions_are_the_deployed_ones(d: Deployment, names: ConfigNames, e: Execution)
    ensures
        execution_complaint(d, names, e) is None <==> {
            let identity = e.destination;
            let user = identity.scope == ServiceScope::User;
            &&& deployment_complaint(d, names) is None
            &&& identity_complaint(
                identity,
                if user {
                    names.user
                } else {
                    names.system
                },
            ) is None
            &&& same_launch(e.launch, d.route.launch)
            &&& identity.name@ == d.route.launch.name@
            &&& identity.uid == d.owner_uid
            &&& path::same_path(
                identity.config_path@,
                if user {
                    d.route.user_config@
                } else {
                    d.route.system_config@
                },
            )
            &&& path::same_path(
                identity.working_directory@,
                if user {
                    d.route.user_working_directory@
                } else {
                    d.route.system_working_directory@
                },
            )
        },
{
}

/// A unit is loaded as deployed exactly where it is current, lasting and without overrides, comes from
/// its own file, and runs under no named account for the user's service and under the owner's number
/// for the system's.
pub proof fn loaded_units_run_for_the_owner(
    d: Deployment,
    scope: ServiceScope,
    p: Seq<char>,
    properties: Map<Seq<char>, Seq<char>>,
)
    ensures
        properties_complaint(d, scope, p, properties) is None <==> {
            &&& value_of(properties, "LoadState"@) == Some("loaded"@)
            &&& value_of(properties, "NeedDaemonReload"@) == Some("no"@)
            &&& value_of(properties, "Transient"@) == Some("no"@)
            &&& value_of(properties, "DropInPaths"@) == Some(""@)
            &&& value_of(properties, "FragmentPath"@) is Some
            &&& path::same_path(value_of(properties, "FragmentPath"@)->0, p)
            &&& value_of(properties, "User"@) == Some(
                if scope == ServiceScope::User {
                    ""@
                } else {
                    text::decimal(d.owner_uid as nat)
                },
            )
        },
{
}

/// A unit is installed as deployed exactly where its file is a regular one of the owner for the user's
/// service, of root for the system's, closed to other writers, known by one name and of bounded
/// size, and holds the very unit that the deployment makes.
pub proof fn installed_units_are_the_deployed_ones(
    d: Deployment,
    names: ConfigNames,
    scope: ServiceScope,
    m: Metadata,
    contents: Seq<char>,
)
    ensures
        wrapper_complaint(d, names, scope, m, contents) is None <==> {
            &&& m.kind == FileKind::File
            &&& m.uid == (if scope == ServiceScope::User {
                d.owner_uid
            } else {
                0
            })
            &&& m.mode & 0o022 == 0
            &&& m.nlink == 1
            &&& m.len <= 32_768
            &&& text::byte_len(contents) <= 32_768
            &&& deployed_unit(d, names, scope) == Ok::<Seq<char>, Seq<char>>(contents)
        },
{
}

/// Units stand where the manager of their service looks: that of the user's below the home, that of
/// the system's in the system's directory, and each under its own name.
pub proof fn units_stand_with_their_manager(home: Seq<char>)
    ensures
        location_of(ServiceScope::User, home) == path::join_of(
            path::join_of(home, ".config/systemd/user"@),
            "lianli-daemon.service"@,
        ),
        location_of(ServiceScope::System, home) == path::join_of(
            "/etc/systemd/system"@,
            "lianli-daemon-system.service"@,
        ),
{
}

/// A deployment is loaded exactly on a host whose directories are root's and closed to other writers.
/// There is one where a sound record of root's holds a valid one, and none where there is no record.
pub proof fn deployments_are_loaded_from_protected_records(
    native: bool,
    etc: Metadata,
    store: Option<Metadata>,
    record: Option<(Metadata, usize, Deployment)>,
    names: ConfigNames,
)
    ensures
        ({
            let found = loaded(native, etc, store, record, names);
            let recorded = store is Some && record is Some;
            let (m, size, d) = record->0;
            &&& found is Ok <==> {
                &&& native
                &&& etc.kind == FileKind::Directory && etc.uid == 0 && etc.mode & 0o022 == 0
                &&& store is Some ==> store->0.uid == 0 && store->0.mode & 0o022 == 0
                &&& recorded ==> {
                    &&& m.kind == FileKind::File && m.uid == 0 && m.mode & 0o022 == 0 && m.nlink == 1
                        && m.len <= 32_768
                    &&& size <= 32_768
                    &&& deployment_complaint(d, names) is None
                }
            }
            &&& found is Ok && recorded ==> found->Ok_0 == Some(d)
            &&& found is Ok && !recorded ==> found->Ok_0 is None
        }),
{
}

/// The installed units are verified exactly for their owner, on a protected host, where the owner's
/// helper succeeded with a record of bounded size.
pub proof fn units_are_verified_by_their_owner(
    d: Deployment,
    names: ConfigNames,
    account: Account,
    native: bool,
    etc: Metadata,
    text: Seq<char>,
    output: Result<Output, String>,
)
    ensures
        installed_complaint(d, names, account, native, etc, text, output) is None <==> {
            &&& owner_complaint(d, names, account) is None
            &&& native
            &&& etc.kind == FileKind::Directory && etc.uid == 0 && etc.mode & 0o022 == 0
            &&& text::byte_len(text) <= 32_768
            &&& output is Ok
            &&& output->Ok_0.code == Some(0i32)
        },
{
}

/// A switch knows both destinations exactly where the installed units are verified and both are found
/// and can be used side by side: the user's comes first, the system's second.
pub proof fn switches_know_both_destinations(
    d: Deployment,
    names: ConfigNames,
    host: Account,
    installed: Option<Seq<char>>,
    native: bool,
    user: DestinationAnswer,
    system: DestinationAnswer,
)
    ensures
        ({
            let both = switch_accounts_of(d, names, host, installed, native, user, system);
            let a = discovered_of(d.route, native, host, ServiceScope::User, names.user, user);
            let b = discovered_of(d.route, native, host, ServiceScope::System, names.system, system);
            &&& both is Ok <==> installed is None && a is Ok && b is Ok
                && crate::container_destination::separate_complaint(a->Ok_0, b->Ok_0, names) is None
            &&& both is Ok ==> both->Ok_0 == (a->Ok_0, b->Ok_0)
        }),
{
}

/// A record is written exactly into a directory of root's that is closed to other writers, for a valid
/// deployment of bounded size, where what stood there could be dealt with and the write succeeded.
pub proof fn records_are_written_where_they_are_protected(
    d: Deployment,
    names: ConfigNames,
    directory: Result<Metadata, String>,
    stood: Result<(), String>,
    text: Seq<char>,
    wrote: Result<(), String>,
)
    ensures
        write_complaint(d, names, directory, stood, text, wrote) is None <==> directory is Ok
            && directory->Ok_0.uid == 0 && directory->Ok_0.mode & 0o022 == 0 && deployment_complaint(
            d,
            names,
        ) is None && stood is Ok && text::byte_len(text) <= 32_768 && wrote is Ok,
{
}

/// Units are asked for at the manager of their service, by their own name.
pub proof fn units_are_asked_for_at_their_manager(scope: ServiceScope)
    ensures
        unit_arguments_of(scope)[0] == (if scope == ServiceScope::User {
            "--user"@
        } else {
            "--system"@
        }),
        unit_arguments_of(scope).last() == (if scope == ServiceScope::User {
            "lianli-daemon.service"@
        } else {
            "lianli-daemon-system.service"@
        }),
        units_takes(UnitsStep::LoadSystem, true) && units_takes(UnitsStep::ReadSystem, true),
        units_takes(UnitsStep::LoadUser, false) && units_takes(UnitsStep::ReadUser, false),
{
}

/// The unit of a mode is made exactly for a valid deployment, and it is the managed one of its route,
/// for its owner.
pub proof fn deployed_units_are_the_managed_ones(d: Deployment, names: ConfigNames, scope: ServiceScope)
    ensures
        deployment_complaint(d, names) is None ==> deployed_unit(d, names, scope)
            == generate_managed_of(d.route, names, scope, d.owner_uid),
        deployed_unit(d, names, scope) is Ok ==> deployment_complaint(d, names) is None,
{
    reveal(deployed_unit);
}

/// A loaded wrapper counts exactly where its manager answered, it is loaded from its own file as that
/// stands, without overrides, and the system's runs for the owner and the user's for no other.
pub proof fn loaded_wrappers_are_the_installed_ones(
    d: Deployment,
    scope: ServiceScope,
    output: Output,
    p: Seq<char>,
)
    ensures
        loaded_complaint(d, scope, output, p) is None <==> {
            let properties = properties_of(output.stdout@, '=');
            &&& output.code == Some(0i32)
            &&& value_of(properties, "LoadState"@) == Some("loaded"@)
            &&& value_of(properties, "NeedDaemonReload"@) == Some("no"@)
            &&& value_of(properties, "Transient"@) == Some("no"@)
            &&& value_of(properties, "DropInPaths"@) == Some(""@)
            &&& value_of(properties, "FragmentPath"@) is Some
            &&& path::same_path(value_of(properties, "FragmentPath"@)->0, p)
            &&& scope == ServiceScope::User ==> value_of(properties, "User"@) == Some(""@)
            &&& scope == ServiceScope::System ==> value_of(properties, "User"@) == Some(
                text::decimal(d.owner_uid as nat),
            )
        },
{
}

} // verus!
