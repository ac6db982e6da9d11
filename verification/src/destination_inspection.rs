//! The inspection of a destination, step by step: the user's service manager, the service's recipe
//! with its overrides, the daemon, the settings and the directory that holds them.

use crate::account::{holds, Account};
use crate::command::{output_complaint, Output};
use crate::container_destination::{complaint, file_of, identify};
use crate::destination;
use crate::destination::{
    check_output, config_path_of, has_all, is_protected_unit, is_trusted_override, kept_of,
    manager_complaint, object_of, override_from, recipe_of, reports, Destination, DaemonBuildInfo,
    StateSummary, MAX_CONFIG_PATH, MAX_OVERRIDES, MAX_STATUS, MAX_UNIT,
};
use crate::files::{FileKind, Metadata};
use crate::json;
use crate::media_validation::AssetAccessReport;
use crate::properties::{gathered, properties_of};
use crate::services::{FileIdentity, ServiceScope};
use crate::steps;
use crate::text;
use crate::text::texts;
use vstd::prelude::*;

verus! {

/// The arguments of busctl that make the user's service manager connect to the bus.
pub open spec fn activation_arguments_of() -> Seq<Seq<char>> {
    seq![
        "--user"@,
        "--timeout=4"@,
        "get-property"@,
        "org.freedesktop.systemd1"@,
        "/org/freedesktop/systemd1"@,
        "org.freedesktop.systemd1.Manager"@,
        "Version"@,
    ]
}

pub fn activation_arguments() -> (r: Vec<String>)
    ensures
        texts(r@) == activation_arguments_of(),
{
    let mut r: Vec<String> = Vec::new();
    r.push("--user".to_owned());
    r.push("--timeout=4".to_owned());
    r.push("get-property".to_owned());
    r.push("org.freedesktop.systemd1".to_owned());
    r.push("/org/freedesktop/systemd1".to_owned());
    r.push("org.freedesktop.systemd1.Manager".to_owned());
    r.push("Version".to_owned());
    assert(texts(r@) =~= activation_arguments_of());
    r
}

/// The arguments of busctl that ask for the process of the user's service manager.
pub open spec fn identity_arguments_of() -> Seq<Seq<char>> {
    seq![
        "--user"@,
        "--timeout=4"@,
        "--json=short"@,
        "call"@,
        "org.freedesktop.DBus"@,
        "/org/freedesktop/DBus"@,
        "org.freedesktop.DBus"@,
        "GetConnectionUnixProcessID"@,
        "s"@,
        "org.freedesktop.systemd1"@,
    ]
}

pub fn identity_arguments() -> (r: Vec<String>)
    ensures
        texts(r@) == identity_arguments_of(),
{
    let mut r: Vec<String> = Vec::new();
    r.push("--user".to_owned());
    r.push("--timeout=4".to_owned());
    r.push("--json=short".to_owned());
    r.push("call".to_owned());
    r.push("org.freedesktop.DBus".to_owned());
    r.push("/org/freedesktop/DBus".to_owned());
    r.push("org.freedesktop.DBus".to_owned());
    r.push("GetConnectionUnixProcessID".to_owned());
    r.push("s".to_owned());
    r.push("org.freedesktop.systemd1".to_owned());
    assert(texts(r@) =~= identity_arguments_of());
    r
}

/// The arguments of systemctl that ask how a unit is loaded.
pub open spec fn recipe_arguments_of(scope: ServiceScope) -> Seq<Seq<char>> {
    seq![
        scope.argument_spec(),
        "--no-pager"@,
        "--no-ask-password"@,
        "show"@,
        "--all"@,
        "--property=LoadState,FragmentPath,DropInPaths,NeedDaemonReload,WorkingDirectory"@,
        scope.unit_spec(),
    ]
}

pub fn recipe_arguments(scope: ServiceScope) -> (r: Vec<String>)
    ensures
        texts(r@) == recipe_arguments_of(scope),
{
    let mut r: Vec<String> = Vec::new();
    r.push(scope.argument().to_owned());
    r.push("--no-pager".to_owned());
    r.push("--no-ask-password".to_owned());
    r.push("show".to_owned());
    r.push("--all".to_owned());
    r.push("--property=LoadState,FragmentPath,DropInPaths,NeedDaemonReload,WorkingDirectory".to_owned());
    r.push(scope.unit().to_owned());
    assert(texts(r@) =~= recipe_arguments_of(scope));
    r
}

/// The arguments of busctl that ask for the overrides of a unit.
pub open spec fn override_arguments_of(scope: ServiceScope) -> Seq<Seq<char>> {
    seq![
        scope.argument_spec(),
        "--timeout=4"@,
        "--json=short"@,
        "get-property"@,
        "org.freedesktop.systemd1"@,
        object_of(scope),
        "org.freedesktop.systemd1.Unit"@,
        "DropInPaths"@,
    ]
}

pub fn override_arguments(scope: ServiceScope) -> (r: Vec<String>)
    ensures
        texts(r@) == override_arguments_of(scope),
{
    let mut r: Vec<String> = Vec::new();
    r.push(scope.argument().to_owned());
    r.push("--timeout=4".to_owned());
    r.push("--json=short".to_owned());
    r.push("get-property".to_owned());
    r.push("org.freedesktop.systemd1".to_owned());
    r.push(destination::unit_object(scope));
    r.push("org.freedesktop.systemd1.Unit".to_owned());
    r.push("DropInPaths".to_owned());
    assert(texts(r@) =~= override_arguments_of(scope));
    r
}

/// The arguments of busctl that ask for the environment of the user's service manager.
pub open spec fn environment_arguments_of() -> Seq<Seq<char>> {
    seq![
        "--user"@,
        "--timeout=4"@,
        "--json=short"@,
        "get-property"@,
        "org.freedesktop.systemd1"@,
        "/org/freedesktop/systemd1"@,
        "org.freedesktop.systemd1.Manager"@,
        "Environment"@,
    ]
}

pub fn environment_arguments() -> (r: Vec<String>)
    ensures
        texts(r@) == environment_arguments_of(),
{
    let mut r: Vec<String> = Vec::new();
    r.push("--user".to_owned());
    r.push("--timeout=4".to_owned());
    r.push("--json=short".to_owned());
    r.push("get-property".to_owned());
    r.push("org.freedesktop.systemd1".to_owned());
    r.push("/org/freedesktop/systemd1".to_owned());
    r.push("org.freedesktop.systemd1.Manager".to_owned());
    r.push("Environment".to_owned());
    assert(texts(r@) =~= environment_arguments_of());
    r
}

/// The manager's process, by how busctl ended and what its answer holds.
pub open spec fn identity_of(
    output: Output,
    answer: Result<(String, Vec<u32>), String>,
) -> Result<u32, Seq<char>> {
    match output_complaint(output, "Cannot verify the user manager's namespace: "@) {
        Some(e) => Err(e),
        None => match answer {
            Err(e) => Err(e@),
            Ok((signature, data)) => if signature@ == "u"@ && data@.len() == 1 && data@[0] != 0 {
                Ok(data@[0])
            } else {
                Err("Invalid user manager process identity"@)
            },
        },
    }
}

/// What speaks against the status of the manager's process.
pub open spec fn status_complaint(status: Seq<char>, account: Account) -> Option<Seq<char>> {
    if text::byte_len(status) > MAX_STATUS {
        Some("User manager credentials exceed their read limit"@)
    } else {
        manager_complaint(status, account)
    }
}

fn verify_status(status: &str, account: &Account) -> (r: Result<(), String>)
    ensures
        complaint(r) == status_complaint(status@, *account),
{
    if text::len(status) > MAX_STATUS {
        return Err("User manager credentials exceed their read limit".to_owned());
    }
    destination::verify_manager_groups(status, account)
}

/// Where the check of the user's service manager stands.
#[derive(Clone, Copy, Debug, PartialEq, Eq, Structural)]
pub enum ManagerStep {
    Activate,
    Identify,
    CompareNamespaces,
    ReadStatus,
    Verified,
    Failed,
}

pub open spec fn manager_rank(step: ManagerStep) -> int {
    match step {
        ManagerStep::Activate => 0,
        ManagerStep::Identify => 1,
        ManagerStep::CompareNamespaces => 2,
        ManagerStep::ReadStatus => 3,
        ManagerStep::Verified => 4,
        ManagerStep::Failed => 5,
    }
}

/// The check that the user's service manager sees the same files and has the account's groups.
pub struct Manager {
    /// The account whose manager it is.
    pub account: Account,
    /// The manager's process, once it is known.
    pub pid: u32,
    pub step: ManagerStep,
    pub error: String,
    /// The steps that succeeded, in order.
    pub log: Ghost<Seq<ManagerStep>>,
}

pub open spec fn manager_stops(before: Manager, after: Manager, text: Seq<char>) -> bool {
    after == (Manager { step: ManagerStep::Failed, error: after.error, ..before })
        && after.error@ == text
}

pub open spec fn manager_moves(before: Manager, after: Manager, next: ManagerStep) -> bool {
    after == (Manager { step: next, log: Ghost(before.log@.push(before.step)), ..before })
}

impl Manager {
    /// Every step before the present one succeeded.
    pub open spec fn wf(self) -> bool {
        self.step != ManagerStep::Failed ==> forall|s: ManagerStep|
            manager_rank(s) < manager_rank(self.step) ==> #[trigger] self.log@.contains(s)
    }

    pub fn begin(account: Account) -> (r: Manager)
        ensures
            r.wf(),
            r.account == account,
            r.step == ManagerStep::Activate,
            r.log@ == Seq::<ManagerStep>::empty(),
            r.pid == 0,
    {
        Manager {
            account,
            pid: 0,
            step: ManagerStep::Activate,
            error: String::new(),
            log: Ghost(Seq::empty()),
        }
    }

    fn advance(&mut self, next: ManagerStep)
        requires
            (Manager {
                step: next,
                log: Ghost(old(self).log@.push(old(self).step)),
                ..*old(self)
            }).wf(),
        ensures
            final(self).wf(),
            manager_moves(*old(self), *final(self), next),
    {
        self.log = Ghost(self.log@.push(self.step));
        self.step = next;
    }

    /// A step could not be done.
    pub fn failed(&mut self, reason: &str)
        ensures
            final(self).wf(),
            manager_stops(*old(self), *final(self), reason@),
    {
        self.step = ManagerStep::Failed;
        self.error = reason.to_owned();
    }

    /// The manager was asked for its version, which makes it connect to the bus.
    pub fn activated(&mut self, output: &Output)
        requires
            old(self).wf(),
            old(self).step == ManagerStep::Activate,
        ensures
            final(self).wf(),
            match output_complaint(*output, "The user service manager is unavailable: "@) {
                Some(e) => manager_stops(*old(self), *final(self), e),
                None => manager_moves(*old(self), *final(self), ManagerStep::Identify),
            },
    {
        match check_output(output, "The user service manager is unavailable: ") {
            Err(e) => {
                self.failed(e.as_str());
            },
            Ok(_) => {
                proof {
                    steps::push_holds(self.log@, self.step);
                }
                self.advance(ManagerStep::Identify);
            },
        }
    }

    /// The bus was asked for the manager's process, with what its answer holds.
    pub fn identified(&mut self, output: &Output, answer: &Result<(String, Vec<u32>), String>)
        requires
            old(self).wf(),
            old(self).step == ManagerStep::Identify,
        ensures
            final(self).wf(),
            match identity_of(*output, *answer) {
                Err(e) => manager_stops(*old(self), *final(self), e),
                Ok(pid) => *final(self) == (Manager {
                    pid,
                    step: ManagerStep::CompareNamespaces,
                    log: Ghost(old(self).log@.push(old(self).step)),
                    ..*old(self)
                }),
            },
    {
        match check_output(output, "Cannot verify the user manager's namespace: ") {
            Err(e) => {
                self.failed(e.as_str());
            },
            Ok(_) => match answer {
                Err(e) => {
                    self.failed(e.as_str());
                },
                Ok(answer) => match destination::manager_pid(answer.0.as_str(), &answer.1) {
                    Err(e) => {
                        self.failed(e.as_str());
                    },
                    Ok(pid) => {
                        self.pid = pid;
                        proof {
                            steps::push_holds(self.log@, self.step);
                        }
                        self.advance(ManagerStep::CompareNamespaces);
                    },
                },
            },
        }
    }

    /// The mount namespaces of the manager and of this process were looked up.
    pub fn compared(&mut self, manager: &FileIdentity, own: &FileIdentity)
        requires
            old(self).wf(),
            old(self).step == ManagerStep::CompareNamespaces,
        ensures
            final(self).wf(),
            match if manager@ == own@ {
                None::<Seq<char>>
            } else {
                Some(
                    "The user service uses another mount namespace. Automatic native switching cannot validate its files from this helper"@,
                )
            } {
                Some(e) => manager_stops(*old(self), *final(self), e),
                None => manager_moves(*old(self), *final(self), ManagerStep::ReadStatus),
            },
    {
        match destination::check_manager_namespace(manager, own) {
            Err(e) => {
                self.failed(e.as_str());
            },
            Ok(_) => {
                proof {
                    steps::push_holds(self.log@, self.step);
                }
                self.advance(ManagerStep::ReadStatus);
            },
        }
    }

    /// The status of the manager's process was read, up to one byte more than is accepted.
    pub fn status(&mut self, status: &str)
        requires
            old(self).wf(),
            old(self).step == ManagerStep::ReadStatus,
        ensures
            final(self).wf(),
            match status_complaint(status@, old(self).account) {
                Some(e) => manager_stops(*old(self), *final(self), e),
                None => manager_moves(*old(self), *final(self), ManagerStep::Verified),
            },
    {
        match verify_status(status, &self.account) {
            Err(e) => {
                self.failed(e.as_str());
            },
            Ok(_) => {
                proof {
                    steps::push_holds(self.log@, self.step);
                }
                self.advance(ManagerStep::Verified);
            },
        }
    }
}

/// A manager counts as verified only after its namespace was compared and its credentials read.
pub proof fn verified_managers_were_compared(m: Manager)
    requires
        m.wf(),
        m.step == ManagerStep::Verified,
    ensures
        m.log@.contains(ManagerStep::CompareNamespaces),
        m.log@.contains(ManagerStep::ReadStatus),
{
}

/// What speaks against an override: its file, its size, or what it says.
pub open spec fn override_complaint(
    m: Metadata,
    bytes: Seq<u8>,
    p: Seq<char>,
    scope: ServiceScope,
    uid: u32,
) -> Option<Seq<char>> {
    if !is_trusted_override(m, scope, uid) {
        Some("Service override has unexpected ownership or write permissions: "@ + p)
    } else if bytes.len() > MAX_UNIT {
        Some("Service override is too large: "@ + p)
    } else {
        match json::text_of(bytes) {
            Err(e) => Some(e),
            Ok(s) => match override_from(text::lines_of(s), 0, false) {
                None => None,
                Some(e) => Some("Unsupported service override "@ + p + ": "@ + e),
            },
        }
    }
}

/// Whether an override may stand beside the verified unit: who can have written it, how long it is,
/// and what it sets.
pub fn verify_drop_in(
    m: &Metadata,
    bytes: &Vec<u8>,
    p: &str,
    scope: ServiceScope,
    uid: u32,
) -> (r: Result<(), String>)
    ensures
        complaint(r) == override_complaint(*m, bytes@, p@, scope, uid),
{
    destination::check_override_file(m, scope, uid, p)?;
    destination::check_override_size(bytes.len(), p)?;
    let s = json::decode(bytes.clone())?;
    match destination::verify_override(s.as_str()) {
        Ok(_) => Ok(()),
        Err(e) => {
            let mut whole = "Unsupported service override ".to_owned();
            whole.append(p);
            whole.append(": ");
            whole.append(e.as_str());
            Err(whole)
        },
    }
}

/// The unit and whether it has overrides, by how systemctl ended and what it printed.
pub open spec fn loaded_of(output: Output, scope: ServiceScope, working: Seq<char>) -> Result<
    (Seq<char>, bool),
    Seq<char>,
> {
    match output_complaint(output, "Cannot inspect destination unit: "@) {
        Some(e) => Err(e),
        None => recipe_of(properties_of(output.stdout@, '='), scope, working),
    }
}

fn loaded(output: &Output, scope: ServiceScope, working: &str) -> (r: Result<
    (String, bool),
    String,
>)
    ensures
        match r {
            Ok((p, overridden)) => loaded_of(*output, scope, working@) == Ok::<
                (Seq<char>, bool),
                Seq<char>,
            >((p@, overridden)),
            Err(e) => loaded_of(*output, scope, working@) == Err::<(Seq<char>, bool), Seq<char>>(
                e@,
            ),
        },
{
    check_output(output, "Cannot inspect destination unit: ")?;
    destination::verify_service_recipe(output.stdout.as_str(), scope, working)
}

/// What speaks against an installed unit.
pub open spec fn unit_complaint(m: Metadata, bytes: Seq<u8>, supplied: Seq<u8>) -> Option<
    Seq<char>,
> {
    if !is_protected_unit(m) {
        Some("Native destination unit must be a protected root-owned file"@)
    } else if bytes != supplied {
        Some(
            "Install the current supplied native unit and reload the manager before automatic switching"@,
        )
    } else {
        None
    }
}

/// What speaks against a list of overrides.
pub open spec fn overrides_complaint(
    output: Output,
    answer: Result<Vec<String>, String>,
) -> Option<Seq<char>> {
    match output_complaint(output, "Cannot inspect service overrides: "@) {
        Some(e) => Some(e),
        None => match answer {
            Err(e) => Some(e@),
            Ok(paths) => if paths@.len() > MAX_OVERRIDES {
                Some("Too many service overrides to inspect"@)
            } else {
                None
            },
        },
    }
}

/// Where the check of a service's recipe stands.
#[derive(Clone, Copy, Debug, PartialEq, Eq, Structural)]
pub enum RecipeStep {
    ReadProperties,
    CheckUnit,
    ListOverrides,
    CheckOverrides,
    Verified,
    Failed,
}

pub open spec fn recipe_rank(step: RecipeStep) -> int {
    match step {
        RecipeStep::ReadProperties => 0,
        RecipeStep::CheckUnit => 1,
        RecipeStep::ListOverrides => 2,
        RecipeStep::CheckOverrides => 3,
        RecipeStep::Verified => 4,
        RecipeStep::Failed => 5,
    }
}

/// Overrides are looked at only where there are any.
pub open spec fn recipe_takes(step: RecipeStep, overridden: bool) -> bool {
    match step {
        RecipeStep::ListOverrides | RecipeStep::CheckOverrides => overridden,
        _ => true,
    }
}

/// The check of a service's recipe: how the unit is loaded, its file, and each of its overrides.
pub struct Recipe {
    pub scope: ServiceScope,
    /// The account under which the check runs.
    pub uid: u32,
    /// Where the service is to work.
    pub working: String,
    /// The unit's file, once it is known.
    pub fragment: String,
    /// Whether the unit has overrides.
    pub overridden: bool,
    pub overrides: Vec<String>,
    /// The overrides that were accepted so far.
    pub checked: usize,
    /// What those overrides were.
    pub examined: Ghost<Seq<(Metadata, Seq<u8>)>>,
    pub step: RecipeStep,
    pub error: String,
    /// The steps that succeeded, in order.
    pub log: Ghost<Seq<RecipeStep>>,
}

pub open spec fn recipe_stops(before: Recipe, after: Recipe, text: Seq<char>) -> bool {
    after == (Recipe { step: RecipeStep::Failed, error: after.error, ..before })
        && after.error@ == text
}

pub open spec fn recipe_moves(before: Recipe, after: Recipe, next: RecipeStep) -> bool {
    after == (Recipe { step: next, log: Ghost(before.log@.push(before.step)), ..before })
}

impl Recipe {
    /// Every step taken before the present one succeeded.
    pub open spec fn wf(self) -> bool {
        self.step != RecipeStep::Failed ==> {
            &&& forall|s: RecipeStep|
                recipe_rank(s) < recipe_rank(self.step) && recipe_takes(s, self.overridden)
                    ==> #[trigger] self.log@.contains(s)
            &&& self.checked <= self.overrides@.len()
            &&& self.examined@.len() == self.checked
            &&& forall|i: int|
                0 <= i < self.checked ==> override_complaint(
                    (#[trigger] self.examined@[i]).0,
                    self.examined@[i].1,
                    self.overrides@[i]@,
                    self.scope,
                    self.uid,
                ) is None
            &&& recipe_rank(self.step) < 3 ==> self.checked == 0
            &&& self.step == RecipeStep::Verified && self.overridden ==> self.checked
                == self.overrides@.len()
        }
    }

    pub fn begin(scope: ServiceScope, uid: u32, working: String) -> (r: Recipe)
        ensures
            r.wf(),
            r.scope == scope,
            r.uid == uid,
            r.working == working,
            r.step == RecipeStep::ReadProperties,
            r.log@ == Seq::<RecipeStep>::empty(),
            r.fragment@.len() == 0,
            !r.overridden,
            r.overrides@.len() == 0,
            r.checked == 0,
            r.examined@.len() == 0,
    {
        Recipe {
            scope,
            uid,
            working,
            fragment: String::new(),
            overridden: false,
            overrides: Vec::new(),
            checked: 0,
            examined: Ghost(Seq::empty()),
            step: RecipeStep::ReadProperties,
            error: String::new(),
            log: Ghost(Seq::empty()),
        }
    }

    fn advance(&mut self, next: RecipeStep)
        requires
            (Recipe {
                step: next,
                log: Ghost(old(self).log@.push(old(self).step)),
                ..*old(self)
            }).wf(),
        ensures
            final(self).wf(),
            recipe_moves(*old(self), *final(self), next),
    {
        self.log = Ghost(self.log@.push(self.step));
        self.step = next;
    }

    /// A step could not be done.
    pub fn failed(&mut self, reason: &str)
        ensures
            final(self).wf(),
            recipe_stops(*old(self), *final(self), reason@),
    {
        self.step = RecipeStep::Failed;
        self.error = reason.to_owned();
    }

    /// systemctl said how the unit is loaded.
    pub fn properties(&mut self, output: &Output)
        requires
            old(self).wf(),
            old(self).step == RecipeStep::ReadProperties,
        ensures
            final(self).wf(),
            match loaded_of(*output, old(self).scope, old(self).working@) {
                Err(e) => recipe_stops(*old(self), *final(self), e),
                Ok((fragment, overridden)) => {
                    &&& *final(self) == (Recipe {
                        fragment: final(self).fragment,
                        overridden,
                        step: RecipeStep::CheckUnit,
                        log: Ghost(old(self).log@.push(old(self).step)),
                        ..*old(self)
                    })
                    &&& final(self).fragment@ == fragment
                },
            },
    {
        match loaded(output, self.scope, self.working.as_str()) {
            Err(e) => {
                self.failed(e.as_str());
            },
            Ok((fragment, overridden)) => {
                self.fragment = fragment;
                self.overridden = overridden;
                proof {
                    steps::push_holds(self.log@, self.step);
                }
                self.advance(RecipeStep::CheckUnit);
            },
        }
    }

    /// The unit's file was opened and read, up to one byte more than is accepted, to be compared
    /// with the supplied text.
    pub fn unit(&mut self, m: &Metadata, bytes: &Vec<u8>, supplied: &Vec<u8>)
        requires
            old(self).wf(),
            old(self).step == RecipeStep::CheckUnit,
        ensures
            final(self).wf(),
            match unit_complaint(*m, bytes@, supplied@) {
                Some(e) => recipe_stops(*old(self), *final(self), e),
                None => recipe_moves(
                    *old(self),
                    *final(self),
                    if old(self).overridden {
                        RecipeStep::ListOverrides
                    } else {
                        RecipeStep::Verified
                    },
                ),
            },
    {
        match destination::verify_recipe(m, bytes, supplied) {
            Err(e) => {
                self.failed(e.as_str());
            },
            Ok(_) => {
                proof {
                    steps::push_holds(self.log@, self.step);
                }
                if self.overridden {
                    self.advance(RecipeStep::ListOverrides);
                } else {
                    self.advance(RecipeStep::Verified);
                }
            },
        }
    }

    /// The bus was asked for the overrides, with what its answer holds.
    pub fn listed(&mut self, output: &Output, answer: Result<Vec<String>, String>)
        requires
            old(self).wf(),
            old(self).step == RecipeStep::ListOverrides,
        ensures
            final(self).wf(),
            match overrides_complaint(*output, answer) {
                Some(e) => recipe_stops(*old(self), *final(self), e),
                None => answer matches Ok(paths) && *final(self) == (Recipe {
                    overrides: paths,
                    step: RecipeStep::CheckOverrides,
                    log: Ghost(old(self).log@.push(old(self).step)),
                    ..*old(self)
                }),
            },
    {
        match check_output(output, "Cannot inspect service overrides: ") {
            Err(e) => {
                self.failed(e.as_str());
            },
            Ok(_) => match answer {
                Err(e) => {
                    self.failed(e.as_str());
                },
                Ok(paths) => match destination::check_override_count(paths.len()) {
                    Err(e) => {
                        self.failed(e.as_str());
                    },
                    Ok(_) => {
                        self.overrides = paths;
                        proof {
                            steps::push_holds(self.log@, self.step);
                        }
                        self.advance(RecipeStep::CheckOverrides);
                    },
                },
            },
        }
    }

    /// The next override was opened and read, up to one byte more than is accepted.
    pub fn drop_in(&mut self, m: &Metadata, bytes: &Vec<u8>)
        requires
            old(self).wf(),
            old(self).step == RecipeStep::CheckOverrides,
            old(self).checked < old(self).overrides@.len(),
        ensures
            final(self).wf(),
            match override_complaint(
                *m,
                bytes@,
                old(self).overrides@[old(self).checked as int]@,
                old(self).scope,
                old(self).uid,
            ) {
                Some(e) => recipe_stops(*old(self), *final(self), e),
                None => *final(self) == (Recipe {
                    checked: (old(self).checked + 1) as usize,
                    examined: Ghost(old(self).examined@.push((*m, bytes@))),
                    ..*old(self)
                }),
            },
    {
        let count: usize = self.overrides.len();
        assert(self.checked < count);
        let verdict = verify_drop_in(
            m,
            bytes,
            self.overrides[self.checked].as_str(),
            self.scope,
            self.uid,
        );
        match verdict {
            Err(e) => {
                self.failed(e.as_str());
            },
            Ok(_) => {
                self.examined = Ghost(self.examined@.push((*m, bytes@)));
                self.checked = self.checked + 1;
            },
        }
    }

    /// Every override was looked at.
    pub fn overrides_checked(&mut self)
        requires
            old(self).wf(),
            old(self).step == RecipeStep::CheckOverrides,
            old(self).checked == old(self).overrides@.len(),
        ensures
            final(self).wf(),
            recipe_moves(*old(self), *final(self), RecipeStep::Verified),
    {
        proof {
            steps::push_holds(self.log@, self.step);
        }
        self.advance(RecipeStep::Verified);
    }
}

/// A recipe counts as verified only after the unit was found loaded and equal to the supplied one,
/// and where it has overrides, after each of them was found acceptable.
pub proof fn verified_recipes_are_the_supplied_ones(m: Recipe)
    requires
        m.wf(),
        m.step == RecipeStep::Verified,
    ensures
        m.log@.contains(RecipeStep::ReadProperties),
        m.log@.contains(RecipeStep::CheckUnit),
        m.overridden ==> m.checked == m.overrides@.len(),
        forall|i: int|
            m.overridden && 0 <= i < m.overrides@.len() ==> override_complaint(
                (#[trigger] m.examined@[i]).0,
                m.examined@[i].1,
                m.overrides@[i]@,
                m.scope,
                m.uid,
            ) is None,
{
}

/// What speaks against the installed daemon's file.
pub open spec fn daemon_file_complaint(opened: Result<Metadata, String>) -> Option<Seq<char>> {
    match opened {
        Err(e) => Some("Installed daemon is unavailable: "@ + e@),
        Ok(m) => if m.kind == FileKind::File && m.uid == 0 && m.mode & 0o022 == 0 && m.mode & 0o111
            != 0 {
            None
        } else {
            Some("Install a protected root-owned daemon binary before automatic switching"@)
        },
    }
}

/// Whether the installed daemon's file is protected, by what opening it gave.
pub fn check_daemon_file(opened: &Result<Metadata, String>) -> (r: Result<(), String>)
    ensures
        complaint(r) == daemon_file_complaint(*opened),
{
    match opened {
        Err(e) => {
            let mut whole = "Installed daemon is unavailable: ".to_owned();
            whole.append(e.as_str());
            Err(whole)
        },
        Ok(m) => destination::verify_daemon_binary(m),
    }
}

/// What speaks against the build that the installed daemon reports.
pub open spec fn daemon_build_complaint(
    output: Output,
    build: Result<DaemonBuildInfo, String>,
    version: Seq<char>,
    protocol_version: u32,
    required: Seq<Seq<char>>,
) -> Option<Seq<char>> {
    if output.code != Some(0i32) {
        Some(
            "Installed daemon cannot report its capabilities: "@ + text::trimmed(output.stderr@)
                + ". Update it and its runtime libraries before switching"@,
        )
    } else {
        match build {
            Err(e) => Some("Invalid installed daemon capability report: "@ + e@),
            Ok(build) => if build.version@ != version || build.protocol_version
                != protocol_version {
                Some("Install matching control and daemon versions before switching"@)
            } else if !has_all(texts(build.capabilities@), required) {
                Some(
                    "Installed daemon lacks the shutdown, write coordination, host selection, startup gate or media validation support needed for switching"@,
                )
            } else {
                None
            },
        }
    }
}

/// Whether the installed daemon can take part in a switch, by how its report ended and what it holds.
pub fn check_daemon_build(
    output: &Output,
    build: &Result<DaemonBuildInfo, String>,
    version: &str,
    protocol_version: u32,
    required: &Vec<String>,
) -> (r: Result<(), String>)
    ensures
        complaint(r) == daemon_build_complaint(
            *output,
            *build,
            version@,
            protocol_version,
            texts(required@),
        ),
{
    if !output.success() {
        let mut whole = "Installed daemon cannot report its capabilities: ".to_owned();
        whole.append(text::trim(output.stderr.as_str()).as_str());
        whole.append(". Update it and its runtime libraries before switching");
        return Err(whole);
    }
    match build {
        Err(e) => {
            let mut whole = "Invalid installed daemon capability report: ".to_owned();
            whole.append(e.as_str());
            Err(whole)
        },
        Ok(build) => destination::verify_build(build, version, protocol_version, required),
    }
}

/// Where a user's daemon keeps its configuration, by how busctl ended and what its answer holds.
pub open spec fn user_config_of(
    output: Output,
    answer: Result<(String, Vec<String>), String>,
    working: Seq<char>,
) -> Result<Seq<char>, Seq<char>> {
    match output_complaint(output, "Cannot read the user service environment: "@) {
        Some(e) => Err(e),
        None => match answer {
            Err(e) => Err(e@),
            Ok((signature, data)) => if signature@ != "as"@ {
                Err("Unexpected user manager environment format"@)
            } else {
                let p = config_path_of(
                    kept_of(gathered(texts(data@), '=', data@.len() as int)),
                    working,
                );
                if text::byte_len(p) > MAX_CONFIG_PATH {
                    Err("Destination configuration path exceeds its limit"@)
                } else {
                    Ok(p)
                }
            },
        },
    }
}

fn user_config(
    output: &Output,
    answer: &Result<(String, Vec<String>), String>,
    working: &str,
) -> (r: Result<String, String>)
    ensures
        match r {
            Ok(p) => user_config_of(*output, *answer, working@) == Ok::<Seq<char>, Seq<char>>(p@),
            Err(e) => user_config_of(*output, *answer, working@) == Err::<Seq<char>, Seq<char>>(
                e@,
            ),
        },
{
    check_output(output, "Cannot read the user service environment: ")?;
    match answer {
        Err(e) => Err(e.clone()),
        Ok(answer) => {
            let environment = destination::user_environment(answer.0.as_str(), &answer.1)?;
            destination::user_config(&environment, working)
        },
    }
}

/// What speaks against the directory that holds the settings, by what opening it gave.
pub open spec fn directory_complaint(opened: Result<Metadata, String>, uid: u32) -> Option<
    Seq<char>,
> {
    match opened {
        Err(e) => Some(
            "Destination configuration directory is unavailable. Complete account setup before switching: "@
                + e@,
        ),
        Ok(m) => if m.uid == uid && m.mode & 0o022 == 0 {
            None
        } else {
            Some(
                "Destination state directory must belong to its daemon account and must not be writable by other accounts"@,
            )
        },
    }
}

fn check_directory(opened: &Result<Metadata, String>, uid: u32) -> (r: Result<Metadata, String>)
    ensures
        match r {
            Ok(m) => directory_complaint(*opened, uid) is None && *opened == Ok::<
                Metadata,
                String,
            >(m),
            Err(e) => directory_complaint(*opened, uid) == Some(e@),
        },
{
    match opened {
        Err(e) => {
            let mut whole =
                "Destination configuration directory is unavailable. Complete account setup before switching: ".to_owned();
            whole.append(e.as_str());
            Err(whole)
        },
        Ok(m) => {
            destination::check_state_directory(m, uid)?;
            Ok(*m)
        },
    }
}

/// A try to write that failed is reported as the account's.
pub open spec fn probe_complaint(written: Result<(), String>) -> Option<Seq<char>> {
    match written {
        Err(e) => Some("Destination account cannot write its configuration directory: "@ + e@),
        Ok(_) => None,
    }
}

fn check_probe(written: &Result<(), String>) -> (r: Result<(), String>)
    ensures
        complaint(r) == probe_complaint(*written),
{
    match written {
        Err(e) => {
            let mut whole = "Destination account cannot write its configuration directory: ".to_owned();
            whole.append(e.as_str());
            Err(whole)
        },
        Ok(_) => Ok(()),
    }
}

/// What speaks against saved settings.
pub open spec fn settings_complaint(summary: StateSummary) -> Option<Seq<char>> {
    if summary.issue_count == 0 {
        None
    } else {
        Some(
            "Destination state has invalid settings: "@ + text::joined(
                texts(summary.issues@),
                "\n"@,
            ),
        )
    }
}

/// Where the daemon of a mode works.
pub open spec fn working_of(scope: ServiceScope, account: Account) -> Seq<char> {
    match scope {
        ServiceScope::User => account.home@,
        ServiceScope::System => "/"@,
    }
}

/// Whether a directory is still the one that was opened.
pub open spec fn same_directory(before: Metadata, now: Metadata) -> bool {
    now.kind == FileKind::Directory && now.dev == before.dev && now.ino == before.ino
}

/// Where an inspection stands.
#[derive(Clone, Copy, Debug, PartialEq, Eq, Structural)]
pub enum InspectionStep {
    VerifyAccount,
    VerifyRecipe,
    VerifyDaemonFile,
    VerifyDaemonBuild,
    ReadEnvironment,
    PrepareDirectory,
    OpenDirectory,
    CheckTransaction,
    ProbeWrite,
    ReadState,
    CheckAssets,
    ConfirmDirectory,
    Inspected,
    Failed,
}

pub open spec fn inspection_rank(step: InspectionStep) -> int {
    match step {
        InspectionStep::VerifyAccount => 0,
        InspectionStep::VerifyRecipe => 1,
        InspectionStep::VerifyDaemonFile => 2,
        InspectionStep::VerifyDaemonBuild => 3,
        InspectionStep::ReadEnvironment => 4,
        InspectionStep::PrepareDirectory => 5,
        InspectionStep::OpenDirectory => 6,
        InspectionStep::CheckTransaction => 7,
        InspectionStep::ProbeWrite => 8,
        InspectionStep::ReadState => 9,
        InspectionStep::CheckAssets => 10,
        InspectionStep::ConfirmDirectory => 11,
        InspectionStep::Inspected => 12,
        InspectionStep::Failed => 13,
    }
}

/// Only a user's destination depends on the manager's environment, and only its directory is made
/// here, where asked.
pub open spec fn inspection_takes(
    step: InspectionStep,
    scope: ServiceScope,
    prepare_directory: bool,
) -> bool {
    match step {
        InspectionStep::ReadEnvironment => scope == ServiceScope::User,
        InspectionStep::PrepareDirectory => scope == ServiceScope::User && prepare_directory,
        _ => true,
    }
}

/// The inspection of a destination under its own account.
pub struct Inspection {
    pub scope: ServiceScope,
    pub prepare_directory: bool,
    pub account: Account,
    /// Where the daemon works.
    pub working: String,
    /// Where it keeps its configuration, once that is known.
    pub config: String,
    /// The directory of the configuration, once it was opened.
    pub directory: Option<Metadata>,
    /// What is saved there, once it was read.
    pub summary: Option<StateSummary>,
    /// What the check of the saved assets gave.
    pub assets: Option<AssetAccessReport>,
    pub report: Option<Destination>,
    pub step: InspectionStep,
    pub error: String,
    /// The steps that succeeded, in order.
    pub log: Ghost<Seq<InspectionStep>>,
}

pub open spec fn inspection_stops(before: Inspection, after: Inspection, text: Seq<char>) -> bool {
    after == (Inspection { step: InspectionStep::Failed, error: after.error, ..before })
        && after.error@ == text
}

pub open spec fn inspection_moves(before: Inspection, after: Inspection, next: InspectionStep) -> bool {
    after == (Inspection { step: next, log: Ghost(before.log@.push(before.step)), ..before })
}

impl Inspection {
    /// Every step taken before the present one succeeded.
    pub open spec fn wf(self) -> bool {
        self.step != InspectionStep::Failed ==> {
            &&& forall|s: InspectionStep|
                inspection_rank(s) < inspection_rank(self.step)
                    && inspection_takes(s, self.scope, self.prepare_directory) ==> #[trigger] self.log@.contains(s)
            &&& inspection_rank(self.step) > 6 ==> self.directory is Some
            &&& inspection_rank(self.step) > 10 ==> (self.summary is Some == self.assets is Some)
            &&& self.step == InspectionStep::Inspected ==> self.report is Some
        }
    }

    fn advance(&mut self, next: InspectionStep)
        requires
            (Inspection {
                step: next,
                log: Ghost(old(self).log@.push(old(self).step)),
                ..*old(self)
            }).wf(),
        ensures
            final(self).wf(),
            inspection_moves(*old(self), *final(self), next),
    {
        self.log = Ghost(self.log@.push(self.step));
        self.step = next;
    }

    /// A step could not be done.
    pub fn failed(&mut self, reason: &str)
        ensures
            final(self).wf(),
            inspection_stops(*old(self), *final(self), reason@),
    {
        self.step = InspectionStep::Failed;
        self.error = reason.to_owned();
    }

    pub fn begin(scope: ServiceScope, prepare_directory: bool, account: Account) -> (r: Inspection)
        ensures
            r.wf(),
            r.scope == scope,
            r.prepare_directory == prepare_directory,
            r.account == account,
            r.working@ == working_of(scope, account),
            scope == ServiceScope::System ==> r.config@ == "/var/lib/lianli/config.json"@,
            r.step == InspectionStep::VerifyAccount,
            r.log@ == Seq::<InspectionStep>::empty(),
            r.directory is None,
            r.summary is None,
            r.assets is None,
            r.report is None,
    {
        let (working, config) = match scope {
            ServiceScope::User => (account.home.clone(), String::new()),
            ServiceScope::System => ("/".to_owned(), "/var/lib/lianli/config.json".to_owned()),
        };
        Inspection {
            scope,
            prepare_directory,
            account,
            working,
            config,
            directory: None,
            summary: None,
            assets: None,
            report: None,
            step: InspectionStep::VerifyAccount,
            error: String::new(),
            log: Ghost(Seq::empty()),
        }
    }

    /// The credentials of this process were read.
    pub fn account(&mut self, uid: u32, gid: u32, groups: &Vec<u32>)
        requires
            old(self).wf(),
            old(self).step == InspectionStep::VerifyAccount,
        ensures
            final(self).wf(),
            match if holds(old(self).account, uid, gid, groups@) {
                None::<Seq<char>>
            } else {
                Some(
                    "Destination helper does not have the intended UID, primary group and supplementary groups"@,
                )
            } {
                Some(e) => inspection_stops(*old(self), *final(self), e),
                None => inspection_moves(*old(self), *final(self), InspectionStep::VerifyRecipe),
            },
    {
        match self.account.verify_current(uid, gid, groups) {
            Err(e) => {
                self.failed(e.as_str());
            },
            Ok(_) => {
                proof {
                    steps::push_holds(self.log@, self.step);
                }
                self.advance(InspectionStep::VerifyRecipe);
            },
        }
    }

    /// The check of the service's recipe ended.
    pub fn recipe(&mut self, recipe: &Recipe)
        requires
            old(self).wf(),
            old(self).step == InspectionStep::VerifyRecipe,
            recipe.wf(),
            recipe.scope == old(self).scope,
            recipe.uid == old(self).account.uid,
            recipe.working@ == old(self).working@,
            recipe.step == RecipeStep::Verified || recipe.step == RecipeStep::Failed,
        ensures
            final(self).wf(),
            match recipe.step {
                RecipeStep::Verified => inspection_moves(
                    *old(self),
                    *final(self),
                    InspectionStep::VerifyDaemonFile,
                ),
                _ => inspection_stops(*old(self), *final(self), recipe.error@),
            },
    {
        match recipe.step {
            RecipeStep::Verified => {
                proof {
                    steps::push_holds(self.log@, self.step);
                }
                self.advance(InspectionStep::VerifyDaemonFile);
            },
            _ => {
                self.failed(recipe.error.as_str());
            },
        }
    }

    /// The installed daemon was opened, without following links.
    pub fn daemon_file(&mut self, opened: &Result<Metadata, String>)
        requires
            old(self).wf(),
            old(self).step == InspectionStep::VerifyDaemonFile,
        ensures
            final(self).wf(),
            match daemon_file_complaint(*opened) {
                Some(e) => inspection_stops(*old(self), *final(self), e),
                None => inspection_moves(*old(self), *final(self), InspectionStep::VerifyDaemonBuild),
            },
    {
        match check_daemon_file(opened) {
            Err(e) => {
                self.failed(e.as_str());
            },
            Ok(_) => {
                proof {
                    steps::push_holds(self.log@, self.step);
                }
                self.advance(InspectionStep::VerifyDaemonBuild);
            },
        }
    }

    /// The installed daemon was asked for its capabilities, with what its answer holds.
    pub fn daemon_build(
        &mut self,
        output: &Output,
        build: &Result<DaemonBuildInfo, String>,
        version: &str,
        protocol_version: u32,
        required: &Vec<String>,
    )
        requires
            old(self).wf(),
            old(self).step == InspectionStep::VerifyDaemonBuild,
        ensures
            final(self).wf(),
            match daemon_build_complaint(
                *output,
                *build,
                version@,
                protocol_version,
                texts(required@),
            ) {
                Some(e) => inspection_stops(*old(self), *final(self), e),
                None => inspection_moves(
                    *old(self),
                    *final(self),
                    match old(self).scope {
                        ServiceScope::User => InspectionStep::ReadEnvironment,
                        ServiceScope::System => InspectionStep::OpenDirectory,
                    },
                ),
            },
    {
        match check_daemon_build(output, build, version, protocol_version, required) {
            Err(e) => {
                self.failed(e.as_str());
            },
            Ok(_) => {
                proof {
                    steps::push_holds(self.log@, self.step);
                }
                match self.scope {
                    ServiceScope::User => {
                        self.advance(InspectionStep::ReadEnvironment);
                    },
                    ServiceScope::System => {
                        self.advance(InspectionStep::OpenDirectory);
                    },
                }
            },
        }
    }

    /// The bus was asked for the manager's environment, with what its answer holds.
    pub fn environment(&mut self, output: &Output, answer: &Result<(String, Vec<String>), String>)
        requires
            old(self).wf(),
            old(self).step == InspectionStep::ReadEnvironment,
            old(self).scope == ServiceScope::User,
        ensures
            final(self).wf(),
            match user_config_of(*output, *answer, old(self).working@) {
                Err(e) => inspection_stops(*old(self), *final(self), e),
                Ok(p) => {
                    &&& *final(self) == (Inspection {
                        config: final(self).config,
                        step: if old(self).prepare_directory {
                            InspectionStep::PrepareDirectory
                        } else {
                            InspectionStep::OpenDirectory
                        },
                        log: Ghost(old(self).log@.push(old(self).step)),
                        ..*old(self)
                    })
                    &&& final(self).config@ == p
                },
            },
    {
        match user_config(output, answer, self.working.as_str()) {
            Err(e) => {
                self.failed(e.as_str());
            },
            Ok(p) => {
                self.config = p;
                proof {
                    steps::push_holds(self.log@, self.step);
                }
                if self.prepare_directory {
                    self.advance(InspectionStep::PrepareDirectory);
                } else {
                    self.advance(InspectionStep::OpenDirectory);
                }
            },
        }
    }

    /// The directory of the configuration exists, private to the user where it was made now.
    pub fn prepared(&mut self)
        requires
            old(self).wf(),
            old(self).step == InspectionStep::PrepareDirectory,
        ensures
            final(self).wf(),
            inspection_moves(*old(self), *final(self), InspectionStep::OpenDirectory),
    {
        proof {
            steps::push_holds(self.log@, self.step);
        }
        self.advance(InspectionStep::OpenDirectory);
    }

    /// The directory of the configuration was opened, without following links.
    pub fn opened(&mut self, opened: &Result<Metadata, String>)
        requires
            old(self).wf(),
            old(self).step == InspectionStep::OpenDirectory,
        ensures
            final(self).wf(),
            match directory_complaint(*opened, old(self).account.uid) {
                Some(e) => inspection_stops(*old(self), *final(self), e),
                None => opened matches Ok(m) && *final(self) == (Inspection {
                    directory: Some(*m),
                    step: InspectionStep::CheckTransaction,
                    log: Ghost(old(self).log@.push(old(self).step)),
                    ..*old(self)
                }),
            },
    {
        match check_directory(opened, self.account.uid) {
            Err(e) => {
                self.failed(e.as_str());
            },
            Ok(m) => {
                self.directory = Some(m);
                proof {
                    steps::push_holds(self.log@, self.step);
                }
                self.advance(InspectionStep::CheckTransaction);
            },
        }
    }

    /// The record of an interrupted change was looked for in the directory.
    pub fn transaction(&mut self, present: bool)
        requires
            old(self).wf(),
            old(self).step == InspectionStep::CheckTransaction,
        ensures
            final(self).wf(),
            match if present {
                Some(
                    "Destination has an interrupted state transaction. Recover it before preparing another switch"@,
                )
            } else {
                None::<Seq<char>>
            } {
                Some(e) => inspection_stops(*old(self), *final(self), e),
                None => inspection_moves(*old(self), *final(self), InspectionStep::ProbeWrite),
            },
    {
        match destination::check_no_transaction(present) {
            Err(e) => {
                self.failed(e.as_str());
            },
            Ok(_) => {
                proof {
                    steps::push_holds(self.log@, self.step);
                }
                self.advance(InspectionStep::ProbeWrite);
            },
        }
    }

    /// A temporary file was written in the directory and removed again.
    pub fn probed(&mut self, written: &Result<(), String>)
        requires
            old(self).wf(),
            old(self).step == InspectionStep::ProbeWrite,
        ensures
            final(self).wf(),
            match probe_complaint(*written) {
                Some(e) => inspection_stops(*old(self), *final(self), e),
                None => inspection_moves(*old(self), *final(self), InspectionStep::ReadState),
            },
    {
        match check_probe(written) {
            Err(e) => {
                self.failed(e.as_str());
            },
            Ok(_) => {
                proof {
                    steps::push_holds(self.log@, self.step);
                }
                self.advance(InspectionStep::ReadState);
            },
        }
    }

    /// What is saved in the directory was read, if anything is.
    pub fn state(&mut self, saved: Option<StateSummary>)
        requires
            old(self).wf(),
            old(self).step == InspectionStep::ReadState,
        ensures
            final(self).wf(),
            match saved {
                Some(summary) if settings_complaint(summary) is Some => inspection_stops(
                    *old(self),
                    *final(self),
                    settings_complaint(summary)->0,
                ),
                _ => *final(self) == (Inspection {
                    summary: saved,
                    step: InspectionStep::CheckAssets,
                    log: Ghost(old(self).log@.push(old(self).step)),
                    ..*old(self)
                }),
            },
    {
        if let Some(summary) = &saved {
            match destination::check_settings(summary) {
                Err(e) => {
                    self.failed(e.as_str());
                    return ;
                },
                Ok(_) => {},
            }
        }
        self.summary = saved;
        proof {
            steps::push_holds(self.log@, self.step);
        }
        self.advance(InspectionStep::CheckAssets);
    }

    /// The assets that the saved state refers to were checked.
    pub fn checked(&mut self, assets: AssetAccessReport)
        requires
            old(self).wf(),
            old(self).step == InspectionStep::CheckAssets,
            old(self).summary is Some,
        ensures
            final(self).wf(),
            *final(self) == (Inspection {
                assets: Some(assets),
                step: InspectionStep::ConfirmDirectory,
                log: Ghost(old(self).log@.push(old(self).step)),
                ..*old(self)
            }),
    {
        self.assets = Some(assets);
        proof {
            steps::push_holds(self.log@, self.step);
        }
        self.advance(InspectionStep::ConfirmDirectory);
    }

    /// With no configuration saved, templates, presets and profiles were looked for.
    pub fn auxiliary(&mut self, templates: bool, presets: bool, profiles: bool)
        requires
            old(self).wf(),
            old(self).step == InspectionStep::CheckAssets,
            old(self).summary is None,
        ensures
            final(self).wf(),
            if templates || presets || profiles {
                inspection_stops(
                    *old(self),
                    *final(self),
                    "Destination has saved auxiliary state without config.json. Repair it before switching"@,
                )
            } else {
                *final(self) == (Inspection {
                    assets: None,
                    step: InspectionStep::ConfirmDirectory,
                    log: Ghost(old(self).log@.push(old(self).step)),
                    ..*old(self)
                })
            },
    {
        match destination::check_no_orphans(templates, presets, profiles) {
            Err(e) => {
                self.failed(e.as_str());
            },
            Ok(_) => {
                self.assets = None;
                proof {
                    steps::push_holds(self.log@, self.step);
                }
                self.advance(InspectionStep::ConfirmDirectory);
            },
        }
    }

    /// The directory was looked at again under its name. The report says what was found.
    pub fn confirm(&mut self, now: &Metadata, namespace: FileIdentity)
        requires
            old(self).wf(),
            old(self).step == InspectionStep::ConfirmDirectory,
        ensures
            final(self).wf(),
            old(self).directory matches Some(m) && if same_directory(m, *now) {
                &&& *final(self) == (Inspection {
                    report: final(self).report,
                    summary: None,
                    assets: None,
                    step: InspectionStep::Inspected,
                    log: Ghost(old(self).log@.push(old(self).step)),
                    ..*old(self)
                })
                &&& final(self).report matches Some(report)
                &&& reports(
                    report,
                    old(self).scope,
                    old(self).account,
                    namespace@,
                    file_of(m),
                    old(self).config@,
                    old(self).working@,
                    match (old(self).summary, old(self).assets) {
                        (Some(summary), Some(assets)) => Some((summary, assets)),
                        _ => None,
                    },
                )
            } else {
                inspection_stops(
                    *old(self),
                    *final(self),
                    "Destination state directory changed during preflight"@,
                )
            },
    {
        match self.directory {
            None => {},
            Some(m) => match destination::check_same_directory(&m, now) {
                Err(e) => {
                    self.failed(e.as_str());
                },
                Ok(_) => {
                    let saved = match (self.summary.take(), self.assets.take()) {
                        (Some(summary), Some(assets)) => Some((summary, assets)),
                        _ => None,
                    };
                    self.report = Some(
                        destination::report_on(
                            self.scope,
                            &self.account,
                            namespace,
                            identify(&m),
                            self.config.clone(),
                            self.working.clone(),
                            saved,
                        ),
                    );
                    proof {
                        steps::push_holds(self.log@, self.step);
                    }
                    self.advance(InspectionStep::Inspected);
                },
            },
        }
    }
}

/// A destination is reported only after the account, the recipe, the daemon, the directory and the
/// saved state were all checked, and the directory was found unchanged at the end.
pub proof fn inspections_are_complete(m: Inspection)
    requires
        m.wf(),
        m.step == InspectionStep::Inspected,
    ensures
        m.report is Some,
        m.log@.contains(InspectionStep::VerifyAccount),
        m.log@.contains(InspectionStep::VerifyRecipe),
        m.log@.contains(InspectionStep::VerifyDaemonFile),
        m.log@.contains(InspectionStep::VerifyDaemonBuild),
        m.log@.contains(InspectionStep::OpenDirectory),
        m.log@.contains(InspectionStep::CheckTransaction),
        m.log@.contains(InspectionStep::ProbeWrite),
        m.log@.contains(InspectionStep::ReadState),
        m.log@.contains(InspectionStep::CheckAssets),
        m.log@.contains(InspectionStep::ConfirmDirectory),
        m.scope == ServiceScope::User ==> m.log@.contains(InspectionStep::ReadEnvironment),
{
}

/// What renaming the new directory gave.
pub enum Placed {
    Done,
    /// Another one stood there by then.
    Exists,
    Failed(String),
}

/// A directory that could not be given away.
pub open spec fn assign_complaint(assigned: Result<(), String>) -> Option<Seq<char>> {
    match assigned {
        Err(e) => Some("Cannot assign destination state directory: "@ + e@),
        Ok(_) => None,
    }
}

fn check_assigned(assigned: &Result<(), String>) -> (r: Result<(), String>)
    ensures
        complaint(r) == assign_complaint(*assigned),
{
    match assigned {
        Err(e) => {
            let mut whole = "Cannot assign destination state directory: ".to_owned();
            whole.append(e.as_str());
            Err(whole)
        },
        Ok(_) => Ok(()),
    }
}

/// Where the preparation of the system's state directory stands.
#[derive(Clone, Copy, Debug, PartialEq, Eq, Structural)]
pub enum SystemDirectoryStep {
    CheckAuthority,
    CheckParent,
    LookUp,
    MakeTemporary,
    Assign,
    Protect,
    Rename,
    SyncParent,
    CheckOwner,
    Ready,
    Failed,
}

pub open spec fn setup_rank(step: SystemDirectoryStep) -> int {
    match step {
        SystemDirectoryStep::CheckAuthority => 0,
        SystemDirectoryStep::CheckParent => 1,
        SystemDirectoryStep::LookUp => 2,
        SystemDirectoryStep::MakeTemporary => 3,
        SystemDirectoryStep::Assign => 4,
        SystemDirectoryStep::Protect => 5,
        SystemDirectoryStep::Rename => 6,
        SystemDirectoryStep::SyncParent => 7,
        SystemDirectoryStep::CheckOwner => 8,
        SystemDirectoryStep::Ready => 9,
        SystemDirectoryStep::Failed => 10,
    }
}

/// A directory is made only where none stood, and the parent is written back only where the new one
/// took its place.
pub open spec fn setup_takes(step: SystemDirectoryStep, missing: bool, placed: bool) -> bool {
    match step {
        SystemDirectoryStep::MakeTemporary | SystemDirectoryStep::Assign
        | SystemDirectoryStep::Protect | SystemDirectoryStep::Rename => missing,
        SystemDirectoryStep::SyncParent => missing && placed,
        _ => true,
    }
}

/// The preparation of the system's state directory: made under another name, given to its account,
/// and only then put in place.
pub struct SystemDirectory {
    pub account: Account,
    /// Whether no directory stood there.
    pub missing: bool,
    /// Whether the new directory took the place.
    pub placed: bool,
    pub step: SystemDirectoryStep,
    pub error: String,
    /// The steps that succeeded, in order.
    pub log: Ghost<Seq<SystemDirectoryStep>>,
}

pub open spec fn setup_stops(before: SystemDirectory, after: SystemDirectory, text: Seq<char>) -> bool {
    after == (SystemDirectory { step: SystemDirectoryStep::Failed, error: after.error, ..before })
        && after.error@ == text
}

pub open spec fn setup_moves(before: SystemDirectory, after: SystemDirectory, next: SystemDirectoryStep) -> bool {
    after == (SystemDirectory { step: next, log: Ghost(before.log@.push(before.step)), ..before })
}

impl SystemDirectory {
    /// Every step taken before the present one succeeded.
    pub open spec fn wf(self) -> bool {
        self.step != SystemDirectoryStep::Failed ==> {
            &&& forall|s: SystemDirectoryStep|
                setup_rank(s) < setup_rank(self.step)
                    && setup_takes(s, self.missing, self.placed) ==> #[trigger] self.log@.contains(s)
            &&& setup_rank(self.step) < 7 ==> !self.placed
        }
    }

    pub fn begin(account: Account) -> (r: SystemDirectory)
        ensures
            r.wf(),
            r.account == account,
            r.step == SystemDirectoryStep::CheckAuthority,
            r.log@ == Seq::<SystemDirectoryStep>::empty(),
            !r.missing,
            !r.placed,
    {
        SystemDirectory {
            account,
            missing: false,
            placed: false,
            step: SystemDirectoryStep::CheckAuthority,
            error: String::new(),
            log: Ghost(Seq::empty()),
        }
    }

    fn advance(&mut self, next: SystemDirectoryStep)
        requires
            (SystemDirectory {
                step: next,
                log: Ghost(old(self).log@.push(old(self).step)),
                ..*old(self)
            }).wf(),
        ensures
            final(self).wf(),
            setup_moves(*old(self), *final(self), next),
    {
        self.log = Ghost(self.log@.push(self.step));
        self.step = next;
    }

    /// A step could not be done.
    pub fn failed(&mut self, reason: &str)
        ensures
            final(self).wf(),
            setup_stops(*old(self), *final(self), reason@),
    {
        self.step = SystemDirectoryStep::Failed;
        self.error = reason.to_owned();
    }

    /// Only root prepares the directory, for the system's account.
    pub fn authority(&mut self, root: bool, system_uid: u32)
        requires
            old(self).wf(),
            old(self).step == SystemDirectoryStep::CheckAuthority,
        ensures
            final(self).wf(),
            match if root && old(self).account.uid == system_uid {
                None::<Seq<char>>
            } else {
                Some("System destination setup requires its authorized native administrator"@)
            } {
                Some(e) => setup_stops(*old(self), *final(self), e),
                None => setup_moves(*old(self), *final(self), SystemDirectoryStep::CheckParent),
            },
    {
        match destination::check_setup_authority(root, &self.account, system_uid) {
            Err(e) => {
                self.failed(e.as_str());
            },
            Ok(_) => {
                proof {
                    steps::push_holds(self.log@, self.step);
                }
                self.advance(SystemDirectoryStep::CheckParent);
            },
        }
    }

    /// The parent was opened, without following links.
    pub fn parent(&mut self, m: &Metadata)
        requires
            old(self).wf(),
            old(self).step == SystemDirectoryStep::CheckParent,
        ensures
            final(self).wf(),
            match if m.uid == 0 && m.mode & 0o022 == 0 {
                None::<Seq<char>>
            } else {
                Some("System state parent is not protected and root-owned"@)
            } {
                Some(e) => setup_stops(*old(self), *final(self), e),
                None => setup_moves(*old(self), *final(self), SystemDirectoryStep::LookUp),
            },
    {
        match destination::check_state_parent(m) {
            Err(e) => {
                self.failed(e.as_str());
            },
            Ok(_) => {
                proof {
                    steps::push_holds(self.log@, self.step);
                }
                self.advance(SystemDirectoryStep::LookUp);
            },
        }
    }

    /// The directory was looked for.
    pub fn looked_up(&mut self, missing: bool)
        requires
            old(self).wf(),
            old(self).step == SystemDirectoryStep::LookUp,
        ensures
            final(self).wf(),
            *final(self) == (SystemDirectory {
                missing,
                step: if missing {
                    SystemDirectoryStep::MakeTemporary
                } else {
                    SystemDirectoryStep::CheckOwner
                },
                log: Ghost(old(self).log@.push(old(self).step)),
                ..*old(self)
            }),
    {
        self.missing = missing;
        proof {
            steps::push_holds(self.log@, self.step);
        }
        if missing {
            self.advance(SystemDirectoryStep::MakeTemporary);
        } else {
            self.advance(SystemDirectoryStep::CheckOwner);
        }
    }

    /// A temporary directory was made in the parent and opened.
    pub fn made(&mut self)
        requires
            old(self).wf(),
            old(self).step == SystemDirectoryStep::MakeTemporary,
        ensures
            final(self).wf(),
            setup_moves(*old(self), *final(self), SystemDirectoryStep::Assign),
    {
        proof {
            steps::push_holds(self.log@, self.step);
        }
        self.advance(SystemDirectoryStep::Assign);
    }

    /// The temporary directory was given to the account.
    pub fn assigned(&mut self, assigned: &Result<(), String>)
        requires
            old(self).wf(),
            old(self).step == SystemDirectoryStep::Assign,
        ensures
            final(self).wf(),
            match assign_complaint(*assigned) {
                Some(e) => setup_stops(*old(self), *final(self), e),
                None => setup_moves(*old(self), *final(self), SystemDirectoryStep::Protect),
            },
    {
        match check_assigned(assigned) {
            Err(e) => {
                self.failed(e.as_str());
            },
            Ok(_) => {
                proof {
                    steps::push_holds(self.log@, self.step);
                }
                self.advance(SystemDirectoryStep::Protect);
            },
        }
    }

    /// Its mode was set, and it was written back.
    pub fn protected(&mut self)
        requires
            old(self).wf(),
            old(self).step == SystemDirectoryStep::Protect,
        ensures
            final(self).wf(),
            setup_moves(*old(self), *final(self), SystemDirectoryStep::Rename),
    {
        proof {
            steps::push_holds(self.log@, self.step);
        }
        self.advance(SystemDirectoryStep::Rename);
    }

    /// The temporary directory was renamed, unless something stood there.
    pub fn renamed(&mut self, placed: &Placed)
        requires
            old(self).wf(),
            old(self).step == SystemDirectoryStep::Rename,
            old(self).missing,
        ensures
            final(self).wf(),
            match placed {
                Placed::Failed(e) => setup_stops(
                    *old(self),
                    *final(self),
                    "Creating system state directory: "@ + e@,
                ),
                Placed::Exists => setup_moves(
                    *old(self),
                    *final(self),
                    SystemDirectoryStep::CheckOwner,
                ),
                Placed::Done => *final(self) == (SystemDirectory {
                    placed: true,
                    step: SystemDirectoryStep::SyncParent,
                    log: Ghost(old(self).log@.push(old(self).step)),
                    ..*old(self)
                }),
            },
    {
        match placed {
            Placed::Failed(e) => {
                let mut whole = "Creating system state directory: ".to_owned();
                whole.append(e.as_str());
                self.failed(whole.as_str());
            },
            Placed::Exists => {
                proof {
                    steps::push_holds(self.log@, self.step);
                }
                self.advance(SystemDirectoryStep::CheckOwner);
            },
            Placed::Done => {
                proof {
                    steps::push_holds(self.log@, self.step);
                }
                self.placed = true;
                self.advance(SystemDirectoryStep::SyncParent);
            },
        }
    }

    /// The parent was written back.
    pub fn synced(&mut self)
        requires
            old(self).wf(),
            old(self).step == SystemDirectoryStep::SyncParent,
        ensures
            final(self).wf(),
            setup_moves(*old(self), *final(self), SystemDirectoryStep::CheckOwner),
    {
        proof {
            steps::push_holds(self.log@, self.step);
        }
        self.advance(SystemDirectoryStep::CheckOwner);
    }

    /// The directory that stands there now was opened, without following links.
    pub fn owner(&mut self, m: &Metadata)
        requires
            old(self).wf(),
            old(self).step == SystemDirectoryStep::CheckOwner,
        ensures
            final(self).wf(),
            match if m.uid == old(self).account.uid && m.gid == old(self).account.gid && m.mode & 0o022
                == 0 {
                None::<Seq<char>>
            } else {
                Some(
                    "Existing system state directory has the wrong owner, group or write permissions. Repair it before switching"@,
                )
            } {
                Some(e) => setup_stops(*old(self), *final(self), e),
                None => setup_moves(*old(self), *final(self), SystemDirectoryStep::Ready),
            },
    {
        match destination::check_system_directory(m, &self.account) {
            Err(e) => {
                self.failed(e.as_str());
            },
            Ok(_) => {
                proof {
                    steps::push_holds(self.log@, self.step);
                }
                self.advance(SystemDirectoryStep::Ready);
            },
        }
    }
}

/// The system's state directory counts as prepared only after root asked for it below a protected
/// parent and what stands there was found to be the account's. A directory made now was given away
/// and protected before it took its place.
pub proof fn prepared_directories_are_checked(m: SystemDirectory)
    requires
        m.wf(),
        m.step == SystemDirectoryStep::Ready,
    ensures
        m.log@.contains(SystemDirectoryStep::CheckAuthority),
        m.log@.contains(SystemDirectoryStep::CheckParent),
        m.log@.contains(SystemDirectoryStep::CheckOwner),
        m.placed && m.missing ==> m.log@.contains(SystemDirectoryStep::Assign) && m.log@.contains(
            SystemDirectoryStep::Protect,
        ) && m.log@.contains(SystemDirectoryStep::SyncParent),
{
}

/// The manager's process is known exactly where the bus could be asked and answered one number that is
/// not zero. It is that number.
pub proof fn managers_are_identified_by_one_number(
    output: Output,
    answer: Result<(String, Vec<u32>), String>,
    pid: u32,
)
    ensures
        identity_of(output, answer) == Ok::<u32, Seq<char>>(pid) <==> output.code == Some(0i32) && (
        answer matches Ok((signature, data)) && signature@ == "u"@ && data@.len() == 1 && data@[0] == pid)
            && pid != 0,
{
}

/// The manager's status is accepted exactly where it is of bounded size and has the account's
/// credentials.
pub proof fn manager_status_is_bounded(status: Seq<char>, account: Account)
    ensures
        status_complaint(status, account) is None <==> text::byte_len(status) <= 65_536
            && manager_complaint(status, account) is None,
{
}

/// An override is accepted exactly where its file is trusted, of bounded size and text, and it sets
/// nothing but what is harmless.
pub proof fn overrides_are_accepted_if_harmless(
    m: Metadata,
    bytes: Seq<u8>,
    p: Seq<char>,
    scope: ServiceScope,
    uid: u32,
)
    ensures
        override_complaint(m, bytes, p, scope, uid) is None <==> is_trusted_override(m, scope, uid)
            && bytes.len() <= 16_384 && json::text_of(bytes) is Ok && override_from(
            text::lines_of(json::text_of(bytes)->Ok_0),
            0,
            false,
        ) is None,
{
}

/// A unit is accepted exactly where it is a protected file of root's that holds what is supplied.
pub proof fn units_are_the_supplied_ones(m: Metadata, bytes: Seq<u8>, supplied: Seq<u8>)
    ensures
        unit_complaint(m, bytes, supplied) is None <==> m.kind == FileKind::File && m.uid == 0 && m.mode
            & 0o022 == 0 && m.len <= 16_384 && bytes == supplied,
{
}

/// Overrides are listed exactly where the bus could be asked and named no more than 32. They are looked
/// at exactly where the unit has any.
pub proof fn overrides_are_listed_where_there_are_any(
    output: Output,
    answer: Result<Vec<String>, String>,
    overridden: bool,
)
    ensures
        overrides_complaint(output, answer) is None <==> output.code == Some(0i32) && answer is Ok
            && answer->Ok_0@.len() <= 32,
        recipe_takes(RecipeStep::ListOverrides, overridden) <==> overridden,
        recipe_takes(RecipeStep::CheckOverrides, overridden) <==> overridden,
        recipe_takes(RecipeStep::CheckUnit, overridden),
{
}

/// The installed daemon is accepted exactly where it is a protected program of root's that reports this
/// version, this protocol and every required capability.
pub proof fn daemons_match_the_control_program(
    opened: Result<Metadata, String>,
    output: Output,
    build: Result<DaemonBuildInfo, String>,
    version: Seq<char>,
    protocol_version: u32,
    required: Seq<Seq<char>>,
)
    ensures
        daemon_file_complaint(opened) is None <==> opened is Ok && opened->Ok_0.kind == FileKind::File
            && opened->Ok_0.uid == 0 && opened->Ok_0.mode & 0o022 == 0 && opened->Ok_0.mode & 0o111
            != 0,
        daemon_build_complaint(output, build, version, protocol_version, required) is None <==> {
            &&& output.code == Some(0i32)
            &&& build is Ok
            &&& build->Ok_0.version@ == version
            &&& build->Ok_0.protocol_version == protocol_version
            &&& forall|i: int|
                0 <= i < required.len() ==> texts(build->Ok_0.capabilities@).contains(
                    #[trigger] required[i],
                )
        },
{
}

/// A user's configuration is found exactly where the manager told its environment as such, and its path
/// is of bounded length.
pub proof fn user_configurations_are_found_in_the_environment(
    output: Output,
    answer: Result<(String, Vec<String>), String>,
    working: Seq<char>,
)
    ensures
        ({
            let found = user_config_of(output, answer, working);
            let (signature, data) = answer->Ok_0;
            let p = config_path_of(
                kept_of(gathered(texts(data@), '=', data@.len() as int)),
                working,
            );
            &&& found is Ok <==> output.code == Some(0i32) && answer is Ok && signature@ == "as"@
                && text::byte_len(p) <= 4096
            &&& found is Ok ==> found->Ok_0 == p
        }),
{
}

/// The directory of the settings is accepted exactly where it could be opened, is the account's and
/// closed to other writers, and could be written. Settings are exactly where nothing is wrong in
/// them.
pub proof fn settings_are_sound_and_writable(
    opened: Result<Metadata, String>,
    uid: u32,
    written: Result<(), String>,
    summary: StateSummary,
)
    ensures
        directory_complaint(opened, uid) is None <==> opened is Ok && opened->Ok_0.uid == uid
            && opened->Ok_0.mode & 0o022 == 0,
        probe_complaint(written) is None <==> written is Ok,
        settings_complaint(summary) is None <==> summary.issue_count == 0,
{
}

/// The daemon of the user works in the home of its account, that of the system at the root. Only the
/// user's depends on the manager's environment, and only its directory is made during an inspection.
pub proof fn daemons_work_where_their_mode_says(
    scope: ServiceScope,
    account: Account,
    prepare_directory: bool,
)
    ensures
        working_of(ServiceScope::User, account) == account.home@,
        working_of(ServiceScope::System, account) == "/"@,
        inspection_takes(InspectionStep::ReadEnvironment, scope, prepare_directory) <==> scope
            == ServiceScope::User,
        inspection_takes(InspectionStep::PrepareDirectory, scope, prepare_directory) <==> scope
            == ServiceScope::User && prepare_directory,
        inspection_takes(InspectionStep::CheckTransaction, scope, prepare_directory),
        inspection_takes(InspectionStep::CheckAssets, scope, prepare_directory),
        inspection_takes(InspectionStep::ConfirmDirectory, scope, prepare_directory),
{
}

/// A directory is still the one that was opened exactly where it is the same file.
pub proof fn directories_stay_the_same(before: Metadata, now: Metadata)
    ensures
        same_directory(before, now) <==> now.kind == FileKind::Directory && now.dev == before.dev
            && now.ino == before.ino,
{
}

/// The system's directory is made exactly where none stood, and the parent written back exactly where
/// the new one took the place.
pub proof fn system_directories_are_made_where_missing(missing: bool, placed: bool)
    ensures
        setup_takes(SystemDirectoryStep::MakeTemporary, missing, placed) <==> missing,
        setup_takes(SystemDirectoryStep::Assign, missing, placed) <==> missing,
        setup_takes(SystemDirectoryStep::Protect, missing, placed) <==> missing,
        setup_takes(SystemDirectoryStep::Rename, missing, placed) <==> missing,
        setup_takes(SystemDirectoryStep::SyncParent, missing, placed) <==> missing && placed,
        setup_takes(SystemDirectoryStep::CheckOwner, missing, placed),
{
}

/// Every question goes to the manager of the service, by the service's own name.
pub proof fn questions_go_to_the_manager(scope: ServiceScope)
    ensures
        recipe_arguments_of(scope)[0] == scope.argument_spec(),
        recipe_arguments_of(scope).last() == scope.unit_spec(),
        override_arguments_of(scope)[0] == scope.argument_spec(),
        override_arguments_of(scope)[5] == object_of(scope),
        environment_arguments_of()[0] == ServiceScope::User.argument_spec(),
        activation_arguments_of()[0] == ServiceScope::User.argument_spec(),
        identity_arguments_of()[0] == ServiceScope::User.argument_spec(),
{
}

} // verus!
