//! What an inspection reports of the two hardware services, of the process that owns the hardware
//! lock, and of the daemon behind it.

use crate::text;
use vstd::prelude::*;

verus! {

/// The two ways of running the hardware daemon.
#[derive(Clone, Copy, Debug, PartialEq, Eq, Structural)]
pub enum ServiceScope {
    User,
    System,
}

#[derive(Clone, Copy, Debug, PartialEq, Eq, Structural)]
pub enum ServiceAction {
    Start,
    Stop,
    Restart,
}

#[derive(Clone, Copy, Debug, PartialEq, Eq, Structural)]
pub struct ServiceActionRequest {
    pub scope: ServiceScope,
    pub action: ServiceAction,
}

/// What a caller may ask of the mode switch.
#[derive(Clone, Copy, Debug, PartialEq, Eq, Structural)]
pub enum ServiceChangeRequest {
    Switch { scope: ServiceScope, carry_settings: bool },
    Recover {  },
}

/// The service mode that the host selects, and the account it runs under.
#[derive(Clone, Copy, Debug, PartialEq, Eq, Structural)]
pub struct ServiceSelection {
    pub scope: ServiceScope,
    pub uid: u32,
}

/// Whether a unit starts by itself.
#[derive(Clone, Copy, Debug, PartialEq, Eq, Structural)]
pub enum Startup {
    Disabled,
    Enabled,
    Runtime,
}

#[derive(Clone, Copy, Debug, PartialEq, Eq, Structural)]
pub struct Policy {
    pub user: Startup,
    pub system: Startup,
}

/// Where the application runs.
#[derive(Clone, Debug)]
pub enum InstallationContext {
    Native,
    Distrobox { name: String },
    UnsupportedContainer,
}

/// A fact that an inspection found, or the reason why it could not.
#[derive(Clone, Debug)]
pub enum ServiceProbe<T> {
    Known { value: T },
    Unavailable { reason: String },
}

#[derive(Clone, Debug)]
pub struct UnitState {
    pub name: String,
    pub load_state: String,
    pub active_state: String,
    pub sub_state: String,
    pub unit_file_state: String,
    pub main_pid: u32,
    pub fragment_path: String,
    pub control_group: Option<String>,
    pub kill_mode: Option<String>,
    pub send_sigkill: Option<bool>,
    pub graceful_shutdown: Option<bool>,
    pub invocation_id: Option<String>,
    pub distrobox_name: Option<String>,
}

/// A file on the host, by the decimal numbers of its device and inode.
#[derive(Clone, Debug)]
pub struct FileIdentity {
    pub device: String,
    pub inode: String,
}

impl View for FileIdentity {
    type V = (Seq<char>, Seq<char>);

    open spec fn view(&self) -> (Seq<char>, Seq<char>) {
        (self.device@, self.inode@)
    }
}

#[derive(Clone, Debug)]
pub struct OwnerProcess {
    pub pid: u32,
    pub effective_uid: u32,
    pub start_time_ticks: String,
    pub control_group: String,
    pub service: Option<ServiceScope>,
}

#[derive(Clone, Debug)]
pub struct OwnershipSnapshot {
    pub identity: FileIdentity,
    pub owner_pid: Option<u32>,
    pub process: Option<ServiceProbe<OwnerProcess>>,
}

#[derive(Clone, Debug)]
pub struct ServiceReport {
    pub context: InstallationContext,
    pub user: ServiceProbe<UnitState>,
    pub system: ServiceProbe<UnitState>,
    pub ownership: Option<ServiceProbe<OwnershipSnapshot>>,
}

#[derive(Clone, Copy, Debug, PartialEq, Eq, Structural)]
pub enum DaemonMode {
    User,
    System,
}

#[derive(Clone, Debug)]
pub struct DaemonInfo {
    pub version: String,
    pub protocol_version: u32,
    pub instance_id: String,
    pub pid: u32,
    pub mode: DaemonMode,
    pub config_path: String,
    pub capabilities: Vec<String>,
    pub ownership_lock: Option<FileIdentity>,
    pub service_invocation: Option<String>,
    pub service_operation_lock: Option<FileIdentity>,
}

/// The text of an optional string.
pub open spec fn optional(s: Option<String>) -> Option<Seq<char>> {
    match s {
        Some(s) => Some(s@),
        None => None,
    }
}

/// The value of an optional identity.
pub open spec fn optional_identity(i: Option<FileIdentity>) -> Option<(Seq<char>, Seq<char>)> {
    match i {
        Some(i) => Some(i@),
        None => None,
    }
}

impl ServiceScope {
    pub open spec fn other_spec(self) -> ServiceScope {
        match self {
            ServiceScope::User => ServiceScope::System,
            ServiceScope::System => ServiceScope::User,
        }
    }

    /// The name of the systemd unit.
    pub open spec fn unit_spec(self) -> Seq<char> {
        match self {
            ServiceScope::User => "lianli-daemon.service"@,
            ServiceScope::System => "lianli-daemon-system.service"@,
        }
    }

    pub fn unit(self) -> (r: &'static str)
        ensures
            r@ == self.unit_spec(),
    {
        match self {
            ServiceScope::User => "lianli-daemon.service",
            ServiceScope::System => "lianli-daemon-system.service",
        }
    }

    /// The systemctl option that selects the manager.
    pub open spec fn argument_spec(self) -> Seq<char> {
        match self {
            ServiceScope::User => "--user"@,
            ServiceScope::System => "--system"@,
        }
    }

    pub fn argument(self) -> (r: &'static str)
        ensures
            r@ == self.argument_spec(),
    {
        match self {
            ServiceScope::User => "--user",
            ServiceScope::System => "--system",
        }
    }

    /// The scope as a word on a command line.
    pub open spec fn word_spec(self) -> Seq<char> {
        match self {
            ServiceScope::User => "user"@,
            ServiceScope::System => "system"@,
        }
    }

    pub fn word(self) -> (r: &'static str)
        ensures
            r@ == self.word_spec(),
    {
        match self {
            ServiceScope::User => "user",
            ServiceScope::System => "system",
        }
    }
}

impl ServiceAction {
    pub open spec fn argument_spec(self) -> Seq<char> {
        match self {
            ServiceAction::Start => "start"@,
            ServiceAction::Stop => "stop"@,
            ServiceAction::Restart => "restart"@,
        }
    }

    pub fn argument(self) -> (r: &'static str)
        ensures
            r@ == self.argument_spec(),
    {
        match self {
            ServiceAction::Start => "start",
            ServiceAction::Stop => "stop",
            ServiceAction::Restart => "restart",
        }
    }
}

impl InstallationContext {
    pub fn is_native(&self) -> (r: bool)
        ensures
            r == (*self is Native),
    {
        match self {
            InstallationContext::Native => true,
            _ => false,
        }
    }
}

impl FileIdentity {
    /// Whether both stand for the same file.
    pub fn same(&self, other: &FileIdentity) -> (r: bool)
        ensures
            r == (self@ == other@),
    {
        text::eq(self.device.as_str(), other.device.as_str()) && text::eq(
            self.inode.as_str(),
            other.inode.as_str(),
        )
    }

    pub fn copy(&self) -> (r: FileIdentity)
        ensures
            r == *self,
    {
        FileIdentity { device: self.device.clone(), inode: self.inode.clone() }
    }
}

/// Whether two optional identities agree.
pub fn same_optional_identity(a: &Option<FileIdentity>, b: &Option<FileIdentity>) -> (r: bool)
    ensures
        r == (optional_identity(*a) == optional_identity(*b)),
{
    match (a, b) {
        (Some(x), Some(y)) => x.same(y),
        (None, None) => true,
        _ => false,
    }
}

/// Whether two optional texts agree.
pub fn same_optional(a: &Option<String>, b: &Option<String>) -> (r: bool)
    ensures
        r == (optional(*a) == optional(*b)),
{
    match (a, b) {
        (Some(x), Some(y)) => text::eq(x.as_str(), y.as_str()),
        (None, None) => true,
        _ => false,
    }
}

pub fn copy_optional_identity(a: &Option<FileIdentity>) -> (r: Option<FileIdentity>)
    ensures
        r == *a,
{
    match a {
        Some(x) => Some(x.copy()),
        None => None,
    }
}

pub fn copy_optional(a: &Option<String>) -> (r: Option<String>)
    ensures
        r == *a,
{
    match a {
        Some(x) => Some(x.clone()),
        None => None,
    }
}

/// The two services are never confused: each has its own unit, manager and word, and each is the other
/// of the other one.
pub proof fn services_are_told_apart(scope: ServiceScope)
    ensures
        scope.other_spec() != scope,
        scope.other_spec().other_spec() == scope,
        scope.unit_spec() != scope.other_spec().unit_spec(),
        scope.argument_spec() != scope.other_spec().argument_spec(),
        scope.word_spec() != scope.other_spec().word_spec(),
        scope.argument_spec() == "--"@ + scope.word_spec(),
{
    reveal_strlit("lianli-daemon.service");
    reveal_strlit("lianli-daemon-system.service");
    reveal_strlit("--user");
    reveal_strlit("--system");
    reveal_strlit("user");
    reveal_strlit("system");
    reveal_strlit("--");
    assert("lianli-daemon.service"@.len() == 21);
    assert("lianli-daemon-system.service"@.len() == 28);
    assert("--user"@.len() == 6);
    assert("--system"@.len() == 8);
    assert("user"@.len() == 4);
    assert("system"@.len() == 6);
    assert("--user"@ =~= "--"@ + "user"@);
    assert("--system"@ =~= "--"@ + "system"@);
}

} // verus!
