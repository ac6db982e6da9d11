//! Bringing the control helper from a box to its host.

use crate::account;
use crate::account::Account;
use crate::command::Output;
use crate::container_deployment::{deployment_complaint, Deployment};
use crate::container_destination::{complaint, ConfigNames, Launch, Route};
use crate::digest;
use crate::digest::{absorbed, Hasher};
use crate::files::{FileKind, Metadata};
use crate::path;
use crate::services::InstallationContext;
use crate::steps;
use crate::text;
use crate::text::{outcome, texts};
use vstd::prelude::*;

verus! {

/// The largest helper, in bytes.
pub const LIMIT: u64 = 134_217_728;

/// The largest request to the host, in bytes.
pub const MAX_REQUEST: usize = 32_768;

/// What a look at the host's deployment gave.
#[derive(Clone, Debug)]
pub enum Lookup {
    Found,
    /// The host's helper may not be run.
    Denied(String),
    Failed(String),
}

/// What is done after a look at the host's deployment.
#[derive(Clone, Copy, Debug, PartialEq, Eq, Structural)]
pub enum AfterLookup {
    Use,
    /// Access is repaired with authorization, then the host is asked once more.
    Repair,
}

pub open spec fn after_lookup_of(lookup: Lookup, repaired: bool) -> Result<AfterLookup, Seq<char>> {
    match lookup {
        Lookup::Found => Ok(AfterLookup::Use),
        Lookup::Denied(e) => if repaired {
            Err(e@)
        } else {
            Ok(AfterLookup::Repair)
        },
        Lookup::Failed(e) => Err(e@),
    }
}

/// A box asks its host what it has set up. Access is repaired once, and only where it was denied.
pub fn deployment_for_action(
    context: &InstallationContext,
    lookup: &Lookup,
    repaired: bool,
) -> (r: Result<AfterLookup, String>)
    ensures
        outcome(r) == if *context is Distrobox {
            after_lookup_of(*lookup, repaired)
        } else {
            Err("Set up host support from the selected Distrobox"@)
        },
{
    match context {
        InstallationContext::Distrobox { .. } => {},
        _ => {
            return Err("Set up host support from the selected Distrobox".to_owned());
        },
    }
    match lookup {
        Lookup::Found => Ok(AfterLookup::Use),
        Lookup::Denied(e) => {
            if repaired {
                Err(e.clone())
            } else {
                Ok(AfterLookup::Repair)
            }
        },
        Lookup::Failed(e) => Err(e.clone()),
    }
}

/// Where a user's daemon keeps its configuration unless the caller says otherwise.
pub open spec fn default_config(config_home: Option<Seq<char>>, home: Seq<char>) -> Seq<char> {
    let base = match config_home {
        Some(p) if path::is_absolute(p) => p,
        _ => path::join_of(home, ".config"@),
    };
    path::join_of(base, "lianli/config.json"@)
}

/// Whether the host's account is the box's: what it printed of its number, and whether it knew its
/// name.
pub open spec fn is_same_owner(uid: Output, owner: Output, account: Account) -> bool {
    uid.code == Some(0i32) && text::trimmed(uid.stdout@) == text::decimal(account.uid as nat)
        && owner.code == Some(0i32)
}

/// Whether a deployment is the one to propose for a box.
pub open spec fn is_proposed(
    d: Deployment,
    name: Seq<char>,
    account: Account,
    owner: Seq<char>,
    user_config: Option<String>,
    config_home: Option<&str>,
    binaries: Seq<char>,
) -> bool {
    &&& d.version == 1
    &&& d.owner_uid == account.uid
    &&& d.owner_name@ == text::trimmed(owner)
    &&& d.route.launch.name@ == name
    &&& d.route.launch.host_enter@ == "/usr/bin/distrobox-enter"@
    &&& d.route.launch.binaries@ == binaries
    &&& d.route.user_config@ == match user_config {
        Some(p) => p@,
        None => default_config(
            match config_home {
                Some(p) => Some(p@),
                None => None,
            },
            account.home@,
        ),
    }
    &&& d.route.system_config@ == path::join_of(
        account.home@,
        ".local/share/lianli-system/config.json"@,
    )
    &&& d.route.user_working_directory@ == account.home@
    &&& d.route.system_working_directory@ == account.home@
}

/// The deployment to propose from a box: the one that the host has, where it has one. `existing` is
/// what the host answered, `uid` and `owner` are what it printed of the account, `binaries` is the
/// directory of this program. `names` says what the rules on configuration file names hold of the
/// configurations.
pub fn proposal(
    context: &InstallationContext,
    existing: Result<Option<Deployment>, String>,
    account: &Account,
    uid: &Output,
    owner: &Output,
    user_config: Option<String>,
    config_home: Option<&str>,
    binaries: Option<&str>,
    names: &ConfigNames,
) -> (r: Result<Deployment, String>)
    ensures
        match *context {
            InstallationContext::Distrobox { name } => match existing {
                Err(reason) => r matches Err(e) && e@ == reason@,
                Ok(Some(d)) => r == Ok::<Deployment, String>(d),
                Ok(None) => match (r, binaries) {
                    (Ok(d), Some(directory)) => {
                        &&& is_same_owner(*uid, *owner, *account)
                        &&& is_proposed(
                            d,
                            name@,
                            *account,
                            owner.stdout@,
                            user_config,
                            config_home,
                            directory@,
                        )
                        &&& deployment_complaint(d, *names) is None
                    },
                    (Ok(_), None) => false,
                    (Err(e), _) => if !is_same_owner(*uid, *owner, *account) {
                        e@ == "The host and box must use the same account for managed services"@
                    } else {
                        match binaries {
                            None => e@ == "Application directory is unavailable"@,
                            Some(directory) => exists|d: Deployment| #[trigger]
                                deployment_complaint(d, *names) == Some(e@) && is_proposed(
                                    d,
                                    name@,
                                    *account,
                                    owner.stdout@,
                                    user_config,
                                    config_home,
                                    directory@,
                                ),
                        }
                    },
                },
            },
            _ => r matches Err(e) && e@ == "Set up host support from the selected Distrobox"@,
        },
{
    let name = match context {
        InstallationContext::Distrobox { name } => name,
        _ => {
            return Err("Set up host support from the selected Distrobox".to_owned());
        },
    };
    match existing {
        Err(e) => {
            return Err(e);
        },
        Ok(Some(d)) => {
            return Ok(d);
        },
        Ok(None) => {},
    }
    if !(uid.success() && text::eq(
        text::trim(uid.stdout.as_str()).as_str(),
        text::format_u64(account.uid as u64).as_str(),
    ) && owner.success()) {
        return Err("The host and box must use the same account for managed services".to_owned());
    }
    let binaries = match binaries {
        Some(p) => p,
        None => {
            return Err("Application directory is unavailable".to_owned());
        },
    };
    let user_config = match user_config {
        Some(p) => p,
        None => {
            let base = match config_home {
                Some(p) => if path::absolute(p) {
                    p.to_owned()
                } else {
                    path::join(account.home.as_str(), ".config")
                },
                None => path::join(account.home.as_str(), ".config"),
            };
            path::join(base.as_str(), "lianli/config.json")
        },
    };
    let deployment = Deployment {
        version: 1,
        owner_uid: account.uid,
        owner_name: text::trim(owner.stdout.as_str()),
        route: Route {
            launch: Launch {
                name: name.clone(),
                host_enter: "/usr/bin/distrobox-enter".to_owned(),
                binaries: binaries.to_owned(),
            },
            user_config,
            system_config: path::join(
                account.home.as_str(),
                ".local/share/lianli-system/config.json",
            ),
            user_working_directory: account.home.clone(),
            system_working_directory: account.home.clone(),
        },
    };
    match deployment.validate(names) {
        Ok(_) => Ok(deployment),
        Err(e) => {
            assert(deployment_complaint(deployment, *names) == Some(e@));
            Err(e)
        },
    }
}

pub fn check_source(m: &Metadata) -> (r: Result<(), String>)
    ensures
        outcome(r) == if m.kind == FileKind::File && m.len <= LIMIT {
            Ok(())
        } else {
            Err("The bundled host helper is unavailable or exceeds 128 MiB"@)
        },
{
    if m.kind == FileKind::File && m.len <= LIMIT {
        Ok(())
    } else {
        Err("The bundled host helper is unavailable or exceeds 128 MiB".to_owned())
    }
}

/// The first bytes of an executable.
pub open spec fn is_elf(bytes: Seq<u8>) -> bool {
    bytes.len() >= 4 && bytes[0] == 0x7f && bytes[1] == 0x45 && bytes[2] == 0x4c && bytes[3] == 0x46
}

/// A helper as far as it was copied.
pub struct Staging {
    hasher: Hasher,
    copied: u64,
}

impl Staging {
    /// The bytes that were copied.
    pub closed spec fn bytes(self) -> Seq<u8> {
        absorbed(self.hasher)
    }

    pub closed spec fn wf(self) -> bool {
        self.copied == absorbed(self.hasher).len() && self.copied <= LIMIT
    }

    pub fn begin() -> (r: Staging)
        ensures
            r.wf(),
            r.bytes() == Seq::<u8>::empty(),
    {
        Staging { hasher: Hasher::new(), copied: 0 }
    }

    /// Takes in the next bytes of the helper. They may be written only after that.
    pub fn chunk(&mut self, bytes: &Vec<u8>) -> (r: Result<(), String>)
        requires
            old(self).wf(),
            bytes@.len() > 0,
        ensures
            final(self).wf(),
            match r {
                Ok(_) => {
                    &&& old(self).bytes().len() == 0 ==> is_elf(bytes@)
                    &&& old(self).bytes().len() + bytes@.len() <= LIMIT
                    &&& final(self).bytes() == old(self).bytes() + bytes@
                },
                Err(e) => {
                    &&& final(self).bytes() == old(self).bytes()
                    &&& if old(self).bytes().len() == 0 && !is_elf(bytes@) {
                        e@ == "The bundled host helper is not an ELF executable"@
                    } else {
                        old(self).bytes().len() + bytes@.len() > LIMIT && e@
                            == "The bundled host helper exceeds 128 MiB"@
                    }
                },
            },
    {
        let begins = bytes.len() >= 4 && bytes[0] == 0x7f && bytes[1] == 0x45 && bytes[2] == 0x4c
            && bytes[3] == 0x46;
        if self.copied == 0 && !begins {
            return Err("The bundled host helper is not an ELF executable".to_owned());
        }
        let size: u64 = bytes.len() as u64;
        if size > LIMIT - self.copied {
            return Err("The bundled host helper exceeds 128 MiB".to_owned());
        }
        self.hasher.update(bytes.as_slice());
        self.copied = self.copied + size;
        Ok(())
    }

    /// The fingerprint of the helper, once it was copied to its end.
    pub fn finish(self) -> (r: Result<String, String>)
        requires
            self.wf(),
        ensures
            match r {
                Ok(d) => self.bytes().len() >= 4 && d@ == digest::fingerprint(self.bytes()),
                Err(e) => self.bytes().len() < 4 && e@ == "The bundled host helper is empty"@,
            },
    {
        if self.copied < 4 {
            return Err("The bundled host helper is empty".to_owned());
        }
        Ok(self.hasher.finish())
    }
}

pub open spec fn install_complaint(d: Deployment, names: ConfigNames, uid: u32, name: Seq<char>) -> Option<
    Seq<char>,
> {
    if deployment_complaint(d, names) is Some {
        deployment_complaint(d, names)
    } else if uid != 0 && d.owner_uid == uid && d.route.launch.name@ == name {
        None
    } else {
        Some("Host setup must use this box and its original account"@)
    }
}

/// Begins to install a deployment from a box under an account, with `request` as the deployment's
/// text.
pub fn install(
    context: &InstallationContext,
    deployment: &Deployment,
    names: &ConfigNames,
    uid: u32,
    request: &str,
) -> (r: Result<Authorization, String>)
    ensures
        match *context {
            InstallationContext::Distrobox { name } => match r {
                Ok(a) => {
                    &&& install_complaint(*deployment, *names, uid, name@) is None
                    &&& a.wf()
                    &&& a.step == AuthorizeStep::CheckBox
                    &&& a.uid == uid
                    &&& a.binaries@ == deployment.route.launch.binaries@
                    &&& a.action@ == "install"@
                    &&& a.request@ == request@
                },
                Err(e) => install_complaint(*deployment, *names, uid, name@) == Some(e@),
            },
            _ => r matches Err(e) && e@ == "Bootstrap host support from the selected Distrobox"@,
        },
{
    match context {
        InstallationContext::Distrobox { name } => {
            deployment.validate(names)?;
            if uid != 0 && deployment.owner_uid == uid && text::eq(
                deployment.route.launch.name.as_str(),
                name.as_str(),
            ) {
                Ok(
                    Authorization::begin(
                        uid,
                        deployment.route.launch.binaries.as_str(),
                        request,
                        "install",
                    ),
                )
            } else {
                Err("Host setup must use this box and its original account".to_owned())
            }
        },
        _ => Err("Bootstrap host support from the selected Distrobox".to_owned()),
    }
}

/// Begins to repair the access of a box to its host's deployment.
pub fn repair(
    context: &InstallationContext,
    uid: u32,
    binaries: Option<&str>,
) -> (r: Result<Authorization, String>)
    ensures
        match *context {
            InstallationContext::Distrobox { name } => match (r, binaries) {
                (Ok(a), Some(directory)) => {
                    &&& a.wf()
                    &&& a.step == AuthorizeStep::CheckBox
                    &&& a.uid == uid
                    &&& a.binaries@ == directory@
                    &&& a.action@ == "repair"@
                    &&& a.request@ == name@
                },
                (Err(e), None) => e@ == "Application directory is unavailable"@,
                _ => false,
            },
            _ => r matches Err(e) && e@ == "Set up host support from the selected Distrobox"@,
        },
{
    match context {
        InstallationContext::Distrobox { name } => match binaries {
            Some(directory) => Ok(Authorization::begin(uid, directory, name.as_str(), "repair")),
            None => Err("Application directory is unavailable".to_owned()),
        },
        _ => Err("Set up host support from the selected Distrobox".to_owned()),
    }
}

pub open spec fn request_complaint(uid: u32, request: Seq<char>) -> Option<Seq<char>> {
    if uid == 0 {
        Some("Host setup requires the original box owner"@)
    } else if text::byte_len(request) > MAX_REQUEST {
        Some("Host setup request exceeds 32 KiB"@)
    } else {
        None
    }
}

/// Whether a request to the host may be made.
fn check_request(uid: u32, request: &str) -> (r: Result<(), String>)
    ensures
        match r {
            Ok(_) => request_complaint(uid, request@) is None,
            Err(e) => request_complaint(uid, request@) == Some(e@),
        },
{
    if uid == 0 {
        return Err("Host setup requires the original box owner".to_owned());
    }
    if text::len(request) > MAX_REQUEST {
        return Err("Host setup request exceeds 32 KiB".to_owned());
    }
    Ok(())
}

pub open spec fn runtime_complaint(m: Metadata, uid: u32) -> Option<Seq<char>> {
    if m.kind == FileKind::Directory && m.uid == uid && m.mode & 0o077 == 0 {
        None
    } else {
        Some("The shared host user runtime is unavailable or not private"@)
    }
}

fn check_runtime(m: &Metadata, uid: u32) -> (r: Result<(), String>)
    ensures
        complaint(r) == runtime_complaint(*m, uid),
{
    if m.kind == FileKind::Directory && m.uid == uid && m.mode & 0o077 == 0 {
        Ok(())
    } else {
        Err("The shared host user runtime is unavailable or not private".to_owned())
    }
}

/// How the host describes the private directory that it shares with the box.
pub open spec fn shared_directory(m: Metadata, uid: u32) -> Seq<char> {
    text::decimal(m.dev as nat) + ":"@ + text::decimal(m.ino as nat) + ":"@ + text::decimal(
        uid as nat,
    ) + ":700"@
}

/// Whether the host sees the directory that the box made: whether its command succeeded, and what it
/// printed.
fn check_shared(m: &Metadata, uid: u32, succeeded: bool, printed: &str) -> (r: Result<
    (),
    String,
>)
    ensures
        outcome(r) == if succeeded && text::trimmed(printed@) == shared_directory(*m, uid) {
            Ok(())
        } else {
            Err("The host and box do not share the same private staging directory"@)
        },
{
    let mut expected = text::format_u64(m.dev);
    expected.append(":");
    expected.append(text::format_u64(m.ino).as_str());
    expected.append(":");
    expected.append(text::format_u64(uid as u64).as_str());
    expected.append(":700");
    if succeeded && text::eq(text::trim(printed).as_str(), expected.as_str()) {
        Ok(())
    } else {
        Err("The host and box do not share the same private staging directory".to_owned())
    }
}

/// Whether the host can run the helper: whether it did, and what it printed.
fn check_version(succeeded: bool, printed: &str, errors: &str, version: &str) -> (r: Result<
    (),
    String,
>)
    ensures
        outcome(r) == if succeeded && text::trimmed(printed@) == "lianli-control "@ + version@ {
            Ok(())
        } else {
            Err(
                "The host cannot run the bundled control helper. Install a host-compatible helper before setting up services. "@
                    + text::trimmed(errors@),
            )
        },
{
    let mut expected = "lianli-control ".to_owned();
    expected.append(version);
    if succeeded && text::eq(text::trim(printed).as_str(), expected.as_str()) {
        return Ok(());
    }
    let mut e =
        "The host cannot run the bundled control helper. Install a host-compatible helper before setting up services. ".to_owned();
    e.append(text::trim(errors).as_str());
    Err(e)
}

pub open spec fn authorization_of(
    script: Seq<char>,
    uid: u32,
    digest: Seq<char>,
    binary: Seq<char>,
    request: Seq<char>,
    action: Seq<char>,
) -> Seq<Seq<char>> {
    seq![
        "--disable-internal-agent"@,
        "/usr/bin/sh"@,
        "-c"@,
        script,
        "lianli-host-setup"@,
        text::decimal(uid as nat),
        digest,
        binary,
        request,
        action,
    ]
}

/// The arguments that ask the host's administrator to run the setup script on exactly the helper
/// that was staged.
fn authorize(
    script: &str,
    uid: u32,
    digest: &str,
    binary: &str,
    request: &str,
    action: &str,
) -> (r: Vec<String>)
    ensures
        texts(r@) == authorization_of(script@, uid, digest@, binary@, request@, action@),
{
    let mut r: Vec<String> = Vec::new();
    r.push("--disable-internal-agent".to_owned());
    r.push("/usr/bin/sh".to_owned());
    r.push("-c".to_owned());
    r.push(script.to_owned());
    r.push("lianli-host-setup".to_owned());
    r.push(text::format_u64(uid as u64));
    r.push(digest.to_owned());
    r.push(binary.to_owned());
    r.push(request.to_owned());
    r.push(action.to_owned());
    assert(texts(r@) =~= authorization_of(script@, uid, digest@, binary@, request@, action@));
    r
}

/// Setup begins in a box.
pub open spec fn box_complaint(context: InstallationContext) -> Option<Seq<char>> {
    if context is Distrobox {
        None
    } else {
        Some("Bootstrap host support from the selected Distrobox"@)
    }
}

fn check_box(context: &InstallationContext) -> (r: Result<(), String>)
    ensures
        complaint(r) == box_complaint(*context),
{
    match context {
        InstallationContext::Distrobox { .. } => Ok(()),
        _ => Err("Bootstrap host support from the selected Distrobox".to_owned()),
    }
}

/// What speaks against the directory that the box made.
pub open spec fn sharing_complaint(m: Metadata, uid: u32, host: Result<Output, String>) -> Option<
    Seq<char>,
> {
    match host {
        Err(e) => Some(e@),
        Ok(o) => if o.code == Some(0i32) && text::trimmed(o.stdout@) == shared_directory(m, uid) {
            None
        } else {
            Some("The host and box do not share the same private staging directory"@)
        },
    }
}

fn check_host_directory(m: &Metadata, uid: u32, host: &Result<Output, String>) -> (r: Result<(), String>)
    ensures
        complaint(r) == sharing_complaint(*m, uid, *host),
{
    match host {
        Err(e) => Err(e.clone()),
        Ok(o) => check_shared(m, uid, o.success(), o.stdout.as_str()),
    }
}

/// What speaks against the helper that the host ran.
pub open spec fn version_complaint(output: Result<Output, String>, version: Seq<char>) -> Option<
    Seq<char>,
> {
    match output {
        Err(e) => Some(e@),
        Ok(o) => if o.code == Some(0i32) && text::trimmed(o.stdout@) == "lianli-control "@ + version {
            None
        } else {
            Some(
                "The host cannot run the bundled control helper. Install a host-compatible helper before setting up services. "@
                    + text::trimmed(o.stderr@),
            )
        },
    }
}

fn check_host_version(output: &Result<Output, String>, version: &str) -> (r: Result<(), String>)
    ensures
        complaint(r) == version_complaint(*output, version@),
{
    match output {
        Err(e) => Err(e.clone()),
        Ok(o) => check_version(o.success(), o.stdout.as_str(), o.stderr.as_str(), version),
    }
}

/// What speaks against the authorized setup.
pub open spec fn setup_complaint(output: Result<Output, String>) -> Option<Seq<char>> {
    match output {
        Err(e) => Some(
            "Host setup was not confirmed. Recheck installation before retrying: "@ + e@,
        ),
        Ok(o) => if o.code == Some(0i32) {
            None
        } else {
            Some("Host setup failed: "@ + text::trimmed(o.stderr@))
        },
    }
}

fn check_setup(output: &Result<Output, String>) -> (r: Result<(), String>)
    ensures
        complaint(r) == setup_complaint(*output),
{
    match output {
        Err(e) => {
            let mut text =
                "Host setup was not confirmed. Recheck installation before retrying: ".to_owned();
            text.append(e.as_str());
            Err(text)
        },
        Ok(o) => {
            if o.success() {
                return Ok(());
            }
            let mut text = "Host setup failed: ".to_owned();
            text.append(text::trim(o.stderr.as_str()).as_str());
            Err(text)
        },
    }
}

/// What asking the host's administrator for setup does next.
#[derive(Clone, Copy, Debug, PartialEq, Eq, Structural)]
pub enum AuthorizeStep {
    CheckBox,
    CheckRequest,
    FindRoute,
    CheckRuntime,
    MakeDirectory,
    CheckShared,
    Stage,
    CheckVersion,
    Authorize,
    Authorized,
    Failed,
}

pub open spec fn authorize_rank(step: AuthorizeStep) -> int {
    match step {
        AuthorizeStep::CheckBox => 0,
        AuthorizeStep::CheckRequest => 1,
        AuthorizeStep::FindRoute => 2,
        AuthorizeStep::CheckRuntime => 3,
        AuthorizeStep::MakeDirectory => 4,
        AuthorizeStep::CheckShared => 5,
        AuthorizeStep::Stage => 6,
        AuthorizeStep::CheckVersion => 7,
        AuthorizeStep::Authorize => 8,
        AuthorizeStep::Authorized => 9,
        AuthorizeStep::Failed => 10,
    }
}

/// A request for the host's authorization under way.
pub struct Authorization {
    pub uid: u32,
    /// The directory that holds the helper to stage.
    pub binaries: String,
    /// The text that the setup script is given.
    pub request: String,
    pub action: String,
    /// The fingerprint of the helper that was staged.
    pub digest: String,
    pub step: AuthorizeStep,
    pub error: String,
    /// The steps that succeeded, in order.
    pub log: Ghost<Seq<AuthorizeStep>>,
}

pub open spec fn authorize_stops(before: Authorization, after: Authorization, text: Seq<char>) -> bool {
    after == (Authorization { step: AuthorizeStep::Failed, error: after.error, ..before })
        && after.error@ == text
}

pub open spec fn authorize_moves(before: Authorization, after: Authorization, next: AuthorizeStep) -> bool {
    after == (Authorization { step: next, log: Ghost(before.log@.push(before.step)), ..before })
}

impl Authorization {
    /// Every step before the present one succeeded.
    pub open spec fn wf(self) -> bool {
        self.step != AuthorizeStep::Failed ==> forall|s: AuthorizeStep|
            authorize_rank(s) < authorize_rank(self.step) ==> #[trigger] self.log@.contains(s)
    }

    pub fn begin(uid: u32, binaries: &str, request: &str, action: &str) -> (r: Authorization)
        ensures
            r.wf(),
            r.uid == uid,
            r.binaries@ == binaries@,
            r.request@ == request@,
            r.action@ == action@,
            r.step == AuthorizeStep::CheckBox,
            r.log@ == Seq::<AuthorizeStep>::empty(),
            r.digest@.len() == 0,
    {
        Authorization {
            uid,
            binaries: binaries.to_owned(),
            request: request.to_owned(),
            action: action.to_owned(),
            digest: String::new(),
            step: AuthorizeStep::CheckBox,
            error: String::new(),
            log: Ghost(Seq::empty()),
        }
    }

    fn advance(&mut self, next: AuthorizeStep)
        requires
            (Authorization {
                step: next,
                log: Ghost(old(self).log@.push(old(self).step)),
                ..*old(self)
            }).wf(),
        ensures
            final(self).wf(),
            authorize_moves(*old(self), *final(self), next),
    {
        self.log = Ghost(self.log@.push(self.step));
        self.step = next;
    }

    /// The helper to stage.
    pub fn source(&self) -> (r: String)
        ensures
            r@ == path::join_of(self.binaries@, "lianli-control"@),
    {
        path::join(self.binaries.as_str(), "lianli-control")
    }

    /// A step could not be done.
    pub fn failed(&mut self, reason: &str)
        ensures
            final(self).wf(),
            authorize_stops(*old(self), *final(self), reason@),
    {
        self.step = AuthorizeStep::Failed;
        self.error = reason.to_owned();
    }

    /// Where this program runs.
    pub fn context(&mut self, context: &InstallationContext)
        requires
            old(self).wf(),
            old(self).step == AuthorizeStep::CheckBox,
        ensures
            final(self).wf(),
            match box_complaint(*context) {
                Some(e) => authorize_stops(*old(self), *final(self), e),
                None => authorize_moves(*old(self), *final(self), AuthorizeStep::CheckRequest),
            },
    {
        match check_box(context) {
            Err(e) => {
                self.failed(e.as_str());
            },
            Ok(_) => {
                proof {
                    steps::push_holds(self.log@, self.step);
                }
                self.advance(AuthorizeStep::CheckRequest);
            },
        }
    }

    /// Whether the request may be made.
    pub fn check_request(&mut self)
        requires
            old(self).wf(),
            old(self).step == AuthorizeStep::CheckRequest,
        ensures
            final(self).wf(),
            match request_complaint(old(self).uid, old(self).request@) {
                Some(e) => authorize_stops(*old(self), *final(self), e),
                None => authorize_moves(*old(self), *final(self), AuthorizeStep::FindRoute),
            },
    {
        match check_request(self.uid, self.request.as_str()) {
            Err(e) => {
                self.failed(e.as_str());
            },
            Ok(_) => {
                proof {
                    steps::push_holds(self.log@, self.step);
                }
                self.advance(AuthorizeStep::FindRoute);
            },
        }
    }

    /// The way to the host was found.
    pub fn routed(&mut self)
        requires
            old(self).wf(),
            old(self).step == AuthorizeStep::FindRoute,
        ensures
            final(self).wf(),
            authorize_moves(*old(self), *final(self), AuthorizeStep::CheckRuntime),
    {
        proof {
            steps::push_holds(self.log@, self.step);
        }
        self.advance(AuthorizeStep::CheckRuntime);
    }

    /// The user's runtime directory that the host shares.
    pub fn runtime(&mut self, found: &Metadata)
        requires
            old(self).wf(),
            old(self).step == AuthorizeStep::CheckRuntime,
        ensures
            final(self).wf(),
            match runtime_complaint(*found, old(self).uid) {
                Some(e) => authorize_stops(*old(self), *final(self), e),
                None => authorize_moves(*old(self), *final(self), AuthorizeStep::MakeDirectory),
            },
    {
        match check_runtime(found, self.uid) {
            Err(e) => {
                self.failed(e.as_str());
            },
            Ok(_) => {
                proof {
                    steps::push_holds(self.log@, self.step);
                }
                self.advance(AuthorizeStep::MakeDirectory);
            },
        }
    }

    /// A private directory was made there.
    pub fn made(&mut self)
        requires
            old(self).wf(),
            old(self).step == AuthorizeStep::MakeDirectory,
        ensures
            final(self).wf(),
            authorize_moves(*old(self), *final(self), AuthorizeStep::CheckShared),
    {
        proof {
            steps::push_holds(self.log@, self.step);
        }
        self.advance(AuthorizeStep::CheckShared);
    }

    /// The directory that was made, and how the host describes it.
    pub fn shared(&mut self, found: &Metadata, host: &Result<Output, String>)
        requires
            old(self).wf(),
            old(self).step == AuthorizeStep::CheckShared,
        ensures
            final(self).wf(),
            match sharing_complaint(*found, old(self).uid, *host) {
                Some(e) => authorize_stops(*old(self), *final(self), e),
                None => authorize_moves(*old(self), *final(self), AuthorizeStep::Stage),
            },
    {
        match check_host_directory(found, self.uid, host) {
            Err(e) => {
                self.failed(e.as_str());
            },
            Ok(_) => {
                proof {
                    steps::push_holds(self.log@, self.step);
                }
                self.advance(AuthorizeStep::Stage);
            },
        }
    }

    /// `Stage`: the helper as it was copied there, where that could be done, and whether the copy was
    /// made durable.
    pub fn staged(&mut self, staging: Result<Staging, String>, synced: Result<(), String>)
        requires
            old(self).wf(),
            old(self).step == AuthorizeStep::Stage,
            staging matches Ok(staging) ==> staging.wf(),
        ensures
            final(self).wf(),
            match staging {
                Err(e) => authorize_stops(*old(self), *final(self), e@),
                Ok(staging) => if staging.bytes().len() < 4 {
                    authorize_stops(
                        *old(self),
                        *final(self),
                        "The bundled host helper is empty"@,
                    )
                } else {
                    match synced {
                        Err(e) => authorize_stops(*old(self), *final(self), e@),
                        Ok(_) => final(self).digest@ == digest::fingerprint(staging.bytes())
                            && authorize_moves(
                            (Authorization { digest: final(self).digest, ..*old(self) }),
                            *final(self),
                            AuthorizeStep::CheckVersion,
                        ),
                    }
                },
            },
    {
        let finished = match staging {
            Err(e) => Err(e),
            Ok(staging) => staging.finish(),
        };
        match finished {
            Err(e) => {
                self.failed(e.as_str());
            },
            Ok(digest) => match synced {
                Err(e) => {
                    self.failed(e.as_str());
                },
                Ok(_) => {
                    proof {
                        steps::push_holds(self.log@, self.step);
                    }
                    self.digest = digest;
                    self.advance(AuthorizeStep::CheckVersion);
                },
            },
        }
    }

    /// What the helper printed of its version when the host ran it.
    pub fn version(&mut self, output: &Result<Output, String>, version: &str)
        requires
            old(self).wf(),
            old(self).step == AuthorizeStep::CheckVersion,
        ensures
            final(self).wf(),
            match version_complaint(*output, version@) {
                Some(e) => authorize_stops(*old(self), *final(self), e),
                None => authorize_moves(*old(self), *final(self), AuthorizeStep::Authorize),
            },
    {
        match check_host_version(output, version) {
            Err(e) => {
                self.failed(e.as_str());
            },
            Ok(_) => {
                proof {
                    steps::push_holds(self.log@, self.step);
                }
                self.advance(AuthorizeStep::Authorize);
            },
        }
    }

    /// The arguments that ask the administrator to run the setup script on exactly the helper that was
    /// staged.
    pub fn arguments(&self, script: &str, binary: &str) -> (r: Vec<String>)
        requires
            self.wf(),
            self.step == AuthorizeStep::Authorize,
        ensures
            texts(r@) == authorization_of(
                script@,
                self.uid,
                self.digest@,
                binary@,
                self.request@,
                self.action@,
            ),
    {
        authorize(
            script,
            self.uid,
            self.digest.as_str(),
            binary,
            self.request.as_str(),
            self.action.as_str(),
        )
    }

    /// What came of the authorized setup.
    pub fn authorized(&mut self, output: &Result<Output, String>)
        requires
            old(self).wf(),
            old(self).step == AuthorizeStep::Authorize,
        ensures
            final(self).wf(),
            match setup_complaint(*output) {
                Some(e) => authorize_stops(*old(self), *final(self), e),
                None => authorize_moves(*old(self), *final(self), AuthorizeStep::Authorized),
            },
    {
        match check_setup(output) {
            Err(e) => {
                self.failed(e.as_str());
            },
            Ok(_) => {
                proof {
                    steps::push_holds(self.log@, self.step);
                }
                self.advance(AuthorizeStep::Authorized);
            },
        }
    }
}

/// The administrator is asked only for a request that may be made, after the staged helper was found in
/// a directory that the host shares and ran there.
pub proof fn administrators_are_asked_last(m: Authorization)
    requires
        m.wf(),
        m.step == AuthorizeStep::Authorize,
    ensures
        m.log@.contains(AuthorizeStep::CheckRequest),
        m.log@.contains(AuthorizeStep::CheckRuntime),
        m.log@.contains(AuthorizeStep::CheckShared),
        m.log@.contains(AuthorizeStep::Stage),
        m.log@.contains(AuthorizeStep::CheckVersion),
{
}

/// The staging directory as the host sees it.
pub open spec fn host_directory_of(uid: u32, name: Seq<char>) -> Seq<char> {
    account::runtime_of(uid) + "/"@ + name
}

pub fn host_directory(uid: u32, name: &str) -> (r: String)
    ensures
        r@ == host_directory_of(uid, name@),
{
    let mut r = account::runtime_directory(uid);
    r.append("/");
    r.append(name);
    r
}

/// The arguments for what the host sees in place of the staging directory.
pub open spec fn shared_arguments_of(uid: u32, name: Seq<char>) -> Seq<Seq<char>> {
    seq![
        "-Lc"@,
        "%d:%i:%u:%a"@,
        "--"@,
        host_directory_of(uid, name),
    ]
}

pub fn shared_arguments(uid: u32, name: &str) -> (r: Vec<String>)
    ensures
        texts(r@) == shared_arguments_of(uid, name@),
{
    let mut r: Vec<String> = Vec::new();
    r.push("-Lc".to_owned());
    r.push("%d:%i:%u:%a".to_owned());
    r.push("--".to_owned());
    r.push(host_directory(uid, name));
    assert(texts(r@) =~= shared_arguments_of(uid, name@));
    r
}

/// A deployment that was found is used, one that may not be read is repaired once, and nothing else
/// goes on.
pub proof fn denied_deployments_are_repaired_once(lookup: Lookup, repaired: bool)
    ensures
        after_lookup_of(lookup, repaired) == Ok::<AfterLookup, Seq<char>>(AfterLookup::Use)
            <==> lookup is Found,
        after_lookup_of(lookup, repaired) == Ok::<AfterLookup, Seq<char>>(AfterLookup::Repair)
            <==> lookup is Denied && !repaired,
        after_lookup_of(lookup, repaired) is Err <==> lookup is Failed || (lookup is Denied
            && repaired),
{
}

/// The host's account is the box's exactly where both questions succeeded and the number is the same.
pub proof fn owners_have_the_same_number(uid: Output, owner: Output, account: Account)
    ensures
        is_same_owner(uid, owner, account) <==> uid.code == Some(0i32) && owner.code == Some(0i32)
            && text::trimmed(uid.stdout@) == text::decimal(account.uid as nat),
{
}

/// A user's configuration lies in the directory of configurations where an absolute one is named, and
/// below the home otherwise.
pub proof fn default_configurations_follow_the_environment(
    config_home: Option<Seq<char>>,
    home: Seq<char>,
)
    ensures
        config_home is Some && path::is_absolute(config_home->0) ==> default_config(config_home, home)
            == path::join_of(config_home->0, "lianli/config.json"@),
        !(config_home is Some && path::is_absolute(config_home->0)) ==> default_config(
            config_home,
            home,
        ) == path::join_of(path::join_of(home, ".config"@), "lianli/config.json"@),
{
}

/// Host setup may be asked for exactly by the unprivileged owner of a valid deployment of this box,
/// with a request of bounded size.
pub proof fn owners_ask_for_setup(
    d: Deployment,
    names: ConfigNames,
    uid: u32,
    name: Seq<char>,
    request: Seq<char>,
)
    ensures
        install_complaint(d, names, uid, name) is None <==> deployment_complaint(d, names) is None
            && uid != 0 && d.owner_uid == uid && d.route.launch.name@ == name,
        request_complaint(uid, request) is None <==> uid != 0 && text::byte_len(request) <= 32_768,
{
}

/// The staging directory is shared exactly where the host sees the same private directory, and the
/// helper in it runs exactly where the host could run it and it gave its name and version.
pub proof fn hosts_share_the_staging_directory(
    m: Metadata,
    uid: u32,
    output: Result<Output, String>,
    version: Seq<char>,
)
    ensures
        runtime_complaint(m, uid) is None <==> m.kind == FileKind::Directory && m.uid == uid && m.mode
            & 0o077 == 0,
        sharing_complaint(m, uid, output) is None <==> output is Ok && output->Ok_0.code == Some(0i32)
            && text::trimmed(output->Ok_0.stdout@) == text::decimal(m.dev as nat) + ":"@
            + text::decimal(m.ino as nat) + ":"@ + text::decimal(uid as nat) + ":700"@,
        version_complaint(output, version) is None <==> output is Ok && output->Ok_0.code
            == Some(0i32) && text::trimmed(output->Ok_0.stdout@) == "lianli-control "@ + version,
        setup_complaint(output) is None <==> output is Ok && output->Ok_0.code == Some(0i32),
{
}

/// The administrator is asked to run the script for this account, with the digest of the staged helper
/// and the request, each in its own place.
pub proof fn administrators_are_told_the_request(
    script: Seq<char>,
    uid: u32,
    digest: Seq<char>,
    binary: Seq<char>,
    request: Seq<char>,
    action: Seq<char>,
)
    ensures
        ({
            let told = authorization_of(script, uid, digest, binary, request, action);
            &&& told[3] == script
            &&& told[5] == text::decimal(uid as nat)
            &&& told[6] == digest
            &&& told[7] == binary
            &&& told[8] == request
            &&& told[9] == action
            &&& told.len() == 10
        }),
{
}

/// A proposed deployment is the account's: both modes work in its home, the system's settings lie below
/// it, and the user's are the chosen ones where there was a choice.
pub proof fn proposals_belong_to_the_account(
    d: Deployment,
    name: Seq<char>,
    account: Account,
    owner: Seq<char>,
    user_config: Option<String>,
    config_home: Option<&str>,
    binaries: Seq<char>,
)
    requires
        is_proposed(d, name, account, owner, user_config, config_home, binaries),
    ensures
        d.owner_uid == account.uid,
        d.owner_name@ == text::trimmed(owner),
        d.route.launch.name@ == name,
        d.route.launch.binaries@ == binaries,
        d.route.launch.host_enter@ == "/usr/bin/distrobox-enter"@,
        d.route.user_working_directory@ == account.home@,
        d.route.system_working_directory@ == account.home@,
        d.route.system_config@ == path::join_of(
            account.home@,
            ".local/share/lianli-system/config.json"@,
        ),
        user_config is Some ==> d.route.user_config@ == user_config->0@,
        user_config is None && config_home is None ==> d.route.user_config@ == default_config(
            None,
            account.home@,
        ),
        user_config is None && config_home is Some ==> d.route.user_config@ == default_config(
            Some(config_home->0@),
            account.home@,
        ),
{
}

/// A helper is executable by the four bytes that every such file begins with, whatever follows them.
pub proof fn programs_begin_with_their_mark(bytes: Seq<u8>, more: Seq<u8>)
    ensures
        is_elf(seq![0x7fu8, 0x45u8, 0x4cu8, 0x46u8] + more),
        is_elf(bytes) ==> bytes =~= seq![0x7fu8, 0x45u8, 0x4cu8, 0x46u8] + bytes.skip(4),
{
}

/// Host support is set up from any box, and from nowhere else.
pub proof fn host_support_is_set_up_from_a_box(context: InstallationContext, name: String)
    ensures
        box_complaint(InstallationContext::Distrobox { name }) is None,
        box_complaint(context) is None <==> context is Distrobox,
{
}

} // verus!
