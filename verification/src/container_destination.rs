//! Daemons that keep their state inside a box: how their helpers are launched, which box, account
//! and directories they belong to, and what an answer from the box must agree with.

use crate::account::Account;
use crate::command::{output_complaint, Output};
use crate::destination::Destination;
use crate::destination::check_output;
use crate::digest;
use crate::distrobox_unit;
use crate::files::{FileKind, Metadata};
use crate::path;
use crate::services::{same_optional, FileIdentity, InstallationContext, ServiceScope};
use crate::text;
use crate::text::{outcome, texts};
use vstd::prelude::*;

verus! {

/// The longest path to a destination, in bytes.
pub const MAX_PATH: usize = 4096;

/// The most metadata that a worker accepts about its destination, in bytes.
pub const MAX_METADATA: usize = 16_384;

/// How a box is entered from the host, and where the programs lie inside.
#[derive(Clone, Debug)]
pub struct Launch {
    pub name: String,
    pub host_enter: String,
    pub binaries: String,
}

/// The state that a helper inside a box may work on.
#[derive(Clone, Debug)]
pub struct Identity {
    pub name: String,
    pub scope: ServiceScope,
    pub uid: u32,
    pub gid: u32,
    pub groups_fingerprint: String,
    pub mount_namespace: FileIdentity,
    pub state_directory: FileIdentity,
    pub config_path: String,
    pub working_directory: String,
}

/// A verified destination, with the way into its box.
#[derive(Clone, Debug)]
pub struct Execution {
    pub launch: Launch,
    pub destination: Identity,
}

/// The destinations of both service modes in one box.
#[derive(Clone, Debug)]
pub struct Route {
    pub launch: Launch,
    pub user_config: String,
    pub system_config: String,
    pub user_working_directory: String,
    pub system_working_directory: String,
}

/// What the rules on configuration file names say of each mode's configuration.
pub struct ConfigNames {
    pub user: Result<(), String>,
    pub system: Result<(), String>,
}

/// The error of a check, where it found one.
pub open spec fn complaint(r: Result<(), String>) -> Option<Seq<char>> {
    match r {
        Ok(_) => None,
        Err(e) => Some(e@),
    }
}

fn copy_check(r: &Result<(), String>) -> (c: Result<(), String>)
    ensures
        complaint(c) == complaint(*r),
{
    match r {
        Ok(_) => Ok(()),
        Err(e) => Err(e.clone()),
    }
}

/// A path that a destination may have: absolute, of bounded length, and leading only downwards.
pub open spec fn is_destination_path(p: Seq<char>) -> bool {
    path::is_absolute(p) && text::byte_len(p) <= MAX_PATH && path::descends(path::components_of(p))
}

pub open spec fn path_complaint(p: Seq<char>) -> Option<Seq<char>> {
    if is_destination_path(p) {
        None
    } else {
        Some("Container destination paths must be absolute and contain no parent components"@)
    }
}

pub fn absolute(p: &str) -> (r: Result<(), String>)
    ensures
        complaint(r) == path_complaint(p@),
{
    if path::absolute(p) && text::len(p) <= MAX_PATH && path::descending(p) {
        Ok(())
    } else {
        Err(
            "Container destination paths must be absolute and contain no parent components".to_owned(),
        )
    }
}

/// What speaks against a configuration path, where `name` says what the rules on configuration file
/// names hold of its last component.
pub open spec fn config_complaint(p: Seq<char>, name: Result<(), String>) -> Option<Seq<char>> {
    if !is_destination_path(p) {
        path_complaint(p)
    } else if path::file_name_of(p) is None {
        Some("Configuration must have a UTF-8 filename"@)
    } else {
        complaint(name)
    }
}

pub fn validate_config(p: &str, name: &Result<(), String>) -> (r: Result<(), String>)
    ensures
        complaint(r) == config_complaint(p@, *name),
{
    absolute(p)?;
    if path::file_name(p).is_none() {
        return Err("Configuration must have a UTF-8 filename".to_owned());
    }
    copy_check(name)
}

pub open spec fn launch_complaint(launch: Launch) -> Option<Seq<char>> {
    if !distrobox_unit::is_name(launch.name@) {
        Some("Invalid Distrobox destination name"@)
    } else if !is_destination_path(launch.host_enter@) || !is_destination_path(launch.binaries@) {
        Some("Container destination paths must be absolute and contain no parent components"@)
    } else if path::file_name_of(launch.host_enter@) != Some("distrobox-enter"@) {
        Some("Select the host distrobox-enter executable"@)
    } else {
        None
    }
}

/// Whether two ways into a box are the same.
pub open spec fn same_launch(a: Launch, b: Launch) -> bool {
    a.name@ == b.name@ && path::same_path(a.host_enter@, b.host_enter@) && path::same_path(
        a.binaries@,
        b.binaries@,
    )
}

/// The arguments that run a helper inside a box.
pub open spec fn launch_arguments(
    launch: Launch,
    destination: Option<Seq<char>>,
    args: Seq<Seq<char>>,
) -> Seq<Seq<char>> {
    let head = seq![
        "box-worker"@,
        "--box"@,
        launch.name@,
        "--distrobox-enter"@,
        launch.host_enter@,
        "--binaries"@,
        launch.binaries@,
    ];
    match destination {
        Some(encoded) => head + seq!["--destination"@, encoded] + seq!["--"@] + args,
        None => head + seq!["--"@] + args,
    }
}

impl Launch {
    pub fn validate(&self) -> (r: Result<(), String>)
        ensures
            complaint(r) == launch_complaint(*self),
    {
        if !distrobox_unit::valid_name(self.name.as_str()) {
            return Err("Invalid Distrobox destination name".to_owned());
        }
        absolute(self.host_enter.as_str())?;
        absolute(self.binaries.as_str())?;
        let named = match path::file_name(self.host_enter.as_str()) {
            Some(n) => text::eq(n.as_str(), "distrobox-enter"),
            None => false,
        };
        if !named {
            return Err("Select the host distrobox-enter executable".to_owned());
        }
        Ok(())
    }

    pub fn same(&self, other: &Launch) -> (r: bool)
        ensures
            r == same_launch(*self, *other),
    {
        text::eq(self.name.as_str(), other.name.as_str()) && path::same(
            self.host_enter.as_str(),
            other.host_enter.as_str(),
        ) && path::same(self.binaries.as_str(), other.binaries.as_str())
    }

    pub fn copy(&self) -> (r: Launch)
        ensures
            r == *self,
    {
        Launch {
            name: self.name.clone(),
            host_enter: self.host_enter.clone(),
            binaries: self.binaries.clone(),
        }
    }

    fn head(&self) -> (r: Vec<String>)
        ensures
            texts(r@) == seq![
                "box-worker"@,
                "--box"@,
                self.name@,
                "--distrobox-enter"@,
                self.host_enter@,
                "--binaries"@,
                self.binaries@,
            ],
    {
        let mut r: Vec<String> = Vec::new();
        r.push("box-worker".to_owned());
        r.push("--box".to_owned());
        r.push(self.name.clone());
        r.push("--distrobox-enter".to_owned());
        r.push(self.host_enter.clone());
        r.push("--binaries".to_owned());
        r.push(self.binaries.clone());
        assert(texts(r@) =~= seq![
            "box-worker"@,
            "--box"@,
            self.name@,
            "--distrobox-enter"@,
            self.host_enter@,
            "--binaries"@,
            self.binaries@,
        ]);
        r
    }

    /// The arguments that run a helper inside the box without a destination.
    pub fn entry_arguments(&self, args: &Vec<String>) -> (r: Result<Vec<String>, String>)
        ensures
            match r {
                Ok(v) => launch_complaint(*self) is None && texts(v@) == launch_arguments(
                    *self,
                    None,
                    texts(args@),
                ),
                Err(e) => launch_complaint(*self) == Some(e@),
            },
    {
        self.validate()?;
        let mut r = self.head();
        let ghost head = texts(r@);
        r.push("--".to_owned());
        assert(texts(r@) =~= head + seq!["--"@]);
        append_all(&mut r, args);
        Ok(r)
    }

    /// The arguments that run a helper inside the box on a destination, which `encoded` hands to it.
    /// `name` says what the rules on configuration file names hold of the destination's.
    pub fn arguments(
        &self,
        destination: &Identity,
        encoded: &str,
        name: &Result<(), String>,
        args: &Vec<String>,
    ) -> (r: Result<Vec<String>, String>)
        ensures
            match r {
                Ok(v) => worker_complaint(*self, *destination, *name) is None && texts(v@)
                    == launch_arguments(*self, Some(encoded@), texts(args@)),
                Err(e) => worker_complaint(*self, *destination, *name) == Some(e@),
            },
    {
        self.validate()?;
        destination.validate(name)?;
        if !text::eq(destination.name.as_str(), self.name.as_str()) {
            return Err("Worker destination belongs to another box".to_owned());
        }
        let mut r = self.head();
        let ghost head = texts(r@);
        r.push("--destination".to_owned());
        r.push(encoded.to_owned());
        assert(texts(r@) =~= head + seq!["--destination"@, encoded@]);
        let ghost middle = texts(r@);
        r.push("--".to_owned());
        assert(texts(r@) =~= middle + seq!["--"@]);
        append_all(&mut r, args);
        Ok(r)
    }
}

fn append_all(r: &mut Vec<String>, args: &Vec<String>)
    ensures
        texts(final(r)@) == texts(old(r)@) + texts(args@),
{
    let ghost before = texts(r@);
    let mut i: usize = 0;
    assert(before =~= before + texts(args@).take(0));
    while i < args.len()
        invariant
            i <= args@.len(),
            texts(r@) == before + texts(args@).take(i as int),
        decreases args@.len() - i,
    {
        proof {
            text::texts_push(r@, args@[i as int]);
            assert(texts(args@).take(i + 1) =~= texts(args@).take(i as int).push(
                args@[i as int]@,
            ));
        }
        r.push(args[i].clone());
        i += 1;
        assert(texts(r@) =~= before + texts(args@).take(i as int));
    }
    assert(texts(args@).take(i as int) =~= texts(args@));
}

/// What speaks against handing a destination to a helper in a box.
pub open spec fn worker_complaint(
    launch: Launch,
    destination: Identity,
    name: Result<(), String>,
) -> Option<Seq<char>> {
    match launch_complaint(launch) {
        Some(e) => Some(e),
        None => match identity_complaint(destination, name) {
            Some(e) => Some(e),
            None => if destination.name@ != launch.name@ {
                Some("Worker destination belongs to another box"@)
            } else {
                None
            },
        },
    }
}

/// Decimal numbers of a file that exists.
pub open spec fn is_file_number(i: FileIdentity) -> bool {
    text::parsed(i.device@, 10, u64::MAX as nat) is Some && text::parsed(
        i.inode@,
        10,
        u64::MAX as nat,
    ) is Some
}

fn numbered(i: &FileIdentity) -> (r: bool)
    ensures
        r == is_file_number(*i),
{
    text::parse_u64(i.device.as_str()).is_some() && text::parse_u64(i.inode.as_str()).is_some()
}

pub open spec fn identity_complaint(identity: Identity, name: Result<(), String>) -> Option<
    Seq<char>,
> {
    if !distrobox_unit::is_name(identity.name@) || identity.uid == 0 {
        Some("Container state workers require a named box and unprivileged account"@)
    } else if config_complaint(identity.config_path@, name) is Some {
        config_complaint(identity.config_path@, name)
    } else if !is_destination_path(identity.working_directory@) {
        path_complaint(identity.working_directory@)
    } else if !text::hex_of_len(identity.groups_fingerprint@, 64) {
        Some("Invalid container credential fingerprint"@)
    } else if !is_file_number(identity.mount_namespace) || !is_file_number(
        identity.state_directory,
    ) {
        Some("Invalid container filesystem identity"@)
    } else {
        None
    }
}

/// Whether a report speaks of exactly this destination.
pub open spec fn matching(identity: Identity, destination: Destination) -> bool {
    &&& identity.scope == destination.scope
    &&& identity.uid == destination.uid
    &&& identity.gid == destination.gid
    &&& identity.groups_fingerprint@ == destination.groups_fingerprint@
    &&& identity.mount_namespace@ == destination.mount_namespace@
    &&& destination.state_directory matches Some(directory)
    &&& directory@ == identity.state_directory@
    &&& path::same_path(identity.config_path@, destination.config_path@)
    &&& path::same_path(identity.working_directory@, destination.working_directory@)
}

/// The identity of a file by its metadata.
pub open spec fn file_of(m: Metadata) -> (Seq<char>, Seq<char>) {
    (text::decimal(m.dev as nat), text::decimal(m.ino as nat))
}

pub fn identify(m: &Metadata) -> (r: FileIdentity)
    ensures
        r@ == file_of(*m),
{
    FileIdentity { device: text::format_u64(m.dev), inode: text::format_u64(m.ino) }
}

/// What speaks against working on a destination now: the account of this process, the directory of
/// the configuration, and the mount namespace.
pub open spec fn verify_complaint(
    identity: Identity,
    name: Result<(), String>,
    account: Account,
    directory: Metadata,
    namespace: FileIdentity,
) -> Option<Seq<char>> {
    if identity_complaint(identity, name) is Some {
        identity_complaint(identity, name)
    } else if !(directory.kind == FileKind::Directory && directory.uid == identity.uid
        && directory.mode & 0o022 == 0 && identity.state_directory@ == file_of(directory)) {
        Some("The container state directory changed after preflight"@)
    } else if !(identity.uid == account.uid && identity.gid == account.gid
        && identity.groups_fingerprint@ == digest::fingerprint(digest::le32s(account.groups@))
        && identity.mount_namespace@ == namespace@) {
        Some(
            "The container worker's credentials or filesystem namespace changed after preflight"@,
        )
    } else {
        None
    }
}

impl Identity {
    pub fn validate(&self, name: &Result<(), String>) -> (r: Result<(), String>)
        ensures
            complaint(r) == identity_complaint(*self, *name),
    {
        if !distrobox_unit::valid_name(self.name.as_str()) || self.uid == 0 {
            return Err(
                "Container state workers require a named box and unprivileged account".to_owned(),
            );
        }
        validate_config(self.config_path.as_str(), name)?;
        absolute(self.working_directory.as_str())?;
        if !text::is_hex_of_len(self.groups_fingerprint.as_str(), 64) {
            return Err("Invalid container credential fingerprint".to_owned());
        }
        if !numbered(&self.mount_namespace) || !numbered(&self.state_directory) {
            return Err("Invalid container filesystem identity".to_owned());
        }
        Ok(())
    }

    pub fn matches(&self, destination: &Destination) -> (r: bool)
        ensures
            r == matching(*self, *destination),
    {
        let directory = match &destination.state_directory {
            Some(directory) => directory.same(&self.state_directory),
            None => false,
        };
        self.scope == destination.scope && self.uid == destination.uid && self.gid
            == destination.gid && text::eq(
            self.groups_fingerprint.as_str(),
            destination.groups_fingerprint.as_str(),
        ) && self.mount_namespace.same(&destination.mount_namespace) && directory && path::same(
            self.config_path.as_str(),
            destination.config_path.as_str(),
        ) && path::same(self.working_directory.as_str(), destination.working_directory.as_str())
    }

    pub fn verify(
        &self,
        name: &Result<(), String>,
        account: &Account,
        directory: &Metadata,
        namespace: &FileIdentity,
    ) -> (r: Result<(), String>)
        ensures
            complaint(r) == verify_complaint(*self, *name, *account, *directory, *namespace),
    {
        self.validate(name)?;
        if !(directory.kind == FileKind::Directory && directory.uid == self.uid && directory.mode
            & 0o022 == 0 && self.state_directory.same(&identify(directory))) {
            return Err("The container state directory changed after preflight".to_owned());
        }
        if !(self.uid == account.uid && self.gid == account.gid && text::eq(
            self.groups_fingerprint.as_str(),
            account.group_fingerprint().as_str(),
        ) && self.mount_namespace.same(namespace)) {
            return Err(
                "The container worker's credentials or filesystem namespace changed after preflight".to_owned(),
            );
        }
        Ok(())
    }

    pub fn check_config(&self, config: &str) -> (r: Result<(), String>)
        ensures
            complaint(r) == if path::same_path(self.config_path@, config@) {
                None
            } else {
                Some("Container state operation targets another configuration"@)
            },
    {
        if path::same(self.config_path.as_str(), config) {
            Ok(())
        } else {
            Err("Container state operation targets another configuration".to_owned())
        }
    }

    pub fn copy(&self) -> (r: Identity)
        ensures
            r == *self,
    {
        Identity {
            name: self.name.clone(),
            scope: self.scope,
            uid: self.uid,
            gid: self.gid,
            groups_fingerprint: self.groups_fingerprint.clone(),
            mount_namespace: self.mount_namespace.copy(),
            state_directory: self.state_directory.copy(),
            config_path: self.config_path.clone(),
            working_directory: self.working_directory.clone(),
        }
    }
}

pub open spec fn route_complaint(route: Route, names: ConfigNames) -> Option<Seq<char>> {
    if launch_complaint(route.launch) is Some {
        launch_complaint(route.launch)
    } else if config_complaint(route.user_config@, names.user) is Some {
        config_complaint(route.user_config@, names.user)
    } else if config_complaint(route.system_config@, names.system) is Some {
        config_complaint(route.system_config@, names.system)
    } else if !is_destination_path(route.user_working_directory@) {
        path_complaint(route.user_working_directory@)
    } else if !is_destination_path(route.system_working_directory@) {
        path_complaint(route.system_working_directory@)
    } else if path::parent_of(route.user_config@) == path::parent_of(route.system_config@) {
        Some("Container service modes must use separate state directories"@)
    } else {
        None
    }
}

/// Whether two paths lie in the same directory.
fn same_parent(a: &str, b: &str) -> (r: bool)
    ensures
        r == (path::parent_of(a@) == path::parent_of(b@)),
{
    same_optional(&path::parent(a), &path::parent(b))
}

impl Route {
    pub open spec fn config_of(self, scope: ServiceScope) -> Seq<char> {
        match scope {
            ServiceScope::User => self.user_config@,
            ServiceScope::System => self.system_config@,
        }
    }

    pub open spec fn working_of(self, scope: ServiceScope) -> Seq<char> {
        match scope {
            ServiceScope::User => self.user_working_directory@,
            ServiceScope::System => self.system_working_directory@,
        }
    }

    pub fn validate(&self, names: &ConfigNames) -> (r: Result<(), String>)
        ensures
            complaint(r) == route_complaint(*self, *names),
    {
        self.launch.validate()?;
        validate_config(self.user_config.as_str(), &names.user)?;
        validate_config(self.system_config.as_str(), &names.system)?;
        absolute(self.user_working_directory.as_str())?;
        absolute(self.system_working_directory.as_str())?;
        if same_parent(self.user_config.as_str(), self.system_config.as_str()) {
            return Err("Container service modes must use separate state directories".to_owned());
        }
        Ok(())
    }

    /// The configuration and working directory of a mode.
    pub fn paths(&self, scope: ServiceScope) -> (r: (&String, &String))
        ensures
            r.0@ == self.config_of(scope),
            r.1@ == self.working_of(scope),
    {
        match scope {
            ServiceScope::User => (&self.user_config, &self.user_working_directory),
            ServiceScope::System => (&self.system_config, &self.system_working_directory),
        }
    }

    /// The destinations of both modes for a recovery, by what came of asking the box for each.
    pub fn recovery_accounts(
        &self,
        native: bool,
        host: &Account,
        names: &ConfigNames,
        user: IdentityAnswer,
        system: IdentityAnswer,
    ) -> (r: Result<(Execution, Execution), String>)
        ensures
            outcome(r) == recovery_accounts_of(*self, native, *host, *names, user, system),
    {
        self.validate(names)?;
        let user = self.recover(native, host, ServiceScope::User, &names.user, user)?;
        let system = self.recover(native, host, ServiceScope::System, &names.system, system)?;
        user.ensure_separate(&system, names)?;
        Ok((user, system))
    }

    fn recover(
        &self,
        native: bool,
        host: &Account,
        scope: ServiceScope,
        name: &Result<(), String>,
        found: IdentityAnswer,
    ) -> (r: Result<Execution, String>)
        ensures
            outcome(r) == recovered_of(*self, native, *host, scope, *name, found),
    {
        let (config, working) = self.paths(scope);
        Execution::for_recovery(
            native,
            host,
            &self.launch,
            scope,
            config.as_str(),
            name,
            working.as_str(),
        )?;
        let output = found.output?;
        Execution::recovered(
            host,
            self.launch.copy(),
            scope,
            config.as_str(),
            working.as_str(),
            &output,
            found.answer,
            name,
        )
    }

    /// The destination of a mode, by what came of asking the box for a report on it.
    pub fn find(
        &self,
        native: bool,
        host: &Account,
        scope: ServiceScope,
        name: &Result<(), String>,
        found: &DestinationAnswer,
    ) -> (r: Result<Execution, String>)
        ensures
            outcome(r) == discovered_of(*self, native, *host, scope, *name, *found),
    {
        let (config, working) = self.paths(scope);
        Execution::discover(
            native,
            host,
            &self.launch,
            scope,
            config.as_str(),
            name,
            working.as_str(),
            true,
        )?;
        match &found.output {
            Err(e) => Err(e.clone()),
            Ok(output) => Execution::discovered(
                host,
                self.launch.copy(),
                scope,
                config.as_str(),
                working.as_str(),
                output,
                &found.answer,
                name,
            ),
        }
    }
}

/// What came of asking a box for the identity of a destination: how its helper ended, and what it
/// answered.
pub struct IdentityAnswer {
    pub output: Result<Output, String>,
    pub answer: Result<Identity, String>,
}

/// What came of asking a box for a report on a destination: how its helper ended, and what it
/// answered.
pub struct DestinationAnswer {
    pub output: Result<Output, String>,
    pub answer: Result<Destination, String>,
}

/// The destination of a mode for a recovery.
pub open spec fn recovered_of(
    route: Route,
    native: bool,
    host: Account,
    scope: ServiceScope,
    name: Result<(), String>,
    found: IdentityAnswer,
) -> Result<Execution, Seq<char>> {
    let config = route.config_of(scope);
    let working = route.working_of(scope);
    match recovery_complaint(native, host, route.launch, config, name, working) {
        Some(e) => Err(e),
        None => match found.output {
            Err(e) => Err(e@),
            Ok(output) => recovery_answer(
                host,
                route.launch,
                scope,
                config,
                working,
                output,
                found.answer,
                name,
            ),
        },
    }
}

/// The destination of a mode for a switch, whose directory the box prepares.
pub open spec fn discovered_of(
    route: Route,
    native: bool,
    host: Account,
    scope: ServiceScope,
    name: Result<(), String>,
    found: DestinationAnswer,
) -> Result<Execution, Seq<char>> {
    let config = route.config_of(scope);
    let working = route.working_of(scope);
    match discovery_complaint(native, host, route.launch, config, name, working) {
        Some(e) => Err(e),
        None => match found.output {
            Err(e) => Err(e@),
            Ok(output) => discovery_answer(
                host,
                route.launch,
                scope,
                config,
                working,
                output,
                found.answer,
                name,
            ),
        },
    }
}

/// The destinations of both modes for a recovery.
pub open spec fn recovery_accounts_of(
    route: Route,
    native: bool,
    host: Account,
    names: ConfigNames,
    user: IdentityAnswer,
    system: IdentityAnswer,
) -> Result<(Execution, Execution), Seq<char>> {
    if route_complaint(route, names) is Some {
        Err(route_complaint(route, names)->0)
    } else {
        both_of(
            recovered_of(route, native, host, ServiceScope::User, names.user, user),
            recovered_of(route, native, host, ServiceScope::System, names.system, system),
            names,
        )
    }
}

/// Both destinations, where each is known and they can be used side by side.
pub open spec fn both_of(
    user: Result<Execution, Seq<char>>,
    system: Result<Execution, Seq<char>>,
    names: ConfigNames,
) -> Result<(Execution, Execution), Seq<char>> {
    match user {
        Err(e) => Err(e),
        Ok(user) => match system {
            Err(e) => Err(e),
            Ok(system) => match separate_complaint(user, system, names) {
                Some(e) => Err(e),
                None => Ok((user, system)),
            },
        },
    }
}

/// The arguments of an inspection inside a box.
pub open spec fn inspection_arguments(
    command: Seq<char>,
    launch: Launch,
    scope: ServiceScope,
    config: Seq<char>,
    working: Seq<char>,
) -> Seq<Seq<char>> {
    seq![
        command,
        "--box"@,
        launch.name@,
        "--scope"@,
        scope.word_spec(),
        "--config"@,
        config,
        "--working-directory"@,
        working,
    ]
}

fn inspection(command: &str, launch: &Launch, scope: ServiceScope, config: &str, working: &str) -> (r:
    Vec<String>)
    ensures
        texts(r@) == inspection_arguments(command@, *launch, scope, config@, working@),
{
    let mut r: Vec<String> = Vec::new();
    r.push(command.to_owned());
    r.push("--box".to_owned());
    r.push(launch.name.clone());
    r.push("--scope".to_owned());
    r.push(scope.word().to_owned());
    r.push("--config".to_owned());
    r.push(config.to_owned());
    r.push("--working-directory".to_owned());
    r.push(working.to_owned());
    assert(texts(r@) =~= inspection_arguments(command@, *launch, scope, config@, working@));
    r
}

/// What speaks against asking a box for its identity.
pub open spec fn recovery_complaint(
    native: bool,
    account: Account,
    launch: Launch,
    config: Seq<char>,
    name: Result<(), String>,
    working: Seq<char>,
) -> Option<Seq<char>> {
    if !native || account.container is Some {
        Some("Inspect container recovery through its original host account"@)
    } else if config_complaint(config, name) is Some {
        config_complaint(config, name)
    } else if path_complaint(working) is Some {
        path_complaint(working)
    } else {
        launch_complaint(launch)
    }
}

/// What speaks against asking a box for its destination.
pub open spec fn discovery_complaint(
    native: bool,
    account: Account,
    launch: Launch,
    config: Seq<char>,
    name: Result<(), String>,
    working: Seq<char>,
) -> Option<Seq<char>> {
    if !native {
        Some("Discover container destinations through the host coordinator"@)
    } else if account.container is Some {
        Some("Discover container destinations from the host account"@)
    } else if config_complaint(config, name) is Some {
        config_complaint(config, name)
    } else if path_complaint(working) is Some {
        path_complaint(working)
    } else {
        launch_complaint(launch)
    }
}

/// Whether an identity from a box is the one that was asked for.
pub open spec fn requested(
    identity: Identity,
    account: Account,
    launch: Launch,
    scope: ServiceScope,
    config: Seq<char>,
    working: Seq<char>,
) -> bool {
    identity.uid == account.uid && identity.scope == scope && identity.name@ == launch.name@
        && path::same_path(identity.config_path@, config) && path::same_path(
        identity.working_directory@,
        working,
    )
}

/// Whether a report from a box speaks of what was asked for.
pub open spec fn reported(
    destination: Destination,
    account: Account,
    scope: ServiceScope,
    config: Seq<char>,
    working: Seq<char>,
) -> bool {
    destination.uid == account.uid && destination.scope == scope && path::same_path(
        destination.config_path@,
        config,
    ) && path::same_path(destination.working_directory@, working) && destination.assets.uid
        == account.uid
}

/// The identity that a report with a state directory gives.
pub open spec fn identity_of(
    launch: Launch,
    scope: ServiceScope,
    destination: Destination,
) -> Identity {
    Identity {
        name: launch.name,
        scope,
        uid: destination.uid,
        gid: destination.gid,
        groups_fingerprint: destination.groups_fingerprint,
        mount_namespace: destination.mount_namespace,
        state_directory: destination.state_directory->0,
        config_path: destination.config_path,
        working_directory: destination.working_directory,
    }
}

/// What speaks against using both destinations side by side.
pub open spec fn separate_complaint(own: Execution, other: Execution, names: ConfigNames) -> Option<
    Seq<char>,
> {
    let a = own.destination;
    let b = other.destination;
    if identity_complaint(a, names.user) is Some {
        identity_complaint(a, names.user)
    } else if identity_complaint(b, names.system) is Some {
        identity_complaint(b, names.system)
    } else if !(same_launch(own.launch, other.launch) && a.name@ == b.name@ && a.scope != b.scope
        && a.uid == b.uid && a.mount_namespace@ == b.mount_namespace@) {
        Some("Container service modes must use the same verified box and owner"@)
    } else if path::parent_of(a.config_path@) == path::parent_of(b.config_path@)
        || a.state_directory@ == b.state_directory@ {
        Some("User and system modes must use separate state directories"@)
    } else {
        None
    }
}

/// What speaks against an argument pair of a helper in a box: it must not name another
/// configuration or working directory.
pub open spec fn pair_complaint(identity: Identity, option: Seq<char>, value: Seq<char>) -> Option<
    Seq<char>,
> {
    if option == "--config"@ || option == "--expected-config"@ {
        if path::same_path(identity.config_path@, value) {
            None
        } else {
            Some("Container state operation targets another configuration"@)
        }
    } else if option == "--working-directory"@ && !path::same_path(
        value,
        identity.working_directory@,
    ) {
        Some("Container worker working directory differs from preflight"@)
    } else {
        None
    }
}

/// The first complaint about the arguments from `i` on.
pub open spec fn pairs_complaint(identity: Identity, args: Seq<Seq<char>>, i: int) -> Option<
    Seq<char>,
>
    decreases args.len() - i,
{
    if i < 0 || i + 1 >= args.len() {
        None
    } else {
        match pair_complaint(identity, args[i], args[i + 1]) {
            Some(e) => Some(e),
            None => pairs_complaint(identity, args, i + 1),
        }
    }
}

/// What speaks against running a helper on a destination.
pub open spec fn command_complaint(
    execution: Execution,
    native: bool,
    account: Account,
    name: Result<(), String>,
    args: Seq<Seq<char>>,
) -> Option<Seq<char>> {
    if !native {
        Some("Launch container account workers through the host coordinator"@)
    } else if account.uid != execution.destination.uid {
        Some("Container worker belongs to another host account"@)
    } else if pairs_complaint(execution.destination, args, 0) is Some {
        pairs_complaint(execution.destination, args, 0)
    } else {
        worker_complaint(execution.launch, execution.destination, name)
    }
}

/// The destination for a recovery that an answer of the box gives.
pub open spec fn recovery_answer(
    account: Account,
    launch: Launch,
    scope: ServiceScope,
    config: Seq<char>,
    working: Seq<char>,
    output: Output,
    answer: Result<Identity, String>,
    name: Result<(), String>,
) -> Result<Execution, Seq<char>> {
    match output_complaint(output, "Container recovery identity is unavailable: "@) {
        Some(e) => Err(e),
        None => match answer {
            Err(e) => Err(e@),
            Ok(identity) => if identity_complaint(identity, name) is Some {
                Err(identity_complaint(identity, name)->0)
            } else if requested(identity, account, launch, scope, config, working) {
                Ok(Execution { launch, destination: identity })
            } else {
                Err("Container recovery identity differs from the requested destination"@)
            },
        },
    }
}

/// The destination that a report of the box gives.
pub open spec fn discovery_answer(
    account: Account,
    launch: Launch,
    scope: ServiceScope,
    config: Seq<char>,
    working: Seq<char>,
    output: Output,
    answer: Result<Destination, String>,
    name: Result<(), String>,
) -> Result<Execution, Seq<char>> {
    match output_complaint(output, "Container destination preflight failed: "@) {
        Some(e) => Err(e),
        None => match answer {
            Err(e) => Err("Invalid container destination response: "@ + e@),
            Ok(destination) => if !reported(destination, account, scope, config, working) {
                Err("Container destination differs from the requested account, mode or paths"@)
            } else if destination.state_directory is None {
                Err("Container preflight did not report its state directory identity"@)
            } else {
                match identity_complaint(identity_of(launch, scope, destination), name) {
                    Some(e) => Err(e),
                    None => Ok(
                        Execution {
                            launch,
                            destination: identity_of(launch, scope, destination),
                        },
                    ),
                }
            },
        },
    }
}

impl Execution {
    /// The arguments that ask a box for the identity of a destination.
    pub fn for_recovery(
        native: bool,
        account: &Account,
        launch: &Launch,
        scope: ServiceScope,
        config: &str,
        name: &Result<(), String>,
        working: &str,
    ) -> (r: Result<Vec<String>, String>)
        ensures
            match r {
                Ok(v) => recovery_complaint(native, *account, *launch, config@, *name, working@)
                    is None && texts(v@) == launch_arguments(
                    *launch,
                    None,
                    inspection_arguments(
                        "inspect-container-identity"@,
                        *launch,
                        scope,
                        config@,
                        working@,
                    ),
                ),
                Err(e) => recovery_complaint(native, *account, *launch, config@, *name, working@)
                    == Some(e@),
            },
    {
        if !native || account.container.is_some() {
            return Err("Inspect container recovery through its original host account".to_owned());
        }
        validate_config(config, name)?;
        absolute(working)?;
        launch.entry_arguments(
            &inspection("inspect-container-identity", launch, scope, config, working),
        )
    }

    /// A destination for a recovery, by how the box's helper ended and the identity that it
    /// answered.
    pub fn recovered(
        account: &Account,
        launch: Launch,
        scope: ServiceScope,
        config: &str,
        working: &str,
        output: &Output,
        answer: Result<Identity, String>,
        name: &Result<(), String>,
    ) -> (r: Result<Execution, String>)
        ensures
            outcome(r) == recovery_answer(
                *account,
                launch,
                scope,
                config@,
                working@,
                *output,
                answer,
                *name,
            ),
    {
        check_output(output, "Container recovery identity is unavailable: ")?;
        let identity = answer?;
        identity.validate(name)?;
        if !(identity.uid == account.uid && identity.scope == scope && text::eq(
            identity.name.as_str(),
            launch.name.as_str(),
        ) && path::same(identity.config_path.as_str(), config) && path::same(
            identity.working_directory.as_str(),
            working,
        )) {
            return Err(
                "Container recovery identity differs from the requested destination".to_owned(),
            );
        }
        Ok(Execution { launch, destination: identity })
    }

    /// The arguments that ask a box for a report on a destination.
    pub fn discover(
        native: bool,
        account: &Account,
        launch: &Launch,
        scope: ServiceScope,
        config: &str,
        name: &Result<(), String>,
        working: &str,
        prepare: bool,
    ) -> (r: Result<Vec<String>, String>)
        ensures
            match r {
                Ok(v) => {
                    let asked = inspection_arguments(
                        "inspect-container-destination"@,
                        *launch,
                        scope,
                        config@,
                        working@,
                    );
                    &&& discovery_complaint(native, *account, *launch, config@, *name, working@)
                        is None
                    &&& texts(v@) == launch_arguments(
                        *launch,
                        None,
                        if prepare {
                            asked.push("--prepare-directory"@)
                        } else {
                            asked
                        },
                    )
                },
                Err(e) => discovery_complaint(native, *account, *launch, config@, *name, working@)
                    == Some(e@),
            },
    {
        if !native {
            return Err("Discover container destinations through the host coordinator".to_owned());
        }
        if account.container.is_some() {
            return Err("Discover container destinations from the host account".to_owned());
        }
        validate_config(config, name)?;
        absolute(working)?;
        let mut asked = inspection(
            "inspect-container-destination",
            launch,
            scope,
            config,
            working,
        );
        if prepare {
            let ghost before = asked@;
            asked.push("--prepare-directory".to_owned());
            assert(texts(asked@) =~= texts(before).push("--prepare-directory"@));
        }
        launch.entry_arguments(&asked)
    }

    /// A destination, by how the box's helper ended and the report that it answered.
    pub fn discovered(
        account: &Account,
        launch: Launch,
        scope: ServiceScope,
        config: &str,
        working: &str,
        output: &Output,
        answer: &Result<Destination, String>,
        name: &Result<(), String>,
    ) -> (r: Result<Execution, String>)
        ensures
            outcome(r) == discovery_answer(
                *account,
                launch,
                scope,
                config@,
                working@,
                *output,
                *answer,
                *name,
            ),
    {
        check_output(output, "Container destination preflight failed: ")?;
        let destination = match answer {
            Ok(destination) => destination,
            Err(e) => {
                let mut whole = "Invalid container destination response: ".to_owned();
                whole.append(e.as_str());
                return Err(whole);
            },
        };
        if !(destination.uid == account.uid && destination.scope == scope && path::same(
            destination.config_path.as_str(),
            config,
        ) && path::same(destination.working_directory.as_str(), working) && destination.assets.uid
            == account.uid) {
            return Err(
                "Container destination differs from the requested account, mode or paths".to_owned(),
            );
        }
        let state_directory = match &destination.state_directory {
            Some(directory) => directory.copy(),
            None => {
                return Err(
                    "Container preflight did not report its state directory identity".to_owned(),
                );
            },
        };
        let identity = Identity {
            name: launch.name.clone(),
            scope,
            uid: destination.uid,
            gid: destination.gid,
            groups_fingerprint: destination.groups_fingerprint.clone(),
            mount_namespace: destination.mount_namespace.copy(),
            state_directory,
            config_path: destination.config_path.clone(),
            working_directory: destination.working_directory.clone(),
        };
        identity.validate(name)?;
        Ok(Execution { launch, destination: identity })
    }

    /// The arguments that run a helper on the destination. `encoded` hands the destination to it.
    pub fn command(
        &self,
        native: bool,
        account: &Account,
        name: &Result<(), String>,
        encoded: &str,
        args: &Vec<String>,
    ) -> (r: Result<Vec<String>, String>)
        ensures
            match r {
                Ok(v) => {
                    &&& command_complaint(*self, native, *account, *name, texts(args@)) is None
                    &&& texts(v@) == launch_arguments(self.launch, Some(encoded@), texts(args@))
                },
                Err(e) => command_complaint(*self, native, *account, *name, texts(args@)) == Some(
                    e@,
                ),
            },
    {
        if !native {
            return Err("Launch container account workers through the host coordinator".to_owned());
        }
        if account.uid != self.destination.uid {
            return Err("Container worker belongs to another host account".to_owned());
        }
        self.check_pairs(args)?;
        self.launch.arguments(&self.destination, encoded, name, args)
    }

    fn check_pairs(&self, args: &Vec<String>) -> (r: Result<(), String>)
        ensures
            complaint(r) == pairs_complaint(self.destination, texts(args@), 0),
    {
        let ghost all = texts(args@);
        let mut i: usize = 0;
        while i < args.len() && args.len() - i > 1
            invariant
                i <= args@.len(),
                all == texts(args@),
                pairs_complaint(self.destination, all, 0) == pairs_complaint(
                    self.destination,
                    all,
                    i as int,
                ),
            decreases args@.len() - i,
        {
            let option = args[i].as_str();
            let value = args[i + 1].as_str();
            assert(option@ == all[i as int]);
            assert(value@ == all[i + 1]);
            if text::eq(option, "--config") || text::eq(option, "--expected-config") {
                self.destination.check_config(value)?;
            } else if text::eq(option, "--working-directory") {
                if !path::same(value, self.destination.working_directory.as_str()) {
                    return Err(
                        "Container worker working directory differs from preflight".to_owned(),
                    );
                }
            }
            i += 1;
        }
        Ok(())
    }

    /// Whether both destinations can be used side by side. `names` says what the rules on
    /// configuration file names hold of this one's, then of the other's.
    pub fn ensure_separate(&self, other: &Execution, names: &ConfigNames) -> (r: Result<
        (),
        String,
    >)
        ensures
            complaint(r) == separate_complaint(*self, *other, *names),
    {
        self.destination.validate(&names.user)?;
        other.destination.validate(&names.system)?;
        let a = &self.destination;
        let b = &other.destination;
        if !(self.launch.same(&other.launch) && text::eq(a.name.as_str(), b.name.as_str())
            && a.scope != b.scope && a.uid == b.uid && a.mount_namespace.same(
            &b.mount_namespace,
        )) {
            return Err(
                "Container service modes must use the same verified box and owner".to_owned(),
            );
        }
        if same_parent(a.config_path.as_str(), b.config_path.as_str()) || a.state_directory.same(
            &b.state_directory,
        ) {
            return Err("User and system modes must use separate state directories".to_owned());
        }
        Ok(())
    }
}

/// Two destinations that may be used side by side never share a state directory.
pub proof fn separate_destinations_share_no_state(own: Execution, other: Execution, names: ConfigNames)
    requires
        separate_complaint(own, other, names) is None,
    ensures
        own.destination.state_directory@ != other.destination.state_directory@,
        path::parent_of(own.destination.config_path@) != path::parent_of(
            other.destination.config_path@,
        ),
        own.destination.scope != other.destination.scope,
        own.destination.uid == other.destination.uid,
        own.destination.uid != 0,
{
}

/// The destination that a worker is bound to: `read` is what `text` says, which is verified against
/// the account, the state directory and the mount namespace of this process before it is kept.
pub open spec fn bound_of(
    text: Seq<char>,
    read: Result<Identity, String>,
    name: Result<(), String>,
    account: Account,
    directory: Metadata,
    namespace: FileIdentity,
    set: bool,
) -> Result<Identity, Seq<char>> {
    if text::byte_len(text) > MAX_METADATA {
        Err("Container destination metadata exceeds 16 KiB"@)
    } else {
        match read {
            Err(e) => Err(e@),
            Ok(identity) => match verify_complaint(
                identity,
                name,
                account,
                directory,
                namespace,
            ) {
                Some(e) => Err(e),
                None => if set {
                    Err("Container worker destination was already set"@)
                } else {
                    Ok(identity)
                },
            },
        }
    }
}

/// Binds a worker to its destination, once.
pub fn initialize_worker(
    text: &str,
    read: Result<Identity, String>,
    name: &Result<(), String>,
    account: &Account,
    directory: &Metadata,
    namespace: &FileIdentity,
    set: Option<&Identity>,
) -> (r: Result<Identity, String>)
    ensures
        outcome(r) == bound_of(
            text@,
            read,
            *name,
            *account,
            *directory,
            *namespace,
            set is Some,
        ),
{
    if text::len(text) > MAX_METADATA {
        return Err("Container destination metadata exceeds 16 KiB".to_owned());
    }
    let identity = read?;
    identity.verify(name, account, directory, namespace)?;
    if set.is_some() {
        return Err("Container worker destination was already set".to_owned());
    }
    Ok(identity)
}

/// A worker that is bound to a destination runs under its account, in its mount namespace and over
/// its state directory.
pub proof fn bound_workers_are_verified(
    text: Seq<char>,
    read: Result<Identity, String>,
    name: Result<(), String>,
    account: Account,
    directory: Metadata,
    namespace: FileIdentity,
    set: bool,
)
    requires
        bound_of(text, read, name, account, directory, namespace, set) is Ok,
    ensures
        !set,
        read == Ok::<Identity, String>(
            bound_of(text, read, name, account, directory, namespace, set)->Ok_0,
        ),
        verify_complaint(read->Ok_0, name, account, directory, namespace) is None,
        read->Ok_0.uid == account.uid,
        read->Ok_0.uid != 0,
        read->Ok_0.mount_namespace@ == namespace@,
        read->Ok_0.state_directory@ == file_of(directory),
{
}

/// Whether this process runs inside the box of that name.
pub open spec fn inside(context: InstallationContext, name: Seq<char>) -> bool {
    context matches InstallationContext::Distrobox { name: n } && n@ == name
}

pub fn check_box(context: &InstallationContext, name: &str) -> (r: Result<(), String>)
    ensures
        complaint(r) == if inside(*context, name@) {
            None
        } else {
            Some("Run destination inspection inside the selected Distrobox"@)
        },
{
    let here = match context {
        InstallationContext::Distrobox { name: n } => text::eq(n.as_str(), name),
        _ => false,
    };
    if here {
        Ok(())
    } else {
        Err("Run destination inspection inside the selected Distrobox".to_owned())
    }
}

/// The identity of a destination as it is now.
pub fn inspect_identity(
    name: &str,
    scope: ServiceScope,
    config: &str,
    config_name: &Result<(), String>,
    working: &str,
    account: &Account,
    directory: &Metadata,
    namespace: &FileIdentity,
) -> (r: Result<Identity, String>)
    ensures
        match r {
            Ok(identity) => {
                &&& identity.name@ == name@
                &&& identity.scope == scope
                &&& identity.uid == account.uid
                &&& identity.gid == account.gid
                &&& identity.groups_fingerprint@ == digest::fingerprint(
                    digest::le32s(account.groups@),
                )
                &&& identity.mount_namespace@ == namespace@
                &&& identity.state_directory@ == file_of(*directory)
                &&& identity.config_path@ == config@
                &&& identity.working_directory@ == working@
                &&& verify_complaint(identity, *config_name, *account, *directory, *namespace)
                    is None
            },
            Err(e) => if config_complaint(config@, *config_name) is Some {
                config_complaint(config@, *config_name) == Some(e@)
            } else if path_complaint(working@) is Some {
                path_complaint(working@) == Some(e@)
            } else {
                inspection_complaint(name@, *account, *directory, *namespace) == Some(e@)
            },
        },
{
    validate_config(config, config_name)?;
    absolute(working)?;
    let identity = Identity {
        name: name.to_owned(),
        scope,
        uid: account.uid,
        gid: account.gid,
        groups_fingerprint: account.group_fingerprint(),
        mount_namespace: namespace.copy(),
        state_directory: identify(directory),
        config_path: config.to_owned(),
        working_directory: working.to_owned(),
    };
    identity.verify(config_name, account, directory, namespace)?;
    Ok(identity)
}

/// What speaks against a box's own account, directory or namespace, once its paths are sound.
pub open spec fn inspection_complaint(
    name: Seq<char>,
    account: Account,
    directory: Metadata,
    namespace: FileIdentity,
) -> Option<Seq<char>> {
    let fingerprint = digest::fingerprint(digest::le32s(account.groups@));
    if !distrobox_unit::is_name(name) || account.uid == 0 {
        Some("Container state workers require a named box and unprivileged account"@)
    } else if !text::hex_of_len(fingerprint, 64) {
        Some("Invalid container credential fingerprint"@)
    } else if !is_file_number(namespace) || text::parsed(file_of(directory).0, 10, u64::MAX as nat)
        is None || text::parsed(file_of(directory).1, 10, u64::MAX as nat) is None {
        Some("Invalid container filesystem identity"@)
    } else if !(directory.kind == FileKind::Directory && directory.uid == account.uid
        && directory.mode & 0o022 == 0) {
        Some("The container state directory changed after preflight"@)
    } else {
        None
    }
}

/// What speaks against a worker that changes a configuration: where it was entered for a destination,
/// that has to be verified and to be the one with this configuration.
pub open spec fn target_complaint(
    identity: Option<Identity>,
    config: Seq<char>,
    name: Result<(), String>,
    account: Account,
    directory: Metadata,
    namespace: FileIdentity,
) -> Option<Seq<char>> {
    match identity {
        None => None,
        Some(identity) => match verify_complaint(identity, name, account, directory, namespace) {
            Some(e) => Some(e),
            None => if path::same_path(identity.config_path@, config) {
                None
            } else {
                Some("Container state operation targets another configuration"@)
            },
        },
    }
}

pub fn verify_config(
    identity: Option<&Identity>,
    config: &str,
    name: &Result<(), String>,
    account: &Account,
    directory: &Metadata,
    namespace: &FileIdentity,
) -> (r: Result<(), String>)
    ensures
        complaint(r) == target_complaint(
            match identity {
                Some(i) => Some(*i),
                None => None,
            },
            config@,
            *name,
            *account,
            *directory,
            *namespace,
        ),
{
    match identity {
        None => Ok(()),
        Some(identity) => {
            identity.verify(name, account, directory, namespace)?;
            identity.check_config(config)
        },
    }
}

/// A path may lead to a destination exactly where it is absolute, no longer than 4096 bytes, and never
/// goes up. A configuration must besides name a file, by a name that its rules accept.
pub proof fn destinations_lead_downwards(p: Seq<char>, name: Result<(), String>)
    ensures
        path_complaint(p) is None <==> {
            &&& path::is_absolute(p)
            &&& text::byte_len(p) <= 4096
            &&& forall|i: int|
                0 <= i < path::components_of(p).len() ==> (#[trigger] path::components_of(p)[i])
                    != seq!['.', '.']
        },
        config_complaint(p, name) is None <==> path_complaint(p) is None && path::file_name_of(
            p,
        ) is Some && name is Ok,
{
    let parts = path::components_of(p);
    assert(path::descends(parts) <==> forall|i: int|
        0 <= i < parts.len() ==> (#[trigger] parts[i]) != seq!['.', '.']) by {
        if path::descends(parts) {
            assert forall|i: int| 0 <= i < parts.len() implies (#[trigger] parts[i]) != seq![
                '.',
                '.',
            ] by {
                assert(!path::is_parent(parts[i]));
            }
        }
    }
}

/// A way into a box is valid exactly where the box has a name, both paths lead downwards, and it is
/// entered by the program of that name. Two ways are the same where they agree in all three.
pub proof fn boxes_are_entered_by_their_program(a: Launch, b: Launch)
    ensures
        launch_complaint(a) is None <==> distrobox_unit::is_name(a.name@) && path_complaint(
            a.host_enter@,
        ) is None && path_complaint(a.binaries@) is None && path::file_name_of(a.host_enter@) == Some(
            "distrobox-enter"@,
        ),
        same_launch(a, b) <==> a.name@ == b.name@ && path::same_path(a.host_enter@, b.host_enter@)
            && path::same_path(a.binaries@, b.binaries@),
{
}

/// A destination is valid exactly where it names a box and an unprivileged account, its paths are
/// sound, and its fingerprint and file numbers are such. A helper in a box gets exactly such a
/// destination, of its own box.
pub proof fn identities_are_complete(launch: Launch, identity: Identity, name: Result<(), String>)
    ensures
        identity_complaint(identity, name) is None <==> {
            &&& distrobox_unit::is_name(identity.name@)
            &&& identity.uid != 0
            &&& config_complaint(identity.config_path@, name) is None
            &&& path_complaint(identity.working_directory@) is None
            &&& text::hex_of_len(identity.groups_fingerprint@, 64)
            &&& is_file_number(identity.mount_namespace)
            &&& is_file_number(identity.state_directory)
        },
        worker_complaint(launch, identity, name) is None <==> launch_complaint(launch) is None
            && identity_complaint(identity, name) is None && identity.name@ == launch.name@,
{
}

/// A worker may work exactly on the valid destination that it was given, while the directory of the
/// state is still that one, the account's and closed to other writers, and the account, its groups
/// and its mounts are still the same.
pub proof fn workers_verify_where_they_are(
    identity: Identity,
    name: Result<(), String>,
    account: Account,
    directory: Metadata,
    namespace: FileIdentity,
)
    ensures
        verify_complaint(identity, name, account, directory, namespace) is None <==> {
            &&& identity_complaint(identity, name) is None
            &&& directory.kind == FileKind::Directory
            &&& directory.uid == identity.uid
            &&& directory.mode & 0o022 == 0
            &&& identity.state_directory.device@ == text::decimal(directory.dev as nat)
            &&& identity.state_directory.inode@ == text::decimal(directory.ino as nat)
            &&& account.uid == identity.uid
            &&& account.gid == identity.gid
            &&& identity.groups_fingerprint@ == digest::fingerprint(digest::le32s(account.groups@))
            &&& identity.mount_namespace.device@ == namespace.device@
            &&& identity.mount_namespace.inode@ == namespace.inode@
        },
{
}

/// A route is valid exactly where its way into the box is, all four of its paths are sound, and the
/// two modes keep their state in different directories. Each mode has its own two paths.
pub proof fn routes_separate_the_modes(route: Route, names: ConfigNames)
    ensures
        route_complaint(route, names) is None <==> {
            &&& launch_complaint(route.launch) is None
            &&& config_complaint(route.user_config@, names.user) is None
            &&& config_complaint(route.system_config@, names.system) is None
            &&& path_complaint(route.user_working_directory@) is None
            &&& path_complaint(route.system_working_directory@) is None
            &&& path::parent_of(route.user_config@) != path::parent_of(route.system_config@)
        },
        route.config_of(ServiceScope::User) == route.user_config@,
        route.config_of(ServiceScope::System) == route.system_config@,
        route.working_of(ServiceScope::User) == route.user_working_directory@,
        route.working_of(ServiceScope::System) == route.system_working_directory@,
{
}

/// A box may be asked about a destination exactly from the host, for an account of the host, by sound
/// paths and a valid way in, whether for a recovery or for a switch.
pub proof fn boxes_are_asked_from_the_host(
    native: bool,
    account: Account,
    launch: Launch,
    config: Seq<char>,
    name: Result<(), String>,
    working: Seq<char>,
)
    ensures
        ({
            let may = native && account.container is None && config_complaint(config, name) is None
                && path_complaint(working) is None && launch_complaint(launch) is None;
            &&& recovery_complaint(native, account, launch, config, name, working) is None <==> may
            &&& discovery_complaint(native, account, launch, config, name, working) is None <==> may
        }),
{
}

/// What a box answers is taken for the destination exactly where its helper succeeded and the valid
/// identity that it gives is the one that was asked for: of this account, mode, box and paths.
pub proof fn recoveries_take_the_asked_destination(
    account: Account,
    launch: Launch,
    scope: ServiceScope,
    config: Seq<char>,
    working: Seq<char>,
    output: Output,
    answer: Result<Identity, String>,
    name: Result<(), String>,
)
    ensures
        ({
            let taken = recovery_answer(
                account,
                launch,
                scope,
                config,
                working,
                output,
                answer,
                name,
            );
            let identity = answer->Ok_0;
            &&& taken is Ok <==> {
                &&& output.code == Some(0i32)
                &&& answer is Ok
                &&& identity_complaint(identity, name) is None
                &&& identity.uid == account.uid
                &&& identity.scope == scope
                &&& identity.name@ == launch.name@
                &&& path::same_path(identity.config_path@, config)
                &&& path::same_path(identity.working_directory@, working)
            }
            &&& taken is Ok ==> taken->Ok_0.launch == launch && taken->Ok_0.destination == identity
        }),
{
}

/// What a box reports is taken for the destination exactly where its helper succeeded, the report is
/// of this account, mode and paths and names its directory, and the identity that it gives is valid.
/// The destination has what the report says.
pub proof fn discoveries_take_the_reported_destination(
    account: Account,
    launch: Launch,
    scope: ServiceScope,
    config: Seq<char>,
    working: Seq<char>,
    output: Output,
    answer: Result<Destination, String>,
    name: Result<(), String>,
)
    ensures
        ({
            let taken = discovery_answer(
                account,
                launch,
                scope,
                config,
                working,
                output,
                answer,
                name,
            );
            let report = answer->Ok_0;
            let found = taken->Ok_0.destination;
            &&& taken is Ok <==> {
                &&& output.code == Some(0i32)
                &&& answer is Ok
                &&& report.uid == account.uid
                &&& report.scope == scope
                &&& path::same_path(report.config_path@, config)
                &&& path::same_path(report.working_directory@, working)
                &&& report.assets.uid == account.uid
                &&& report.state_directory is Some
                &&& identity_complaint(identity_of(launch, scope, report), name) is None
            }
            &&& taken is Ok ==> {
                &&& taken->Ok_0.launch == launch
                &&& found.name == launch.name
                &&& found.scope == scope
                &&& found.uid == report.uid
                &&& found.gid == report.gid
                &&& found.groups_fingerprint == report.groups_fingerprint
                &&& found.mount_namespace == report.mount_namespace
                &&& Some(found.state_directory) == report.state_directory
                &&& found.config_path == report.config_path
                &&& found.working_directory == report.working_directory
            }
        }),
{
}

/// Both destinations are used side by side exactly where each is valid, they are in one box, of one
/// owner and in one file system, are of different modes, and share no directory of state.
pub proof fn modes_are_used_side_by_side(own: Execution, other: Execution, names: ConfigNames)
    ensures
        separate_complaint(own, other, names) is None <==> {
            let a = own.destination;
            let b = other.destination;
            &&& identity_complaint(a, names.user) is None
            &&& identity_complaint(b, names.system) is None
            &&& same_launch(own.launch, other.launch)
            &&& a.name@ == b.name@
            &&& a.scope != b.scope
            &&& a.uid == b.uid
            &&& a.mount_namespace@ == b.mount_namespace@
            &&& path::parent_of(a.config_path@) != path::parent_of(b.config_path@)
            &&& a.state_directory@ != b.state_directory@
        },
{
}

/// A helper is run on a destination exactly from the host, under the destination's account, with a
/// valid destination of its box, and with arguments that name no other configuration and no other
/// working directory.
pub proof fn helpers_stay_with_their_destination(
    execution: Execution,
    native: bool,
    account: Account,
    name: Result<(), String>,
    args: Seq<Seq<char>>,
)
    ensures
        command_complaint(execution, native, account, name, args) is None <==> {
            &&& native
            &&& account.uid == execution.destination.uid
            &&& worker_complaint(execution.launch, execution.destination, name) is None
            &&& forall|i: int|
                0 <= i < args.len() - 1 ==> {
                    &&& (#[trigger] args[i]) == "--config"@ || args[i] == "--expected-config"@
                        ==> path::same_path(execution.destination.config_path@, args[i + 1])
                    &&& args[i] == "--working-directory"@ ==> path::same_path(
                        args[i + 1],
                        execution.destination.working_directory@,
                    )
                }
        },
{
    reveal_strlit("--config");
    reveal_strlit("--expected-config");
    reveal_strlit("--working-directory");
    assert("--config"@[2] == 'c');
    assert("--expected-config"@[2] == 'e');
    assert("--working-directory"@[2] == 'w');
    all_pairs_stay(execution.destination, args, 0);
}

proof fn all_pairs_stay(identity: Identity, args: Seq<Seq<char>>, i: int)
    requires
        0 <= i,
    ensures
        pairs_complaint(identity, args, i) is None <==> forall|k: int|
            i <= k < args.len() - 1 ==> pair_complaint(
                identity,
                #[trigger] args[k],
                args[k + 1],
            ) is None,
    decreases args.len() - i,
{
    if i + 1 < args.len() {
        all_pairs_stay(identity, args, i + 1);
        if pair_complaint(identity, args[i], args[i + 1]) is Some {
            assert(pair_complaint(identity, args[i], args[i + 1]) is Some);
        }
    }
}

/// A worker is bound exactly to a destination of bounded size that could be read and is verified, and
/// only once.
pub proof fn workers_are_bound_once(
    text: Seq<char>,
    read: Result<Identity, String>,
    name: Result<(), String>,
    account: Account,
    directory: Metadata,
    namespace: FileIdentity,
    set: bool,
)
    ensures
        ({
            let bound = bound_of(text, read, name, account, directory, namespace, set);
            &&& bound is Ok <==> text::byte_len(text) <= 16_384 && read is Ok && verify_complaint(
                read->Ok_0,
                name,
                account,
                directory,
                namespace,
            ) is None && !set
            &&& bound is Ok ==> bound->Ok_0 == read->Ok_0
        }),
{
}

/// A report speaks of a destination exactly where it agrees with it in mode, account, groups, mounts,
/// directory and both paths.
pub proof fn reports_match_their_destination(identity: Identity, destination: Destination)
    ensures
        matching(identity, destination) <==> identity.scope == destination.scope && identity.uid
            == destination.uid && identity.gid == destination.gid && identity.groups_fingerprint@
            == destination.groups_fingerprint@ && identity.mount_namespace@
            == destination.mount_namespace@ && destination.state_directory is Some
            && destination.state_directory->0@ == identity.state_directory@ && path::same_path(
            identity.config_path@,
            destination.config_path@,
        ) && path::same_path(identity.working_directory@, destination.working_directory@),
{
}

/// A helper in a box is told the box, the way in, the programs and, where it has one, its destination,
/// before its own arguments, which come last and unchanged.
pub proof fn box_helpers_get_their_arguments(
    launch: Launch,
    destination: Option<Seq<char>>,
    args: Seq<Seq<char>>,
)
    ensures
        ({
            let told = launch_arguments(launch, destination, args);
            let n = told.len() - args.len();
            &&& told.skip(n) == args
            &&& told[n - 1] == "--"@
            &&& told[2] == launch.name@
            &&& told[4] == launch.host_enter@
            &&& told[6] == launch.binaries@
            &&& destination matches Some(encoded) ==> n == 10 && told[7] == "--destination"@ && told[8]
                == encoded
            &&& destination is None ==> n == 8
        }),
{
    let told = launch_arguments(launch, destination, args);
    assert(told.skip(told.len() - args.len()) =~= args);
}

/// A recovery knows both destinations exactly where the route is valid and both are found and can be
/// used side by side: the user's comes first, the system's second.
pub proof fn recoveries_know_both_destinations(
    route: Route,
    native: bool,
    host: Account,
    names: ConfigNames,
    user: IdentityAnswer,
    system: IdentityAnswer,
)
    ensures
        ({
            let both = recovery_accounts_of(route, native, host, names, user, system);
            let a = recovered_of(route, native, host, ServiceScope::User, names.user, user);
            let b = recovered_of(route, native, host, ServiceScope::System, names.system, system);
            &&& both is Ok <==> route_complaint(route, names) is None && a is Ok && b is Ok
                && separate_complaint(a->Ok_0, b->Ok_0, names) is None
            &&& both is Ok ==> both->Ok_0 == (a->Ok_0, b->Ok_0)
        }),
{
}

/// A box is asked about a mode by the paths of that mode, and its answer counts exactly where it might
/// be asked and could be.
pub proof fn boxes_are_asked_about_their_mode(
    route: Route,
    native: bool,
    host: Account,
    scope: ServiceScope,
    name: Result<(), String>,
    found: IdentityAnswer,
)
    ensures
        ({
            let user = scope == ServiceScope::User;
            let config = if user {
                route.user_config@
            } else {
                route.system_config@
            };
            let working = if user {
                route.user_working_directory@
            } else {
                route.system_working_directory@
            };
            let asked = recovered_of(route, native, host, scope, name, found);
            &&& asked is Ok ==> recovery_complaint(
                native,
                host,
                route.launch,
                config,
                name,
                working,
            ) is None && found.output is Ok
            &&& recovery_complaint(native, host, route.launch, config, name, working) is None
                && found.output is Ok ==> asked == recovery_answer(
                host,
                route.launch,
                scope,
                config,
                working,
                found.output->Ok_0,
                found.answer,
                name,
            )
        }),
{
}

/// A box describes itself exactly under a valid name and an unprivileged account, in a directory of
/// that account that is closed to other writers.
pub proof fn boxes_describe_their_own_directory(
    name: Seq<char>,
    account: Account,
    directory: Metadata,
    namespace: FileIdentity,
)
    requires
        inspection_complaint(name, account, directory, namespace) is None,
    ensures
        distrobox_unit::is_name(name),
        account.uid != 0,
        directory.kind == FileKind::Directory,
        directory.uid == account.uid,
        directory.mode & 0o022 == 0,
        is_file_number(namespace),
{
}

/// A process is inside a box exactly where it runs in one of that very name.
pub proof fn boxes_are_told_apart_by_name(a: String, b: Seq<char>)
    ensures
        inside(InstallationContext::Distrobox { name: a }, b) <==> a@ == b,
        forall|context: InstallationContext|
            !(context is Distrobox) ==> !#[trigger] inside(context, b),
{
}

} // verus!
