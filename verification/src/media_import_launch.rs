//! Launching a managed import with an administrator's authority: one helper under the caller's
//! account sends the media, another under the destination's account receives and publishes them.

use crate::command::{
    ended, left_by, ran_within, said, Output, Ran, Run, RunStep, LARGEST_OUTPUT, MAX_OUTPUT,
};
use crate::container_destination;
use crate::account::{same_account, Account};
use crate::container_deployment::{installed_complaint, Deployment};
use crate::container_destination::{
    complaint, discovered_of, path_complaint, ConfigNames, DestinationAnswer, Execution,
};
use crate::destination::{Preflight, PreflightStep};
use crate::files::Metadata;
use crate::media_import::{import_directory, import_path, lies_in, stands_in, PublishedSelection};
use crate::media_ownership::{valid_id, validate_id};
use crate::media_validation::AssetDependency;
use crate::path;
use crate::services::ServiceScope;
use crate::steps;
use crate::text;
use crate::text::texts;
use vstd::prelude::*;

verus! {

/// The longest path of a selection, in bytes.
pub const MAX_PATH: usize = 4096;

/// How long the two helpers may take, in milliseconds.
pub const TRANSFER_MS: u64 = 600_000;

/// The longest error of a helper that is passed on, in characters.
pub const MAX_ERROR: usize = 2048;

pub open spec fn request_complaint(
    native: bool,
    selection: Seq<char>,
    config: Seq<char>,
    id: Seq<char>,
) -> Option<Seq<char>> {
    if !native {
        Some("Managed import launching requires the native host application"@)
    } else if !(path::is_absolute(selection) && text::byte_len(selection) <= MAX_PATH
        && path::is_absolute(config)) {
        Some("Select absolute input and destination paths"@)
    } else if !valid_id(id) {
        Some("Invalid managed import ID"@)
    } else {
        None
    }
}

/// The arguments of the helper that sends the media.
pub open spec fn source_of(selection: Seq<char>) -> Seq<Seq<char>> {
    seq!["send-selected-media"@, "--selection"@, selection]
}

pub fn source_arguments(selection: &str) -> (r: Vec<String>)
    ensures
        texts(r@) == source_of(selection@),
{
    let mut args: Vec<String> = Vec::new();
    args.push("send-selected-media".to_owned());
    args.push("--selection".to_owned());
    args.push(selection.to_owned());
    assert(texts(args@) =~= source_of(selection@));
    args
}

/// The arguments of the helper that receives and publishes them.
pub open spec fn destination_of(scope: ServiceScope, id: Seq<char>, config: Seq<char>) -> Seq<
    Seq<char>,
> {
    seq![
        "receive-selected-media"@,
        "--scope"@,
        scope.word_spec(),
        "--operation-id"@,
        id,
        "--expected-config"@,
        config,
    ]
}

pub fn destination_arguments(scope: ServiceScope, id: &str, config: &str) -> (r: Vec<String>)
    ensures
        texts(r@) == destination_of(scope, id@, config@),
{
    let mut args: Vec<String> = Vec::new();
    args.push("receive-selected-media".to_owned());
    args.push("--scope".to_owned());
    args.push(scope.word().to_owned());
    args.push("--operation-id".to_owned());
    args.push(id.to_owned());
    args.push("--expected-config".to_owned());
    args.push(config.to_owned());
    assert(texts(args@) =~= destination_of(scope, id@, config@));
    args
}

/// What speaks against the outcome of the two helpers, each by its exit code, its output and its
/// errors.
pub open spec fn outputs_complaint(
    source: Result<(Option<i32>, Seq<char>, Seq<char>), Seq<char>>,
    destination: Result<(Option<i32>, Seq<char>, Seq<char>), Seq<char>>,
) -> Option<Seq<char>> {
    match source {
        Err(e) => Some("Source import failed. Inspect destination storage before retrying: "@ + e),
        Ok(s) => match destination {
            Err(e) => Some(
                "Destination import failed. Files may have been copied. Inspect storage before retrying: "@
                    + e,
            ),
            Ok(d) => if !(s.0 == Some(0i32) && d.0 == Some(0i32)) {
                Some(
                    "Managed import failed. Inspect storage before retrying. Source: "@ + text::cut(
                        s.2,
                        MAX_ERROR as int,
                    ) + ". Destination: "@ + text::cut(d.2, MAX_ERROR as int),
                )
            } else if s.1.len() > 0 {
                Some("Unexpected source import output"@)
            } else {
                None
            },
        },
    }
}

pub fn check_outputs(source: &Result<Output, String>, destination: &Result<Output, String>) -> (r:
    Result<(), String>)
    ensures
        complaint(r) == outputs_complaint(said(*source), said(*destination)),
{
    match source {
        Err(e) => {
            let mut text =
                "Source import failed. Inspect destination storage before retrying: ".to_owned();
            text.append(e.as_str());
            Err(text)
        },
        Ok(s) => match destination {
            Err(e) => {
                let mut text =
                    "Destination import failed. Files may have been copied. Inspect storage before retrying: ".to_owned();
                text.append(e.as_str());
                Err(text)
            },
            Ok(d) => {
                if !(s.success() && d.success()) {
                    let mut text =
                        "Managed import failed. Inspect storage before retrying. Source: ".to_owned();
                    text.append(text::take(s.stderr.as_str(), MAX_ERROR).as_str());
                    text.append(". Destination: ");
                    text.append(text::take(d.stderr.as_str(), MAX_ERROR).as_str());
                    return Err(text);
                }
                if text::chars(s.stdout.as_str()).len() > 0 {
                    return Err("Unexpected source import output".to_owned());
                }
                Ok(())
            },
        },
    }
}

/// The directory of the destination, by the result itself or else by the host's own view of the
/// configuration's directory.
pub open spec fn state_directory(
    result: PublishedSelection,
    config: Seq<char>,
    canonical: Result<String, String>,
) -> Result<Seq<char>, Seq<char>> {
    match result.destination {
        Some(destination) => if !path::same_path(destination.config_path@, config) {
            Err("Import result belongs to another configuration"@)
        } else {
            match path_complaint(destination.state_directory@) {
                Some(e) => Err(e),
                None => Ok(destination.state_directory@),
            }
        },
        None => match canonical {
            Ok(directory) => Ok(directory@),
            Err(e) => Err(e@),
        },
    }
}

/// All media lie directly in a directory.
pub open spec fn all_in(dependencies: Seq<AssetDependency>, directory: Seq<char>) -> bool {
    forall|i: int|
        0 <= i < dependencies.len() ==> lies_in((#[trigger] dependencies[i]).path@, directory)
}

/// What speaks against a result: `canonical` is the canonical directory of the configuration, and
/// `dependencies` the media that the result refers to.
pub open spec fn result_complaint(
    result: PublishedSelection,
    config: Seq<char>,
    id: Seq<char>,
    canonical: Result<String, String>,
    dependencies: Result<Vec<AssetDependency>, String>,
) -> Option<Seq<char>> {
    if result.import_id@ != id {
        Some("Destination returned a different import identity"@)
    } else if path::parent_of(config) is None {
        Some("Destination configuration has no parent"@)
    } else if !valid_id(id) {
        Some("Invalid managed import ID"@)
    } else {
        match state_directory(result, config, canonical) {
            Err(e) => Some(e),
            Ok(directory) => match dependencies {
                Err(e) => Some(e@),
                Ok(list) => if all_in(list@, import_directory(directory, id)) {
                    None
                } else {
                    Some("Destination returned paths outside the authorized managed import"@)
                },
            },
        }
    }
}

fn directory_of(
    result: &PublishedSelection,
    config: &str,
    canonical: &Result<String, String>,
) -> (r: Result<String, String>)
    ensures
        match r {
            Ok(directory) => state_directory(*result, config@, *canonical) == Ok::<
                Seq<char>,
                Seq<char>,
            >(directory@),
            Err(e) => state_directory(*result, config@, *canonical) == Err::<Seq<char>, Seq<char>>(
                e@,
            ),
        },
{
    match &result.destination {
        Some(destination) => {
            if !path::same(destination.config_path.as_str(), config) {
                return Err("Import result belongs to another configuration".to_owned());
            }
            match container_destination::absolute(destination.state_directory.as_str()) {
                Err(e) => Err(e),
                Ok(_) => Ok(destination.state_directory.clone()),
            }
        },
        None => match canonical {
            Ok(directory) => Ok(directory.clone()),
            Err(e) => Err(e.clone()),
        },
    }
}

fn all_stand_in(dependencies: &Vec<AssetDependency>, directory: &str) -> (r: bool)
    ensures
        r == all_in(dependencies@, directory@),
{
    let mut i: usize = 0;
    while i < dependencies.len()
        invariant
            i <= dependencies@.len(),
            forall|j: int|
                0 <= j < i ==> lies_in((#[trigger] dependencies@[j]).path@, directory@),
        decreases dependencies@.len() - i,
    {
        if !stands_in(dependencies[i].path.as_str(), directory) {
            assert(!lies_in(dependencies@[i as int].path@, directory@));
            return false;
        }
        i += 1;
    }
    true
}

/// Whether a result is of the requested import and stays within its directory.
pub fn validate_result(
    result: &PublishedSelection,
    config: &str,
    id: &str,
    canonical: &Result<String, String>,
    dependencies: &Result<Vec<AssetDependency>, String>,
) -> (r: Result<(), String>)
    ensures
        complaint(r) == result_complaint(*result, config@, id@, *canonical, *dependencies),
{
    if !text::eq(result.import_id.as_str(), id) {
        return Err("Destination returned a different import identity".to_owned());
    }
    if path::parent(config).is_none() {
        return Err("Destination configuration has no parent".to_owned());
    }
    validate_id(id)?;
    let directory = match directory_of(result, config, canonical) {
        Ok(directory) => directory,
        Err(e) => {
            return Err(e);
        },
    };
    match dependencies {
        Err(e) => Err(e.clone()),
        Ok(list) => {
            if all_stand_in(list, import_path(directory.as_str(), id).as_str()) {
                Ok(())
            } else {
                Err("Destination returned paths outside the authorized managed import".to_owned())
            }
        },
    }
}

#[derive(Clone, Copy, Debug, PartialEq, Eq, Structural)]
pub enum LaunchStep {
    FindCaller,
    LoadDeployment,
    VerifyDeployment,
    Discover,
    FindSystem,
    Preflight,
    Transfer,
    Validate,
    Imported,
    Failed,
}

pub open spec fn rank(step: LaunchStep) -> int {
    match step {
        LaunchStep::FindCaller => 0,
        LaunchStep::LoadDeployment => 1,
        LaunchStep::VerifyDeployment => 2,
        LaunchStep::Discover => 3,
        LaunchStep::FindSystem => 3,
        LaunchStep::Preflight => 4,
        LaunchStep::Transfer => 5,
        LaunchStep::Validate => 6,
        LaunchStep::Imported => 7,
        LaunchStep::Failed => 8,
    }
}

/// A launch under way.
pub struct Launch {
    pub scope: ServiceScope,
    /// The file that holds what was selected.
    pub selection: String,
    pub config: String,
    pub id: String,
    /// Whether the destination lies in a box.
    pub boxed: bool,
    /// The caller who was authorized.
    pub account: Option<Account>,
    /// What the host records of the box.
    pub deployment: Option<Deployment>,
    /// The destination in the box.
    pub execution: Option<Execution>,
    /// The account of the system service, where the media go to it outside a box.
    pub system: Option<Account>,
    pub step: LaunchStep,
    pub error: String,
    /// The steps that succeeded, in order.
    pub log: Ghost<Seq<LaunchStep>>,
}

/// Whether a launch takes a step.
pub open spec fn applies(step: LaunchStep, boxed: bool, scope: ServiceScope) -> bool {
    match step {
        LaunchStep::VerifyDeployment => boxed,
        LaunchStep::Discover => boxed,
        LaunchStep::FindSystem => !boxed && scope == ServiceScope::System,
        _ => true,
    }
}

pub open spec fn stops(before: Launch, after: Launch, text: Seq<char>) -> bool {
    after == (Launch { step: LaunchStep::Failed, error: after.error, ..before }) && after.error@
        == text
}

pub open spec fn moves(before: Launch, after: Launch, next: LaunchStep) -> bool {
    after == (Launch { step: next, log: Ghost(before.log@.push(before.step)), ..before })
}

impl Launch {
    /// Every step that this launch takes before the present one succeeded.
    pub open spec fn wf(self) -> bool {
        self.step != LaunchStep::Failed ==> {
            &&& forall|s: LaunchStep|
                rank(s) < rank(self.step) && applies(s, self.boxed, self.scope)
                    ==> #[trigger] self.log@.contains(s)
            &&& rank(self.step) > 0 ==> self.account is Some
            &&& self.boxed == (self.deployment is Some)
            &&& rank(self.step) > 3 && self.boxed ==> self.execution is Some
            &&& rank(self.step) > 3 && !self.boxed && self.scope == ServiceScope::System
                ==> self.system is Some
        }
    }

    pub fn begin(scope: ServiceScope, native: bool, selection: &str, config: &str, id: &str) -> (r:
        Result<Launch, String>)
        ensures
            match r {
                Ok(l) => {
                    &&& request_complaint(native, selection@, config@, id@) is None
                    &&& l.wf()
                    &&& l.step == LaunchStep::FindCaller
                    &&& l.scope == scope
                    &&& l.selection@ == selection@
                    &&& l.config@ == config@
                    &&& l.id@ == id@
                    &&& l.system is None
                    &&& !l.boxed
                    &&& l.account is None
                    &&& l.deployment is None
                    &&& l.execution is None
                    &&& l.log@ == Seq::<LaunchStep>::empty()
                },
                Err(e) => request_complaint(native, selection@, config@, id@) == Some(e@),
            },
    {
        if !native {
            return Err("Managed import launching requires the native host application".to_owned());
        }
        if !(path::absolute(selection) && text::len(selection) <= MAX_PATH && path::absolute(
            config,
        )) {
            return Err("Select absolute input and destination paths".to_owned());
        }
        match validate_id(id) {
            Ok(_) => {},
            Err(e) => {
                return Err(e);
            },
        }
        Ok(
            Launch {
                scope,
                selection: selection.to_owned(),
                system: None,
                config: config.to_owned(),
                id: id.to_owned(),
                boxed: false,
                account: None,
                deployment: None,
                execution: None,
                step: LaunchStep::FindCaller,
                error: String::new(),
                log: Ghost(Seq::empty()),
            },
        )
    }

    fn advance(&mut self, next: LaunchStep)
        requires
            old(self).step != LaunchStep::Failed,
            next != LaunchStep::Failed,
            forall|s: LaunchStep|
                rank(s) < rank(old(self).step) && applies(s, old(self).boxed, old(self).scope)
                    ==> #[trigger] old(self).log@.contains(s),
            old(self).account is Some,
            old(self).boxed == (old(self).deployment is Some),
            rank(next) > 3 && old(self).boxed ==> old(self).execution is Some,
            rank(next) > 3 && !old(self).boxed && old(self).scope == ServiceScope::System ==> old(
                self,
            ).system is Some,
            forall|s: LaunchStep|
                #[trigger] rank(s) < rank(next) && applies(s, old(self).boxed, old(self).scope)
                    ==> rank(s) < rank(old(self).step) || s == old(self).step,
        ensures
            final(self).wf(),
            moves(*old(self), *final(self), next),
    {
        proof {
            steps::push_holds(self.log@, self.step);
        }
        self.log = Ghost(self.log@.push(self.step));
        self.step = next;
    }

    /// A step could not be done.
    pub fn failed(&mut self, reason: &str)
        ensures
            final(self).wf(),
            stops(*old(self), *final(self), reason@),
    {
        self.step = LaunchStep::Failed;
        self.error = reason.to_owned();
    }

    /// The caller who was authorized.
    pub fn caller(&mut self, account: Account)
        requires
            old(self).wf(),
            old(self).step == LaunchStep::FindCaller,
        ensures
            final(self).wf(),
            moves(
                (Launch { account: Some(account), ..*old(self) }),
                *final(self),
                LaunchStep::LoadDeployment,
            ),
    {
        self.account = Some(account);
        self.advance(LaunchStep::LoadDeployment);
    }

    /// What the host records of a box, where the daemon is deployed in one.
    pub fn deployment(&mut self, found: Option<Deployment>)
        requires
            old(self).wf(),
            old(self).step == LaunchStep::LoadDeployment,
        ensures
            final(self).wf(),
            moves(
                (Launch { boxed: found is Some, deployment: found, ..*old(self) }),
                *final(self),
                if found is Some {
                    LaunchStep::VerifyDeployment
                } else {
                    match old(self).scope {
                        ServiceScope::User => LaunchStep::Preflight,
                        ServiceScope::System => LaunchStep::FindSystem,
                    }
                },
            ),
    {
        self.boxed = found.is_some();
        self.deployment = found;
        if self.boxed {
            self.advance(LaunchStep::VerifyDeployment);
        } else {
            match self.scope {
                ServiceScope::User => {
                    self.advance(LaunchStep::Preflight);
                },
                ServiceScope::System => {
                    self.advance(LaunchStep::FindSystem);
                },
            }
        }
    }

    /// What came of inspecting the installed units with the deployment, which is `text` written out.
    /// They must be the caller's, and lead to the configuration that was selected.
    pub fn deployed(
        &mut self,
        names: &ConfigNames,
        etc: &Metadata,
        text: &str,
        output: &Result<Output, String>,
    )
        requires
            old(self).wf(),
            old(self).step == LaunchStep::VerifyDeployment,
            old(self).boxed,
        ensures
            final(self).wf(),
            old(self).account matches Some(account) && old(self).deployment matches Some(d)
                && match installed_complaint(d, *names, account, true, *etc, text@, *output) {
                Some(e) => stops(*old(self), *final(self), e),
                None => if path::same_path(d.route.config_of(old(self).scope), old(self).config@) {
                    moves(*old(self), *final(self), LaunchStep::Discover)
                } else {
                    stops(
                        *old(self),
                        *final(self),
                        "The selected configuration differs from the installed Distrobox destination"@,
                    )
                },
            },
    {
        let verdict = match (&self.account, &self.deployment) {
            (Some(account), Some(deployment)) => {
                match deployment.verify_installed(account, names, true, etc, text, output) {
                    Err(e) => Err(e),
                    Ok(_) => {
                        let (config, _) = deployment.route.paths(self.scope);
                        if path::same(config.as_str(), self.config.as_str()) {
                            Ok(())
                        } else {
                            Err(
                                "The selected configuration differs from the installed Distrobox destination".to_owned(),
                            )
                        }
                    },
                }
            },
            _ => Ok(()),
        };
        match verdict {
            Ok(_) => self.advance(LaunchStep::Discover),
            Err(e) => self.failed(e.as_str()),
        }
    }

    /// What came of asking the box for a report on the destination. `name` is what the shared rule
    /// says of its configuration.
    pub fn discovered(&mut self, name: &Result<(), String>, found: &DestinationAnswer)
        requires
            old(self).wf(),
            old(self).step == LaunchStep::Discover,
            old(self).boxed,
        ensures
            final(self).wf(),
            old(self).account matches Some(account) && old(self).deployment matches Some(d)
                && match discovered_of(d.route, true, account, old(self).scope, *name, *found) {
                Err(e) => stops(*old(self), *final(self), e),
                Ok(execution) => moves(
                    (Launch { execution: Some(execution), ..*old(self) }),
                    *final(self),
                    LaunchStep::Preflight,
                ),
            },
    {
        let answer = match (&self.account, &self.deployment) {
            (Some(account), Some(deployment)) => deployment.route.find(
                true,
                account,
                self.scope,
                name,
                found,
            ),
            _ => Err(String::new()),
        };
        match answer {
            Ok(execution) => {
                self.execution = Some(execution);
                self.advance(LaunchStep::Preflight);
            },
            Err(e) => {
                self.failed(e.as_str());
            },
        }
    }

    /// The account of the system service.
    pub fn system(&mut self, account: Account)
        requires
            old(self).wf(),
            old(self).step == LaunchStep::FindSystem,
            !old(self).boxed,
        ensures
            final(self).wf(),
            moves(
                (Launch { system: Some(account), ..*old(self) }),
                *final(self),
                LaunchStep::Preflight,
            ),
    {
        self.system = Some(account);
        self.advance(LaunchStep::Preflight);
    }

    /// Whether an account is the one that receives the media. In a box it is the caller as the box
    /// takes it up, which is left open.
    pub open spec fn receives(self, account: Account) -> bool {
        !self.boxed ==> match self.scope {
            ServiceScope::User => self.account is Some && same_account(account, self.account->0),
            ServiceScope::System => self.system is Some && same_account(account, self.system->0),
        }
    }

    /// The preflight of the destination, which came to its end.
    pub fn preflight(&mut self, preflight: &Preflight)
        requires
            old(self).wf(),
            old(self).step == LaunchStep::Preflight,
            preflight.wf(),
            preflight.scope == old(self).scope,
            old(self).receives(preflight.account),
            preflight.step == PreflightStep::Checked || preflight.step == PreflightStep::Failed,
        ensures
            final(self).wf(),
            if preflight.step == PreflightStep::Failed {
                stops(*old(self), *final(self), preflight.error@)
            } else if path::same_path(preflight.report->0.config_path@, old(self).config@) {
                moves(*old(self), *final(self), LaunchStep::Transfer)
            } else {
                stops(
                    *old(self),
                    *final(self),
                    "The selected daemon configuration differs from the destination service. Reconnect to the intended daemon"@,
                )
            },
    {
        if let PreflightStep::Failed = preflight.step {
            self.failed(preflight.error.as_str());
            return;
        }
        let same = match &preflight.report {
            Some(report) => path::same(report.config_path.as_str(), self.config.as_str()),
            None => false,
        };
        if same {
            self.advance(LaunchStep::Transfer);
        } else {
            self.failed(
                "The selected daemon configuration differs from the destination service. Reconnect to the intended daemon",
            );
        }
    }

    /// `Transfer`: the arguments of the helper that sends, under the caller's account.
    pub fn sending_arguments(&self) -> (r: Vec<String>)
        ensures
            texts(r@) == source_of(self.selection@),
    {
        source_arguments(self.selection.as_str())
    }

    /// `Transfer`: the arguments of the helper that receives, under the receiving account.
    pub fn receiving_arguments(&self) -> (r: Vec<String>)
        ensures
            texts(r@) == destination_of(self.scope, self.id@, self.config@),
    {
        destination_arguments(self.scope, self.id.as_str(), self.config.as_str())
    }

    /// `Transfer`: the run of the helper that sends, as it begins.
    pub fn sending(&self) -> (r: Result<Run, String>)
        ensures
            r matches Ok(run) && run.wf() && run.timeout_ms == TRANSFER_MS && run.output.limit
                == MAX_OUTPUT && run.step == RunStep::CheckTime && run.output.bytes@.len() == 0
                && run.errors.bytes@.len() == 0 && !run.collected,
    {
        Run::begin(TRANSFER_MS, MAX_OUTPUT)
    }

    /// `Transfer`: the run of the helper that receives, as it begins.
    pub fn receiving(&self) -> (r: Result<Run, String>)
        ensures
            r matches Ok(run) && run.wf() && run.timeout_ms == TRANSFER_MS && run.output.limit
                == LARGEST_OUTPUT && run.step == RunStep::CheckTime && run.output.bytes@.len() == 0
                && run.errors.bytes@.len() == 0 && !run.collected,
    {
        Run::begin(TRANSFER_MS, LARGEST_OUTPUT)
    }

    /// `Transfer`: the two helpers ended, or could not be run.
    pub fn transferred(&mut self, source: &Result<Ran, String>, destination: &Result<Ran, String>)
        requires
            old(self).wf(),
            old(self).step == LaunchStep::Transfer,
            ran_within(*source, TRANSFER_MS, MAX_OUTPUT),
            ran_within(*destination, TRANSFER_MS, LARGEST_OUTPUT),
        ensures
            final(self).wf(),
            match outputs_complaint(left_by(*source), left_by(*destination)) {
                Some(e) => stops(*old(self), *final(self), e),
                None => moves(*old(self), *final(self), LaunchStep::Validate),
            },
    {
        match check_outputs(&ended(source), &ended(destination)) {
            Ok(_) => {
                self.advance(LaunchStep::Validate);
            },
            Err(e) => {
                self.failed(e.as_str());
            },
        }
    }

    /// The result that the receiving helper printed, where it could be read.
    pub fn result(
        &mut self,
        result: &Result<PublishedSelection, String>,
        canonical: &Result<String, String>,
        dependencies: &Result<Vec<AssetDependency>, String>,
    )
        requires
            old(self).wf(),
            old(self).step == LaunchStep::Validate,
        ensures
            final(self).wf(),
            match *result {
                Err(e) => stops(
                    *old(self),
                    *final(self),
                    "Invalid destination import result. Inspect storage before retrying: "@ + e@,
                ),
                Ok(result) => match result_complaint(
                    result,
                    old(self).config@,
                    old(self).id@,
                    *canonical,
                    *dependencies,
                ) {
                    Some(e) => stops(*old(self), *final(self), e),
                    None => moves(*old(self), *final(self), LaunchStep::Imported),
                },
            },
    {
        match result {
            Err(e) => {
                self.failed(
                    text::worded(
                        "Invalid destination import result. Inspect storage before retrying: ",
                        e.as_str(),
                    ).as_str(),
                );
            },
            Ok(result) => {
                match validate_result(
                    result,
                    self.config.as_str(),
                    self.id.as_str(),
                    canonical,
                    dependencies,
                ) {
                    Ok(_) => {
                        self.advance(LaunchStep::Imported);
                    },
                    Err(e) => {
                        self.failed(e.as_str());
                    },
                }
            },
        }
    }
}

/// Media are sent only after the caller was identified and the preflight found the configuration that
/// was asked for, in a box also the deployment.
pub proof fn transfers_follow_the_preflight(launch: Launch)
    requires
        launch.wf(),
        launch.step == LaunchStep::Transfer,
    ensures
        launch.log@.contains(LaunchStep::FindCaller),
        launch.log@.contains(LaunchStep::Preflight),
        launch.boxed ==> launch.log@.contains(LaunchStep::VerifyDeployment)
            && launch.log@.contains(LaunchStep::Discover),
{
}

/// An accepted result lies in the directory of the import that was asked for.
pub proof fn accepted_results_stay_within_the_import(
    result: PublishedSelection,
    config: Seq<char>,
    id: Seq<char>,
    canonical: Result<String, String>,
    dependencies: Result<Vec<AssetDependency>, String>,
    i: int,
)
    requires
        result_complaint(result, config, id, canonical, dependencies) is None,
        dependencies is Ok,
        0 <= i < dependencies->Ok_0@.len(),
    ensures
        result.import_id@ == id,
        state_directory(result, config, canonical) is Ok,
        lies_in(
            dependencies->Ok_0@[i].path@,
            import_directory(state_directory(result, config, canonical)->Ok_0, id),
        ),
{
}

/// A launch may begin exactly on the host, with absolute paths of bounded length and a valid
/// identifier.
pub proof fn launches_begin_on_the_host(
    native: bool,
    selection: Seq<char>,
    config: Seq<char>,
    id: Seq<char>,
)
    ensures
        request_complaint(native, selection, config, id) is None <==> native && path::is_absolute(
            selection,
        ) && text::byte_len(selection) <= 4096 && path::is_absolute(config) && text::hex_of_len(
            id,
            32,
        ),
{
}

/// The two helpers did their work exactly where both could be run and succeeded and the sender printed
/// nothing.
pub proof fn transfers_succeed_on_both_sides(
    source: Result<(Option<i32>, Seq<char>, Seq<char>), Seq<char>>,
    destination: Result<(Option<i32>, Seq<char>, Seq<char>), Seq<char>>,
)
    ensures
        outputs_complaint(source, destination) is None <==> source is Ok && destination is Ok
            && source->Ok_0.0 == Some(0i32) && destination->Ok_0.0 == Some(0i32)
            && source->Ok_0.1.len() == 0,
{
}

/// A result is accepted exactly where it is of this import and of the configuration that was reviewed,
/// and every file in it lies directly in the directory of that import.
pub proof fn results_are_accepted_of_this_import(
    result: PublishedSelection,
    config: Seq<char>,
    id: Seq<char>,
    canonical: Result<String, String>,
    dependencies: Result<Vec<AssetDependency>, String>,
)
    ensures
        result_complaint(result, config, id, canonical, dependencies) is None <==> {
            let place = result.destination->0;
            let directory = if result.destination is Some {
                place.state_directory@
            } else {
                canonical->Ok_0@
            };
            &&& result.import_id@ == id
            &&& text::hex_of_len(id, 32)
            &&& path::parent_of(config) is Some
            &&& result.destination is Some ==> path::same_path(place.config_path@, config)
                && path_complaint(place.state_directory@) is None
            &&& result.destination is None ==> canonical is Ok
            &&& dependencies is Ok
            &&& forall|i: int|
                0 <= i < dependencies->Ok_0@.len() ==> lies_in(
                    (#[trigger] dependencies->Ok_0@[i]).path@,
                    path::join_of(path::join_of(directory, "media/imports"@), id),
                )
        },
{
}

/// The sender is told the selection, and the receiver the service, the import and the configuration
/// of the launch. The two services are never asked for alike.
pub proof fn helpers_are_told_the_request(
    scope: ServiceScope,
    selection: Seq<char>,
    id: Seq<char>,
    config: Seq<char>,
)
    ensures
        source_of(selection).last() == selection,
        destination_of(scope, id, config)[2] == scope.word_spec(),
        destination_of(scope, id, config)[4] == id,
        destination_of(scope, id, config)[6] == config,
        ServiceScope::User.word_spec() == "user"@,
        ServiceScope::System.word_spec() == "system"@,
{
}

/// A launch asks for the box exactly where there is one, and for the account of the system service
/// exactly where that receives outside a box.
pub proof fn launches_look_where_the_media_go(boxed: bool, scope: ServiceScope)
    ensures
        applies(LaunchStep::VerifyDeployment, boxed, scope) <==> boxed,
        applies(LaunchStep::Discover, boxed, scope) <==> boxed,
        applies(LaunchStep::FindSystem, boxed, scope) <==> !boxed && scope == ServiceScope::System,
        applies(LaunchStep::Preflight, boxed, scope),
        applies(LaunchStep::Transfer, boxed, scope),
        applies(LaunchStep::Validate, boxed, scope),
{
}

} // verus!
