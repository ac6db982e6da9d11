//! Requests from a box to the control helper on its host.

use crate::account::Account;
use crate::command::Output;
use crate::container_deployment::{owner_complaint, Deployment};
use crate::container_destination::{complaint, ConfigNames};
use crate::destination::check_output;
use crate::distrobox_unit::written;
use crate::files::Metadata;
use crate::services::{InstallationContext, ServiceChangeRequest, ServiceScope};
use crate::text;
use crate::text::{outcome, texts};
use vstd::prelude::*;

verus! {

/// How long progress is taken as read while a switch is under way, in milliseconds.
pub const ACTIVE_MS: u64 = 2_000;

/// How long progress is taken as read otherwise, in milliseconds.
pub const SETTLED_MS: u64 = 60_000;

/// The shell command by which the host runs whichever helper it has.
pub open spec fn dispatch_spec() -> Seq<char> {
    "for helper in /usr/bin/lianli-control /usr/local/libexec/lianli/lianli-control; do if [ -e \"$helper\" ] || [ -L \"$helper\" ]; then exec \"$helper\" \"$@\"; fi; done; echo 'The Distrobox host helper is missing' >&2; exit 127"@
}

pub fn dispatch() -> (r: &'static str)
    ensures
        r@ == dispatch_spec(),
{
    "for helper in /usr/bin/lianli-control /usr/local/libexec/lianli/lianli-control; do if [ -e \"$helper\" ] || [ -L \"$helper\" ]; then exec \"$helper\" \"$@\"; fi; done; echo 'The Distrobox host helper is missing' >&2; exit 127"
}

pub open spec fn choice_of(scope: Option<ServiceScope>, recover: bool, carry_settings: bool) -> Result<
    ServiceChangeRequest,
    Seq<char>,
> {
    match (scope, recover) {
        (None, true) => Ok(ServiceChangeRequest::Recover {  }),
        (Some(scope), false) => Ok(ServiceChangeRequest::Switch { scope, carry_settings }),
        _ => Err("Choose one destination mode or recovery"@),
    }
}

/// The request that a caller chose: one destination, or recovery.
pub fn request(scope: Option<ServiceScope>, recover: bool, carry_settings: bool) -> (r: Result<
    ServiceChangeRequest,
    String,
>)
    ensures
        outcome(r) == choice_of(scope, recover, carry_settings),
{
    match (scope, recover) {
        (None, true) => Ok(ServiceChangeRequest::Recover {  }),
        (Some(scope), false) => Ok(ServiceChangeRequest::Switch { scope, carry_settings }),
        _ => Err("Choose one destination mode or recovery".to_owned()),
    }
}

/// The arguments that carry a request.
pub open spec fn request_of(request: ServiceChangeRequest) -> Seq<Seq<char>> {
    match request {
        ServiceChangeRequest::Recover {  } => seq!["--recover"@],
        ServiceChangeRequest::Switch { scope, carry_settings } => if carry_settings {
            seq!["--scope"@, scope.word_spec(), "--carry-settings"@]
        } else {
            seq!["--scope"@, scope.word_spec()]
        },
    }
}

pub fn request_arguments(request: ServiceChangeRequest) -> (r: Vec<String>)
    ensures
        texts(r@) == request_of(request),
{
    let mut r: Vec<String> = Vec::new();
    match request {
        ServiceChangeRequest::Recover {  } => {
            r.push("--recover".to_owned());
        },
        ServiceChangeRequest::Switch { scope, carry_settings } => {
            r.push("--scope".to_owned());
            r.push(scope.word().to_owned());
            if carry_settings {
                r.push("--carry-settings".to_owned());
            }
        },
    }
    assert(texts(r@) =~= request_of(request));
    r
}

/// The arguments of a request from a box.
pub fn arguments(name: &str, request: ServiceChangeRequest) -> (r: Vec<String>)
    ensures
        texts(r@) == seq!["request-switch"@, "--expected-box"@, name@] + request_of(request),
{
    let mut r: Vec<String> = Vec::new();
    r.push("request-switch".to_owned());
    r.push("--expected-box".to_owned());
    r.push(name.to_owned());
    let ghost head = texts(r@);
    assert(head =~= seq!["request-switch"@, "--expected-box"@, name@]);
    let mut rest = request_arguments(request);
    let ghost tail = texts(rest@);
    r.append(&mut rest);
    assert(texts(r@) =~= head + tail);
    r
}

/// The command by which a box asks its host.
pub open spec fn bridge_of(arguments: Seq<Seq<char>>) -> Seq<Seq<char>> {
    seq!["-c"@, dispatch_spec(), "lianli-host-switch"@] + arguments
}

/// The arguments of the host's shell for a request from a box.
pub fn call(context: &InstallationContext, arguments: &Vec<String>) -> (r: Result<
    Vec<String>,
    String,
>)
    ensures
        match r {
            Ok(args) => *context is Distrobox && texts(args@) == bridge_of(texts(arguments@)),
            Err(e) => !(*context is Distrobox) && e@
                == "Use the host bridge from a supported Distrobox"@,
        },
{
    match context {
        InstallationContext::Distrobox { .. } => {},
        _ => {
            return Err("Use the host bridge from a supported Distrobox".to_owned());
        },
    }
    let mut args: Vec<String> = Vec::new();
    args.push("-c".to_owned());
    args.push(dispatch().to_owned());
    args.push("lianli-host-switch".to_owned());
    let ghost head = texts(args@);
    assert(head =~= seq!["-c"@, dispatch_spec(), "lianli-host-switch"@]);
    let ghost all = texts(arguments@);
    let mut i: usize = 0;
    assert(texts(args@) =~= head + all.take(0));
    while i < arguments.len()
        invariant
            all == texts(arguments@),
            i <= arguments@.len(),
            texts(args@) == head + all.take(i as int),
        decreases arguments@.len() - i,
    {
        proof {
            text::texts_push(args@, arguments@[i as int]);
        }
        args.push(arguments[i].clone());
        i += 1;
        assert(head + all.take(i as int) =~= (head + all.take(i - 1)).push(all[i - 1]));
    }
    assert(all.take(all.len() as int) =~= all);
    Ok(args)
}

/// The box in which this process runs.
pub fn box_name(context: &InstallationContext) -> (r: Result<String, String>)
    ensures
        match r {
            Ok(name) => *context matches InstallationContext::Distrobox { name: own } && name == own,
            Err(e) => !(*context is Distrobox) && e@
                == "Container switching requires a supported Distrobox"@,
        },
{
    match context {
        InstallationContext::Distrobox { name } => Ok(name.clone()),
        _ => Err("Container switching requires a supported Distrobox".to_owned()),
    }
}

/// What a box asks its host besides a switch.
#[derive(Clone, Copy, Debug, PartialEq, Eq, Structural)]
pub enum Question {
    Progress,
    Services,
    Deployment,
}

/// How long the host may take to begin a switch, in milliseconds.
pub const START_MS: u64 = 220_000;

impl Question {
    pub open spec fn word_spec(self) -> Seq<char> {
        match self {
            Question::Progress => "switch-status"@,
            Question::Services => "check-container-services"@,
            Question::Deployment => "read-container-deployment"@,
        }
    }

    /// How long the host may take to answer, in milliseconds.
    pub fn timeout_ms(self) -> (r: u64)
        ensures
            r == match self {
                Question::Services => 20_000u64,
                _ => 4_000u64,
            },
    {
        match self {
            Question::Services => 20_000,
            _ => 4_000,
        }
    }

    /// The arguments of the question.
    pub fn arguments(self, name: &str) -> (r: Vec<String>)
        ensures
            texts(r@) == seq![self.word_spec(), "--expected-box"@, name@],
    {
        let mut r: Vec<String> = Vec::new();
        r.push(
            match self {
                Question::Progress => "switch-status".to_owned(),
                Question::Services => "check-container-services".to_owned(),
                Question::Deployment => "read-container-deployment".to_owned(),
            },
        );
        r.push("--expected-box".to_owned());
        r.push(name.to_owned());
        assert(texts(r@) =~= seq![self.word_spec(), "--expected-box"@, name@]);
        r
    }
}

/// The name of the switch that the host began, by what its helper answered and what is wrong with
/// the form of that name.
pub open spec fn started_of(
    context: InstallationContext,
    output: Result<Output, String>,
    answer: Result<String, String>,
    form: Option<Seq<char>>,
) -> Result<Seq<char>, Seq<char>> {
    match output {
        _ if !(context is Distrobox) => Err("Container switching requires a supported Distrobox"@),
        Err(e) => Err(
            "Host switch submission was not confirmed. Recheck progress before retrying: "@ + e@,
        ),
        Ok(o) => if o.code != Some(0i32) {
            Err("Host switch submission failed: "@ + text::trimmed(o.stderr@))
        } else {
            match answer {
                Err(e) => Err("Invalid host switch response: "@ + e@),
                Ok(id) => match form {
                    Some(e) => Err(e),
                    None => Ok(id@),
                },
            }
        },
    }
}

/// A switch that the host was asked for from a box: `answer` is what its helper printed, and `form` whether that
/// has the form of an invocation.
pub fn start(
    context: &InstallationContext,
    output: &Result<Output, String>,
    answer: &Result<String, String>,
    form: &Result<(), String>,
) -> (r: Result<String, String>)
    ensures
        written(r) == started_of(*context, *output, *answer, complaint(*form)),
{
    box_name(context)?;
    match output {
        Err(e) => {
            let mut text =
                "Host switch submission was not confirmed. Recheck progress before retrying: ".to_owned();
            text.append(e.as_str());
            Err(text)
        },
        Ok(o) => {
            check_output(o, "Host switch submission failed: ")?;
            match answer {
                Err(e) => Err(text::worded("Invalid host switch response: ", e.as_str())),
                Ok(id) => match form {
                    Err(e) => Err(e.clone()),
                    Ok(_) => Ok(id.clone()),
                },
            }
        },
    }
}

/// Whether the services of the box are set up on its host.
pub fn verify_services(context: &InstallationContext, output: &Result<Output, String>) -> (r: Result<
    (),
    String,
>)
    ensures
        outcome(r) == if !(*context is Distrobox) {
            Err("Container switching requires a supported Distrobox"@)
        } else {
            match *output {
                Err(e) => Err(e@),
                Ok(o) => if o.code == Some(0i32) {
                    Ok(())
                } else {
                    Err("Container service setup is unverified: "@ + text::trimmed(o.stderr@))
                },
            }
        },
{
    box_name(context)?;
    match output {
        Err(e) => Err(e.clone()),
        Ok(o) => check_output(o, "Container service setup is unverified: "),
    }
}

/// What the host says that it has set up, where its file of that is there at all.
pub fn deployment<T>(
    context: &InstallationContext,
    there: &Result<bool, String>,
    output: &Result<Output, String>,
    answer: Result<Option<T>, String>,
) -> (r: Result<Option<T>, String>)
    ensures
        match *there {
            Err(reason) => r matches Err(e) && e@ == reason@,
            Ok(false) => r == Ok::<Option<T>, String>(None),
            Ok(true) => match r {
                Ok(found) => output matches Ok(o) && o.code == Some(0i32) && *context is Distrobox
                    && answer == Ok::<Option<T>, String>(found),
                Err(e) => match *output {
                    _ if !(*context is Distrobox) => e@
                        == "Container switching requires a supported Distrobox"@,
                    Err(reason) => e@ == reason@,
                    Ok(o) => if o.code != Some(0i32) {
                        e@ == "Cannot inspect the existing host deployment: "@ + text::trimmed(
                            o.stderr@,
                        )
                    } else {
                        answer matches Err(reason) && e@ == "Invalid host deployment response: "@
                            + reason@
                    },
                },
            },
        },
{
    match there {
        Err(e) => return Err(e.clone()),
        Ok(found) => {
            if !*found {
                return Ok(None);
            }
        },
    }
    box_name(context)?;
    match output {
        Err(e) => Err(e.clone()),
        Ok(o) => {
            check_output(o, "Cannot inspect the existing host deployment: ")?;
            match answer {
                Err(e) => Err(text::worded("Invalid host deployment response: ", e.as_str())),
                Ok(found) => Ok(found),
            }
        },
    }
}

/// The file of the host's progress in one state.
#[derive(Clone, Copy, Debug, PartialEq, Eq, Structural)]
pub struct Fingerprint {
    pub dev: u64,
    pub ino: u64,
    pub mtime: i64,
    pub mtime_nsec: i64,
    pub len: u64,
}

pub open spec fn state_of(m: Metadata) -> Fingerprint {
    Fingerprint {
        dev: m.dev,
        ino: m.ino,
        mtime: m.mtime,
        mtime_nsec: m.mtime_nsec,
        len: m.len,
    }
}

pub fn fingerprint(m: &Metadata) -> (r: Fingerprint)
    ensures
        r == state_of(*m),
{
    Fingerprint {
        dev: m.dev,
        ino: m.ino,
        mtime: m.mtime,
        mtime_nsec: m.mtime_nsec,
        len: m.len,
    }
}

/// Whether progress that was read earlier can be used: for which state of the file it was read,
/// whether a switch was under way, and how long ago that was in milliseconds.
pub fn is_fresh(read_for: Fingerprint, active: bool, age_ms: u64, now: Fingerprint) -> (r: bool)
    ensures
        r == (read_for == now && age_ms < if active {
            ACTIVE_MS
        } else {
            SETTLED_MS
        }),
{
    let lifetime: u64 = if active {
        ACTIVE_MS
    } else {
        SETTLED_MS
    };
    read_for == now && age_ms < lifetime
}

/// Progress that was read earlier, and how long ago in milliseconds.
#[derive(Clone, Copy, Debug, PartialEq, Eq, Structural)]
pub struct CachedProgress {
    pub fingerprint: Fingerprint,
    pub active: bool,
    pub age_ms: u64,
}

impl CachedProgress {
    /// Whether the progress can be used for the host's file as it is now.
    pub open spec fn is_current(self, m: Metadata) -> bool {
        self.fingerprint == state_of(m) && self.age_ms < if self.active {
            ACTIVE_MS
        } else {
            SETTLED_MS
        }
    }
}

/// Where progress comes from.
#[derive(Clone, Copy, Debug, PartialEq, Eq, Structural)]
pub enum Source {
    /// The host has none, and what was read earlier is forgotten.
    Absent,
    Cached,
    Host,
}

/// Where progress comes from, by the host's file of it and what was read earlier.
pub fn source(found: &Result<Option<Metadata>, String>, cached: Option<CachedProgress>) -> (r: Result<
    Source,
    String,
>)
    ensures
        match *found {
            Err(reason) => r matches Err(e) && e@ == "Cannot inspect host switch progress: "@
                + reason@,
            Ok(None) => r == Ok::<Source, String>(Source::Absent),
            Ok(Some(m)) => r == Ok::<Source, String>(
                if cached matches Some(c) && c.is_current(m) {
                    Source::Cached
                } else {
                    Source::Host
                },
            ),
        },
{
    match found {
        Err(e) => Err(text::worded("Cannot inspect host switch progress: ", e.as_str())),
        Ok(None) => Ok(Source::Absent),
        Ok(Some(m)) => {
            let fresh = match cached {
                Some(c) => is_fresh(c.fingerprint, c.active, c.age_ms, fingerprint(m)),
                None => false,
            };
            if fresh {
                Ok(Source::Cached)
            } else {
                Ok(Source::Host)
            }
        },
    }
}

/// The progress of a switch as the host told it to a box.
pub open spec fn told_of<T>(
    context: InstallationContext,
    output: Result<Output, String>,
    answer: Result<Option<T>, String>,
) -> Result<Option<T>, Seq<char>> {
    if !(context is Distrobox) {
        Err("Container switching requires a supported Distrobox"@)
    } else {
        match output {
            Err(e) => Err(e@),
            Ok(o) => if o.code != Some(0i32) {
                Err("Cannot read host switch progress: "@ + text::trimmed(o.stderr@))
            } else {
                match answer {
                    Err(e) => Err("Invalid host switch progress: "@ + e@),
                    Ok(status) => Ok(status),
                }
            },
        }
    }
}

fn told<T>(
    context: &InstallationContext,
    output: &Result<Output, String>,
    answer: Result<Option<T>, String>,
) -> (r: Result<Option<T>, String>)
    ensures
        outcome(r) == told_of(*context, *output, answer),
{
    box_name(context)?;
    match output {
        Err(e) => Err(e.clone()),
        Ok(o) => {
            check_output(o, "Cannot read host switch progress: ")?;
            match answer {
                Err(e) => Err(text::worded("Invalid host switch progress: ", e.as_str())),
                Ok(status) => Ok(status),
            }
        },
    }
}

/// The progress of a switch: `found` is the host's file of it, `cached` what was read earlier, and
/// `output` and `answer` what the host told, where it is asked.
pub fn read<T>(
    context: &InstallationContext,
    found: &Result<Option<Metadata>, String>,
    cached: Option<(CachedProgress, Option<T>)>,
    output: &Result<Output, String>,
    answer: Result<Option<T>, String>,
) -> (r: Result<Option<T>, String>)
    ensures
        outcome(r) == match *found {
            Err(reason) => Err("Cannot inspect host switch progress: "@ + reason@),
            Ok(None) => Ok(None),
            Ok(Some(m)) => match cached {
                Some((c, status)) if c.is_current(m) => Ok(status),
                _ => told_of(*context, *output, answer),
            },
        },
{
    let (state, status) = match cached {
        Some((c, status)) => (Some(c), status),
        None => (None, None),
    };
    match source(found, state) {
        Err(e) => Err(e),
        Ok(Source::Absent) => Ok(None),
        Ok(Source::Cached) => Ok(status),
        Ok(Source::Host) => told(context, output, answer),
    }
}

pub open spec fn host_request_complaint(
    native: bool,
    account: Account,
    deployment: Option<(&Deployment, &ConfigNames)>,
    name: Seq<char>,
    helper: Result<(), String>,
) -> Option<Seq<char>> {
    if !native {
        Some("Handle container switch requests on the host"@)
    } else {
        match deployment {
            None => Some("Set up Distrobox services before switching modes"@),
            Some((d, names)) => if owner_complaint(*d, *names, account) is Some {
                owner_complaint(*d, *names, account)
            } else if d.route.launch.name@ != name {
                Some("The host deployment belongs to another Distrobox"@)
            } else {
                complaint(helper)
            },
        }
    }
}

/// Whether the host may act on a request from a box. `helper` is what the check of its installed
/// helper gave.
pub fn verify_host_request(
    native: bool,
    account: &Account,
    deployment: Option<(&Deployment, &ConfigNames)>,
    name: &str,
    helper: &Result<(), String>,
) -> (r: Result<(), String>)
    ensures
        match r {
            Ok(_) => host_request_complaint(native, *account, deployment, name@, *helper) is None,
            Err(e) => host_request_complaint(native, *account, deployment, name@, *helper) == Some(e@),
        },
{
    if !native {
        return Err("Handle container switch requests on the host".to_owned());
    }
    match deployment {
        None => Err("Set up Distrobox services before switching modes".to_owned()),
        Some((d, names)) => {
            d.verify_owner(account, names)?;
            if !text::eq(d.route.launch.name.as_str(), name) {
                return Err("The host deployment belongs to another Distrobox".to_owned());
            }
            match helper {
                Ok(_) => Ok(()),
                Err(e) => Err(e.clone()),
            }
        },
    }
}

spec fn request_len(request: ServiceChangeRequest) -> nat {
    match request {
        ServiceChangeRequest::Recover {  } => 1,
        ServiceChangeRequest::Switch { carry_settings, .. } => if carry_settings {
            3
        } else {
            2
        },
    }
}

/// Different requests are carried by different arguments.
pub proof fn requests_are_told_apart(a: ServiceChangeRequest, b: ServiceChangeRequest)
    requires
        request_of(a) == request_of(b),
    ensures
        a == b,
{
    reveal_strlit("user");
    reveal_strlit("system");
    assert("user"@[0] != "system"@[0]);
    assert(request_of(a).len() == request_len(a));
    assert(request_of(b).len() == request_len(b));
    if a is Switch && b is Switch {
        assert(request_of(a)[1] == request_of(b)[1]);
    }
}

/// A caller asks for exactly one thing: a switch to one mode, with the settings or without, or a
/// recovery. What is asked for is what was chosen.
pub proof fn callers_choose_one_change(
    scope: Option<ServiceScope>,
    recover: bool,
    carry_settings: bool,
)
    ensures
        choice_of(scope, recover, carry_settings) is Ok <==> (scope is Some) != recover,
        choice_of(scope, recover, carry_settings) is Ok && recover ==> choice_of(
            scope,
            recover,
            carry_settings,
        )->Ok_0 is Recover,
        choice_of(scope, recover, carry_settings) is Ok && !recover ==> choice_of(
            scope,
            recover,
            carry_settings,
        )->Ok_0 == (ServiceChangeRequest::Switch { scope: scope->0, carry_settings }),
{
}

/// A request that is sent on says the same mode and the same on the settings.
pub proof fn requests_carry_the_choice(scope: ServiceScope, carry_settings: bool)
    ensures
        ({
            let sent = request_of(ServiceChangeRequest::Switch { scope, carry_settings });
            &&& sent[0] == "--scope"@
            &&& sent[1] == (if scope == ServiceScope::User {
                "user"@
            } else {
                "system"@
            })
            &&& sent.len() == (if carry_settings {
                3int
            } else {
                2int
            })
            &&& carry_settings ==> sent[2] == "--carry-settings"@
        }),
        request_of(ServiceChangeRequest::Recover {  }) == seq!["--recover"@],
{
}

/// The host began a switch exactly where it was asked from a box, its helper succeeded and it answered
/// a well-formed name, which is that of the switch.
pub proof fn hosts_name_the_switch_they_began(
    context: InstallationContext,
    output: Result<Output, String>,
    answer: Result<String, String>,
    form: Option<Seq<char>>,
)
    ensures
        started_of(context, output, answer, form) is Ok <==> context is Distrobox && output is Ok
            && output->Ok_0.code == Some(0i32) && answer is Ok && form is None,
        started_of(context, output, answer, form) is Ok ==> started_of(context, output, answer, form)
            == Ok::<Seq<char>, Seq<char>>(answer->Ok_0@),
{
}

/// What was read of the host's progress is current exactly while the host's file is untouched, and no
/// longer than two seconds during a switch or a minute otherwise.
pub proof fn progress_is_current_while_untouched(c: CachedProgress, m: Metadata)
    ensures
        c.is_current(m) <==> {
            &&& c.fingerprint.dev == m.dev
            &&& c.fingerprint.ino == m.ino
            &&& c.fingerprint.mtime == m.mtime
            &&& c.fingerprint.mtime_nsec == m.mtime_nsec
            &&& c.fingerprint.len == m.len
            &&& c.active ==> c.age_ms < 2_000
            &&& !c.active ==> c.age_ms < 60_000
        },
{
}

/// Progress is told exactly to a box whose host could be asked, succeeded and answered what can be
/// read. It is that answer.
pub proof fn hosts_tell_their_progress<T>(
    context: InstallationContext,
    output: Result<Output, String>,
    answer: Result<Option<T>, String>,
)
    ensures
        told_of(context, output, answer) is Ok <==> context is Distrobox && output is Ok
            && output->Ok_0.code == Some(0i32) && answer is Ok,
        told_of(context, output, answer) is Ok ==> told_of(context, output, answer)->Ok_0
            == answer->Ok_0,
{
}

/// A box's request is handled exactly on the host, for the owner of the deployment that names this
/// box, where the helper is sound.
pub proof fn hosts_serve_their_own_box(
    native: bool,
    account: Account,
    deployment: Option<(&Deployment, &ConfigNames)>,
    name: Seq<char>,
    helper: Result<(), String>,
)
    ensures
        host_request_complaint(native, account, deployment, name, helper) is None <==> native && (
        deployment matches Some((d, names)) && owner_complaint(*d, *names, account) is None
            && d.route.launch.name@ == name) && helper is Ok,
{
}

} // verus!
