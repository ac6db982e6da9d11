//! Service actions that an administrator authorized for an account, and the observations of the
//! daemon that they rest on.

use crate::command::{output_complaint, Output};
use crate::account::Account;
use crate::container_deployment::{owner_complaint, Deployment};
use crate::container_destination::{complaint, ConfigNames};
use crate::daemon_probe::{Probe, ProbeStep};
use crate::destination::check_output;
use crate::lingering;
use crate::reservation::{held_complaint, Held};
use crate::services::{
    DaemonInfo, DaemonMode, FileIdentity, OwnerProcess, OwnershipSnapshot, ServiceAction, ServiceActionRequest,
    ServiceProbe, ServiceReport, ServiceScope,
};
use crate::steps;
use crate::text;
use crate::text::{outcome, texts};
use vstd::prelude::*;

verus! {

/// The owner of the hardware and the daemon behind it, as an account saw them.
#[derive(Clone, Debug)]
pub struct Observation {
    pub owner: OwnershipSnapshot,
    pub info: DaemonInfo,
}

pub fn check_observer(native: bool, uid: u32) -> (r: Result<(), String>)
    ensures
        outcome(r) == if native && uid != 0 {
            Ok(())
        } else {
            Err("Observe native services under the caller's unprivileged account"@)
        },
{
    if native && uid != 0 {
        Ok(())
    } else {
        Err("Observe native services under the caller's unprivileged account".to_owned())
    }
}

/// The owner of the hardware that a report knows.
pub open spec fn known_owner(report: ServiceReport) -> Option<OwnershipSnapshot> {
    match report.ownership {
        Some(ServiceProbe::Known { value }) => Some(value),
        _ => None,
    }
}

/// What an unprivileged account on the host sees of the daemon: the report is taken first, and then
/// the owner of the hardware is asked.
pub open spec fn observed_of(
    native: bool,
    uid: u32,
    report: ServiceReport,
    probe: Probe,
) -> Result<Observation, Seq<char>> {
    if !(native && uid != 0) {
        Err("Observe native services under the caller's unprivileged account"@)
    } else {
        match known_owner(report) {
            None => Err("The hardware owner could not be verified"@),
            Some(owner) => if probe.step == ProbeStep::Failed {
                Err(probe.error@)
            } else {
                Ok(Observation { owner, info: probe.info->0 })
            },
        }
    }
}

/// The owner of the hardware and the daemon behind it. `probe` is the probe of that owner, which came
/// to its end.
pub fn observe(
    native: bool,
    uid: u32,
    scope: ServiceScope,
    report: ServiceReport,
    probe: Probe,
) -> (r: Result<Observation, String>)
    requires
        native && uid != 0 && known_owner(report) is Some ==> {
            &&& probe.wf()
            &&& probe.native
            &&& probe.scope == scope
            &&& probe.owner == known_owner(report)->0
            &&& probe.step == ProbeStep::Probed || probe.step == ProbeStep::Failed
        },
    ensures
        outcome(r) == observed_of(native, uid, report, probe),
{
    check_observer(native, uid)?;
    match report.ownership {
        Some(ServiceProbe::Known { value }) => {
            if let ProbeStep::Failed = probe.step {
                return Err(probe.error);
            }
            match probe.info {
                Some(info) => Ok(Observation { owner: value, info }),
                None => Err(String::new()),
            }
        },
        _ => Err("The hardware owner could not be verified".to_owned()),
    }
}

/// Whether the host must keep the account's services running for an action: a boxed system service
/// that is to run.
pub fn needs_lingering(request: ServiceActionRequest, managed: bool) -> (r: bool)
    ensures
        r == (request.scope == ServiceScope::System && request.action != ServiceAction::Stop
            && managed),
{
    request.scope == ServiceScope::System && request.action != ServiceAction::Stop && managed
}

/// What speaks against an action of a caller, where `deployment` is what the host records of a box:
/// a boxed system service that is to run must be the caller's, and must outlive their logins.
pub open spec fn action_complaint(
    request: ServiceActionRequest,
    caller: Account,
    deployment: Option<(Deployment, ConfigNames)>,
    setting: Result<bool, String>,
) -> Option<Seq<char>> {
    match deployment {
        Some((deployment, names)) if request.scope == ServiceScope::System && request.action
            != ServiceAction::Stop => match owner_complaint(deployment, names, caller) {
            Some(e) => Some(e),
            None => match lingering::required_of(outcome(setting), caller.uid) {
                Err(e) => Some(e),
                Ok(_) => None,
            },
        },
        _ => None,
    }
}

/// Whether an action may be taken for a caller. `setting` is whether the host keeps the caller's
/// services running.
pub fn check_action(
    request: ServiceActionRequest,
    caller: &Account,
    deployment: &Option<(Deployment, ConfigNames)>,
    setting: &Result<bool, String>,
) -> (r: Result<(), String>)
    ensures
        complaint(r) == action_complaint(request, *caller, *deployment, *setting),
{
    match deployment {
        None => Ok(()),
        Some((deployment, names)) => {
            if !needs_lingering(request, true) {
                return Ok(());
            }
            deployment.verify_owner(caller, names)?;
            lingering::require(setting, caller.uid)
        },
    }
}

pub open spec fn coordinator_complaint(
    root: bool,
    native: bool,
    program: Option<Seq<char>>,
    unchanged: bool,
) -> Option<Seq<char>> {
    if !root || !native {
        Some("Service coordination requires its authorized native root process"@)
    } else if program != Some("lianli-control"@) {
        Some("Use the standalone coordinator for account service actions"@)
    } else if !unchanged {
        Some("The caller's account or groups changed after switch preflight"@)
    } else {
        None
    }
}

/// Whether this process may coordinate services: with authority on the host, as the installed
/// helper, and while the caller's account is as it was.
pub fn check_coordinator(root: bool, native: bool, program: Option<&str>, unchanged: bool) -> (r:
    Result<(), String>)
    ensures
        complaint(r) == coordinator_complaint(
            root,
            native,
            match program {
                Some(p) => Some(p@),
                None => None,
            },
            unchanged,
        ),
{
    if !root || !native {
        return Err("Service coordination requires its authorized native root process".to_owned());
    }
    let named = match program {
        Some(p) => text::eq(p, "lianli-control"),
        None => false,
    };
    if !named {
        return Err("Use the standalone coordinator for account service actions".to_owned());
    }
    if !unchanged {
        return Err("The caller's account or groups changed after switch preflight".to_owned());
    }
    Ok(())
}

/// Whether an action is carried out for a caller: this process must be one that may coordinate
/// services, and the action one that may be taken.
pub fn execute(
    root: bool,
    native: bool,
    program: Option<&str>,
    unchanged: bool,
    request: ServiceActionRequest,
    caller: &Account,
    deployment: &Option<(Deployment, ConfigNames)>,
    setting: &Result<bool, String>,
) -> (r: Result<(), String>)
    ensures
        complaint(r) == match coordinator_complaint(
            root,
            native,
            match program {
                Some(p) => Some(p@),
                None => None,
            },
            unchanged,
        ) {
            Some(e) => Some(e),
            None => action_complaint(request, *caller, *deployment, *setting),
        },
{
    check_coordinator(root, native, program, unchanged)?;
    check_action(request, caller, deployment, setting)
}

pub fn check_context(report: &ServiceReport) -> (r: Result<(), String>)
    ensures
        outcome(r) == if report.context is Native {
            Ok(())
        } else {
            Err("Service inspection left the native host"@)
        },
{
    if report.context.is_native() {
        Ok(())
    } else {
        Err("Service inspection left the native host".to_owned())
    }
}

/// The arguments of the helper that observes a service under the caller's account.
pub fn observe_arguments(scope: ServiceScope) -> (r: Vec<String>)
    ensures
        texts(r@) == seq!["observe-service"@, "--scope"@, scope.word_spec()],
{
    let mut r: Vec<String> = Vec::new();
    r.push("observe-service".to_owned());
    r.push("--scope".to_owned());
    r.push(scope.word().to_owned());
    assert(texts(r@) =~= seq!["observe-service"@, "--scope"@, scope.word_spec()]);
    r
}

/// The mode in which a daemon serves a scope.
pub open spec fn mode_of(scope: ServiceScope) -> DaemonMode {
    match scope {
        ServiceScope::User => DaemonMode::User,
        ServiceScope::System => DaemonMode::System,
    }
}

pub fn mode(scope: ServiceScope) -> (r: DaemonMode)
    ensures
        r == mode_of(scope),
{
    match scope {
        ServiceScope::User => DaemonMode::User,
        ServiceScope::System => DaemonMode::System,
    }
}

/// The process of an owner, where it is known.
pub open spec fn known_process(snapshot: OwnershipSnapshot) -> Option<OwnerProcess> {
    match snapshot.process {
        Some(ServiceProbe::Known { value }) => Some(value),
        _ => None,
    }
}

fn process(snapshot: &OwnershipSnapshot) -> (r: Result<&OwnerProcess, String>)
    ensures
        match r {
            Ok(p) => known_process(*snapshot) == Some(*p),
            Err(e) => known_process(*snapshot) is None && e@
                == "The service owner process is unverified"@,
        },
{
    match &snapshot.process {
        Some(ServiceProbe::Known { value }) => Ok(value),
        _ => Err("The service owner process is unverified".to_owned()),
    }
}

/// Whether a process is the same, in the same service.
pub open spec fn same_process(a: OwnerProcess, b: OwnerProcess) -> bool {
    a.pid == b.pid && a.effective_uid == b.effective_uid && a.start_time_ticks@
        == b.start_time_ticks@ && a.control_group@ == b.control_group@ && a.service == b.service
}

/// What speaks against an observation, given who owned the hardware before. `guard` says whether the
/// daemon accepts guarded writes of this version.
pub open spec fn observation_complaint(
    observation: Observation,
    previous: OwnershipSnapshot,
    scope: ServiceScope,
    user_uid: u32,
    guard: Result<(), String>,
) -> Option<Seq<char>> {
    let owner = observation.owner;
    let info = observation.info;
    match (known_process(previous), known_process(owner)) {
        (Some(before), Some(now)) => if !(owner.identity@ == previous.identity@ && owner.owner_pid
            == previous.owner_pid && owner.owner_pid == Some(now.pid) && same_process(before, now)
            && now.service == Some(scope) && (scope != ServiceScope::User || now.effective_uid
            == user_uid)) {
            Some("The caller-account service owner changed during inspection"@)
        } else if guard is Err {
            complaint(guard)
        } else if !(info.pid == now.pid && info.ownership_lock is Some && info.ownership_lock->0@
            == previous.identity@) {
            Some("The daemon identity differs from the inspected native hardware owner"@)
        } else if info.mode != mode_of(scope) {
            Some("The daemon uses a different configuration mode"@)
        } else {
            None
        },
        _ => Some("The service owner process is unverified"@),
    }
}

fn same_service(a: Option<ServiceScope>, b: Option<ServiceScope>) -> (r: bool)
    ensures
        r == (a == b),
{
    match (a, b) {
        (Some(x), Some(y)) => x == y,
        (None, None) => true,
        _ => false,
    }
}

fn same_pid(a: Option<u32>, b: Option<u32>) -> (r: bool)
    ensures
        r == (a == b),
{
    match (a, b) {
        (Some(x), Some(y)) => x == y,
        (None, None) => true,
        _ => false,
    }
}

impl Observation {
    /// Whether the observation is of the daemon that owned the hardware before. `guard` says whether
    /// it accepts guarded writes of this version.
    pub fn validate(
        &self,
        previous: &OwnershipSnapshot,
        scope: ServiceScope,
        user_uid: u32,
        guard: &Result<(), String>,
    ) -> (r: Result<(), String>)
        ensures
            complaint(r) == observation_complaint(*self, *previous, scope, user_uid, *guard),
    {
        let before = process(previous)?;
        let now = process(&self.owner)?;
        if !(self.owner.identity.same(&previous.identity) && same_pid(
            self.owner.owner_pid,
            previous.owner_pid,
        ) && same_pid(self.owner.owner_pid, Some(now.pid)) && before.pid == now.pid
            && before.effective_uid == now.effective_uid && text::eq(
            before.start_time_ticks.as_str(),
            now.start_time_ticks.as_str(),
        ) && text::eq(before.control_group.as_str(), now.control_group.as_str()) && same_service(
            before.service,
            now.service,
        ) && same_service(now.service, Some(scope)) && (scope != ServiceScope::User
            || now.effective_uid == user_uid)) {
            return Err("The caller-account service owner changed during inspection".to_owned());
        }
        match guard {
            Ok(_) => {},
            Err(e) => {
                return Err(e.clone());
            },
        }
        let locked = match &self.info.ownership_lock {
            Some(lock) => lock.same(&previous.identity),
            None => false,
        };
        if !(self.info.pid == now.pid && locked) {
            return Err(
                "The daemon identity differs from the inspected native hardware owner".to_owned(),
            );
        }
        if self.info.mode != mode(scope) {
            return Err("The daemon uses a different configuration mode".to_owned());
        }
        Ok(())
    }
}

/// An accepted observation is of the very process that owned the hardware before.
pub proof fn observations_follow_the_owner(
    observation: Observation,
    previous: OwnershipSnapshot,
    scope: ServiceScope,
    user_uid: u32,
    guard: Result<(), String>,
)
    requires
        observation_complaint(observation, previous, scope, user_uid, guard) is None,
    ensures
        known_process(previous) matches Some(before) && observation.info.pid == before.pid
            && observation.owner.owner_pid == Some(before.pid) && observation.owner.identity@
            == previous.identity@ && (scope == ServiceScope::User ==> before.effective_uid
            == user_uid),
{
}

/// What speaks against a helper's answer.
pub open spec fn answer_complaint(
    output: Output,
    reservation: Option<Seq<char>>,
    read: Result<(), String>,
) -> Option<Seq<char>> {
    match reservation {
        Some(e) => Some(e),
        None => match output_complaint(output, "Caller-account service inspection failed: "@) {
            Some(e) => Some(e),
            None => match read {
                Err(e) => Some("Invalid caller-account service inspection: "@ + e@),
                Ok(_) => None,
            },
        },
    }
}

fn check_answer(
    output: &Option<Output>,
    reservation: Result<(), String>,
    read: Result<(), String>,
) -> (r: Result<(), String>)
    requires
        output is Some,
    ensures
        complaint(r) == answer_complaint(output->0, complaint(reservation), read),
{
    reservation?;
    match output {
        None => {},
        Some(output) => {
            check_output(output, "Caller-account service inspection failed: ")?;
        },
    }
    match read {
        Err(e) => {
            let mut whole = "Invalid caller-account service inspection: ".to_owned();
            whole.append(e.as_str());
            Err(whole)
        },
        Ok(_) => Ok(()),
    }
}

/// Where a question to the caller's account stands.
#[derive(Clone, Copy, Debug, PartialEq, Eq, Structural)]
pub enum InquiryStep {
    VerifyBefore,
    Run,
    VerifyAfter,
    Answered,
    Failed,
}

pub open spec fn inquiry_rank(step: InquiryStep) -> int {
    match step {
        InquiryStep::VerifyBefore => 0,
        InquiryStep::Run => 1,
        InquiryStep::VerifyAfter => 2,
        InquiryStep::Answered => 3,
        InquiryStep::Failed => 4,
    }
}

/// A question that a helper under the caller's account answers, while the operation is reserved.
pub struct Inquiry {
    /// The lock of service operations that was reserved.
    pub lock: FileIdentity,
    /// What the helper left behind.
    pub output: Option<Output>,
    pub step: InquiryStep,
    pub error: String,
    /// The steps that succeeded, in order.
    pub log: Ghost<Seq<InquiryStep>>,
}

pub open spec fn inquiry_stops(before: Inquiry, after: Inquiry, text: Seq<char>) -> bool {
    after == (Inquiry { step: InquiryStep::Failed, error: after.error, ..before })
        && after.error@ == text
}

pub open spec fn inquiry_moves(before: Inquiry, after: Inquiry, next: InquiryStep) -> bool {
    after == (Inquiry { step: next, log: Ghost(before.log@.push(before.step)), ..before })
}

impl Inquiry {
    /// Every step before the present one succeeded.
    pub open spec fn wf(self) -> bool {
        self.step != InquiryStep::Failed ==> {
            &&& forall|s: InquiryStep|
                inquiry_rank(s) < inquiry_rank(self.step) ==> #[trigger] self.log@.contains(s)
            &&& inquiry_rank(self.step) > 1 ==> self.output is Some
        }
    }

    pub fn begin(lock: FileIdentity) -> (r: Inquiry)
        ensures
            r.wf(),
            r.lock == lock,
            r.step == InquiryStep::VerifyBefore,
            r.log@ == Seq::<InquiryStep>::empty(),
            r.output is None,
    {
        Inquiry {
            lock,
            output: None,
            step: InquiryStep::VerifyBefore,
            error: String::new(),
            log: Ghost(Seq::empty()),
        }
    }

    fn advance(&mut self, next: InquiryStep)
        requires
            (Inquiry {
                step: next,
                log: Ghost(old(self).log@.push(old(self).step)),
                ..*old(self)
            }).wf(),
        ensures
            final(self).wf(),
            inquiry_moves(*old(self), *final(self), next),
    {
        self.log = Ghost(self.log@.push(self.step));
        self.step = next;
    }

    /// A step could not be done.
    pub fn failed(&mut self, reason: &str)
        ensures
            final(self).wf(),
            inquiry_stops(*old(self), *final(self), reason@),
    {
        self.step = InquiryStep::Failed;
        self.error = reason.to_owned();
    }

    /// The reservation was verified.
    pub fn reserved(&mut self, held: &Held)
        requires
            old(self).wf(),
            old(self).step == InquiryStep::VerifyBefore,
            held.expected@ == old(self).lock@,
        ensures
            final(self).wf(),
            match held_complaint(*held) {
                Some(e) => inquiry_stops(*old(self), *final(self), e),
                None => inquiry_moves(*old(self), *final(self), InquiryStep::Run),
            },
    {
        match held.check() {
            Err(e) => {
                self.failed(e.as_str());
            },
            Ok(_) => {
                proof {
                    steps::push_holds(self.log@, self.step);
                }
                self.advance(InquiryStep::Run);
            },
        }
    }

    /// The helper ended.
    pub fn ran(&mut self, output: Output)
        requires
            old(self).wf(),
            old(self).step == InquiryStep::Run,
        ensures
            final(self).wf(),
            *final(self) == (Inquiry {
                output: Some(output),
                step: InquiryStep::VerifyAfter,
                log: Ghost(old(self).log@.push(old(self).step)),
                ..*old(self)
            }),
    {
        self.output = Some(output);
        proof {
            steps::push_holds(self.log@, self.step);
        }
        self.advance(InquiryStep::VerifyAfter);
    }

    /// The reservation was verified again, and what the helper printed was read, if it could be.
    pub fn answered(&mut self, held: &Held, read: Result<(), String>)
        requires
            old(self).wf(),
            old(self).step == InquiryStep::VerifyAfter,
            held.expected@ == old(self).lock@,
        ensures
            final(self).wf(),
            old(self).output matches Some(output) && match answer_complaint(
                output,
                held_complaint(*held),
                read,
            ) {
                Some(e) => inquiry_stops(*old(self), *final(self), e),
                None => inquiry_moves(*old(self), *final(self), InquiryStep::Answered),
            },
    {
        match check_answer(&self.output, held.check(), read) {
            Err(e) => {
                self.failed(e.as_str());
            },
            Ok(_) => {
                proof {
                    steps::push_holds(self.log@, self.step);
                }
                self.advance(InquiryStep::Answered);
            },
        }
    }
}

/// A helper's answer counts only where the reservation held before it ran and after it ended.
pub proof fn answers_are_given_under_the_reservation(m: Inquiry)
    requires
        m.wf(),
        m.step == InquiryStep::Answered,
    ensures
        m.log@.contains(InquiryStep::VerifyBefore),
        m.log@.contains(InquiryStep::VerifyAfter),
{
}

/// Where a request to a service manager stands.
#[derive(Clone, Copy, Debug, PartialEq, Eq, Structural)]
pub enum DispatchStep {
    VerifyBefore,
    Request,
    VerifyAfter,
    Dispatched,
    Failed,
}

pub open spec fn dispatch_rank(step: DispatchStep) -> int {
    match step {
        DispatchStep::VerifyBefore => 0,
        DispatchStep::Request => 1,
        DispatchStep::VerifyAfter => 2,
        DispatchStep::Dispatched => 3,
        DispatchStep::Failed => 4,
    }
}

/// A request to a service manager, while the operation is reserved.
pub struct Dispatch {
    pub request: ServiceActionRequest,
    /// The lock of service operations that was reserved.
    pub lock: FileIdentity,
    pub step: DispatchStep,
    pub error: String,
    /// The steps that succeeded, in order.
    pub log: Ghost<Seq<DispatchStep>>,
}

pub open spec fn dispatch_stops(before: Dispatch, after: Dispatch, text: Seq<char>) -> bool {
    after == (Dispatch { step: DispatchStep::Failed, error: after.error, ..before })
        && after.error@ == text
}

pub open spec fn dispatch_moves(before: Dispatch, after: Dispatch, next: DispatchStep) -> bool {
    after == (Dispatch { step: next, log: Ghost(before.log@.push(before.step)), ..before })
}

impl Dispatch {
    /// Every step before the present one succeeded.
    pub open spec fn wf(self) -> bool {
        self.step != DispatchStep::Failed ==> forall|s: DispatchStep|
            dispatch_rank(s) < dispatch_rank(self.step) ==> #[trigger] self.log@.contains(s)
    }

    pub fn begin(request: ServiceActionRequest, lock: FileIdentity) -> (r: Dispatch)
        ensures
            r.wf(),
            r.lock == lock,
            r.request == request,
            r.step == DispatchStep::VerifyBefore,
            r.log@ == Seq::<DispatchStep>::empty(),
    {
        Dispatch {
            request,
            lock,
            step: DispatchStep::VerifyBefore,
            error: String::new(),
            log: Ghost(Seq::empty()),
        }
    }

    fn advance(&mut self, next: DispatchStep)
        requires
            (Dispatch {
                step: next,
                log: Ghost(old(self).log@.push(old(self).step)),
                ..*old(self)
            }).wf(),
        ensures
            final(self).wf(),
            dispatch_moves(*old(self), *final(self), next),
    {
        self.log = Ghost(self.log@.push(self.step));
        self.step = next;
    }

    /// A step could not be done.
    pub fn failed(&mut self, reason: &str)
        ensures
            final(self).wf(),
            dispatch_stops(*old(self), *final(self), reason@),
    {
        self.step = DispatchStep::Failed;
        self.error = reason.to_owned();
    }

    /// The reservation was verified.
    pub fn reserved(&mut self, held: &Held)
        requires
            old(self).wf(),
            old(self).step == DispatchStep::VerifyBefore,
            held.expected@ == old(self).lock@,
        ensures
            final(self).wf(),
            match held_complaint(*held) {
                Some(e) => dispatch_stops(*old(self), *final(self), e),
                None => dispatch_moves(*old(self), *final(self), DispatchStep::Request),
            },
    {
        match held.check() {
            Err(e) => {
                self.failed(e.as_str());
            },
            Ok(_) => {
                proof {
                    steps::push_holds(self.log@, self.step);
                }
                self.advance(DispatchStep::Request);
            },
        }
    }

    /// The system's manager took the request, or refused it.
    pub fn system(&mut self, result: Result<(), String>)
        requires
            old(self).wf(),
            old(self).step == DispatchStep::Request,
            old(self).request.scope == ServiceScope::System,
        ensures
            final(self).wf(),
            match complaint(result) {
                Some(e) => dispatch_stops(*old(self), *final(self), e),
                None => dispatch_moves(*old(self), *final(self), DispatchStep::VerifyAfter),
            },
    {
        match result {
            Err(e) => {
                self.failed(e.as_str());
            },
            Ok(_) => {
                proof {
                    steps::push_holds(self.log@, self.step);
                }
                self.advance(DispatchStep::VerifyAfter);
            },
        }
    }

    /// The helper that asks the user's manager ended.
    pub fn user(&mut self, output: &Output)
        requires
            old(self).wf(),
            old(self).step == DispatchStep::Request,
            old(self).request.scope == ServiceScope::User,
        ensures
            final(self).wf(),
            match output_complaint(*output, "User service request failed: "@) {
                Some(e) => dispatch_stops(*old(self), *final(self), e),
                None => dispatch_moves(*old(self), *final(self), DispatchStep::VerifyAfter),
            },
    {
        match check_output(output, "User service request failed: ") {
            Err(e) => {
                self.failed(e.as_str());
            },
            Ok(_) => {
                proof {
                    steps::push_holds(self.log@, self.step);
                }
                self.advance(DispatchStep::VerifyAfter);
            },
        }
    }

    /// The reservation was verified again.
    pub fn confirmed(&mut self, held: &Held)
        requires
            old(self).wf(),
            old(self).step == DispatchStep::VerifyAfter,
            held.expected@ == old(self).lock@,
        ensures
            final(self).wf(),
            match held_complaint(*held) {
                Some(e) => dispatch_stops(*old(self), *final(self), e),
                None => dispatch_moves(*old(self), *final(self), DispatchStep::Dispatched),
            },
    {
        match held.check() {
            Err(e) => {
                self.failed(e.as_str());
            },
            Ok(_) => {
                proof {
                    steps::push_holds(self.log@, self.step);
                }
                self.advance(DispatchStep::Dispatched);
            },
        }
    }
}

/// A request counts as made only where the reservation held before and after it.
pub proof fn requests_are_made_under_the_reservation(m: Dispatch)
    requires
        m.wf(),
        m.step == DispatchStep::Dispatched,
    ensures
        m.log@.contains(DispatchStep::VerifyBefore),
        m.log@.contains(DispatchStep::Request),
        m.log@.contains(DispatchStep::VerifyAfter),
{
}

/// An observation is accepted exactly where the hardware is still held by the same process of the
/// asked service, by the same lock, that process belongs to the user where the service is the user's,
/// and the daemon that answered is that process, in the mode of the service and with that lock.
pub proof fn observations_are_accepted_of_the_same_owner(
    observation: Observation,
    previous: OwnershipSnapshot,
    scope: ServiceScope,
    user_uid: u32,
    guard: Result<(), String>,
)
    ensures
        observation_complaint(observation, previous, scope, user_uid, guard) is None <==> {
            let owner = observation.owner;
            let before = previous.process->0->value;
            let now = owner.process->0->value;
            let info = observation.info;
            &&& previous.process is Some && previous.process->0 is Known
            &&& owner.process is Some && owner.process->0 is Known
            &&& owner.identity.device@ == previous.identity.device@
            &&& owner.identity.inode@ == previous.identity.inode@
            &&& owner.owner_pid == Some(now.pid)
            &&& previous.owner_pid == Some(now.pid)
            &&& before.pid == now.pid
            &&& before.effective_uid == now.effective_uid
            &&& before.start_time_ticks@ == now.start_time_ticks@
            &&& before.control_group@ == now.control_group@
            &&& before.service == Some(scope)
            &&& now.service == Some(scope)
            &&& scope == ServiceScope::User ==> now.effective_uid == user_uid
            &&& guard is Ok
            &&& info.pid == now.pid
            &&& info.ownership_lock is Some
            &&& info.ownership_lock->0.device@ == previous.identity.device@
            &&& info.ownership_lock->0.inode@ == previous.identity.inode@
            &&& info.mode == DaemonMode::User <==> scope == ServiceScope::User
        },
{
}

/// Any account but root may ask on the host what daemon holds the hardware, and learns the owner of
/// the report and what that daemon said of itself.
pub proof fn unprivileged_callers_observe_the_owner(
    native: bool,
    uid: u32,
    report: ServiceReport,
    probe: Probe,
)
    ensures
        ({
            let observed = observed_of(native, uid, report, probe);
            let may = native && uid != 0 && report.ownership is Some && report.ownership->0 is Known
                && probe.step != ProbeStep::Failed;
            &&& observed is Ok <==> may
            &&& observed is Ok ==> observed->Ok_0.owner == report.ownership->0->value
            &&& observed is Ok && probe.info is Some ==> observed->Ok_0.info == probe.info->0
        }),
{
}

/// Services are coordinated exactly by root on the host, in the program of that name, for a caller
/// whose account stayed as it was.
pub proof fn coordination_is_for_the_host_coordinator(
    root: bool,
    native: bool,
    program: Option<Seq<char>>,
    unchanged: bool,
)
    ensures
        coordinator_complaint(root, native, program, unchanged) is None <==> root && native && program
            == Some("lianli-control"@) && unchanged,
{
}

/// An action needs no more than its coordination where nothing boxed is to run: it is for the user's
/// service, it is a stop, or the host records no box.
pub proof fn only_boxed_system_services_need_their_owner(
    request: ServiceActionRequest,
    caller: Account,
    deployment: Option<(Deployment, ConfigNames)>,
    setting: Result<bool, String>,
)
    ensures
        ({
            let runs_boxed = deployment is Some && request.scope == ServiceScope::System && (
            request.action == ServiceAction::Start || request.action == ServiceAction::Restart);
            let speaks = action_complaint(request, caller, deployment, setting);
            &&& !runs_boxed ==> speaks is None
            &&& runs_boxed ==> (speaks is None <==> {
                let (recorded, names) = deployment->0;
                &&& owner_complaint(recorded, names, caller) is None
                &&& setting is Ok && setting->Ok_0
            })
        }),
{
}

/// An answer of a helper counts exactly where the reservation still holds, the helper succeeded and
/// what it printed could be read.
pub proof fn answers_count_under_the_reservation(
    output: Output,
    reservation: Option<Seq<char>>,
    read: Result<(), String>,
)
    ensures
        answer_complaint(output, reservation, read) is None <==> reservation is None && output.code
            == Some(0i32) && read is Ok,
{
}

} // verus!
