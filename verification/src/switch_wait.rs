//! Starting and stopping a daemon that may be changing state: each inspection decides whether to
//! act, to verify or to wait, and the waiting is bounded.

use crate::native_switch::{
    answer_of, idle, is_idle, is_running, running, running_of, unit, unit_of, verify_daemon,
    verify_running,
};
use crate::services::{DaemonInfo, ServiceReport, ServiceScope, ServiceSelection, UnitState};
use crate::text;
use vstd::prelude::*;

verus! {

/// How long a transition may take, in milliseconds.
pub const LIMIT_MS: u64 = 90_000;

#[derive(Clone, Copy, Debug, PartialEq, Eq, Structural)]
pub enum StartStep {
    CheckContext,
    Inspect,
    ConfirmContext,
    Act,
    InspectStarted,
    ProbeStarted,
    InspectRunning,
    ProbeRunning,
    ReadClock,
    Pause,
    Started,
    Failed,
}

/// The start of a selected service.
pub struct Start {
    pub selection: ServiceSelection,
    pub config: String,
    pub deadline: u64,
    /// Whether the service is started to undo a switch.
    pub restoring: bool,
    pub step: StartStep,
    /// What the service was last seen doing.
    pub detail: String,
    pub instance: String,
    pub error: String,
    /// The steps that succeeded, in order.
    pub log: Ghost<Seq<StartStep>>,
}

/// A unit by its name and states.
pub open spec fn unit_detail(unit: UnitState) -> Seq<char> {
    unit.name@ + ": "@ + unit.active_state@ + "/"@ + unit.sub_state@
}

fn detail_of(unit: &UnitState) -> (r: String)
    ensures
        r@ == unit_detail(*unit),
{
    let mut r = unit.name.clone();
    r.append(": ");
    r.append(unit.active_state.as_str());
    r.append("/");
    r.append(unit.sub_state.as_str());
    r
}

pub open spec fn start_stops(before: Start, after: Start, text: Seq<char>) -> bool {
    after == (Start { step: StartStep::Failed, error: after.error, ..before })
        && after.error@ == text
}

/// What the start hands to its action of an announcement's result.
pub open spec fn start_announced(s: Start, result: Result<(), Seq<char>>) -> Result<
    (),
    Seq<char>,
> {
    if s.restoring {
        Ok(())
    } else {
        result
    }
}

pub open spec fn start_moves(before: Start, after: Start, next: StartStep) -> bool {
    after == (Start { step: next, log: Ghost(before.log@.push(before.step)), ..before })
}

/// The service was seen, but it is not yet there: wait, for the reason given.
pub open spec fn start_waits(before: Start, after: Start, detail: Seq<char>) -> bool {
    after == (Start {
        step: StartStep::ReadClock,
        detail: after.detail,
        log: Ghost(before.log@.push(before.step)),
        ..before
    }) && after.detail@ == detail
}

/// Whether step `i` of the log was preceded as it must be: an action by a passed context check, an
/// inspection of a running service by the first inspection.
pub open spec fn started_in_order(log: Seq<StartStep>, i: int) -> bool {
    &&& log[i] == StartStep::Inspect ==> i > 0 && log[i - 1] == StartStep::CheckContext
    &&& log[i] == StartStep::ConfirmContext ==> i > 0 && log[i - 1] == StartStep::Inspect
    &&& log[i] == StartStep::Act ==> i > 0 && log[i - 1] == StartStep::ConfirmContext
}

impl Start {
    pub open spec fn wf(self) -> bool {
        &&& forall|i: int| 0 <= i < self.log@.len() ==> #[trigger] started_in_order(self.log@, i)
        &&& self.step == StartStep::Inspect ==> self.log@.len() > 0 && self.log@.last()
            == StartStep::CheckContext
        &&& self.step == StartStep::ConfirmContext ==> self.log@.len() > 0 && self.log@.last()
            == StartStep::Inspect
        &&& self.step == StartStep::Act ==> self.log@.len() > 0 && self.log@.last()
            == StartStep::ConfirmContext
    }

    /// Begins to start a service at a time in milliseconds.
    pub fn begin(selection: ServiceSelection, config: &str, elapsed: u64) -> (r: Start)
        requires
            elapsed <= u64::MAX - LIMIT_MS,
        ensures
            r.wf(),
            r.selection == selection,
            r.config@ == config@,
            r.deadline == elapsed + LIMIT_MS,
            !r.restoring,
            r.step == StartStep::CheckContext,
            r.detail@.len() == 0,
            r.log@ == Seq::<StartStep>::empty(),
            r.instance@.len() == 0,
    {
        Start {
            selection,
            config: config.to_owned(),
            deadline: elapsed + LIMIT_MS,
            restoring: false,
            step: StartStep::CheckContext,
            detail: String::new(),
            instance: String::new(),
            error: String::new(),
            log: Ghost(Seq::empty()),
        }
    }

    /// Begins to start a service again while a switch is undone.
    pub fn restore(selection: ServiceSelection, config: &str, elapsed: u64) -> (r: Start)
        requires
            elapsed <= u64::MAX - LIMIT_MS,
        ensures
            r.wf(),
            r.selection == selection,
            r.config@ == config@,
            r.deadline == elapsed + LIMIT_MS,
            r.restoring,
            r.step == StartStep::CheckContext,
            r.detail@.len() == 0,
            r.log@ == Seq::<StartStep>::empty(),
    {
        let mut start = Start::begin(selection, config, elapsed);
        start.restoring = true;
        start
    }

    /// `Act`: what the action is told of an announcement that it makes. While a switch is undone
    /// it does not learn that one failed.
    pub fn announced(&self, result: Result<(), String>) -> (r: Result<(), String>)
        requires
            self.step == StartStep::Act,
        ensures
            text::outcome(r) == start_announced(*self, text::outcome(result)),
    {
        if self.restoring {
            Ok(())
        } else {
            result
        }
    }

    proof fn log_grows(self)
        requires
            self.wf(),
        ensures
            forall|i: int|
                0 <= i < self.log@.len() + 1 ==> #[trigger] started_in_order(
                    self.log@.push(self.step),
                    i,
                ),
    {
        let log = self.log@.push(self.step);
        assert forall|i: int| 0 <= i < self.log@.len() + 1 implies #[trigger] started_in_order(
            log,
            i,
        ) by {
            if i < self.log@.len() {
                assert(started_in_order(self.log@, i));
            }
        }
    }

    fn go(&mut self, next: StartStep)
        requires
            old(self).wf(),
            next == StartStep::Inspect ==> old(self).step == StartStep::CheckContext,
            next == StartStep::ConfirmContext ==> old(self).step == StartStep::Inspect,
            next == StartStep::Act ==> old(self).step == StartStep::ConfirmContext,
        ensures
            start_moves(*old(self), *final(self), next),
            final(self).wf(),
    {
        proof {
            self.log_grows();
        }
        self.log = Ghost(self.log@.push(self.step));
        self.step = next;
    }

    fn wait(&mut self, detail: String)
        requires
            old(self).wf(),
        ensures
            start_waits(*old(self), *final(self), detail@),
            final(self).wf(),
    {
        proof {
            self.log_grows();
        }
        self.log = Ghost(self.log@.push(self.step));
        self.detail = detail;
        self.step = StartStep::ReadClock;
    }

    /// A step failed. While a running service is verified, that is a reason to wait.
    pub fn failed(&mut self, error: String)
        requires
            old(self).wf(),
        ensures
            if old(self).step == StartStep::InspectRunning || old(self).step
                == StartStep::ProbeRunning {
                start_waits(*old(self), *final(self), error@)
            } else {
                start_stops(*old(self), *final(self), error@)
            },
            final(self).wf(),
    {
        if self.step == StartStep::InspectRunning || self.step == StartStep::ProbeRunning {
            self.wait(error);
        } else {
            self.error = error;
            self.step = StartStep::Failed;
        }
    }

    /// `CheckContext`, `ConfirmContext`, `Act` and `Pause` succeeded.
    pub fn done(&mut self)
        requires
            old(self).wf(),
            old(self).step == StartStep::CheckContext || old(self).step
                == StartStep::ConfirmContext || old(self).step == StartStep::Act || old(self).step
                == StartStep::Pause,
        ensures
            start_moves(
                *old(self),
                *final(self),
                match old(self).step {
                    StartStep::CheckContext => StartStep::Inspect,
                    StartStep::ConfirmContext => StartStep::Act,
                    StartStep::Act => StartStep::InspectStarted,
                    _ => StartStep::CheckContext,
                },
            ),
            final(self).wf(),
    {
        match self.step {
            StartStep::CheckContext => self.go(StartStep::Inspect),
            StartStep::ConfirmContext => self.go(StartStep::Act),
            StartStep::Act => self.go(StartStep::InspectStarted),
            _ => self.go(StartStep::CheckContext),
        }
    }

    /// `Inspect`: what the service is doing.
    pub fn inspected(&mut self, report: &ServiceReport)
        requires
            old(self).wf(),
            old(self).step == StartStep::Inspect,
        ensures
            match unit_of(*report, old(self).selection.scope) {
                Err(e) => start_stops(*old(self), *final(self), e),
                Ok(target) => if is_idle(target) {
                    start_moves(*old(self), *final(self), StartStep::ConfirmContext)
                } else if is_running(target) {
                    start_moves(*old(self), *final(self), StartStep::InspectRunning)
                } else {
                    start_waits(*old(self), *final(self), unit_detail(target))
                },
            },
            final(self).wf(),
    {
        match unit(report, self.selection.scope) {
            Err(e) => self.failed(e),
            Ok(target) => if idle(target) {
                self.go(StartStep::ConfirmContext)
            } else if running(target) {
                self.go(StartStep::InspectRunning)
            } else {
                let detail = detail_of(target);
                self.wait(detail)
            },
        }
    }

    /// `InspectStarted` and `InspectRunning`: the services, where the selected one must run alone.
    pub fn verified(&mut self, report: &ServiceReport)
        requires
            old(self).wf(),
            old(self).step == StartStep::InspectStarted || old(self).step
                == StartStep::InspectRunning,
        ensures
            match running_of(*report, old(self).selection.scope, old(self).selection.uid) {
                Ok(_) => start_moves(
                    *old(self),
                    *final(self),
                    if old(self).step == StartStep::InspectStarted {
                        StartStep::ProbeStarted
                    } else {
                        StartStep::ProbeRunning
                    },
                ),
                Err(e) => if old(self).step == StartStep::InspectRunning {
                    start_waits(*old(self), *final(self), e)
                } else {
                    start_stops(*old(self), *final(self), e)
                },
            },
            final(self).wf(),
    {
        match verify_running(report, self.selection.scope, self.selection.uid) {
            Ok(_) => if self.step == StartStep::InspectStarted {
                self.go(StartStep::ProbeStarted)
            } else {
                self.go(StartStep::ProbeRunning)
            },
            Err(e) => self.failed(e),
        }
    }

    /// `ProbeStarted` and `ProbeRunning`: what the daemon reports of itself.
    pub fn probed(&mut self, info: &DaemonInfo, gate: &str)
        requires
            old(self).wf(),
            old(self).step == StartStep::ProbeStarted || old(self).step == StartStep::ProbeRunning,
        ensures
            match answer_of(*info, old(self).config@, gate@) {
                Ok(_) => start_moves(
                    (Start { instance: info.instance_id, ..*old(self) }),
                    *final(self),
                    StartStep::Started,
                ),
                Err(e) => if old(self).step == StartStep::ProbeRunning {
                    start_waits(*old(self), *final(self), e)
                } else {
                    start_stops(*old(self), *final(self), e)
                },
            },
            final(self).wf(),
    {
        match verify_daemon(info, self.config.as_str(), gate) {
            Ok(()) => {
                self.instance = info.instance_id.clone();
                self.go(StartStep::Started);
            },
            Err(e) => self.failed(e),
        }
    }

    /// `ReadClock`: the time in milliseconds.
    pub fn clock(&mut self, elapsed: u64)
        requires
            old(self).wf(),
            old(self).step == StartStep::ReadClock,
        ensures
            if elapsed < old(self).deadline {
                start_moves(*old(self), *final(self), StartStep::Pause)
            } else {
                start_stops(
                    *old(self),
                    *final(self),
                    "The selected service did not finish startup: "@ + old(self).detail@
                        + ". Recovery remains pending without a forced restart"@,
                )
            },
            final(self).wf(),
    {
        if elapsed < self.deadline {
            self.go(StartStep::Pause);
        } else {
            let mut text = "The selected service did not finish startup: ".to_owned();
            text.append(self.detail.as_str());
            text.append(". Recovery remains pending without a forced restart");
            self.failed(text);
        }
    }
}

/// A service is started only right after the context was checked twice, around an inspection that
/// found it idle.
pub proof fn starts_follow_two_context_checks(s: Start)
    requires
        s.wf(),
        s.step == StartStep::Act,
    ensures
        s.log@.len() >= 3,
        s.log@[s.log@.len() - 1] == StartStep::ConfirmContext,
        s.log@[s.log@.len() - 2] == StartStep::Inspect,
        s.log@[s.log@.len() - 3] == StartStep::CheckContext,
{
    assert(started_in_order(s.log@, s.log@.len() - 1));
    assert(started_in_order(s.log@, s.log@.len() - 2));
}

/// What to do with a service that should stop.
#[derive(Clone, Copy, Debug, PartialEq, Eq, Structural)]
pub enum StopDecision {
    /// It has exited.
    Stopped,
    /// It runs and can be stopped cleanly.
    Stop,
    /// It is changing state.
    Wait,
}

pub open spec fn stop_of(report: ServiceReport, scope: ServiceScope) -> Result<
    StopDecision,
    Seq<char>,
> {
    match unit_of(report, scope) {
        Err(e) => Err(e),
        Ok(target) => if is_idle(target) {
            Ok(StopDecision::Stopped)
        } else if is_running(target) {
            Ok(StopDecision::Stop)
        } else {
            Ok(StopDecision::Wait)
        },
    }
}

/// Judges an inspection while a service is to be stopped.
pub fn stop_decision(report: &ServiceReport, scope: ServiceScope) -> (r: Result<
    StopDecision,
    String,
>)
    ensures
        text::outcome(r) == stop_of(*report, scope),
{
    match unit(report, scope) {
        Err(e) => Err(e),
        Ok(target) => if idle(target) {
            Ok(StopDecision::Stopped)
        } else if running(target) {
            Ok(StopDecision::Stop)
        } else {
            Ok(StopDecision::Wait)
        },
    }
}

/// Which service a rollback stops.
#[derive(Clone, Copy, Debug, PartialEq, Eq, Structural)]
pub enum Stopping {
    Destination,
    RecoveredSystem,
}

/// Why a stop gives up.
pub open spec fn late_stop(which: Stopping) -> Seq<char> {
    match which {
        Stopping::Destination =>
        "Destination shutdown or startup is still in progress. Recovery remains pending without a forced stop"@,
        Stopping::RecoveredSystem =>
        "The recovered system source is still changing state. It will not be forced to stop"@,
    }
}

/// Whether the wait for a clean exit may go on at a time in milliseconds.
pub fn stop_wait(which: Stopping, elapsed: u64, deadline: u64) -> (r: Result<(), String>)
    ensures
        match r {
            Ok(_) => elapsed < deadline,
            Err(e) => elapsed >= deadline && e@ == late_stop(which),
        },
{
    if elapsed < deadline {
        return Ok(());
    }
    match which {
        Stopping::Destination => Err(
            "Destination shutdown or startup is still in progress. Recovery remains pending without a forced stop".to_owned(),
        ),
        Stopping::RecoveredSystem => Err(
            "The recovered system source is still changing state. It will not be forced to stop".to_owned(),
        ),
    }
}

/// What a stop does next.
#[derive(Clone, Copy, Debug, PartialEq, Eq, Structural)]
pub enum StopStep {
    Inspect,
    InspectRunning,
    ProbeRunning,
    Act,
    ReadClock,
    Pause,
    Stopped,
    Failed,
}

/// The stop of a service while a switch is undone. A recovered system service is stopped only once
/// it is known to be the one that the switch began with.
pub struct Stop {
    pub which: Stopping,
    pub scope: ServiceScope,
    /// The account and the configuration that a recovered system service must have.
    pub uid: u32,
    pub config: String,
    pub deadline: u64,
    pub step: StopStep,
    pub error: String,
    /// The steps that succeeded, in order.
    pub log: Ghost<Seq<StopStep>>,
}

pub open spec fn stop_fails(before: Stop, after: Stop, text: Seq<char>) -> bool {
    after == (Stop { step: StopStep::Failed, error: after.error, ..before }) && after.error@
        == text
}

pub open spec fn stop_moves(before: Stop, after: Stop, next: StopStep) -> bool {
    after == (Stop { step: next, log: Ghost(before.log@.push(before.step)), ..before })
}

/// The step that must stand right before another one.
pub open spec fn stop_predecessor(which: Stopping, step: StopStep) -> Option<StopStep> {
    match step {
        StopStep::InspectRunning => Some(StopStep::Inspect),
        StopStep::ProbeRunning => Some(StopStep::InspectRunning),
        StopStep::Act => match which {
            Stopping::Destination => Some(StopStep::Inspect),
            Stopping::RecoveredSystem => Some(StopStep::ProbeRunning),
        },
        StopStep::ReadClock => Some(StopStep::Inspect),
        StopStep::Pause => Some(StopStep::ReadClock),
        _ => None,
    }
}

/// Whether step `i` of the log was preceded as it must be.
pub open spec fn stopped_in_order(which: Stopping, log: Seq<StopStep>, i: int) -> bool {
    &&& stop_predecessor(which, log[i]) is Some ==> i > 0 && log[i - 1] == stop_predecessor(
        which,
        log[i],
    )->0
    &&& log[i] == StopStep::Inspect ==> i == 0 || log[i - 1] == StopStep::Pause
    &&& log[i] != StopStep::Stopped && log[i] != StopStep::Failed
}

impl Stop {
    pub open spec fn wf(self) -> bool {
        &&& forall|i: int|
            0 <= i < self.log@.len() ==> #[trigger] stopped_in_order(self.which, self.log@, i)
        &&& stop_predecessor(self.which, self.step) is Some ==> self.log@.len() > 0
            && self.log@.last() == stop_predecessor(self.which, self.step)->0
        &&& self.step == StopStep::Inspect ==> self.log@.len() == 0 || self.log@.last()
            == StopStep::Pause
        &&& self.step == StopStep::Stopped ==> self.log@.len() > 0 && (self.log@.last()
            == StopStep::Inspect || self.log@.last() == StopStep::Act)
        &&& self.which == Stopping::RecoveredSystem ==> self.scope == ServiceScope::System
        &&& self.step == StopStep::InspectRunning || self.step == StopStep::ProbeRunning
            ==> self.which == Stopping::RecoveredSystem
    }

    /// Begins to stop the destination of a switch at a time in milliseconds.
    pub fn destination(scope: ServiceScope, elapsed: u64) -> (r: Stop)
        requires
            elapsed <= u64::MAX - LIMIT_MS,
        ensures
            r.wf(),
            r.which == Stopping::Destination,
            r.scope == scope,
            r.deadline == elapsed + LIMIT_MS,
            r.step == StopStep::Inspect,
            r.log@ == Seq::<StopStep>::empty(),
    {
        Stop {
            which: Stopping::Destination,
            scope,
            uid: 0,
            config: String::new(),
            deadline: elapsed + LIMIT_MS,
            step: StopStep::Inspect,
            error: String::new(),
            log: Ghost(Seq::empty()),
        }
    }

    /// Begins to stop a recovered system service at a time in milliseconds. It must be the one of
    /// this account and configuration.
    pub fn recovered_system(uid: u32, config: &str, elapsed: u64) -> (r: Stop)
        requires
            elapsed <= u64::MAX - LIMIT_MS,
        ensures
            r.wf(),
            r.which == Stopping::RecoveredSystem,
            r.scope == ServiceScope::System,
            r.uid == uid,
            r.config@ == config@,
            r.deadline == elapsed + LIMIT_MS,
            r.step == StopStep::Inspect,
            r.log@ == Seq::<StopStep>::empty(),
    {
        Stop {
            which: Stopping::RecoveredSystem,
            scope: ServiceScope::System,
            uid,
            config: config.to_owned(),
            deadline: elapsed + LIMIT_MS,
            step: StopStep::Inspect,
            error: String::new(),
            log: Ghost(Seq::empty()),
        }
    }

    fn go(&mut self, next: StopStep)
        requires
            old(self).wf(),
            old(self).step != StopStep::Stopped && old(self).step != StopStep::Failed,
            stop_predecessor(old(self).which, next) is Some ==> old(self).step == stop_predecessor(
                old(self).which,
                next,
            )->0,
            next == StopStep::Inspect ==> old(self).step == StopStep::Pause,
            next == StopStep::InspectRunning || next == StopStep::ProbeRunning ==> old(self).which
                == Stopping::RecoveredSystem,
            next == StopStep::Stopped ==> old(self).step == StopStep::Inspect || old(self).step
                == StopStep::Act,
        ensures
            stop_moves(*old(self), *final(self), next),
            final(self).wf(),
    {
        proof {
            let log = self.log@.push(self.step);
            assert forall|i: int| 0 <= i < log.len() implies #[trigger] stopped_in_order(
                self.which,
                log,
                i,
            ) by {
                if i < self.log@.len() {
                    assert(stopped_in_order(self.which, self.log@, i));
                }
            }
        }
        self.log = Ghost(self.log@.push(self.step));
        self.step = next;
    }

    /// The current step failed.
    pub fn failed(&mut self, error: String)
        requires
            old(self).wf(),
        ensures
            stop_fails(*old(self), *final(self), error@),
            final(self).wf(),
    {
        self.error = error;
        self.step = StopStep::Failed;
    }

    /// `Act`: what the action is told of an announcement that it makes. It does not learn that one
    /// failed.
    pub fn announced(&self, result: Result<(), String>) -> (r: Result<(), String>)
        requires
            self.step == StopStep::Act,
        ensures
            r is Ok,
    {
        match result {
            Ok(()) => Ok(()),
            Err(_) => Ok(()),
        }
    }

    /// `Act` and `Pause` succeeded.
    pub fn done(&mut self)
        requires
            old(self).wf(),
            old(self).step == StopStep::Act || old(self).step == StopStep::Pause,
        ensures
            stop_moves(
                *old(self),
                *final(self),
                if old(self).step == StopStep::Act {
                    StopStep::Stopped
                } else {
                    StopStep::Inspect
                },
            ),
            final(self).wf(),
    {
        if self.step == StopStep::Act {
            self.go(StopStep::Stopped)
        } else {
            self.go(StopStep::Inspect)
        }
    }

    /// `Inspect`: what the service is doing.
    pub fn inspected(&mut self, report: &ServiceReport)
        requires
            old(self).wf(),
            old(self).step == StopStep::Inspect,
        ensures
            match stop_of(*report, old(self).scope) {
                Err(e) => stop_fails(*old(self), *final(self), e),
                Ok(StopDecision::Stopped) => stop_moves(
                    *old(self),
                    *final(self),
                    StopStep::Stopped,
                ),
                Ok(StopDecision::Stop) => stop_moves(
                    *old(self),
                    *final(self),
                    match old(self).which {
                        Stopping::Destination => StopStep::Act,
                        Stopping::RecoveredSystem => StopStep::InspectRunning,
                    },
                ),
                Ok(StopDecision::Wait) => stop_moves(
                    *old(self),
                    *final(self),
                    StopStep::ReadClock,
                ),
            },
            final(self).wf(),
    {
        match stop_decision(report, self.scope) {
            Err(e) => self.failed(e),
            Ok(StopDecision::Stopped) => self.go(StopStep::Stopped),
            Ok(StopDecision::Stop) => match self.which {
                Stopping::Destination => self.go(StopStep::Act),
                Stopping::RecoveredSystem => self.go(StopStep::InspectRunning),
            },
            Ok(StopDecision::Wait) => self.go(StopStep::ReadClock),
        }
    }

    /// `InspectRunning`: the services, where the recovered one must run alone.
    pub fn verified(&mut self, report: &ServiceReport)
        requires
            old(self).wf(),
            old(self).step == StopStep::InspectRunning,
        ensures
            match running_of(*report, old(self).scope, old(self).uid) {
                Ok(_) => stop_moves(*old(self), *final(self), StopStep::ProbeRunning),
                Err(e) => stop_fails(*old(self), *final(self), e),
            },
            final(self).wf(),
    {
        match verify_running(report, self.scope, self.uid) {
            Ok(_) => self.go(StopStep::ProbeRunning),
            Err(e) => self.failed(e),
        }
    }

    /// `ProbeRunning`: what the daemon reports of itself.
    pub fn probed(&mut self, info: &DaemonInfo, gate: &str)
        requires
            old(self).wf(),
            old(self).step == StopStep::ProbeRunning,
        ensures
            match answer_of(*info, old(self).config@, gate@) {
                Ok(_) => stop_moves(*old(self), *final(self), StopStep::Act),
                Err(e) => stop_fails(*old(self), *final(self), e),
            },
            final(self).wf(),
    {
        match verify_daemon(info, self.config.as_str(), gate) {
            Ok(()) => self.go(StopStep::Act),
            Err(e) => self.failed(e),
        }
    }

    /// `ReadClock`: the time in milliseconds.
    pub fn clock(&mut self, elapsed: u64)
        requires
            old(self).wf(),
            old(self).step == StopStep::ReadClock,
        ensures
            if elapsed < old(self).deadline {
                stop_moves(*old(self), *final(self), StopStep::Pause)
            } else {
                stop_fails(*old(self), *final(self), late_stop(old(self).which))
            },
            final(self).wf(),
    {
        match stop_wait(self.which, elapsed, self.deadline) {
            Ok(()) => self.go(StopStep::Pause),
            Err(e) => self.failed(e),
        }
    }
}

/// A recovered system service is stopped only right after it was found running, alone, and with
/// the configuration that the switch began with.
pub proof fn recovered_systems_are_verified_before_they_stop(s: Stop)
    requires
        s.wf(),
        s.which == Stopping::RecoveredSystem,
        s.step == StopStep::Act,
    ensures
        s.scope == ServiceScope::System,
        s.log@.len() >= 3,
        s.log@[s.log@.len() - 1] == StopStep::ProbeRunning,
        s.log@[s.log@.len() - 2] == StopStep::InspectRunning,
        s.log@[s.log@.len() - 3] == StopStep::Inspect,
{
    assert(stopped_in_order(s.which, s.log@, s.log@.len() - 1));
    assert(stopped_in_order(s.which, s.log@, s.log@.len() - 2));
}

/// A destination is stopped only right after it was seen, and between two looks at a service there
/// are always a look at the clock and a pause.
pub proof fn stops_look_before_they_act_and_wait_between_looks(s: Stop)
    requires
        s.wf(),
    ensures
        s.which == Stopping::Destination && s.step == StopStep::Act ==> s.log@.len() >= 1
            && s.log@.last() == StopStep::Inspect,
        s.step == StopStep::Inspect && s.log@.len() > 0 ==> s.log@.len() >= 3
            && s.log@[s.log@.len() - 1] == StopStep::Pause && s.log@[s.log@.len() - 2]
            == StopStep::ReadClock && s.log@[s.log@.len() - 3] == StopStep::Inspect,
{
    if s.step == StopStep::Inspect && s.log@.len() > 0 {
        assert(stopped_in_order(s.which, s.log@, s.log@.len() - 1));
        assert(stopped_in_order(s.which, s.log@, s.log@.len() - 2));
    }
}

/// An action is taken at most once, as the last thing that a stop does.
pub proof fn stops_act_at_most_once(s: Stop, i: int)
    requires
        s.wf(),
        0 <= i < s.log@.len(),
        s.log@[i] == StopStep::Act,
    ensures
        i == s.log@.len() - 1,
        s.step == StopStep::Stopped || s.step == StopStep::Failed,
{
    if i + 1 < s.log@.len() {
        assert(stopped_in_order(s.which, s.log@, i + 1));
    }
}

/// A service that should stop is left alone where it has no process, is stopped where it runs, and is
/// waited for in every other state.
pub proof fn stops_are_decided_by_the_state(report: ServiceReport, scope: ServiceScope)
    ensures
        ({
            let probe = match scope {
                ServiceScope::User => report.user,
                ServiceScope::System => report.system,
            };
            let unit = probe->value;
            let decided = stop_of(report, scope);
            let off = unit.main_pid == 0 && (unit.active_state@ == "inactive"@ || unit.active_state@
                == "failed"@);
            let on = unit.active_state@ == "active"@ && unit.sub_state@ == "running"@;
            &&& decided is Ok <==> probe is Known
            &&& probe is Known && off ==> decided->Ok_0 == StopDecision::Stopped
            &&& probe is Known && on ==> decided->Ok_0 == StopDecision::Stop
            &&& probe is Known && !off && !on ==> decided->Ok_0 == StopDecision::Wait
        }),
{
    reveal_strlit("active");
    reveal_strlit("inactive");
    reveal_strlit("failed");
    assert("active"@[0] == 'a');
    assert("inactive"@[0] == 'i');
    assert("failed"@[0] == 'f');
}

/// Announcements end a start only where it does not restore.
pub proof fn restoring_starts_ignore_announcements(s: Start, result: Result<(), Seq<char>>)
    ensures
        start_announced(s, result) is Err <==> !s.restoring && result is Err,
        start_announced(s, result) is Err ==> start_announced(s, result) == result,
{
}

} // verus!
