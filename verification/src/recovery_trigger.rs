//! Asking for the recovery of a pending switch at login, without competing with one that runs.

use crate::command::Output;
use crate::container_destination::complaint;
use crate::distrobox_unit::written;
use crate::properties::{value_of, Properties};
use crate::services::{optional, same_optional};
use crate::text;
use crate::text::texts;
use vstd::prelude::*;

verus! {

/// How long a running recovery is waited for, in milliseconds.
pub const WAIT_LIMIT_MS: u64 = 900_000;

pub open spec fn unit_spec() -> Seq<char> {
    "lianli-control-recovery.service"@
}

/// The unit of the recovery service.
pub fn unit() -> (r: &'static str)
    ensures
        r@ == unit_spec(),
{
    "lianli-control-recovery.service"
}

/// The recovery service as it was seen.
#[derive(Clone, Debug)]
pub struct State {
    pub busy: bool,
    pub invocation: Option<String>,
}

/// The properties that the first `n` lines give: each line gives one, and none twice.
pub open spec fn collected(lines: Seq<Seq<char>>, n: int) -> Result<
    Map<Seq<char>, Seq<char>>,
    Seq<char>,
>
    decreases n,
{
    if n <= 0 {
        Ok(Map::empty())
    } else {
        match collected(lines, n - 1) {
            Err(e) => Err(e),
            Ok(fields) => match text::split_once_spec(lines[n - 1], '=') {
                None => Err("Invalid recovery service observation"@),
                Some((name, value)) => if value_of(fields, name) is Some {
                    Err("Duplicate recovery service property"@)
                } else {
                    Ok(fields.insert(name, value))
                },
            },
        }
    }
}

/// Whether a state of the service means that a recovery is under way, where it is a known one.
pub open spec fn busy_of(active: Option<Seq<char>>) -> Option<bool> {
    match active {
        None => None,
        Some(s) => if s == "inactive"@ || s == "failed"@ {
            Some(false)
        } else if s == "activating"@ || s == "active"@ || s == "deactivating"@ || s
            == "reloading"@ {
            Some(true)
        } else {
            None
        },
    }
}

/// Whether a property names no invocation: it is empty or zero.
pub open spec fn names_none(value: Seq<char>) -> bool {
    value.len() == 0 || value == "00000000000000000000000000000000"@
}

/// The invocation that the observation names, before its form is judged.
pub open spec fn named_of(lines: Seq<Seq<char>>) -> Option<Seq<char>> {
    match collected(lines, lines.len() as int) {
        Err(_) => None,
        Ok(fields) => match value_of(fields, "InvocationID"@) {
            None => None,
            Some(value) => if names_none(value) {
                None
            } else {
                Some(value)
            },
        },
    }
}

/// The recovery service by its properties, where `parsed` is the invocation that they name.
pub open spec fn state_of(
    lines: Seq<Seq<char>>,
    parsed: Result<Seq<char>, Seq<char>>,
) -> Result<(bool, Option<Seq<char>>), Seq<char>> {
    match collected(lines, lines.len() as int) {
        Err(e) => Err(e),
        Ok(fields) => if !(lines.len() == 4 && value_of(fields, "Id"@) == Some(unit_spec())
            && value_of(fields, "LoadState"@) == Some("loaded"@)) {
            Err("Install and reload the native recovery unit before requesting recovery"@)
        } else {
            match busy_of(value_of(fields, "ActiveState"@)) {
                None => Err("Recovery service has an unrecognized state. Inspect its journal"@),
                Some(busy) => match value_of(fields, "InvocationID"@) {
                    None => Err("Recovery invocation is unavailable"@),
                    Some(value) => if names_none(value) {
                        if busy {
                            Err(
                                "The running recovery service has no verifiable invocation identity"@,
                            )
                        } else {
                            Ok((busy, None))
                        }
                    } else {
                        match parsed {
                            Err(e) => Err(e),
                            Ok(invocation) => Ok((busy, Some(invocation))),
                        }
                    },
                },
            }
        },
    }
}

/// The value of a call that gives a state.
pub open spec fn seen(r: Result<State, String>) -> Result<(bool, Option<Seq<char>>), Seq<char>> {
    match r {
        Ok(s) => Ok((s.busy, optional(s.invocation))),
        Err(e) => Err(e@),
    }
}

fn collect(lines: &Vec<String>) -> (r: Result<Properties, String>)
    ensures
        match r {
            Ok(fields) => collected(texts(lines@), lines@.len() as int) == Ok::<
                Map<Seq<char>, Seq<char>>,
                Seq<char>,
            >(fields@),
            Err(e) => collected(texts(lines@), lines@.len() as int) == Err::<
                Map<Seq<char>, Seq<char>>,
                Seq<char>,
            >(e@),
        },
{
    let ghost all = texts(lines@);
    let mut fields = Properties::new();
    let mut error: Option<String> = None;
    let mut i: usize = 0;
    while i < lines.len()
        invariant
            all == texts(lines@),
            i <= lines@.len(),
            collected(all, i as int) == match error {
                Some(e) => Err(e@),
                None => Ok(fields@),
            },
        decreases lines@.len() - i,
    {
        assert(all[i as int] == lines@[i as int]@);
        if error.is_none() {
            match text::split_once(lines[i].as_str(), '=') {
                None => {
                    error = Some("Invalid recovery service observation".to_owned());
                },
                Some((name, value)) => {
                    if fields.get(name.as_str()).is_some() {
                        error = Some("Duplicate recovery service property".to_owned());
                    } else {
                        fields = fields.with(name, value);
                    }
                },
            }
        }
        i += 1;
    }
    match error {
        Some(e) => Err(e),
        None => Ok(fields),
    }
}

fn busy(active: Option<&String>) -> (r: Option<bool>)
    ensures
        r == busy_of(
            match active {
                Some(s) => Some(s@),
                None => None,
            },
        ),
{
    match active {
        None => None,
        Some(s) => {
            let s = s.as_str();
            if text::eq(s, "inactive") || text::eq(s, "failed") {
                Some(false)
            } else if text::eq(s, "activating") || text::eq(s, "active") || text::eq(
                s,
                "deactivating",
            ) || text::eq(s, "reloading") {
                Some(true)
            } else {
                None
            }
        },
    }
}

/// The invocation that an observation names, whose form is to be judged before `parse`.
pub fn named(text: &str) -> (r: Option<String>)
    ensures
        optional(r) == named_of(text::lines_of(text@)),
{
    let lines = text::lines(text);
    assert(texts(lines@).len() == lines@.len());
    match collect(&lines) {
        Err(_) => None,
        Ok(fields) => match fields.get("InvocationID") {
            None => None,
            Some(value) => {
                if text::chars(value.as_str()).len() == 0 || text::eq(
                    value.as_str(),
                    "00000000000000000000000000000000",
                ) {
                    None
                } else {
                    Some(value.clone())
                }
            },
        },
    }
}

/// The recovery service, by what the manager printed of it. `parsed` is what came of parsing the
/// invocation that the text names; where it names none, `parsed` counts for nothing.
pub fn parse(text: &str, parsed: &Result<String, String>) -> (r: Result<State, String>)
    ensures
        seen(r) == state_of(text::lines_of(text@), written(*parsed)),
{
    let lines = text::lines(text);
    assert(texts(lines@).len() == lines@.len());
    let fields = collect(&lines)?;
    if !(lines.len() == 4 && fields.is("Id", unit()) && fields.is("LoadState", "loaded")) {
        return Err(
            "Install and reload the native recovery unit before requesting recovery".to_owned(),
        );
    }
    let busy = match busy(fields.get("ActiveState")) {
        Some(busy) => busy,
        None => {
            return Err(
                "Recovery service has an unrecognized state. Inspect its journal".to_owned(),
            );
        },
    };
    let invocation = match fields.get("InvocationID") {
        None => {
            return Err("Recovery invocation is unavailable".to_owned());
        },
        Some(value) => {
            if text::chars(value.as_str()).len() == 0 || text::eq(
                value.as_str(),
                "00000000000000000000000000000000",
            ) {
                None
            } else {
                match parsed {
                    Err(e) => {
                        return Err(e.clone());
                    },
                    Ok(invocation) => Some(invocation.clone()),
                }
            }
        },
    };
    if busy && invocation.is_none() {
        return Err(
            "The running recovery service has no verifiable invocation identity".to_owned(),
        );
    }
    Ok(State { busy, invocation })
}

/// The recovery service, by what the query for it gave.
pub fn observe(output: &Output, parsed: &Result<String, String>) -> (r: Result<State, String>)
    ensures
        seen(r) == if output.code == Some(0i32) {
            state_of(text::lines_of(output.stdout@), written(*parsed))
        } else {
            Err("Cannot inspect recovery before submission: "@ + text::trimmed(output.stderr@))
        },
{
    if !output.success() {
        let mut e = "Cannot inspect recovery before submission: ".to_owned();
        e.append(text::trim(output.stderr.as_str()).as_str());
        return Err(e);
    }
    parse(output.stdout.as_str(), parsed)
}

pub open spec fn submission_of(output: Result<Output, String>) -> Option<Seq<char>> {
    match output {
        Err(e) => Some(
            "Automatic recovery submission was not confirmed. Check service progress without replaying the request: "@
                + e@,
        ),
        Ok(o) => if o.code == Some(0i32) {
            None
        } else {
            Some(
                "Cannot request pending switch recovery: "@ + text::trimmed(o.stderr@)
                    + ". Recheck the installed recovery unit and Polkit rule"@,
            )
        },
    }
}

/// What came of a request for recovery.
pub fn submission(output: &Result<Output, String>) -> (r: Result<(), String>)
    ensures
        complaint(r) == submission_of(*output),
{
    match output {
        Err(e) => {
            let mut text = "Automatic recovery submission was not confirmed. Check service progress without replaying the request: ".to_owned();
            text.append(e.as_str());
            Err(text)
        },
        Ok(o) => {
            if o.success() {
                return Ok(());
            }
            let mut text = "Cannot request pending switch recovery: ".to_owned();
            text.append(text::trim(o.stderr.as_str()).as_str());
            text.append(". Recheck the installed recovery unit and Polkit rule");
            Err(text)
        },
    }
}

#[derive(Clone, Copy, Debug, PartialEq, Eq, Structural)]
pub enum TriggerStep {
    Inspect,
    ReadClock,
    Pause,
    InspectAgain,
    Submit,
    Done,
    Failed,
}

/// A request for recovery under way.
pub struct Trigger {
    pub step: TriggerStep,
    /// The recovery that ran at the beginning.
    pub original: Option<String>,
    pub error: String,
    /// How often a recovery was asked for.
    pub submissions: Ghost<nat>,
    /// The states of the recovery service that were seen, in order.
    pub states: Ghost<Seq<(bool, Option<Seq<char>>)>>,
}

/// Whether the last state that was seen allows a request: nothing runs, and nothing ran since the
/// beginning but what ran then.
pub open spec fn free(states: Seq<(bool, Option<Seq<char>>)>) -> bool {
    &&& states.len() > 0
    &&& !states.last().0
    &&& states.len() == 1 || states.last().1 is None || states.last().1 == states[0].1
}

pub open spec fn trigger_stops(before: Trigger, after: Trigger, text: Seq<char>) -> bool {
    after == (Trigger { step: TriggerStep::Failed, error: after.error, ..before })
        && after.error@ == text
}

impl Trigger {
    /// A recovery is asked for at most once, where the last state that was seen allows it, and then
    /// the request is done or failed for good. It is done without that only where another recovery
    /// began meanwhile.
    pub open spec fn wf(self) -> bool {
        &&& self.submissions@ <= 1
        &&& self.submissions@ == 1 ==> free(self.states@) && (self.step == TriggerStep::Done
            || self.step == TriggerStep::Failed)
        &&& self.states@.len() > 0 ==> self.states@[0].1 == optional(self.original)
        &&& match self.step {
            TriggerStep::Inspect => self.states@.len() == 0,
            TriggerStep::ReadClock | TriggerStep::Pause | TriggerStep::InspectAgain =>
            self.states@.len() > 0 && self.states@[0].0,
            TriggerStep::Submit => free(self.states@),
            TriggerStep::Done => self.submissions@ == 1 || (self.states@.len() > 1
                && self.states@.last().1 is Some && self.states@.last().1 != self.states@[0].1),
            TriggerStep::Failed => true,
        }
    }

    pub fn begin() -> (r: Trigger)
        ensures
            r.wf(),
            r.step == TriggerStep::Inspect,
            r.submissions@ == 0,
            r.states@ == Seq::<(bool, Option<Seq<char>>)>::empty(),
            r.original is None,
    {
        Trigger {
            step: TriggerStep::Inspect,
            original: None,
            error: String::new(),
            submissions: Ghost(0),
            states: Ghost(Seq::empty()),
        }
    }

    fn stop(&mut self, reason: &str)
        requires
            old(self).wf(),
        ensures
            final(self).wf(),
            trigger_stops(*old(self), *final(self), reason@),
    {
        self.step = TriggerStep::Failed;
        self.error = reason.to_owned();
    }

    /// The inspection failed, and nothing is asked for.
    pub fn failed(&mut self, reason: &str)
        requires
            old(self).wf(),
            old(self).step == TriggerStep::Inspect || old(self).step == TriggerStep::InspectAgain,
        ensures
            final(self).submissions@ == 0,
            final(self).wf(),
            trigger_stops(*old(self), *final(self), reason@),
    {
        self.stop(reason);
    }

    /// The recovery service at the beginning.
    pub fn inspected(&mut self, state: &State)
        requires
            old(self).wf(),
            old(self).step == TriggerStep::Inspect,
        ensures
            final(self).wf(),
            *final(self) == (Trigger {
                original: state.invocation,
                states: Ghost(old(self).states@.push((state.busy, optional(state.invocation)))),
                step: if state.busy {
                    TriggerStep::ReadClock
                } else {
                    TriggerStep::Submit
                },
                ..*old(self)
            }),
    {
        self.original = crate::services::copy_optional(&state.invocation);
        self.states = Ghost(self.states@.push((state.busy, optional(state.invocation))));
        if state.busy {
            self.step = TriggerStep::ReadClock;
        } else {
            self.step = TriggerStep::Submit;
        }
    }

    /// The milliseconds since the beginning.
    pub fn clock(&mut self, elapsed_ms: u64)
        requires
            old(self).wf(),
            old(self).step == TriggerStep::ReadClock,
        ensures
            final(self).wf(),
            if elapsed_ms < WAIT_LIMIT_MS {
                *final(self) == (Trigger { step: TriggerStep::Pause, ..*old(self) })
            } else {
                trigger_stops(
                    *old(self),
                    *final(self),
                    "The previous recovery is still running after fifteen minutes. Inspect service progress before requesting recovery again. No competing recovery was submitted"@,
                )
            },
    {
        if elapsed_ms < WAIT_LIMIT_MS {
            self.step = TriggerStep::Pause;
        } else {
            self.stop(
                "The previous recovery is still running after fifteen minutes. Inspect service progress before requesting recovery again. No competing recovery was submitted",
            );
        }
    }

    /// The pause is over.
    pub fn paused(&mut self)
        requires
            old(self).wf(),
            old(self).step == TriggerStep::Pause,
        ensures
            final(self).wf(),
            *final(self) == (Trigger { step: TriggerStep::InspectAgain, ..*old(self) }),
    {
        self.step = TriggerStep::InspectAgain;
    }

    /// The recovery service after a pause. Another recovery that began meanwhile makes a request
    /// needless.
    pub fn observed(&mut self, state: &State)
        requires
            old(self).wf(),
            old(self).step == TriggerStep::InspectAgain,
        ensures
            final(self).wf(),
            *final(self) == (Trigger {
                states: Ghost(old(self).states@.push((state.busy, optional(state.invocation)))),
                step: if state.invocation is Some && optional(state.invocation) != optional(
                    old(self).original,
                ) {
                    TriggerStep::Done
                } else if !state.busy {
                    TriggerStep::Submit
                } else {
                    TriggerStep::ReadClock
                },
                ..*old(self)
            }),
    {
        self.states = Ghost(self.states@.push((state.busy, optional(state.invocation))));
        if state.invocation.is_some() && !same_optional(&state.invocation, &self.original) {
            self.step = TriggerStep::Done;
        } else if !state.busy {
            self.step = TriggerStep::Submit;
        } else {
            self.step = TriggerStep::ReadClock;
        }
    }

    /// A recovery was asked for, and this came of it.
    pub fn submitted(&mut self, result: &Result<(), String>)
        requires
            old(self).wf(),
            old(self).step == TriggerStep::Submit,
        ensures
            final(self).wf(),
            final(self).submissions@ == 1,
            match *result {
                Ok(_) => *final(self) == (Trigger {
                    step: TriggerStep::Done,
                    submissions: Ghost(1),
                    ..*old(self)
                }),
                Err(e) => trigger_stops(
                    (Trigger { submissions: Ghost(1), ..*old(self) }),
                    *final(self),
                    e@,
                ),
            },
    {
        self.submissions = Ghost(1);
        match result {
            Ok(_) => {
                self.step = TriggerStep::Done;
            },
            Err(e) => {
                self.step = TriggerStep::Failed;
                self.error = e.clone();
            },
        }
    }
}

/// A recovery is asked for at most once, and never again after an answer was lost.
pub proof fn recovery_is_requested_at_most_once(trigger: Trigger)
    requires
        trigger.wf(),
    ensures
        trigger.submissions@ <= 1,
        trigger.step == TriggerStep::Submit ==> trigger.submissions@ == 0,
{
}

/// A recovery is asked for only where the last look found none running, and where that look was the
/// first one or found no other recovery than the first. Otherwise a request that is done found
/// another recovery, and one that failed before it asked for anything asks for nothing.
pub proof fn requests_never_compete(trigger: Trigger)
    requires
        trigger.wf(),
    ensures
        trigger.step == TriggerStep::Submit || trigger.submissions@ == 1 ==> ({
            let states = trigger.states@;
            &&& states.len() > 0
            &&& !states.last().0
            &&& states.len() == 1 || states.last().1 is None || states.last().1 == states[0].1
        }),
        trigger.submissions@ == 1 ==> trigger.step == TriggerStep::Done || trigger.step
            == TriggerStep::Failed,
        trigger.step == TriggerStep::Done && trigger.submissions@ == 0 ==> trigger.states@.last().1
            is Some && trigger.states@.last().1 != trigger.states@[0].1,
{
}

/// The arguments of systemctl that ask how the recovery service stands.
pub open spec fn query_arguments_of() -> Seq<Seq<char>> {
    seq![
        "--system"@,
        "--no-ask-password"@,
        "--no-pager"@,
        "show"@,
        "--all"@,
        "--property=Id,LoadState,ActiveState,InvocationID"@,
        unit_spec(),
    ]
}

pub fn query_arguments() -> (r: Vec<String>)
    ensures
        texts(r@) == query_arguments_of(),
{
    let mut r: Vec<String> = Vec::new();
    r.push("--system".to_owned());
    r.push("--no-ask-password".to_owned());
    r.push("--no-pager".to_owned());
    r.push("show".to_owned());
    r.push("--all".to_owned());
    r.push("--property=Id,LoadState,ActiveState,InvocationID".to_owned());
    r.push(unit().to_owned());
    assert(texts(r@) =~= query_arguments_of());
    r
}

/// The arguments of systemctl that ask for a recovery without waiting for it.
pub open spec fn submit_arguments_of() -> Seq<Seq<char>> {
    seq![
        "--system"@,
        "--no-ask-password"@,
        "--no-pager"@,
        "--no-block"@,
        "--job-mode=fail"@,
        "start"@,
        unit_spec(),
    ]
}

pub fn submit_arguments() -> (r: Vec<String>)
    ensures
        texts(r@) == submit_arguments_of(),
{
    let mut r: Vec<String> = Vec::new();
    r.push("--system".to_owned());
    r.push("--no-ask-password".to_owned());
    r.push("--no-pager".to_owned());
    r.push("--no-block".to_owned());
    r.push("--job-mode=fail".to_owned());
    r.push("start".to_owned());
    r.push(unit().to_owned());
    assert(texts(r@) =~= submit_arguments_of());
    r
}

/// A recovery counts as running in every state between its start and its end, as not running where
/// it is over, and in no other state is anything concluded.
pub proof fn every_transition_counts_as_running(active: Option<Seq<char>>)
    ensures
        busy_of(active) == Some(true) <==> active is Some && (active->0 == "activating"@ || active->0
            == "active"@ || active->0 == "deactivating"@ || active->0 == "reloading"@),
        busy_of(active) == Some(false) <==> active is Some && (active->0 == "inactive"@ || active->0
            == "failed"@),
{
    reveal_strlit("activating");
    reveal_strlit("active");
    reveal_strlit("deactivating");
    reveal_strlit("reloading");
    reveal_strlit("inactive");
    reveal_strlit("failed");
    assert("activating"@[0] == 'a');
    assert("active"@[0] == 'a');
    assert("deactivating"@[0] == 'd');
    assert("reloading"@[0] == 'r');
    assert("inactive"@[0] == 'i');
    assert("failed"@[0] == 'f');
}

/// The recovery service is known exactly where four properties were read, they are those of the
/// loaded unit, its state is a known one, and its invocation is named well, or none is named while
/// nothing runs. What is returned is that state and that invocation.
pub proof fn recovery_states_are_read_from_their_properties(
    lines: Seq<Seq<char>>,
    parsed: Result<Seq<char>, Seq<char>>,
)
    ensures
        ({
            let fields = collected(lines, lines.len() as int)->Ok_0;
            let busy = busy_of(value_of(fields, "ActiveState"@));
            let invocation = value_of(fields, "InvocationID"@);
            let none = invocation->0.len() == 0 || invocation->0
                == "00000000000000000000000000000000"@;
            let state = state_of(lines, parsed);
            &&& state is Ok <==> {
                &&& collected(lines, lines.len() as int) is Ok
                &&& lines.len() == 4
                &&& value_of(fields, "Id"@) == Some("lianli-control-recovery.service"@)
                &&& value_of(fields, "LoadState"@) == Some("loaded"@)
                &&& busy is Some
                &&& invocation is Some
                &&& none ==> !busy->0
                &&& !none ==> parsed is Ok
            }
            &&& state is Ok ==> state->Ok_0.0 == busy->0
            &&& state is Ok && none ==> state->Ok_0.1 is None
            &&& state is Ok && !none ==> state->Ok_0.1 == Some(parsed->Ok_0)
        }),
{
}

/// A request was taken exactly where the service manager could be asked and said so.
pub proof fn submissions_are_confirmed_by_success(output: Result<Output, String>)
    ensures
        submission_of(output) is None <==> output is Ok && output->Ok_0.code == Some(0i32),
{
}

/// The invocation that is named is that of the properties, where they can be read and it is neither
/// empty nor zero.
pub proof fn invocations_are_named_by_their_property(lines: Seq<Seq<char>>, id: Seq<char>)
    ensures
        named_of(lines) == Some(id) <==> {
            let fields = collected(lines, lines.len() as int);
            &&& fields is Ok
            &&& value_of(fields->Ok_0, "InvocationID"@) == Some(id)
            &&& id.len() > 0
            &&& id != "00000000000000000000000000000000"@
        },
{
}

/// Recovery is looked at and asked for at the system's manager, under the one name of its unit, and a
/// request never waits.
pub proof fn recovery_is_asked_of_the_system()
    ensures
        query_arguments_of()[0] == "--system"@,
        query_arguments_of().last() == "lianli-control-recovery.service"@,
        submit_arguments_of()[0] == "--system"@,
        submit_arguments_of().last() == "lianli-control-recovery.service"@,
        submit_arguments_of().contains("start"@),
        submit_arguments_of().contains("--no-block"@),
{
    assert(submit_arguments_of()[5] == "start"@);
    assert(submit_arguments_of()[3] == "--no-block"@);
}

} // verus!
