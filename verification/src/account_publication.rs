//! Publishing or restoring saved state under the account it belongs to: the two sides of the
//! exchange between the coordinator and its helper.

use crate::account::Account;
use crate::command::Output;
use crate::container_destination;
use crate::container_destination::{complaint, target_complaint, Identity};
use crate::files::Metadata;
use crate::path;
use crate::reservation::{inherited_verdict, InheritedReservations};
use crate::services::{copy_optional, optional, same_optional, FileIdentity};
use crate::steps::push_holds;
use crate::text;
use crate::text::outcome;
use vstd::prelude::*;

verus! {

/// The largest request, in bytes.
pub const MAX_REQUEST: usize = 65_536;

/// How much of the helper's errors is reported, in characters.
pub const MAX_ERRORS: usize = 2048;

#[derive(Clone, Debug)]
pub enum Action {
    /// Publish a prepared transfer, which belongs to an account.
    Publish { config: String, destination_uid: u32 },
    Restore { config: String, backup: String },
    ResumeRestore { config: String, backup: String, undo: String },
    Recover { config: String },
}

/// What the two sides tell each other.
pub enum Message {
    OperationLock,
    HardwareLock,
    Request { bytes: usize, digest: String },
    Ready { backup: Option<String> },
    Proceed,
    Done { backup: Option<String> },
}

impl Action {
    pub open spec fn config_of(self) -> Seq<char> {
        match self {
            Action::Publish { config, destination_uid } => config@,
            Action::Restore { config, backup } => config@,
            Action::ResumeRestore { config, backup, undo } => config@,
            Action::Recover { config } => config@,
        }
    }

    /// The configuration that the action works on.
    pub fn config(&self) -> (r: &String)
        ensures
            r@ == self.config_of(),
    {
        match self {
            Action::Publish { config, destination_uid: _ } => config,
            Action::Restore { config, backup: _ } => config,
            Action::ResumeRestore { config, backup: _, undo: _ } => config,
            Action::Recover { config } => config,
        }
    }

    /// Whether the action keeps a backup of what it replaces.
    pub fn needs_backup(&self) -> (r: bool)
        ensures
            r == !(*self is Recover),
    {
        match self {
            Action::Recover { config: _ } => false,
            _ => true,
        }
    }
}

pub open spec fn execute_complaint(
    action: Action,
    uid: u32,
    identity: Option<Identity>,
    program: Option<Seq<char>>,
) -> Option<Seq<char>> {
    if identity is Some && !path::same_path(identity->0.config_path@, action.config_of()) {
        Some("Container state operation targets another configuration"@)
    } else if program != Some("lianli-control"@) {
        Some("Use the standalone control helper for account publication"@)
    } else if action is Publish && action->destination_uid != uid {
        Some("Prepared transfer belongs to another account"@)
    } else {
        None
    }
}

/// Begins to carry out an action under an account: in the box it belongs to, by the installed helper,
/// and on that account's own transfer.
pub fn execute(action: &Action, uid: u32, identity: Option<&Identity>, program: Option<&str>) -> (r:
    Result<Publication, String>)
    ensures
        match execute_complaint(
            *action,
            uid,
            match identity {
                Some(i) => Some(*i),
                None => None,
            },
            match program {
                Some(p) => Some(p@),
                None => None,
            },
        ) {
            Some(e) => r matches Err(text) && text@ == e,
            None => r matches Ok(p) && p.wf() && p.needs_backup == !(*action is Recover) && p.step
                == Step::SendOperation && p.backup is None && p.completed is None && p.log@ == Seq::<
                Step,
            >::empty(),
        },
{
    match identity {
        Some(i) => {
            i.check_config(action.config().as_str())?;
        },
        None => {},
    }
    let named = match program {
        Some(p) => text::eq(p, "lianli-control"),
        None => false,
    };
    if !named {
        return Err("Use the standalone control helper for account publication".to_owned());
    }
    match action {
        Action::Publish { config: _, destination_uid } => {
            if *destination_uid != uid {
                return Err("Prepared transfer belongs to another account".to_owned());
            }
        },
        _ => {},
    }
    Ok(Publication::begin(action))
}

pub fn check_size(bytes: usize) -> (r: Result<(), String>)
    ensures
        outcome(r) == if bytes <= MAX_REQUEST {
            Ok(())
        } else {
            Err("Publication request exceeds 64 KiB"@)
        },
{
    if bytes <= MAX_REQUEST {
        Ok(())
    } else {
        Err("Publication request exceeds 64 KiB".to_owned())
    }
}

#[derive(Clone, Copy, Debug, PartialEq, Eq, Structural)]
pub enum Step {
    SendOperation,
    SendHardware,
    SendRequest,
    AwaitReady,
    /// Record the backup durably.
    RecordReady,
    SendProceed,
    AwaitDone,
    Done,
    Failed,
}

pub open spec fn rank(step: Step) -> int {
    match step {
        Step::SendOperation => 0,
        Step::SendHardware => 1,
        Step::SendRequest => 2,
        Step::AwaitReady => 3,
        Step::RecordReady => 4,
        Step::SendProceed => 5,
        Step::AwaitDone => 6,
        Step::Done => 7,
        Step::Failed => 8,
    }
}

/// The coordinator's side of a publication.
pub struct Publication {
    pub needs_backup: bool,
    pub step: Step,
    /// The backup that the helper named before it changed anything.
    pub backup: Option<String>,
    pub completed: Option<String>,
    pub error: String,
    pub log: Ghost<Seq<Step>>,
}

pub open spec fn stops(before: Publication, after: Publication, text: Seq<char>) -> bool {
    after == (Publication { step: Step::Failed, error: after.error, ..before }) && after.error@
        == text
}

pub open spec fn moves(before: Publication, after: Publication, next: Step) -> bool {
    after == (Publication { step: next, log: Ghost(before.log@.push(before.step)), ..before })
}

/// What a message that should announce readiness says.
pub open spec fn ready_of(
    needs_backup: bool,
    message: Message,
    descriptor: bool,
    valid: Result<(), String>,
) -> Result<Option<Seq<char>>, Seq<char>> {
    if descriptor {
        Err("Unexpected descriptor in publication acknowledgement"@)
    } else {
        match message {
            Message::Ready { backup } => if backup is Some != needs_backup {
                Err("Publication helper returned an unexpected backup state"@)
            } else if backup is Some && valid is Err {
                Err(valid->Err_0@)
            } else {
                Ok(optional(backup))
            },
            _ => Err("Publication helper did not reach its journal barrier"@),
        }
    }
}

/// What a message that should announce completion says.
pub open spec fn done_of(
    announced: Option<String>,
    message: Message,
    descriptor: bool,
    valid: Result<(), String>,
) -> Result<Option<Seq<char>>, Seq<char>> {
    if descriptor {
        Err("Unexpected descriptor in publication acknowledgement"@)
    } else {
        match message {
            Message::Done { backup } => if backup is Some && valid is Err {
                Err(valid->Err_0@)
            } else if announced is Some && optional(announced) != optional(backup) {
                Err("Publication backup changed after authorization"@)
            } else {
                Ok(optional(backup))
            },
            _ => Err("Publication helper did not confirm completion"@),
        }
    }
}

impl Publication {
    /// Each step follows all those before it, and what is completed is what was announced.
    pub open spec fn wf(self) -> bool {
        &&& self.step != Step::Failed ==> forall|s: Step|
            rank(s) < rank(self.step) ==> #[trigger] self.log@.contains(s)
        &&& rank(Step::RecordReady) <= rank(self.step) <= rank(Step::Done) ==> self.backup is Some
            == self.needs_backup
        &&& self.step == Step::Done && self.backup is Some ==> optional(self.completed) == optional(
            self.backup,
        )
    }

    pub fn begin(action: &Action) -> (r: Publication)
        ensures
            r.wf(),
            r.needs_backup == !(*action is Recover),
            r.step == Step::SendOperation,
            r.backup is None,
            r.completed is None,
            r.log@ == Seq::<Step>::empty(),
    {
        Publication {
            needs_backup: action.needs_backup(),
            step: Step::SendOperation,
            backup: None,
            completed: None,
            error: String::new(),
            log: Ghost(Seq::empty()),
        }
    }

    pub fn failed(&mut self, reason: &str)
        requires
            old(self).wf(),
        ensures
            final(self).wf(),
            stops(*old(self), *final(self), reason@),
    {
        self.step = Step::Failed;
        self.error = reason.to_owned();
    }

    fn advance(&mut self, next: Step)
        requires
            forall|s: Step| rank(s) < rank(old(self).step) ==> #[trigger] old(self).log@.contains(s),
            rank(next) == rank(old(self).step) + 1,
            next != Step::Failed,
            rank(Step::RecordReady) <= rank(next) ==> old(self).backup is Some == old(
                self,
            ).needs_backup,
            next == Step::Done && old(self).backup is Some ==> optional(old(self).completed)
                == optional(old(self).backup),
        ensures
            final(self).wf(),
            moves(*old(self), *final(self), next),
    {
        proof {
            push_holds(self.log@, self.step);
            assert forall|s: Step| rank(s) < rank(next) implies #[trigger] self.log@.push(
                self.step,
            ).contains(s) by {
                assert(s == self.step || rank(s) < rank(self.step));
            }
        }
        self.log = Ghost(self.log@.push(self.step));
        self.step = next;
    }

    /// A message was sent, or the backup recorded.
    pub fn done(&mut self)
        requires
            old(self).wf(),
            old(self).step == Step::SendOperation || old(self).step == Step::SendHardware || old(
                self,
            ).step == Step::SendRequest || old(self).step == Step::RecordReady || old(self).step
                == Step::SendProceed,
        ensures
            final(self).wf(),
            moves(
                *old(self),
                *final(self),
                match old(self).step {
                    Step::SendOperation => Step::SendHardware,
                    Step::SendHardware => Step::SendRequest,
                    Step::SendRequest => Step::AwaitReady,
                    Step::RecordReady => Step::SendProceed,
                    _ => Step::AwaitDone,
                },
            ),
    {
        let next = match self.step {
            Step::SendOperation => Step::SendHardware,
            Step::SendHardware => Step::SendRequest,
            Step::SendRequest => Step::AwaitReady,
            Step::RecordReady => Step::SendProceed,
            _ => Step::AwaitDone,
        };
        self.advance(next);
    }

    /// The helper's answer to the request, whether a descriptor came with it, and whether the name of
    /// the backup is a valid one.
    pub fn ready(&mut self, message: &Message, descriptor: bool, valid: &Result<(), String>)
        requires
            old(self).wf(),
            old(self).step == Step::AwaitReady,
        ensures
            final(self).wf(),
            match ready_of(old(self).needs_backup, *message, descriptor, *valid) {
                Err(text) => stops(*old(self), *final(self), text),
                Ok(backup) => optional(final(self).backup) == backup && moves(
                    (Publication { backup: final(self).backup, ..*old(self) }),
                    *final(self),
                    Step::RecordReady,
                ),
            },
    {
        if descriptor {
            self.failed("Unexpected descriptor in publication acknowledgement");
            return;
        }
        match message {
            Message::Ready { backup } => {
                if backup.is_some() != self.needs_backup {
                    self.failed("Publication helper returned an unexpected backup state");
                    return;
                }
                match valid {
                    Err(e) => {
                        if backup.is_some() {
                            self.failed(e.as_str());
                            return;
                        }
                    },
                    Ok(_) => {},
                }
                self.backup = copy_optional(backup);
                self.advance(Step::RecordReady);
            },
            _ => {
                self.failed("Publication helper did not reach its journal barrier");
            },
        }
    }

    /// The helper's last message, whether a descriptor came with it, and whether the name of the
    /// backup is a valid one.
    pub fn completed(&mut self, message: &Message, descriptor: bool, valid: &Result<(), String>)
        requires
            old(self).wf(),
            old(self).step == Step::AwaitDone,
        ensures
            final(self).wf(),
            match done_of(old(self).backup, *message, descriptor, *valid) {
                Err(text) => stops(*old(self), *final(self), text),
                Ok(backup) => optional(final(self).completed) == backup && moves(
                    (Publication { completed: final(self).completed, ..*old(self) }),
                    *final(self),
                    Step::Done,
                ),
            },
    {
        if descriptor {
            self.failed("Unexpected descriptor in publication acknowledgement");
            return;
        }
        match message {
            Message::Done { backup } => {
                match valid {
                    Err(e) => {
                        if backup.is_some() {
                            self.failed(e.as_str());
                            return;
                        }
                    },
                    Ok(_) => {},
                }
                if self.backup.is_some() && !same_optional(&self.backup, backup) {
                    self.failed("Publication backup changed after authorization");
                    return;
                }
                self.completed = copy_optional(backup);
                self.advance(Step::Done);
            },
            _ => {
                self.failed("Publication helper did not confirm completion");
            },
        }
    }

    /// What the exchange came to.
    pub fn result(&self) -> (r: Result<Option<String>, String>)
        requires
            self.wf(),
            self.step == Step::Done || self.step == Step::Failed,
        ensures
            match r {
                Ok(backup) => self.step == Step::Done && optional(backup) == optional(
                    self.completed,
                ),
                Err(e) => self.step == Step::Failed && e@ == self.error@,
            },
    {
        match self.step {
            Step::Done => Ok(copy_optional(&self.completed)),
            _ => Err(self.error.clone()),
        }
    }
}

/// The helper is told to proceed only after the backup that it announced was recorded.
pub proof fn changes_follow_the_journal(publication: Publication)
    requires
        publication.wf(),
        publication.step == Step::SendProceed,
    ensures
        publication.log@.contains(Step::AwaitReady),
        publication.log@.contains(Step::RecordReady),
        publication.needs_backup ==> publication.backup is Some,
{
}

/// A publication that is done confirmed the very backup that was recorded.
pub proof fn confirmed_backups_are_the_recorded_ones(publication: Publication)
    requires
        publication.wf(),
        publication.step == Step::Done,
        publication.needs_backup,
    ensures
        publication.backup is Some,
        optional(publication.completed) == optional(publication.backup),
{
}

/// What the helper's process says of its work.
pub open spec fn helper_of(output: Result<Output, String>) -> Result<(), Seq<char>> {
    match output {
        Err(e) => Err(e@),
        Ok(o) => if o.code != Some(0i32) {
            Err(
                "Account publication failed ("@ + o.status@ + "): "@ + text::cut(
                    o.stderr@,
                    MAX_ERRORS as int,
                ),
            )
        } else if o.stdout@.len() > 0 {
            Err("Unexpected publication helper output"@)
        } else {
            Ok(())
        },
    }
}

pub open spec fn combined_of(
    protocol: Result<Option<Seq<char>>, Seq<char>>,
    helper: Result<(), Seq<char>>,
) -> Result<Option<Seq<char>>, Seq<char>> {
    match (protocol, helper) {
        (Ok(backup), Ok(_)) => Ok(backup),
        (Err(first), Err(second)) => Err(first + ". "@ + second),
        (Err(e), Ok(_)) => Err(e),
        (Ok(_), Err(e)) => Err(e),
    }
}

/// The value or error of an exchange.
pub open spec fn exchanged(r: Result<Option<String>, String>) -> Result<
    Option<Seq<char>>,
    Seq<char>,
> {
    match r {
        Ok(backup) => Ok(optional(backup)),
        Err(e) => Err(e@),
    }
}

fn check_helper(output: &Result<Output, String>) -> (r: Result<(), String>)
    ensures
        outcome(r) == helper_of(*output),
{
    match output {
        Err(e) => Err(e.clone()),
        Ok(o) => {
            if !o.success() {
                let mut e = "Account publication failed (".to_owned();
                e.append(o.status.as_str());
                e.append("): ");
                e.append(text::take(o.stderr.as_str(), MAX_ERRORS).as_str());
                return Err(e);
            }
            if text::chars(o.stdout.as_str()).len() > 0 {
                return Err("Unexpected publication helper output".to_owned());
            }
            Ok(())
        },
    }
}

/// What a publication came to: the exchange and the helper's process must both have succeeded.
pub fn conclude(protocol: Result<Option<String>, String>, output: &Result<Output, String>) -> (r:
    Result<Option<String>, String>)
    ensures
        exchanged(r) == combined_of(exchanged(protocol), helper_of(*output)),
{
    match (protocol, check_helper(output)) {
        (Ok(backup), Ok(_)) => Ok(backup),
        (Err(first), Err(second)) => {
            let mut e = first;
            e.append(". ");
            e.append(second.as_str());
            Err(e)
        },
        (Err(e), Ok(_)) => Err(e),
        (Ok(_), Err(e)) => Err(e),
    }
}

#[derive(Clone, Copy, Debug, PartialEq, Eq, Structural)]
pub enum ServeStep {
    AwaitOperation,
    AwaitHardware,
    /// Take over both reservations.
    Inherit,
    AwaitRequest,
    /// Read the request and check its digest.
    ReadRequest,
    Verify,
    /// Check the configuration against the worker's destination, then prepare the change.
    Prepare,
    SendReady,
    AwaitProceed,
    VerifyAgain,
    /// Change the saved state.
    Change,
    VerifyLast,
    SendDone,
    Served,
    Refused,
}

pub open spec fn serve_rank(step: ServeStep) -> int {
    match step {
        ServeStep::AwaitOperation => 0,
        ServeStep::AwaitHardware => 1,
        ServeStep::Inherit => 2,
        ServeStep::AwaitRequest => 3,
        ServeStep::ReadRequest => 4,
        ServeStep::Verify => 5,
        ServeStep::Prepare => 6,
        ServeStep::SendReady => 7,
        ServeStep::AwaitProceed => 8,
        ServeStep::VerifyAgain => 9,
        ServeStep::Change => 10,
        ServeStep::VerifyLast => 11,
        ServeStep::SendDone => 12,
        ServeStep::Served => 13,
        ServeStep::Refused => 14,
    }
}

/// The helper's side of a publication.
pub struct Serving {
    pub uid: u32,
    /// What was asked for, once it was read.
    pub action: Option<Action>,
    /// The backup of what is about to be replaced, once the change was begun.
    pub backup: Option<String>,
    /// The backup that the change left.
    pub completed: Option<String>,
    pub step: ServeStep,
    pub error: String,
    pub log: Ghost<Seq<ServeStep>>,
}

pub open spec fn refuses(before: Serving, after: Serving, text: Seq<char>) -> bool {
    after == (Serving { step: ServeStep::Refused, error: after.error, ..before }) && after.error@
        == text
}

pub open spec fn serves(before: Serving, after: Serving, next: ServeStep) -> bool {
    after == (Serving { step: next, log: Ghost(before.log@.push(before.step)), ..before })
}

/// Whether the first complaint is reported, or else the next step reached.
pub open spec fn answers(
    before: Serving,
    after: Serving,
    complaint: Option<Seq<char>>,
    next: ServeStep,
) -> bool {
    match complaint {
        Some(text) => refuses(before, after, text),
        None => serves(before, after, next),
    }
}

/// A step that only succeeds or fails.
pub open spec fn is_plain(step: ServeStep) -> bool {
    step == ServeStep::SendReady || step == ServeStep::SendDone
}

pub open spec fn serve_after(step: ServeStep) -> ServeStep {
    match step {
        ServeStep::Inherit => ServeStep::AwaitRequest,
        ServeStep::SendReady => ServeStep::AwaitProceed,
        ServeStep::VerifyAgain => ServeStep::Change,
        ServeStep::VerifyLast => ServeStep::SendDone,
        _ => ServeStep::Served,
    }
}

/// A step that only verifies both reservations.
pub open spec fn verifies(step: ServeStep) -> bool {
    step == ServeStep::Inherit || step == ServeStep::VerifyAgain || step == ServeStep::VerifyLast
}

impl Serving {
    /// Each step follows all those before it.
    pub open spec fn wf(self) -> bool {
        self.step != ServeStep::Refused ==> {
            &&& forall|s: ServeStep|
                serve_rank(s) < serve_rank(self.step) ==> #[trigger] self.log@.contains(s)
            &&& serve_rank(self.step) > 4 ==> self.action is Some
            &&& serve_rank(self.step) > 6 ==> self.backup is Some == !(self.action->0 is Recover)
        }
    }

    /// Begins to serve under an account.
    pub fn serve(uid: u32) -> (r: Result<Serving, String>)
        ensures
            match r {
                Ok(serving) => {
                    &&& uid != 0
                    &&& serving.wf()
                    &&& serving.uid == uid
                    &&& serving.action is None
                    &&& serving.backup is None
                    &&& serving.completed is None
                    &&& serving.step == ServeStep::AwaitOperation
                    &&& serving.log@ == Seq::<ServeStep>::empty()
                },
                Err(e) => uid == 0 && e@
                    == "Publish state under its unprivileged destination account"@,
            },
    {
        if uid == 0 {
            return Err("Publish state under its unprivileged destination account".to_owned());
        }
        Ok(
            Serving {
                uid,
                action: None,
                backup: None,
                completed: None,
                step: ServeStep::AwaitOperation,
                error: String::new(),
                log: Ghost(Seq::empty()),
            },
        )
    }

    pub fn failed(&mut self, reason: &str)
        requires
            old(self).wf(),
        ensures
            final(self).wf(),
            refuses(*old(self), *final(self), reason@),
    {
        self.step = ServeStep::Refused;
        self.error = reason.to_owned();
    }

    fn advance(&mut self, next: ServeStep)
        requires
            old(self).step != ServeStep::Refused,
            forall|s: ServeStep|
                serve_rank(s) < serve_rank(old(self).step) ==> #[trigger] old(self).log@.contains(s),
            serve_rank(next) == serve_rank(old(self).step) + 1,
            next != ServeStep::Refused,
            serve_rank(next) > 4 ==> old(self).action is Some,
            serve_rank(next) > 6 ==> old(self).backup is Some == !(old(self).action->0 is Recover),
        ensures
            final(self).wf(),
            serves(*old(self), *final(self), next),
    {
        proof {
            push_holds(self.log@, self.step);
            assert forall|s: ServeStep|
                serve_rank(s) < serve_rank(next) implies #[trigger] self.log@.push(
                self.step,
            ).contains(s) by {
                assert(s == self.step || serve_rank(s) < serve_rank(self.step));
            }
        }
        self.log = Ghost(self.log@.push(self.step));
        self.step = next;
    }

    /// A step that only succeeds or fails succeeded.
    pub fn done(&mut self)
        requires
            old(self).wf(),
            is_plain(old(self).step),
        ensures
            final(self).wf(),
            serves(*old(self), *final(self), serve_after(old(self).step)),
    {
        let next = match self.step {
            ServeStep::SendReady => ServeStep::AwaitProceed,
            _ => ServeStep::Served,
        };
        self.advance(next);
    }

    /// Both reservations were looked at, as they were inherited or again later.
    pub fn reserved(&mut self, locks: &InheritedReservations)
        requires
            old(self).wf(),
            verifies(old(self).step),
        ensures
            final(self).wf(),
            answers(
                *old(self),
                *final(self),
                inherited_verdict(*locks),
                serve_after(old(self).step),
            ),
    {
        match locks.verify() {
            Err(e) => {
                self.failed(e.as_str());
            },
            Ok(_) => {
                let next = match self.step {
                    ServeStep::Inherit => ServeStep::AwaitRequest,
                    ServeStep::VerifyAgain => ServeStep::Change,
                    _ => ServeStep::SendDone,
                };
                self.advance(next);
            },
        }
    }

    /// Both reservations were looked at, and then what this worker was bound to, where it is bound:
    /// the request must be for its configuration.
    pub fn verified(
        &mut self,
        locks: &InheritedReservations,
        identity: Option<&Identity>,
        name: &Result<(), String>,
        account: &Account,
        directory: &Metadata,
        namespace: &FileIdentity,
    )
        requires
            old(self).wf(),
            old(self).step == ServeStep::Verify,
        ensures
            final(self).wf(),
            answers(
                *old(self),
                *final(self),
                match inherited_verdict(*locks) {
                    Some(e) => Some(e),
                    None => target_complaint(
                        match identity {
                            Some(i) => Some(*i),
                            None => None,
                        },
                        old(self).action->0.config_of(),
                        *name,
                        *account,
                        *directory,
                        *namespace,
                    ),
                },
                ServeStep::Prepare,
            ),
    {
        match locks.verify() {
            Err(e) => {
                self.failed(e.as_str());
                return;
            },
            Ok(_) => {},
        }
        let checked = match &self.action {
            Some(action) => container_destination::verify_config(
                identity,
                action.config().as_str(),
                name,
                account,
                directory,
                namespace,
            ),
            None => Ok(()),
        };
        match checked {
            Err(e) => {
                self.failed(e.as_str());
            },
            Ok(_) => {
                self.advance(ServeStep::Prepare);
            },
        }
    }

    /// The change was begun as the action says, with the backup that it keeps, or could not be.
    pub fn begun(&mut self, begun: Result<Option<String>, String>)
        requires
            old(self).wf(),
            old(self).step == ServeStep::Prepare,
            begun matches Ok(backup) ==> backup is Some == (old(self).action->0.beginning_of()
                != Beginning::Nothing),
        ensures
            final(self).wf(),
            match begun {
                Err(e) => refuses(*old(self), *final(self), e@),
                Ok(backup) => serves(
                    (Serving { backup, ..*old(self) }),
                    *final(self),
                    ServeStep::SendReady,
                ),
            },
    {
        match begun {
            Err(e) => {
                self.failed(e.as_str());
            },
            Ok(backup) => {
                self.backup = backup;
                self.advance(ServeStep::SendReady);
            },
        }
    }

    /// What is told once the change was begun.
    pub fn ready_message(&self) -> (r: Message)
        ensures
            r matches Message::Ready { backup } && optional(backup) == optional(self.backup),
    {
        Message::Ready { backup: copy_optional(&self.backup) }
    }

    /// The change was carried out as the action says, with the backup that it left, or failed.
    pub fn changed(&mut self, changed: Result<Option<String>, String>)
        requires
            old(self).wf(),
            old(self).step == ServeStep::Change,
        ensures
            final(self).wf(),
            match changed {
                Err(e) => refuses(*old(self), *final(self), e@),
                Ok(completed) => serves(
                    (Serving { completed, ..*old(self) }),
                    *final(self),
                    ServeStep::VerifyLast,
                ),
            },
    {
        match changed {
            Err(e) => {
                self.failed(e.as_str());
            },
            Ok(completed) => {
                self.completed = completed;
                self.advance(ServeStep::VerifyLast);
            },
        }
    }

    /// What is told once the change was carried out.
    pub fn done_message(&self) -> (r: Message)
        ensures
            r matches Message::Done { backup } && optional(backup) == optional(self.completed),
    {
        Message::Done { backup: copy_optional(&self.completed) }
    }

    /// The message that should carry the operation lock, and whether a descriptor came with it.
    pub fn operation(&mut self, message: &Message, descriptor: bool)
        requires
            old(self).wf(),
            old(self).step == ServeStep::AwaitOperation,
        ensures
            final(self).wf(),
            answers(
                *old(self),
                *final(self),
                if !(*message is OperationLock) {
                    Some("Missing operation reservation"@)
                } else if !descriptor {
                    Some("Missing operation descriptor"@)
                } else {
                    None
                },
                ServeStep::AwaitHardware,
            ),
    {
        match message {
            Message::OperationLock => {
                if descriptor {
                    self.advance(ServeStep::AwaitHardware);
                } else {
                    self.failed("Missing operation descriptor");
                }
            },
            _ => {
                self.failed("Missing operation reservation");
            },
        }
    }

    /// The message that should carry the hardware lock, and whether a descriptor came with it.
    pub fn hardware(&mut self, message: &Message, descriptor: bool)
        requires
            old(self).wf(),
            old(self).step == ServeStep::AwaitHardware,
        ensures
            final(self).wf(),
            answers(
                *old(self),
                *final(self),
                if !(*message is HardwareLock) {
                    Some("Missing hardware reservation"@)
                } else if !descriptor {
                    Some("Missing hardware descriptor"@)
                } else {
                    None
                },
                ServeStep::Inherit,
            ),
    {
        match message {
            Message::HardwareLock => {
                if descriptor {
                    self.advance(ServeStep::Inherit);
                } else {
                    self.failed("Missing hardware descriptor");
                }
            },
            _ => {
                self.failed("Missing hardware reservation");
            },
        }
    }

    /// The message that should announce the request, and whether a descriptor came with it.
    pub fn request(&mut self, message: &Message, descriptor: bool)
        requires
            old(self).wf(),
            old(self).step == ServeStep::AwaitRequest,
        ensures
            final(self).wf(),
            answers(
                *old(self),
                *final(self),
                match *message {
                    Message::Request { bytes, digest } => if bytes > MAX_REQUEST {
                        Some("Publication request exceeds 64 KiB"@)
                    } else if !descriptor {
                        Some("Missing sealed publication request"@)
                    } else {
                        None
                    },
                    _ => Some("Missing publication request"@),
                },
                ServeStep::ReadRequest,
            ),
    {
        match message {
            Message::Request { bytes, digest: _ } => {
                if *bytes > MAX_REQUEST {
                    self.failed("Publication request exceeds 64 KiB");
                } else if !descriptor {
                    self.failed("Missing sealed publication request");
                } else {
                    self.advance(ServeStep::ReadRequest);
                }
            },
            _ => {
                self.failed("Missing publication request");
            },
        }
    }

    /// The request: the account that it names and what it asks for.
    pub fn read(&mut self, uid: u32, action: Action)
        requires
            old(self).wf(),
            old(self).step == ServeStep::ReadRequest,
        ensures
            final(self).wf(),
            if uid == old(self).uid {
                serves(
                    (Serving { action: Some(action), ..*old(self) }),
                    *final(self),
                    ServeStep::Verify,
                )
            } else {
                refuses(*old(self), *final(self), "Publication account changed"@)
            },
    {
        if uid == self.uid {
            self.action = Some(action);
            self.advance(ServeStep::Verify);
        } else {
            self.failed("Publication account changed");
        }
    }

    /// The message that should authorize the change, and whether a descriptor came with it.
    pub fn proceed(&mut self, message: &Message, descriptor: bool)
        requires
            old(self).wf(),
            old(self).step == ServeStep::AwaitProceed,
        ensures
            final(self).wf(),
            answers(
                *old(self),
                *final(self),
                if descriptor {
                    Some("Unexpected descriptor in publication acknowledgement"@)
                } else if *message is Proceed {
                    None
                } else {
                    Some("Publication was not authorized after journaling"@)
                },
                ServeStep::VerifyAgain,
            ),
    {
        if descriptor {
            self.failed("Unexpected descriptor in publication acknowledgement");
            return;
        }
        match message {
            Message::Proceed => {
                self.advance(ServeStep::VerifyAgain);
            },
            _ => {
                self.failed("Publication was not authorized after journaling");
            },
        }
    }
}

/// The helper changes saved state only under both reservations, after the coordinator told it to
/// proceed, and after it verified the reservations once more.
pub proof fn changes_are_authorized(serving: Serving)
    requires
        serving.wf(),
        serving.step == ServeStep::Change,
    ensures
        serving.log@.contains(ServeStep::Inherit),
        serving.log@.contains(ServeStep::SendReady),
        serving.log@.contains(ServeStep::AwaitProceed),
        serving.log@.contains(ServeStep::VerifyAgain),
{
}

/// How a change begins.
#[derive(Clone, Copy, Debug, PartialEq, Eq, Structural)]
pub enum Beginning {
    /// The prepared transfer is published.
    Publication,
    /// A backup is put back.
    Restoration,
    /// A backup that was half put back is put back further.
    Resumption,
    /// Nothing is begun: an interrupted change is finished or undone.
    Nothing,
}

/// How a change ends once it is authorized.
#[derive(Clone, Copy, Debug, PartialEq, Eq, Structural)]
pub enum Ending {
    Publish,
    ResumePublication,
    Recover,
}

impl Action {
    pub open spec fn beginning_of(self) -> Beginning {
        match self {
            Action::Publish { .. } => Beginning::Publication,
            Action::Restore { .. } => Beginning::Restoration,
            Action::ResumeRestore { .. } => Beginning::Resumption,
            Action::Recover { .. } => Beginning::Nothing,
        }
    }

    /// What the helper begins before it asks for the authorization.
    pub fn beginning(&self) -> (r: Beginning)
        ensures
            r == self.beginning_of(),
    {
        match self {
            Action::Publish { .. } => Beginning::Publication,
            Action::Restore { .. } => Beginning::Restoration,
            Action::ResumeRestore { .. } => Beginning::Resumption,
            Action::Recover { .. } => Beginning::Nothing,
        }
    }

    pub open spec fn ending_of(self) -> Ending {
        match self {
            Action::ResumeRestore { .. } => Ending::ResumePublication,
            Action::Recover { .. } => Ending::Recover,
            _ => Ending::Publish,
        }
    }

    /// What the helper does once it is authorized.
    pub fn ending(&self) -> (r: Ending)
        ensures
            r == self.ending_of(),
    {
        match self {
            Action::ResumeRestore { .. } => Ending::ResumePublication,
            Action::Recover { .. } => Ending::Recover,
            _ => Ending::Publish,
        }
    }
}

/// Only an action that begins nothing keeps no backup, and only such an action recovers.
pub proof fn backups_follow_what_is_begun(action: Action)
    ensures
        action is Recover == (action.beginning_of() == Beginning::Nothing),
        action is Recover == (action.ending_of() == Ending::Recover),
{
}

/// What an exchange comes to: its result counts only where both reservations still held afterwards.
pub open spec fn settled_of(
    result: Result<Option<String>, String>,
    operation: Result<(), String>,
    hardware: Result<(), String>,
) -> Result<Option<String>, String> {
    match (operation, hardware) {
        (Err(e), _) => Err(e),
        (_, Err(e)) => Err(e),
        _ => result,
    }
}

pub fn settle(
    result: Result<Option<String>, String>,
    operation: Result<(), String>,
    hardware: Result<(), String>,
) -> (r: Result<Option<String>, String>)
    ensures
        r == settled_of(result, operation, hardware),
{
    match operation {
        Err(e) => Err(e),
        Ok(_) => match hardware {
            Err(e) => Err(e),
            Ok(_) => result,
        },
    }
}

/// A change of saved state may begin exactly in the program of that name, for the configuration that
/// the box is bound to, if it is, and a prepared transfer only for its own account.
pub proof fn changes_begin_for_their_account(
    action: Action,
    uid: u32,
    identity: Option<Identity>,
    program: Option<Seq<char>>,
)
    ensures
        execute_complaint(action, uid, identity, program) is None <==> {
            &&& program == Some("lianli-control"@)
            &&& identity is Some ==> path::same_path(
                identity->0.config_path@,
                match action {
                    Action::Publish { config, destination_uid } => config@,
                    Action::Restore { config, backup } => config@,
                    Action::ResumeRestore { config, backup, undo } => config@,
                    Action::Recover { config } => config@,
                },
            )
            &&& action matches Action::Publish { config, destination_uid } ==> destination_uid == uid
        },
{
}

/// The helper is ready exactly where it says so without a descriptor and names a valid backup, or none
/// where none is needed. It is done exactly where it says so and names the backup that it announced.
pub proof fn acknowledgements_name_the_backup(
    needs_backup: bool,
    announced: Option<String>,
    message: Message,
    descriptor: bool,
    valid: Result<(), String>,
)
    ensures
        ready_of(needs_backup, message, descriptor, valid) is Ok <==> !descriptor && (
        message matches Message::Ready { backup } && (backup is Some <==> needs_backup) && (
        backup is Some ==> valid is Ok)),
        done_of(announced, message, descriptor, valid) is Ok <==> !descriptor && (
        message matches Message::Done { backup } && (backup is Some ==> valid is Ok) && (
        announced is Some ==> optional(announced) == optional(backup))),
        message matches Message::Ready { backup } ==> (ready_of(
            needs_backup,
            message,
            descriptor,
            valid,
        ) matches Ok(named) ==> named == optional(backup)),
        message matches Message::Done { backup } ==> (done_of(
            announced,
            message,
            descriptor,
            valid,
        ) matches Ok(named) ==> named == optional(backup)),
{
}

/// A publication succeeded exactly where the exchange did and the helper exited with success and
/// printed nothing. Its result is that of the exchange.
pub proof fn publications_succeed_on_both_sides(
    protocol: Result<Option<Seq<char>>, Seq<char>>,
    output: Result<Output, String>,
)
    ensures
        combined_of(protocol, helper_of(output)) is Ok <==> protocol is Ok && output is Ok
            && output->Ok_0.code == Some(0i32) && output->Ok_0.stdout@.len() == 0,
        combined_of(protocol, helper_of(output)) is Ok ==> combined_of(protocol, helper_of(output))
            == protocol,
{
}

/// Every change begins and ends in its own way: a transfer is published, a backup put back and then
/// published, one that was half put back is resumed at both ends, and an interrupted change is only
/// recovered.
pub proof fn changes_begin_and_end_as_asked(action: Action)
    ensures
        action.beginning_of() == Beginning::Publication <==> action is Publish,
        action.beginning_of() == Beginning::Restoration <==> action is Restore,
        action.beginning_of() == Beginning::Resumption <==> action is ResumeRestore,
        action.beginning_of() == Beginning::Nothing <==> action is Recover,
        action.ending_of() == Ending::Publish <==> action is Publish || action is Restore,
        action.ending_of() == Ending::ResumePublication <==> action is ResumeRestore,
        action.ending_of() == Ending::Recover <==> action is Recover,
{
}

/// A result counts exactly where both reservations held to the end.
pub proof fn results_count_under_both_reservations(
    result: Result<Option<String>, String>,
    operation: Result<(), String>,
    hardware: Result<(), String>,
)
    ensures
        operation is Ok && hardware is Ok ==> settled_of(result, operation, hardware) == result,
        settled_of(result, operation, hardware) is Ok ==> operation is Ok && hardware is Ok && settled_of(
            result,
            operation,
            hardware,
        ) == result,
{
}

} // verus!
