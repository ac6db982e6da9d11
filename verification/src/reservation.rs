//! Keeping every cooperating daemon stopped while state is published: taking the shared lock on the
//! very file that the host uses, and checking that it stays that file.

use crate::container_destination::{complaint, file_of, identify};
use crate::files::{FileKind, Metadata};
use crate::services::FileIdentity;
use crate::steps;
use crate::text::{prefix, prefixed};
use vstd::prelude::*;

verus! {

/// How long an operation waits for the lock, in milliseconds.
pub const WAIT_MS: u64 = 5000;

/// The pause between two attempts, in milliseconds.
pub const PAUSE_MS: u64 = 25;

/// What an attempt to take the lock gave.
#[derive(Clone, Debug)]
pub enum Attempt {
    Granted,
    Busy(String),
    Failed(String),
}

#[derive(Clone, Copy, Debug, PartialEq, Eq, Structural)]
pub enum ReserveStep {
    CheckPath,
    CheckHost,
    Open,
    Lock,
    Pause,
    Verify,
    Reserved,
    Failed,
}

pub open spec fn rank(step: ReserveStep) -> int {
    match step {
        ReserveStep::CheckPath => 0,
        ReserveStep::CheckHost => 1,
        ReserveStep::Open => 2,
        ReserveStep::Lock => 3,
        ReserveStep::Pause => 3,
        ReserveStep::Verify => 4,
        ReserveStep::Reserved => 5,
        ReserveStep::Failed => 6,
    }
}

/// A reservation under way: of the file with this identity, in a box or on the host itself.
pub struct Reservation {
    pub expected: FileIdentity,
    pub in_box: bool,
    pub require_root: bool,
    pub step: ReserveStep,
    pub error: String,
    /// The steps that succeeded, in order.
    pub log: Ghost<Seq<ReserveStep>>,
}

pub open spec fn stops(before: Reservation, after: Reservation, text: Seq<char>) -> bool {
    after == (Reservation { step: ReserveStep::Failed, error: after.error, ..before })
        && after.error@ == text
}

pub open spec fn moves(before: Reservation, after: Reservation, next: ReserveStep) -> bool {
    after == (Reservation { step: next, log: Ghost(before.log@.push(before.step)), ..before })
}

/// Whether a file that was read is the expected one: the reason why not.
pub open spec fn file_complaint(
    found: Result<FileIdentity, String>,
    expected: FileIdentity,
    words: Seq<char>,
) -> Option<Seq<char>> {
    match found {
        Err(e) => Some(e@),
        Ok(identity) => if identity@ == expected@ {
            None
        } else {
            Some(words)
        },
    }
}

fn check_file(found: &Result<FileIdentity, String>, expected: &FileIdentity, words: &str) -> (r: Result<
    (),
    String,
>)
    ensures
        complaint(r) == file_complaint(*found, *expected, words@),
{
    match found {
        Err(e) => Err(e.clone()),
        Ok(identity) => {
            if identity.same(expected) {
                Ok(())
            } else {
                Err(words.to_owned())
            }
        },
    }
}

pub open spec fn opened_complaint(m: Metadata, expected: FileIdentity, require_root: bool) -> Option<
    Seq<char>,
> {
    if !(m.kind == FileKind::File && (!require_root || m.uid == 0)) {
        Some("Invalid hardware ownership lock"@)
    } else if file_of(m) != expected@ {
        Some("Hardware ownership lock was replaced while opening"@)
    } else {
        None
    }
}

/// What stands against a lock that is held: the descriptor, the path or, in a box, the host's file is
/// another one.
pub open spec fn verify_complaint(
    expected: FileIdentity,
    held: Metadata,
    found: Result<FileIdentity, String>,
    host: Option<Result<FileIdentity, String>>,
) -> Option<Seq<char>> {
    if file_of(held) != expected@ {
        Some("Reserved hardware lock identity changed"@)
    } else {
        match file_complaint(
            found,
            expected,
            "Reserved hardware lock path was replaced. Refusing state publication"@,
        ) {
            Some(e) => Some(e),
            None => match host {
                None => None,
                Some(host) => file_complaint(
                    host,
                    expected,
                    "Reserved lock no longer matches the host lock"@,
                ),
            },
        }
    }
}

/// Whether a held lock is still the one that was reserved. `host` is what the host says of its file,
/// where this process runs in a box.
pub fn verify(
    expected: &FileIdentity,
    held: &Metadata,
    found: &Result<FileIdentity, String>,
    host: &Option<Result<FileIdentity, String>>,
) -> (r: Result<(), String>)
    ensures
        complaint(r) == verify_complaint(*expected, *held, *found, *host),
{
    if !identify(held).same(expected) {
        return Err("Reserved hardware lock identity changed".to_owned());
    }
    check_file(
        found,
        expected,
        "Reserved hardware lock path was replaced. Refusing state publication",
    )?;
    match host {
        None => Ok(()),
        Some(host) => check_file(
            host,
            expected,
            "Reserved lock no longer matches the host lock",
        ),
    }
}

/// What an attempt to take the lock leads to.
pub open spec fn is_tried(
    before: Reservation,
    after: Reservation,
    attempt: Attempt,
    elapsed_ms: u64,
) -> bool {
    match attempt {
        Attempt::Granted => moves(before, after, ReserveStep::Verify),
        Attempt::Busy(e) => if elapsed_ms >= WAIT_MS {
            stops(before, after, busy_words(e@))
        } else {
            after == (Reservation { step: ReserveStep::Pause, ..before })
        },
        Attempt::Failed(e) => stops(before, after, busy_words(e@)),
    }
}

/// A lock that is held, with what is found of it when it is verified.
pub struct Held {
    /// The file that was reserved.
    pub expected: FileIdentity,
    /// The file behind the descriptor.
    pub descriptor: Metadata,
    /// The file at the lock's path.
    pub path: Result<FileIdentity, String>,
    /// The host's file, where this process runs in a box.
    pub host: Option<Result<FileIdentity, String>>,
}

pub open spec fn held_complaint(held: Held) -> Option<Seq<char>> {
    verify_complaint(held.expected, held.descriptor, held.path, held.host)
}

impl Held {
    /// Whether the lock is still the one that was reserved.
    pub fn check(&self) -> (r: Result<(), String>)
        ensures
            complaint(r) == held_complaint(*self),
    {
        verify(&self.expected, &self.descriptor, &self.path, &self.host)
    }
}

impl Reservation {
    /// Every step before the present one succeeded, but for those that only some reservations take.
    pub open spec fn wf(self) -> bool {
        self.step != ReserveStep::Failed ==> forall|s: ReserveStep|
            rank(s) < rank(self.step) && (s == ReserveStep::CheckHost ==> self.in_box) && s
                != ReserveStep::Pause ==> #[trigger] self.log@.contains(s)
    }

    pub fn begin(expected: &FileIdentity, in_box: bool, require_root: bool) -> (r: Reservation)
        ensures
            r.wf(),
            r.step == ReserveStep::CheckPath,
            r.expected == *expected,
            r.in_box == in_box,
            r.require_root == require_root,
            r.log@ == Seq::<ReserveStep>::empty(),
    {
        Reservation {
            expected: expected.copy(),
            in_box,
            require_root,
            step: ReserveStep::CheckPath,
            error: String::new(),
            log: Ghost(Seq::empty()),
        }
    }

    fn advance(&mut self, next: ReserveStep)
        requires
            old(self).wf(),
            old(self).step != ReserveStep::Failed,
            next != ReserveStep::Failed,
            forall|s: ReserveStep|
                #[trigger] rank(s) < rank(next) && (s == ReserveStep::CheckHost ==> old(self).in_box) && s
                    != ReserveStep::Pause ==> rank(s) < rank(old(self).step) || s == old(
                    self,
                ).step,
        ensures
            final(self).wf(),
            moves(*old(self), *final(self), next),
    {
        proof {
            steps::push_holds(self.log@, self.step);
        }
        self.log = Ghost(self.log@.push(self.step));
        self.step = next;
    }

    /// A step could not be done.
    pub fn failed(&mut self, reason: &str)
        ensures
            final(self).wf(),
            stops(*old(self), *final(self), reason@),
    {
        self.step = ReserveStep::Failed;
        self.error = reason.to_owned();
    }

    /// The file at the path of the lock.
    pub fn path(&mut self, found: &Result<FileIdentity, String>)
        requires
            old(self).wf(),
            old(self).step == ReserveStep::CheckPath,
        ensures
            final(self).wf(),
            match file_complaint(
                *found,
                old(self).expected,
                "Hardware ownership lock changed before reservation"@,
            ) {
                Some(e) => stops(*old(self), *final(self), e),
                None => moves(
                    *old(self),
                    *final(self),
                    if old(self).in_box {
                        ReserveStep::CheckHost
                    } else {
                        ReserveStep::Open
                    },
                ),
            },
    {
        match check_file(
            found,
            &self.expected,
            "Hardware ownership lock changed before reservation",
        ) {
            Err(e) => {
                self.failed(e.as_str());
            },
            Ok(_) => {
                if self.in_box {
                    self.advance(ReserveStep::CheckHost);
                } else {
                    self.advance(ReserveStep::Open);
                }
            },
        }
    }

    /// The host's file, where this process runs in a box.
    pub fn host(&mut self, found: &Result<FileIdentity, String>)
        requires
            old(self).wf(),
            old(self).step == ReserveStep::CheckHost,
        ensures
            final(self).wf(),
            match file_complaint(
                *found,
                old(self).expected,
                "Host and container ownership locks differ"@,
            ) {
                Some(e) => stops(*old(self), *final(self), e),
                None => moves(*old(self), *final(self), ReserveStep::Open),
            },
    {
        match check_file(found, &self.expected, "Host and container ownership locks differ") {
            Err(e) => {
                self.failed(e.as_str());
            },
            Ok(_) => {
                self.advance(ReserveStep::Open);
            },
        }
    }

    /// The file that was opened.
    pub fn opened(&mut self, m: &Metadata)
        requires
            old(self).wf(),
            old(self).step == ReserveStep::Open,
        ensures
            final(self).wf(),
            match opened_complaint(*m, old(self).expected, old(self).require_root) {
                Some(e) => stops(*old(self), *final(self), e),
                None => moves(*old(self), *final(self), ReserveStep::Lock),
            },
    {
        if !(m.kind == FileKind::File && (!self.require_root || m.uid == 0)) {
            self.failed("Invalid hardware ownership lock");
            return;
        }
        if !identify(m).same(&self.expected) {
            self.failed("Hardware ownership lock was replaced while opening");
            return;
        }
        self.advance(ReserveStep::Lock);
    }

    /// An attempt to take the lock. A busy one is tried again as long as there is time.
    pub fn tried(&mut self, attempt: &Attempt, elapsed_ms: u64)
        requires
            old(self).wf(),
            old(self).step == ReserveStep::Lock,
        ensures
            final(self).wf(),
            is_tried(*old(self), *final(self), *attempt, elapsed_ms),
    {
        let late = elapsed_ms >= WAIT_MS;
        match attempt {
            Attempt::Granted => {
                self.advance(ReserveStep::Verify);
            },
            Attempt::Busy(e) => {
                if late {
                    self.failed(busy(e.as_str()).as_str());
                } else {
                    self.step = ReserveStep::Pause;
                }
            },
            Attempt::Failed(e) => {
                self.failed(busy(e.as_str()).as_str());
            },
        }
    }

    /// How long to wait before the next attempt, in milliseconds.
    pub fn pause_ms(&self) -> (r: u64)
        ensures
            r == PAUSE_MS,
    {
        PAUSE_MS
    }

    /// The pause is over.
    pub fn paused(&mut self)
        requires
            old(self).wf(),
            old(self).step == ReserveStep::Pause,
        ensures
            final(self).wf(),
            *final(self) == (Reservation { step: ReserveStep::Lock, ..*old(self) }),
    {
        self.step = ReserveStep::Lock;
    }

    /// The lock that is held, the file at its path and, in a box, the host's file.
    pub fn verified(
        &mut self,
        held: &Metadata,
        found: &Result<FileIdentity, String>,
        host: &Option<Result<FileIdentity, String>>,
    )
        requires
            old(self).wf(),
            old(self).step == ReserveStep::Verify,
            old(self).in_box == (*host is Some),
        ensures
            final(self).wf(),
            match verify_complaint(old(self).expected, *held, *found, *host) {
                Some(e) => stops(*old(self), *final(self), e),
                None => moves(*old(self), *final(self), ReserveStep::Reserved),
            },
    {
        match verify(&self.expected, held, found, host) {
            Err(e) => {
                self.failed(e.as_str());
            },
            Ok(_) => {
                self.advance(ReserveStep::Reserved);
            },
        }
    }
}

/// The words for a lock that could not be had.
pub open spec fn busy_words(e: Seq<char>) -> Seq<char> {
    "The shared lock is busy or unavailable. Wait for its current owner to finish: "@ + e
}

fn busy(e: &str) -> (r: String)
    ensures
        r@ == busy_words(e@),
{
    let mut text =
        "The shared lock is busy or unavailable. Wait for its current owner to finish: ".to_owned();
    text.append(e);
    text
}

/// Publication works only with a hardware lock that was reserved on the host itself.
pub fn check_hardware_publication(hardware: bool, in_box: bool) -> (r: Result<(), String>)
    ensures
        complaint(r) == if hardware && !in_box {
            None
        } else {
            Some("Publication requires the native hardware reservation"@)
        },
{
    if hardware && !in_box {
        Ok(())
    } else {
        Err("Publication requires the native hardware reservation".to_owned())
    }
}

/// Publication works only with an operation lock that was reserved on the host itself.
pub fn check_operation_publication(in_box: bool) -> (r: Result<(), String>)
    ensures
        complaint(r) == if in_box {
            Some("Publication requires the native operation reservation"@)
        } else {
            None
        },
{
    if in_box {
        Err("Publication requires the native operation reservation".to_owned())
    } else {
        Ok(())
    }
}

pub open spec fn operation_complaint(
    before: Result<FileIdentity, String>,
    host: Option<Result<FileIdentity, String>>,
    after: Result<FileIdentity, String>,
) -> Option<Seq<char>> {
    match before {
        Err(e) => Some(e@),
        Ok(identity) => {
            let from_host = match host {
                None => None,
                Some(host) => file_complaint(
                    host,
                    identity,
                    "Host and container service operation locks differ"@,
                ),
            };
            match from_host {
                Some(e) => Some(e),
                None => file_complaint(
                    after,
                    identity,
                    "Service operation lock changed during inspection"@,
                ),
            }
        },
    }
}

/// The lock that serializes operations: the same file before and after and, in a box, on the host.
pub fn operation_identity(
    before: Result<FileIdentity, String>,
    host: &Option<Result<FileIdentity, String>>,
    after: &Result<FileIdentity, String>,
) -> (r: Result<FileIdentity, String>)
    ensures
        match r {
            Ok(identity) => operation_complaint(before, *host, *after) is None && before == Ok::<
                FileIdentity,
                String,
            >(identity),
            Err(e) => operation_complaint(before, *host, *after) == Some(e@),
        },
{
    match before {
        Err(e) => Err(e),
        Ok(identity) => {
            match host {
                None => {},
                Some(host) => {
                    match check_file(
                        host,
                        &identity,
                        "Host and container service operation locks differ",
                    ) {
                        Ok(_) => {},
                        Err(e) => {
                            return Err(e);
                        },
                    }
                },
            }
            match check_file(after, &identity, "Service operation lock changed during inspection") {
                Ok(_) => Ok(identity),
                Err(e) => Err(e),
            }
        },
    }
}

pub open spec fn inherited_complaint(
    held: Metadata,
    found: Result<FileIdentity, String>,
    host: Option<Result<FileIdentity, String>>,
    require_root: bool,
) -> Option<Seq<char>> {
    match found {
        Err(e) => Some(e@),
        Ok(expected) => {
            let from_host = match host {
                None => None,
                Some(host) => file_complaint(
                    host,
                    expected,
                    "Inherited publication reservation no longer matches the host namespace"@,
                ),
            };
            match from_host {
                Some(e) => Some(e),
                None => if held.kind == FileKind::File && (!require_root || held.uid == 0)
                    && file_of(held) == expected@ {
                    None
                } else {
                    Some("Inherited publication reservation no longer matches its host lock"@)
                },
            }
        },
    }
}

/// Whether an inherited descriptor is of the lock at its path.
pub fn check_inherited(
    held: &Metadata,
    found: &Result<FileIdentity, String>,
    host: &Option<Result<FileIdentity, String>>,
    require_root: bool,
) -> (r: Result<(), String>)
    ensures
        complaint(r) == inherited_complaint(*held, *found, *host, require_root),
{
    match found {
        Err(e) => Err(e.clone()),
        Ok(expected) => {
            match host {
                None => {},
                Some(host) => {
                    check_file(
                        host,
                        expected,
                        "Inherited publication reservation no longer matches the host namespace",
                    )?;
                },
            }
            if held.kind == FileKind::File && (!require_root || held.uid == 0) && identify(
                held,
            ).same(expected) {
                Ok(())
            } else {
                Err(
                    "Inherited publication reservation no longer matches its host lock".to_owned(),
                )
            }
        },
    }
}

/// Whether an inherited lock is still held alone: what locking it once more gave.
pub fn check_retained(attempt: &Attempt) -> (r: Result<(), String>)
    ensures
        complaint(r) == match *attempt {
            Attempt::Granted => None,
            Attempt::Busy(e) => Some("Publication cannot retain exclusive ownership: "@ + e@),
            Attempt::Failed(e) => Some("Publication cannot retain exclusive ownership: "@ + e@),
        },
{
    let mut text = "Publication cannot retain exclusive ownership: ".to_owned();
    match attempt {
        Attempt::Granted => Ok(()),
        Attempt::Busy(e) => {
            text.append(e.as_str());
            Err(text)
        },
        Attempt::Failed(e) => {
            text.append(e.as_str());
            Err(text)
        },
    }
}

/// An inherited lock, with what is found of it when it is verified.
pub struct InheritedLock {
    /// The file behind the descriptor.
    pub descriptor: Metadata,
    /// The file at the lock's path.
    pub path: Result<FileIdentity, String>,
    /// The host's file, where this process runs in a box.
    pub host: Option<Result<FileIdentity, String>>,
    /// What locking it once more gave.
    pub attempt: Attempt,
}

pub open spec fn lock_complaint(lock: InheritedLock, require_root: bool) -> Option<Seq<char>> {
    match inherited_complaint(lock.descriptor, lock.path, lock.host, require_root) {
        Some(e) => Some(e),
        None => match lock.attempt {
            Attempt::Granted => None,
            Attempt::Busy(e) => Some("Publication cannot retain exclusive ownership: "@ + e@),
            Attempt::Failed(e) => Some("Publication cannot retain exclusive ownership: "@ + e@),
        },
    }
}

/// The two locks that a publication inherits.
pub struct InheritedReservations {
    pub operation: InheritedLock,
    pub hardware: InheritedLock,
    /// Whether the locks must be root's, as they must on the host.
    pub require_root: bool,
}

/// What speaks against inherited locks: the operation's is looked at first.
pub open spec fn inherited_verdict(locks: InheritedReservations) -> Option<Seq<char>> {
    match lock_complaint(locks.operation, locks.require_root) {
        Some(e) => Some(e),
        None => match lock_complaint(locks.hardware, locks.require_root) {
            Some(e) => Some(e),
            None => {
                let operation = locks.operation.descriptor;
                let hardware = locks.hardware.descriptor;
                if operation.ino != hardware.ino || operation.dev != hardware.dev {
                    None
                } else {
                    Some("Publication requires two distinct reservations"@)
                }
            },
        },
    }
}

impl InheritedReservations {
    /// Whether both locks are the host's, still held alone, and two files.
    pub fn verify(&self) -> (r: Result<(), String>)
        ensures
            complaint(r) == inherited_verdict(*self),
    {
        let operation = &self.operation;
        check_inherited(
            &operation.descriptor,
            &operation.path,
            &operation.host,
            self.require_root,
        )?;
        check_retained(&operation.attempt)?;
        let hardware = &self.hardware;
        check_inherited(
            &hardware.descriptor,
            &hardware.path,
            &hardware.host,
            self.require_root,
        )?;
        check_retained(&hardware.attempt)?;
        check_distinct(&operation.descriptor, &hardware.descriptor)
    }
}

/// The two inherited locks are different files.
pub fn check_distinct(operation: &Metadata, hardware: &Metadata) -> (r: Result<(), String>)
    ensures
        complaint(r) == if operation.ino != hardware.ino || operation.dev != hardware.dev {
            None
        } else {
            Some("Publication requires two distinct reservations"@)
        },
{
    if operation.ino != hardware.ino || operation.dev != hardware.dev {
        Ok(())
    } else {
        Err("Publication requires two distinct reservations".to_owned())
    }
}

/// A lock counts as reserved only after its path, in a box also the host's file, and the opened file
/// were found to be the expected one, the lock was granted, and all that was verified once more.
pub proof fn reservations_are_verified(reservation: Reservation)
    requires
        reservation.wf(),
        reservation.step == ReserveStep::Reserved,
    ensures
        reservation.log@.contains(ReserveStep::CheckPath),
        reservation.in_box ==> reservation.log@.contains(ReserveStep::CheckHost),
        reservation.log@.contains(ReserveStep::Open),
        reservation.log@.contains(ReserveStep::Lock),
        reservation.log@.contains(ReserveStep::Verify),
{
}

/// The hardware's lock has to have a path in this installation.
pub fn hardware_path(p: Option<String>) -> (r: Result<String, String>)
    ensures
        match p {
            Some(p) => r == Ok::<String, String>(p),
            None => r matches Err(e) && e@ == "Shared host lock is unavailable"@,
        },
{
    match p {
        Some(p) => Ok(p),
        None => Err("Shared host lock is unavailable".to_owned()),
    }
}

/// The lock of service operations has to have a path in this installation.
pub fn operation_path(p: Option<String>) -> (r: Result<String, String>)
    ensures
        match p {
            Some(p) => r == Ok::<String, String>(p),
            None => r matches Err(e) && e@ == "Host service operation lock is unavailable"@,
        },
{
    match p {
        Some(p) => Ok(p),
        None => Err("Host service operation lock is unavailable".to_owned()),
    }
}

/// The lock of service operations has to be identified before it is reserved.
pub fn operation_found(found: &Result<(), String>) -> (r: Result<(), String>)
    ensures
        complaint(r) == prefixed(
            "Install the current tmpfiles rule and run sudo systemd-tmpfiles --create lianli.conf on the host before using service controls: "@,
            *found,
        ),
{
    prefix(
        "Install the current tmpfiles rule and run sudo systemd-tmpfiles --create lianli.conf on the host before using service controls: ",
        found,
    )
}

/// What a reservation comes to for a service operation.
pub open spec fn reserved_complaint(reservation: Reservation) -> Option<Seq<char>> {
    if reservation.step == ReserveStep::Reserved {
        None
    } else {
        Some(
            "Cannot serialize service actions. Another operation or settings write may be running: "@
                + reservation.error@,
        )
    }
}

/// An attempt that found the lock with another holder reserves nothing: it waits, or fails once the
/// time is over. So of two reservations of one lock, the one whose attempts the system refuses while
/// the other holds it is never reserved by them.
pub proof fn refused_attempts_reserve_nothing(
    before: Reservation,
    after: Reservation,
    attempt: Attempt,
    elapsed_ms: u64,
)
    requires
        before.wf(),
        before.step == ReserveStep::Lock,
        !(attempt is Granted),
        is_tried(before, after, attempt, elapsed_ms),
    ensures
        after.step == ReserveStep::Pause || after.step == ReserveStep::Failed,
        after.step == ReserveStep::Pause ==> attempt is Busy && elapsed_ms < WAIT_MS,
        after.log@ == before.log@,
{
}

/// A lock counts as reserved only after an attempt at it was granted and it was verified.
pub proof fn reserved_locks_were_granted(reservation: Reservation)
    requires
        reservation.wf(),
        reservation.step == ReserveStep::Reserved,
    ensures
        reservation.log@.contains(ReserveStep::Lock),
        reservation.log@.contains(ReserveStep::Verify),
{
}

/// Whether a service operation may begin, by how its reservation ended.
pub fn operation_reserved(reservation: &Reservation) -> (r: Result<(), String>)
    requires
        reservation.step == ReserveStep::Reserved || reservation.step == ReserveStep::Failed,
    ensures
        complaint(r) == reserved_complaint(*reservation),
{
    match reservation.step {
        ReserveStep::Reserved => Ok(()),
        _ => {
            let mut whole =
                "Cannot serialize service actions. Another operation or settings write may be running: ".to_owned();
            whole.append(reservation.error.as_str());
            Err(whole)
        },
    }
}

/// A lock that is held is still the reserved one exactly where the descriptor, the path and, in a
/// box, the host's path all lead to that file.
pub proof fn held_locks_are_one_file(
    expected: FileIdentity,
    held: Metadata,
    found: Result<FileIdentity, String>,
    host: Option<Result<FileIdentity, String>>,
)
    ensures
        verify_complaint(expected, held, found, host) is None <==> {
            &&& file_of(held) == (expected.device@, expected.inode@)
            &&& found is Ok
            &&& found->Ok_0.device@ == expected.device@
            &&& found->Ok_0.inode@ == expected.inode@
            &&& host is Some ==> host->0 is Ok && host->0->Ok_0.device@ == expected.device@
                && host->0->Ok_0.inode@ == expected.inode@
        },
{
}

/// A lock that was opened may be locked exactly where it is a regular file, root's where it must be,
/// and the expected one.
pub proof fn opened_locks_are_the_expected_file(
    m: Metadata,
    expected: FileIdentity,
    require_root: bool,
)
    ensures
        opened_complaint(m, expected, require_root) is None <==> m.kind == FileKind::File && (
        require_root ==> m.uid == 0) && file_of(m) == (expected.device@, expected.inode@),
{
}

/// The lock of service operations is known exactly where it stayed the same file while the host was
/// asked, and the host has the same one.
pub proof fn operation_locks_stay_while_the_host_is_asked(
    before: Result<FileIdentity, String>,
    host: Option<Result<FileIdentity, String>>,
    after: Result<FileIdentity, String>,
)
    ensures
        operation_complaint(before, host, after) is None <==> {
            &&& before is Ok
            &&& after is Ok
            &&& after->Ok_0@ == before->Ok_0@
            &&& host is Some ==> host->0 is Ok && host->0->Ok_0@ == before->Ok_0@
        },
{
}

/// Two locks are inherited exactly where each of them is a regular file, root's where it must be,
/// still the one at its path and on the host, and could be locked once more, and they are not the
/// same file.
pub proof fn inherited_locks_are_two_held_files(locks: InheritedReservations)
    ensures
        inherited_verdict(locks) is None <==> {
            &&& locks.operation.descriptor.kind == FileKind::File
            &&& locks.hardware.descriptor.kind == FileKind::File
            &&& locks.require_root ==> locks.operation.descriptor.uid == 0
                && locks.hardware.descriptor.uid == 0
            &&& locks.operation.path is Ok && locks.operation.path->Ok_0@ == file_of(
                locks.operation.descriptor,
            )
            &&& locks.hardware.path is Ok && locks.hardware.path->Ok_0@ == file_of(
                locks.hardware.descriptor,
            )
            &&& locks.operation.host is Some ==> locks.operation.host->0 is Ok
                && locks.operation.host->0->Ok_0@ == locks.operation.path->Ok_0@
            &&& locks.hardware.host is Some ==> locks.hardware.host->0 is Ok
                && locks.hardware.host->0->Ok_0@ == locks.hardware.path->Ok_0@
            &&& locks.operation.attempt is Granted
            &&& locks.hardware.attempt is Granted
            &&& locks.operation.descriptor.dev != locks.hardware.descriptor.dev
                || locks.operation.descriptor.ino != locks.hardware.descriptor.ino
        },
{
}

/// A busy lock is asked for again until five seconds have passed, and then no more.
pub proof fn busy_locks_are_waited_for(
    before: Reservation,
    after: Reservation,
    attempt: Attempt,
    elapsed_ms: u64,
)
    requires
        before.step == ReserveStep::Lock,
        is_tried(before, after, attempt, elapsed_ms),
    ensures
        after.step == ReserveStep::Verify <==> attempt is Granted,
        after.step == ReserveStep::Pause <==> attempt is Busy && elapsed_ms < 5000,
        after.step == ReserveStep::Failed <==> attempt is Failed || (attempt is Busy && elapsed_ms
            >= 5000),
{
}

} // verus!
