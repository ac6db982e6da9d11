//! Asking the daemon behind a service for itself.

use crate::account::{runtime_directory, runtime_of};
use crate::authorized_service::{mode, mode_of};
use crate::authorized_service::known_process;
use crate::container_destination::complaint;
use crate::distrobox_unit::written;
use crate::path;
use crate::process_owner;
use crate::process_owner::{verify_container_peer, PeerFiles};
use crate::services::{
    DaemonInfo, DaemonMode, InstallationContext, OwnerProcess, OwnershipSnapshot, ServiceProbe,
    ServiceScope,
};
use crate::steps;
use crate::text;
use crate::text::{outcome, prefix, prefixed, texts};
use vstd::prelude::*;
use vstd::utf8::encode_utf8;

verus! {

/// How long a daemon may take to answer, in milliseconds.
pub const PROBE_MS: u64 = 5_000;

/// The largest description of a daemon, in bytes.
pub const INFO_LIMIT: usize = 65_536;

/// The largest configuration, in bytes.
pub const CONFIG_LIMIT: usize = 16_777_216;

pub open spec fn socket_of(
    context: InstallationContext,
    scope: ServiceScope,
    runtime: Option<Seq<char>>,
    uid: u32,
) -> Result<Seq<char>, Seq<char>> {
    match scope {
        ServiceScope::System => Ok("/run/lianli/lianli-daemon.sock"@),
        ServiceScope::User => match (context is Distrobox, runtime) {
            (true, None) => Err("Missing container runtime directory"@),
            (true, Some(p)) => if path::is_absolute(p) {
                Ok(path::join_of(p, "lianli-daemon.sock"@))
            } else {
                Err("User runtime directory must be absolute"@)
            },
            (false, _) => Ok(path::join_of(runtime_of(uid), "lianli-daemon.sock"@)),
        },
    }
}

proof fn runtime_is_absolute(uid: u32)
    ensures
        path::is_absolute(runtime_of(uid)),
{
    reveal_strlit("/run/user/");
}

/// The socket of a daemon. Inside a box the user's runtime directory is what the environment says.
pub fn socket_path(
    context: &InstallationContext,
    scope: ServiceScope,
    runtime: Option<&str>,
    uid: u32,
) -> (r: Result<String, String>)
    ensures
        match r {
            Ok(p) => socket_of(
                *context,
                scope,
                match runtime {
                    Some(p) => Some(p@),
                    None => None,
                },
                uid,
            ) == Ok::<Seq<char>, Seq<char>>(p@),
            Err(e) => socket_of(
                *context,
                scope,
                match runtime {
                    Some(p) => Some(p@),
                    None => None,
                },
                uid,
            ) == Err::<Seq<char>, Seq<char>>(e@),
        },
{
    match scope {
        ServiceScope::System => Ok("/run/lianli/lianli-daemon.sock".to_owned()),
        ServiceScope::User => {
            let boxed = match context {
                InstallationContext::Distrobox { name: _ } => true,
                _ => false,
            };
            let directory = if boxed {
                match runtime {
                    None => {
                        return Err("Missing container runtime directory".to_owned());
                    },
                    Some(p) => p.to_owned(),
                }
            } else {
                runtime_directory(uid)
            };
            proof {
                runtime_is_absolute(uid);
            }
            if !path::absolute(directory.as_str()) {
                return Err("User runtime directory must be absolute".to_owned());
            }
            Ok(path::join(directory.as_str(), "lianli-daemon.sock"))
        },
    }
}

/// The process that owns the hardware.
pub fn owner_process(owner: &OwnershipSnapshot) -> (r: Result<&OwnerProcess, String>)
    ensures
        match r {
            Ok(p) => crate::authorized_service::known_process(*owner) == Some(*p),
            Err(e) => crate::authorized_service::known_process(*owner) is None && e@
                == "Hardware owner process is unverified"@,
        },
{
    match &owner.process {
        Some(ServiceProbe::Known { value }) => Ok(value),
        _ => Err("Hardware owner process is unverified".to_owned()),
    }
}

pub open spec fn peer_complaint(
    native: bool,
    process: OwnerProcess,
    peer_uid: u32,
    peer_pid: i32,
) -> Option<Seq<char>> {
    if peer_uid != process.effective_uid {
        Some("Service IPC belongs to another account"@)
    } else if native && !(peer_pid > 0 && peer_pid as int == process.pid as int) {
        Some("Service IPC belongs to another process"@)
    } else {
        None
    }
}

/// Whether the process at the other end of the socket is the owner of the hardware. Inside a box the
/// process number is compared elsewhere.
pub fn check_peer(native: bool, process: &OwnerProcess, peer_uid: u32, peer_pid: i32) -> (r: Result<
    (),
    String,
>)
    ensures
        complaint(r) == peer_complaint(native, *process, peer_uid, peer_pid),
{
    if peer_uid != process.effective_uid {
        return Err("Service IPC belongs to another account".to_owned());
    }
    if native && !(peer_pid > 0 && peer_pid as u32 == process.pid) {
        return Err("Service IPC belongs to another process".to_owned());
    }
    Ok(())
}

/// What speaks against a daemon's description of itself. `guard` says whether it accepts guarded
/// writes of this version, `graceful` names the capability of a graceful shutdown.
pub open spec fn info_complaint(
    info: DaemonInfo,
    owner: OwnershipSnapshot,
    scope: ServiceScope,
    guard: Result<(), String>,
    graceful: Seq<char>,
) -> Option<Seq<char>> {
    if guard is Err {
        complaint(guard)
    } else if !texts(info.capabilities@).contains(graceful) {
        Some(
            "This daemon still lacks verified graceful shutdown support. Update the daemon binary and restart it cleanly before using service controls"@,
        )
    } else if !(info.ownership_lock is Some && info.ownership_lock->0@ == owner.identity@) {
        Some("Service IPC reports another hardware lock"@)
    } else if info.mode != mode_of(scope) {
        Some("Service started with a different configuration mode"@)
    } else {
        None
    }
}

pub fn validate_info(
    info: &DaemonInfo,
    owner: &OwnershipSnapshot,
    scope: ServiceScope,
    guard: &Result<(), String>,
    graceful: &str,
) -> (r: Result<(), String>)
    ensures
        complaint(r) == info_complaint(*info, *owner, scope, *guard, graceful@),
{
    match guard {
        Ok(_) => {},
        Err(e) => {
            return Err(e.clone());
        },
    }
    if !text::is_among(graceful, &info.capabilities) {
        return Err(
            "This daemon still lacks verified graceful shutdown support. Update the daemon binary and restart it cleanly before using service controls".to_owned(),
        );
    }
    let locked = match &info.ownership_lock {
        Some(lock) => lock.same(&owner.identity),
        None => false,
    };
    if !locked {
        return Err("Service IPC reports another hardware lock".to_owned());
    }
    if info.mode != mode(scope) {
        return Err("Service started with a different configuration mode".to_owned());
    }
    Ok(())
}

/// A request without parameters, as a line.
pub open spec fn request_of(method: Seq<char>) -> Seq<char> {
    "{\"method\":\""@ + method + "\"}\n"@
}

fn bytes_of(s: &str) -> (r: Vec<u8>)
    ensures
        r@ == encode_utf8(s@),
{
    let bytes = s.as_bytes();
    let mut r: Vec<u8> = Vec::new();
    let mut i: usize = 0;
    while i < bytes.len()
        invariant
            i <= bytes@.len(),
            r@ == bytes@.take(i as int),
        decreases bytes@.len() - i,
    {
        r.push(bytes[i]);
        i += 1;
        assert(bytes@.take(i as int) =~= bytes@.take(i - 1).push(bytes@[i - 1]));
    }
    assert(bytes@.take(bytes@.len() as int) =~= bytes@);
    r
}

pub fn request(method: &str) -> (r: String)
    ensures
        r@ == request_of(method@),
{
    let mut r = "{\"method\":\"".to_owned();
    r.append(method);
    r.append("\"}\n");
    r
}

#[derive(Clone, Copy, Debug, PartialEq, Eq, Structural)]
pub enum ExchangeStep {
    /// Write the rest of the request.
    Write,
    /// Wait until the socket takes more.
    WaitToWrite,
    Read,
    /// Wait until the socket has more.
    WaitToRead,
    /// The reply is complete.
    Replied,
    Failed,
}

/// What writing gave.
pub enum Written {
    /// So many bytes were written.
    Count(usize),
    WouldBlock,
    Interrupted,
    Broken(String),
}

/// What reading gave.
pub enum Received {
    /// These bytes were read, or none at the end of the stream.
    Bytes(Vec<u8>),
    WouldBlock,
    Interrupted,
    Broken(String),
}

/// One request and its reply over a socket.
pub struct Exchange {
    pub request: Vec<u8>,
    /// How much of the request was written.
    pub written: usize,
    pub response: Vec<u8>,
    pub limit: usize,
    pub step: ExchangeStep,
    pub error: String,
}

pub open spec fn exchange_stops(before: Exchange, after: Exchange, text: Seq<char>) -> bool {
    after == (Exchange { step: ExchangeStep::Failed, error: after.error, ..before })
        && after.error@ == text
}

/// Whether bytes hold a line break.
pub open spec fn has_break(bytes: Seq<u8>) -> bool {
    bytes.contains(10u8)
}

fn breaks(bytes: &Vec<u8>) -> (r: bool)
    ensures
        r == has_break(bytes@),
{
    let mut i: usize = 0;
    while i < bytes.len()
        invariant
            i <= bytes@.len(),
            forall|j: int| 0 <= j < i ==> bytes@[j] != 10u8,
        decreases bytes@.len() - i,
    {
        if bytes[i] == 10 {
            assert(bytes@[i as int] == 10u8);
            return true;
        }
        i += 1;
    }
    false
}

impl Exchange {
    /// The response stays within its limit. A reply is read only when the request was written to its
    /// end, and is complete only with a line break in it.
    pub open spec fn wf(self) -> bool {
        &&& self.response@.len() <= self.limit
        &&& self.written <= self.request@.len()
        &&& (self.step == ExchangeStep::Write || self.step == ExchangeStep::WaitToWrite)
            ==> self.written < self.request@.len()
        &&& (self.step == ExchangeStep::Read || self.step == ExchangeStep::WaitToRead || self.step
            == ExchangeStep::Replied) ==> self.written == self.request@.len()
        &&& self.step == ExchangeStep::Replied ==> has_break(self.response@)
    }

    pub fn begin(request: Vec<u8>, limit: usize) -> (r: Exchange)
        ensures
            r.wf(),
            r.request == request,
            r.written == 0,
            r.response@ == Seq::<u8>::empty(),
            r.limit == limit,
            r.step == if request@.len() > 0 {
                ExchangeStep::Write
            } else {
                ExchangeStep::Read
            },
    {
        let step = if request.len() > 0 {
            ExchangeStep::Write
        } else {
            ExchangeStep::Read
        };
        Exchange { request, written: 0, response: Vec::new(), limit, step, error: String::new() }
    }

    fn fail(&mut self, reason: &str)
        requires
            old(self).wf(),
        ensures
            final(self).wf(),
            exchange_stops(*old(self), *final(self), reason@),
    {
        self.step = ExchangeStep::Failed;
        self.error = reason.to_owned();
    }

    /// Ends the exchange if the time is over.
    pub fn clock(&mut self, elapsed_ms: u64)
        requires
            old(self).wf(),
        ensures
            final(self).wf(),
            if elapsed_ms >= PROBE_MS {
                exchange_stops(*old(self), *final(self), "Service IPC verification timed out"@)
            } else {
                *final(self) == *old(self)
            },
    {
        let late = elapsed_ms >= PROBE_MS;
        if late {
            self.fail("Service IPC verification timed out");
        }
    }

    /// What writing gave.
    pub fn wrote(&mut self, written: Written)
        requires
            old(self).wf(),
            old(self).step == ExchangeStep::Write,
            written matches Written::Count(n) ==> n <= old(self).request@.len() - old(
                self,
            ).written,
        ensures
            final(self).wf(),
            match written {
                Written::Count(n) => if n == 0 {
                    exchange_stops(*old(self), *final(self), "Service IPC disconnected"@)
                } else {
                    *final(self) == (Exchange {
                        written: (old(self).written + n) as usize,
                        step: if old(self).written + n == old(self).request@.len() {
                            ExchangeStep::Read
                        } else {
                            ExchangeStep::Write
                        },
                        ..*old(self)
                    })
                },
                Written::WouldBlock => *final(self) == (Exchange {
                    step: ExchangeStep::WaitToWrite,
                    ..*old(self)
                }),
                Written::Interrupted => *final(self) == *old(self),
                Written::Broken(e) => exchange_stops(*old(self), *final(self), e@),
            },
    {
        match written {
            Written::Count(n) => {
                if n == 0 {
                    self.fail("Service IPC disconnected");
                } else {
                    let total: usize = self.request.len();
                    assert(self.written + n <= total);
                    self.written = self.written + n;
                    if self.written == total {
                        self.step = ExchangeStep::Read;
                    }
                }
            },
            Written::WouldBlock => {
                self.step = ExchangeStep::WaitToWrite;
            },
            Written::Interrupted => {},
            Written::Broken(e) => {
                self.fail(e.as_str());
            },
        }
    }

    /// What reading gave.
    pub fn received(&mut self, received: Received)
        requires
            old(self).wf(),
            old(self).step == ExchangeStep::Read,
        ensures
            final(self).wf(),
            match received {
                Received::Bytes(bytes) => if bytes@.len() == 0 {
                    exchange_stops(
                        *old(self),
                        *final(self),
                        "Service IPC disconnected before replying"@,
                    )
                } else if old(self).response@.len() + bytes@.len() > old(self).limit {
                    exchange_stops(
                        *old(self),
                        *final(self),
                        "Service IPC response exceeds its size limit"@,
                    )
                } else {
                    &&& final(self).response@ == old(self).response@ + bytes@
                    &&& *final(self) == (Exchange {
                        response: final(self).response,
                        step: if has_break(bytes@) {
                            ExchangeStep::Replied
                        } else {
                            ExchangeStep::Read
                        },
                        ..*old(self)
                    })
                },
                Received::WouldBlock => *final(self) == (Exchange {
                    step: ExchangeStep::WaitToRead,
                    ..*old(self)
                }),
                Received::Interrupted => *final(self) == *old(self),
                Received::Broken(e) => exchange_stops(*old(self), *final(self), e@),
            },
    {
        match received {
            Received::Bytes(bytes) => {
                if bytes.len() == 0 {
                    self.fail("Service IPC disconnected before replying");
                } else if bytes.len() > self.limit - self.response.len() {
                    self.fail("Service IPC response exceeds its size limit");
                } else {
                    let complete = breaks(&bytes);
                    let ghost chunk = bytes@;
                    let ghost before = self.response@;
                    let mut bytes = bytes;
                    self.response.append(&mut bytes);
                    if complete {
                        proof {
                            let i = choose|i: int| 0 <= i < chunk.len() && chunk[i] == 10u8;
                            assert(self.response@[before.len() + i] == 10u8);
                        }
                        self.step = ExchangeStep::Replied;
                    }
                }
            },
            Received::WouldBlock => {
                self.step = ExchangeStep::WaitToRead;
            },
            Received::Interrupted => {},
            Received::Broken(e) => {
                self.fail(e.as_str());
            },
        }
    }

    /// The socket is ready.
    pub fn ready(&mut self)
        requires
            old(self).wf(),
            old(self).step == ExchangeStep::WaitToWrite || old(self).step
                == ExchangeStep::WaitToRead,
        ensures
            final(self).wf(),
            *final(self) == (Exchange {
                step: if old(self).step == ExchangeStep::WaitToWrite {
                    ExchangeStep::Write
                } else {
                    ExchangeStep::Read
                },
                ..*old(self)
            }),
    {
        if self.step == ExchangeStep::WaitToWrite {
            self.step = ExchangeStep::Write;
        } else {
            self.step = ExchangeStep::Read;
        }
    }
}

/// A reply is complete only when the whole request was written, and it stays within its limit.
pub proof fn replies_are_complete_and_bounded(exchange: Exchange)
    requires
        exchange.wf(),
        exchange.step == ExchangeStep::Replied,
    ensures
        exchange.written == exchange.request@.len(),
        has_break(exchange.response@),
        exchange.response@.len() <= exchange.limit,
{
}

/// How long to wait for the socket, in milliseconds, when so many nanoseconds remain: the whole
/// milliseconds of them, but one at least.
pub fn wait_ms(remaining_ns: u64) -> (r: Result<u64, String>)
    ensures
        outcome(r) == if remaining_ns == 0 {
            Err("Service IPC verification timed out"@)
        } else if remaining_ns / 1_000_000 == 0 {
            Ok(1u64)
        } else if remaining_ns / 1_000_000 > 2_147_483_647 {
            Ok(2_147_483_647u64)
        } else {
            Ok((remaining_ns / 1_000_000) as u64)
        },
{
    let whole: u64 = remaining_ns / 1_000_000;
    if remaining_ns == 0 {
        Err("Service IPC verification timed out".to_owned())
    } else if whole == 0 {
        Ok(1)
    } else if whole > 2_147_483_647 {
        Ok(2_147_483_647)
    } else {
        Ok(whole)
    }
}

/// What a daemon replies.
pub enum Reply {
    Data,
    Error { message: String },
}

/// Whether a reply carries data, by what reading it gave.
pub open spec fn reply_complaint(read: Result<Reply, String>) -> Option<Seq<char>> {
    match read {
        Err(e) => Some(e@),
        Ok(Reply::Error { message }) => Some("Service IPC: "@ + message@),
        Ok(Reply::Data) => None,
    }
}

pub fn check_reply(read: &Result<Reply, String>) -> (r: Result<(), String>)
    ensures
        complaint(r) == reply_complaint(*read),
{
    match read {
        Err(e) => Err(e.clone()),
        Ok(Reply::Error { message }) => {
            let mut e = "Service IPC: ".to_owned();
            e.append(message.as_str());
            Err(e)
        },
        Ok(Reply::Data) => Ok(()),
    }
}

/// Where asking a daemon for itself stands.
#[derive(Clone, Copy, Debug, PartialEq, Eq, Structural)]
pub enum ProbeStep {
    CheckOwner,
    Connect,
    CheckPeer,
    CheckContainerPeer,
    AskInfo,
    AskConfig,
    Probed,
    Failed,
}

pub open spec fn probe_rank(step: ProbeStep) -> int {
    match step {
        ProbeStep::CheckOwner => 0,
        ProbeStep::Connect => 1,
        ProbeStep::CheckPeer => 2,
        ProbeStep::CheckContainerPeer => 3,
        ProbeStep::AskInfo => 4,
        ProbeStep::AskConfig => 5,
        ProbeStep::Probed => 6,
        ProbeStep::Failed => 7,
    }
}

/// Inside a box the process at the other end is identified through the host.
pub open spec fn probe_takes(step: ProbeStep, native: bool) -> bool {
    match step {
        ProbeStep::CheckContainerPeer => !native,
        _ => true,
    }
}

/// Asking the daemon behind a service for itself, over a connection that leads to the owner of the
/// hardware.
pub struct Probe {
    /// Whether this runs on the host.
    pub native: bool,
    pub scope: ServiceScope,
    pub owner: OwnershipSnapshot,
    /// The process at the other end of the socket, as it is known here.
    pub peer_pid: i32,
    pub info: Option<DaemonInfo>,
    pub step: ProbeStep,
    pub error: String,
    /// The steps that succeeded, in order.
    pub log: Ghost<Seq<ProbeStep>>,
}

pub open spec fn probe_stops(before: Probe, after: Probe, text: Seq<char>) -> bool {
    after == (Probe { step: ProbeStep::Failed, error: after.error, ..before })
        && after.error@ == text
}

pub open spec fn probe_moves(before: Probe, after: Probe, next: ProbeStep) -> bool {
    after == (Probe { step: next, log: Ghost(before.log@.push(before.step)), ..before })
}

impl Probe {
    /// Every step taken before the present one succeeded.
    pub open spec fn wf(self) -> bool {
        self.step != ProbeStep::Failed ==> {
            &&& forall|s: ProbeStep|
                probe_rank(s) < probe_rank(self.step) && probe_takes(s, self.native)
                    ==> #[trigger] self.log@.contains(s)
            &&& probe_rank(self.step) > 0 ==> known_process(self.owner) is Some
            &&& probe_rank(self.step) > 4 ==> self.info is Some
        }
    }

    pub fn begin(native: bool, scope: ServiceScope, owner: OwnershipSnapshot) -> (r: Probe)
        ensures
            r.wf(),
            r.native == native,
            r.scope == scope,
            r.owner == owner,
            r.step == ProbeStep::CheckOwner,
            r.log@ == Seq::<ProbeStep>::empty(),
            r.info is None,
    {
        Probe {
            native,
            scope,
            owner,
            peer_pid: 0,
            info: None,
            step: ProbeStep::CheckOwner,
            error: String::new(),
            log: Ghost(Seq::empty()),
        }
    }

    fn advance(&mut self, next: ProbeStep)
        requires
            (Probe {
                step: next,
                log: Ghost(old(self).log@.push(old(self).step)),
                ..*old(self)
            }).wf(),
        ensures
            final(self).wf(),
            probe_moves(*old(self), *final(self), next),
    {
        self.log = Ghost(self.log@.push(self.step));
        self.step = next;
    }

    /// A step could not be done.
    pub fn failed(&mut self, reason: &str)
        ensures
            final(self).wf(),
            probe_stops(*old(self), *final(self), reason@),
    {
        self.step = ProbeStep::Failed;
        self.error = reason.to_owned();
    }

    /// The owner of the hardware has to be known.
    pub fn check_owner(&mut self)
        requires
            old(self).wf(),
            old(self).step == ProbeStep::CheckOwner,
        ensures
            final(self).wf(),
            match known_process(old(self).owner) {
                None => probe_stops(
                    *old(self),
                    *final(self),
                    "Hardware owner process is unverified"@,
                ),
                Some(_) => probe_moves(*old(self), *final(self), ProbeStep::Connect),
            },
    {
        let known = match owner_process(&self.owner) {
            Err(e) => Err(e),
            Ok(_) => Ok(()),
        };
        match known {
            Err(e) => {
                self.failed(e.as_str());
            },
            Ok(_) => {
                proof {
                    steps::push_holds(self.log@, self.step);
                }
                self.advance(ProbeStep::Connect);
            },
        }
    }

    /// The socket to connect to. `runtime` is the user's runtime directory as the environment names it.
    pub fn socket(&self, context: &InstallationContext, runtime: Option<&str>, uid: u32) -> (r: Result<
        String,
        String,
    >)
        requires
            self.native == (*context is Native),
        ensures
            written(r) == socket_of(
                *context,
                self.scope,
                match runtime {
                    Some(p) => Some(p@),
                    None => None,
                },
                uid,
            ),
    {
        socket_path(context, self.scope, runtime, uid)
    }

    /// The exchange of the present step: what is asked, and how long the reply may be.
    pub fn exchange(&self) -> (r: Exchange)
        requires
            self.step == ProbeStep::AskInfo || self.step == ProbeStep::AskConfig,
        ensures
            r.wf(),
            r.written == 0,
            r.response@ == Seq::<u8>::empty(),
            self.step == ProbeStep::AskInfo ==> r.limit == INFO_LIMIT && r.request@ == encode_utf8(
                request_of("GetDaemonInfo"@),
            ),
            self.step == ProbeStep::AskConfig ==> r.limit == CONFIG_LIMIT && r.request@ == encode_utf8(
                request_of("GetConfig"@),
            ),
    {
        match self.step {
            ProbeStep::AskInfo => Exchange::begin(
                bytes_of(request("GetDaemonInfo").as_str()),
                INFO_LIMIT,
            ),
            _ => Exchange::begin(bytes_of(request("GetConfig").as_str()), CONFIG_LIMIT),
        }
    }

    /// The socket was connected.
    pub fn connected(&mut self, result: &Result<(), String>)
        requires
            old(self).wf(),
            old(self).step == ProbeStep::Connect,
        ensures
            final(self).wf(),
            match prefixed("Connecting service IPC: "@, *result) {
                Some(e) => probe_stops(*old(self), *final(self), e),
                None => probe_moves(*old(self), *final(self), ProbeStep::CheckPeer),
            },
    {
        match prefix("Connecting service IPC: ", result) {
            Err(e) => {
                self.failed(e.as_str());
            },
            Ok(_) => {
                proof {
                    steps::push_holds(self.log@, self.step);
                }
                self.advance(ProbeStep::CheckPeer);
            },
        }
    }

    /// The credentials of the other side were read, where they could be.
    pub fn peer(&mut self, known: bool, peer_uid: u32, peer_pid: i32)
        requires
            old(self).wf(),
            old(self).step == ProbeStep::CheckPeer,
        ensures
            final(self).wf(),
            known_process(old(self).owner) matches Some(process) && match if known {
                peer_complaint(old(self).native, process, peer_uid, peer_pid)
            } else {
                Some("Cannot verify service IPC peer"@)
            } {
                Some(e) => probe_stops(*old(self), *final(self), e),
                None => probe_moves(
                    (Probe { peer_pid, ..*old(self) }),
                    *final(self),
                    if old(self).native {
                        ProbeStep::AskInfo
                    } else {
                        ProbeStep::CheckContainerPeer
                    },
                ),
            },
    {
        let verdict = if known {
            match owner_process(&self.owner) {
                Err(e) => Err(e),
                Ok(process) => check_peer(self.native, process, peer_uid, peer_pid),
            }
        } else {
            Err("Cannot verify service IPC peer".to_owned())
        };
        match verdict {
            Err(e) => {
                self.failed(e.as_str());
            },
            Ok(_) => {
                proof {
                    steps::push_holds(self.log@, self.step);
                }
                self.peer_pid = peer_pid;
                if self.native {
                    self.advance(ProbeStep::AskInfo);
                } else {
                    self.advance(ProbeStep::CheckContainerPeer);
                }
            },
        }
    }

    /// What the files of the process at the other end say, here and on the host.
    pub fn container_peer(&mut self, files: &PeerFiles)
        requires
            old(self).wf(),
            old(self).step == ProbeStep::CheckContainerPeer,
        ensures
            final(self).wf(),
            known_process(old(self).owner) matches Some(process)
                && match process_owner::peer_complaint(*files, process, old(self).peer_pid) {
                Some(e) => probe_stops(*old(self), *final(self), e),
                None => probe_moves(*old(self), *final(self), ProbeStep::AskInfo),
            },
    {
        let verified = match owner_process(&self.owner) {
            Err(e) => Err(e),
            Ok(process) => verify_container_peer(files, process, self.peer_pid),
        };
        match verified {
            Err(e) => {
                self.failed(e.as_str());
            },
            Ok(_) => {
                proof {
                    steps::push_holds(self.log@, self.step);
                }
                self.advance(ProbeStep::AskInfo);
            },
        }
    }

    /// The daemon described itself, with what the shared rules hold of that.
    pub fn described(
        &mut self,
        answer: Result<DaemonInfo, String>,
        guard: &Result<(), String>,
        graceful: &str,
    )
        requires
            old(self).wf(),
            old(self).step == ProbeStep::AskInfo,
        ensures
            final(self).wf(),
            match answer {
                Err(e) => probe_stops(*old(self), *final(self), e@),
                Ok(info) => match info_complaint(
                    info,
                    old(self).owner,
                    old(self).scope,
                    *guard,
                    graceful@,
                ) {
                    Some(e) => probe_stops(*old(self), *final(self), e),
                    None => *final(self) == (Probe {
                        info: Some(info),
                        step: ProbeStep::AskConfig,
                        log: Ghost(old(self).log@.push(old(self).step)),
                        ..*old(self)
                    }),
                },
            },
    {
        match answer {
            Err(e) => {
                self.failed(e.as_str());
            },
            Ok(info) => match validate_info(&info, &self.owner, self.scope, guard, graceful) {
                Err(e) => {
                    self.failed(e.as_str());
                },
                Ok(_) => {
                    self.info = Some(info);
                    proof {
                        steps::push_holds(self.log@, self.step);
                    }
                    self.advance(ProbeStep::AskConfig);
                },
            },
        }
    }

    /// The daemon gave the configuration that it loaded, which was read.
    pub fn configured(&mut self, read: &Result<(), String>)
        requires
            old(self).wf(),
            old(self).step == ProbeStep::AskConfig,
        ensures
            final(self).wf(),
            match prefixed("The service did not return its loaded configuration: "@, *read) {
                Some(e) => probe_stops(*old(self), *final(self), e),
                None => probe_moves(*old(self), *final(self), ProbeStep::Probed),
            },
    {
        match prefix("The service did not return its loaded configuration: ", read) {
            Err(e) => {
                self.failed(e.as_str());
            },
            Ok(_) => {
                proof {
                    steps::push_holds(self.log@, self.step);
                }
                self.advance(ProbeStep::Probed);
            },
        }
    }
}

/// A daemon counts as probed only after the process at the other end was found to be the owner of
/// the hardware, and the daemon described itself and gave its configuration.
pub proof fn probed_daemons_own_the_hardware(m: Probe)
    requires
        m.wf(),
        m.step == ProbeStep::Probed,
    ensures
        known_process(m.owner) is Some,
        m.info is Some,
        m.log@.contains(ProbeStep::CheckPeer),
        !m.native ==> m.log@.contains(ProbeStep::CheckContainerPeer),
        m.log@.contains(ProbeStep::AskInfo),
        m.log@.contains(ProbeStep::AskConfig),
{
}

/// The socket of a daemon lies where the service keeps it: that of the system service always at the
/// same place, that of the user's service on the host in the runtime directory of that user, and in
/// a box in the runtime directory that is named there.
pub proof fn sockets_lie_with_their_service(
    context: InstallationContext,
    runtime: Option<Seq<char>>,
    uid: u32,
    other_uid: u32,
)
    ensures
        socket_of(context, ServiceScope::System, runtime, uid) == Ok::<Seq<char>, Seq<char>>(
            "/run/lianli/lianli-daemon.sock"@,
        ),
        !(context is Distrobox) ==> socket_of(context, ServiceScope::User, runtime, uid) == Ok::<
            Seq<char>,
            Seq<char>,
        >(path::join_of("/run/user/"@ + text::decimal(uid as nat), "lianli-daemon.sock"@)),
        context is Distrobox ==> (socket_of(context, ServiceScope::User, runtime, uid) is Ok <==> {
            &&& runtime is Some
            &&& path::is_absolute(runtime->0)
        }),
        context is Distrobox && socket_of(context, ServiceScope::User, runtime, uid) is Ok
            ==> socket_of(context, ServiceScope::User, runtime, uid) == Ok::<Seq<char>, Seq<char>>(
            path::join_of(runtime->0, "lianli-daemon.sock"@),
        ),
        context is Distrobox ==> socket_of(context, ServiceScope::User, runtime, uid) == socket_of(
            context,
            ServiceScope::User,
            runtime,
            other_uid,
        ),
{
}

/// The process at the other end of a socket is taken for the owner of the hardware exactly where its
/// account is, and on the host only if it is that very process.
pub proof fn peers_are_the_owner(native: bool, process: OwnerProcess, peer_uid: u32, peer_pid: i32)
    ensures
        peer_complaint(native, process, peer_uid, peer_pid) is None <==> peer_uid
            == process.effective_uid && (native ==> peer_pid > 0 && peer_pid == process.pid),
{
}

/// What a daemon says of itself is accepted exactly where it takes guarded writes and graceful
/// shutdowns, holds the lock of the owner and runs in the mode of the service.
pub proof fn daemons_are_accepted_by_what_they_say(
    info: DaemonInfo,
    owner: OwnershipSnapshot,
    scope: ServiceScope,
    guard: Result<(), String>,
    graceful: Seq<char>,
)
    ensures
        info_complaint(info, owner, scope, guard, graceful) is None <==> {
            &&& guard is Ok
            &&& exists|i: int|
                0 <= i < info.capabilities@.len() && (#[trigger] info.capabilities@[i])@ == graceful
            &&& info.ownership_lock is Some
            &&& info.ownership_lock->0.device@ == owner.identity.device@
            &&& info.ownership_lock->0.inode@ == owner.identity.inode@
            &&& info.mode == DaemonMode::User <==> scope == ServiceScope::User
        },
{
    let all = texts(info.capabilities@);
    if exists|i: int|
        0 <= i < info.capabilities@.len() && (#[trigger] info.capabilities@[i])@ == graceful {
        let i = choose|i: int|
            0 <= i < info.capabilities@.len() && (#[trigger] info.capabilities@[i])@ == graceful;
        assert(all[i] == graceful);
    }
    if all.contains(graceful) {
        let i = all.index_of(graceful);
        assert(info.capabilities@[i]@ == graceful);
    }
}

/// A daemon's reply counts exactly where it could be read and is none of an error.
pub proof fn replies_count_where_they_hold_data(read: Result<Reply, String>)
    ensures
        reply_complaint(read) is None <==> read is Ok && read->Ok_0 is Data,
{
}

} // verus!
