//! Handing a transfer channel from the host to a worker inside a box.

use crate::command::{ended, left_by, ran_within, said, Output, Ran, Run, RunStep, MAX_OUTPUT};
use crate::container_destination::MAX_METADATA;
use crate::container_destination::complaint;
use crate::distrobox_unit;
use crate::files::{FileKind, Metadata};
use crate::path;
use crate::steps::push_holds;
use crate::text;
use crate::text::{outcome, prefix, prefixed, texts};
use vstd::prelude::*;

verus! {

/// The most arguments of a worker.
pub const MAX_ARGUMENTS: usize = 32;

/// The longest argument of a worker, in bytes.
pub const MAX_ARGUMENT: usize = 4096;

/// The longest single wait for the other side, in milliseconds.
pub const MAX_WAIT_MS: u64 = 30_000;

/// How long a handoff may take, in milliseconds.
pub const HANDOFF_MS: u64 = 30_000;

/// How long a worker may take, in milliseconds.
pub const WORKER_MS: u64 = 600_000;

/// What the two sides of a handoff tell each other.
pub enum Message {
    Hello { token: String },
    Channel,
    Stdout,
    Stderr,
    Ready,
}

pub open spec fn is_private(p: Seq<char>, m: Metadata, uid: u32) -> bool {
    path::is_absolute(p) && m.kind == FileKind::Directory && m.uid == uid && m.mode & 0o077 == 0
}

/// Whether the channel can lie in a directory.
pub fn private_directory(p: &str, m: &Metadata, uid: u32) -> (r: Result<(), String>)
    ensures
        outcome(r) == if is_private(p@, *m, uid) {
            Ok(())
        } else {
            Err("Container transfer requires a private runtime directory owned by this account"@)
        },
{
    if path::absolute(p) && m.kind == FileKind::Directory && m.uid == uid && m.mode & 0o077 == 0 {
        Ok(())
    } else {
        Err(
            "Container transfer requires a private runtime directory owned by this account".to_owned(),
        )
    }
}

/// Whether the process at the other end of a socket may take part: whether its credentials could be
/// read, and what they are.
pub fn verify_peer(known: bool, peer_uid: u32, peer_pid: i32, uid: u32) -> (r: Result<(), String>)
    ensures
        outcome(r) == if known && peer_uid == uid && peer_pid > 0 {
            Ok(())
        } else {
            Err("Container transfer peer belongs to another account or an invisible process"@)
        },
{
    if known && peer_uid == uid && peer_pid > 0 {
        Ok(())
    } else {
        Err("Container transfer peer belongs to another account or an invisible process".to_owned())
    }
}

/// How long to wait for the other side, in milliseconds, when so many nanoseconds remain: the whole
/// milliseconds of them, but one at least.
pub open spec fn wait_of(remaining_ns: u64) -> Result<u64, Seq<char>> {
    if remaining_ns == 0 {
        Err("Container channel handoff timed out"@)
    } else if remaining_ns / 1_000_000 == 0 {
        Ok(1u64)
    } else if remaining_ns / 1_000_000 > MAX_WAIT_MS {
        Ok(MAX_WAIT_MS)
    } else {
        Ok((remaining_ns / 1_000_000) as u64)
    }
}

pub fn wait_ms(remaining_ns: u64) -> (r: Result<u64, String>)
    ensures
        outcome(r) == wait_of(remaining_ns),
{
    let whole: u64 = remaining_ns / 1_000_000;
    if remaining_ns == 0 {
        Err("Container channel handoff timed out".to_owned())
    } else if whole == 0 {
        Ok(1)
    } else if whole > MAX_WAIT_MS {
        Ok(MAX_WAIT_MS)
    } else {
        Ok(whole)
    }
}

/// A worker that talks in packets over its channel.
pub open spec fn is_packet_worker(command: Seq<char>) -> bool {
    command == "send-state"@ || command == "receive-state"@ || command == "publish-state"@ || command
        == "receive-selected-media"@
}

pub fn packet_worker(command: &str) -> (r: bool)
    ensures
        r == is_packet_worker(command@),
{
    text::eq(command, "send-state") || text::eq(command, "receive-state") || text::eq(
        command,
        "publish-state",
    ) || text::eq(command, "receive-selected-media")
}

/// A command that may run inside a box on behalf of the host.
pub open spec fn is_worker_command(command: Seq<char>) -> bool {
    is_packet_worker(command) || command == "inspect-container-destination"@ || command
        == "inspect-container-identity"@ || command == "inspect-destination"@ || command
        == "check-saved-state"@ || command == "check-recovery-access"@ || command
        == "discard-transfer"@ || command == "finish-transfer"@
}

pub fn worker_command(command: &str) -> (r: bool)
    ensures
        r == is_worker_command(command@),
{
    packet_worker(command) || text::eq(command, "inspect-container-destination") || text::eq(
        command,
        "inspect-container-identity",
    ) || text::eq(command, "inspect-destination") || text::eq(command, "check-saved-state")
        || text::eq(command, "check-recovery-access") || text::eq(command, "discard-transfer")
        || text::eq(command, "finish-transfer")
}

/// Whether every argument is short enough.
pub open spec fn all_short(arguments: Seq<Seq<char>>) -> bool {
    forall|i: int|
        0 <= i < arguments.len() ==> text::byte_len(#[trigger] arguments[i]) <= MAX_ARGUMENT
}

pub open spec fn run_complaint(
    uid: u32,
    name: Seq<char>,
    enter: Seq<char>,
    binaries: Seq<char>,
    arguments: Seq<Seq<char>>,
) -> Option<Seq<char>> {
    if uid == 0 {
        Some("Enter container workers as the unprivileged box owner"@)
    } else if !(distrobox_unit::is_name(name) && path::is_absolute(enter) && path::file_name_of(
        enter,
    ) == Some("distrobox-enter"@) && path::is_absolute(binaries)) {
        Some("Invalid container worker launch route"@)
    } else if !(0 < arguments.len() <= MAX_ARGUMENTS && all_short(arguments)) {
        Some("Invalid container worker arguments"@)
    } else if !is_worker_command(arguments[0]) {
        Some("Only state transfer workers may receive a container channel"@)
    } else {
        None
    }
}

fn short(arguments: &Vec<String>) -> (r: bool)
    ensures
        r == all_short(texts(arguments@)),
{
    let ghost all = texts(arguments@);
    let mut i: usize = 0;
    while i < arguments.len()
        invariant
            all == texts(arguments@),
            i <= arguments@.len(),
            forall|j: int| 0 <= j < i ==> text::byte_len(#[trigger] all[j]) <= MAX_ARGUMENT,
        decreases arguments@.len() - i,
    {
        assert(all[i as int] == arguments@[i as int]@);
        if text::len(arguments[i].as_str()) > MAX_ARGUMENT {
            assert(text::byte_len(all[i as int]) > MAX_ARGUMENT);
            return false;
        }
        i += 1;
    }
    assert(all.len() == arguments@.len());
    true
}

/// Whether a worker may be started in a box.
pub fn check_run(uid: u32, name: &str, enter: &str, binaries: &str, arguments: &Vec<String>) -> (r:
    Result<(), String>)
    ensures
        complaint(r) == run_complaint(uid, name@, enter@, binaries@, texts(arguments@)),
{
    if uid == 0 {
        return Err("Enter container workers as the unprivileged box owner".to_owned());
    }
    let entering = match path::file_name(enter) {
        Some(n) => text::eq(n.as_str(), "distrobox-enter"),
        None => false,
    };
    if !(distrobox_unit::valid_name(name) && path::absolute(enter) && entering && path::absolute(
        binaries,
    )) {
        return Err("Invalid container worker launch route".to_owned());
    }
    assert(texts(arguments@).len() == arguments@.len());
    if !(arguments.len() > 0 && arguments.len() <= MAX_ARGUMENTS && short(arguments)) {
        return Err("Invalid container worker arguments".to_owned());
    }
    assert(texts(arguments@)[0] == arguments@[0]@);
    if !worker_command(arguments[0].as_str()) {
        return Err("Only state transfer workers may receive a container channel".to_owned());
    }
    Ok(())
}

/// The arguments that start a worker in a box.
pub open spec fn entry_of(
    name: Seq<char>,
    binaries: Seq<char>,
    channel: Seq<char>,
    token: Seq<char>,
    destination: Option<Seq<char>>,
    arguments: Seq<Seq<char>>,
) -> Seq<Seq<char>> {
    let head = seq![
        "--no-tty"@,
        "--name"@,
        name,
        "--"@,
        path::join_of(binaries, "lianli-control"@),
        "--transfer-channel"@,
        channel,
        "--transfer-token"@,
        token,
    ];
    match destination {
        Some(d) => head + seq!["--worker-destination"@, d] + arguments,
        None => head + arguments,
    }
}

/// What speaks against telling a worker of its destination.
pub open spec fn told_complaint(destination: Option<Seq<char>>) -> Option<Seq<char>> {
    if destination matches Some(d) && text::byte_len(d) > MAX_METADATA {
        Some("Container destination metadata exceeds 16 KiB"@)
    } else {
        None
    }
}

/// The arguments that start a worker in a box, by the owner of the box and with one of the commands
/// that work on state.
pub fn run(
    uid: u32,
    name: &str,
    enter: &str,
    binaries: &str,
    channel: &str,
    token: &str,
    destination: Option<&str>,
    arguments: Vec<String>,
) -> (r: Result<Vec<String>, String>)
    ensures
        ({
            let told = match destination {
                Some(d) => Some(d@),
                None => None,
            };
            match (run_complaint(uid, name@, enter@, binaries@, texts(arguments@)), told_complaint(told)) {
                (Some(e), _) => r matches Err(text) && text@ == e,
                (None, Some(e)) => r matches Err(text) && text@ == e,
                (None, None) => r matches Ok(v) && texts(v@) == entry_of(
                    name@,
                    binaries@,
                    channel@,
                    token@,
                    told,
                    texts(arguments@),
                ),
            }
        }),
{
    check_run(uid, name, enter, binaries, &arguments)?;
    let mut r: Vec<String> = Vec::new();
    r.push("--no-tty".to_owned());
    r.push("--name".to_owned());
    r.push(name.to_owned());
    r.push("--".to_owned());
    r.push(path::join(binaries, "lianli-control"));
    r.push("--transfer-channel".to_owned());
    r.push(channel.to_owned());
    r.push("--transfer-token".to_owned());
    r.push(token.to_owned());
    let ghost head = texts(r@);
    assert(head =~= seq![
        "--no-tty"@,
        "--name"@,
        name@,
        "--"@,
        path::join_of(binaries@, "lianli-control"@),
        "--transfer-channel"@,
        channel@,
        "--transfer-token"@,
        token@,
    ]);
    match destination {
        Some(d) => {
            if text::len(d) > MAX_METADATA {
                return Err("Container destination metadata exceeds 16 KiB".to_owned());
            }
            r.push("--worker-destination".to_owned());
            r.push(d.to_owned());
            assert(texts(r@) =~= head + seq!["--worker-destination"@, d@]);
        },
        None => {},
    }
    let ghost before = texts(r@);
    let ghost tail = texts(arguments@);
    let mut arguments = arguments;
    r.append(&mut arguments);
    assert(texts(r@) =~= before + tail);
    Ok(r)
}

/// What a finished run comes to: how the handoff went, and what the launcher left behind. The worker
/// wrote to the channel, so the launcher's own output says nothing.
pub open spec fn result_of(
    handoff: Result<(), Seq<char>>,
    launcher: Result<(Option<i32>, Seq<char>, Seq<char>), Seq<char>>,
) -> Result<(Option<i32>, Seq<char>, Seq<char>), Seq<char>> {
    match (handoff, launcher) {
        (Ok(_), Ok((code, _, stderr))) => Ok((code, Seq::empty(), stderr)),
        (Ok(_), Err(e)) => Err(e),
        (Err(e), Ok((code, _, stderr))) => if code == Some(0i32) {
            Err("Handing the transfer channel to the container: "@ + e)
        } else {
            Err("Container launcher failed before channel handoff: "@ + text::trimmed(stderr))
        },
        (Err(e), Err(_)) => Err("Handing the transfer channel to the container: "@ + e),
    }
}

/// The outcome of a run.
pub fn finish(handoff: Result<(), String>, launcher: Result<Output, String>) -> (r: Result<
    Output,
    String,
>)
    ensures
        said(r) == result_of(outcome(handoff), said(launcher)),
{
    match handoff {
        Ok(_) => match launcher {
            Ok(output) => {
                let Output { code, status, stdout: _, stderr } = output;
                let stdout = String::new();
                assert(stdout@ =~= Seq::empty());
                Ok(Output { code, status, stdout, stderr })
            },
            Err(e) => Err(e),
        },
        Err(e) => {
            match &launcher {
                Ok(output) => {
                    if !output.success() {
                        let mut message =
                            "Container launcher failed before channel handoff: ".to_owned();
                        message.append(text::trim(output.stderr.as_str()).as_str());
                        return Err(message);
                    }
                },
                Err(_) => {},
            }
            let mut message = "Handing the transfer channel to the container: ".to_owned();
            message.append(e.as_str());
            Err(message)
        },
    }
}

#[derive(Clone, Copy, Debug, PartialEq, Eq, Structural)]
pub enum HandoffStep {
    Accept,
    VerifyPeer,
    AwaitHello,
    SendChannel,
    SendStdout,
    SendStderr,
    AwaitReady,
    Done,
    Failed,
}

pub open spec fn handoff_rank(step: HandoffStep) -> int {
    match step {
        HandoffStep::Accept => 0,
        HandoffStep::VerifyPeer => 1,
        HandoffStep::AwaitHello => 2,
        HandoffStep::SendChannel => 3,
        HandoffStep::SendStdout => 4,
        HandoffStep::SendStderr => 5,
        HandoffStep::AwaitReady => 6,
        HandoffStep::Done => 7,
        HandoffStep::Failed => 8,
    }
}

/// The host's side of a handoff.
pub struct Handoff {
    pub token: String,
    pub step: HandoffStep,
    pub error: String,
    pub log: Ghost<Seq<HandoffStep>>,
}

pub open spec fn handoff_stops(before: Handoff, after: Handoff, text: Seq<char>) -> bool {
    after == (Handoff { step: HandoffStep::Failed, error: after.error, ..before })
        && after.error@ == text
}

pub open spec fn handoff_moves(before: Handoff, after: Handoff, next: HandoffStep) -> bool {
    after == (Handoff { step: next, log: Ghost(before.log@.push(before.step)), ..before })
}

impl Handoff {
    /// Each step follows all those before it.
    pub open spec fn wf(self) -> bool {
        self.step != HandoffStep::Failed ==> forall|s: HandoffStep|
            handoff_rank(s) < handoff_rank(self.step) ==> #[trigger] self.log@.contains(s)
    }

    pub fn begin(token: String) -> (r: Handoff)
        ensures
            r.wf(),
            r.token == token,
            r.step == HandoffStep::Accept,
            r.log@ == Seq::<HandoffStep>::empty(),
    {
        Handoff {
            token,
            step: HandoffStep::Accept,
            error: String::new(),
            log: Ghost(Seq::empty()),
        }
    }

    pub fn failed(&mut self, reason: &str)
        requires
            old(self).wf(),
        ensures
            final(self).wf(),
            handoff_stops(*old(self), *final(self), reason@),
    {
        self.step = HandoffStep::Failed;
        self.error = reason.to_owned();
    }

    fn advance(&mut self, next: HandoffStep)
        requires
            old(self).wf(),
            old(self).step != HandoffStep::Failed,
            handoff_rank(next) == handoff_rank(old(self).step) + 1,
            next != HandoffStep::Failed,
        ensures
            final(self).wf(),
            handoff_moves(*old(self), *final(self), next),
    {
        proof {
            push_holds(self.log@, self.step);
            assert forall|s: HandoffStep|
                handoff_rank(s) < handoff_rank(next) implies #[trigger] self.log@.push(
                self.step,
            ).contains(s) by {
                assert(s == self.step || handoff_rank(s) < handoff_rank(self.step));
            }
        }
        self.log = Ghost(self.log@.push(self.step));
        self.step = next;
    }

    /// A worker connected.
    pub fn accepted(&mut self)
        requires
            old(self).wf(),
            old(self).step == HandoffStep::Accept,
        ensures
            final(self).wf(),
            handoff_moves(*old(self), *final(self), HandoffStep::VerifyPeer),
    {
        self.advance(HandoffStep::VerifyPeer);
    }

    /// The credentials of the worker.
    pub fn peer(&mut self, known: bool, peer_uid: u32, peer_pid: i32, uid: u32)
        requires
            old(self).wf(),
            old(self).step == HandoffStep::VerifyPeer,
        ensures
            final(self).wf(),
            if known && peer_uid == uid && peer_pid > 0 {
                handoff_moves(*old(self), *final(self), HandoffStep::AwaitHello)
            } else {
                handoff_stops(
                    *old(self),
                    *final(self),
                    "Container transfer peer belongs to another account or an invisible process"@,
                )
            },
    {
        match verify_peer(known, peer_uid, peer_pid, uid) {
            Ok(_) => {
                self.advance(HandoffStep::AwaitHello);
            },
            Err(e) => {
                self.failed(e.as_str());
            },
        }
    }

    /// The worker's first message, and whether a descriptor came with it.
    pub fn hello(&mut self, message: &Message, descriptor: bool)
        requires
            old(self).wf(),
            old(self).step == HandoffStep::AwaitHello,
        ensures
            final(self).wf(),
            if !descriptor && (*message matches Message::Hello { token } && token@ == old(
                self,
            ).token@) {
                handoff_moves(*old(self), *final(self), HandoffStep::SendChannel)
            } else {
                handoff_stops(
                    *old(self),
                    *final(self),
                    "Container worker handoff did not match its operation"@,
                )
            },
    {
        let known = match message {
            Message::Hello { token } => text::eq(token.as_str(), self.token.as_str()),
            _ => false,
        };
        if !descriptor && known {
            self.advance(HandoffStep::SendChannel);
        } else {
            self.failed("Container worker handoff did not match its operation");
        }
    }

    /// A descriptor was sent.
    pub fn sent(&mut self)
        requires
            old(self).wf(),
            old(self).step == HandoffStep::SendChannel || old(self).step == HandoffStep::SendStdout
                || old(self).step == HandoffStep::SendStderr,
        ensures
            final(self).wf(),
            handoff_moves(
                *old(self),
                *final(self),
                match old(self).step {
                    HandoffStep::SendChannel => HandoffStep::SendStdout,
                    HandoffStep::SendStdout => HandoffStep::SendStderr,
                    _ => HandoffStep::AwaitReady,
                },
            ),
    {
        let next = match self.step {
            HandoffStep::SendChannel => HandoffStep::SendStdout,
            HandoffStep::SendStdout => HandoffStep::SendStderr,
            _ => HandoffStep::AwaitReady,
        };
        self.advance(next);
    }

    /// The worker's last message, and whether a descriptor came with it.
    pub fn ready(&mut self, message: &Message, descriptor: bool)
        requires
            old(self).wf(),
            old(self).step == HandoffStep::AwaitReady,
        ensures
            final(self).wf(),
            if !descriptor && *message is Ready {
                handoff_moves(*old(self), *final(self), HandoffStep::Done)
            } else {
                handoff_stops(
                    *old(self),
                    *final(self),
                    "Container worker did not acknowledge its channel"@,
                )
            },
    {
        let acknowledged = match message {
            Message::Ready => true,
            _ => false,
        };
        if !descriptor && acknowledged {
            self.advance(HandoffStep::Done);
        } else {
            self.failed("Container worker did not acknowledge its channel");
        }
    }
}

/// The nanoseconds that remain of a handoff, so many nanoseconds after it began.
pub open spec fn handoff_rest(elapsed_ns: u64) -> u64 {
    if elapsed_ns >= HANDOFF_MS * 1_000_000 {
        0
    } else {
        (HANDOFF_MS * 1_000_000 - elapsed_ns) as u64
    }
}

impl Handoff {
    /// How long to wait for the worker, so many nanoseconds after the handoff began.
    pub fn wait_ms(&self, elapsed_ns: u64) -> (r: Result<u64, String>)
        ensures
            outcome(r) == wait_of(handoff_rest(elapsed_ns)),
    {
        let all: u64 = HANDOFF_MS * 1_000_000;
        wait_ms(
            if elapsed_ns >= all {
                0
            } else {
                all - elapsed_ns
            },
        )
    }
}

/// No descriptor is sent before the peer is known to be of this account and has shown the token.
pub proof fn descriptors_follow_the_token(handoff: Handoff)
    requires
        handoff.wf(),
        handoff.step == HandoffStep::SendChannel || handoff.step == HandoffStep::SendStdout
            || handoff.step == HandoffStep::SendStderr,
    ensures
        handoff.log@.contains(HandoffStep::VerifyPeer),
        handoff.log@.contains(HandoffStep::AwaitHello),
{
}

/// What the worker waits for in turn.
#[derive(Clone, Copy, Debug, PartialEq, Eq, Structural)]
pub enum Expected {
    Channel,
    Stdout,
    Stderr,
}

pub open spec fn is_expected(expected: Expected, message: Message) -> bool {
    match expected {
        Expected::Channel => message is Channel,
        Expected::Stdout => message is Stdout,
        Expected::Stderr => message is Stderr,
    }
}

/// What speaks against a message that the worker received, where `descriptor` says whether one came
/// with it.
pub open spec fn received_complaint(expected: Expected, message: Message, descriptor: bool) -> Option<
    Seq<char>,
> {
    match expected {
        Expected::Channel => if !is_expected(expected, message) {
            Some("Unexpected container handoff response"@)
        } else if !descriptor {
            Some("Missing container transfer descriptor"@)
        } else {
            None
        },
        Expected::Stdout => if !is_expected(expected, message) {
            Some("Missing container stdout handoff"@)
        } else if !descriptor {
            Some("Missing container stdout descriptor"@)
        } else {
            None
        },
        Expected::Stderr => if !is_expected(expected, message) {
            Some("Missing container stderr handoff"@)
        } else if !descriptor {
            Some("Missing container stderr descriptor"@)
        } else {
            None
        },
    }
}

/// Whether the worker received what it waited for.
pub fn receive(expected: Expected, message: &Message, descriptor: bool) -> (r: Result<(), String>)
    ensures
        complaint(r) == received_complaint(expected, *message, descriptor),
{
    match expected {
        Expected::Channel => match message {
            Message::Channel => {
                if descriptor {
                    Ok(())
                } else {
                    Err("Missing container transfer descriptor".to_owned())
                }
            },
            _ => Err("Unexpected container handoff response".to_owned()),
        },
        Expected::Stdout => match message {
            Message::Stdout => {
                if descriptor {
                    Ok(())
                } else {
                    Err("Missing container stdout descriptor".to_owned())
                }
            },
            _ => Err("Missing container stdout handoff".to_owned()),
        },
        Expected::Stderr => match message {
            Message::Stderr => {
                if descriptor {
                    Ok(())
                } else {
                    Err("Missing container stderr descriptor".to_owned())
                }
            },
            _ => Err("Missing container stderr handoff".to_owned()),
        },
    }
}

/// Whether a worker may take over a channel.
fn check_worker(uid: u32) -> (r: Result<(), String>)
    ensures
        outcome(r) == if uid != 0 {
            Ok(())
        } else {
            Err("Receive container worker channels under an unprivileged account"@)
        },
{
    if uid != 0 {
        Ok(())
    } else {
        Err("Receive container worker channels under an unprivileged account".to_owned())
    }
}

/// What a worker that is watched does next.
#[derive(Clone, Copy, Debug, PartialEq, Eq, Structural)]
pub enum Watch {
    Continue,
    /// The work is done.
    Stop,
    /// The host let go of the channel: end the process.
    Exit,
}

/// Whether the worker may go on: whether its work is done, what polling the channel gave, and whether
/// a signal interrupted it.
pub fn watch(stopped: bool, polled: i32, interrupted: bool) -> (r: Watch)
    ensures
        r == if stopped {
            Watch::Stop
        } else if polled > 0 || polled < 0 && !interrupted {
            Watch::Exit
        } else {
            Watch::Continue
        },
{
    if stopped {
        Watch::Stop
    } else if polled > 0 || (polled < 0 && !interrupted) {
        Watch::Exit
    } else {
        Watch::Continue
    }
}

/// What putting a descriptor in its place gave.
pub enum Installed {
    Done,
    NotDuplicated(String),
    NotInstalled(String),
}

pub open spec fn installed_complaint(result: Installed) -> Option<Seq<char>> {
    match result {
        Installed::Done => None,
        Installed::NotDuplicated(e) => Some(
            "Duplicating the container transfer descriptor: "@ + e@,
        ),
        Installed::NotInstalled(e) => Some("Installing the container transfer descriptor: "@ + e@),
    }
}

/// Whether a descriptor was put in its place: a copy of it first, then that copy under the number.
pub fn install_descriptor(result: &Installed) -> (r: Result<(), String>)
    ensures
        complaint(r) == installed_complaint(*result),
{
    match result {
        Installed::Done => Ok(()),
        Installed::NotDuplicated(e) => {
            let mut whole = "Duplicating the container transfer descriptor: ".to_owned();
            whole.append(e.as_str());
            Err(whole)
        },
        Installed::NotInstalled(e) => {
            let mut whole = "Installing the container transfer descriptor: ".to_owned();
            whole.append(e.as_str());
            Err(whole)
        },
    }
}

/// The token of a channel: its random bytes in hexadecimal digits.
pub fn token(bytes: &Vec<u8>) -> (r: String)
    ensures
        r@ == text::hex(bytes@),
{
    text::format_hex(bytes)
}

/// Where a worker that takes over a channel stands.
#[derive(Clone, Copy, Debug, PartialEq, Eq, Structural)]
pub enum AttachStep {
    CheckAccount,
    Restrict,
    CheckDirectory,
    CheckToken,
    Connect,
    VerifyPeer,
    SendHello,
    AwaitChannel,
    CheckPackets,
    AwaitStdout,
    AwaitStderr,
    InstallInput,
    InstallStdout,
    InstallStderr,
    SendReady,
    Attached,
    Failed,
}

pub open spec fn attach_rank(step: AttachStep) -> int {
    match step {
        AttachStep::CheckAccount => 0,
        AttachStep::Restrict => 1,
        AttachStep::CheckDirectory => 2,
        AttachStep::CheckToken => 3,
        AttachStep::Connect => 4,
        AttachStep::VerifyPeer => 5,
        AttachStep::SendHello => 6,
        AttachStep::AwaitChannel => 7,
        AttachStep::CheckPackets => 8,
        AttachStep::AwaitStdout => 9,
        AttachStep::AwaitStderr => 10,
        AttachStep::InstallInput => 11,
        AttachStep::InstallStdout => 12,
        AttachStep::InstallStderr => 13,
        AttachStep::SendReady => 14,
        AttachStep::Attached => 15,
        AttachStep::Failed => 16,
    }
}

/// The channel is tried out only where it has to carry packets.
pub open spec fn attach_takes(step: AttachStep, packet: bool) -> bool {
    match step {
        AttachStep::CheckPackets => packet,
        _ => true,
    }
}

/// A worker that takes over a channel: it proves itself by its token, receives three descriptors,
/// installs them, and only then says that it is ready.
pub struct Attachment {
    /// Whether the channel has to carry packets.
    pub packet: bool,
    pub step: AttachStep,
    pub error: String,
    /// The steps that succeeded, in order.
    pub log: Ghost<Seq<AttachStep>>,
}

pub open spec fn attach_stops(before: Attachment, after: Attachment, text: Seq<char>) -> bool {
    after == (Attachment { step: AttachStep::Failed, error: after.error, ..before })
        && after.error@ == text
}

pub open spec fn attach_moves(before: Attachment, after: Attachment, next: AttachStep) -> bool {
    after == (Attachment { step: next, log: Ghost(before.log@.push(before.step)), ..before })
}

/// Begins to take over a channel under an account, which must carry packets where `packet` says so.
pub fn attach(uid: u32, packet: bool) -> (r: Result<Attachment, String>)
    ensures
        match r {
            Ok(a) => uid != 0 && a.wf() && a.packet == packet && a.step == AttachStep::Restrict
                && a.log@ == seq![AttachStep::CheckAccount],
            Err(e) => uid == 0 && e@
                == "Receive container worker channels under an unprivileged account"@,
        },
{
    let mut attachment = Attachment::begin(packet);
    attachment.account(uid);
    match attachment.step {
        AttachStep::Failed => Err(attachment.error),
        _ => {
            assert(attachment.log@ =~= seq![AttachStep::CheckAccount]);
            Ok(attachment)
        },
    }
}

impl Attachment {
    /// Every step taken before the present one succeeded.
    pub open spec fn wf(self) -> bool {
        self.step != AttachStep::Failed ==> forall|s: AttachStep|
            attach_rank(s) < attach_rank(self.step) && attach_takes(s, self.packet)
                ==> #[trigger] self.log@.contains(s)
    }

    pub fn begin(packet: bool) -> (r: Attachment)
        ensures
            r.wf(),
            r.packet == packet,
            r.step == AttachStep::CheckAccount,
            r.log@ == Seq::<AttachStep>::empty(),
    {
        Attachment {
            packet,
            step: AttachStep::CheckAccount,
            error: String::new(),
            log: Ghost(Seq::empty()),
        }
    }

    fn advance(&mut self, next: AttachStep)
        requires
            (Attachment {
                step: next,
                log: Ghost(old(self).log@.push(old(self).step)),
                ..*old(self)
            }).wf(),
        ensures
            final(self).wf(),
            attach_moves(*old(self), *final(self), next),
    {
        self.log = Ghost(self.log@.push(self.step));
        self.step = next;
    }

    /// A step could not be done.
    pub fn failed(&mut self, reason: &str)
        ensures
            final(self).wf(),
            attach_stops(*old(self), *final(self), reason@),
    {
        self.step = AttachStep::Failed;
        self.error = reason.to_owned();
    }

    /// The account of this process was looked up.
    pub fn account(&mut self, uid: u32)
        requires
            old(self).wf(),
            old(self).step == AttachStep::CheckAccount,
        ensures
            final(self).wf(),
            match if uid != 0 {
                None::<Seq<char>>
            } else {
                Some("Receive container worker channels under an unprivileged account"@)
            } {
                Some(e) => attach_stops(*old(self), *final(self), e),
                None => attach_moves(*old(self), *final(self), AttachStep::Restrict),
            },
    {
        match check_worker(uid) {
            Err(e) => {
                self.failed(e.as_str());
            },
            Ok(_) => {
                proof {
                    push_holds(self.log@, self.step);
                }
                self.advance(AttachStep::Restrict);
            },
        }
    }

    /// The worker gave up gaining privileges.
    pub fn restricted(&mut self, result: &Result<(), String>)
        requires
            old(self).wf(),
            old(self).step == AttachStep::Restrict,
        ensures
            final(self).wf(),
            match prefixed("Cannot restrict container worker privileges: "@, *result) {
                Some(e) => attach_stops(*old(self), *final(self), e),
                None => attach_moves(*old(self), *final(self), AttachStep::CheckDirectory),
            },
    {
        match prefix("Cannot restrict container worker privileges: ", result) {
            Err(e) => {
                self.failed(e.as_str());
            },
            Ok(_) => {
                proof {
                    push_holds(self.log@, self.step);
                }
                self.advance(AttachStep::CheckDirectory);
            },
        }
    }

    /// The directory of the channel was looked at, without following links.
    pub fn directory(&mut self, p: &str, m: &Metadata, uid: u32)
        requires
            old(self).wf(),
            old(self).step == AttachStep::CheckDirectory,
        ensures
            final(self).wf(),
            match if is_private(p@, *m, uid) {
                None::<Seq<char>>
            } else {
                Some(
                    "Container transfer requires a private runtime directory owned by this account"@,
                )
            } {
                Some(e) => attach_stops(*old(self), *final(self), e),
                None => attach_moves(*old(self), *final(self), AttachStep::CheckToken),
            },
    {
        match private_directory(p, m, uid) {
            Err(e) => {
                self.failed(e.as_str());
            },
            Ok(_) => {
                proof {
                    push_holds(self.log@, self.step);
                }
                self.advance(AttachStep::CheckToken);
            },
        }
    }

    /// The form of the token was checked.
    pub fn token(&mut self, valid: Result<(), String>)
        requires
            old(self).wf(),
            old(self).step == AttachStep::CheckToken,
        ensures
            final(self).wf(),
            match complaint(valid) {
                Some(e) => attach_stops(*old(self), *final(self), e),
                None => attach_moves(*old(self), *final(self), AttachStep::Connect),
            },
    {
        match valid {
            Err(e) => {
                self.failed(e.as_str());
            },
            Ok(_) => {
                proof {
                    push_holds(self.log@, self.step);
                }
                self.advance(AttachStep::Connect);
            },
        }
    }

    /// The worker connected to the channel.
    pub fn connected(&mut self, result: &Result<(), String>)
        requires
            old(self).wf(),
            old(self).step == AttachStep::Connect,
        ensures
            final(self).wf(),
            match prefixed("Connecting container channel: "@, *result) {
                Some(e) => attach_stops(*old(self), *final(self), e),
                None => attach_moves(*old(self), *final(self), AttachStep::VerifyPeer),
            },
    {
        match prefix("Connecting container channel: ", result) {
            Err(e) => {
                self.failed(e.as_str());
            },
            Ok(_) => {
                proof {
                    push_holds(self.log@, self.step);
                }
                self.advance(AttachStep::VerifyPeer);
            },
        }
    }

    /// The credentials of the other side were read, where they could be.
    pub fn peer(&mut self, known: bool, peer_uid: u32, peer_pid: i32, uid: u32)
        requires
            old(self).wf(),
            old(self).step == AttachStep::VerifyPeer,
        ensures
            final(self).wf(),
            match if known && peer_uid == uid && peer_pid > 0 {
                None::<Seq<char>>
            } else {
                Some("Container transfer peer belongs to another account or an invisible process"@)
            } {
                Some(e) => attach_stops(*old(self), *final(self), e),
                None => attach_moves(*old(self), *final(self), AttachStep::SendHello),
            },
    {
        match verify_peer(known, peer_uid, peer_pid, uid) {
            Err(e) => {
                self.failed(e.as_str());
            },
            Ok(_) => {
                proof {
                    push_holds(self.log@, self.step);
                }
                self.advance(AttachStep::SendHello);
            },
        }
    }

    /// The token was sent.
    pub fn greeted(&mut self)
        requires
            old(self).wf(),
            old(self).step == AttachStep::SendHello,
        ensures
            final(self).wf(),
            attach_moves(*old(self), *final(self), AttachStep::AwaitChannel),
    {
        proof {
            push_holds(self.log@, self.step);
        }
        self.advance(AttachStep::AwaitChannel);
    }

    /// The first descriptor arrived.
    pub fn channel(&mut self, message: &Message, descriptor: bool)
        requires
            old(self).wf(),
            old(self).step == AttachStep::AwaitChannel,
        ensures
            final(self).wf(),
            match received_complaint(Expected::Channel, *message, descriptor) {
                Some(e) => attach_stops(*old(self), *final(self), e),
                None => attach_moves(
                    *old(self),
                    *final(self),
                    if old(self).packet {
                        AttachStep::CheckPackets
                    } else {
                        AttachStep::AwaitStdout
                    },
                ),
            },
    {
        match receive(Expected::Channel, message, descriptor) {
            Err(e) => {
                self.failed(e.as_str());
            },
            Ok(_) => {
                proof {
                    push_holds(self.log@, self.step);
                }
                if self.packet {
                    self.advance(AttachStep::CheckPackets);
                } else {
                    self.advance(AttachStep::AwaitStdout);
                }
            },
        }
    }

    /// The channel can carry packets.
    pub fn packets(&mut self)
        requires
            old(self).wf(),
            old(self).step == AttachStep::CheckPackets,
        ensures
            final(self).wf(),
            attach_moves(*old(self), *final(self), AttachStep::AwaitStdout),
    {
        proof {
            push_holds(self.log@, self.step);
        }
        self.advance(AttachStep::AwaitStdout);
    }

    /// The second descriptor arrived.
    pub fn stdout(&mut self, message: &Message, descriptor: bool)
        requires
            old(self).wf(),
            old(self).step == AttachStep::AwaitStdout,
        ensures
            final(self).wf(),
            match received_complaint(Expected::Stdout, *message, descriptor) {
                Some(e) => attach_stops(*old(self), *final(self), e),
                None => attach_moves(*old(self), *final(self), AttachStep::AwaitStderr),
            },
    {
        match receive(Expected::Stdout, message, descriptor) {
            Err(e) => {
                self.failed(e.as_str());
            },
            Ok(_) => {
                proof {
                    push_holds(self.log@, self.step);
                }
                self.advance(AttachStep::AwaitStderr);
            },
        }
    }

    /// The third descriptor arrived.
    pub fn stderr(&mut self, message: &Message, descriptor: bool)
        requires
            old(self).wf(),
            old(self).step == AttachStep::AwaitStderr,
        ensures
            final(self).wf(),
            match received_complaint(Expected::Stderr, *message, descriptor) {
                Some(e) => attach_stops(*old(self), *final(self), e),
                None => attach_moves(*old(self), *final(self), AttachStep::InstallInput),
            },
    {
        match receive(Expected::Stderr, message, descriptor) {
            Err(e) => {
                self.failed(e.as_str());
            },
            Ok(_) => {
                proof {
                    push_holds(self.log@, self.step);
                }
                self.advance(AttachStep::InstallInput);
            },
        }
    }

    /// A descriptor was put in its place.
    pub fn input_installed(&mut self, result: &Installed)
        requires
            old(self).wf(),
            old(self).step == AttachStep::InstallInput,
        ensures
            final(self).wf(),
            match installed_complaint(*result) {
                Some(e) => attach_stops(*old(self), *final(self), e),
                None => attach_moves(*old(self), *final(self), AttachStep::InstallStdout),
            },
    {
        match install_descriptor(result) {
            Err(e) => {
                self.failed(e.as_str());
            },
            Ok(_) => {
                proof {
                    push_holds(self.log@, self.step);
                }
                self.advance(AttachStep::InstallStdout);
            },
        }
    }

    /// A descriptor was put in its place.
    pub fn stdout_installed(&mut self, result: &Installed)
        requires
            old(self).wf(),
            old(self).step == AttachStep::InstallStdout,
        ensures
            final(self).wf(),
            match installed_complaint(*result) {
                Some(e) => attach_stops(*old(self), *final(self), e),
                None => attach_moves(*old(self), *final(self), AttachStep::InstallStderr),
            },
    {
        match install_descriptor(result) {
            Err(e) => {
                self.failed(e.as_str());
            },
            Ok(_) => {
                proof {
                    push_holds(self.log@, self.step);
                }
                self.advance(AttachStep::InstallStderr);
            },
        }
    }

    /// A descriptor was put in its place.
    pub fn stderr_installed(&mut self, result: &Installed)
        requires
            old(self).wf(),
            old(self).step == AttachStep::InstallStderr,
        ensures
            final(self).wf(),
            match installed_complaint(*result) {
                Some(e) => attach_stops(*old(self), *final(self), e),
                None => attach_moves(*old(self), *final(self), AttachStep::SendReady),
            },
    {
        match install_descriptor(result) {
            Err(e) => {
                self.failed(e.as_str());
            },
            Ok(_) => {
                proof {
                    push_holds(self.log@, self.step);
                }
                self.advance(AttachStep::SendReady);
            },
        }
    }

    /// The worker said that it is ready.
    pub fn answered(&mut self)
        requires
            old(self).wf(),
            old(self).step == AttachStep::SendReady,
        ensures
            final(self).wf(),
            attach_moves(*old(self), *final(self), AttachStep::Attached),
    {
        proof {
            push_holds(self.log@, self.step);
        }
        self.advance(AttachStep::Attached);
    }
}

/// A worker is attached only after it gave up gaining privileges, verified the other side, and put
/// all three descriptors in their places.
pub proof fn workers_answer_when_all_is_in_place(m: Attachment)
    requires
        m.wf(),
        m.step == AttachStep::Attached,
    ensures
        m.log@.contains(AttachStep::CheckAccount),
        m.log@.contains(AttachStep::Restrict),
        m.log@.contains(AttachStep::CheckDirectory),
        m.log@.contains(AttachStep::VerifyPeer),
        m.log@.contains(AttachStep::InstallInput),
        m.log@.contains(AttachStep::InstallStdout),
        m.log@.contains(AttachStep::InstallStderr),
{
}

/// Where entering a box with a worker stands.
#[derive(Clone, Copy, Debug, PartialEq, Eq, Structural)]
pub enum EntryStep {
    /// Find the private runtime directory of this account.
    FindRuntime,
    /// Make a private directory with a socket in it, and draw the token.
    MakeBroker,
    /// Take up the packet channel that the worker shall have.
    CheckChannel,
    Compose,
    /// Start the launcher, and hand the channel over beside it.
    HandOver,
    /// Let the launcher end, or cancel it where the handoff failed.
    AwaitLauncher,
    Finished,
    Failed,
}

pub open spec fn entry_rank(step: EntryStep) -> int {
    match step {
        EntryStep::FindRuntime => 0,
        EntryStep::MakeBroker => 1,
        EntryStep::CheckChannel => 2,
        EntryStep::Compose => 3,
        EntryStep::HandOver => 4,
        EntryStep::AwaitLauncher => 5,
        EntryStep::Finished => 6,
        EntryStep::Failed => 7,
    }
}

/// Entering a box with a worker: only a permitted one, over a channel in a private directory.
pub struct Entry {
    pub uid: u32,
    pub name: String,
    pub enter: String,
    pub binaries: String,
    pub destination: Option<String>,
    pub arguments: Vec<String>,
    /// The private runtime directory.
    pub runtime: String,
    /// Where the socket lies, and the token that the worker has to show.
    pub channel: String,
    pub token: String,
    /// The arguments of the launcher.
    pub command: Vec<String>,
    /// How the handoff went.
    pub handoff: Result<(), String>,
    /// What the launcher left behind, in the end.
    pub output: Option<Output>,
    pub step: EntryStep,
    pub error: String,
    /// The steps that succeeded, in order.
    pub log: Ghost<Seq<EntryStep>>,
}

pub open spec fn entry_stops(before: Entry, after: Entry, text: Seq<char>) -> bool {
    after == (Entry { step: EntryStep::Failed, error: after.error, ..before }) && after.error@ == text
}

pub open spec fn entry_moves(before: Entry, after: Entry, next: EntryStep) -> bool {
    after == (Entry { step: next, log: Ghost(before.log@.push(before.step)), ..before })
}

impl Entry {
    /// What the worker is told of its destination.
    pub open spec fn told(self) -> Option<Seq<char>> {
        match self.destination {
            Some(d) => Some(d@),
            None => None,
        }
    }

    /// Whether the worker talks in packets.
    pub open spec fn packets(self) -> bool {
        self.arguments@.len() > 0 && is_packet_worker(self.arguments@[0]@)
    }

    /// The worker is a permitted one, every step before the present one succeeded, and the launcher
    /// is given the arguments that its entry asks for.
    pub open spec fn wf(self) -> bool {
        &&& run_complaint(
            self.uid,
            self.name@,
            self.enter@,
            self.binaries@,
            texts(self.arguments@),
        ) is None
        &&& self.step != EntryStep::Failed ==> {
            &&& forall|s: EntryStep|
                entry_rank(s) < entry_rank(self.step) && (s == EntryStep::CheckChannel
                    ==> self.packets()) ==> #[trigger] self.log@.contains(s)
            &&& entry_rank(self.step) > entry_rank(EntryStep::Compose) ==> {
                &&& told_complaint(self.told()) is None
                &&& texts(self.command@) == entry_of(
                    self.name@,
                    self.binaries@,
                    self.channel@,
                    self.token@,
                    self.told(),
                    texts(self.arguments@),
                )
            }
            &&& self.step == EntryStep::Finished ==> self.output is Some
        }
    }

    /// Begins to enter a box, where the worker is a permitted one.
    pub fn begin(
        uid: u32,
        name: String,
        enter: String,
        binaries: String,
        destination: Option<String>,
        arguments: Vec<String>,
    ) -> (r: Result<Entry, String>)
        ensures
            match (r, run_complaint(uid, name@, enter@, binaries@, texts(arguments@))) {
                (Err(e), Some(text)) => e@ == text,
                (Ok(entry), None) => {
                    &&& entry.wf()
                    &&& entry.step == EntryStep::FindRuntime
                    &&& entry.uid == uid
                    &&& entry.name == name
                    &&& entry.enter == enter
                    &&& entry.binaries == binaries
                    &&& entry.destination == destination
                    &&& entry.arguments == arguments
                    &&& entry.output is None
                    &&& entry.log@ == Seq::<EntryStep>::empty()
                },
                _ => false,
            },
    {
        check_run(uid, name.as_str(), enter.as_str(), binaries.as_str(), &arguments)?;
        Ok(
            Entry {
                uid,
                name,
                enter,
                binaries,
                destination,
                arguments,
                runtime: String::new(),
                channel: String::new(),
                token: String::new(),
                command: Vec::new(),
                handoff: Ok(()),
                output: None,
                step: EntryStep::FindRuntime,
                error: String::new(),
                log: Ghost(Seq::empty()),
            },
        )
    }

    fn advance(&mut self, next: EntryStep)
        requires
            (Entry {
                step: next,
                log: Ghost(old(self).log@.push(old(self).step)),
                ..*old(self)
            }).wf(),
        ensures
            final(self).wf(),
            entry_moves(*old(self), *final(self), next),
    {
        self.log = Ghost(self.log@.push(self.step));
        self.step = next;
    }

    /// A step could not be done.
    pub fn failed(&mut self, reason: &str)
        requires
            old(self).wf(),
        ensures
            final(self).wf(),
            entry_stops(*old(self), *final(self), reason@),
    {
        self.step = EntryStep::Failed;
        self.error = reason.to_owned();
    }

    /// The runtime directory that the environment names, and what it is.
    pub fn runtime(&mut self, named: Option<String>, found: &Result<Metadata, String>)
        requires
            old(self).wf(),
            old(self).step == EntryStep::FindRuntime,
        ensures
            final(self).wf(),
            match (named, *found) {
                (None, _) => entry_stops(
                    *old(self),
                    *final(self),
                    "Missing host user runtime directory"@,
                ),
                (Some(_), Err(e)) => entry_stops(*old(self), *final(self), e@),
                (Some(p), Ok(m)) => if is_private(p@, m, old(self).uid) {
                    entry_moves(
                        (Entry { runtime: p, ..*old(self) }),
                        *final(self),
                        EntryStep::MakeBroker,
                    )
                } else {
                    entry_stops(
                        *old(self),
                        *final(self),
                        "Container transfer requires a private runtime directory owned by this account"@,
                    )
                },
            },
    {
        match named {
            None => {
                self.failed("Missing host user runtime directory");
            },
            Some(p) => match found {
                Err(e) => {
                    self.failed(e.as_str());
                },
                Ok(m) => match private_directory(p.as_str(), m, self.uid) {
                    Err(e) => {
                        self.failed(e.as_str());
                    },
                    Ok(_) => {
                        self.runtime = p;
                        proof {
                            push_holds(self.log@, self.step);
                        }
                        self.advance(EntryStep::MakeBroker);
                    },
                },
            },
        }
    }

    /// The private directory that was made below the runtime directory, and 16 random bytes.
    pub fn broker(&mut self, directory: &str, bytes: &Vec<u8>)
        requires
            old(self).wf(),
            old(self).step == EntryStep::MakeBroker,
            bytes@.len() == 16,
        ensures
            final(self).wf(),
            final(self).channel@ == path::join_of(directory@, "channel"@),
            final(self).token@ == text::hex(bytes@),
            entry_moves(
                (Entry {
                    channel: final(self).channel,
                    token: final(self).token,
                    ..*old(self)
                }),
                *final(self),
                if old(self).packets() {
                    EntryStep::CheckChannel
                } else {
                    EntryStep::Compose
                },
            ),
    {
        self.channel = path::join(directory, "channel");
        self.token = text::format_hex(bytes);
        proof {
            push_holds(self.log@, self.step);
            assert(texts(self.arguments@).len() == self.arguments@.len());
        }
        if packet_worker(self.arguments[0].as_str()) {
            self.advance(EntryStep::CheckChannel);
        } else {
            self.advance(EntryStep::Compose);
        }
    }

    /// What came of taking up the packet channel.
    pub fn channel(&mut self, taken: &Result<(), String>)
        requires
            old(self).wf(),
            old(self).step == EntryStep::CheckChannel,
        ensures
            final(self).wf(),
            match complaint(*taken) {
                Some(e) => entry_stops(*old(self), *final(self), e),
                None => entry_moves(*old(self), *final(self), EntryStep::Compose),
            },
    {
        match taken {
            Err(e) => {
                self.failed(e.as_str());
            },
            Ok(_) => {
                proof {
                    push_holds(self.log@, self.step);
                }
                self.advance(EntryStep::Compose);
            },
        }
    }

    /// The arguments of the launcher.
    pub fn compose(&mut self)
        requires
            old(self).wf(),
            old(self).step == EntryStep::Compose,
        ensures
            final(self).wf(),
            match told_complaint(old(self).told()) {
                Some(e) => entry_stops(*old(self), *final(self), e),
                None => entry_moves(
                    (Entry { command: final(self).command, ..*old(self) }),
                    *final(self),
                    EntryStep::HandOver,
                ),
            },
    {
        let composed = run(
            self.uid,
            self.name.as_str(),
            self.enter.as_str(),
            self.binaries.as_str(),
            self.channel.as_str(),
            self.token.as_str(),
            match &self.destination {
                Some(d) => Some(d.as_str()),
                None => None,
            },
            text::copy_texts(&self.arguments),
        );
        match composed {
            Err(e) => {
                self.failed(e.as_str());
            },
            Ok(command) => {
                self.command = command;
                proof {
                    push_holds(self.log@, self.step);
                }
                self.advance(EntryStep::HandOver);
            },
        }
    }

    /// `HandOver`: the run of the launcher, as it begins.
    pub fn launching(&self) -> (r: Result<Run, String>)
        ensures
            r matches Ok(run) && run.wf() && run.timeout_ms == WORKER_MS && run.output.limit
                == MAX_OUTPUT && run.step == RunStep::CheckTime && run.output.bytes@.len() == 0
                && run.errors.bytes@.len() == 0 && !run.collected,
    {
        Run::begin(WORKER_MS, MAX_OUTPUT)
    }

    /// `HandOver`: the handoff, as it begins.
    pub fn handing(&self) -> (r: Handoff)
        ensures
            r.wf(),
            r.token@ == self.token@,
            r.step == HandoffStep::Accept,
            r.log@ == Seq::<HandoffStep>::empty(),
    {
        Handoff::begin(self.token.clone())
    }

    /// The handoff, which came to its end.
    pub fn handed(&mut self, handoff: &Handoff)
        requires
            old(self).wf(),
            old(self).step == EntryStep::HandOver,
            handoff.wf(),
            handoff.token@ == old(self).token@,
            handoff.step == HandoffStep::Done || handoff.step == HandoffStep::Failed,
        ensures
            final(self).wf(),
            entry_moves(
                (Entry { handoff: final(self).handoff, ..*old(self) }),
                *final(self),
                EntryStep::AwaitLauncher,
            ),
            outcome(final(self).handoff) == if handoff.step == HandoffStep::Done {
                Ok::<(), Seq<char>>(())
            } else {
                Err(handoff.error@)
            },
    {
        self.handoff = if let HandoffStep::Done = handoff.step {
            Ok(())
        } else {
            Err(handoff.error.clone())
        };
        proof {
            push_holds(self.log@, self.step);
        }
        self.advance(EntryStep::AwaitLauncher);
    }

    /// `AwaitLauncher`: whether the launcher is to be cancelled, because the handoff failed.
    pub fn cancels(&self) -> (r: bool)
        ensures
            r == (self.handoff is Err),
    {
        self.handoff.is_err()
    }

    /// The launcher, which ended or could not be run.
    pub fn launched(&mut self, launcher: &Result<Ran, String>)
        requires
            old(self).wf(),
            old(self).step == EntryStep::AwaitLauncher,
            ran_within(*launcher, WORKER_MS, MAX_OUTPUT),
        ensures
            final(self).wf(),
            match result_of(outcome(old(self).handoff), left_by(*launcher)) {
                Err(e) => entry_stops(*old(self), *final(self), e),
                Ok(left) => {
                    &&& entry_moves(
                        (Entry { output: final(self).output, ..*old(self) }),
                        *final(self),
                        EntryStep::Finished,
                    )
                    &&& final(self).output matches Some(output)
                    &&& (output.code, output.stdout@, output.stderr@) == left
                },
            },
    {
        let handoff = match &self.handoff {
            Ok(_) => Ok(()),
            Err(e) => Err(e.clone()),
        };
        match finish(handoff, ended(launcher)) {
            Err(e) => {
                self.failed(e.as_str());
            },
            Ok(output) => {
                self.output = Some(output);
                proof {
                    push_holds(self.log@, self.step);
                }
                self.advance(EntryStep::Finished);
            },
        }
    }
}

/// Nothing enters a box but an unprivileged account with a command that works on state, over a channel
/// in a private directory.
pub proof fn only_state_workers_enter(entry: Entry)
    requires
        entry.wf(),
        entry.step == EntryStep::HandOver || entry.step == EntryStep::AwaitLauncher || entry.step
            == EntryStep::Finished,
    ensures
        entry.uid != 0,
        entry.arguments@.len() > 0,
        is_worker_command(entry.arguments@[0]@),
        texts(entry.command@) == entry_of(
            entry.name@,
            entry.binaries@,
            entry.channel@,
            entry.token@,
            entry.told(),
            texts(entry.arguments@),
        ),
        entry.log@.contains(EntryStep::FindRuntime),
        entry.packets() ==> entry.log@.contains(EntryStep::CheckChannel),
{
    assert(texts(entry.arguments@).len() == entry.arguments@.len());
    assert(texts(entry.arguments@)[0] == entry.arguments@[0]@);
}

/// A worker may enter a box exactly under an unprivileged account, by a valid box and the paths of its
/// entry, with one to 32 short arguments, of which the first is a command that a box may run.
pub proof fn workers_enter_by_a_valid_route(
    uid: u32,
    name: Seq<char>,
    enter: Seq<char>,
    binaries: Seq<char>,
    arguments: Seq<Seq<char>>,
)
    ensures
        run_complaint(uid, name, enter, binaries, arguments) is None <==> {
            &&& uid != 0
            &&& distrobox_unit::is_name(name)
            &&& path::is_absolute(enter)
            &&& path::file_name_of(enter) == Some("distrobox-enter"@)
            &&& path::is_absolute(binaries)
            &&& 0 < arguments.len() <= 32
            &&& forall|i: int|
                0 <= i < arguments.len() ==> text::byte_len(#[trigger] arguments[i]) <= 4096
            &&& is_worker_command(arguments[0])
        },
{
}

/// A box runs exactly these commands for the host, and over packets exactly those that move state or
/// media.
pub proof fn boxes_run_only_the_commands_of_state(command: Seq<char>)
    ensures
        is_packet_worker(command) <==> command == "send-state"@ || command == "receive-state"@ || command
            == "publish-state"@ || command == "receive-selected-media"@,
        is_worker_command(command) <==> is_packet_worker(command) || command
            == "inspect-container-destination"@ || command == "inspect-container-identity"@ || command
            == "inspect-destination"@ || command == "check-saved-state"@ || command
            == "check-recovery-access"@ || command == "discard-transfer"@ || command
            == "finish-transfer"@,
{
}

/// A channel is taken exactly in a private directory of the account, by an absolute path.
pub proof fn channels_lie_in_private_directories(p: Seq<char>, m: Metadata, uid: u32)
    ensures
        is_private(p, m, uid) <==> p.len() > 0 && p[0] == '/' && m.kind == FileKind::Directory && m.uid
            == uid && m.mode & 0o077 == 0,
{
}

/// The other side is waited for as long as time remains: never longer than that, but for the last
/// millisecond, never longer than thirty seconds at once, and not at all when none remains.
pub proof fn waits_end_with_the_time(remaining_ns: u64)
    ensures
        wait_of(remaining_ns) is Err <==> remaining_ns == 0,
        wait_of(remaining_ns) is Ok ==> 1 <= wait_of(remaining_ns)->Ok_0 <= 30_000,
        wait_of(remaining_ns) is Ok && remaining_ns >= 1_000_000 ==> wait_of(remaining_ns)->Ok_0
            * 1_000_000 <= remaining_ns,
        1_000_000 <= remaining_ns < 30_000_000_000 ==> remaining_ns - wait_of(remaining_ns)->Ok_0
            * 1_000_000 < 1_000_000,
{
}

/// A worker is started in its box with the channel, the token and, where it has one, its destination,
/// before its own arguments, which come last and unchanged.
pub proof fn workers_are_started_with_their_channel(
    name: Seq<char>,
    binaries: Seq<char>,
    channel: Seq<char>,
    token: Seq<char>,
    destination: Option<Seq<char>>,
    arguments: Seq<Seq<char>>,
)
    ensures
        ({
            let told = entry_of(name, binaries, channel, token, destination, arguments);
            let n = told.len() - arguments.len();
            &&& told[2] == name
            &&& told[4] == path::join_of(binaries, "lianli-control"@)
            &&& told[6] == channel
            &&& told[8] == token
            &&& destination matches Some(d) ==> n == 11 && told[10] == d
            &&& destination is None ==> n == 9
            &&& told.skip(n) == arguments
        }),
        told_complaint(destination) is None <==> destination is None || text::byte_len(destination->0)
            <= 16_384,
{
    let told = entry_of(name, binaries, channel, token, destination, arguments);
    assert(told.skip(told.len() - arguments.len()) =~= arguments);
}

/// A run succeeded exactly where the channel was handed over and the launcher came to its end. Its exit
/// code and its errors are the launcher's, and its output is empty.
pub proof fn runs_end_with_their_launcher(
    handoff: Result<(), Seq<char>>,
    launcher: Result<(Option<i32>, Seq<char>, Seq<char>), Seq<char>>,
)
    ensures
        result_of(handoff, launcher) is Ok <==> handoff is Ok && launcher is Ok,
        result_of(handoff, launcher) is Ok ==> result_of(handoff, launcher)->Ok_0.0
            == launcher->Ok_0.0 && result_of(handoff, launcher)->Ok_0.1.len() == 0 && result_of(
            handoff,
            launcher,
        )->Ok_0.2 == launcher->Ok_0.2,
{
}

/// A worker takes exactly what is due, with its descriptor.
pub proof fn workers_take_what_is_due(expected: Expected, message: Message, descriptor: bool)
    ensures
        received_complaint(expected, message, descriptor) is None <==> descriptor && match expected {
            Expected::Channel => message is Channel,
            Expected::Stdout => message is Stdout,
            Expected::Stderr => message is Stderr,
        },
{
}

} // verus!
