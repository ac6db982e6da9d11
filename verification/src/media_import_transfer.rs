//! The transfer of selected media between two accounts: the selection first, then each file in its
//! order, then the confirmation. The receiving side never opens a source path.

use crate::container_destination::complaint;
use crate::destination::Destination;
use crate::digest;
use crate::digest::Hasher;
use crate::media_import::{
    import_directory, import_path, place_at, placed_at, Publish, PublishStep, PublishedSelection,
};
use crate::media_ownership::valid_id;
use crate::media_preparation::{Decode, DecodeStep, Prepare, PrepareStep};
use crate::media_staging::{control_complaint, CopyControl};
use crate::media_validation::AssetDependency;
use crate::path;
use crate::reservation::{
    held_complaint, operation_reserved, reserved_complaint, Held, Reservation, ReserveStep,
};
use crate::steps;
use crate::text;
use crate::text::{outcome, texts};
use vstd::prelude::*;

verus! {

/// The largest selection, in bytes.
pub const MAX_SELECTION: usize = 1_048_576;

/// What the two sides tell each other.
#[derive(Clone, Debug)]
pub enum Message {
    Selection { bytes: usize, sha256: String },
    Asset { path: String },
    Complete,
}

/// The account that reads a selection has no authority of its own.
pub fn check_reader(root: bool) -> (r: Result<(), String>)
    ensures
        complaint(r) == if root {
            Some("Read selections under the source account"@)
        } else {
            None
        },
{
    if root {
        Err("Read selections under the source account".to_owned())
    } else {
        Ok(())
    }
}

/// The size of a selection that was read.
pub fn check_size(size: usize) -> (r: Result<(), String>)
    ensures
        complaint(r) == if size <= MAX_SELECTION {
            None
        } else {
            Some("Selection input exceeds 1 MiB"@)
        },
{
    if size <= MAX_SELECTION {
        Ok(())
    } else {
        Err("Selection input exceeds 1 MiB".to_owned())
    }
}

/// The account that opens the sources has no authority of its own.
pub fn check_sender(root: bool) -> (r: Result<(), String>)
    ensures
        complaint(r) == if root {
            Some("Open selected sources under an unprivileged source account"@)
        } else {
            None
        },
{
    if root {
        Err("Open selected sources under an unprivileged source account".to_owned())
    } else {
        Ok(())
    }
}

/// The confirmation that ends a transfer. It comes without a file.
pub fn check_complete(message: &Message, descriptor: bool) -> (r: Result<(), String>)
    ensures
        complaint(r) == if *message is Complete && !descriptor {
            None
        } else {
            Some("Selection transfer did not complete"@)
        },
{
    let complete = match message {
        Message::Complete => true,
        _ => false,
    };
    if complete && !descriptor {
        Ok(())
    } else {
        Err("Selection transfer did not complete".to_owned())
    }
}

/// What the receiving side of a transfer does next.
#[derive(Clone, Copy, Debug, PartialEq, Eq, Structural)]
pub enum ReceiveStep {
    CheckFirst,
    Selection,
    /// Read the selection, list its files and make their stage.
    Choose,
    CheckAsset,
    Asset,
    /// Copy what came, and make the stage durable.
    AwaitCopies,
    CheckLast,
    Confirm,
    Received,
    Failed,
}

/// The receiving side of a transfer.
pub struct Receiver {
    pub step: ReceiveStep,
    /// The size and checksum of the selection.
    pub bytes: usize,
    pub sha256: String,
    /// Where the copies will be published.
    pub destination: String,
    /// The source paths of the selection, in their order.
    pub paths: Vec<String>,
    /// How many of them were received.
    pub received: usize,
    /// Whether a file could not be received.
    pub refused: bool,
    pub error: String,
}

pub open spec fn stops(before: Receiver, after: Receiver, text: Seq<char>) -> bool {
    after == (Receiver { step: ReceiveStep::Failed, error: after.error, ..before })
        && after.error@ == text
}

/// The paths of files, in their order.
pub open spec fn paths_of(dependencies: Seq<AssetDependency>) -> Seq<Seq<char>> {
    dependencies.map_values(|d: AssetDependency| d.path@)
}

fn list_paths(dependencies: &Vec<AssetDependency>) -> (r: Vec<String>)
    ensures
        texts(r@) == paths_of(dependencies@),
{
    let mut r: Vec<String> = Vec::new();
    let mut i: usize = 0;
    assert(texts(r@) =~= paths_of(dependencies@).take(0));
    while i < dependencies.len()
        invariant
            i <= dependencies@.len(),
            texts(r@) == paths_of(dependencies@).take(i as int),
        decreases dependencies@.len() - i,
    {
        proof {
            text::texts_push(r@, dependencies@[i as int].path);
        }
        r.push(dependencies[i].path.clone());
        i += 1;
        assert(paths_of(dependencies@).take(i as int) =~= paths_of(dependencies@).take(i - 1).push(
            dependencies@[i - 1].path@,
        ));
    }
    assert(paths_of(dependencies@).take(i as int) =~= paths_of(dependencies@));
    r
}

/// What follows when so many of the files were received.
pub open spec fn next_asset(received: int, count: int) -> ReceiveStep {
    if received < count {
        ReceiveStep::CheckAsset
    } else {
        ReceiveStep::AwaitCopies
    }
}

pub open spec fn selection_complaint(message: Message, descriptor: bool) -> Option<Seq<char>> {
    match message {
        Message::Selection { bytes, sha256 } => if !(bytes <= MAX_SELECTION && text::byte_len(
            sha256@,
        ) == 64) {
            Some("Invalid media selection size or checksum"@)
        } else if !descriptor {
            Some("Selection descriptor missing"@)
        } else {
            None
        },
        _ => Some("Expected a sealed media selection"@),
    }
}

pub open spec fn asset_complaint(message: Message, descriptor: bool, expected: Seq<char>) -> Option<
    Seq<char>,
> {
    if !(message matches Message::Asset { path } && path::same_path(path@, expected)) {
        Some("Unexpected media descriptor order or path"@)
    } else if !descriptor {
        Some("Media descriptor missing"@)
    } else {
        None
    }
}

impl Receiver {
    /// All files were received and copied before the transfer is confirmed.
    pub open spec fn wf(self) -> bool {
        &&& self.received <= self.paths@.len()
        &&& match self.step {
            ReceiveStep::CheckAsset | ReceiveStep::Asset => self.received < self.paths@.len()
                && !self.refused,
            ReceiveStep::AwaitCopies => self.refused || self.received == self.paths@.len(),
            ReceiveStep::CheckLast | ReceiveStep::Confirm | ReceiveStep::Received => self.received
                == self.paths@.len() && !self.refused,
            ReceiveStep::Failed => true,
            _ => self.received == 0 && !self.refused,
        }
    }

    /// The receiving account has no authority of its own.
    pub fn begin(root: bool) -> (r: Result<Receiver, String>)
        ensures
            match r {
                Ok(receiver) => !root && receiver.wf() && receiver.step == ReceiveStep::CheckFirst
                    && receiver.bytes == 0 && receiver.sha256@.len() == 0
                    && receiver.destination@.len() == 0 && receiver.paths@.len() == 0
                    && receiver.received == 0 && !receiver.refused,
                Err(e) => root && e@
                    == "Copy selected media under its unprivileged destination account"@,
            },
    {
        if root {
            return Err(
                "Copy selected media under its unprivileged destination account".to_owned(),
            );
        }
        Ok(
            Receiver {
                step: ReceiveStep::CheckFirst,
                bytes: 0,
                sha256: String::new(),
                destination: String::new(),
                paths: Vec::new(),
                received: 0,
                refused: false,
                error: String::new(),
            },
        )
    }

    /// A step could not be done.
    pub fn failed(&mut self, reason: &str)
        requires
            old(self).wf(),
        ensures
            final(self).wf(),
            stops(*old(self), *final(self), reason@),
    {
        self.step = ReceiveStep::Failed;
        self.error = reason.to_owned();
    }

    /// `CheckFirst` and `CheckLast`: the transfer may go on.
    pub fn control(&mut self, control: &CopyControl, elapsed_ms: u64)
        requires
            old(self).wf(),
            old(self).step == ReceiveStep::CheckFirst || old(self).step == ReceiveStep::CheckLast,
        ensures
            final(self).wf(),
            match control_complaint(*control, elapsed_ms) {
                Some(e) => stops(*old(self), *final(self), e),
                None => *final(self) == (Receiver {
                    step: if old(self).step == ReceiveStep::CheckFirst {
                        ReceiveStep::Selection
                    } else {
                        ReceiveStep::Confirm
                    },
                    ..*old(self)
                }),
            },
    {
        match control.check(elapsed_ms) {
            Err(e) => {
                self.failed(e.as_str());
            },
            Ok(_) => {
                self.step = if let ReceiveStep::CheckFirst = self.step {
                    ReceiveStep::Selection
                } else {
                    ReceiveStep::Confirm
                };
            },
        }
    }

    /// The first message, which must announce the selection.
    pub fn selection(&mut self, message: &Message, descriptor: bool)
        requires
            old(self).wf(),
            old(self).step == ReceiveStep::Selection,
        ensures
            final(self).wf(),
            match selection_complaint(*message, descriptor) {
                Some(e) => stops(*old(self), *final(self), e),
                None => *final(self) == (Receiver {
                    step: ReceiveStep::Choose,
                    bytes: message->bytes,
                    sha256: message->sha256,
                    ..*old(self)
                }),
            },
    {
        match message {
            Message::Selection { bytes, sha256 } => {
                if !(*bytes <= MAX_SELECTION && text::len(sha256.as_str()) == 64) {
                    self.failed("Invalid media selection size or checksum");
                } else if !descriptor {
                    self.failed("Selection descriptor missing");
                } else {
                    self.bytes = *bytes;
                    self.sha256 = sha256.clone();
                    self.step = ReceiveStep::Choose;
                }
            },
            _ => {
                self.failed("Expected a sealed media selection");
            },
        }
    }

    /// `Choose`: the preparation of the selection, when its stage is made, or when it failed.
    pub fn chosen(&mut self, prepare: &Prepare)
        requires
            old(self).wf(),
            old(self).step == ReceiveStep::Choose,
            prepare.wf(),
            prepare.step == PrepareStep::Failed || (prepare.at == 0 && (prepare.step
                == PrepareStep::CheckAsset || prepare.step == PrepareStep::CheckCopied)),
        ensures
            final(self).wf(),
            if prepare.step == PrepareStep::Failed {
                stops(*old(self), *final(self), prepare.error@)
            } else {
                &&& *final(self) == (Receiver {
                    step: next_asset(0, prepare.dependencies@.len() as int),
                    destination: final(self).destination,
                    paths: final(self).paths,
                    ..*old(self)
                })
                &&& final(self).destination@ == prepare.destination@
                &&& texts(final(self).paths@) == paths_of(prepare.dependencies@)
            },
    {
        if let PrepareStep::Failed = prepare.step {
            self.failed(prepare.error.as_str());
            return;
        }
        self.destination = prepare.destination.clone();
        self.paths = list_paths(&prepare.dependencies);
        assert(texts(self.paths@).len() == paths_of(prepare.dependencies@).len());
        self.step = if self.paths.len() > 0 {
            ReceiveStep::CheckAsset
        } else {
            ReceiveStep::AwaitCopies
        };
    }

    /// `CheckAsset`: the transfer may go on. Otherwise the file could not be opened, for the reason
    /// returned.
    pub fn asset_control(&mut self, control: &CopyControl, elapsed_ms: u64) -> (r: Result<
        (),
        String,
    >)
        requires
            old(self).wf(),
            old(self).step == ReceiveStep::CheckAsset,
        ensures
            final(self).wf(),
            match control_complaint(*control, elapsed_ms) {
                Some(e) => outcome(r) == Err::<(), Seq<char>>(e) && *final(self) == (Receiver {
                    step: ReceiveStep::AwaitCopies,
                    refused: true,
                    ..*old(self)
                }),
                None => r is Ok && *final(self) == (Receiver {
                    step: ReceiveStep::Asset,
                    ..*old(self)
                }),
            },
    {
        match control.check(elapsed_ms) {
            Err(e) => {
                self.refused = true;
                self.step = ReceiveStep::AwaitCopies;
                Err(e)
            },
            Ok(_) => {
                self.step = ReceiveStep::Asset;
                Ok(())
            },
        }
    }

    /// `Asset`: a file, which must be the next one. Otherwise it could not be opened, for the reason
    /// returned.
    pub fn asset(&mut self, message: &Message, descriptor: bool) -> (r: Result<(), String>)
        requires
            old(self).wf(),
            old(self).step == ReceiveStep::Asset,
        ensures
            final(self).wf(),
            match asset_complaint(
                *message,
                descriptor,
                old(self).paths@[old(self).received as int]@,
            ) {
                Some(e) => outcome(r) == Err::<(), Seq<char>>(e) && *final(self) == (Receiver {
                    step: ReceiveStep::AwaitCopies,
                    refused: true,
                    ..*old(self)
                }),
                None => r is Ok && *final(self) == (Receiver {
                    step: next_asset(old(self).received + 1, old(self).paths@.len() as int),
                    received: (old(self).received + 1) as usize,
                    ..*old(self)
                }),
            },
    {
        let expected = match message {
            Message::Asset { path } => path::same(
                path.as_str(),
                self.paths[self.received].as_str(),
            ),
            _ => false,
        };
        if !expected || !descriptor {
            self.refused = true;
            self.step = ReceiveStep::AwaitCopies;
            if !expected {
                Err("Unexpected media descriptor order or path".to_owned())
            } else {
                Err("Media descriptor missing".to_owned())
            }
        } else {
            let n: usize = self.paths.len();
            self.received = self.received + 1;
            self.step = if self.received < n {
                ReceiveStep::CheckAsset
            } else {
                ReceiveStep::AwaitCopies
            };
            Ok(())
        }
    }

    /// The preparation of the selection, which came to its end. It may fail while files are still to
    /// come, and does where one could not be opened.
    pub fn prepared(&mut self, prepare: &Prepare)
        requires
            old(self).wf(),
            old(self).step == ReceiveStep::AwaitCopies || (old(self).step
                == ReceiveStep::CheckAsset && prepare.step == PrepareStep::Failed),
            prepare.wf(),
            prepare.step == PrepareStep::Prepared || prepare.step == PrepareStep::Failed,
            prepare.destination@ == old(self).destination@,
            paths_of(prepare.dependencies@) == texts(old(self).paths@),
            old(self).refused ==> prepare.step == PrepareStep::Failed,
        ensures
            final(self).wf(),
            if prepare.step == PrepareStep::Prepared {
                *final(self) == (Receiver { step: ReceiveStep::CheckLast, ..*old(self) })
            } else {
                stops(*old(self), *final(self), prepare.error@)
            },
    {
        if let PrepareStep::Prepared = prepare.step {
            self.step = ReceiveStep::CheckLast;
        } else {
            self.failed(prepare.error.as_str());
        }
    }

    /// The transfer was confirmed to the other side.
    pub fn confirmed(&mut self)
        requires
            old(self).wf(),
            old(self).step == ReceiveStep::Confirm,
        ensures
            final(self).wf(),
            *final(self) == (Receiver { step: ReceiveStep::Received, ..*old(self) }),
    {
        self.step = ReceiveStep::Received;
    }
}

pub open spec fn destination_complaint(destination: Destination, expected: Seq<char>) -> Option<
    Seq<char>,
> {
    if !path::same_path(destination.config_path@, expected) {
        Some("Managed import destination differs from the reviewed configuration path"@)
    } else if path::parent_of(destination.config_path@) is None {
        Some("Destination state directory missing"@)
    } else {
        None
    }
}

/// Whether an import may be received at a destination that was inspected.
pub fn check_destination(destination: &Destination, expected: &str) -> (r: Result<(), String>)
    ensures
        complaint(r) == destination_complaint(*destination, expected@),
{
    if !path::same(destination.config_path.as_str(), expected) {
        return Err(
            "Managed import destination differs from the reviewed configuration path".to_owned(),
        );
    }
    if path::parent(destination.config_path.as_str()).is_none() {
        return Err("Destination state directory missing".to_owned());
    }
    Ok(())
}

/// The same destination: account, configuration, groups and mount namespace.
pub open spec fn is_unchanged(before: Destination, now: Destination) -> bool {
    &&& now.uid == before.uid
    &&& path::same_path(now.config_path@, before.config_path@)
    &&& now.groups_fingerprint@ == before.groups_fingerprint@
    &&& now.mount_namespace@ == before.mount_namespace@
}

/// Whether the destination is still the one for which the media were prepared.
pub fn check_unchanged(before: &Destination, now: &Destination) -> (r: Result<(), String>)
    ensures
        complaint(r) == if is_unchanged(*before, *now) {
            None
        } else {
            Some("Managed import destination changed after preparation"@)
        },
{
    if now.uid == before.uid && path::same(now.config_path.as_str(), before.config_path.as_str())
        && text::eq(now.groups_fingerprint.as_str(), before.groups_fingerprint.as_str())
        && now.mount_namespace.same(&before.mount_namespace) {
        Ok(())
    } else {
        Err("Managed import destination changed after preparation".to_owned())
    }
}

/// A transfer is confirmed only after every file of the selection was received and none was refused.
pub proof fn confirmed_transfers_are_complete(receiver: Receiver)
    requires
        receiver.wf(),
        receiver.step == ReceiveStep::Confirm || receiver.step == ReceiveStep::Received,
    ensures
        receiver.received == receiver.paths@.len(),
        !receiver.refused,
{
}

/// What is told of a selection whose text takes these bytes.
pub fn selection_message(bytes: &Vec<u8>) -> (r: Message)
    ensures
        r matches Message::Selection { bytes: size, sha256 } && size == bytes@.len() && sha256@
            == digest::fingerprint(bytes@),
{
    let mut hasher = Hasher::new();
    hasher.update(bytes.as_slice());
    assert(Seq::<u8>::empty() + bytes@ =~= bytes@);
    Message::Selection { bytes: bytes.len(), sha256: hasher.finish() }
}

proof fn hex_is_ascii(c: char)
    requires
        text::is_hex(c),
    ensures
        '\0' <= c <= '\u{7f}',
{
}

/// A selection that is announced with a sealed descriptor and is not too large is accepted by the
/// other side.
pub proof fn announced_selections_are_accepted(message: Message, bytes: Seq<u8>)
    requires
        message matches Message::Selection { bytes: size, sha256 } && size == bytes.len() && sha256@
            == digest::fingerprint(bytes) && text::hex_of_len(sha256@, 64),
        bytes.len() <= MAX_SELECTION,
    ensures
        selection_complaint(message, true) is None,
{
    let sum = message->sha256@;
    assert forall|i: int| 0 <= i < sum.len() implies '\0' <= #[trigger] sum[i] <= '\u{7f}' by {
        hex_is_ascii(sum[i]);
    }
    assert(vstd::utf8::is_ascii_chars(sum));
    vstd::utf8::is_ascii_chars_encode_utf8(sum);
}

/// Where the sending side of a transfer stands.
#[derive(Clone, Copy, Debug, PartialEq, Eq, Structural)]
pub enum SendStep {
    CheckAccount,
    CheckControl,
    ListSources,
    SendSelection,
    CheckSource,
    SendSource,
    AwaitComplete,
    CheckLast,
    Sent,
    Failed,
}

pub open spec fn send_rank(step: SendStep) -> int {
    match step {
        SendStep::CheckAccount => 0,
        SendStep::CheckControl => 1,
        SendStep::ListSources => 2,
        SendStep::SendSelection => 3,
        SendStep::CheckSource => 4,
        SendStep::SendSource => 5,
        SendStep::AwaitComplete => 6,
        SendStep::CheckLast => 7,
        SendStep::Sent => 8,
        SendStep::Failed => 9,
    }
}

/// Sources are sent only where the selection has any.
pub open spec fn send_takes(step: SendStep, sources: int) -> bool {
    match step {
        SendStep::CheckSource | SendStep::SendSource => sources > 0,
        _ => true,
    }
}

/// The sending side of a transfer: the selection first, then each source in its order.
pub struct Sender {
    /// The sources of the selection, in their order, once they are known.
    pub sources: Vec<AssetDependency>,
    /// How many of them were sent.
    pub sent: usize,
    pub step: SendStep,
    pub error: String,
    /// The steps that succeeded, in order.
    pub log: Ghost<Seq<SendStep>>,
}

pub open spec fn send_stops(before: Sender, after: Sender, text: Seq<char>) -> bool {
    after == (Sender { step: SendStep::Failed, error: after.error, ..before })
        && after.error@ == text
}

pub open spec fn send_moves(before: Sender, after: Sender, next: SendStep) -> bool {
    after == (Sender { step: next, log: Ghost(before.log@.push(before.step)), ..before })
}

impl Sender {
    /// Every step taken before the present one succeeded.
    pub open spec fn wf(self) -> bool {
        self.step != SendStep::Failed ==> {
            &&& forall|s: SendStep|
                send_rank(s) < send_rank(self.step) && send_takes(s, self.sources@.len() as int)
                    ==> #[trigger] self.log@.contains(s)
            &&& self.sent <= self.sources@.len()
            &&& self.step == SendStep::CheckSource || self.step == SendStep::SendSource ==> self.sent
                < self.sources@.len()
            &&& send_rank(self.step) < 4 ==> self.sent == 0
            &&& send_rank(self.step) > 5 ==> self.sent == self.sources@.len()
        }
    }

    pub fn begin() -> (r: Sender)
        ensures
            r.wf(),
            r.step == SendStep::CheckAccount,
            r.log@ == Seq::<SendStep>::empty(),
            r.sources@.len() == 0,
            r.sent == 0,
    {
        Sender {
            sources: Vec::new(),
            sent: 0,
            step: SendStep::CheckAccount,
            error: String::new(),
            log: Ghost(Seq::empty()),
        }
    }

    fn advance(&mut self, next: SendStep)
        requires
            (Sender {
                step: next,
                log: Ghost(old(self).log@.push(old(self).step)),
                ..*old(self)
            }).wf(),
        ensures
            final(self).wf(),
            send_moves(*old(self), *final(self), next),
    {
        self.log = Ghost(self.log@.push(self.step));
        self.step = next;
    }

    /// A step could not be done.
    pub fn failed(&mut self, reason: &str)
        ensures
            final(self).wf(),
            send_stops(*old(self), *final(self), reason@),
    {
        self.step = SendStep::Failed;
        self.error = reason.to_owned();
    }

    /// Sources are opened without authority.
    pub fn account(&mut self, root: bool)
        requires
            old(self).wf(),
            old(self).step == SendStep::CheckAccount,
        ensures
            final(self).wf(),
            match if root {
                Some("Open selected sources under an unprivileged source account"@)
            } else {
                None::<Seq<char>>
            } {
                Some(e) => send_stops(*old(self), *final(self), e),
                None => send_moves(*old(self), *final(self), SendStep::CheckControl),
            },
    {
        match check_sender(root) {
            Err(e) => {
                self.failed(e.as_str());
            },
            Ok(_) => {
                proof {
                    steps::push_holds(self.log@, self.step);
                }
                self.advance(SendStep::CheckControl);
            },
        }
    }

    /// The transfer may go on.
    pub fn control(&mut self, control: &CopyControl, elapsed_ms: u64)
        requires
            old(self).wf(),
            old(self).step == SendStep::CheckControl,
        ensures
            final(self).wf(),
            match control_complaint(*control, elapsed_ms) {
                Some(e) => send_stops(*old(self), *final(self), e),
                None => send_moves(*old(self), *final(self), SendStep::ListSources),
            },
    {
        match control.check(elapsed_ms) {
            Err(e) => {
                self.failed(e.as_str());
            },
            Ok(_) => {
                proof {
                    steps::push_holds(self.log@, self.step);
                }
                self.advance(SendStep::ListSources);
            },
        }
    }

    /// What the selection refers to was listed, where it could be.
    pub fn listed(&mut self, sources: Result<Vec<AssetDependency>, String>)
        requires
            old(self).wf(),
            old(self).step == SendStep::ListSources,
        ensures
            final(self).wf(),
            match sources {
                Err(e) => send_stops(*old(self), *final(self), e@),
                Ok(sources) => *final(self) == (Sender {
                    sources,
                    step: SendStep::SendSelection,
                    log: Ghost(old(self).log@.push(old(self).step)),
                    ..*old(self)
                }),
            },
    {
        match sources {
            Err(e) => {
                self.failed(e.as_str());
            },
            Ok(sources) => {
                self.sources = sources;
                proof {
                    steps::push_holds(self.log@, self.step);
                }
                self.advance(SendStep::SendSelection);
            },
        }
    }

    /// The selection was sent, sealed and with its checksum.
    pub fn selection(&mut self)
        requires
            old(self).wf(),
            old(self).step == SendStep::SendSelection,
        ensures
            final(self).wf(),
            send_moves(
                *old(self),
                *final(self),
                if old(self).sources@.len() > 0 {
                    SendStep::CheckSource
                } else {
                    SendStep::AwaitComplete
                },
            ),
    {
        proof {
            steps::push_holds(self.log@, self.step);
        }
        if self.sources.len() > 0 {
            self.advance(SendStep::CheckSource);
        } else {
            self.advance(SendStep::AwaitComplete);
        }
    }

    /// The transfer may go on.
    pub fn source_control(&mut self, control: &CopyControl, elapsed_ms: u64)
        requires
            old(self).wf(),
            old(self).step == SendStep::CheckSource,
        ensures
            final(self).wf(),
            match control_complaint(*control, elapsed_ms) {
                Some(e) => send_stops(*old(self), *final(self), e),
                None => send_moves(*old(self), *final(self), SendStep::SendSource),
            },
    {
        match control.check(elapsed_ms) {
            Err(e) => {
                self.failed(e.as_str());
            },
            Ok(_) => {
                proof {
                    steps::push_holds(self.log@, self.step);
                }
                self.advance(SendStep::SendSource);
            },
        }
    }

    /// What is told of the next source.
    pub fn source_message(&self) -> (r: Message)
        requires
            self.wf(),
            self.step == SendStep::SendSource,
        ensures
            r matches Message::Asset { path } && path@ == self.sources@[self.sent as int].path@,
    {
        Message::Asset { path: self.sources[self.sent].path.clone() }
    }

    /// The next source was opened and sent, or could not be opened for what refers to it.
    pub fn source(&mut self, opened: &Result<(), String>)
        requires
            old(self).wf(),
            old(self).step == SendStep::SendSource,
        ensures
            final(self).wf(),
            match *opened {
                Err(e) => send_stops(
                    *old(self),
                    *final(self),
                    "Opening selected source for "@ + old(self).sources@[old(
                        self,
                    ).sent as int].owner@ + ": "@ + e@,
                ),
                Ok(_) => *final(self) == (Sender {
                    sent: (old(self).sent + 1) as usize,
                    step: if old(self).sent + 1 < old(self).sources@.len() {
                        SendStep::CheckSource
                    } else {
                        SendStep::AwaitComplete
                    },
                    log: Ghost(old(self).log@.push(old(self).step)),
                    ..*old(self)
                }),
            },
    {
        match opened {
            Err(e) => {
                let mut whole = "Opening selected source for ".to_owned();
                whole.append(self.sources[self.sent].owner.as_str());
                whole.append(": ");
                whole.append(e.as_str());
                self.failed(whole.as_str());
            },
            Ok(_) => {
                proof {
                    steps::push_holds(self.log@, self.step);
                }
                let count: usize = self.sources.len();
                self.sent = self.sent + 1;
                if self.sent < count {
                    self.advance(SendStep::CheckSource);
                } else {
                    self.advance(SendStep::AwaitComplete);
                }
            },
        }
    }

    /// The receiving side answered.
    pub fn completed(&mut self, message: &Message, descriptor: bool)
        requires
            old(self).wf(),
            old(self).step == SendStep::AwaitComplete,
        ensures
            final(self).wf(),
            match if *message is Complete && !descriptor {
                None::<Seq<char>>
            } else {
                Some("Selection transfer did not complete"@)
            } {
                Some(e) => send_stops(*old(self), *final(self), e),
                None => send_moves(*old(self), *final(self), SendStep::CheckLast),
            },
    {
        match check_complete(message, descriptor) {
            Err(e) => {
                self.failed(e.as_str());
            },
            Ok(_) => {
                proof {
                    steps::push_holds(self.log@, self.step);
                }
                self.advance(SendStep::CheckLast);
            },
        }
    }

    /// The transfer was not cancelled.
    pub fn last_control(&mut self, control: &CopyControl, elapsed_ms: u64)
        requires
            old(self).wf(),
            old(self).step == SendStep::CheckLast,
        ensures
            final(self).wf(),
            match control_complaint(*control, elapsed_ms) {
                Some(e) => send_stops(*old(self), *final(self), e),
                None => send_moves(*old(self), *final(self), SendStep::Sent),
            },
    {
        match control.check(elapsed_ms) {
            Err(e) => {
                self.failed(e.as_str());
            },
            Ok(_) => {
                proof {
                    steps::push_holds(self.log@, self.step);
                }
                self.advance(SendStep::Sent);
            },
        }
    }
}

/// A selection counts as sent only after every source of it was sent and the receiving side confirmed.
pub proof fn sent_selections_are_complete(m: Sender)
    requires
        m.wf(),
        m.step == SendStep::Sent,
    ensures
        m.sent == m.sources@.len(),
        m.log@.contains(SendStep::SendSelection),
        m.log@.contains(SendStep::AwaitComplete),
{
}

/// Where an import that arrives stands.
#[derive(Clone, Copy, Debug, PartialEq, Eq, Structural)]
pub enum ArrivalStep {
    VerifyWorker,
    Inspect,
    Receive,
    Validate,
    Lock,
    InspectAgain,
    Publish,
    Published,
    Failed,
}

pub open spec fn arrive_rank(step: ArrivalStep) -> int {
    match step {
        ArrivalStep::VerifyWorker => 0,
        ArrivalStep::Inspect => 1,
        ArrivalStep::Receive => 2,
        ArrivalStep::Validate => 3,
        ArrivalStep::Lock => 4,
        ArrivalStep::InspectAgain => 5,
        ArrivalStep::Publish => 6,
        ArrivalStep::Published => 7,
        ArrivalStep::Failed => 8,
    }
}

/// An import that arrives: it is received and decoded at an inspected destination, and published
/// under the shared lock at the very same one.
pub struct Arrival {
    pub id: String,
    /// The configuration that was reviewed.
    pub expected: String,
    /// The destination, once it was inspected.
    pub destination: Option<Destination>,
    /// Where the copies will be published.
    pub target: String,
    /// The fingerprint of the media that were validated.
    pub fingerprint: String,
    /// What was published, in the end.
    pub result: Option<PublishedSelection>,
    pub step: ArrivalStep,
    pub error: String,
    /// The steps that succeeded, in order.
    pub log: Ghost<Seq<ArrivalStep>>,
}

pub open spec fn arrive_stops(before: Arrival, after: Arrival, text: Seq<char>) -> bool {
    after == (Arrival { step: ArrivalStep::Failed, error: after.error, ..before })
        && after.error@ == text
}

pub open spec fn arrive_moves(before: Arrival, after: Arrival, next: ArrivalStep) -> bool {
    after == (Arrival { step: next, log: Ghost(before.log@.push(before.step)), ..before })
}

impl Arrival {
    /// Every step before the present one succeeded.
    pub open spec fn wf(self) -> bool {
        self.step != ArrivalStep::Failed ==> {
            &&& forall|s: ArrivalStep|
                arrive_rank(s) < arrive_rank(self.step) ==> #[trigger] self.log@.contains(s)
            &&& arrive_rank(self.step) > 0 ==> valid_id(self.id@)
            &&& arrive_rank(self.step) > 1 ==> self.destination is Some
            &&& self.step == ArrivalStep::Published ==> self.result is Some
        }
    }

    pub fn begin(id: String, expected: String) -> (r: Arrival)
        ensures
            r.wf(),
            r.id == id,
            r.expected == expected,
            r.step == ArrivalStep::VerifyWorker,
            r.log@ == Seq::<ArrivalStep>::empty(),
            r.destination is None,
            r.target@.len() == 0,
            r.fingerprint@.len() == 0,
            r.result is None,
    {
        Arrival {
            id,
            expected,
            destination: None,
            target: String::new(),
            fingerprint: String::new(),
            result: None,
            step: ArrivalStep::VerifyWorker,
            error: String::new(),
            log: Ghost(Seq::empty()),
        }
    }

    fn advance(&mut self, next: ArrivalStep)
        requires
            (Arrival {
                step: next,
                log: Ghost(old(self).log@.push(old(self).step)),
                ..*old(self)
            }).wf(),
        ensures
            final(self).wf(),
            arrive_moves(*old(self), *final(self), next),
    {
        self.log = Ghost(self.log@.push(self.step));
        self.step = next;
    }

    /// A step could not be done.
    pub fn failed(&mut self, reason: &str)
        ensures
            final(self).wf(),
            arrive_stops(*old(self), *final(self), reason@),
    {
        self.step = ArrivalStep::Failed;
        self.error = reason.to_owned();
    }

    /// The configuration that was reviewed was verified. The identifier is judged before the
    /// destination is looked at.
    pub fn worker(&mut self, verified: Result<(), String>)
        requires
            old(self).wf(),
            old(self).step == ArrivalStep::VerifyWorker,
        ensures
            final(self).wf(),
            match complaint(verified) {
                Some(e) => arrive_stops(*old(self), *final(self), e),
                None => if valid_id(old(self).id@) {
                    arrive_moves(*old(self), *final(self), ArrivalStep::Inspect)
                } else {
                    arrive_stops(*old(self), *final(self), "Invalid import ID"@)
                },
            },
    {
        match verified {
            Err(e) => {
                self.failed(e.as_str());
            },
            Ok(_) => {
                if !text::is_hex_of_len(self.id.as_str(), 32) {
                    self.failed("Invalid import ID");
                    return;
                }
                proof {
                    steps::push_holds(self.log@, self.step);
                }
                self.advance(ArrivalStep::Inspect);
            },
        }
    }

    /// The destination was inspected; `directory` is the canonical directory of its configuration.
    pub fn inspected(&mut self, destination: Destination, directory: &Result<String, String>)
        requires
            old(self).wf(),
            old(self).step == ArrivalStep::Inspect,
        ensures
            final(self).wf(),
            match destination_complaint(destination, old(self).expected@) {
                Some(e) => arrive_stops(*old(self), *final(self), e),
                None => match *directory {
                    Err(e) => arrive_stops(*old(self), *final(self), e@),
                    Ok(directory) => {
                        &&& arrive_moves(
                            (Arrival {
                                destination: Some(destination),
                                target: final(self).target,
                                ..*old(self)
                            }),
                            *final(self),
                            ArrivalStep::Receive,
                        )
                        &&& final(self).target@ == import_directory(directory@, old(self).id@)
                    },
                },
            },
    {
        match check_destination(&destination, self.expected.as_str()) {
            Err(e) => {
                self.failed(e.as_str());
            },
            Ok(_) => match directory {
                Err(e) => {
                    self.failed(e.as_str());
                },
                Ok(directory) => {
                    self.destination = Some(destination);
                    self.target = import_path(directory.as_str(), self.id.as_str());
                    proof {
                        steps::push_holds(self.log@, self.step);
                    }
                    self.advance(ArrivalStep::Receive);
                },
            },
        }
    }

    /// `Receive`: the transfer to the place of this import, which came to its end.
    pub fn received(&mut self, receiver: &Receiver)
        requires
            old(self).wf(),
            old(self).step == ArrivalStep::Receive,
            receiver.wf(),
            receiver.step == ReceiveStep::Received || receiver.step == ReceiveStep::Failed,
            receiver.step == ReceiveStep::Received ==> receiver.destination@ == old(self).target@,
        ensures
            final(self).wf(),
            if receiver.step == ReceiveStep::Received {
                arrive_moves(*old(self), *final(self), ArrivalStep::Validate)
            } else {
                arrive_stops(*old(self), *final(self), receiver.error@)
            },
    {
        if let ReceiveStep::Failed = receiver.step {
            self.failed(receiver.error.as_str());
            return;
        }
        proof {
            steps::push_holds(self.log@, self.step);
        }
        self.advance(ArrivalStep::Validate);
    }

    /// `Validate`: the validation of the staged files, which came to its end.
    pub fn validated(&mut self, decode: &Decode)
        requires
            old(self).wf(),
            old(self).step == ArrivalStep::Validate,
            decode.wf(),
            decode.step == DecodeStep::Validated || decode.step == DecodeStep::Failed,
        ensures
            final(self).wf(),
            if decode.step == DecodeStep::Validated {
                final(self).fingerprint@ == decode.fingerprint@ && arrive_moves(
                    (Arrival { fingerprint: final(self).fingerprint, ..*old(self) }),
                    *final(self),
                    ArrivalStep::Lock,
                )
            } else {
                arrive_stops(*old(self), *final(self), decode.error@)
            },
    {
        if let DecodeStep::Failed = decode.step {
            self.failed(decode.error.as_str());
            return;
        }
        self.fingerprint = decode.fingerprint.clone();
        proof {
            steps::push_holds(self.log@, self.step);
        }
        self.advance(ArrivalStep::Lock);
    }

    /// The reservation of the lock of service operations, which came to its end, and the lock as it
    /// is found then.
    pub fn locked(&mut self, reservation: &Reservation, held: &Held)
        requires
            old(self).wf(),
            old(self).step == ArrivalStep::Lock,
            reservation.wf(),
            reservation.step == ReserveStep::Reserved || reservation.step == ReserveStep::Failed,
            held.expected@ == reservation.expected@,
        ensures
            final(self).wf(),
            match reserved_complaint(*reservation) {
                Some(e) => arrive_stops(*old(self), *final(self), e),
                None => match held_complaint(*held) {
                    Some(e) => arrive_stops(*old(self), *final(self), e),
                    None => arrive_moves(*old(self), *final(self), ArrivalStep::InspectAgain),
                },
            },
    {
        let verdict = match operation_reserved(reservation) {
            Err(e) => Err(e),
            Ok(_) => held.check(),
        };
        match verdict {
            Err(e) => {
                self.failed(e.as_str());
            },
            Ok(_) => {
                proof {
                    steps::push_holds(self.log@, self.step);
                }
                self.advance(ArrivalStep::InspectAgain);
            },
        }
    }

    /// The destination was inspected again.
    pub fn unchanged(&mut self, now: &Destination)
        requires
            old(self).wf(),
            old(self).step == ArrivalStep::InspectAgain,
        ensures
            final(self).wf(),
            old(self).destination matches Some(before) && if is_unchanged(before, *now) {
                arrive_moves(*old(self), *final(self), ArrivalStep::Publish)
            } else {
                arrive_stops(
                    *old(self),
                    *final(self),
                    "Managed import destination changed after preparation"@,
                )
            },
    {
        let verdict = match &self.destination {
            Some(before) => check_unchanged(before, now),
            None => Ok(()),
        };
        match verdict {
            Err(e) => {
                self.failed(e.as_str());
            },
            Ok(_) => {
                proof {
                    steps::push_holds(self.log@, self.step);
                }
                self.advance(ArrivalStep::Publish);
            },
        }
    }

    /// `Publish`: the publication, which came to its end, and the canonical directory of the
    /// configuration afterwards.
    pub fn published(&mut self, publish: Publish, directory: Result<String, String>)
        requires
            old(self).wf(),
            old(self).step == ArrivalStep::Publish,
            publish.wf(),
            publish.id@ == old(self).id@,
            publish.fingerprint@ == old(self).fingerprint@,
            publish.step == PublishStep::Published || publish.step == PublishStep::Failed,
        ensures
            final(self).wf(),
            if publish.step == PublishStep::Failed {
                arrive_stops(*old(self), *final(self), publish.error@)
            } else {
                match directory {
                    Err(e) => arrive_stops(*old(self), *final(self), e@),
                    Ok(directory) => {
                        &&& arrive_moves(
                            (Arrival { result: final(self).result, ..*old(self) }),
                            *final(self),
                            ArrivalStep::Published,
                        )
                        &&& final(self).result is Some
                        &&& placed_at(
                            (PublishedSelection {
                                import_id: publish.id,
                                lcds: publish.lcds,
                                templates: publish.templates,
                                destination: None,
                            }),
                            old(self).expected@,
                            directory,
                            final(self).result->0,
                        )
                    },
                }
            },
    {
        if let PublishStep::Failed = publish.step {
            self.failed(publish.error.as_str());
            return;
        }
        match directory {
            Err(e) => {
                self.failed(e.as_str());
            },
            Ok(directory) => {
                self.result = Some(place_at(publish.result(), self.expected.as_str(), directory));
                proof {
                    steps::push_holds(self.log@, self.step);
                }
                self.advance(ArrivalStep::Published);
            },
        }
    }
}

/// When an import is about to be published, it was decoded, the lock is reserved, and the
/// destination is the one for which it was prepared.
pub proof fn arrivals_are_published_where_they_were_prepared(m: Arrival)
    requires
        m.wf(),
        m.step == ArrivalStep::Publish || m.step == ArrivalStep::Published,
    ensures
        m.log@.contains(ArrivalStep::Validate),
        m.log@.contains(ArrivalStep::Lock),
        m.log@.contains(ArrivalStep::InspectAgain),
{
}

/// A selection is received exactly where its message announces no more than 1 MiB with a checksum of
/// 64 bytes and a descriptor comes with it.
pub proof fn selections_are_received_with_a_descriptor(message: Message, descriptor: bool)
    ensures
        selection_complaint(message, descriptor) is None <==> (message matches Message::Selection {
            bytes,
            sha256,
        } && bytes <= 1_048_576 && text::byte_len(sha256@) == 64) && descriptor,
{
}

/// A file is received exactly where it is the one that is due, in whatever spelling, and a descriptor
/// comes with it.
pub proof fn files_are_received_in_their_order(
    message: Message,
    descriptor: bool,
    expected: Seq<char>,
)
    ensures
        asset_complaint(message, descriptor, expected) is None <==> (message matches Message::Asset {
            path,
        } && path::is_absolute(path@) == path::is_absolute(expected) && path::components_of(path@)
            == path::components_of(expected)) && descriptor,
{
}

/// Files are received until all of them were.
pub proof fn receiving_ends_with_the_last_file(received: int, count: int)
    ensures
        next_asset(received, count) == ReceiveStep::CheckAsset <==> received < count,
        next_asset(received, count) == ReceiveStep::AwaitCopies <==> received >= count,
{
}

/// Media arrive exactly at the configuration that was reviewed, which lies in a directory, and are
/// published only while account, configuration, groups and mounts are still the same.
pub proof fn media_arrive_where_they_were_reviewed(
    before: Destination,
    now: Destination,
    expected: Seq<char>,
)
    ensures
        destination_complaint(before, expected) is None <==> path::same_path(
            before.config_path@,
            expected,
        ) && path::parent_of(before.config_path@) is Some,
        is_unchanged(before, now) <==> now.uid == before.uid && path::same_path(
            now.config_path@,
            before.config_path@,
        ) && now.groups_fingerprint@ == before.groups_fingerprint@ && now.mount_namespace@
            == before.mount_namespace@,
{
}

/// The receiver waits for the paths of the files, all of them and in their order.
pub proof fn every_path_is_waited_for(dependencies: Seq<AssetDependency>, i: int)
    requires
        0 <= i < dependencies.len(),
    ensures
        paths_of(dependencies).len() == dependencies.len(),
        paths_of(dependencies)[i] == dependencies[i].path@,
{
}

} // verus!
