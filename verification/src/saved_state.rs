//! The check of saved settings and their media under the account that owns them: nothing may change
//! while it runs.

use crate::command::Output;
use crate::container_destination::complaint;
use crate::destination::{check_output, Destination, StateSummary};
use crate::digest;
use crate::digest::Hasher;
use crate::files::{FileKind, Metadata};
use crate::path;
use crate::services::{optional, same_optional};
use crate::steps;
use crate::text;
use crate::text::{outcome, texts};
use vstd::prelude::*;
use vstd::utf8::encode_utf8;

verus! {

/// The most media that settings may refer to.
pub const MAX_ASSETS: usize = 4096;

/// The generation of saved settings, where there are any, and a fingerprint of their media.
#[derive(Clone, Debug)]
pub struct Checked {
    pub state: Option<String>,
    pub assets: String,
}

impl View for Checked {
    type V = (Option<Seq<char>>, Seq<char>);

    open spec fn view(&self) -> (Option<Seq<char>>, Seq<char>) {
        (optional(self.state), self.assets@)
    }
}

impl Checked {
    pub fn same(&self, other: &Checked) -> (r: bool)
        ensures
            r == (self@ == other@),
    {
        same_optional(&self.state, &other.state) && text::eq(
            self.assets.as_str(),
            other.assets.as_str(),
        )
    }
}

/// The arguments of a check under another account.
pub open spec fn check_arguments(destination: Destination, decode: bool) -> Seq<Seq<char>> {
    let plain = seq![
        "check-saved-state"@,
        "--config"@,
        destination.config_path@,
        "--working-directory"@,
        destination.working_directory@,
    ];
    if decode {
        plain.push("--decode"@)
    } else {
        plain
    }
}

/// The arguments of a check under another account, which must be the one of the preflight.
pub fn arguments(matching: bool, destination: &Destination, decode: bool) -> (r: Result<
    Vec<String>,
    String,
>)
    ensures
        match r {
            Ok(args) => matching && texts(args@) == check_arguments(*destination, decode),
            Err(e) => !matching && e@
                == "Saved-state account differs from destination preflight"@,
        },
{
    if !matching {
        return Err("Saved-state account differs from destination preflight".to_owned());
    }
    let mut args: Vec<String> = Vec::new();
    args.push("check-saved-state".to_owned());
    args.push("--config".to_owned());
    args.push(destination.config_path.clone());
    args.push("--working-directory".to_owned());
    args.push(destination.working_directory.clone());
    if decode {
        args.push("--decode".to_owned());
    }
    assert(texts(args@) =~= check_arguments(*destination, decode));
    Ok(args)
}

/// How long a check may take, in seconds.
pub fn timeout_s(decode: bool) -> (r: u64)
    ensures
        r == if decode {
            630u64
        } else {
            30u64
        },
{
    if decode {
        630
    } else {
        30
    }
}

/// The generation that the preflight saw.
pub open spec fn generation_of(destination: Destination) -> Option<Seq<char>> {
    match destination.state {
        Some(state) => Some(state.generation@),
        None => None,
    }
}

/// The check of saved settings under the account of a preflight. `matching` says whether the account
/// is the preflight's, `output` is what the helper gave for `arguments` within `timeout_s`, and
/// `checked` what that holds.
pub fn check(
    matching: bool,
    destination: &Destination,
    output: &Result<Output, String>,
    checked: Result<Checked, String>,
) -> (r: Result<Checked, String>)
    ensures
        outcome(r) == if !matching {
            Err("Saved-state account differs from destination preflight"@)
        } else {
            match *output {
                Err(e) => Err(e@),
                Ok(o) => if o.code != Some(0i32) {
                    Err("Saved-state validation failed: "@ + text::trimmed(o.stderr@))
                } else {
                    match checked {
                        Err(e) => Err("Invalid saved-state validation response: "@ + e@),
                        Ok(checked) => if optional(checked.state) != generation_of(*destination) {
                            Err(
                                "Saved settings changed after destination preflight. Prepare the switch again"@,
                            )
                        } else {
                            Ok(checked)
                        },
                    }
                },
            }
        },
{
    if !matching {
        return Err("Saved-state account differs from destination preflight".to_owned());
    }
    match output {
        Err(e) => {
            return Err(e.clone());
        },
        Ok(o) => {
            check_output(o, "Saved-state validation failed: ")?;
        },
    }
    match checked {
        Err(e) => Err(text::worded("Invalid saved-state validation response: ", e.as_str())),
        Ok(checked) => {
            let same = match (&checked.state, &destination.state) {
                (Some(a), Some(b)) => text::eq(a.as_str(), b.generation.as_str()),
                (None, None) => true,
                _ => false,
            };
            if !same {
                return Err(
                    "Saved settings changed after destination preflight. Prepare the switch again".to_owned(),
                );
            }
            Ok(checked)
        },
    }
}

/// Begins the check of saved settings: `target` is what the configuration's check against the
/// process's own container gave, and the account may have no authority of its own.
pub fn inspect(target: &Result<(), String>, root: bool, config: &str, working: &str) -> (r: Result<
    Inspection,
    String,
>)
    ensures
        match r {
            Ok(i) => {
                &&& inspect_complaint(*target, root, config@, working@) is None
                &&& i.wf()
                &&& i.step == InspectStep::OpenDirectory
                &&& i.state is None
                &&& i.log@ == Seq::<InspectStep>::empty()
            },
            Err(e) => inspect_complaint(*target, root, config@, working@) == Some(e@),
        },
{
    match target {
        Err(e) => {
            return Err(e.clone());
        },
        Ok(_) => {},
    }
    if root {
        return Err("Validate saved settings under their unprivileged account".to_owned());
    }
    Inspection::begin(config, working)
}

/// What keeps the check of saved settings from beginning.
pub open spec fn inspect_complaint(
    target: Result<(), String>,
    root: bool,
    config: Seq<char>,
    working: Seq<char>,
) -> Option<Seq<char>> {
    if target is Err {
        complaint(target)
    } else if root {
        Some("Validate saved settings under their unprivileged account"@)
    } else {
        begin_complaint(config, working)
    }
}

/// A medium that settings refer to: its path, and its metadata or the reason why it cannot be read.
pub struct SavedAsset {
    pub path: String,
    pub source: Result<Metadata, String>,
}

/// A text after its length, as bytes.
pub open spec fn counted_text(s: Seq<char>) -> Seq<u8> {
    digest::le64(encode_utf8(s).len() as u64) + encode_utf8(s)
}

/// The numbers of a file that tell whether it changed.
pub open spec fn file_numbers(m: Metadata) -> Seq<u64> {
    seq![
        m.dev,
        m.ino,
        m.len,
        m.mode as u64,
        m.uid as u64,
        m.gid as u64,
        m.mtime as u64,
        m.mtime_nsec as u64,
        m.ctime as u64,
        m.ctime_nsec as u64,
    ]
}

/// What a medium adds to the fingerprint. One that cannot be read adds the reason, so that this state
/// too can be compared.
pub open spec fn asset_bytes(asset: SavedAsset) -> Seq<u8> {
    counted_text(asset.path@) + match asset.source {
        Ok(m) => encode_utf8("readable"@) + digest::le64s(file_numbers(m)),
        Err(e) => encode_utf8("unavailable"@) + counted_text(e@),
    }
}

/// What the first `n` media add to the fingerprint.
pub open spec fn assets_bytes(assets: Seq<SavedAsset>, n: int) -> Seq<u8>
    decreases n,
{
    if n <= 0 {
        Seq::empty()
    } else {
        assets_bytes(assets, n - 1) + asset_bytes(assets[n - 1])
    }
}

fn absorb_counted(hasher: &mut Hasher, s: &str)
    ensures
        digest::absorbed(*final(hasher)) == digest::absorbed(*old(hasher)) + counted_text(s@),
{
    let ghost before = digest::absorbed(*hasher);
    let bytes = s.as_bytes();
    let count = digest::bytes_le64(bytes.len() as u64);
    hasher.update(count.as_slice());
    hasher.update(bytes);
    assert(digest::absorbed(*hasher) =~= before + counted_text(s@));
}

fn absorb_asset(hasher: &mut Hasher, asset: &SavedAsset)
    ensures
        digest::absorbed(*final(hasher)) == digest::absorbed(*old(hasher)) + asset_bytes(*asset),
{
    let ghost before = digest::absorbed(*hasher);
    absorb_counted(hasher, asset.path.as_str());
    match &asset.source {
        Ok(m) => {
            hasher.update("readable".as_bytes());
            let mut numbers: Vec<u64> = Vec::new();
            numbers.push(m.dev);
            numbers.push(m.ino);
            numbers.push(m.len);
            numbers.push(m.mode as u64);
            numbers.push(m.uid as u64);
            numbers.push(m.gid as u64);
            numbers.push(m.mtime as u64);
            numbers.push(m.mtime_nsec as u64);
            numbers.push(m.ctime as u64);
            numbers.push(m.ctime_nsec as u64);
            assert(numbers@ =~= file_numbers(*m));
            hasher.update_le64s(&numbers);
            assert(digest::absorbed(*hasher) =~= before + asset_bytes(*asset));
        },
        Err(e) => {
            hasher.update("unavailable".as_bytes());
            absorb_counted(hasher, e.as_str());
            assert(digest::absorbed(*hasher) =~= before + asset_bytes(*asset));
        },
    }
}

pub open spec fn assets_of(assets: Seq<SavedAsset>) -> Result<Seq<char>, Seq<char>> {
    if assets.len() > MAX_ASSETS {
        Err("Too many saved media references"@)
    } else {
        Ok(digest::fingerprint(assets_bytes(assets, assets.len() as int)))
    }
}

/// The text or error of a call.
pub open spec fn told(r: Result<String, String>) -> Result<Seq<char>, Seq<char>> {
    match r {
        Ok(s) => Ok(s@),
        Err(e) => Err(e@),
    }
}

/// The fingerprint of all media that settings refer to.
pub fn asset_fingerprint(assets: &Vec<SavedAsset>) -> (r: Result<String, String>)
    ensures
        told(r) == assets_of(assets@),
{
    if assets.len() > MAX_ASSETS {
        return Err("Too many saved media references".to_owned());
    }
    let mut hasher = Hasher::new();
    let mut i: usize = 0;
    while i < assets.len()
        invariant
            i <= assets@.len(),
            digest::absorbed(hasher) == assets_bytes(assets@, i as int),
        decreases assets@.len() - i,
    {
        absorb_asset(&mut hasher, &assets[i]);
        i += 1;
    }
    Ok(hasher.finish())
}

/// The places in which settings are kept: the configuration and what stands beside it.
pub open spec fn places_of(config: Seq<char>, parent: Seq<char>) -> Seq<Seq<char>> {
    seq![
        config,
        path::join_of(parent, "lcd_templates.json"@),
        path::join_of(parent, "rgb_presets.json"@),
        path::join_of(parent, "profiles"@),
    ]
}

pub fn places(config: &str) -> (r: Result<Vec<String>, String>)
    ensures
        match r {
            Ok(v) => path::parent_of(config@) is Some && v@.len() == PLACES && texts(v@) == places_of(
                config@,
                path::parent_of(config@)->0,
            ),
            Err(e) => path::parent_of(config@) is None && e@ == "Saved state has no directory"@,
        },
{
    match path::parent(config) {
        None => Err("Saved state has no directory".to_owned()),
        Some(parent) => {
            let mut v: Vec<String> = Vec::new();
            v.push(config.to_owned());
            v.push(path::join(parent.as_str(), "lcd_templates.json"));
            v.push(path::join(parent.as_str(), "rgb_presets.json"));
            v.push(path::join(parent.as_str(), "profiles"));
            assert(texts(v@) =~= places_of(config@, parent@));
            Ok(v)
        },
    }
}

/// How many places settings take.
pub const PLACES: usize = 4;

/// Whether none of the places is known to hold anything: each was found missing.
pub open spec fn all_missing(missing: Seq<bool>) -> bool {
    forall|i: int| 0 <= i < missing.len() ==> #[trigger] missing[i]
}

/// Whether nothing stands in any of the places, by what looking at each gave, in their order.
pub fn ensure_empty(missing: &Vec<bool>) -> (r: Result<(), String>)
    requires
        missing@.len() == PLACES,
    ensures
        complaint(r) == if all_missing(missing@) {
            None
        } else {
            Some(
                "Destination settings appeared or auxiliary state exists without its configuration"@,
            )
        },
{
    let mut i: usize = 0;
    while i < missing.len()
        invariant
            i <= missing@.len(),
            forall|j: int| 0 <= j < i ==> #[trigger] missing@[j],
        decreases missing@.len() - i,
    {
        if !missing[i] {
            return Err(
                "Destination settings appeared or auxiliary state exists without its configuration".to_owned(),
            );
        }
        i += 1;
    }
    Ok(())
}

#[derive(Clone, Copy, Debug, PartialEq, Eq, Structural)]
pub enum InspectStep {
    OpenDirectory,
    ReadState,
    FingerprintBefore,
    Validate,
    FingerprintAfter,
    VerifyState,
    VerifyDirectory,
    Checked,
    Failed,
}

pub open spec fn rank(step: InspectStep) -> int {
    match step {
        InspectStep::OpenDirectory => 0,
        InspectStep::ReadState => 1,
        InspectStep::FingerprintBefore => 2,
        InspectStep::Validate => 3,
        InspectStep::FingerprintAfter => 4,
        InspectStep::VerifyState => 5,
        InspectStep::VerifyDirectory => 6,
        InspectStep::Checked => 7,
        InspectStep::Failed => 8,
    }
}

/// A check of saved settings under way.
pub struct Inspection {
    pub step: InspectStep,
    /// The directory at the beginning.
    pub device: u64,
    pub inode: u64,
    /// The generation of the settings that were read, where there are any.
    pub state: Option<String>,
    /// The fingerprint of the media before they were validated.
    pub assets: String,
    pub error: String,
    /// The steps that succeeded, in order.
    pub log: Ghost<Seq<InspectStep>>,
}

pub open spec fn stops(before: Inspection, after: Inspection, text: Seq<char>) -> bool {
    after == (Inspection { step: InspectStep::Failed, error: after.error, ..before })
        && after.error@ == text
}

pub open spec fn moves(before: Inspection, after: Inspection, next: InspectStep) -> bool {
    after == (Inspection { step: next, log: Ghost(before.log@.push(before.step)), ..before })
}

pub open spec fn begin_complaint(config: Seq<char>, working: Seq<char>) -> Option<Seq<char>> {
    if !(path::is_absolute(config) && path::is_absolute(working)) {
        Some("Saved-state paths must be absolute"@)
    } else if path::parent_of(config) is None {
        Some("Saved state has no directory"@)
    } else {
        None
    }
}

impl Inspection {
    /// Every step before the present one succeeded.
    pub open spec fn wf(self) -> bool {
        self.step != InspectStep::Failed ==> forall|s: InspectStep|
            rank(s) < rank(self.step) ==> #[trigger] self.log@.contains(s)
    }

    pub fn begin(config: &str, working: &str) -> (r: Result<Inspection, String>)
        ensures
            match r {
                Ok(i) => begin_complaint(config@, working@) is None && i.wf() && i.step
                    == InspectStep::OpenDirectory && i.state is None && i.log@ == Seq::<
                    InspectStep,
                >::empty(),
                Err(e) => begin_complaint(config@, working@) == Some(e@),
            },
    {
        if !(path::absolute(config) && path::absolute(working)) {
            return Err("Saved-state paths must be absolute".to_owned());
        }
        if path::parent(config).is_none() {
            return Err("Saved state has no directory".to_owned());
        }
        Ok(
            Inspection {
                step: InspectStep::OpenDirectory,
                device: 0,
                inode: 0,
                state: None,
                assets: String::new(),
                error: String::new(),
                log: Ghost(Seq::empty()),
            },
        )
    }

    fn advance(&mut self, next: InspectStep)
        requires
            old(self).wf(),
            old(self).step != InspectStep::Failed,
            next != InspectStep::Failed,
            rank(next) == rank(old(self).step) + 1,
        ensures
            final(self).wf(),
            moves(*old(self), *final(self), next),
    {
        proof {
            steps::push_holds(self.log@, self.step);
        }
        self.log = Ghost(self.log@.push(self.step));
        self.step = next;
    }

    /// A step could not be done.
    pub fn failed(&mut self, reason: &str)
        ensures
            final(self).wf(),
            stops(*old(self), *final(self), reason@),
    {
        self.step = InspectStep::Failed;
        self.error = reason.to_owned();
    }

    /// The directory of the settings.
    pub fn directory(&mut self, m: &Metadata, uid: u32)
        requires
            old(self).wf(),
            old(self).step == InspectStep::OpenDirectory,
        ensures
            final(self).wf(),
            if m.uid == uid && m.mode & 0o022 == 0 {
                moves(
                    (Inspection { device: m.dev, inode: m.ino, ..*old(self) }),
                    *final(self),
                    InspectStep::ReadState,
                )
            } else {
                stops(
                    *old(self),
                    *final(self),
                    "Saved-state directory has unexpected ownership or permissions"@,
                )
            },
    {
        if m.uid == uid && m.mode & 0o022 == 0 {
            self.device = m.dev;
            self.inode = m.ino;
            self.advance(InspectStep::ReadState);
        } else {
            self.failed("Saved-state directory has unexpected ownership or permissions");
        }
    }

    /// The settings that were read.
    pub fn present(&mut self, summary: &StateSummary)
        requires
            old(self).wf(),
            old(self).step == InspectStep::ReadState,
        ensures
            final(self).wf(),
            if summary.issue_count == 0 {
                moves(
                    (Inspection { state: Some(summary.generation), ..*old(self) }),
                    *final(self),
                    InspectStep::FingerprintBefore,
                )
            } else {
                stops(*old(self), *final(self), "Saved settings contain invalid references"@)
            },
    {
        if summary.issue_count == 0 {
            self.state = Some(summary.generation.clone());
            self.advance(InspectStep::FingerprintBefore);
        } else {
            self.failed("Saved settings contain invalid references");
        }
    }

    /// There are no settings: then nothing may stand beside them either.
    pub fn absent(&mut self, missing: &Vec<bool>)
        requires
            old(self).wf(),
            old(self).step == InspectStep::ReadState,
            missing@.len() == PLACES,
        ensures
            final(self).wf(),
            if all_missing(missing@) {
                moves(
                    (Inspection { state: None, ..*old(self) }),
                    *final(self),
                    InspectStep::FingerprintBefore,
                )
            } else {
                stops(
                    *old(self),
                    *final(self),
                    "Destination settings appeared or auxiliary state exists without its configuration"@,
                )
            },
    {
        match ensure_empty(missing) {
            Ok(_) => {
                self.state = None;
                self.advance(InspectStep::FingerprintBefore);
            },
            Err(e) => {
                self.failed(e.as_str());
            },
        }
    }

    /// The media before they are validated.
    pub fn before(&mut self, assets: &Vec<SavedAsset>)
        requires
            old(self).wf(),
            old(self).step == InspectStep::FingerprintBefore,
        ensures
            final(self).wf(),
            match assets_of(assets@) {
                Err(e) => stops(*old(self), *final(self), e),
                Ok(fingerprint) => moves(
                    (Inspection { assets: final(self).assets, ..*old(self) }),
                    *final(self),
                    InspectStep::Validate,
                ) && final(self).assets@ == fingerprint,
            },
    {
        match asset_fingerprint(assets) {
            Ok(fingerprint) => {
                self.assets = fingerprint;
                self.advance(InspectStep::Validate);
            },
            Err(e) => {
                self.failed(e.as_str());
            },
        }
    }

    /// The media were validated.
    pub fn validated(&mut self)
        requires
            old(self).wf(),
            old(self).step == InspectStep::Validate,
        ensures
            final(self).wf(),
            moves(*old(self), *final(self), InspectStep::FingerprintAfter),
    {
        self.advance(InspectStep::FingerprintAfter);
    }

    /// The media after they were validated.
    pub fn after(&mut self, assets: &Vec<SavedAsset>)
        requires
            old(self).wf(),
            old(self).step == InspectStep::FingerprintAfter,
        ensures
            final(self).wf(),
            match assets_of(assets@) {
                Err(e) => stops(*old(self), *final(self), e),
                Ok(fingerprint) => if fingerprint == old(self).assets@ {
                    moves(*old(self), *final(self), InspectStep::VerifyState)
                } else {
                    stops(*old(self), *final(self), "Saved media changed during validation"@)
                },
            },
    {
        match asset_fingerprint(assets) {
            Ok(fingerprint) => {
                if text::eq(fingerprint.as_str(), self.assets.as_str()) {
                    self.advance(InspectStep::VerifyState);
                } else {
                    self.failed("Saved media changed during validation");
                }
            },
            Err(e) => {
                self.failed(e.as_str());
            },
        }
    }

    /// The settings are as they were read.
    pub fn unchanged(&mut self)
        requires
            old(self).wf(),
            old(self).step == InspectStep::VerifyState,
            old(self).state is Some,
        ensures
            final(self).wf(),
            moves(*old(self), *final(self), InspectStep::VerifyDirectory),
    {
        self.advance(InspectStep::VerifyDirectory);
    }

    /// There still are no settings.
    pub fn still_absent(&mut self, missing: &Vec<bool>)
        requires
            old(self).wf(),
            old(self).step == InspectStep::VerifyState,
            old(self).state is None,
            missing@.len() == PLACES,
        ensures
            final(self).wf(),
            if all_missing(missing@) {
                moves(*old(self), *final(self), InspectStep::VerifyDirectory)
            } else {
                stops(
                    *old(self),
                    *final(self),
                    "Destination settings appeared or auxiliary state exists without its configuration"@,
                )
            },
    {
        match ensure_empty(missing) {
            Ok(_) => {
                self.advance(InspectStep::VerifyDirectory);
            },
            Err(e) => {
                self.failed(e.as_str());
            },
        }
    }

    /// The directory at the end.
    pub fn finish(&mut self, m: &Metadata)
        requires
            old(self).wf(),
            old(self).step == InspectStep::VerifyDirectory,
        ensures
            final(self).wf(),
            if m.kind == FileKind::Directory && m.dev == old(self).device && m.ino == old(
                self,
            ).inode {
                moves(*old(self), *final(self), InspectStep::Checked)
            } else {
                stops(
                    *old(self),
                    *final(self),
                    "Saved-state directory changed during validation"@,
                )
            },
    {
        if m.kind == FileKind::Directory && m.dev == self.device && m.ino == self.inode {
            self.advance(InspectStep::Checked);
        } else {
            self.failed("Saved-state directory changed during validation");
        }
    }

    /// What the check found.
    pub fn result(self) -> (r: Checked)
        requires
            self.step == InspectStep::Checked,
        ensures
            r == (Checked { state: self.state, assets: self.assets }),
    {
        Checked { state: self.state, assets: self.assets }
    }
}

/// Settings count as checked only after their media were validated, and these, the settings and the
/// directory were then found as before.
pub proof fn checked_settings_did_not_change(inspection: Inspection)
    requires
        inspection.wf(),
        inspection.step == InspectStep::Checked,
    ensures
        inspection.log@.contains(InspectStep::FingerprintBefore),
        inspection.log@.contains(InspectStep::Validate),
        inspection.log@.contains(InspectStep::FingerprintAfter),
        inspection.log@.contains(InspectStep::VerifyState),
        inspection.log@.contains(InspectStep::VerifyDirectory),
{
}

/// Whether two media agree in all that the fingerprint tells of them: the path, and the file, or the
/// reason why there is none to read.
pub open spec fn same_asset(a: SavedAsset, b: SavedAsset) -> bool {
    a.path@ == b.path@ && match (a.source, b.source) {
        (Ok(x), Ok(y)) => {
            &&& x.dev == y.dev
            &&& x.ino == y.ino
            &&& x.len == y.len
            &&& x.mode == y.mode
            &&& x.uid == y.uid
            &&& x.gid == y.gid
            &&& x.mtime == y.mtime
            &&& x.mtime_nsec == y.mtime_nsec
            &&& x.ctime == y.ctime
            &&& x.ctime_nsec == y.ctime_nsec
        },
        (Err(x), Err(y)) => x@ == y@,
        _ => false,
    }
}

/// Whether the texts of a medium have lengths that a number holds.
pub open spec fn countable(a: SavedAsset) -> bool {
    encode_utf8(a.path@).len() <= u64::MAX && match a.source {
        Ok(_) => true,
        Err(e) => encode_utf8(e@).len() <= u64::MAX,
    }
}

/// The two words before the source of a medium begin with different bytes.
proof fn words_differ()
    ensures
        encode_utf8("readable"@).len() == 8,
        encode_utf8("unavailable"@).len() == 11,
        encode_utf8("readable"@)[0] != encode_utf8("unavailable"@)[0],
{
    reveal_strlit("readable");
    reveal_strlit("unavailable");
    assert(vstd::utf8::is_ascii_chars("readable"@));
    assert(vstd::utf8::is_ascii_chars("unavailable"@));
    vstd::utf8::is_ascii_chars_encode_utf8("readable"@);
    vstd::utf8::is_ascii_chars_encode_utf8("unavailable"@);
    assert("readable"@[0] == 'r');
    assert("unavailable"@[0] == 'u');
}

/// What follows the path of a medium in the bytes of a fingerprint.
spec fn source_bytes(source: Result<Metadata, String>) -> Seq<u8> {
    match source {
        Ok(m) => encode_utf8("readable"@) + digest::le64s(file_numbers(m)),
        Err(e) => encode_utf8("unavailable"@) + counted_text(e@),
    }
}

/// The bytes of a medium tell it apart, whatever follows them.
#[verifier::spinoff_prover]
#[verifier::rlimit(80)]
proof fn asset_bytes_tell(a: SavedAsset, after_a: Seq<u8>, b: SavedAsset, after_b: Seq<u8>)
    requires
        countable(a),
        countable(b),
        asset_bytes(a) + after_a == asset_bytes(b) + after_b,
    ensures
        same_asset(a, b),
        after_a == after_b,
{
    words_differ();
    let x = source_bytes(a.source);
    let y = source_bytes(b.source);
    assert(asset_bytes(a) + after_a =~= counted_text(a.path@) + (x + after_a));
    assert(asset_bytes(b) + after_b =~= counted_text(b.path@) + (y + after_b));
    digest::counted_texts_are_told_apart(a.path@, x + after_a, b.path@, y + after_b);
    assert((x + after_a)[0] == x[0]);
    assert((y + after_b)[0] == y[0]);
    match (a.source, b.source) {
        (Ok(m), Ok(n)) => {
            let p = digest::le64s(file_numbers(m));
            let q = digest::le64s(file_numbers(n));
            assert(p + after_a =~= (x + after_a).skip(8));
            assert(q + after_b =~= (y + after_b).skip(8));
            digest::numbers_in_a_row_are_told_apart(
                file_numbers(m),
                after_a,
                file_numbers(n),
                after_b,
            );
            let v = file_numbers(m);
            let w = file_numbers(n);
            assert(v[0] == w[0] && v[1] == w[1] && v[2] == w[2] && v[3] == w[3] && v[4] == w[4]);
            assert(v[5] == w[5] && v[6] == w[6] && v[7] == w[7] && v[8] == w[8] && v[9] == w[9]);
            digest::signed_numbers_are_told_apart(m.mtime, n.mtime);
            digest::signed_numbers_are_told_apart(m.mtime_nsec, n.mtime_nsec);
            digest::signed_numbers_are_told_apart(m.ctime, n.ctime);
            digest::signed_numbers_are_told_apart(m.ctime_nsec, n.ctime_nsec);
        },
        (Err(d), Err(e)) => {
            assert(counted_text(d@) + after_a =~= (x + after_a).skip(11));
            assert(counted_text(e@) + after_b =~= (y + after_b).skip(11));
            digest::counted_texts_are_told_apart(d@, after_a, e@, after_b);
        },
        (Ok(_), Err(_)) => {
            assert(x[0] == encode_utf8("readable"@)[0]);
            assert(y[0] == encode_utf8("unavailable"@)[0]);
        },
        (Err(_), Ok(_)) => {
            assert(x[0] == encode_utf8("unavailable"@)[0]);
            assert(y[0] == encode_utf8("readable"@)[0]);
        },
    }
}

/// A medium has bytes.
proof fn asset_bytes_len(a: SavedAsset)
    ensures
        asset_bytes(a).len() >= 8,
{
}

/// The bytes of media begin with those of the first.
proof fn assets_bytes_front(assets: Seq<SavedAsset>, n: int)
    requires
        0 < n <= assets.len(),
    ensures
        assets_bytes(assets, n) == asset_bytes(assets[0]) + assets_bytes(assets.skip(1), n - 1),
    decreases n,
{
    if n == 1 {
        assert(assets_bytes(assets, 0) =~= Seq::<u8>::empty());
        assert(assets_bytes(assets.skip(1), 0) =~= Seq::<u8>::empty());
        assert(assets_bytes(assets, 1) =~= asset_bytes(assets[0]) + assets_bytes(
            assets.skip(1),
            0,
        ));
    } else {
        assets_bytes_front(assets, n - 1);
        assert(assets.skip(1)[n - 2] == assets[n - 1]);
        assert(assets_bytes(assets, n) =~= asset_bytes(assets[0]) + assets_bytes(
            assets.skip(1),
            n - 1,
        ));
    }
}

/// The bytes behind the fingerprint of media tell them apart: another path, another number of a file
/// or another reason why one cannot be read gives other bytes.
#[verifier::rlimit(40)]
pub proof fn media_are_told_apart(a: Seq<SavedAsset>, b: Seq<SavedAsset>)
    requires
        forall|i: int| 0 <= i < a.len() ==> countable(#[trigger] a[i]),
        forall|i: int| 0 <= i < b.len() ==> countable(#[trigger] b[i]),
        assets_bytes(a, a.len() as int) == assets_bytes(b, b.len() as int),
    ensures
        a.len() == b.len(),
        forall|i: int| 0 <= i < a.len() ==> same_asset(#[trigger] a[i], b[i]),
    decreases a.len(),
{
    if a.len() > 0 {
        assets_bytes_front(a, a.len() as int);
    }
    if b.len() > 0 {
        assets_bytes_front(b, b.len() as int);
    }
    if a.len() > 0 && b.len() > 0 {
        asset_bytes_tell(
            a[0],
            assets_bytes(a.skip(1), a.len() - 1),
            b[0],
            assets_bytes(b.skip(1), b.len() - 1),
        );
        assert forall|i: int| 0 <= i < a.skip(1).len() implies countable(#[trigger] a.skip(1)[i]) by {
            assert(a.skip(1)[i] == a[i + 1]);
        }
        assert forall|i: int| 0 <= i < b.skip(1).len() implies countable(#[trigger] b.skip(1)[i]) by {
            assert(b.skip(1)[i] == b[i + 1]);
        }
        media_are_told_apart(a.skip(1), b.skip(1));
        assert forall|i: int| 0 <= i < a.len() implies same_asset(#[trigger] a[i], b[i]) by {
            if i > 0 {
                assert(a.skip(1)[i - 1] == a[i]);
                assert(b.skip(1)[i - 1] == b[i]);
            }
        }
    } else if a.len() > 0 {
        asset_bytes_len(a[0]);
        assert(assets_bytes(b, 0).len() == 0);
    } else if b.len() > 0 {
        asset_bytes_len(b[0]);
        assert(assets_bytes(a, 0).len() == 0);
    }
}


/// Media with one fingerprint are the same in all that it covers, unless SHA-256 has a collision
/// there.
pub proof fn fingerprints_tell_media_apart(a: Seq<SavedAsset>, b: Seq<SavedAsset>)
    requires
        forall|i: int| 0 <= i < a.len() ==> countable(#[trigger] a[i]),
        forall|i: int| 0 <= i < b.len() ==> countable(#[trigger] b[i]),
        assets_of(a) is Ok,
        assets_of(a) == assets_of(b),
    ensures
        digest::collides(
            assets_bytes(a, a.len() as int),
            assets_bytes(b, b.len() as int),
        ) || {
            &&& a.len() == b.len()
            &&& forall|i: int| 0 <= i < a.len() ==> same_asset(#[trigger] a[i], b[i])
        },
{
    digest::fingerprints_tell_contents_apart(
        assets_bytes(a, a.len() as int),
        assets_bytes(b, b.len() as int),
    );
    if assets_bytes(a, a.len() as int) == assets_bytes(b, b.len() as int) {
        media_are_told_apart(a, b);
    }
}

/// Saved settings are checked exactly under their unprivileged account, by absolute paths, where the
/// configuration lies in a directory.
pub proof fn settings_are_checked_under_their_account(
    target: Result<(), String>,
    root: bool,
    config: Seq<char>,
    working: Seq<char>,
)
    ensures
        inspect_complaint(target, root, config, working) is None <==> target is Ok && !root
            && path::is_absolute(config) && path::is_absolute(working) && path::parent_of(
            config,
        ) is Some,
{
}

/// A check is asked for by the paths of the destination, and decodes media exactly where that is
/// wanted.
pub proof fn checks_are_asked_for_by_the_destination(destination: Destination, decode: bool)
    ensures
        ({
            let asked = check_arguments(destination, decode);
            &&& asked.contains("--decode"@) <== decode
            &&& asked.len() == (if decode {
                6int
            } else {
                5int
            })
            &&& asked[2] == destination.config_path@
            &&& asked[4] == destination.working_directory@
            &&& asked.take(5) == check_arguments(destination, !decode).take(5)
        }),
{
    let asked = check_arguments(destination, decode);
    if decode {
        assert(asked[5] == "--decode"@);
    }
    assert(asked.take(5) =~= check_arguments(destination, !decode).take(5));
}

/// Media have a fingerprint exactly where there are no more than 4096, and equal media have equal
/// ones.
pub proof fn media_have_a_fingerprint(assets: Seq<SavedAsset>)
    ensures
        assets_of(assets) is Ok <==> assets.len() <= 4096,
{
}

/// Settings are kept in four places: the configuration and three beside it.
pub proof fn settings_are_kept_beside_the_configuration(config: Seq<char>, parent: Seq<char>)
    ensures
        places_of(config, parent).len() == 4,
        places_of(config, parent)[0] == config,
        places_of(config, parent).contains(path::join_of(parent, "lcd_templates.json"@)),
        places_of(config, parent).contains(path::join_of(parent, "rgb_presets.json"@)),
        places_of(config, parent).contains(path::join_of(parent, "profiles"@)),
{
    let all = places_of(config, parent);
    assert(all[1] == path::join_of(parent, "lcd_templates.json"@));
    assert(all[2] == path::join_of(parent, "rgb_presets.json"@));
    assert(all[3] == path::join_of(parent, "profiles"@));
}

/// Nothing is saved exactly where every place was found missing.
pub proof fn nothing_is_saved_where_all_is_missing(missing: Seq<bool>)
    ensures
        all_missing(missing) <==> !(exists|i: int| 0 <= i < missing.len() && !#[trigger] missing[i]),
{
}

} // verus!
