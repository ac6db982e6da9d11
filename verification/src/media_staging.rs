//! Staging media: copies of source files, stored once per content and named by their digest.

use crate::digest::{absorbed, collides, fingerprint, fingerprints_tell_contents_apart, Hasher};
use crate::files::{owned_unshared, FileKind, Metadata};
use crate::media_publication::valid_extension;
use crate::path;
use crate::steps;
use crate::text;
use vstd::prelude::*;

verus! {

pub const MAX_ASSET_BYTES: u64 = 2_147_483_648;

pub const MAX_STAGE_BYTES: u64 = 8_589_934_592;

pub const MAX_ASSETS: usize = 4096;

/// The longest time that a copy may take, in milliseconds.
pub const MAX_COPY_MS: u64 = 600_000;

/// The limits of a copy in progress, and how far it has come.
pub struct CopyControl {
    pub cancelled: bool,
    pub copied: u64,
    pub deadline_ms: u64,
}

/// Why a copy may not go on at a time in milliseconds after its control was made.
pub open spec fn control_complaint(c: CopyControl, elapsed_ms: u64) -> Option<Seq<char>> {
    if c.cancelled {
        Some("Media staging was cancelled"@)
    } else if elapsed_ms >= c.deadline_ms {
        Some("Media staging timed out"@)
    } else {
        None
    }
}

impl CopyControl {
    /// A control that lets a copy go on for a time, ten minutes at most.
    pub fn new(timeout_ms: u64) -> (c: CopyControl)
        ensures
            !c.cancelled,
            c.copied == 0,
            c.deadline_ms == if timeout_ms < MAX_COPY_MS {
                timeout_ms
            } else {
                MAX_COPY_MS
            },
    {
        CopyControl {
            cancelled: false,
            copied: 0,
            deadline_ms: if timeout_ms < MAX_COPY_MS {
                timeout_ms
            } else {
                MAX_COPY_MS
            },
        }
    }

    pub fn cancel(&mut self)
        ensures
            *final(self) == (CopyControl { cancelled: true, ..*old(self) }),
    {
        self.cancelled = true;
    }

    pub fn copied_bytes(&self) -> (r: u64)
        ensures
            r == self.copied,
    {
        self.copied
    }

    pub fn check(&self, elapsed_ms: u64) -> (r: Result<(), String>)
        ensures
            match r {
                Ok(_) => control_complaint(*self, elapsed_ms) is None,
                Err(e) => control_complaint(*self, elapsed_ms) == Some(e@),
            },
    {
        if self.cancelled {
            return Err("Media staging was cancelled".to_owned());
        }
        if elapsed_ms >= self.deadline_ms {
            return Err("Media staging timed out".to_owned());
        }
        Ok(())
    }
}

/// A cancelled copy never goes on, whatever the time.
pub proof fn cancellation_is_final(c: CopyControl, elapsed_ms: u64)
    requires
        c.cancelled,
    ensures
        control_complaint(c, elapsed_ms) == Some("Media staging was cancelled"@),
{
}

/// What tells one state of a file from another.
#[derive(Clone, Copy, Debug)]
pub struct SourceIdentity {
    pub device: u64,
    pub inode: u64,
    pub length: u64,
    pub modified: (i64, i64),
    pub changed: (i64, i64),
}

pub open spec fn identity_spec(m: Metadata) -> SourceIdentity {
    SourceIdentity {
        device: m.dev,
        inode: m.ino,
        length: m.len,
        modified: (m.mtime, m.mtime_nsec),
        changed: (m.ctime, m.ctime_nsec),
    }
}

pub fn identity(m: &Metadata) -> (r: SourceIdentity)
    ensures
        r == identity_spec(*m),
{
    SourceIdentity {
        device: m.dev,
        inode: m.ino,
        length: m.len,
        modified: (m.mtime, m.mtime_nsec),
        changed: (m.ctime, m.ctime_nsec),
    }
}

fn same_identity(a: &SourceIdentity, b: &SourceIdentity) -> (r: bool)
    ensures
        r == (*a == *b),
{
    a.device == b.device && a.inode == b.inode && a.length == b.length && a.modified.0
        == b.modified.0 && a.modified.1 == b.modified.1 && a.changed.0 == b.changed.0 && a.changed.1
        == b.changed.1
}

/// A source file that was staged.
#[derive(Debug)]
pub struct Asset {
    pub source: String,
    pub identity: SourceIdentity,
    pub destination: String,
}

/// The staged copies of a selection.
pub struct MediaStaging {
    pub destination: String,
    pub assets: Vec<Asset>,
    pub objects: Vec<String>,
    pub stored: u64,
    pub asset_limit: u64,
    pub stage_limit: u64,
}

/// The first asset from `i` on with a source path, or the number of assets.
pub open spec fn asset_from(assets: Seq<Asset>, source: Seq<char>, i: int) -> int
    decreases assets.len() - i,
{
    if i >= assets.len() {
        assets.len() as int
    } else if path::same_path(assets[i].source@, source) {
        i
    } else {
        asset_from(assets, source, i + 1)
    }
}

/// Whether a source was staged.
pub open spec fn is_recorded(assets: Seq<Asset>, source: Seq<char>) -> bool {
    asset_from(assets, source, 0) < assets.len()
}

/// A source that was staged stays staged when more are.
pub proof fn staged_sources_stay(assets: Seq<Asset>, more: Seq<Asset>, source: Seq<char>, i: int)
    requires
        0 <= i,
        assets.len() <= more.len(),
        forall|j: int| 0 <= j < assets.len() ==> #[trigger] more[j] == assets[j],
        asset_from(assets, source, i) < assets.len(),
    ensures
        asset_from(more, source, i) == asset_from(assets, source, i),
    decreases assets.len() - i,
{
    if i < assets.len() {
        assert(more[i] == assets[i]);
        if !path::same_path(assets[i].source@, source) {
            staged_sources_stay(assets, more, source, i + 1);
        }
    }
}

/// A source with an entry was staged.
pub proof fn entries_are_staged(assets: Seq<Asset>, source: Seq<char>, i: int, at: int)
    requires
        0 <= i <= at < assets.len(),
        assets[at].source@ == source,
    ensures
        asset_from(assets, source, i) < assets.len(),
    decreases at - i,
{
    if !path::same_path(assets[i].source@, source) {
        entries_are_staged(assets, source, i + 1, at);
    }
}

pub open spec fn has_nul(s: Seq<char>) -> bool {
    text::find(s, '\0') < s.len()
}

fn contains_nul(s: &str) -> (r: bool)
    ensures
        r == has_nul(s@),
{
    let v = text::chars(s);
    text::index_of(&v, '\0', 0) < v.len()
}

pub open spec fn destination_complaint(destination: Seq<char>) -> Option<Seq<char>> {
    if !(path::is_absolute(destination) && text::byte_len(destination) <= 4000) {
        Some("Managed media destination must be an absolute directory path of at most 4000 bytes"@)
    } else if has_nul(destination) {
        Some("Managed media destination contains a NUL byte"@)
    } else {
        None
    }
}

/// Whether a staging directory may be made below a directory.
pub fn check_parent(parent: &Metadata, uid: u32) -> (r: Result<(), String>)
    ensures
        match r {
            Ok(_) => owned_unshared(*parent, uid),
            Err(e) => !owned_unshared(*parent, uid) && e@
                == "Media staging parent must belong to the current account and must not be writable by other accounts"@,
        },
{
    if parent.is_owned_unshared(uid) {
        Ok(())
    } else {
        Err(
            "Media staging parent must belong to the current account and must not be writable by other accounts".to_owned(),
        )
    }
}

/// Why a source path cannot be staged.
pub open spec fn source_complaint(source: Seq<char>) -> Option<Seq<char>> {
    if !(path::is_absolute(source) && text::byte_len(source) <= 4096) {
        Some("Source media path must be absolute and at most 4096 bytes"@)
    } else if has_nul(source) {
        Some("Source media path contains a NUL byte"@)
    } else {
        None
    }
}

/// What staging a source begins with.
pub enum Begin {
    /// It was staged before, under this path.
    Known { destination: String },
    /// Its content is to be copied.
    Copy { copy: Copying },
}

/// A copy in progress.
pub struct Copying {
    pub source: String,
    pub identity: SourceIdentity,
    pub offset: u64,
    pub hasher: Hasher,
}

/// Why a source cannot be copied: it is no regular file, it changed since it was staged, there are
/// too many, or it is too large.
pub open spec fn begin_complaint(s: MediaStaging, source: Seq<char>, meta: Metadata) -> Option<
    Seq<char>,
> {
    let known = asset_from(s.assets@, source, 0);
    let room = if s.stored < s.stage_limit {
        s.stage_limit - s.stored
    } else {
        0
    };
    if meta.kind != FileKind::File {
        Some(source + " is not a regular media file"@)
    } else if known < s.assets@.len() {
        if s.assets@[known].identity == identity_spec(meta) {
            None
        } else {
            Some(source + " changed during media staging"@)
        }
    } else if s.assets@.len() >= MAX_ASSETS {
        Some("Media staging exceeds 4096 source files"@)
    } else if meta.len > s.asset_limit {
        Some(source + " exceeds the 2 GiB media-file limit"@)
    } else if meta.len > room {
        Some("Media staging exceeds its 8 GiB budget, including the temporary copy"@)
    } else {
        None
    }
}

fn with_source(source: &str, complaint: &str) -> (r: String)
    ensures
        r@ == source@ + complaint@,
{
    let mut r = source.to_owned();
    r.append(complaint);
    r
}

/// The extension of a file name: what follows its last dot, unless the name begins there.
pub open spec fn extension_of(name: Seq<char>) -> Option<Seq<char>> {
    let i = last_dot(name, name.len() as int);
    if i > 0 {
        Some(name.skip(i + 1))
    } else {
        None
    }
}

/// The last index below `n` at which a dot stands, or -1.
pub open spec fn last_dot(name: Seq<char>, n: int) -> int
    decreases n,
{
    if n <= 0 {
        -1
    } else if name[n - 1] == '.' {
        n - 1
    } else {
        last_dot(name, n - 1)
    }
}

/// The extension that a staged copy gets.
pub open spec fn staged_extension(source: Seq<char>) -> Seq<char> {
    match path::file_name_of(source) {
        None => "bin"@,
        Some(name) => match extension_of(name) {
            Some(e) if valid_extension(e) => text::lowered(e),
            _ => "bin"@,
        },
    }
}

pub fn extension(name: &str) -> (r: Option<String>)
    ensures
        match r {
            Some(e) => extension_of(name@) == Some(e@),
            None => extension_of(name@) is None,
        },
{
    let v = text::chars(name);
    let mut n: usize = v.len();
    while n > 0
        invariant
            v@ == name@,
            n <= v@.len(),
            last_dot(v@, v@.len() as int) == last_dot(v@, n as int),
        decreases n,
    {
        if v[n - 1] == '.' {
            if n == 1 {
                return None;
            }
            let e = text::slice(&v, n, v.len());
            assert(e@ =~= v@.skip(n as int));
            return Some(e);
        }
        n -= 1;
    }
    None
}

fn extension_for(source: &str) -> (r: String)
    ensures
        r@ == staged_extension(source@),
{
    match path::file_name(source) {
        None => "bin".to_owned(),
        Some(name) => {
            match extension(name.as_str()) {
                Some(e) => {
                    if crate::media_publication::is_extension(e.as_str()) {
                        return text::lower(e.as_str());
                    }
                },
                None => {},
            }
            "bin".to_owned()
        },
    }
}

/// Whether a digest is among the stored objects.
pub open spec fn stored_object(objects: Seq<String>, digest: Seq<char>) -> bool {
    exists|i: int| 0 <= i < objects.len() && (#[trigger] objects[i])@ == digest
}

/// Whether the path of a staged source lies in the destination, under the digest of a stored object
/// and the extension that the source gives it.
pub open spec fn staged_at(s: MediaStaging, asset: Asset) -> bool {
    exists|i: int|
        0 <= i < s.objects@.len() && asset.destination@ == path::join_of(
            s.destination@,
            alias_name(asset.source@, (#[trigger] s.objects@[i])@),
        )
}

impl MediaStaging {
    /// Every copy has its own source, every object its own digest, every path leads to an object in
    /// the destination, and the budget holds.
    pub open spec fn wf(self) -> bool {
        &&& self.stored <= self.stage_limit
        &&& forall|i: int, j: int|
            0 <= i < j < self.assets@.len() ==> !path::same_path(
                (#[trigger] self.assets@[i]).source@,
                (#[trigger] self.assets@[j]).source@,
            )
        &&& forall|i: int, j: int|
            0 <= i < j < self.objects@.len() ==> (#[trigger] self.objects@[i])@ != (
            #[trigger] self.objects@[j])@
        &&& forall|i: int|
            0 <= i < self.assets@.len() ==> staged_at(self, #[trigger] self.assets@[i])
    }

    /// An empty stage for a destination directory.
    pub fn new(destination: &str) -> (r: Result<MediaStaging, String>)
        ensures
            match r {
                Ok(s) => destination_complaint(destination@) is None && s.wf() && s.destination@
                    == destination@ && s.assets@.len() == 0 && s.objects@.len() == 0 && s.stored == 0
                    && s.asset_limit == MAX_ASSET_BYTES && s.stage_limit == MAX_STAGE_BYTES,
                Err(e) => destination_complaint(destination@) == Some(e@),
            },
    {
        if !(path::absolute(destination) && text::len(destination) <= 4000) {
            return Err(
                "Managed media destination must be an absolute directory path of at most 4000 bytes".to_owned(),
            );
        }
        if contains_nul(destination) {
            return Err("Managed media destination contains a NUL byte".to_owned());
        }
        Ok(
            MediaStaging {
                destination: destination.to_owned(),
                assets: Vec::new(),
                objects: Vec::new(),
                stored: 0,
                asset_limit: MAX_ASSET_BYTES,
                stage_limit: MAX_STAGE_BYTES,
            },
        )
    }

    /// Begins to stage an open source file, of which `source` is only the name.
    pub fn add(self, source: &str) -> (r: Adding)
        requires
            self.wf(),
        ensures
            r.wf(),
            r.staging == self,
            r.source@ == source@,
            r.before@ == self.assets@,
            r.step == AddStep::CheckFirst,
            r.copy is None,
            !r.known,
            r.log@ == Seq::<AddStep>::empty(),
            r.pending == 0,
            r.digest@.len() == 0,
            r.destination@.len() == 0,
            r.content@.len() == 0,
    {
        Adding {
            staging: self,
            source: source.to_owned(),
            identity: SourceIdentity {
                device: 0,
                inode: 0,
                length: 0,
                modified: (0, 0),
                changed: (0, 0),
            },
            copy: None,
            pending: 0,
            digest: String::new(),
            destination: String::new(),
            known: false,
            step: AddStep::CheckFirst,
            error: String::new(),
            content: Ghost(Seq::empty()),
            before: Ghost(self.assets@),
            log: Ghost(Seq::empty()),
        }
    }

    /// Whether a source path can be staged at all.
    fn check_source(&self, source: &str) -> (r: Result<(), String>)
        ensures
            match r {
                Ok(_) => source_complaint(source@) is None,
                Err(e) => source_complaint(source@) == Some(e@),
            },
    {
        if !(path::absolute(source) && text::len(source) <= 4096) {
            return Err("Source media path must be absolute and at most 4096 bytes".to_owned());
        }
        if contains_nul(source) {
            return Err("Source media path contains a NUL byte".to_owned());
        }
        Ok(())
    }

    fn find(&self, source: &str) -> (r: usize)
        ensures
            r == asset_from(self.assets@, source@, 0),
            r <= self.assets@.len(),
    {
        let mut i: usize = 0;
        while i < self.assets.len()
            invariant
                i <= self.assets@.len(),
                asset_from(self.assets@, source@, 0) == asset_from(
                    self.assets@,
                    source@,
                    i as int,
                ),
            decreases self.assets@.len() - i,
        {
            if path::same(self.assets[i].source.as_str(), source) {
                return i;
            }
            i += 1;
        }
        i
    }

    /// Begins to stage an open source file.
    fn begin(&self, source: &str, meta: &Metadata) -> (r: Result<Begin, String>)
        ensures
            match r {
                Err(e) => begin_complaint(*self, source@, *meta) == Some(e@),
                Ok(Begin::Known { destination }) => {
                    let known = asset_from(self.assets@, source@, 0);
                    &&& begin_complaint(*self, source@, *meta) is None
                    &&& known < self.assets@.len()
                    &&& destination@ == self.assets@[known].destination@
                },
                Ok(Begin::Copy { copy }) => {
                    &&& begin_complaint(*self, source@, *meta) is None
                    &&& asset_from(self.assets@, source@, 0) == self.assets@.len()
                    &&& copy.source@ == source@
                    &&& copy.identity == identity_spec(*meta)
                    &&& copy.offset == 0
                    &&& absorbed(copy.hasher) == Seq::<u8>::empty()
                },
            },
    {
        if meta.kind != FileKind::File {
            return Err(with_source(source, " is not a regular media file"));
        }
        let found = identity(meta);
        let known: usize = self.find(source);
        if known < self.assets.len() {
            if same_identity(&self.assets[known].identity, &found) {
                return Ok(Begin::Known { destination: self.assets[known].destination.clone() });
            }
            return Err(with_source(source, " changed during media staging"));
        }
        if self.assets.len() >= MAX_ASSETS {
            return Err("Media staging exceeds 4096 source files".to_owned());
        }
        if meta.len > self.asset_limit {
            return Err(with_source(source, " exceeds the 2 GiB media-file limit"));
        }
        let room: u64 = if self.stored < self.stage_limit {
            self.stage_limit - self.stored
        } else {
            0
        };
        if meta.len > room {
            return Err(
                "Media staging exceeds its 8 GiB budget, including the temporary copy".to_owned(),
            );
        }
        Ok(
            Begin::Copy {
                copy: Copying {
                    source: source.to_owned(),
                    identity: found,
                    offset: 0,
                    hasher: Hasher::new(),
                },
            },
        )
    }

    /// Whether content with a digest is stored already.
    fn has_object(&self, digest: &str) -> (r: bool)
        ensures
            r == stored_object(self.objects@, digest@),
    {
        let mut i: usize = 0;
        while i < self.objects.len()
            invariant
                i <= self.objects@.len(),
                forall|j: int| 0 <= j < i ==> (#[trigger] self.objects@[j])@ != digest@,
            decreases self.objects@.len() - i,
        {
            if text::eq(self.objects[i].as_str(), digest) {
                return true;
            }
            i += 1;
        }
        false
    }

    /// New content was stored under its digest.
    fn store_object(&mut self, digest: &str, bytes: u64)
        requires
            old(self).wf(),
            !stored_object(old(self).objects@, digest@),
            bytes <= old(self).stage_limit - old(self).stored,
        ensures
            final(self).wf(),
            final(self).stored == old(self).stored + bytes,
            final(self).objects@.len() == old(self).objects@.len() + 1,
            final(self).objects@.drop_last() == old(self).objects@,
            final(self).objects@.last()@ == digest@,
            final(self).assets == old(self).assets,
            final(self).destination == old(self).destination,
            final(self).asset_limit == old(self).asset_limit,
            final(self).stage_limit == old(self).stage_limit,
    {
        self.stored = self.stored + bytes;
        let ghost before = self.objects@;
        self.objects.push(digest.to_owned());
        assert(self.objects@.drop_last() =~= before);
        assert forall|i: int, j: int| 0 <= i < j < self.objects@.len() implies (
        #[trigger] self.objects@[i])@ != (#[trigger] self.objects@[j])@ by {
            assert(self.objects@[i] == before[i]);
            if j < before.len() {
                assert(self.objects@[j] == before[j]);
            }
        }
        assert forall|i: int| 0 <= i < self.assets@.len() implies staged_at(
            *self,
            #[trigger] self.assets@[i],
        ) by {
            let asset = self.assets@[i];
            assert(staged_at(*old(self), asset));
            let k = choose|k: int|
                0 <= k < before.len() && asset.destination@ == path::join_of(
                    self.destination@,
                    alias_name(asset.source@, (#[trigger] before[k])@),
                );
            assert(self.objects@[k] == before[k]);
        }
    }

    /// The staged copy of a source is complete: the path that it will have.
    fn record(&mut self, source: &str, identity: SourceIdentity, digest: &str) -> (r: String)
        requires
            old(self).wf(),
            asset_from(old(self).assets@, source@, 0) == old(self).assets@.len(),
            stored_object(old(self).objects@, digest@),
        ensures
            final(self).wf(),
            r@ == path::join_of(old(self).destination@, alias_name(source@, digest@)),
            final(self).assets@.len() == old(self).assets@.len() + 1,
            final(self).assets@.drop_last() == old(self).assets@,
            final(self).assets@.last().source@ == source@,
            final(self).assets@.last().identity == identity,
            final(self).assets@.last().destination@ == r@,
            final(self).objects == old(self).objects,
            final(self).stored == old(self).stored,
            final(self).destination == old(self).destination,
            final(self).asset_limit == old(self).asset_limit,
            final(self).stage_limit == old(self).stage_limit,
    {
        let name = alias(source, digest);
        let destination = path::join(self.destination.as_str(), name.as_str());
        let ghost before = self.assets@;
        self.assets.push(
            Asset { source: source.to_owned(), identity, destination: destination.clone() },
        );
        proof {
            assert(self.assets@.drop_last() =~= before);
            absent(before, source@, 0);
            assert forall|i: int, j: int|
                0 <= i < j < self.assets@.len() implies !path::same_path(
                (#[trigger] self.assets@[i]).source@,
                (#[trigger] self.assets@[j]).source@,
            ) by {
                assert(self.assets@[i] == before[i]);
                if j < before.len() {
                    assert(self.assets@[j] == before[j]);
                }
            }
            assert forall|i: int| 0 <= i < self.assets@.len() implies staged_at(
                *self,
                #[trigger] self.assets@[i],
            ) by {
                if i < before.len() {
                    assert(self.assets@[i] == before[i]);
                    assert(staged_at(*old(self), before[i]));
                } else {
                    let k = choose|k: int|
                        0 <= k < self.objects@.len() && (#[trigger] self.objects@[k])@ == digest@;
                    assert(self.objects@[k]@ == digest@);
                }
            }
        }
        destination
    }

    /// The staged path of a source.
    pub fn path_of(&self, source: &str) -> (r: Option<String>)
        ensures
            ({
                let known = asset_from(self.assets@, source@, 0);
                match r {
                    Some(p) => known < self.assets@.len() && p@ == self.assets@[known].destination@,
                    None => known >= self.assets@.len(),
                }
            }),
    {
        let known: usize = self.find(source);
        if known < self.assets.len() {
            Some(self.assets[known].destination.clone())
        } else {
            None
        }
    }

    pub fn stored_bytes(&self) -> (r: u64)
        ensures
            r == self.stored,
    {
        self.stored
    }

    pub fn unique_files(&self) -> (r: usize)
        ensures
            r == self.objects@.len(),
    {
        self.objects.len()
    }
}

/// Whether a file is another name of an object.
pub open spec fn is_alias(existing: Metadata, object: Metadata) -> bool {
    existing.kind == FileKind::File && existing.dev == object.dev && existing.ino == object.ino
}

fn check_alias(existing: &Metadata, object: &Metadata) -> (r: Result<(), String>)
    ensures
        match r {
            Ok(_) => is_alias(*existing, *object),
            Err(e) => !is_alias(*existing, *object) && e@ == "Staged media alias was replaced"@,
        },
{
    if existing.kind == FileKind::File && existing.dev == object.dev && existing.ino == object.ino {
        Ok(())
    } else {
        Err("Staged media alias was replaced".to_owned())
    }
}

/// The name that a staged source gets beside its object.
pub open spec fn alias_name(source: Seq<char>, digest: Seq<char>) -> Seq<char> {
    digest + "."@ + staged_extension(source)
}

pub fn alias(source: &str, digest: &str) -> (r: String)
    ensures
        r@ == alias_name(source@, digest@),
{
    let mut r = digest.to_owned();
    r.append(".");
    r.append(extension_for(source).as_str());
    r
}

/// An asset list without a source has no entry of that path.
proof fn absent(assets: Seq<Asset>, source: Seq<char>, i: int)
    requires
        0 <= i <= assets.len(),
        asset_from(assets, source, i) == assets.len(),
    ensures
        forall|j: int| i <= j < assets.len() ==> !path::same_path((#[trigger] assets[j]).source@, source),
    decreases assets.len() - i,
{
    if i < assets.len() {
        absent(assets, source, i + 1);
    }
}

impl Copying {
    /// One more piece of the content was read.
    fn chunk(&mut self, bytes: &[u8]) -> (r: Result<(), String>)
        requires
            old(self).offset <= old(self).identity.length,
        ensures
            match r {
                Ok(_) => {
                    &&& old(self).offset + bytes@.len() <= old(self).identity.length
                    &&& final(self).offset == old(self).offset + bytes@.len()
                    &&& absorbed(final(self).hasher) == absorbed(old(self).hasher) + bytes@
                    &&& final(self).source == old(self).source
                    &&& final(self).identity == old(self).identity
                },
                Err(e) => {
                    &&& old(self).offset + bytes@.len() > old(self).identity.length
                    &&& e@ == old(self).source@ + " grew while being copied"@
                    &&& *final(self) == *old(self)
                },
            },
    {
        let count: u64 = bytes.len() as u64;
        if count > self.identity.length - self.offset {
            return Err(with_source(self.source.as_str(), " grew while being copied"));
        }
        self.hasher.update(bytes);
        self.offset = self.offset + count;
        Ok(())
    }

    /// The end of the content, with the source's metadata now.
    fn finish(self, now: &Metadata) -> (r: Result<String, String>)
        ensures
            ({
                let complete = self.offset == self.identity.length && identity_spec(*now)
                    == self.identity;
                match r {
                    Ok(digest) => complete && digest@ == fingerprint(absorbed(self.hasher)),
                    Err(e) => !complete && e@ == self.source@ + " changed while being copied"@,
                }
            }),
    {
        if self.offset == self.identity.length && same_identity(&identity(now), &self.identity) {
            Ok(self.hasher.finish())
        } else {
            Err(with_source(self.source.as_str(), " changed while being copied"))
        }
    }
}

/// What staging one source does next.
#[derive(Clone, Copy, Debug, PartialEq, Eq, Structural)]
pub enum AddStep {
    CheckFirst,
    Inspect,
    CreateTemporary,
    CheckRound,
    Read,
    Write,
    Reread,
    CheckCopied,
    SyncTemporary,
    Keep,
    Link,
    CompareAlias,
    CheckLinked,
    Added,
    Failed,
}

pub open spec fn add_rank(step: AddStep) -> int {
    match step {
        AddStep::CheckFirst => 0,
        AddStep::Inspect => 1,
        AddStep::CreateTemporary => 2,
        AddStep::CheckRound => 3,
        AddStep::Read => 4,
        AddStep::Write => 5,
        AddStep::Reread => 6,
        AddStep::CheckCopied => 7,
        AddStep::SyncTemporary => 8,
        AddStep::Keep => 9,
        AddStep::Link => 10,
        AddStep::CompareAlias => 11,
        AddStep::CheckLinked => 12,
        AddStep::Added => 13,
        AddStep::Failed => 14,
    }
}

/// Whether every copy takes a step. An empty source is never written, content that is stored already
/// is not kept again, and a name is compared only where it was taken.
pub open spec fn always_taken(step: AddStep) -> bool {
    step != AddStep::Write && step != AddStep::Keep && step != AddStep::CompareAlias
}

/// The staging of one source under way.
pub struct Adding {
    pub staging: MediaStaging,
    pub source: String,
    /// The source as it was when the copy began.
    pub identity: SourceIdentity,
    pub copy: Option<Copying>,
    /// How many bytes of the last piece are still to be written.
    pub pending: u64,
    pub digest: String,
    /// The path that the copy will have.
    pub destination: String,
    /// Whether the source was staged before.
    pub known: bool,
    pub step: AddStep,
    pub error: String,
    /// The content that was read.
    pub content: Ghost<Seq<u8>>,
    /// What was staged before this source.
    pub before: Ghost<Seq<Asset>>,
    /// The steps that succeeded, in order.
    pub log: Ghost<Seq<AddStep>>,
}

pub open spec fn add_stops(before: Adding, after: Adding, text: Seq<char>) -> bool {
    after == (Adding { step: AddStep::Failed, error: after.error, ..before })
        && after.error@ == text
}

pub open spec fn add_moves(before: Adding, after: Adding, next: AddStep) -> bool {
    after == (Adding { step: next, log: Ghost(before.log@.push(before.step)), ..before })
}

/// The steps at which the control is asked.
pub open spec fn asks_control(step: AddStep) -> bool {
    step == AddStep::CheckFirst || step == AddStep::CheckRound || step == AddStep::CheckCopied
}

pub open spec fn after_control(step: AddStep) -> AddStep {
    match step {
        AddStep::CheckFirst => AddStep::Inspect,
        AddStep::CheckRound => AddStep::Read,
        _ => AddStep::SyncTemporary,
    }
}

/// What came of giving a stored object its name.
pub enum Linked {
    Done,
    Taken,
    Failed(String),
}

impl Adding {
    pub open spec fn wf(self) -> bool {
        self.step != AddStep::Failed ==> {
            &&& self.staging.wf()
            &&& if self.step == AddStep::Added && !self.known {
                &&& self.staging.assets@.len() == self.before@.len() + 1
                &&& self.staging.assets@.drop_last() == self.before@
                &&& self.staging.assets@.last().source@ == self.source@
                &&& self.staging.assets@.last().destination@ == self.destination@
                &&& self.destination@ == path::join_of(
                    self.staging.destination@,
                    alias_name(self.source@, self.digest@),
                )
            } else {
                self.staging.assets@ == self.before@
            }
            &&& self.known ==> is_recorded(self.before@, self.source@)
            &&& !self.known ==> forall|s: AddStep|
                add_rank(s) < add_rank(self.step) && always_taken(s) ==> #[trigger] self.log@.contains(
                    s,
                )
            &&& self.known ==> self.step == AddStep::Added
            &&& self.step != AddStep::CheckFirst ==> source_complaint(self.source@) is None
            &&& add_rank(AddStep::Inspect) < add_rank(self.step) < add_rank(AddStep::Added) ==> {
                &&& asset_from(self.staging.assets@, self.source@, 0) == self.staging.assets@.len()
                &&& self.copy is Some ==> self.reading()
            }
            &&& add_rank(AddStep::Inspect) < add_rank(self.step) <= add_rank(AddStep::Reread)
                ==> self.copy is Some
            &&& add_rank(AddStep::Reread) < add_rank(self.step) && !self.known ==> {
                &&& self.copy is None
                &&& self.content@.len() == self.identity.length
                &&& self.digest@ == fingerprint(self.content@)
            }
            &&& add_rank(AddStep::Reread) < add_rank(self.step) <= add_rank(AddStep::Keep)
                ==> self.identity.length <= self.staging.stage_limit - self.staging.stored
            &&& self.step == AddStep::Keep ==> !stored_object(self.staging.objects@, self.digest@)
            &&& add_rank(AddStep::Keep) < add_rank(self.step) && !self.known ==> stored_object(
                self.staging.objects@,
                self.digest@,
            )
        }
    }

    /// The copy so far is the content that was read, and still fits.
    pub open spec fn reading(self) -> bool {
        &&& self.copy->0.source@ == self.source@
        &&& self.copy->0.identity == self.identity
        &&& self.copy->0.offset == self.content@.len()
        &&& self.copy->0.offset <= self.identity.length
        &&& absorbed(self.copy->0.hasher) == self.content@
        &&& self.identity.length <= self.staging.stage_limit - self.staging.stored
    }

    fn advance(&mut self, next: AddStep)
        requires
            (Adding {
                step: next,
                log: Ghost(old(self).log@.push(old(self).step)),
                ..*old(self)
            }).wf(),
        ensures
            final(self).wf(),
            add_moves(*old(self), *final(self), next),
    {
        self.log = Ghost(self.log@.push(self.step));
        self.step = next;
    }

    /// A step could not be done.
    pub fn failed(&mut self, reason: &str)
        ensures
            final(self).wf(),
            add_stops(*old(self), *final(self), reason@),
    {
        self.step = AddStep::Failed;
        self.error = reason.to_owned();
    }

    /// The control of the copy, at a time in milliseconds after it was made. At first the path of
    /// the source is judged too, before the source is looked at.
    pub fn control(&mut self, control: &CopyControl, elapsed_ms: u64)
        requires
            old(self).wf(),
            asks_control(old(self).step),
        ensures
            final(self).wf(),
            match control_complaint(*control, elapsed_ms) {
                Some(e) => add_stops(*old(self), *final(self), e),
                None => match source_complaint(old(self).source@) {
                    Some(e) => add_stops(*old(self), *final(self), e),
                    None => add_moves(*old(self), *final(self), after_control(old(self).step)),
                },
            },
    {
        match control.check(elapsed_ms) {
            Err(e) => {
                self.failed(e.as_str());
            },
            Ok(_) => {
                if self.step == AddStep::CheckFirst {
                    match self.staging.check_source(self.source.as_str()) {
                        Err(e) => {
                            self.failed(e.as_str());
                            return;
                        },
                        Ok(_) => {},
                    }
                }
                proof {
                    steps::push_holds(self.log@, self.step);
                }
                let next = match self.step {
                    AddStep::CheckFirst => AddStep::Inspect,
                    AddStep::CheckRound => AddStep::Read,
                    _ => AddStep::SyncTemporary,
                };
                self.advance(next);
            },
        }
    }

    /// The source file that was opened.
    pub fn inspected(&mut self, meta: &Metadata)
        requires
            old(self).wf(),
            old(self).step == AddStep::Inspect,
        ensures
            final(self).wf(),
            match begin_complaint(old(self).staging, old(self).source@, *meta) {
                Some(e) => add_stops(*old(self), *final(self), e),
                None => {
                    let known = asset_from(old(self).staging.assets@, old(self).source@, 0);
                    if known < old(self).staging.assets@.len() {
                        &&& *final(self) == (Adding {
                            step: AddStep::Added,
                            log: Ghost(old(self).log@.push(AddStep::Inspect)),
                            known: true,
                            destination: final(self).destination,
                            ..*old(self)
                        })
                        &&& final(self).destination@
                            == old(self).staging.assets@[known].destination@
                    } else {
                        *final(self) == (Adding {
                            step: AddStep::CreateTemporary,
                            log: Ghost(old(self).log@.push(AddStep::Inspect)),
                            copy: final(self).copy,
                            content: Ghost(Seq::empty()),
                            identity: identity_spec(*meta),
                            ..*old(self)
                        })
                    }
                },
            },
    {
        proof {
            steps::push_holds(self.log@, self.step);
        }
        match self.staging.begin(self.source.as_str(), meta) {
            Err(e) => {
                self.failed(e.as_str());
            },
            Ok(Begin::Known { destination }) => {
                self.destination = destination;
                self.known = true;
                self.log = Ghost(self.log@.push(self.step));
                self.step = AddStep::Added;
            },
            Ok(Begin::Copy { copy }) => {
                self.content = Ghost(Seq::empty());
                self.identity = copy.identity;
                self.copy = Some(copy);
                self.log = Ghost(self.log@.push(self.step));
                self.step = AddStep::CreateTemporary;
            },
        }
    }

    /// The temporary copy was created.
    pub fn created(&mut self)
        requires
            old(self).wf(),
            old(self).step == AddStep::CreateTemporary,
        ensures
            final(self).wf(),
            add_moves(*old(self), *final(self), AddStep::CheckRound),
    {
        proof {
            steps::push_holds(self.log@, self.step);
        }
        self.advance(AddStep::CheckRound);
    }

    /// The next piece of the source, which is empty at its end.
    pub fn bytes(&mut self, bytes: &[u8])
        requires
            old(self).wf(),
            old(self).step == AddStep::Read,
        ensures
            final(self).wf(),
            if bytes@.len() == 0 {
                add_moves(*old(self), *final(self), AddStep::Reread)
            } else if old(self).content@.len() + bytes@.len() > old(self).identity.length {
                add_stops(
                    *old(self),
                    *final(self),
                    old(self).source@ + " grew while being copied"@,
                )
            } else {
                *final(self) == (Adding {
                    step: AddStep::Write,
                    log: Ghost(old(self).log@.push(AddStep::Read)),
                    copy: final(self).copy,
                    pending: bytes@.len() as u64,
                    content: Ghost(old(self).content@ + bytes@),
                    ..*old(self)
                })
            },
    {
        proof {
            steps::push_holds(self.log@, self.step);
        }
        if bytes.len() == 0 {
            self.advance(AddStep::Reread);
            return;
        }
        match self.copy.take() {
            None => {},
            Some(copy) => {
                let mut copy = copy;
                let count: u64 = bytes.len() as u64;
                match copy.chunk(bytes) {
                    Err(e) => {
                        self.copy = Some(copy);
                        self.failed(e.as_str());
                    },
                    Ok(_) => {
                        self.copy = Some(copy);
                        self.content = Ghost(self.content@ + bytes@);
                        self.pending = count;
                        self.log = Ghost(self.log@.push(self.step));
                        self.step = AddStep::Write;
                    },
                }
            },
        }
    }

    /// The piece was written to the temporary copy.
    pub fn written(&mut self, control: &mut CopyControl)
        requires
            old(self).wf(),
            old(self).step == AddStep::Write,
        ensures
            final(self).wf(),
            add_moves(*old(self), *final(self), AddStep::CheckRound),
            *final(control) == (CopyControl {
                copied: old(control).copied.wrapping_add(old(self).pending),
                ..*old(control)
            }),
    {
        proof {
            steps::push_holds(self.log@, self.step);
        }
        control.copied = control.copied.wrapping_add(self.pending);
        self.advance(AddStep::CheckRound);
    }

    /// The source file once more, when its end was read.
    pub fn reread(&mut self, now: &Metadata)
        requires
            old(self).wf(),
            old(self).step == AddStep::Reread,
        ensures
            final(self).wf(),
            if old(self).content@.len() == old(self).identity.length && identity_spec(*now)
                == old(self).identity {
                &&& *final(self) == (Adding {
                    step: AddStep::CheckCopied,
                    log: Ghost(old(self).log@.push(AddStep::Reread)),
                    copy: None,
                    digest: final(self).digest,
                    ..*old(self)
                })
                &&& final(self).digest@ == fingerprint(old(self).content@)
            } else {
                &&& *final(self) == (Adding {
                    step: AddStep::Failed,
                    copy: None,
                    error: final(self).error,
                    ..*old(self)
                })
                &&& final(self).error@ == old(self).source@ + " changed while being copied"@
            },
    {
        proof {
            steps::push_holds(self.log@, self.step);
        }
        match self.copy.take() {
            None => {},
            Some(copy) => {
                match copy.finish(now) {
                    Err(e) => {
                        self.failed(e.as_str());
                    },
                    Ok(digest) => {
                        self.digest = digest;
                        self.log = Ghost(self.log@.push(self.step));
                        self.step = AddStep::CheckCopied;
                    },
                }
            },
        }
    }

    /// The temporary copy is on disk. It is kept only where its content was not stored before.
    pub fn synced(&mut self)
        requires
            old(self).wf(),
            old(self).step == AddStep::SyncTemporary,
        ensures
            final(self).wf(),
            add_moves(
                *old(self),
                *final(self),
                if stored_object(old(self).staging.objects@, old(self).digest@) {
                    AddStep::Link
                } else {
                    AddStep::Keep
                },
            ),
    {
        proof {
            steps::push_holds(self.log@, self.step);
        }
        if self.staging.has_object(self.digest.as_str()) {
            self.advance(AddStep::Link);
        } else {
            self.advance(AddStep::Keep);
        }
    }

    /// The temporary copy was kept under its digest.
    pub fn kept(&mut self)
        requires
            old(self).wf(),
            old(self).step == AddStep::Keep,
        ensures
            final(self).wf(),
            *final(self) == (Adding {
                step: AddStep::Link,
                log: Ghost(old(self).log@.push(AddStep::Keep)),
                staging: final(self).staging,
                ..*old(self)
            }),
            final(self).staging.stored == old(self).staging.stored + old(self).identity.length,
            final(self).staging.objects@.len() == old(self).staging.objects@.len() + 1,
            final(self).staging.objects@.drop_last() == old(self).staging.objects@,
            final(self).staging.objects@.last()@ == old(self).digest@,
            final(self).staging.assets == old(self).staging.assets,
            final(self).staging.destination == old(self).staging.destination,
            final(self).staging.asset_limit == old(self).staging.asset_limit,
            final(self).staging.stage_limit == old(self).staging.stage_limit,
    {
        proof {
            steps::push_holds(self.log@, self.step);
        }
        self.staging.store_object(self.digest.as_str(), self.identity.length);
        assert(self.staging.objects@[self.staging.objects@.len() - 1]@ == self.digest@);
        self.log = Ghost(self.log@.push(self.step));
        self.step = AddStep::Link;
    }

    /// What came of giving the stored content its name.
    pub fn linked(&mut self, result: &Linked)
        requires
            old(self).wf(),
            old(self).step == AddStep::Link,
        ensures
            final(self).wf(),
            match *result {
                Linked::Done => add_moves(*old(self), *final(self), AddStep::CheckLinked),
                Linked::Taken => add_moves(*old(self), *final(self), AddStep::CompareAlias),
                Linked::Failed(e) => add_stops(
                    *old(self),
                    *final(self),
                    "Creating staged media filename: "@ + e@,
                ),
            },
    {
        proof {
            steps::push_holds(self.log@, self.step);
        }
        match result {
            Linked::Done => {
                self.advance(AddStep::CheckLinked);
            },
            Linked::Taken => {
                self.advance(AddStep::CompareAlias);
            },
            Linked::Failed(e) => {
                let mut text = "Creating staged media filename: ".to_owned();
                text.append(e.as_str());
                self.failed(text.as_str());
            },
        }
    }

    /// The file that has the name already, and the stored content.
    pub fn compared(&mut self, existing: &Metadata, object: &Metadata)
        requires
            old(self).wf(),
            old(self).step == AddStep::CompareAlias,
        ensures
            final(self).wf(),
            if is_alias(*existing, *object) {
                add_moves(*old(self), *final(self), AddStep::CheckLinked)
            } else {
                add_stops(*old(self), *final(self), "Staged media alias was replaced"@)
            },
    {
        proof {
            steps::push_holds(self.log@, self.step);
        }
        match check_alias(existing, object) {
            Ok(_) => {
                self.advance(AddStep::CheckLinked);
            },
            Err(e) => {
                self.failed(e.as_str());
            },
        }
    }

    /// The control of the copy at the end. The source is recorded with the path of its copy.
    pub fn confirm(&mut self, control: &CopyControl, elapsed_ms: u64)
        requires
            old(self).wf(),
            old(self).step == AddStep::CheckLinked,
        ensures
            final(self).wf(),
            match control_complaint(*control, elapsed_ms) {
                Some(e) => add_stops(*old(self), *final(self), e),
                None => {
                    &&& *final(self) == (Adding {
                        step: AddStep::Added,
                        log: Ghost(old(self).log@.push(AddStep::CheckLinked)),
                        staging: final(self).staging,
                        destination: final(self).destination,
                        ..*old(self)
                    })
                    &&& final(self).destination@ == path::join_of(
                        old(self).staging.destination@,
                        alias_name(old(self).source@, old(self).digest@),
                    )
                    &&& final(self).staging.assets@.len() == old(self).staging.assets@.len() + 1
                    &&& final(self).staging.assets@.drop_last() == old(self).staging.assets@
                    &&& final(self).staging.assets@.last().source@ == old(self).source@
                    &&& final(self).staging.assets@.last().identity == old(self).identity
                    &&& final(self).staging.assets@.last().destination@
                        == final(self).destination@
                    &&& final(self).staging.objects == old(self).staging.objects
                    &&& final(self).staging.stored == old(self).staging.stored
                    &&& final(self).staging.destination == old(self).staging.destination
                    &&& final(self).staging.asset_limit == old(self).staging.asset_limit
                    &&& final(self).staging.stage_limit == old(self).staging.stage_limit
                },
            },
    {
        match control.check(elapsed_ms) {
            Err(e) => {
                self.failed(e.as_str());
            },
            Ok(_) => {
                proof {
                    steps::push_holds(self.log@, self.step);
                }
                self.destination =
                self.staging.record(self.source.as_str(), self.identity, self.digest.as_str());
                self.log = Ghost(self.log@.push(self.step));
                self.step = AddStep::Added;
            },
        }
    }
}

/// A copy that was staged holds the whole source as it was, on disk and under the digest of its
/// content.
pub proof fn staged_copies_are_complete(adding: Adding)
    requires
        adding.wf(),
        adding.step == AddStep::Added,
        !adding.known,
    ensures
        adding.content@.len() == adding.identity.length,
        adding.digest@ == fingerprint(adding.content@),
        stored_object(adding.staging.objects@, adding.digest@),
        adding.log@.contains(AddStep::Reread),
        adding.log@.contains(AddStep::SyncTemporary),
        adding.log@.contains(AddStep::Link),
        adding.log@.contains(AddStep::CheckLinked),
{
}

/// Two copies of one content get one stem, the digest of that content, in the directories that they
/// are meant for; each has the extension that its own source gives it. Where the extensions agree
/// too, the two copies are one file.
pub proof fn equal_contents_share_a_stem(a: Adding, b: Adding)
    requires
        a.wf(),
        b.wf(),
        a.step == AddStep::Added,
        b.step == AddStep::Added,
        !a.known,
        !b.known,
        a.content@ == b.content@,
    ensures
        a.digest@ == b.digest@,
        a.digest@ == fingerprint(a.content@),
        a.destination@ == path::join_of(
            a.staging.destination@,
            a.digest@ + "."@ + staged_extension(a.source@),
        ),
        b.destination@ == path::join_of(
            b.staging.destination@,
            a.digest@ + "."@ + staged_extension(b.source@),
        ),
        a.staging.destination@ == b.staging.destination@ && staged_extension(a.source@)
            == staged_extension(b.source@) ==> a.destination@ == b.destination@,
{
}

/// Two copies with one stem have the same content, unless SHA-256 has a collision there.
pub proof fn equal_stems_mean_equal_contents(a: Adding, b: Adding)
    requires
        a.wf(),
        b.wf(),
        a.step == AddStep::Added,
        b.step == AddStep::Added,
        !a.known,
        !b.known,
        a.digest@ == b.digest@,
    ensures
        a.content@ == b.content@ || collides(a.content@, b.content@),
{
    fingerprints_tell_contents_apart(a.content@, b.content@);
}

/// The extension of a copy is that of its source in lower case, where it has 1 to 16 ASCII letters
/// and digits, and "bin" otherwise; so it never leads out of the directory.
pub proof fn extensions_stay_in_the_directory(source: Seq<char>)
    ensures
        staged_extension(source) == "bin"@ || exists|e: Seq<char>| #[trigger]
            valid_extension(e) && staged_extension(source) == text::lowered(e),
        1 <= staged_extension(source).len() <= 16,
        !staged_extension(source).contains('/'),
        !staged_extension(source).contains('.'),
{
    reveal_strlit("bin");
    let found = staged_extension(source);
    if found != "bin"@ {
        let name = path::file_name_of(source)->0;
        let e = extension_of(name)->0;
        assert(valid_extension(e));
        assert forall|i: int| 0 <= i < found.len() implies found[i] != '/' && found[i] != '.' by {
            assert(text::is_alphanumeric(e[i]));
        }
    }
}

/// A source that was staged once and has not changed is not copied again.
pub proof fn staging_again_changes_nothing(s: MediaStaging, source: Seq<char>, meta: Metadata)
    requires
        meta.kind == FileKind::File,
        asset_from(s.assets@, source, 0) < s.assets@.len(),
        s.assets@[asset_from(s.assets@, source, 0)].identity == identity_spec(meta),
    ensures
        begin_complaint(s, source, meta) is None,
{
}

/// Whatever spelling of a staged source is asked for, its path lies in the destination of the stage,
/// under the digest of a stored object and with the extension that this spelling gives.
pub proof fn staged_paths_lead_to_objects(s: MediaStaging, source: Seq<char>)
    requires
        s.wf(),
        is_recorded(s.assets@, source),
    ensures
        exists|i: int|
            0 <= i < s.objects@.len() && s.assets@[asset_from(
                s.assets@,
                source,
                0,
            )].destination@ == path::join_of(
                s.destination@,
                (#[trigger] s.objects@[i])@ + "."@ + staged_extension(source),
            ),
{
    let known = asset_from(s.assets@, source, 0);
    known_source(s.assets@, source, 0);
    let asset = s.assets@[known];
    assert(staged_at(s, asset));
    let i = choose|i: int|
        0 <= i < s.objects@.len() && asset.destination@ == path::join_of(
            s.destination@,
            alias_name(asset.source@, (#[trigger] s.objects@[i])@),
        );
    assert(path::file_name_of(asset.source@) == path::file_name_of(source));
    assert(alias_name(asset.source@, s.objects@[i]@) == s.objects@[i]@ + "."@ + staged_extension(
        source,
    ));
}

/// A source that was found is spelled as its entry, or names the same path.
proof fn known_source(assets: Seq<Asset>, source: Seq<char>, i: int)
    requires
        0 <= i,
        asset_from(assets, source, i) < assets.len(),
    ensures
        i <= asset_from(assets, source, i),
        path::same_path(assets[asset_from(assets, source, i)].source@, source),
    decreases assets.len() - i,
{
    if !path::same_path(assets[i].source@, source) {
        known_source(assets, source, i + 1);
    }
}

/// A copy goes on exactly where it was not cancelled and its time is not over.
pub proof fn copies_go_on_until_cancelled_or_late(c: CopyControl, elapsed_ms: u64)
    ensures
        control_complaint(c, elapsed_ms) is None <==> !c.cancelled && elapsed_ms < c.deadline_ms,
{
}

/// Copies can be staged for exactly the absolute paths of at most 4000 bytes without a NUL, and
/// sources be staged by exactly those of at most 4096.
pub proof fn paths_are_absolute_and_bounded(p: Seq<char>)
    ensures
        destination_complaint(p) is None <==> p.len() > 0 && p[0] == '/' && text::byte_len(p) <= 4000
            && !p.contains('\0'),
        source_complaint(p) is None <==> p.len() > 0 && p[0] == '/' && text::byte_len(p) <= 4096
            && !p.contains('\0'),
{
    text::find_from_props(p, '\0', 0);
    let n = text::find_from(p, '\0', 0);
    if p.contains('\0') {
        assert(p[p.index_of('\0')] == '\0');
    }
    if n < p.len() {
        assert(p[n] == '\0');
    }
}

/// A source is staged exactly where it is a regular file and, if it was staged before, did not change,
/// or otherwise is one of at most 4096, no larger than one file may be, and fits what is left.
pub proof fn sources_are_staged_within_their_limits(s: MediaStaging, source: Seq<char>, meta: Metadata)
    requires
        s.wf(),
    ensures
        begin_complaint(s, source, meta) is None <==> {
            &&& meta.kind == FileKind::File
            &&& forall|i: int|
                0 <= i < s.assets@.len() && path::same_path(
                    (#[trigger] s.assets@[i]).source@,
                    source,
                ) ==> s.assets@[i].identity == identity_spec(meta)
            &&& (exists|i: int|
                0 <= i < s.assets@.len() && path::same_path(
                    (#[trigger] s.assets@[i]).source@,
                    source,
                )) || (s.assets@.len() < 4096 && meta.len <= s.asset_limit && s.stored + meta.len
                <= s.stage_limit)
        },
{
    first_of_a_source(s.assets@, source, 0);
    let at = asset_from(s.assets@, source, 0);
    assert forall|i: int|
        0 <= i < s.assets@.len() && path::same_path(
            (#[trigger] s.assets@[i]).source@,
            source,
        ) implies i == at by {
        if at < i {
            assert(path::same_path(s.assets@[at].source@, s.assets@[i].source@));
        }
    }
}

/// A source has a copy exactly where an asset has its path, in whatever spelling, and the first such
/// is it.
pub proof fn first_of_a_source(assets: Seq<Asset>, source: Seq<char>, i: int)
    requires
        0 <= i <= assets.len(),
    ensures
        i <= asset_from(assets, source, i) <= assets.len(),
        asset_from(assets, source, i) < assets.len() <==> exists|k: int|
            i <= k < assets.len() && path::same_path((#[trigger] assets[k]).source@, source),
        asset_from(assets, source, i) < assets.len() ==> path::same_path(
            assets[asset_from(assets, source, i)].source@,
            source,
        ),
        forall|k: int|
            i <= k < asset_from(assets, source, i) ==> !path::same_path(
                (#[trigger] assets[k]).source@,
                source,
            ),
    decreases assets.len() - i,
{
    if i < assets.len() {
        if path::same_path(assets[i].source@, source) {
            assert(asset_from(assets, source, i) == i);
        } else {
            first_of_a_source(assets, source, i + 1);
        }
    }
}

/// A file counts as unchanged exactly where it is the same file, as long as before, and neither its
/// content nor its description was touched.
pub proof fn files_are_told_apart_by_their_state(a: Metadata, b: Metadata)
    ensures
        identity_spec(a) == identity_spec(b) <==> a.dev == b.dev && a.ino == b.ino && a.len == b.len
            && a.mtime == b.mtime && a.mtime_nsec == b.mtime_nsec && a.ctime == b.ctime
            && a.ctime_nsec == b.ctime_nsec,
{
}

proof fn last_dot_is_last(name: Seq<char>, n: int)
    requires
        0 <= n <= name.len(),
    ensures
        -1 <= last_dot(name, n) < n,
        last_dot(name, n) >= 0 ==> name[last_dot(name, n)] == '.',
        forall|k: int| last_dot(name, n) < k < n ==> name[k] != '.',
    decreases n,
{
    if n > 0 && name[n - 1] != '.' {
        last_dot_is_last(name, n - 1);
    }
}

/// The extension is what follows the last dot of a name: it comes back from every name that was given
/// one, and a name without a dot, or with none but at its beginning, has none.
pub proof fn extensions_follow_the_last_dot(a: Seq<char>, e: Seq<char>)
    requires
        !e.contains('.'),
    ensures
        a.len() > 0 ==> extension_of(a.push('.') + e) == Some(e),
        extension_of(e) is None,
        extension_of(seq!['.'] + e) is None,
{
    let whole = a.push('.') + e;
    last_dot_is_last(whole, whole.len() as int);
    assert(whole[a.len() as int] == '.');
    assert forall|k: int| a.len() < k < whole.len() implies whole[k] != '.' by {
        assert(whole[k] == e[k - a.len() - 1]);
        assert(e.contains(e[k - a.len() - 1]));
    }
    assert(last_dot(whole, whole.len() as int) == a.len());
    assert(whole.skip((a.len() + 1) as int) =~= e);
    last_dot_is_last(e, e.len() as int);
    if last_dot(e, e.len() as int) >= 0 {
        assert(e.contains(e[last_dot(e, e.len() as int)]));
    }
    let hidden = seq!['.'] + e;
    last_dot_is_last(hidden, hidden.len() as int);
    let at = last_dot(hidden, hidden.len() as int);
    if at > 0 {
        assert(hidden[at] == e[at - 1]);
        assert(e.contains(e[at - 1]));
    }
}

/// A copy keeps the extension of its source, in small letters, where that is one of media, and gets a
/// general one otherwise. Its name is its digest with that extension.
pub proof fn copies_keep_the_extension(source: Seq<char>, digest: Seq<char>)
    ensures
        ({
            let name = path::file_name_of(source);
            let kept = name is Some && extension_of(name->0) is Some && 1 <= extension_of(
                name->0,
            )->0.len() <= 16 && text::all_alphanumeric(extension_of(name->0)->0);
            &&& kept ==> staged_extension(source) == text::lowered(extension_of(name->0)->0)
            &&& !kept ==> staged_extension(source) == "bin"@
            &&& alias_name(source, digest) == digest + "."@ + staged_extension(source)
        }),
{
}

/// A name that is taken is the copy's own exactly where it is a regular file and the very object.
pub proof fn aliases_are_the_object(existing: Metadata, object: Metadata)
    ensures
        is_alias(existing, object) <==> existing.kind == FileKind::File && existing.dev == object.dev
            && existing.ino == object.ino,
{
}

/// An object is stored exactly where the list has it, and stays so whatever is added.
pub proof fn stored_objects_stay(objects: Seq<String>, more: String, digest: Seq<char>)
    ensures
        stored_object(objects.push(more), digest) <==> stored_object(objects, digest) || more@
            == digest,
        !stored_object(Seq::empty(), digest),
{
    let all = objects.push(more);
    assert(all[objects.len() as int] == more);
    if stored_object(objects, digest) {
        let i = choose|i: int| 0 <= i < objects.len() && (#[trigger] objects[i])@ == digest;
        assert(all[i] == objects[i]);
    }
    if stored_object(all, digest) && more@ != digest {
        let i = choose|i: int| 0 <= i < all.len() && (#[trigger] all[i])@ == digest;
        assert(objects[i] == all[i]);
    }
}

} // verus!
