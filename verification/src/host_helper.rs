//! The control helper that is installed on the host.

use crate::files::{FileKind, Metadata};
use crate::path;
use crate::steps;
use crate::text;
use crate::text::{outcome, texts};
use vstd::prelude::*;

verus! {

/// Where a package installs the helper.
pub open spec fn packaged_spec() -> Seq<char> {
    "/usr/bin/lianli-control"@
}

/// Where the helper lies without a package.
pub open spec fn standalone_spec() -> Seq<char> {
    "/usr/local/libexec/lianli/lianli-control"@
}

pub fn packaged() -> (r: &'static str)
    ensures
        r@ == packaged_spec(),
{
    "/usr/bin/lianli-control"
}

pub fn standalone() -> (r: &'static str)
    ensures
        r@ == standalone_spec(),
{
    "/usr/local/libexec/lianli/lianli-control"
}

/// What looking at a place gave.
pub enum Sighting {
    Present,
    Missing,
    Unreadable(String),
}

pub open spec fn installed_of(packaged: Sighting, standalone: Sighting) -> Result<
    Seq<char>,
    Seq<char>,
> {
    match packaged {
        Sighting::Present => Ok(packaged_spec()),
        Sighting::Unreadable(e) => Err("Cannot inspect installed host helper: "@ + e@),
        Sighting::Missing => match standalone {
            Sighting::Present => Ok(standalone_spec()),
            Sighting::Unreadable(e) => Err("Cannot inspect installed host helper: "@ + e@),
            Sighting::Missing => Err(
                "Install the native control helper or the standalone Distrobox host helper"@,
            ),
        },
    }
}

/// The helper to use: the packaged one before the one without a package.
pub fn installed(packaged: Sighting, standalone: Sighting) -> (r: Result<&'static str, String>)
    ensures
        match r {
            Ok(p) => installed_of(packaged, standalone) == Ok::<Seq<char>, Seq<char>>(p@),
            Err(e) => installed_of(packaged, standalone) == Err::<Seq<char>, Seq<char>>(e@),
        },
{
    match packaged {
        Sighting::Present => Ok(self::packaged()),
        Sighting::Unreadable(e) => Err(
            text::worded("Cannot inspect installed host helper: ", e.as_str()),
        ),
        Sighting::Missing => match standalone {
            Sighting::Present => Ok(self::standalone()),
            Sighting::Unreadable(e) => Err(
            text::worded("Cannot inspect installed host helper: ", e.as_str()),
        ),
            Sighting::Missing => Err(
                "Install the native control helper or the standalone Distrobox host helper".to_owned(),
            ),
        },
    }
}

/// An entry on the way to the helper that only its owner can change.
pub open spec fn is_protected(m: Metadata, owner: u32) -> bool {
    m.uid == owner && (m.kind == FileKind::Symlink || m.mode & 0o022 == 0)
}

/// What speaks against an entry on the way to the helper, where `last` says that it is the helper
/// itself.
pub open spec fn entry_complaint(m: Metadata, owner: u32, last: bool) -> Option<Seq<char>> {
    if !is_protected(m, owner) {
        Some("Host helper paths must be root-owned and not writable by other accounts"@)
    } else if !last && m.kind != FileKind::Directory && m.kind != FileKind::Symlink {
        Some("Host helper parent is not a directory"@)
    } else {
        None
    }
}

/// The first complaint about the entries from `i` on. The first entry is the helper, the others are
/// the directories above it.
pub open spec fn chain_from(entries: Seq<Metadata>, owner: u32, i: int) -> Option<Seq<char>>
    decreases entries.len() - i,
{
    if i < 0 || i >= entries.len() {
        None
    } else {
        match entry_complaint(entries[i], owner, i == 0) {
            Some(e) => Some(e),
            None => chain_from(entries, owner, i + 1),
        }
    }
}

pub open spec fn chain_complaint(
    p: Seq<char>,
    boundary: Seq<char>,
    owner: u32,
    entries: Seq<Metadata>,
) -> Option<Seq<char>> {
    if path::below(p, boundary) is None {
        Some("Host helper left its trusted directory"@)
    } else {
        chain_from(entries, owner, 0)
    }
}

/// Whether each entry from the helper up to the boundary is protected.
pub fn check_chain(p: &str, boundary: &str, owner: u32, entries: &Vec<Metadata>) -> (r: Result<
    (),
    String,
>)
    ensures
        match r {
            Ok(_) => chain_complaint(p@, boundary@, owner, entries@) is None,
            Err(e) => chain_complaint(p@, boundary@, owner, entries@) == Some(e@),
        },
{
    if path::strip(p, boundary).is_none() {
        return Err("Host helper left its trusted directory".to_owned());
    }
    let mut i: usize = 0;
    while i < entries.len()
        invariant
            i <= entries@.len(),
            path::below(p@, boundary@) is Some,
            chain_from(entries@, owner, 0) == chain_from(entries@, owner, i as int),
        decreases entries@.len() - i,
    {
        let m = entries[i];
        if !(m.uid == owner && (m.kind == FileKind::Symlink || m.mode & 0o022 == 0)) {
            return Err(
                "Host helper paths must be root-owned and not writable by other accounts".to_owned(),
            );
        }
        if i != 0 && m.kind != FileKind::Directory && m.kind != FileKind::Symlink {
            return Err("Host helper parent is not a directory".to_owned());
        }
        i += 1;
    }
    Ok(())
}

pub open spec fn is_executable(p: Seq<char>, m: Metadata) -> bool {
    m.kind == FileKind::File && m.mode & 0o111 != 0 && path::file_name_of(p) == Some(
        "lianli-control"@,
    )
}

/// Whether the file that the helper's path leads to can be run.
pub fn check_executable(resolved: &str, m: &Metadata) -> (r: Result<(), String>)
    ensures
        outcome(r) == if is_executable(resolved@, *m) {
            Ok(())
        } else {
            Err("The installed host control helper is not executable"@)
        },
{
    let named = match path::file_name(resolved) {
        Some(n) => text::eq(n.as_str(), "lianli-control"),
        None => false,
    };
    if m.kind == FileKind::File && m.mode & 0o111 != 0 && named {
        Ok(())
    } else {
        Err("The installed host control helper is not executable".to_owned())
    }
}

/// Every entry of an accepted chain belongs to the owner, and nobody else can write it.
pub proof fn accepted_chains_are_protected(entries: Seq<Metadata>, owner: u32, i: int, at: int)
    requires
        chain_from(entries, owner, i) is None,
        0 <= i <= at < entries.len(),
    ensures
        is_protected(entries[at], owner),
    decreases at - i,
{
    if i < at {
        accepted_chains_are_protected(entries, owner, i + 1, at);
    }
}

/// The entries to look at for a path: the path itself, then each directory above it up to the boundary.
pub open spec fn places_of(p: Seq<char>, boundary: Seq<char>) -> Option<Seq<Seq<char>>> {
    match path::below(p, boundary) {
        None => None,
        Some(rest) => Some(
            Seq::new(
                rest.len() + 1,
                |i: int|
                    if i == 0 {
                        p
                    } else {
                        path::leading(p, path::components_of(p).len() - i)
                    },
            ),
        ),
    }
}

pub fn places(p: &str, boundary: &str) -> (r: Option<Vec<String>>)
    ensures
        match r {
            Some(v) => places_of(p@, boundary@) == Some(texts(v@)),
            None => places_of(p@, boundary@) is None,
        },
{
    let rest = match path::strip(p, boundary) {
        Some(rest) => rest,
        None => {
            return None;
        },
    };
    let count: usize = path::components(p).len();
    assert(text::texts(rest@).len() == rest@.len());
    assert(count == path::components_of(p@).len());
    let mut v: Vec<String> = Vec::new();
    v.push(p.to_owned());
    let ghost all = places_of(p@, boundary@)->0;
    assert(texts(v@) =~= all.take(1));
    let mut i: usize = 0;
    while i < rest.len()
        invariant
            places_of(p@, boundary@) == Some(all),
            all.len() == rest@.len() + 1,
            count == path::components_of(p@).len(),
            rest@.len() <= count,
            i <= rest@.len(),
            texts(v@) == all.take(i + 1),
        decreases rest@.len() - i,
    {
        let place = path::lead(p, count - i - 1);
        proof {
            text::texts_push(v@, place);
        }
        v.push(place);
        i += 1;
        assert(all.take(i + 1) =~= all.take(i as int).push(all[i as int]));
    }
    assert(all.take(all.len() as int) =~= all);
    Some(v)
}

/// Where the check of the host's helper stands.
#[derive(Clone, Copy, Debug, PartialEq, Eq, Structural)]
pub enum HelperStep {
    CheckPath,
    Resolve,
    CheckResolved,
    CheckExecutable,
    Verified,
    Failed,
}

pub open spec fn helper_rank(step: HelperStep) -> int {
    match step {
        HelperStep::CheckPath => 0,
        HelperStep::Resolve => 1,
        HelperStep::CheckResolved => 2,
        HelperStep::CheckExecutable => 3,
        HelperStep::Verified => 4,
        HelperStep::Failed => 5,
    }
}

/// The check of the host's helper: each entry on its path, each entry on the path that it leads to,
/// and the file itself.
pub struct HelperPath {
    pub path: String,
    pub boundary: String,
    pub owner: u32,
    /// Where the path leads.
    pub resolved: String,
    pub step: HelperStep,
    pub error: String,
    /// The steps that succeeded, in order.
    pub log: Ghost<Seq<HelperStep>>,
}

pub open spec fn helper_stops(before: HelperPath, after: HelperPath, text: Seq<char>) -> bool {
    after == (HelperPath { step: HelperStep::Failed, error: after.error, ..before })
        && after.error@ == text
}

pub open spec fn helper_moves(before: HelperPath, after: HelperPath, next: HelperStep) -> bool {
    after == (HelperPath { step: next, log: Ghost(before.log@.push(before.step)), ..before })
}

impl HelperPath {
    /// Every step before the present one succeeded.
    pub open spec fn wf(self) -> bool {
        self.step != HelperStep::Failed ==> forall|s: HelperStep|
            helper_rank(s) < helper_rank(self.step) ==> #[trigger] self.log@.contains(s)
    }

    pub fn begin(path: String, boundary: String, owner: u32) -> (r: HelperPath)
        ensures
            r.wf(),
            r.path == path,
            r.boundary == boundary,
            r.owner == owner,
            r.step == HelperStep::CheckPath,
            r.log@ == Seq::<HelperStep>::empty(),
            r.resolved@.len() == 0,
    {
        HelperPath {
            path,
            boundary,
            owner,
            resolved: String::new(),
            step: HelperStep::CheckPath,
            error: String::new(),
            log: Ghost(Seq::empty()),
        }
    }

    fn advance(&mut self, next: HelperStep)
        requires
            (HelperPath {
                step: next,
                log: Ghost(old(self).log@.push(old(self).step)),
                ..*old(self)
            }).wf(),
        ensures
            final(self).wf(),
            helper_moves(*old(self), *final(self), next),
    {
        self.log = Ghost(self.log@.push(self.step));
        self.step = next;
    }

    /// A step could not be done.
    pub fn failed(&mut self, reason: &str)
        ensures
            final(self).wf(),
            helper_stops(*old(self), *final(self), reason@),
    {
        self.step = HelperStep::Failed;
        self.error = reason.to_owned();
    }

    /// The entries on the path were looked at, from the helper up to the boundary, without
    /// following links.
    pub fn chain(&mut self, entries: &Vec<Metadata>)
        requires
            old(self).wf(),
            old(self).step == HelperStep::CheckPath,
            places_of(old(self).path@, old(self).boundary@) matches Some(places) ==> entries@.len() == places.len(),
        ensures
            final(self).wf(),
            match chain_complaint(old(self).path@, old(self).boundary@, old(self).owner, entries@) {
                Some(e) => helper_stops(*old(self), *final(self), e),
                None => helper_moves(*old(self), *final(self), HelperStep::Resolve),
            },
    {
        match check_chain(self.path.as_str(), self.boundary.as_str(), self.owner, entries) {
            Err(e) => {
                self.failed(e.as_str());
            },
            Ok(_) => {
                proof {
                    steps::push_holds(self.log@, self.step);
                }
                self.advance(HelperStep::Resolve);
            },
        }
    }

    /// The path and the boundary were resolved.
    pub fn resolved(&mut self, resolved: String, boundary: String)
        requires
            old(self).wf(),
            old(self).step == HelperStep::Resolve,
        ensures
            final(self).wf(),
            *final(self) == (HelperPath {
                resolved,
                boundary,
                step: HelperStep::CheckResolved,
                log: Ghost(old(self).log@.push(old(self).step)),
                ..*old(self)
            }),
    {
        self.resolved = resolved;
        self.boundary = boundary;
        proof {
            steps::push_holds(self.log@, self.step);
        }
        self.advance(HelperStep::CheckResolved);
    }

    /// The entries on the resolved path were looked at in the same way.
    pub fn resolved_chain(&mut self, entries: &Vec<Metadata>)
        requires
            old(self).wf(),
            old(self).step == HelperStep::CheckResolved,
            places_of(old(self).resolved@, old(self).boundary@) matches Some(places) ==> entries@.len() == places.len(),
        ensures
            final(self).wf(),
            match chain_complaint(old(self).resolved@, old(self).boundary@, old(self).owner, entries@) {
                Some(e) => helper_stops(*old(self), *final(self), e),
                None => helper_moves(*old(self), *final(self), HelperStep::CheckExecutable),
            },
    {
        match check_chain(self.resolved.as_str(), self.boundary.as_str(), self.owner, entries) {
            Err(e) => {
                self.failed(e.as_str());
            },
            Ok(_) => {
                proof {
                    steps::push_holds(self.log@, self.step);
                }
                self.advance(HelperStep::CheckExecutable);
            },
        }
    }

    /// The file itself was looked at.
    pub fn executable(&mut self, m: &Metadata)
        requires
            old(self).wf(),
            old(self).step == HelperStep::CheckExecutable,
        ensures
            final(self).wf(),
            match if is_executable(old(self).resolved@, *m) {
                None::<Seq<char>>
            } else {
                Some("The installed host control helper is not executable"@)
            } {
                Some(e) => helper_stops(*old(self), *final(self), e),
                None => helper_moves(*old(self), *final(self), HelperStep::Verified),
            },
    {
        match check_executable(self.resolved.as_str(), m) {
            Err(e) => {
                self.failed(e.as_str());
            },
            Ok(_) => {
                proof {
                    steps::push_holds(self.log@, self.step);
                }
                self.advance(HelperStep::Verified);
            },
        }
    }
}

/// The helper counts as verified only after the entries on its path and on the path that it leads
/// to were found protected.
pub proof fn verified_helpers_were_followed(m: HelperPath)
    requires
        m.wf(),
        m.step == HelperStep::Verified,
    ensures
        m.log@.contains(HelperStep::CheckPath),
        m.log@.contains(HelperStep::CheckResolved),
        m.log@.contains(HelperStep::CheckExecutable),
{
}

/// The helper of a package is used wherever it is, and the other one exactly where that is missing.
pub proof fn packaged_helpers_come_first(packaged: Sighting, standalone: Sighting)
    ensures
        ({
            let found = installed_of(packaged, standalone);
            &&& found == Ok::<Seq<char>, Seq<char>>("/usr/bin/lianli-control"@)
                <==> packaged is Present
            &&& found == Ok::<Seq<char>, Seq<char>>("/usr/local/libexec/lianli/lianli-control"@)
                <==> packaged is Missing && standalone is Present
            &&& found is Ok <==> packaged is Present || (packaged is Missing
                && standalone is Present)
        }),
{
    reveal_strlit("/usr/bin/lianli-control");
    reveal_strlit("/usr/local/libexec/lianli/lianli-control");
    assert("/usr/bin/lianli-control"@[5] == 'b');
    assert("/usr/local/libexec/lianli/lianli-control"@[5] == 'l');
}

/// The way to the helper is safe exactly where it stays below its boundary and every entry on it
/// belongs to the owner, cannot be written by others unless it is a link, and is a directory or a
/// link above the helper.
pub proof fn protected_chains_are_accepted(
    p: Seq<char>,
    boundary: Seq<char>,
    owner: u32,
    entries: Seq<Metadata>,
)
    ensures
        chain_complaint(p, boundary, owner, entries) is None <==> {
            &&& path::below(p, boundary) is Some
            &&& forall|i: int|
                0 <= i < entries.len() ==> {
                    &&& (#[trigger] entries[i]).uid == owner
                    &&& entries[i].kind == FileKind::Symlink || entries[i].mode & 0o022 == 0
                    &&& i > 0 ==> entries[i].kind == FileKind::Directory || entries[i].kind
                        == FileKind::Symlink
                }
        },
{
    chain_is_all_entries(entries, owner, 0);
}

proof fn chain_is_all_entries(entries: Seq<Metadata>, owner: u32, i: int)
    requires
        0 <= i <= entries.len(),
    ensures
        chain_from(entries, owner, i) is None <==> forall|k: int|
            i <= k < entries.len() ==> entry_complaint(#[trigger] entries[k], owner, k == 0) is None,
    decreases entries.len() - i,
{
    if i < entries.len() {
        chain_is_all_entries(entries, owner, i + 1);
        if chain_from(entries, owner, i) is Some {
            assert(entry_complaint(entries[i], owner, i == 0) is Some || !(forall|k: int|
                i + 1 <= k < entries.len() ==> entry_complaint(
                    #[trigger] entries[k],
                    owner,
                    k == 0,
                ) is None));
        }
    }
}

/// A helper may run exactly where it is a regular file of its name that somebody may execute.
pub proof fn helpers_are_executable_files(p: Seq<char>, m: Metadata)
    ensures
        is_executable(p, m) <==> m.kind == FileKind::File && m.mode & 0o111 != 0
            && path::file_name_of(p) == Some("lianli-control"@),
{
}

} // verus!
