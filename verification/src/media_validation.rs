//! Decoding checks on media: each file is decoded once per kind and state, and every reference that
//! fails is reported.

use crate::container_destination::complaint;
use crate::media_decoding::{check_account, CheckStep, Checking};
use crate::media_staging::SourceIdentity;
use crate::path;
use crate::text;
use crate::text::outcome;
use vstd::prelude::*;

verus! {

#[derive(Clone, Copy, Debug, PartialEq, Eq, Structural)]
pub enum AssetKind {
    File,
    Image,
    Video,
    Gif,
    Font,
}

impl AssetKind {
    /// The kind as the decoder is told.
    pub open spec fn word_spec(self) -> Seq<char> {
        match self {
            AssetKind::File => "file"@,
            AssetKind::Image => "image"@,
            AssetKind::Video => "video"@,
            AssetKind::Gif => "gif"@,
            AssetKind::Font => "font"@,
        }
    }

    pub fn word(self) -> (r: &'static str)
        ensures
            r@ == self.word_spec(),
    {
        match self {
            AssetKind::File => "file",
            AssetKind::Image => "image",
            AssetKind::Video => "video",
            AssetKind::Gif => "gif",
            AssetKind::Font => "font",
        }
    }
}

/// A file that a configuration or template refers to.
#[derive(Clone, Debug)]
pub struct AssetDependency {
    pub path: String,
    pub owner: String,
    pub kind: AssetKind,
}

impl AssetDependency {
    pub fn copy(&self) -> (r: AssetDependency)
        ensures
            r == *self,
    {
        AssetDependency { path: self.path.clone(), owner: self.owner.clone(), kind: self.kind }
    }
}

#[derive(Clone, Debug)]
pub struct AssetAccessIssue {
    pub owner: String,
    pub path: Option<String>,
    pub error: String,
}

#[derive(Clone, Debug)]
pub struct AssetAccessReport {
    pub uid: u32,
    pub checked: u64,
    pub failed: u64,
    pub issues: Vec<AssetAccessIssue>,
}

/// What decoding a file in one state gave.
pub struct Decoded {
    pub path: String,
    pub kind: AssetKind,
    pub identity: SourceIdentity,
    pub result: Result<(), String>,
}

/// A validation in progress.
pub struct Validation {
    pub cache: Vec<Decoded>,
    pub report: AssetAccessReport,
}

/// The longest time that one decoding may take, in milliseconds.
pub const DECODE_MS: u64 = 25_000;

/// The longest time that a validation may take, in milliseconds.
pub const VALIDATION_MS: u64 = 600_000;

/// The first cached result from `i` on for a file and kind, or the number of results.
pub open spec fn cached_from(cache: Seq<Decoded>, p: Seq<char>, kind: AssetKind, i: int) -> int
    decreases cache.len() - i,
{
    if i >= cache.len() {
        cache.len() as int
    } else if path::same_path(cache[i].path@, p) && cache[i].kind == kind {
        i
    } else {
        cached_from(cache, p, kind, i + 1)
    }
}

fn same_state(a: &SourceIdentity, b: &SourceIdentity) -> (r: bool)
    ensures
        r == (*a == *b),
{
    a.device == b.device && a.inode == b.inode && a.length == b.length && a.modified.0
        == b.modified.0 && a.modified.1 == b.modified.1 && a.changed.0 == b.changed.0 && a.changed.1
        == b.changed.1
}

fn copy_result(r: &Result<(), String>) -> (c: Result<(), String>)
    ensures
        outcome(c) == outcome(*r),
{
    match r {
        Ok(()) => Ok(()),
        Err(e) => Err(e.clone()),
    }
}

/// A text cut to 512 characters, as errors of decoders are.
pub open spec fn shortened(r: Result<(), Seq<char>>) -> Result<(), Seq<char>> {
    match r {
        Ok(_) => Ok(()),
        Err(e) => Err(text::cut(e, 512)),
    }
}

/// Whether a validation counted one more reference, and reported it where it failed.
pub open spec fn counts(
    before: Validation,
    after: Validation,
    dependency: AssetDependency,
    result: Result<(), Seq<char>>,
) -> bool {
    &&& after.cache == before.cache
    &&& after.report.uid == before.report.uid
    &&& after.report.checked == before.report.checked + 1
    &&& after.report.failed == before.report.failed + if result is Err {
        1int
    } else {
        0int
    }
    &&& if result is Err && before.report.issues@.len() < 32 {
        let issue = after.report.issues@.last();
        &&& after.report.issues@.len() == before.report.issues@.len() + 1
        &&& after.report.issues@.drop_last() == before.report.issues@
        &&& issue.owner@ == dependency.owner@
        &&& issue.path is Some && issue.path->0@ == dependency.path@
        &&& issue.error@ == text::cut(result->Err_0, 512)
    } else {
        after.report.issues == before.report.issues
    }
}

/// Whether a validation kept what a decoding gave.
pub open spec fn keeps(
    before: Validation,
    after: Validation,
    p: Seq<char>,
    kind: AssetKind,
    identity: SourceIdentity,
    result: Result<(), Seq<char>>,
) -> bool {
    let at = cached_from(before.cache@, p, kind, 0);
    let d = after.cache@[at];
    &&& after.report == before.report
    &&& 0 <= at < after.cache@.len()
    &&& d.identity == identity
    &&& d.kind == kind
    &&& path::same_path(d.path@, p)
    &&& outcome(d.result) == shortened(result)
    &&& if at < before.cache@.len() {
        after.cache@ == before.cache@.update(at, d)
    } else {
        after.cache@ == before.cache@.push(d)
    }
    &&& cached_from(after.cache@, p, kind, 0) == at
}

impl Validation {
    /// No more references failed than were checked, and the first 32 failures are listed.
    pub open spec fn wf(self) -> bool {
        &&& self.report.failed <= self.report.checked
        &&& self.report.issues@.len() == if self.report.failed < 32 {
            self.report.failed as int
        } else {
            32
        }
    }

    /// Begins to validate a number of references under an account.
    pub fn begin(uid: u32, references: u64) -> (r: Result<Validation, String>)
        ensures
            match r {
                Ok(v) => references <= 4096 && v.wf() && v.cache@.len() == 0 && v.report.uid == uid
                    && v.report.checked == 0 && v.report.failed == 0 && v.report.issues@.len() == 0,
                Err(e) => references > 4096 && e@
                    == "Media validation supports at most 4096 references"@,
            },
    {
        if references > 4096 {
            return Err("Media validation supports at most 4096 references".to_owned());
        }
        Ok(
            Validation {
                cache: Vec::new(),
                report: AssetAccessReport { uid, checked: 0, failed: 0, issues: Vec::new() },
            },
        )
    }

    /// The time that a decoding may take, in milliseconds, when some has passed.
    pub fn allowance(&self, elapsed_ms: u64) -> (r: Result<u64, String>)
        ensures
            match r {
                Ok(t) => elapsed_ms < VALIDATION_MS && t == if VALIDATION_MS - elapsed_ms
                    < DECODE_MS {
                    VALIDATION_MS - elapsed_ms
                } else {
                    DECODE_MS as int
                },
                Err(e) => elapsed_ms >= VALIDATION_MS && e@
                    == "Media validation exceeded ten minutes"@,
            },
    {
        if elapsed_ms >= VALIDATION_MS {
            return Err("Media validation exceeded ten minutes".to_owned());
        }
        let left: u64 = VALIDATION_MS - elapsed_ms;
        if left < DECODE_MS {
            Ok(left)
        } else {
            Ok(DECODE_MS)
        }
    }

    fn find(&self, p: &str, kind: AssetKind) -> (r: usize)
        ensures
            r == cached_from(self.cache@, p@, kind, 0),
            r <= self.cache@.len(),
    {
        let mut i: usize = 0;
        while i < self.cache.len()
            invariant
                i <= self.cache@.len(),
                cached_from(self.cache@, p@, kind, 0) == cached_from(
                    self.cache@,
                    p@,
                    kind,
                    i as int,
                ),
            decreases self.cache@.len() - i,
        {
            if path::same(self.cache[i].path.as_str(), p) && self.cache[i].kind == kind {
                return i;
            }
            i += 1;
        }
        i
    }

    /// What an earlier decoding of the same file, kind and state gave.
    pub fn known(&self, p: &str, kind: AssetKind, identity: &SourceIdentity) -> (r: Option<
        Result<(), String>,
    >)
        ensures
            ({
                let at = cached_from(self.cache@, p@, kind, 0);
                match r {
                    Some(x) => at < self.cache@.len() && self.cache@[at].identity == *identity
                        && outcome(x) == outcome(self.cache@[at].result),
                    None => at >= self.cache@.len() || self.cache@[at].identity != *identity,
                }
            }),
    {
        let at: usize = self.find(p, kind);
        if at < self.cache.len() && same_state(&self.cache[at].identity, identity) {
            Some(copy_result(&self.cache[at].result))
        } else {
            None
        }
    }

    /// Keeps what a decoding gave. An older result for the file and kind is replaced.
    pub fn decoded(
        &mut self,
        p: &str,
        kind: AssetKind,
        identity: SourceIdentity,
        result: Result<(), String>,
    ) -> (r: Result<(), String>)
        ensures
            outcome(r) == shortened(outcome(result)),
            keeps(*old(self), *final(self), p@, kind, identity, outcome(result)),
    {
        let short = match result {
            Ok(()) => Ok(()),
            Err(e) => Err(text::take(e.as_str(), 512)),
        };
        let at: usize = self.find(p, kind);
        let ghost before = self.cache@;
        proof {
            cached_bounds(before, p@, kind, 0);
        }
        if at < self.cache.len() {
            let entry = Decoded {
                path: self.cache[at].path.clone(),
                kind,
                identity,
                result: copy_result(&short),
            };
            self.cache.set(at, entry);
        } else {
            self.cache.push(
                Decoded { path: p.to_owned(), kind, identity, result: copy_result(&short) },
            );
        }
        proof {
            assert forall|j: int| 0 <= j < at implies !(path::same_path(
                (#[trigger] self.cache@[j]).path@,
                p@,
            ) && self.cache@[j].kind == kind) by {
                assert(self.cache@[j] == before[j]);
                cached_first(before, p@, kind, 0);
            }
            first_cached(self.cache@, p@, kind, 0, at as int);
        }
        short
    }

    /// Whether a file stayed the same while it was decoded: `file` through the open file, `again`
    /// through its path.
    pub fn unchanged(
        before: &SourceIdentity,
        file: &SourceIdentity,
        again: &SourceIdentity,
    ) -> (r: Result<(), String>)
        ensures
            match r {
                Ok(_) => *file == *before && *again == *before,
                Err(e) => !(*file == *before && *again == *before) && e@
                    == "Destination media changed during decoding"@,
            },
    {
        if same_state(file, before) && same_state(again, before) {
            Ok(())
        } else {
            Err("Destination media changed during decoding".to_owned())
        }
    }

    /// Counts a reference, and reports it where it failed.
    pub fn finish(&mut self, dependency: &AssetDependency, result: Result<(), String>)
        requires
            old(self).wf(),
            old(self).report.checked < u64::MAX,
        ensures
            final(self).wf(),
            counts(*old(self), *final(self), *dependency, outcome(result)),
    {
        self.report.checked = self.report.checked + 1;
        match result {
            Ok(()) => {},
            Err(e) => {
                self.report.failed = self.report.failed + 1;
                if self.report.issues.len() < 32 {
                    let ghost before = self.report.issues@;
                    self.report.issues.push(
                        AssetAccessIssue {
                            owner: dependency.owner.clone(),
                            path: Some(dependency.path.clone()),
                            error: text::take(e.as_str(), 512),
                        },
                    );
                    assert(self.report.issues@.drop_last() =~= before);
                }
            },
        }
    }

    /// Looks at a decoded file once more at the end.
    pub fn confirm(&self, at: usize, now: &SourceIdentity, elapsed_ms: u64) -> (r: Result<(), String>)
        requires
            at < self.cache@.len(),
        ensures
            match r {
                Ok(_) => elapsed_ms < VALIDATION_MS && *now == self.cache@[at as int].identity,
                Err(e) => if elapsed_ms >= VALIDATION_MS {
                    e@ == "Media validation exceeded ten minutes"@
                } else {
                    *now != self.cache@[at as int].identity && e@
                        == "Destination media changed after decoding: "@
                        + self.cache@[at as int].path@
                },
            },
    {
        let late = elapsed_ms >= VALIDATION_MS;
        if late {
            return Err("Media validation exceeded ten minutes".to_owned());
        }
        if same_state(now, &self.cache[at].identity) {
            return Ok(());
        }
        let mut text = "Destination media changed after decoding: ".to_owned();
        text.append(self.cache[at].path.as_str());
        Err(text)
    }
}

proof fn cached_bounds(cache: Seq<Decoded>, p: Seq<char>, kind: AssetKind, i: int)
    requires
        0 <= i <= cache.len(),
    ensures
        i <= cached_from(cache, p, kind, i) <= cache.len(),
        cached_from(cache, p, kind, i) < cache.len() ==> path::same_path(
            cache[cached_from(cache, p, kind, i)].path@,
            p,
        ) && cache[cached_from(cache, p, kind, i)].kind == kind,
    decreases cache.len() - i,
{
    if i < cache.len() && !(path::same_path(cache[i].path@, p) && cache[i].kind == kind) {
        cached_bounds(cache, p, kind, i + 1);
    }
}

proof fn cached_first(cache: Seq<Decoded>, p: Seq<char>, kind: AssetKind, i: int)
    requires
        0 <= i <= cache.len(),
    ensures
        forall|j: int|
            i <= j < cached_from(cache, p, kind, i) ==> !(path::same_path(
                (#[trigger] cache[j]).path@,
                p,
            ) && cache[j].kind == kind),
    decreases cache.len() - i,
{
    if i < cache.len() {
        cached_first(cache, p, kind, i + 1);
    }
}

proof fn first_cached(cache: Seq<Decoded>, p: Seq<char>, kind: AssetKind, i: int, at: int)
    requires
        0 <= i <= at < cache.len(),
        path::same_path(cache[at].path@, p) && cache[at].kind == kind,
        forall|j: int|
            i <= j < at ==> !(path::same_path((#[trigger] cache[j]).path@, p) && cache[j].kind
                == kind),
    ensures
        cached_from(cache, p, kind, i) == at,
    decreases at - i,
{
    if i < at {
        first_cached(cache, p, kind, i + 1, at);
    }
}

/// What a report with failures says.
pub open spec fn report_complaint(report: AssetAccessReport) -> Option<Seq<char>> {
    if report.issues@.len() == 0 {
        None
    } else {
        let issue = report.issues@[0];
        Some(
            text::decimal(report.failed as nat)
                + " media references failed destination validation: "@ + issue.owner@ + ": "@
                + match issue.path {
                Some(p) => p@,
                None => Seq::empty(),
            } + " ("@ + issue.error@ + ")"@,
        )
    }
}

/// Turns a report into an error, where a reference failed.
pub fn check_failures(report: &AssetAccessReport) -> (r: Result<(), String>)
    ensures
        match r {
            Ok(_) => report_complaint(*report) is None,
            Err(e) => report_complaint(*report) == Some(e@),
        },
{
    if report.issues.len() == 0 {
        return Ok(());
    }
    let issue = &report.issues[0];
    let mut text = text::format_u64(report.failed);
    text.append(" media references failed destination validation: ");
    text.append(issue.owner.as_str());
    text.append(": ");
    let ghost before = text@;
    match &issue.path {
        Some(p) => text.append(p.as_str()),
        None => {
            assert(before =~= before + Seq::<char>::empty());
        },
    }
    text.append(" (");
    text.append(issue.error.as_str());
    text.append(")");
    Err(text)
}

/// What keeps a selection's media from counting as decodable.
pub open spec fn decodable_complaint(
    uid: u32,
    dependencies: Seq<AssetDependency>,
    daemon: Result<(), String>,
    checking: Result<Checking, String>,
) -> Option<Seq<char>> {
    if uid == 0 {
        Some("Validate media under its unprivileged destination account"@)
    } else if dependencies.len() == 0 {
        None
    } else if daemon is Err {
        complaint(daemon)
    } else {
        match checking {
            Err(e) => Some(e@),
            Ok(c) => if c.step == CheckStep::Failed {
                Some(c.error@)
            } else {
                report_complaint(c.validation.report)
            },
        }
    }
}

/// Whether the media of a selection can be decoded under an account: `daemon` is what the check of
/// the installed daemon gave, and `checking` the check of every reference, which came to its end.
pub fn ensure_decodable(
    uid: u32,
    dependencies: &Vec<AssetDependency>,
    daemon: &Result<(), String>,
    checking: &Result<Checking, String>,
) -> (r: Result<(), String>)
    requires
        uid != 0 && dependencies@.len() > 0 && daemon is Ok ==> match *checking {
            Err(e) => dependencies@.len() > 4096 && e@
                == "Media validation supports at most 4096 references"@,
            Ok(c) => {
                &&& c.wf()
                &&& c.dependencies@ == dependencies@
                &&& c.validation.report.uid == uid
                &&& c.step == CheckStep::Checked || c.step == CheckStep::Failed
            },
        },
    ensures
        complaint(r) == decodable_complaint(uid, dependencies@, *daemon, *checking),
{
    check_account(uid == 0)?;
    if dependencies.len() == 0 {
        return Ok(());
    }
    match daemon {
        Err(e) => {
            return Err(e.clone());
        },
        Ok(_) => {},
    }
    match checking {
        Err(e) => Err(e.clone()),
        Ok(c) => {
            if let CheckStep::Failed = c.step {
                return Err(c.error.clone());
            }
            check_failures(&c.validation.report)
        },
    }
}

/// A validation in which a reference failed never passes.
pub proof fn failures_are_reported(v: Validation)
    requires
        v.wf(),
        v.report.failed > 0,
    ensures
        report_complaint(v.report) is Some,
{
}

/// Media count as decodable exactly under an unprivileged account, where there are none, or where the
/// daemon could be asked, the check came to its end and no reference failed.
pub proof fn media_are_decodable_where_nothing_failed(
    uid: u32,
    dependencies: Seq<AssetDependency>,
    daemon: Result<(), String>,
    checking: Result<Checking, String>,
)
    requires
        checking is Ok && checking->Ok_0.step != CheckStep::Failed ==> checking->Ok_0.validation.wf(),
    ensures
        decodable_complaint(uid, dependencies, daemon, checking) is None <==> {
            &&& uid != 0
            &&& dependencies.len() == 0 || {
                &&& daemon is Ok
                &&& checking is Ok
                &&& checking->Ok_0.step != CheckStep::Failed
                &&& checking->Ok_0.validation.report.failed == 0
            }
        },
{
}

/// A result is known of a file exactly where one of the same path, in whatever spelling, and of the
/// same kind is kept.
pub proof fn results_are_kept_by_path_and_kind(
    cache: Seq<Decoded>,
    p: Seq<char>,
    kind: AssetKind,
    i: int,
)
    requires
        0 <= i <= cache.len(),
    ensures
        cached_from(cache, p, kind, i) < cache.len() <==> exists|k: int|
            i <= k < cache.len() && path::same_path((#[trigger] cache[k]).path@, p) && cache[k].kind
                == kind,
        cached_from(cache, p, kind, i) < cache.len() ==> path::same_path(
            cache[cached_from(cache, p, kind, i)].path@,
            p,
        ) && cache[cached_from(cache, p, kind, i)].kind == kind,
    decreases cache.len() - i,
{
    if i < cache.len() {
        results_are_kept_by_path_and_kind(cache, p, kind, i + 1);
        if path::same_path(cache[i].path@, p) && cache[i].kind == kind {
            assert(cached_from(cache, p, kind, i) == i);
        }
    }
}

/// A kept result is found again under its path and kind, as it came, and every other result stays.
pub proof fn kept_results_are_found_again(
    before: Validation,
    after: Validation,
    p: Seq<char>,
    kind: AssetKind,
    identity: SourceIdentity,
    result: Result<(), Seq<char>>,
)
    requires
        keeps(before, after, p, kind, identity, result),
    ensures
        ({
            let at = cached_from(after.cache@, p, kind, 0);
            &&& 0 <= at < after.cache@.len()
            &&& after.cache@[at].identity == identity
            &&& after.cache@[at].result is Ok <==> result is Ok
            &&& after.cache@.len() <= before.cache@.len() + 1
            &&& before.cache@.len() <= after.cache@.len()
            &&& forall|k: int|
                0 <= k < before.cache@.len() && k != at ==> #[trigger] after.cache@[k]
                    == before.cache@[k]
        }),
        after.report == before.report,
{
}

/// Each result is counted once, a failure as one, and a failure is listed with its owner and path as
/// long as there are fewer than 32.
pub proof fn results_are_counted_once(
    before: Validation,
    after: Validation,
    dependency: AssetDependency,
    result: Result<(), Seq<char>>,
)
    requires
        counts(before, after, dependency, result),
    ensures
        after.report.checked == before.report.checked + 1,
        result is Ok ==> after.report.failed == before.report.failed && after.report.issues
            == before.report.issues,
        result is Err ==> after.report.failed == before.report.failed + 1,
        result is Err && before.report.issues@.len() < 32 ==> after.report.issues@.len()
            == before.report.issues@.len() + 1 && after.report.issues@.last().owner@
            == dependency.owner@,
        after.cache == before.cache,
{
}

} // verus!
