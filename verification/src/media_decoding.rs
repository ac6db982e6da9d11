//! Decoding every file that a selection refers to under the destination's account: how the decoder is
//! run, and the order in which files are opened, decoded and looked at again.

use crate::command::Output;
use crate::container_destination::complaint;
use crate::files::Metadata;
use crate::media_staging::{extension, extension_of, identity, identity_spec, SourceIdentity};
use crate::media_validation::{
    cached_from, counts, keeps, report_complaint, shortened, AssetAccessReport, AssetDependency,
    AssetKind, Validation, DECODE_MS, VALIDATION_MS,
};
use crate::path;
use crate::text;
use crate::text::{outcome, texts};
use vstd::prelude::*;

verus! {

/// Files are decoded only without authority.
pub fn check_account(root: bool) -> (r: Result<(), String>)
    ensures
        complaint(r) == if root {
            Some("Validate media under its unprivileged destination account"@)
        } else {
            None
        },
{
    if root {
        Err("Validate media under its unprivileged destination account".to_owned())
    } else {
        Ok(())
    }
}

/// The arguments of the decoder. An image is decoded by the extension that its name has.
pub open spec fn decoder_arguments_of(kind: AssetKind, p: Seq<char>) -> Seq<Seq<char>> {
    let asked = seq!["check-media-decode"@, "--kind"@, kind.word_spec()];
    match path::file_name_of(p) {
        Some(name) if kind == AssetKind::Image => match extension_of(name) {
            Some(e) => asked + seq!["--extension"@, e],
            None => asked,
        },
        _ => asked,
    }
}

pub fn decoder_arguments(kind: AssetKind, p: &str) -> (r: Vec<String>)
    ensures
        texts(r@) == decoder_arguments_of(kind, p@),
{
    let mut r: Vec<String> = Vec::new();
    r.push("check-media-decode".to_owned());
    r.push("--kind".to_owned());
    r.push(kind.word().to_owned());
    if let AssetKind::Image = kind {
        match path::file_name(p) {
            None => {},
            Some(name) => match extension(name.as_str()) {
                None => {},
                Some(e) => {
                    r.push("--extension".to_owned());
                    r.push(e);
                },
            },
        }
    }
    assert(texts(r@) =~= decoder_arguments_of(kind, p@));
    r
}

/// What speaks against the decoder's answer.
pub open spec fn decoder_complaint(output: Result<Output, String>) -> Option<Seq<char>> {
    match output {
        Err(e) => Some(e@),
        Ok(o) => if o.code != Some(0i32) {
            Some("Decoder failed ("@ + o.status@ + "): "@ + text::cut(o.stderr@, 512))
        } else if o.stdout@.len() > 0 {
            Some("Decoder returned unexpected output"@)
        } else {
            None
        },
    }
}

/// Whether the decoder could decode a file: it succeeds and prints nothing.
pub fn check_decoder(output: &Result<Output, String>) -> (r: Result<(), String>)
    ensures
        complaint(r) == decoder_complaint(*output),
{
    let output = match output {
        Err(e) => return Err(e.clone()),
        Ok(output) => output,
    };
    if !output.success() {
        let mut e = "Decoder failed (".to_owned();
        e.append(output.status.as_str());
        e.append("): ");
        e.append(text::take(output.stderr.as_str(), 512).as_str());
        return Err(e);
    }
    if text::chars(output.stdout.as_str()).len() > 0 {
        return Err("Decoder returned unexpected output".to_owned());
    }
    Ok(())
}

/// What checking the files does next.
#[derive(Clone, Copy, Debug, PartialEq, Eq, Structural)]
pub enum CheckStep {
    ReadClock,
    Open,
    Decode,
    Reexamine,
    Confirm,
    Checked,
    Failed,
}

/// The check of every file under way.
pub struct Checking {
    pub dependencies: Vec<AssetDependency>,
    pub validation: Validation,
    /// How many references were checked.
    pub at: usize,
    /// How many decoded files were looked at once more at the end.
    pub confirmed: usize,
    /// How long the next decoding may take, in milliseconds.
    pub allowance: u64,
    /// The file as it was opened.
    pub before: SourceIdentity,
    /// What decoding it gave.
    pub result: Result<(), String>,
    pub step: CheckStep,
    pub error: String,
    /// What each checked reference gave, in order.
    pub results: Ghost<Seq<Result<(), Seq<char>>>>,
}

pub open spec fn check_stops(before: Checking, after: Checking, text: Seq<char>) -> bool {
    after == (Checking { step: CheckStep::Failed, error: after.error, ..before }) && after.error@
        == text
}

/// What follows a reference: the next one, or the look at every decoded file once more.
pub open spec fn after_reference(at: int, references: int, decoded: int) -> CheckStep {
    if at < references {
        CheckStep::ReadClock
    } else if decoded > 0 {
        CheckStep::Confirm
    } else {
        CheckStep::Checked
    }
}

/// The references that failed, in order: the owner, the path, and why.
pub open spec fn failures(
    dependencies: Seq<AssetDependency>,
    results: Seq<Result<(), Seq<char>>>,
) -> Seq<(Seq<char>, Seq<char>, Seq<char>)>
    decreases results.len(),
{
    if results.len() == 0 {
        Seq::empty()
    } else {
        let earlier = failures(dependencies, results.drop_last());
        let dependency = dependencies[results.len() - 1];
        match results.last() {
            Ok(_) => earlier,
            Err(e) => earlier.push((dependency.owner@, dependency.path@, text::cut(e, 512))),
        }
    }
}

/// Whether a report holds what a check of some references gave: how many were checked, how many
/// failed, and the first 32 of these.
pub open spec fn reports(
    report: AssetAccessReport,
    dependencies: Seq<AssetDependency>,
    results: Seq<Result<(), Seq<char>>>,
) -> bool {
    let failed = failures(dependencies, results);
    &&& report.checked == results.len()
    &&& report.failed == failed.len()
    &&& report.issues@.len() == if failed.len() < 32 {
        failed.len() as int
    } else {
        32
    }
    &&& forall|i: int|
        0 <= i < report.issues@.len() ==> {
            let issue = #[trigger] report.issues@[i];
            &&& issue.path is Some
            &&& failed[i] == (issue.owner@, issue.path->0@, issue.error@)
        }
}

/// Counting one more reference keeps a report right.
proof fn counting_reports(
    before: Validation,
    after: Validation,
    dependencies: Seq<AssetDependency>,
    results: Seq<Result<(), Seq<char>>>,
    result: Result<(), Seq<char>>,
)
    requires
        before.wf(),
        results.len() < dependencies.len(),
        reports(before.report, dependencies, results),
        counts(before, after, dependencies[results.len() as int], result),
    ensures
        reports(after.report, dependencies, results.push(result)),
{
    let more = results.push(result);
    assert(more.drop_last() =~= results);
    let failed = failures(dependencies, more);
    let earlier = failures(dependencies, results);
    assert forall|i: int| 0 <= i < after.report.issues@.len() implies {
        let issue = #[trigger] after.report.issues@[i];
        &&& issue.path is Some
        &&& failed[i] == (issue.owner@, issue.path->0@, issue.error@)
    } by {
        if i < before.report.issues@.len() {
            if result is Err && before.report.issues@.len() < 32 {
                assert(after.report.issues@.drop_last()[i] == before.report.issues@[i]);
            }
            assert(after.report.issues@[i] == before.report.issues@[i]);
            assert(failed[i] == earlier[i]);
        }
    }
}

/// Whether a check counted the present reference with a result.
pub open spec fn check_counts(before: Checking, after: Checking, result: Result<(), Seq<char>>) -> bool {
    &&& after == (Checking {
        validation: after.validation,
        at: (before.at + 1) as usize,
        step: after_reference(
            before.at + 1,
            before.dependencies@.len() as int,
            before.validation.cache@.len() as int,
        ),
        results: Ghost(before.results@.push(result)),
        ..before
    })
    &&& counts(before.validation, after.validation, before.dependencies@[before.at as int], result)
}

/// Whether a file stayed the same while it was decoded, and if so, what decoding it gave.
pub open spec fn reexamined_of(
    before: SourceIdentity,
    file: Result<Metadata, String>,
    again: Result<Metadata, String>,
    result: Result<(), Seq<char>>,
) -> Result<(), Seq<char>> {
    let changed = Err("Destination media changed during decoding"@);
    match file {
        Err(e) => Err(e@),
        Ok(f) => if identity_spec(f) != before {
            changed
        } else {
            match again {
                Err(e) => Err(e@),
                Ok(a) => if identity_spec(a) != before {
                    changed
                } else {
                    result
                },
            }
        },
    }
}

impl Checking {
    pub open spec fn wf(self) -> bool {
        self.step != CheckStep::Failed ==> {
            &&& self.validation.wf()
            &&& self.results@.len() == self.at
            &&& reports(self.validation.report, self.dependencies@, self.results@)
            &&& self.at <= self.dependencies@.len() <= 4096
            &&& match self.step {
                CheckStep::Confirm => self.at == self.dependencies@.len() && self.confirmed
                    < self.validation.cache@.len(),
                CheckStep::Checked => self.at == self.dependencies@.len() && self.confirmed
                    == self.validation.cache@.len(),
                _ => self.at < self.dependencies@.len() && self.confirmed == 0,
            }
        }
    }

    /// Begins to check the references of a selection under an account.
    pub fn begin(uid: u32, dependencies: Vec<AssetDependency>) -> (r: Result<Checking, String>)
        ensures
            match r {
                Ok(c) => {
                    &&& dependencies@.len() <= 4096
                    &&& c.wf()
                    &&& c.dependencies == dependencies
                    &&& c.validation.report.uid == uid
                    &&& c.at == 0
                    &&& c.confirmed == 0
                    &&& c.results@ == Seq::<Result<(), Seq<char>>>::empty()
                    &&& c.validation.cache@.len() == 0
                    &&& c.validation.report.checked == 0
                    &&& c.validation.report.failed == 0
                    &&& c.validation.report.issues@.len() == 0
                    &&& c.step == after_reference(0, dependencies@.len() as int, 0)
                },
                Err(e) => dependencies@.len() > 4096 && e@
                    == "Media validation supports at most 4096 references"@,
            },
    {
        let count: usize = dependencies.len();
        let validation = Validation::begin(uid, count as u64)?;
        Ok(
            Checking {
                dependencies,
                validation,
                at: 0,
                confirmed: 0,
                allowance: 0,
                before: SourceIdentity {
                    device: 0,
                    inode: 0,
                    length: 0,
                    modified: (0, 0),
                    changed: (0, 0),
                },
                result: Ok(()),
                step: if count > 0 {
                    CheckStep::ReadClock
                } else {
                    CheckStep::Checked
                },
                error: String::new(),
                results: Ghost(Seq::empty()),
            },
        )
    }

    /// The check could not go on.
    pub fn failed(&mut self, reason: &str)
        ensures
            final(self).wf(),
            check_stops(*old(self), *final(self), reason@),
    {
        self.step = CheckStep::Failed;
        self.error = reason.to_owned();
    }

    /// The milliseconds since the beginning.
    pub fn clock(&mut self, elapsed_ms: u64)
        requires
            old(self).wf(),
            old(self).step == CheckStep::ReadClock,
        ensures
            final(self).wf(),
            if elapsed_ms >= VALIDATION_MS {
                check_stops(*old(self), *final(self), "Media validation exceeded ten minutes"@)
            } else {
                *final(self) == (Checking {
                    step: CheckStep::Open,
                    allowance: if VALIDATION_MS - elapsed_ms < DECODE_MS {
                        (VALIDATION_MS - elapsed_ms) as u64
                    } else {
                        DECODE_MS
                    },
                    ..*old(self)
                })
            },
    {
        match self.validation.allowance(elapsed_ms) {
            Err(e) => {
                self.failed(e.as_str());
            },
            Ok(allowance) => {
                self.allowance = allowance;
                self.step = CheckStep::Open;
            },
        }
    }

    fn count(&mut self, result: Result<(), String>)
        requires
            old(self).validation.wf(),
            old(self).results@.len() == old(self).at,
            reports(old(self).validation.report, old(self).dependencies@, old(self).results@),
            old(self).at < old(self).dependencies@.len() <= 4096,
            old(self).confirmed == 0,
        ensures
            final(self).wf(),
            check_counts(*old(self), *final(self), outcome(result)),
    {
        let at: usize = self.at;
        let ghost given = outcome(result);
        self.validation.finish(&self.dependencies[at], result);
        proof {
            counting_reports(
                old(self).validation,
                self.validation,
                self.dependencies@,
                self.results@,
                given,
            );
        }
        self.results = Ghost(self.results@.push(given));
        self.at = at + 1;
        self.step = if self.at < self.dependencies.len() {
            CheckStep::ReadClock
        } else if self.validation.cache.len() > 0 {
            CheckStep::Confirm
        } else {
            CheckStep::Checked
        };
    }

    /// The file of the present reference, as it was opened. A state of it that was decoded before is
    /// not decoded again.
    pub fn opened(&mut self, file: &Result<Metadata, String>)
        requires
            old(self).wf(),
            old(self).step == CheckStep::Open,
        ensures
            final(self).wf(),
            match *file {
                Err(e) => check_counts(*old(self), *final(self), Err(e@)),
                Ok(m) => {
                    let d = old(self).dependencies@[old(self).at as int];
                    let cache = old(self).validation.cache@;
                    let at = cached_from(cache, d.path@, d.kind, 0);
                    if at < cache.len() && cache[at].identity == identity_spec(m) {
                        &&& *final(self) == (Checking {
                            step: CheckStep::Reexamine,
                            before: identity_spec(m),
                            result: final(self).result,
                            ..*old(self)
                        })
                        &&& outcome(final(self).result) == outcome(cache[at].result)
                    } else {
                        *final(self) == (Checking {
                            step: CheckStep::Decode,
                            before: identity_spec(m),
                            ..*old(self)
                        })
                    }
                },
            },
    {
        let m = match file {
            Err(e) => {
                self.count(Err(e.clone()));
                return;
            },
            Ok(m) => m,
        };
        let at: usize = self.at;
        self.before = identity(m);
        let known = self.validation.known(
            self.dependencies[at].path.as_str(),
            self.dependencies[at].kind,
            &self.before,
        );
        match known {
            Some(result) => {
                self.result = result;
                self.step = CheckStep::Reexamine;
            },
            None => {
                self.step = CheckStep::Decode;
            },
        }
    }

    /// What decoding the file gave.
    pub fn decoded(&mut self, result: Result<(), String>)
        requires
            old(self).wf(),
            old(self).step == CheckStep::Decode,
        ensures
            final(self).wf(),
            *final(self) == (Checking {
                step: CheckStep::Reexamine,
                validation: final(self).validation,
                result: final(self).result,
                ..*old(self)
            }),
            outcome(final(self).result) == shortened(outcome(result)),
            ({
                let d = old(self).dependencies@[old(self).at as int];
                keeps(
                    old(self).validation,
                    final(self).validation,
                    d.path@,
                    d.kind,
                    old(self).before,
                    outcome(result),
                )
            }),
    {
        let at: usize = self.at;
        self.result = self.validation.decoded(
            self.dependencies[at].path.as_str(),
            self.dependencies[at].kind,
            self.before,
            result,
        );
        self.step = CheckStep::Reexamine;
    }

    /// The open file, and the file under its path, after it was decoded.
    pub fn reexamined(&mut self, file: &Result<Metadata, String>, again: &Result<Metadata, String>)
        requires
            old(self).wf(),
            old(self).step == CheckStep::Reexamine,
        ensures
            final(self).wf(),
            ({
                let result = reexamined_of(
                    old(self).before,
                    *file,
                    *again,
                    outcome(old(self).result),
                );
                &&& counts(
                    old(self).validation,
                    final(self).validation,
                    old(self).dependencies@[old(self).at as int],
                    result,
                )
                &&& *final(self) == (Checking {
                    validation: final(self).validation,
                    result: final(self).result,
                    at: (old(self).at + 1) as usize,
                    step: after_reference(
                        old(self).at + 1,
                        old(self).dependencies@.len() as int,
                        old(self).validation.cache@.len() as int,
                    ),
                    results: Ghost(old(self).results@.push(result)),
                    ..*old(self)
                })
            }),
    {
        let mut decoded: Result<(), String> = Ok(());
        std::mem::swap(&mut decoded, &mut self.result);
        let result = match file {
            Err(e) => Err(e.clone()),
            Ok(f) => {
                let f = identity(f);
                match again {
                    Err(e) => match Validation::unchanged(&self.before, &f, &self.before) {
                        Err(changed) => Err(changed),
                        Ok(_) => Err(e.clone()),
                    },
                    Ok(a) => match Validation::unchanged(&self.before, &f, &identity(a)) {
                        Err(changed) => Err(changed),
                        Ok(_) => decoded,
                    },
                }
            },
        };
        self.count(result);
    }

    /// A decoded file at the end, and whether time was over before it was looked at.
    pub fn confirm(&mut self, now: &Result<Metadata, String>, elapsed_ms: u64)
        requires
            old(self).wf(),
            old(self).step == CheckStep::Confirm,
        ensures
            final(self).wf(),
            ({
                let known = old(self).validation.cache@[old(self).confirmed as int];
                if elapsed_ms >= VALIDATION_MS {
                    check_stops(*old(self), *final(self), "Media validation exceeded ten minutes"@)
                } else {
                    match *now {
                        Err(e) => check_stops(*old(self), *final(self), e@),
                        Ok(m) => if identity_spec(m) != known.identity {
                            check_stops(
                                *old(self),
                                *final(self),
                                "Destination media changed after decoding: "@ + known.path@,
                            )
                        } else {
                            *final(self) == (Checking {
                                confirmed: (old(self).confirmed + 1) as usize,
                                step: if old(self).confirmed + 1
                                    < old(self).validation.cache@.len() {
                                    CheckStep::Confirm
                                } else {
                                    CheckStep::Checked
                                },
                                ..*old(self)
                            })
                        },
                    }
                }
            }),
    {
        let late = elapsed_ms >= VALIDATION_MS;
        let at: usize = self.confirmed;
        let count: usize = self.validation.cache.len();
        let result = if late {
            Err("Media validation exceeded ten minutes".to_owned())
        } else {
            match now {
                Err(e) => Err(e.clone()),
                Ok(m) => self.validation.confirm(at, &identity(m), 0),
            }
        };
        match result {
            Err(e) => {
                self.failed(e.as_str());
            },
            Ok(_) => {
                self.confirmed = at + 1;
                self.step = if self.confirmed < count {
                    CheckStep::Confirm
                } else {
                    CheckStep::Checked
                };
            },
        }
    }
}

/// A check that is done has a result for every reference, counts those that failed, lists the first
/// 32 of them with their owners and paths, and looked at every decoded file once more.
pub proof fn checks_are_complete(checking: Checking)
    requires
        checking.wf(),
        checking.step == CheckStep::Checked,
    ensures
        checking.results@.len() == checking.dependencies@.len(),
        reports(checking.validation.report, checking.dependencies@, checking.results@),
        checking.validation.report.checked == checking.dependencies@.len(),
        checking.confirmed == checking.validation.cache@.len(),
{
}

/// A reference failed exactly where a check says so: the failures are in the order of the
/// references, and there are as many as there are failed results.
pub proof fn failures_follow_the_results(
    dependencies: Seq<AssetDependency>,
    results: Seq<Result<(), Seq<char>>>,
    i: int,
)
    requires
        0 <= i < results.len() <= dependencies.len(),
    ensures
        results[i] is Err ==> ({
            let at = failures(dependencies, results.take(i)).len() as int;
            &&& at < failures(dependencies, results).len()
            &&& failures(dependencies, results)[at] == (
                dependencies[i].owner@,
                dependencies[i].path@,
                text::cut(results[i]->Err_0, 512),
            )
        }),
    decreases results.len(),
{
    let earlier = results.drop_last();
    if i < earlier.len() {
        failures_follow_the_results(dependencies, earlier, i);
        assert(earlier.take(i) =~= results.take(i));
    } else {
        assert(results.take(i) =~= earlier);
    }
}

/// Where nothing failed, nothing is listed, and the media can be used.
pub proof fn sound_media_pass(checking: Checking)
    requires
        checking.wf(),
        checking.step == CheckStep::Checked,
        forall|i: int| 0 <= i < checking.results@.len() ==> #[trigger] checking.results@[i] is Ok,
    ensures
        checking.validation.report.failed == 0,
        report_complaint(checking.validation.report) is None,
{
    no_failures(checking.dependencies@, checking.results@);
}

proof fn no_failures(dependencies: Seq<AssetDependency>, results: Seq<Result<(), Seq<char>>>)
    requires
        forall|i: int| 0 <= i < results.len() ==> #[trigger] results[i] is Ok,
    ensures
        failures(dependencies, results).len() == 0,
    decreases results.len(),
{
    if results.len() > 0 {
        assert(results.last() is Ok);
        assert forall|i: int| 0 <= i < results.drop_last().len() implies (
        #[trigger] results.drop_last()[i]) is Ok by {
            assert(results[i] is Ok);
        }
        no_failures(dependencies, results.drop_last());
    }
}

/// A file was decoded exactly where the decoder could be run, succeeded and printed nothing.
pub proof fn decoders_succeed_silently(output: Result<Output, String>)
    ensures
        decoder_complaint(output) is None <==> output is Ok && output->Ok_0.code == Some(0i32)
            && output->Ok_0.stdout@.len() == 0,
{
}

/// The decoder is told what a file is to be, and no two kinds alike. Only of an image it is told the
/// extension, where there is one.
pub proof fn decoders_are_told_the_kind(a: AssetKind, b: AssetKind, p: Seq<char>)
    ensures
        decoder_arguments_of(a, p)[2] == a.word_spec(),
        a != b ==> a.word_spec() != b.word_spec(),
        ({
            let told = a == AssetKind::Image && path::file_name_of(p) is Some && extension_of(
                path::file_name_of(p)->0,
            ) is Some;
            &&& decoder_arguments_of(a, p).len() == (if told {
                5int
            } else {
                3int
            })
            &&& told ==> decoder_arguments_of(a, p)[4] == extension_of(path::file_name_of(p)->0)->0
        }),
{
    reveal_strlit("file");
    reveal_strlit("image");
    reveal_strlit("video");
    reveal_strlit("gif");
    reveal_strlit("font");
    assert("file"@[0] == 'f' && "file"@[1] == 'i');
    assert("image"@[0] == 'i');
    assert("video"@[0] == 'v');
    assert("gif"@[0] == 'g');
    assert("font"@[0] == 'f' && "font"@[1] == 'o');
}

/// What decoding gave counts exactly where the file is the same afterwards, both as it was opened and
/// as it is found by its name.
pub proof fn decodings_count_of_unchanged_files(
    before: SourceIdentity,
    file: Result<Metadata, String>,
    again: Result<Metadata, String>,
    result: Result<(), Seq<char>>,
)
    ensures
        reexamined_of(before, file, again, result) is Ok <==> result is Ok && file is Ok
            && identity_spec(file->Ok_0) == before && again is Ok && identity_spec(again->Ok_0)
            == before,
        file is Ok && identity_spec(file->Ok_0) == before && again is Ok && identity_spec(again->Ok_0)
            == before ==> reexamined_of(before, file, again, result) == result,
{
}

/// Every reference is checked before the decoded files are looked at once more, and all of those
/// before the check ends.
pub proof fn every_reference_is_checked(at: int, references: int, decoded: int)
    ensures
        after_reference(at, references, decoded) == CheckStep::ReadClock <==> at < references,
        after_reference(at, references, decoded) == CheckStep::Confirm <==> at >= references
            && decoded > 0,
        after_reference(at, references, decoded) == CheckStep::Checked <==> at >= references
            && decoded <= 0,
{
}

} // verus!
