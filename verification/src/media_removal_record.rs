//! The record of a removal: how it is written before anything is removed, and what must still hold of
//! the storage around it whenever the removal goes on.

use crate::container_destination::complaint;
use crate::digest;
use crate::files::Metadata;
use crate::media_ownership::{
    record_file, record_id, valid_id, validate_id, CatalogDirectoryReview, CatalogReviewedFile, Receipt,
};
use crate::media_removal::{
    check_covered, check_ownership, check_record, check_record_bytes, check_record_file,
    check_remaining, file_from, journal_complaint, missing, missing_files, orphan_review,
    ownership_complaint, pending_id, prepare_complaint, recorded, remaining_complaint,
    removal_room, removed_fingerprint, review_of, reviews, same_journal, strict_order, validate,
    verify_review, Journal, JournalFile, Preparation, MAX_JOURNAL_BYTES, PENDING_MS, REMOVAL_MS,
};
use crate::steps;
use crate::text;
use crate::text::{outcome, texts};
use vstd::prelude::*;
use vstd::utf8::encode_utf8;

verus! {

/// An entry of the directory of a removal, and how long after the beginning it was read.
pub struct RemainingEntry {
    pub name: String,
    /// What looking at it gave.
    pub meta: Result<Metadata, String>,
    /// Milliseconds.
    pub elapsed_ms: u64,
}

/// The storage around a removal as it is now.
pub struct Remaining {
    /// The inode of the directory of imports.
    pub imports: u64,
    /// The receipt that stands there.
    pub receipt: Result<Option<Receipt>, String>,
    /// The inode of the directory that the removal holds.
    pub opened: Option<u64>,
    /// The inode of the directory that stands there now.
    pub current: Option<u64>,
    /// What fingerprinting the directory gave.
    pub fingerprint: Result<(), String>,
    pub entries: Vec<RemainingEntry>,
    /// The record that stands there.
    pub record: Result<Option<Journal>, String>,
    /// How long the inspection took, in milliseconds.
    pub elapsed_ms: u64,
}

/// The first complaint about the entries from `i` on.
pub open spec fn entries_complaint(
    journal: Journal,
    entries: Seq<RemainingEntry>,
    uid: u32,
    i: int,
) -> Option<Seq<char>>
    decreases entries.len() - i,
{
    if i >= entries.len() {
        None
    } else {
        let e = entries[i];
        let here = remaining_complaint(journal, i as u64, e.name@, e.meta, uid, e.elapsed_ms >= REMOVAL_MS);
        if here is Some {
            here
        } else {
            entries_complaint(journal, entries, uid, i + 1)
        }
    }
}

/// Why a removal may not go on.
pub open spec fn standing_complaint(journal: Journal, found: Remaining, uid: u32) -> Option<
    Seq<char>,
> {
    match found.receipt {
        Err(e) => Some(e@),
        Ok(receipt) => {
            let owned = ownership_complaint(
                journal,
                found.imports,
                receipt,
                found.opened,
                found.current,
            );
            let held = found.opened is Some;
            if owned is Some {
                owned
            } else if held && found.fingerprint is Err {
                Some(found.fingerprint->Err_0@)
            } else if held && entries_complaint(journal, found.entries@, uid, 0) is Some {
                entries_complaint(journal, found.entries@, uid, 0)
            } else {
                match found.record {
                    Err(e) => Some(e@),
                    Ok(record) => if !(record is Some && same_journal(record->0, journal)) {
                        Some("Managed removal record changed"@)
                    } else if found.elapsed_ms >= REMOVAL_MS {
                        Some("Managed removal inspection exceeded five seconds"@)
                    } else {
                        None
                    },
                }
            }
        },
    }
}

fn check_entries(journal: &Journal, entries: &Vec<RemainingEntry>, uid: u32) -> (r: Result<(), String>)
    requires
        journal.wf(),
    ensures
        complaint(r) == entries_complaint(*journal, entries@, uid, 0),
{
    let n: usize = entries.len();
    let mut i: usize = 0;
    while i < n
        invariant
            i <= n == entries@.len(),
            journal.wf(),
            entries_complaint(*journal, entries@, uid, 0) == entries_complaint(
                *journal,
                entries@,
                uid,
                i as int,
            ),
        decreases n - i,
    {
        let e = &entries[i];
        check_remaining(journal, i as u64, e.name.as_str(), &e.meta, uid, e.elapsed_ms)?;
        i += 1;
    }
    Ok(())
}

/// Whether the storage around a removal is still what was recorded, so that it may go on.
pub fn verify_remaining(journal: &Journal, found: &Remaining, uid: u32) -> (r: Result<(), String>)
    requires
        journal.wf(),
    ensures
        complaint(r) == standing_complaint(*journal, *found, uid),
{
    let receipt = match &found.receipt {
        Err(e) => return Err(e.clone()),
        Ok(receipt) => receipt,
    };
    check_ownership(journal, found.imports, receipt, found.opened, found.current)?;
    if found.opened.is_some() {
        match &found.fingerprint {
            Err(e) => return Err(e.clone()),
            Ok(_) => {},
        }
        check_entries(journal, &found.entries, uid)?;
    }
    match &found.record {
        Err(e) => Err(e.clone()),
        Ok(record) => check_record(journal, record.as_ref(), found.elapsed_ms),
    }
}

/// The file of a removal record: what it is, how many bytes it gave, and what they hold.
pub struct RecordFile {
    pub meta: Metadata,
    pub bytes: u64,
    pub journal: Result<Journal, String>,
}

/// The removal record of an import, where there is a file of it.
pub open spec fn read_of(id: Seq<char>, found: Result<Option<RecordFile>, String>, uid: u32) -> Result<
    Option<Journal>,
    Seq<char>,
> {
    if !valid_id(id) {
        Err("Invalid managed import ID"@)
    } else {
        match found {
            Err(e) => Err("Opening managed removal record: "@ + e@),
            Ok(None) => Ok(None),
            Ok(Some(file)) => if !record_file(file.meta, uid, MAX_JOURNAL_BYTES) {
                Err("Managed removal record must be a bounded private regular file"@)
            } else if file.bytes > MAX_JOURNAL_BYTES {
                Err("Managed removal record is too large"@)
            } else {
                match file.journal {
                    Err(e) => Err(e@),
                    Ok(journal) => match journal_complaint(journal, id) {
                        Some(e) => Err(e),
                        None => Ok(Some(journal)),
                    },
                }
            },
        }
    }
}

/// Reads the removal record of an import.
pub fn read(id: &str, found: Result<Option<RecordFile>, String>, uid: u32) -> (r: Result<
    Option<Journal>,
    String,
>)
    ensures
        outcome(r) == read_of(id@, found, uid),
{
    validate_id(id)?;
    match found {
        Err(e) => Err(text::worded("Opening managed removal record: ", e.as_str())),
        Ok(None) => Ok(None),
        Ok(Some(file)) => {
            check_record_file(&file.meta, uid)?;
            check_record_bytes(file.bytes)?;
            match file.journal {
                Err(e) => Err(e),
                Ok(journal) => {
                    validate(&journal, id)?;
                    Ok(Some(journal))
                },
            }
        },
    }
}

/// What was found of a removal that may be pending.
pub struct Pending {
    /// Whether there is a directory of removals.
    pub removals: Result<bool, String>,
    pub record: Result<Option<RecordFile>, String>,
    /// Whether the directories that it speaks of could be opened.
    pub opened: Result<(), String>,
    pub remaining: Remaining,
}

/// The removal that is pending for an import, where there is one and it may go on.
pub open spec fn resumed_of(id: Seq<char>, found: Pending, uid: u32) -> Result<
    Option<Journal>,
    Seq<char>,
> {
    if !valid_id(id) {
        Err("Invalid managed import ID"@)
    } else {
        match found.removals {
            Err(e) => Err(e@),
            Ok(false) => Ok(None),
            Ok(true) => match read_of(id, found.record, uid) {
                Err(e) => Err(e),
                Ok(None) => Ok(None),
                Ok(Some(journal)) => if found.opened is Err {
                    Err(found.opened->Err_0@)
                } else {
                    match standing_complaint(journal, found.remaining, uid) {
                        Some(e) => Err(e),
                        None => Ok(Some(journal)),
                    }
                },
            },
        }
    }
}

/// Takes up the removal that is pending for an import.
pub fn resume(id: &str, found: Pending, uid: u32) -> (r: Result<Option<Journal>, String>)
    requires
        found.record matches Ok(Some(file)) && file.journal matches Ok(journal) ==> journal.wf(),
    ensures
        outcome(r) == resumed_of(id@, found, uid),
{
    validate_id(id)?;
    match found.removals {
        Err(e) => return Err(e),
        Ok(there) => {
            if !there {
                return Ok(None);
            }
        },
    }
    match read(id, found.record, uid)? {
        None => Ok(None),
        Some(journal) => {
            match found.opened {
                Err(e) => return Err(e),
                Ok(_) => {},
            }
            verify_remaining(&journal, &found.remaining, uid)?;
            Ok(Some(journal))
        },
    }
}

/// A removal that is taken up is the one that was recorded for the import, and what remains around it
/// is what was recorded.
pub proof fn resumed_removals_are_the_recorded_ones(id: Seq<char>, found: Pending, uid: u32)
    ensures
        resumed_of(id, found, uid) matches Ok(Some(journal)) ==> {
            &&& journal.receipt.id@ == id
            &&& journal_complaint(journal, id) is None
            &&& standing_complaint(journal, found.remaining, uid) is None
        },
{
}

/// Why what remains of a removal cannot be reviewed. `current` is the review of the directory and
/// `fingerprint` its fingerprint afterwards. Without a directory only the record is left.
pub open spec fn again_complaint(
    journal: Journal,
    before: Remaining,
    current: Result<CatalogDirectoryReview, String>,
    after: Remaining,
    names: Seq<String>,
    fingerprint: Result<Seq<char>, Seq<char>>,
    uid: u32,
) -> Option<Seq<char>> {
    if standing_complaint(journal, before, uid) is Some {
        standing_complaint(journal, before, uid)
    } else if before.opened is None {
        standing_complaint(journal, after, uid)
    } else {
        match current {
            Err(e) => Some(e@),
            Ok(review) => if standing_complaint(journal, after, uid) is Some {
                standing_complaint(journal, after, uid)
            } else {
                match review_of(journal, names, review, fingerprint) {
                    Err(e) => Some(e),
                    Ok(_) => None,
                }
            },
        }
    }
}

/// Reviews what remains of a removal: the files that are there, and the recorded ones that are gone.
/// `record` is the record as it is written.
pub fn review(
    journal: &Journal,
    before: &Remaining,
    current: Result<CatalogDirectoryReview, String>,
    record: &[u8],
    after: &Remaining,
    names: &Vec<String>,
    found: Result<&str, String>,
    uid: u32,
) -> (r: Result<CatalogDirectoryReview, String>)
    requires
        journal.wf(),
    ensures
        ({
            let complaint = again_complaint(
                *journal,
                *before,
                current,
                *after,
                names@,
                match found {
                    Ok(f) => Ok(f@),
                    Err(e) => Err(e@),
                },
                uid,
            );
            match r {
                Err(e) => complaint == Some(e@),
                Ok(review) => {
                    &&& complaint is None
                    &&& texts(review.missing_files@) == missing(
                        journal.files@,
                        review.files@,
                        journal.files@.len() as int,
                    )
                    &&& if before.opened is Some {
                        current matches Ok(c) && review.directory == c.directory && review.sha256
                            == c.sha256 && review.bytes == c.bytes && review.files == c.files
                    } else {
                        &&& review.directory@ == journal.receipt.id@
                        &&& review.sha256@ == digest::fingerprint(
                            encode_utf8("lianli-removed-import-v1\0"@) + record@,
                        )
                        &&& review.bytes == 0
                        &&& review.files@.len() == 0
                    }
                },
            }
        }),
{
    verify_remaining(journal, before, uid)?;
    if before.opened.is_none() {
        verify_remaining(journal, after, uid)?;
        let files: Vec<CatalogReviewedFile> = Vec::new();
        let missing_files = missing_files(journal, &files);
        return Ok(
            CatalogDirectoryReview {
                directory: journal.receipt.id.clone(),
                sha256: removed_fingerprint(record),
                bytes: 0,
                files,
                missing_files,
            },
        );
    }
    match current {
        Err(e) => Err(e),
        Ok(review) => {
            verify_remaining(journal, after, uid)?;
            verify_review(journal, names, &review, found)?;
            let missing_files = missing_files(journal, &review.files);
            Ok(CatalogDirectoryReview { missing_files, ..review })
        },
    }
}

/// Every recorded file is either shown by a review of what remains or named as missing.
pub proof fn recorded_files_are_accounted_for(
    files: Seq<JournalFile>,
    review: Seq<CatalogReviewedFile>,
    n: int,
    i: int,
)
    requires
        0 <= i < n <= files.len(),
    ensures
        reviews(review, review.len() as int, files[i].name@) || missing(files, review, n).contains(
            files[i].name@,
        ),
    decreases n,
{
    let before = missing(files, review, n - 1);
    if i < n - 1 {
        recorded_files_are_accounted_for(files, review, n - 1, i);
        if before.contains(files[i].name@) {
            let k = choose|k: int| 0 <= k < before.len() && before[k] == files[i].name@;
            assert(before.push(files[n - 1].name@)[k] == files[i].name@);
        }
    } else if !reviews(review, review.len() as int, files[i].name@) {
        assert(before.push(files[i].name@)[before.len() as int] == files[i].name@);
    }
}

/// An entry of the directory of removals, and how long after the beginning it was read. A name that
/// is no text is none.
pub struct PendingEntry {
    pub name: Result<Option<String>, String>,
    /// Milliseconds.
    pub elapsed_ms: u64,
}

/// The identifier of an entry, when `count` stand before it.
pub open spec fn pending_entry(entry: PendingEntry, count: int) -> Result<Seq<char>, Seq<char>> {
    if count >= 1024 || entry.elapsed_ms >= PENDING_MS {
        Err("Managed removal inventory exceeded its limits"@)
    } else {
        match entry.name {
            Err(e) => Err(e@),
            Ok(None) => Err("Invalid managed removal record name"@),
            Ok(Some(name)) => record_id(name@, "Unexpected managed removal metadata"@),
        }
    }
}

/// The identifiers of the first `n` entries, in order, or the first complaint.
pub open spec fn pending_of(entries: Seq<PendingEntry>, n: int) -> Result<Seq<Seq<char>>, Seq<char>>
    decreases n,
{
    if n <= 0 {
        Ok(Seq::empty())
    } else {
        match pending_of(entries, n - 1) {
            Err(e) => Err(e),
            Ok(ids) => match pending_entry(entries[n - 1], n - 1) {
                Err(e) => Err(e),
                Ok(id) => Ok(ids.push(id)),
            },
        }
    }
}

proof fn pending_complaints_stay(entries: Seq<PendingEntry>, i: int, n: int)
    requires
        0 <= i <= n,
        pending_of(entries, i) is Err,
    ensures
        pending_of(entries, n) == pending_of(entries, i),
    decreases n,
{
    if i < n {
        pending_complaints_stay(entries, i, n - 1);
    }
}

/// The imports whose removal is pending, where there is a directory of removals.
pub fn pending_ids(entries: &Option<Vec<PendingEntry>>) -> (r: Result<Vec<String>, String>)
    ensures
        ({
            let expected = match *entries {
                None => Ok(Seq::empty()),
                Some(entries) => pending_of(entries@, entries@.len() as int),
            };
            match r {
                Ok(ids) => expected == Ok::<Seq<Seq<char>>, Seq<char>>(texts(ids@)),
                Err(e) => expected == Err::<Seq<Seq<char>>, Seq<char>>(e@),
            }
        }),
{
    let mut ids: Vec<String> = Vec::new();
    assert(texts(ids@) =~= Seq::empty());
    let list = match entries {
        None => return Ok(ids),
        Some(list) => list,
    };
    let n: usize = list.len();
    let mut i: usize = 0;
    while i < n
        invariant
            i <= n == list@.len(),
            *entries == Some(*list),
            pending_of(list@, i as int) == Ok::<Seq<Seq<char>>, Seq<char>>(texts(ids@)),
        decreases n - i,
    {
        let entry = &list[i];
        let found = match &entry.name {
            Ok(Some(name)) => pending_id(i as u64, entry.elapsed_ms, name.as_str()),
            _ => if i >= 1024 || entry.elapsed_ms >= PENDING_MS {
                Err("Managed removal inventory exceeded its limits".to_owned())
            } else {
                match &entry.name {
                    Err(e) => Err(e.clone()),
                    _ => Err("Invalid managed removal record name".to_owned()),
                }
            },
        };
        match found {
            Err(e) => {
                assert(pending_of(list@, i + 1) == Err::<Seq<Seq<char>>, Seq<char>>(e@));
                proof {
                    pending_complaints_stay(list@, i + 1, n as int);
                }
                return Err(e);
            },
            Ok(id) => {
                proof {
                    text::texts_push(ids@, id);
                }
                ids.push(id);
            },
        }
        i += 1;
    }
    Ok(ids)
}

/// The fingerprint of what is left of an import whose directory is gone or was never published, where
/// only a receipt is.
pub open spec fn orphan_of(
    id: Seq<char>,
    published: Result<bool, String>,
    receipt: Result<Option<Vec<u8>>, String>,
) -> Result<Option<Seq<char>>, Seq<char>> {
    if !valid_id(id) {
        Err("Invalid managed import ID"@)
    } else {
        match published {
            Err(e) => Err(e@),
            Ok(true) => Ok(None),
            Ok(false) => match receipt {
                Err(e) => Err(e@),
                Ok(None) => Ok(None),
                Ok(Some(bytes)) => Ok(
                    Some(
                        digest::fingerprint(
                            encode_utf8("lianli-orphan-receipt-v1\0"@) + bytes@,
                        ),
                    ),
                ),
            },
        }
    }
}

/// The review of an import whose directory is gone or was never published and of which only a receipt
/// is left. `published` says whether its directory is there, and `receipt` is the receipt as it is
/// written.
pub fn find_orphan(id: &str, published: &Result<bool, String>, receipt: &Result<Option<Vec<u8>>, String>) -> (r:
    Result<Option<CatalogDirectoryReview>, String>)
    ensures
        match r {
            Err(e) => orphan_of(id@, *published, *receipt) == Err::<Option<Seq<char>>, Seq<char>>(
                e@,
            ),
            Ok(None) => orphan_of(id@, *published, *receipt) == Ok::<Option<Seq<char>>, Seq<char>>(
                None,
            ),
            Ok(Some(review)) => orphan_of(id@, *published, *receipt) == Ok::<
                Option<Seq<char>>,
                Seq<char>,
            >(Some(review.sha256@)) && review.directory@ == id@ && review.bytes == 0
                && review.files@.len() == 0 && review.missing_files@.len() == 0,
        },
{
    validate_id(id)?;
    match published {
        Err(e) => return Err(e.clone()),
        Ok(there) => {
            if *there {
                return Ok(None);
            }
        },
    }
    match receipt {
        Err(e) => Err(e.clone()),
        Ok(None) => Ok(None),
        Ok(Some(bytes)) => Ok(Some(orphan_review(id, bytes.as_slice()))),
    }
}

/// What recording a removal does next.
#[derive(Clone, Copy, Debug, PartialEq, Eq, Structural)]
pub enum RecordStep {
    Resume,
    CompareResumed,
    VerifyOwnership,
    ReadReceipt,
    FingerprintBefore,
    Files,
    Compose,
    Entries,
    FingerprintAfter,
    CountRecords,
    Measure,
    Write,
    VerifyRecorded,
    Prepared,
    Failed,
}

pub open spec fn record_rank(step: RecordStep) -> int {
    match step {
        RecordStep::Resume => 0,
        RecordStep::CompareResumed => 1,
        RecordStep::VerifyOwnership => 2,
        RecordStep::ReadReceipt => 3,
        RecordStep::FingerprintBefore => 4,
        RecordStep::Files => 5,
        RecordStep::Compose => 6,
        RecordStep::Entries => 7,
        RecordStep::FingerprintAfter => 8,
        RecordStep::CountRecords => 9,
        RecordStep::Measure => 10,
        RecordStep::Write => 11,
        RecordStep::VerifyRecorded => 12,
        RecordStep::Prepared => 13,
        RecordStep::Failed => 14,
    }
}

/// A removal that is being recorded.
pub struct Recording {
    pub review: CatalogDirectoryReview,
    /// Whether an earlier removal of this import goes on.
    pub resumed: bool,
    /// Whether the directory of the import is there to be removed.
    pub directory: bool,
    pub files: Vec<JournalFile>,
    /// How many reviewed files were recorded.
    pub at: usize,
    /// How many entries of the directory, or records of removals, were counted.
    pub count: u64,
    pub receipt: Option<Receipt>,
    pub journal: Option<Journal>,
    pub step: RecordStep,
    pub error: String,
    /// The steps that succeeded, in order.
    pub log: Ghost<Seq<RecordStep>>,
}

pub open spec fn record_stops(before: Recording, after: Recording, text: Seq<char>) -> bool {
    after == (Recording { step: RecordStep::Failed, error: after.error, ..before }) && after.error@
        == text
}

pub open spec fn record_moves(before: Recording, after: Recording, next: RecordStep) -> bool {
    after == (Recording { step: next, log: Ghost(before.log@.push(before.step)), ..before })
}

/// Whether every removal takes a step, by whether an earlier one goes on.
pub open spec fn takes(step: RecordStep, resumed: bool) -> bool {
    match step {
        RecordStep::Resume | RecordStep::Prepared | RecordStep::Failed => true,
        RecordStep::CompareResumed => resumed,
        RecordStep::Files => false,
        _ => !resumed,
    }
}

/// What follows when `at` of the reviewed files were recorded.
pub open spec fn next_file(review: CatalogDirectoryReview, at: int) -> RecordStep {
    if at < review.files@.len() {
        RecordStep::Files
    } else {
        RecordStep::Compose
    }
}

/// Whether the first `n` reviewed files are recorded.
pub open spec fn covers_review(
    files: Seq<JournalFile>,
    review: CatalogDirectoryReview,
    n: int,
) -> bool {
    forall|i: int| 0 <= i < n ==> recorded(files, (#[trigger] review.files@[i]).path@)
}

/// Whether a recorded file is one of the first `n` reviewed ones, with the size and the digest that
/// the review gives it.
pub open spec fn from_review(f: JournalFile, review: CatalogDirectoryReview, n: int) -> bool {
    exists|j: int|
        0 <= j < n && (#[trigger] review.files@[j]).path@ == f.name@ && review.files@[j].bytes
            == f.identity.bytes && review.files@[j].sha256@ == f.identity.sha256@
}

/// Whether every recorded file is one of the first `n` reviewed ones.
pub open spec fn only_reviewed(
    files: Seq<JournalFile>,
    review: CatalogDirectoryReview,
    n: int,
) -> bool {
    forall|i: int| 0 <= i < files.len() ==> from_review(#[trigger] files[i], review, n)
}

/// Where the recorded files are the first `n` reviewed ones, they stay so with the next one.
proof fn only_reviewed_grows(
    files: Seq<JournalFile>,
    review: CatalogDirectoryReview,
    n: int,
    at: int,
    f: JournalFile,
)
    requires
        0 <= at <= files.len(),
        0 <= n < review.files@.len(),
        only_reviewed(files, review, n),
        review.files@[n].path@ == f.name@,
        review.files@[n].bytes == f.identity.bytes,
        review.files@[n].sha256@ == f.identity.sha256@,
    ensures
        only_reviewed(files.insert(at, f), review, n + 1),
{
    let more = files.insert(at, f);
    assert forall|i: int| 0 <= i < more.len() implies from_review(
        #[trigger] more[i],
        review,
        n + 1,
    ) by {
        if i == at {
            assert(review.files@[n].path@ == more[i].name@);
        } else {
            let k = if i < at {
                i
            } else {
                i - 1
            };
            assert(more[i] == files[k]);
            assert(from_review(files[k], review, n));
            let j = choose|j: int|
                0 <= j < n && (#[trigger] review.files@[j]).path@ == files[k].name@
                    && review.files@[j].bytes == files[k].identity.bytes
                    && review.files@[j].sha256@ == files[k].identity.sha256@;
            assert(review.files@[j].path@ == more[i].name@);
        }
    }
}

/// A name stays recorded when another file is.
proof fn recorded_stays(files: Seq<JournalFile>, at: int, f: JournalFile, name: Seq<char>)
    requires
        0 <= at <= files.len(),
        recorded(files, name) || f.name@ == name,
    ensures
        recorded(files.insert(at, f), name),
{
    let more = files.insert(at, f);
    if f.name@ == name {
        assert(more[at].name@ == name);
    } else {
        let i = choose|i: int| 0 <= i < files.len() && (#[trigger] files[i]).name@ == name;
        if i < at {
            assert(more[i].name@ == name);
        } else {
            assert(more[i + 1].name@ == name);
        }
    }
}

impl Recording {
    pub open spec fn wf(self) -> bool {
        self.step != RecordStep::Failed ==> {
            &&& forall|s: RecordStep|
                record_rank(s) < record_rank(self.step) && takes(s, self.resumed)
                    ==> #[trigger] self.log@.contains(s)
            &&& self.resumed ==> self.step == RecordStep::CompareResumed || self.step
                == RecordStep::Prepared
            &&& self.step != RecordStep::Resume && !self.resumed ==> self.directory
            &&& strict_order(self.files@)
            &&& self.at <= self.review.files@.len()
            &&& record_rank(self.step) <= record_rank(RecordStep::Compose) ==> covers_review(
                self.files@,
                self.review,
                self.at as int,
            ) && only_reviewed(self.files@, self.review, self.at as int) && self.files@.len()
                == self.at
            &&& self.step == RecordStep::FingerprintBefore ==> self.at == 0
            &&& record_rank(self.step) < record_rank(RecordStep::FingerprintBefore) ==> self.at == 0
            &&& self.step == RecordStep::Files ==> self.at < self.review.files@.len()
            &&& self.step == RecordStep::Compose ==> self.at == self.review.files@.len()
            &&& record_rank(RecordStep::ReadReceipt) < record_rank(self.step) <= record_rank(
                RecordStep::Compose,
            ) ==> self.receipt is Some
            &&& self.step == RecordStep::CompareResumed ==> self.resumed && self.journal is Some
                && self.journal->0.wf()
            &&& record_rank(self.step) > record_rank(RecordStep::Compose) ==> {
                &&& self.journal is Some
                &&& self.journal->0.wf()
                &&& !self.resumed ==> covers_review(
                    self.journal->0.files@,
                    self.review,
                    self.review.files@.len() as int,
                ) && only_reviewed(
                    self.journal->0.files@,
                    self.review,
                    self.review.files@.len() as int,
                ) && self.journal->0.files@.len() == self.review.files@.len()
            }
            &&& self.step == RecordStep::Entries ==> self.count <= 8192
            &&& self.step == RecordStep::CountRecords ==> self.count <= 1023
        }
    }

    /// Begins to record the removal of an import that was reviewed.
    pub fn prepare(review: CatalogDirectoryReview) -> (r: Recording)
        ensures
            r.wf(),
            r.review == review,
            !r.resumed,
            !r.directory,
            r.files@.len() == 0,
            r.at == 0,
            r.count == 0,
            r.receipt is None,
            r.journal is None,
            r.step == RecordStep::Resume,
            r.log@ == Seq::<RecordStep>::empty(),
    {
        Recording {
            review,
            resumed: false,
            directory: false,
            files: Vec::new(),
            at: 0,
            count: 0,
            receipt: None,
            journal: None,
            step: RecordStep::Resume,
            error: String::new(),
            log: Ghost(Seq::empty()),
        }
    }

    fn advance(&mut self, next: RecordStep)
        requires
            (Recording {
                step: next,
                log: Ghost(old(self).log@.push(old(self).step)),
                ..*old(self)
            }).wf(),
        ensures
            final(self).wf(),
            record_moves(*old(self), *final(self), next),
    {
        self.log = Ghost(self.log@.push(self.step));
        self.step = next;
    }

    /// A step could not be done.
    pub fn failed(&mut self, reason: &str)
        ensures
            final(self).wf(),
            record_stops(*old(self), *final(self), reason@),
    {
        self.step = RecordStep::Failed;
        self.error = reason.to_owned();
    }

    /// What was found of an earlier removal of this import.
    pub fn resumed(&mut self, found: Pending, uid: u32)
        requires
            old(self).wf(),
            old(self).step == RecordStep::Resume,
            found.record matches Ok(Some(file)) && file.journal matches Ok(journal) ==> journal.wf(),
        ensures
            final(self).wf(),
            match resumed_of(old(self).review.directory@, found, uid) {
                Err(e) => record_stops(*old(self), *final(self), e),
                Ok(Some(journal)) => record_moves(
                    (Recording {
                        resumed: true,
                        directory: found.remaining.opened is Some,
                        journal: Some(journal),
                        ..*old(self)
                    }),
                    *final(self),
                    RecordStep::CompareResumed,
                ),
                Ok(None) => record_moves(
                    (Recording { resumed: false, directory: true, ..*old(self) }),
                    *final(self),
                    RecordStep::VerifyOwnership,
                ),
            },
    {
        let held = found.remaining.opened.is_some();
        match resume(self.review.directory.as_str(), found, uid) {
            Err(e) => {
                self.failed(e.as_str());
            },
            Ok(pending) => {
                proof {
                    steps::push_holds(self.log@, self.step);
                }
                match pending {
                    Some(journal) => {
                        self.resumed = true;
                        self.directory = held;
                        self.journal = Some(journal);
                        self.advance(RecordStep::CompareResumed);
                    },
                    None => {
                        self.resumed = false;
                        self.directory = true;
                        self.advance(RecordStep::VerifyOwnership);
                    },
                }
            },
        }
    }

    /// What remains of the earlier removal: the storage as it is now, the names in the directory,
    /// and its fingerprint.
    pub fn compared(
        &mut self,
        now: &Remaining,
        uid: u32,
        names: &Vec<String>,
        found: Result<&str, String>,
    )
        requires
            old(self).wf(),
            old(self).step == RecordStep::CompareResumed,
            now.opened is Some == old(self).directory,
        ensures
            final(self).wf(),
            match standing_complaint(old(self).journal->0, *now, uid) {
                Some(e) => record_stops(*old(self), *final(self), e),
                None => match review_of(
                    old(self).journal->0,
                    names@,
                    old(self).review,
                    match found {
                        Ok(f) => Ok(f@),
                        Err(e) => Err(e@),
                    },
                ) {
                    Err(e) => record_stops(*old(self), *final(self), e),
                    Ok(_) => record_moves(*old(self), *final(self), RecordStep::Prepared),
                },
            },
    {
        let result = match &self.journal {
            None => Ok(()),
            Some(journal) => match verify_remaining(journal, now, uid) {
                Err(e) => Err(e),
                Ok(()) => verify_review(journal, names, &self.review, found),
            },
        };
        match result {
            Err(e) => {
                self.failed(e.as_str());
            },
            Ok(_) => {
                proof {
                    steps::push_holds(self.log@, self.step);
                }
                self.advance(RecordStep::Prepared);
            },
        }
    }

    /// Whether the import is as it was published.
    pub fn owned(&mut self, verified: &Result<bool, String>)
        requires
            old(self).wf(),
            old(self).step == RecordStep::VerifyOwnership,
        ensures
            final(self).wf(),
            match *verified {
                Err(e) => record_stops(*old(self), *final(self), e@),
                Ok(false) => record_stops(
                    *old(self),
                    *final(self),
                    "Managed ownership is unverified"@,
                ),
                Ok(true) => record_moves(*old(self), *final(self), RecordStep::ReadReceipt),
            },
    {
        match verified {
            Err(e) => {
                self.failed(e.as_str());
            },
            Ok(verified) => {
                if *verified {
                    proof {
                        steps::push_holds(self.log@, self.step);
                    }
                    self.advance(RecordStep::ReadReceipt);
                } else {
                    self.failed("Managed ownership is unverified");
                }
            },
        }
    }

    /// The receipt of the import.
    pub fn receipt(&mut self, receipt: Option<Receipt>)
        requires
            old(self).wf(),
            old(self).step == RecordStep::ReadReceipt,
        ensures
            final(self).wf(),
            match receipt {
                None => record_stops(
                    *old(self),
                    *final(self),
                    "Managed ownership receipt disappeared"@,
                ),
                Some(_) => *final(self) == (Recording {
                    step: RecordStep::FingerprintBefore,
                    receipt,
                    log: Ghost(old(self).log@.push(RecordStep::ReadReceipt)),
                    ..*old(self)
                }),
            },
    {
        if receipt.is_none() {
            self.failed("Managed ownership receipt disappeared");
            return;
        }
        proof {
            steps::push_holds(self.log@, self.step);
        }
        self.receipt = receipt;
        self.advance(RecordStep::FingerprintBefore);
    }

    /// The journal of the files recorded so far.
    pub open spec fn whole(self) -> Journal {
        Journal { version: 1, receipt: self.receipt->0, files: self.files }
    }

    /// The fingerprint of the import before its files are recorded.
    pub fn before(&mut self, fingerprint: &str)
        requires
            old(self).wf(),
            old(self).step == RecordStep::FingerprintBefore,
        ensures
            final(self).wf(),
            if fingerprint@ == old(self).review.sha256@ {
                record_moves(*old(self), *final(self), next_file(old(self).review, 0))
            } else {
                record_stops(*old(self), *final(self), "Managed import changed since review"@)
            },
    {
        if !text::eq(fingerprint, self.review.sha256.as_str()) {
            self.failed("Managed import changed since review");
            return;
        }
        proof {
            steps::push_holds(self.log@, self.step);
        }
        if self.review.files.len() > 0 {
            self.advance(RecordStep::Files);
        } else {
            self.advance(RecordStep::Compose);
        }
    }

    /// The next reviewed file as it stands in the directory, where it could be looked at.
    pub fn file(&mut self, meta: &Result<Metadata, String>, uid: u32, elapsed_ms: u64)
        requires
            old(self).wf(),
            old(self).step == RecordStep::Files,
        ensures
            final(self).wf(),
            ({
                let file = old(self).review.files@[old(self).at as int];
                match prepare_complaint(old(self).files@, file, *meta, uid, elapsed_ms >= REMOVAL_MS) {
                    Some(e) => {
                        &&& *final(self) == (Recording {
                            step: RecordStep::Failed,
                            files: final(self).files,
                            error: final(self).error,
                            ..*old(self)
                        })
                        &&& final(self).error@ == e
                    },
                    None => {
                        &&& *final(self) == (Recording {
                            step: next_file(old(self).review, old(self).at + 1),
                            files: final(self).files,
                            at: (old(self).at + 1) as usize,
                            log: Ghost(old(self).log@.push(RecordStep::Files)),
                            ..*old(self)
                        })
                        &&& adds(old(self).files@, final(self).files@, added_file(file, meta->Ok_0))
                    },
                }
            }),
    {
        let at: usize = self.at;
        let count: usize = self.review.files.len();
        let mut files: Vec<JournalFile> = Vec::new();
        std::mem::swap(&mut files, &mut self.files);
        let mut preparation = Preparation { files };
        let result = preparation.file(&self.review.files[at], meta, uid, elapsed_ms);
        self.files = preparation.files;
        match result {
            Err(e) => {
                self.failed(e.as_str());
            },
            Ok(_) => {
                proof {
                    let before = old(self).files@;
                    let now = self.files@;
                    let all = self.review.files@;
                    let place = file_from(now, all[at as int].path@, 0);
                    assert forall|i: int| 0 <= i < at + 1 implies recorded(
                        now,
                        (#[trigger] all[i]).path@,
                    ) by {
                        recorded_stays(before, place, now[place], all[i].path@);
                    }
                    only_reviewed_grows(before, self.review, at as int, place, now[place]);
                    steps::push_holds(self.log@, self.step);
                }
                self.at = at + 1;
                if self.at < count {
                    self.advance(RecordStep::Files);
                } else {
                    self.advance(RecordStep::Compose);
                }
            },
        }
    }

    /// Makes the journal of the files that were recorded.
    pub fn compose(&mut self)
        requires
            old(self).wf(),
            old(self).step == RecordStep::Compose,
        ensures
            final(self).wf(),
            match journal_complaint(old(self).whole(), old(self).review.directory@) {
                Some(e) => {
                    &&& *final(self) == (Recording {
                        step: RecordStep::Failed,
                        files: final(self).files,
                        receipt: None,
                        error: final(self).error,
                        ..*old(self)
                    })
                    &&& final(self).error@ == e
                },
                None => *final(self) == (Recording {
                    step: RecordStep::Entries,
                    files: final(self).files,
                    receipt: None,
                    journal: Some(old(self).whole()),
                    count: 0,
                    log: Ghost(old(self).log@.push(RecordStep::Compose)),
                    ..*old(self)
                }),
            },
    {
        proof {
            steps::push_holds(self.log@, self.step);
        }
        let mut files: Vec<JournalFile> = Vec::new();
        std::mem::swap(&mut files, &mut self.files);
        match self.receipt.take() {
            None => {},
            Some(receipt) => {
                match (Preparation { files }).journal(receipt, self.review.directory.as_str()) {
                    Err(e) => {
                        self.failed(e.as_str());
                    },
                    Ok(journal) => {
                        self.journal = Some(journal);
                        self.count = 0;
                        self.advance(RecordStep::Entries);
                    },
                }
            },
        }
    }

    /// An entry of the directory, which must be among the recorded files.
    pub fn entry(&mut self, name: &str, elapsed_ms: u64)
        requires
            old(self).wf(),
            old(self).step == RecordStep::Entries,
        ensures
            final(self).wf(),
            if old(self).count >= 8192 || elapsed_ms >= REMOVAL_MS {
                record_stops(
                    *old(self),
                    *final(self),
                    "Managed removal preparation exceeded its limits"@,
                )
            } else if !recorded(old(self).journal->0.files@, name@) {
                record_stops(*old(self), *final(self), "Review omitted a managed file"@)
            } else {
                *final(self) == (Recording { count: (old(self).count + 1) as u64, ..*old(self) })
            },
    {
        let result = match &self.journal {
            None => Ok(()),
            Some(journal) => check_covered(journal, self.count, name, elapsed_ms),
        };
        match result {
            Err(e) => {
                self.failed(e.as_str());
            },
            Ok(_) => {
                self.count = self.count + 1;
            },
        }
    }

    /// The directory has no more entries.
    pub fn listed(&mut self)
        requires
            old(self).wf(),
            old(self).step == RecordStep::Entries,
        ensures
            final(self).wf(),
            record_moves(*old(self), *final(self), RecordStep::FingerprintAfter),
    {
        proof {
            steps::push_holds(self.log@, self.step);
        }
        self.advance(RecordStep::FingerprintAfter);
    }

    /// The fingerprint of the import once its files are recorded.
    pub fn after(&mut self, fingerprint: &str)
        requires
            old(self).wf(),
            old(self).step == RecordStep::FingerprintAfter,
        ensures
            final(self).wf(),
            if fingerprint@ == old(self).review.sha256@ {
                *final(self) == (Recording {
                    step: RecordStep::CountRecords,
                    count: 0,
                    log: Ghost(old(self).log@.push(RecordStep::FingerprintAfter)),
                    ..*old(self)
                })
            } else {
                record_stops(
                    *old(self),
                    *final(self),
                    "Managed import changed while preparing removal"@,
                )
            },
    {
        if !text::eq(fingerprint, self.review.sha256.as_str()) {
            self.failed("Managed import changed while preparing removal");
            return;
        }
        proof {
            steps::push_holds(self.log@, self.step);
        }
        self.count = 0;
        self.advance(RecordStep::CountRecords);
    }

    /// A record of another removal stands there.
    pub fn other(&mut self, elapsed_ms: u64)
        requires
            old(self).wf(),
            old(self).step == RecordStep::CountRecords,
        ensures
            final(self).wf(),
            if old(self).count < 1023 && elapsed_ms < REMOVAL_MS {
                *final(self) == (Recording { count: (old(self).count + 1) as u64, ..*old(self) })
            } else {
                record_stops(
                    *old(self),
                    *final(self),
                    "Managed removal records exceed the entry or time limit"@,
                )
            },
    {
        match removal_room(self.count, elapsed_ms) {
            Err(e) => {
                self.failed(e.as_str());
            },
            Ok(_) => {
                self.count = self.count + 1;
            },
        }
    }

    /// There are no more records of other removals.
    pub fn counted(&mut self)
        requires
            old(self).wf(),
            old(self).step == RecordStep::CountRecords,
        ensures
            final(self).wf(),
            record_moves(*old(self), *final(self), RecordStep::Measure),
    {
        proof {
            steps::push_holds(self.log@, self.step);
        }
        self.advance(RecordStep::Measure);
    }

    /// How many bytes the record takes.
    pub fn measured(&mut self, bytes: u64)
        requires
            old(self).wf(),
            old(self).step == RecordStep::Measure,
        ensures
            final(self).wf(),
            if bytes <= MAX_JOURNAL_BYTES {
                record_moves(*old(self), *final(self), RecordStep::Write)
            } else {
                record_stops(*old(self), *final(self), "Managed removal record is too large"@)
            },
    {
        match check_record_bytes(bytes) {
            Err(e) => {
                self.failed(e.as_str());
            },
            Ok(_) => {
                proof {
                    steps::push_holds(self.log@, self.step);
                }
                self.advance(RecordStep::Write);
            },
        }
    }

    /// The record is on disk.
    pub fn written(&mut self)
        requires
            old(self).wf(),
            old(self).step == RecordStep::Write,
        ensures
            final(self).wf(),
            record_moves(*old(self), *final(self), RecordStep::VerifyRecorded),
    {
        proof {
            steps::push_holds(self.log@, self.step);
        }
        self.advance(RecordStep::VerifyRecorded);
    }

    /// The storage as it is when the record is written.
    pub fn verified(&mut self, found: &Remaining, uid: u32)
        requires
            old(self).wf(),
            old(self).step == RecordStep::VerifyRecorded,
            found.opened is Some,
        ensures
            final(self).wf(),
            match standing_complaint(old(self).journal->0, *found, uid) {
                Some(e) => record_stops(*old(self), *final(self), e),
                None => record_moves(*old(self), *final(self), RecordStep::Prepared),
            },
    {
        let result = match &self.journal {
            None => Ok(()),
            Some(journal) => verify_remaining(journal, found, uid),
        };
        match result {
            Err(e) => {
                self.failed(e.as_str());
            },
            Ok(_) => {
                proof {
                    steps::push_holds(self.log@, self.step);
                }
                self.advance(RecordStep::Prepared);
            },
        }
    }
}

/// What is recorded of a reviewed file.
pub open spec fn added_file(file: CatalogReviewedFile, meta: Metadata) -> (
    Seq<char>,
    (u64, u64, (i64, i64), Seq<char>),
) {
    (file.path@, (meta.ino, file.bytes, (meta.mtime, meta.mtime_nsec), file.sha256@))
}

/// Whether files are those before and one more, in its place.
pub open spec fn adds(
    before: Seq<JournalFile>,
    after: Seq<JournalFile>,
    added: (Seq<char>, (u64, u64, (i64, i64), Seq<char>)),
) -> bool {
    let at = file_from(after, added.0, 0);
    &&& 0 <= at < after.len() == before.len() + 1
    &&& after == before.insert(at, after[at])
    &&& after[at].name@ == added.0
    &&& after[at].identity@ == added.1
}

/// A removal that was prepared anew has a record of exactly the files that were reviewed, each with
/// the size and the digest of the review, and the record was found unchanged on disk after the
/// import itself was.
pub proof fn records_cover_the_review(recording: Recording)
    requires
        recording.wf(),
        recording.step == RecordStep::Prepared,
        !recording.resumed,
    ensures
        recording.directory,
        recording.journal is Some,
        recording.journal->0.files@.len() == recording.review.files@.len(),
        forall|i: int|
            0 <= i < recording.review.files@.len() ==> recorded(
                recording.journal->0.files@,
                (#[trigger] recording.review.files@[i]).path@,
            ),
        forall|i: int|
            0 <= i < recording.journal->0.files@.len() ==> from_review(
                #[trigger] recording.journal->0.files@[i],
                recording.review,
                recording.review.files@.len() as int,
            ),
        recording.log@.contains(RecordStep::FingerprintAfter),
        recording.log@.contains(RecordStep::Write),
        recording.log@.contains(RecordStep::VerifyRecorded),
{
}

/// While a removal may go on, every file that remains is a recorded one and unchanged.
pub proof fn remaining_files_are_recorded(journal: Journal, found: Remaining, uid: u32, i: int)
    requires
        standing_complaint(journal, found, uid) is None,
        found.opened is Some,
        0 <= i < found.entries@.len() < 8192,
    ensures
        remaining_complaint(
            journal,
            i as u64,
            found.entries@[i].name@,
            found.entries@[i].meta,
            uid,
            found.entries@[i].elapsed_ms >= REMOVAL_MS,
        ) is None,
{
    no_complaint_before(journal, found.entries@, uid, 0, i);
}

proof fn no_complaint_before(
    journal: Journal,
    entries: Seq<RemainingEntry>,
    uid: u32,
    from: int,
    i: int,
)
    requires
        0 <= from <= i < entries.len(),
        entries_complaint(journal, entries, uid, from) is None,
    ensures
        remaining_complaint(
            journal,
            i as u64,
            entries[i].name@,
            entries[i].meta,
            uid,
            entries[i].elapsed_ms >= REMOVAL_MS,
        ) is None,
    decreases i - from,
{
    if from < i {
        no_complaint_before(journal, entries, uid, from + 1, i);
    }
}

proof fn entries_all_stand(journal: Journal, entries: Seq<RemainingEntry>, uid: u32, i: int)
    requires
        0 <= i <= entries.len(),
    ensures
        entries_complaint(journal, entries, uid, i) is None <==> forall|k: int|
            i <= k < entries.len() ==> remaining_complaint(
                journal,
                k as u64,
                (#[trigger] entries[k]).name@,
                entries[k].meta,
                uid,
                entries[k].elapsed_ms >= REMOVAL_MS,
            ) is None,
    decreases entries.len() - i,
{
    if i < entries.len() {
        entries_all_stand(journal, entries, uid, i + 1);
    }
}

/// A removal may go on exactly where the storage around it is the recorded one, the directory that it
/// holds can be fingerprinted and has only recorded files in it, the record is still the same, and
/// all that was found out in time.
pub proof fn removals_go_on_as_recorded(journal: Journal, found: Remaining, uid: u32)
    ensures
        standing_complaint(journal, found, uid) is None <==> {
            &&& found.receipt is Ok
            &&& ownership_complaint(
                journal,
                found.imports,
                found.receipt->Ok_0,
                found.opened,
                found.current,
            ) is None
            &&& found.opened is Some ==> found.fingerprint is Ok && forall|k: int|
                0 <= k < found.entries@.len() ==> remaining_complaint(
                    journal,
                    k as u64,
                    (#[trigger] found.entries@[k]).name@,
                    found.entries@[k].meta,
                    uid,
                    found.entries@[k].elapsed_ms >= 5_000,
                ) is None
            &&& found.record is Ok
            &&& found.record->Ok_0 is Some
            &&& found.record->Ok_0->0.version == journal.version
            &&& found.record->Ok_0->0.receipt@ == journal.receipt@
            &&& crate::media_removal::same_files(found.record->Ok_0->0.files@, journal.files@)
            &&& found.elapsed_ms < 5_000
        },
{
    entries_all_stand(journal, found.entries@, uid, 0);
}

/// The record of a removal is read exactly where there is none, or a private file of bounded size
/// that is known by one name holds a valid one for that import.
pub proof fn removal_records_are_read_from_private_files(
    id: Seq<char>,
    found: Result<Option<RecordFile>, String>,
    uid: u32,
)
    ensures
        ({
            let file = found->Ok_0->0;
            let read = read_of(id, found, uid);
            &&& read is Ok <==> {
                &&& text::hex_of_len(id, 32)
                &&& found is Ok
                &&& found->Ok_0 is Some ==> {
                    &&& crate::files::private_file(file.meta, uid)
                    &&& file.meta.nlink == 1
                    &&& file.meta.len <= 4_194_304
                    &&& file.bytes <= 4_194_304
                    &&& file.journal is Ok
                    &&& journal_complaint(file.journal->Ok_0, id) is None
                }
            }
            &&& read is Ok ==> (read->Ok_0 is Some <==> found->Ok_0 is Some)
            &&& read is Ok && found->Ok_0 is Some ==> read->Ok_0 == Some(file.journal->Ok_0)
        }),
{
}

/// A removal is resumed exactly where there is a record of one and all stands as it says. Where there
/// is none nothing is resumed.
pub proof fn removals_are_resumed_where_they_are_recorded(id: Seq<char>, found: Pending, uid: u32)
    ensures
        ({
            let resumed = resumed_of(id, found, uid);
            let journal = read_of(id, found.record, uid)->Ok_0->0;
            let none = found.removals == Ok::<bool, String>(false) || read_of(id, found.record, uid)
                == Ok::<Option<Journal>, Seq<char>>(None);
            &&& resumed is Ok <==> {
                &&& text::hex_of_len(id, 32)
                &&& found.removals is Ok
                &&& none || (read_of(id, found.record, uid) is Ok && found.opened is Ok
                    && standing_complaint(journal, found.remaining, uid) is None)
            }
            &&& resumed is Ok && none ==> resumed->Ok_0 is None
            &&& resumed is Ok && !none ==> resumed->Ok_0 == Some(journal)
        }),
{
}

/// Only a receipt is left of an import exactly where no directory of it was published and a receipt
/// stands there. Its fingerprint tells receipts apart from everything else.
pub proof fn orphans_have_a_receipt_and_nothing_else(
    id: Seq<char>,
    published: Result<bool, String>,
    receipt: Result<Option<Vec<u8>>, String>,
)
    ensures
        ({
            let left = orphan_of(id, published, receipt);
            &&& left is Ok && left->Ok_0 is Some <==> text::hex_of_len(id, 32) && published == Ok::<
                bool,
                String,
            >(false) && receipt is Ok && receipt->Ok_0 is Some
            &&& left is Ok && left->Ok_0 is None <==> text::hex_of_len(id, 32) && (published == Ok::<
                bool,
                String,
            >(true) || (published == Ok::<bool, String>(false) && receipt is Ok
                && receipt->Ok_0 is None))
        }),
{
}

/// What remains can be reviewed exactly where the removal may go on before and after, and, if there is
/// a directory, it could be reviewed and the review describes what remains.
pub proof fn remains_are_reviewed_while_they_stay(
    journal: Journal,
    before: Remaining,
    current: Result<CatalogDirectoryReview, String>,
    after: Remaining,
    names: Seq<String>,
    fingerprint: Result<Seq<char>, Seq<char>>,
    uid: u32,
)
    ensures
        again_complaint(journal, before, current, after, names, fingerprint, uid) is None <==> {
            &&& standing_complaint(journal, before, uid) is None
            &&& standing_complaint(journal, after, uid) is None
            &&& before.opened is Some ==> current is Ok && review_of(
                journal,
                names,
                current->Ok_0,
                fingerprint,
            ) is Ok
        },
{
}

/// Pending removals are listed exactly where there are at most 1024, all of them read in time and named
/// as records. The list has them all, in their order.
pub proof fn pending_removals_are_listed_in_order(entries: Seq<PendingEntry>, n: int, i: int)
    requires
        0 <= i < n <= entries.len(),
    ensures
        pending_of(entries, n) is Ok <==> forall|k: int|
            0 <= k < n ==> pending_entry(#[trigger] entries[k], k) is Ok,
        pending_of(entries, n) is Ok ==> pending_of(entries, n)->Ok_0.len() == n && pending_of(
            entries,
            n,
        )->Ok_0[i] == pending_entry(entries[i], i)->Ok_0,
        pending_entry(entries[i], i) is Ok <==> i < 1024 && entries[i].elapsed_ms < 2_000 && (
        entries[i].name matches Ok(Some(name)) && record_id(
            name@,
            "Unexpected managed removal metadata"@,
        ) is Ok),
    decreases n,
{
    if n == 1 {
        assert(pending_of(entries, 0) == Ok::<Seq<Seq<char>>, Seq<char>>(Seq::empty()));
    } else if i < n - 1 {
        pending_removals_are_listed_in_order(entries, n - 1, i);
    } else {
        pending_removals_are_listed_in_order(entries, n - 1, 0);
    }
}

/// A reviewed file is recorded with the size and the digest that were reviewed and the inode and time
/// that stand there, so that it is recognised again.
pub proof fn recorded_files_are_recognised(
    file: CatalogReviewedFile,
    meta: Metadata,
    f: JournalFile,
    uid: u32,
)
    requires
        (f.name@, f.identity@) == added_file(file, meta),
        crate::files::private_file(meta, uid),
        meta.len == file.bytes,
    ensures
        f.name@ == file.path@,
        f.identity.sha256@ == file.sha256@,
        crate::media_removal::matches_file(f.identity, meta, uid),
{
}

} // verus!
