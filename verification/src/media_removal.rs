//! Removing an import: a journal is written first, aliases go before the objects they name, and an
//! interrupted removal can be resumed but never extends to anything that was not recorded.

use crate::digest::{absorbed, fingerprint, Hasher};
use crate::files::{private_file, Metadata};
use crate::media_ownership::{
    id_of_record, record_file, record_id, valid_id, validate_id, CatalogDirectoryReview,
    CatalogReviewedFile, Receipt,
};
use crate::media_removal_record::{
    find_orphan, orphan_of, resume, resumed_of, standing_complaint, verify_remaining, Pending,
    RecordStep, Recording, Remaining,
};
use crate::media_publication::{is_media_name, is_object, media_name, names_object, MAX_FILE_BYTES};
use crate::order::{less, precedes, precedes_is_total, precedes_is_transitive};
use crate::text;
use crate::text::outcome;
use vstd::prelude::*;
use vstd::utf8::encode_utf8;

verus! {

/// How long the records of removals may be listed, in milliseconds.
pub const PENDING_MS: u64 = 2_000;

/// How long the files of a removal may be looked at, in milliseconds.
pub const REMOVAL_MS: u64 = 5_000;

pub const MAX_JOURNAL_BYTES: u64 = 4_194_304;

/// What a file was when its removal was prepared.
#[derive(Debug)]
pub struct FileIdentity {
    pub inode: u64,
    pub bytes: u64,
    pub modified: (i64, i64),
    pub sha256: String,
}

impl View for FileIdentity {
    type V = (u64, u64, (i64, i64), Seq<char>);

    open spec fn view(&self) -> (u64, u64, (i64, i64), Seq<char>) {
        (self.inode, self.bytes, self.modified, self.sha256@)
    }
}

/// A file in a removal journal.
#[derive(Debug)]
pub struct JournalFile {
    pub name: String,
    pub identity: FileIdentity,
}

/// What a removal may remove.
#[derive(Debug)]
pub struct Journal {
    pub version: u32,
    pub receipt: Receipt,
    /// The files in the strict order of their names.
    pub files: Vec<JournalFile>,
}

/// Whether a file is still the one that was recorded. Removing a hard-linked alias changes the
/// change time and link count of the names that survive, so neither counts.
pub open spec fn matches_file(f: FileIdentity, m: Metadata, uid: u32) -> bool {
    private_file(m, uid) && m.ino == f.inode && m.len == f.bytes && m.mtime == f.modified.0
        && m.mtime_nsec == f.modified.1
}

impl FileIdentity {
    pub fn matches(&self, meta: &Metadata, uid: u32) -> (r: bool)
        ensures
            r == matches_file(*self, *meta, uid),
    {
        meta.is_private_file(uid) && meta.ino == self.inode && meta.len == self.bytes && meta.mtime
            == self.modified.0 && meta.mtime_nsec == self.modified.1
    }

    fn same(&self, other: &FileIdentity) -> (r: bool)
        ensures
            r == (self@ == other@),
    {
        self.inode == other.inode && self.bytes == other.bytes && self.modified.0
            == other.modified.0 && self.modified.1 == other.modified.1 && text::eq(
            self.sha256.as_str(),
            other.sha256.as_str(),
        )
    }
}

pub fn valid_hash(value: &str) -> (r: bool)
    ensures
        r == text::hex_of_len(value@, 64),
{
    text::is_hex_of_len(value, 64)
}

pub fn valid_name(name: &str) -> (r: bool)
    ensures
        r == media_name(name@),
{
    is_media_name(name)
}

/// The recorded file from `i` on with a name, or the number of files.
pub open spec fn file_from(files: Seq<JournalFile>, name: Seq<char>, i: int) -> int
    decreases files.len() - i,
{
    if i >= files.len() {
        files.len() as int
    } else if files[i].name@ == name {
        i
    } else {
        file_from(files, name, i + 1)
    }
}

/// Whether a name is recorded.
pub open spec fn recorded(files: Seq<JournalFile>, name: Seq<char>) -> bool {
    exists|i: int| 0 <= i < files.len() && (#[trigger] files[i]).name@ == name
}

/// Names in strict order.
pub open spec fn strict_order(files: Seq<JournalFile>) -> bool {
    forall|i: int, j: int|
        0 <= i < j < files.len() ==> precedes(
            (#[trigger] files[i]).name@,
            (#[trigger] files[j]).name@,
        )
}

pub open spec fn valid_file(f: JournalFile) -> bool {
    media_name(f.name@) && text::hex_of_len(f.identity.sha256@, 64) && f.identity.bytes
        <= MAX_FILE_BYTES
}

pub open spec fn journal_complaint(journal: Journal, id: Seq<char>) -> Option<Seq<char>> {
    if !valid_id(id) {
        Some("Invalid managed import ID"@)
    } else if !(journal.version == 1 && journal.receipt.version == 1 && journal.receipt.id@ == id
        && text::hex_of_len(journal.receipt.fingerprint@, 64) && journal.files@.len() <= 8192) {
        Some("Invalid managed removal record"@)
    } else if !(forall|i: int|
        0 <= i < journal.files@.len() ==> valid_file(#[trigger] journal.files@[i])) {
        Some("Invalid managed removal file record"@)
    } else {
        None
    }
}

/// Judges a removal record for an import.
pub fn validate(journal: &Journal, id: &str) -> (r: Result<(), String>)
    ensures
        match r {
            Ok(_) => journal_complaint(*journal, id@) is None,
            Err(e) => journal_complaint(*journal, id@) == Some(e@),
        },
{
    match validate_id(id) {
        Err(e) => return Err(e),
        Ok(()) => {},
    }
    if !(journal.version == 1 && journal.receipt.version == 1 && text::eq(
        journal.receipt.id.as_str(),
        id,
    ) && valid_hash(journal.receipt.fingerprint.as_str()) && journal.files.len() <= 8192) {
        return Err("Invalid managed removal record".to_owned());
    }
    let mut i: usize = 0;
    while i < journal.files.len()
        invariant
            i <= journal.files@.len(),
            valid_id(id@),
            journal.version == 1 && journal.receipt.version == 1 && journal.receipt.id@ == id@
                && text::hex_of_len(journal.receipt.fingerprint@, 64) && journal.files@.len()
                <= 8192,
            forall|j: int| 0 <= j < i ==> valid_file(#[trigger] journal.files@[j]),
        decreases journal.files@.len() - i,
    {
        let file = &journal.files[i];
        if !(valid_name(file.name.as_str()) && valid_hash(file.identity.sha256.as_str())
            && file.identity.bytes <= MAX_FILE_BYTES) {
            assert(!valid_file(journal.files@[i as int]));
            return Err("Invalid managed removal file record".to_owned());
        }
        i += 1;
    }
    Ok(())
}

/// Judges the file of a removal record before it is read.
pub fn check_record_file(meta: &Metadata, uid: u32) -> (r: Result<(), String>)
    ensures
        match r {
            Ok(_) => record_file(*meta, uid, MAX_JOURNAL_BYTES),
            Err(e) => !record_file(*meta, uid, MAX_JOURNAL_BYTES) && e@
                == "Managed removal record must be a bounded private regular file"@,
        },
{
    if meta.is_private_file(uid) && meta.nlink == 1 && meta.len <= MAX_JOURNAL_BYTES {
        Ok(())
    } else {
        Err("Managed removal record must be a bounded private regular file".to_owned())
    }
}

/// Whether the bytes of a removal record fit.
pub fn check_record_bytes(bytes: u64) -> (r: Result<(), String>)
    ensures
        match r {
            Ok(_) => bytes <= MAX_JOURNAL_BYTES,
            Err(e) => bytes > MAX_JOURNAL_BYTES && e@ == "Managed removal record is too large"@,
        },
{
    if bytes <= MAX_JOURNAL_BYTES {
        Ok(())
    } else {
        Err("Managed removal record is too large".to_owned())
    }
}

impl Journal {
    pub open spec fn wf(self) -> bool {
        strict_order(self.files@)
    }

    /// The recorded identity of a name.
    pub fn get(&self, name: &str) -> (r: Option<&FileIdentity>)
        ensures
            ({
                let at = file_from(self.files@, name@, 0);
                match r {
                    Some(f) => at < self.files@.len() && *f == self.files@[at].identity && recorded(
                        self.files@,
                        name@,
                    ),
                    None => at >= self.files@.len() && !recorded(self.files@, name@),
                }
            }),
    {
        let mut i: usize = 0;
        while i < self.files.len()
            invariant
                i <= self.files@.len(),
                file_from(self.files@, name@, 0) == file_from(self.files@, name@, i as int),
                forall|j: int| 0 <= j < i ==> (#[trigger] self.files@[j]).name@ != name@,
            decreases self.files@.len() - i,
        {
            if text::eq(self.files[i].name.as_str(), name) {
                return Some(&self.files[i].identity);
            }
            i += 1;
        }
        None
    }

    /// Whether two journals hold the same.
    pub fn same(&self, other: &Journal) -> (r: bool)
        ensures
            r == (self.version == other.version && self.receipt@ == other.receipt@ && same_files(
                self.files@,
                other.files@,
            )),
    {
        if !(self.version == other.version && self.receipt.same(&other.receipt) && self.files.len()
            == other.files.len()) {
            return false;
        }
        let mut i: usize = 0;
        while i < self.files.len()
            invariant
                i <= self.files@.len() == other.files@.len(),
                forall|j: int| 0 <= j < i ==> same_file(#[trigger] self.files@[j], other.files@[j]),
            decreases self.files@.len() - i,
        {
            if !(text::eq(self.files[i].name.as_str(), other.files[i].name.as_str())
                && self.files[i].identity.same(&other.files[i].identity)) {
                assert(!same_file(self.files@[i as int], other.files@[i as int]));
                return false;
            }
            i += 1;
        }
        true
    }
}

pub open spec fn same_file(a: JournalFile, b: JournalFile) -> bool {
    a.name@ == b.name@ && a.identity@ == b.identity@
}

pub open spec fn same_files(a: Seq<JournalFile>, b: Seq<JournalFile>) -> bool {
    a.len() == b.len() && forall|j: int| 0 <= j < a.len() ==> same_file(#[trigger] a[j], b[j])
}

/// Why a reviewed file cannot be recorded for removal.
pub open spec fn prepare_complaint(
    files: Seq<JournalFile>,
    file: CatalogReviewedFile,
    meta: Result<Metadata, String>,
    uid: u32,
    late: bool,
) -> Option<Seq<char>> {
    if files.len() >= 8192 || late {
        Some("Managed removal preparation exceeds its entry or time limit"@)
    } else if !media_name(file.path@) {
        Some("Invalid reviewed managed filename"@)
    } else {
        match meta {
            Err(e) => Some(e@),
            Ok(meta) => if !(private_file(meta, uid) && meta.len == file.bytes) || recorded(
                files,
                file.path@,
            ) {
                Some("Invalid or duplicated reviewed managed file"@)
            } else {
                None
            },
        }
    }
}

/// A removal that is being prepared: the files recorded so far, in order.
pub struct Preparation {
    pub files: Vec<JournalFile>,
}

impl Preparation {
    pub fn new() -> (r: Preparation)
        ensures
            r.files@.len() == 0,
            strict_order(r.files@),
    {
        Preparation { files: Vec::new() }
    }

    /// Records a reviewed file with its metadata, where these could be read.
    pub fn file(
        &mut self,
        file: &CatalogReviewedFile,
        meta: &Result<Metadata, String>,
        uid: u32,
        elapsed_ms: u64,
    ) -> (r: Result<(), String>)
        requires
            strict_order(old(self).files@),
        ensures
            strict_order(final(self).files@),
            match r {
                Err(e) => prepare_complaint(old(self).files@, *file, *meta, uid, elapsed_ms >= REMOVAL_MS) == Some(e@)
                    && final(self).files@ == old(self).files@,
                Ok(_) => {
                    let at = file_from(final(self).files@, file.path@, 0);
                    let f = final(self).files@[at];
                    &&& prepare_complaint(old(self).files@, *file, *meta, uid, elapsed_ms >= REMOVAL_MS) is None
                    &&& 0 <= at < final(self).files@.len() == old(self).files@.len() + 1
                    &&& final(self).files@ == old(self).files@.insert(at, f)
                    &&& f.name@ == file.path@
                    &&& f.identity@ == (
                        meta->Ok_0.ino,
                        file.bytes,
                        (meta->Ok_0.mtime, meta->Ok_0.mtime_nsec),
                        file.sha256@,
                    )
                },
            },
    {
        let late = elapsed_ms >= REMOVAL_MS;
        if !(self.files.len() < 8192 && !late) {
            return Err("Managed removal preparation exceeds its entry or time limit".to_owned());
        }
        if !valid_name(file.path.as_str()) {
            return Err("Invalid reviewed managed filename".to_owned());
        }
        let meta = match meta {
            Err(e) => return Err(e.clone()),
            Ok(meta) => meta,
        };
        let identity = FileIdentity {
            inode: meta.ino,
            bytes: file.bytes,
            modified: (meta.mtime, meta.mtime_nsec),
            sha256: file.sha256.clone(),
        };
        if !identity.matches(meta, uid) {
            return Err("Invalid or duplicated reviewed managed file".to_owned());
        }
        let ghost before = self.files@;
        let mut i: usize = 0;
        while i < self.files.len() && less(self.files[i].name.as_str(), file.path.as_str())
            invariant
                self.files@ == before,
                i <= self.files@.len(),
                forall|j: int| 0 <= j < i ==> precedes((#[trigger] self.files@[j]).name@, file.path@),
            decreases self.files@.len() - i,
        {
            i += 1;
        }
        if i < self.files.len() && text::eq(self.files[i].name.as_str(), file.path.as_str()) {
            assert(recorded(before, file.path@));
            return Err("Invalid or duplicated reviewed managed file".to_owned());
        }
        proof {
            assert forall|j: int| 0 <= j < before.len() implies (#[trigger] before[j]).name@
                != file.path@ by {
                precedes_is_total(before[j].name@, file.path@);
                if j < i {
                    assert(precedes(before[j].name@, file.path@));
                } else if j > i {
                    assert(precedes(before[i as int].name@, before[j].name@));
                    precedes_is_total(before[i as int].name@, file.path@);
                }
            }
        }
        self.files.insert(i, JournalFile { name: file.path.clone(), identity });
        proof {
            let now = self.files@;
            assert forall|a: int, b: int| 0 <= a < b < now.len() implies precedes(
                (#[trigger] now[a]).name@,
                (#[trigger] now[b]).name@,
            ) by {
                let low = if a < i {
                    before[a]
                } else {
                    before[a - 1]
                };
                let high = if b < i {
                    before[b]
                } else {
                    before[b - 1]
                };
                if a == i {
                    assert(now[b] == before[b - 1]);
                    precedes_is_total(before[i as int].name@, file.path@);
                    if b - 1 > i {
                        assert(precedes(before[i as int].name@, before[b - 1].name@));
                        precedes_is_transitive(
                            file.path@,
                            before[i as int].name@,
                            before[b - 1].name@,
                        );
                    }
                } else if b == i {
                    assert(now[a] == before[a]);
                } else {
                    assert(now[a] == low && now[b] == high);
                }
            }
            first_named(now, file.path@, 0, i as int);
            assert(now =~= before.insert(i as int, now[i as int]));
        }
        Ok(())
    }

    /// The journal of a prepared removal.
    pub fn journal(self, receipt: Receipt, id: &str) -> (r: Result<Journal, String>)
        requires
            strict_order(self.files@),
        ensures
            ({
                let whole = Journal { version: 1, receipt, files: self.files };
                match r {
                    Ok(j) => j == whole && journal_complaint(whole, id@) is None && j.wf(),
                    Err(e) => journal_complaint(whole, id@) == Some(e@),
                }
            }),
    {
        let journal = Journal { version: 1, receipt, files: self.files };
        match validate(&journal, id) {
            Err(e) => Err(e),
            Ok(()) => Ok(journal),
        }
    }
}

/// The first file of a name is where it stands.
proof fn first_named(files: Seq<JournalFile>, name: Seq<char>, from: int, at: int)
    requires
        0 <= from <= at < files.len(),
        files[at].name@ == name,
        forall|j: int| from <= j < at ==> (#[trigger] files[j]).name@ != name,
    ensures
        file_from(files, name, from) == at,
    decreases at - from,
{
    if from < at {
        first_named(files, name, from + 1, at);
    }
}

/// Judges an entry of the directory while a removal is prepared.
pub fn check_covered(journal: &Journal, index: u64, name: &str, elapsed_ms: u64) -> (r: Result<(), String>)
    ensures
        match r {
            Ok(_) => index < 8192 && elapsed_ms < REMOVAL_MS && recorded(journal.files@, name@),
            Err(e) => if index >= 8192 || elapsed_ms >= REMOVAL_MS {
                e@ == "Managed removal preparation exceeded its limits"@
            } else {
                !recorded(journal.files@, name@) && e@ == "Review omitted a managed file"@
            },
        },
{
    let late = elapsed_ms >= REMOVAL_MS;
    if !(index < 8192 && !late) {
        return Err("Managed removal preparation exceeded its limits".to_owned());
    }
    if journal.get(name).is_none() {
        return Err("Review omitted a managed file".to_owned());
    }
    Ok(())
}

/// Whether there is room for one more removal record.
pub fn removal_room(index: u64, elapsed_ms: u64) -> (r: Result<(), String>)
    ensures
        match r {
            Ok(_) => index < 1023 && elapsed_ms < REMOVAL_MS,
            Err(e) => (index >= 1023 || elapsed_ms >= REMOVAL_MS) && e@
                == "Managed removal records exceed the entry or time limit"@,
        },
{
    let late = elapsed_ms >= REMOVAL_MS;
    if index < 1023 && !late {
        Ok(())
    } else {
        Err("Managed removal records exceed the entry or time limit".to_owned())
    }
}

/// Whether the storage around a removal is still the recorded one. `opened` and `current` are the
/// inodes of the directory that the removal holds and of the one that stands there now.
pub open spec fn ownership_complaint(
    journal: Journal,
    imports_inode: u64,
    receipt: Option<Receipt>,
    opened: Option<u64>,
    current: Option<u64>,
) -> Option<Seq<char>> {
    let recorded = journal.receipt;
    if !(imports_inode == recorded.imports_inode && (receipt is None || receipt->0@ == recorded@)
        && (opened is None || receipt is Some)) {
        Some("Managed removal ownership changed. Preserve remaining storage"@)
    } else {
        match (opened, current) {
            (Some(a), Some(b)) => if a == recorded.directory_inode && b
                == recorded.directory_inode {
                None
            } else {
                Some("Managed directory was replaced"@)
            },
            (None, None) => None,
            _ => Some("Managed directory changed during removal"@),
        }
    }
}

pub fn check_ownership(
    journal: &Journal,
    imports_inode: u64,
    receipt: &Option<Receipt>,
    opened: Option<u64>,
    current: Option<u64>,
) -> (r: Result<(), String>)
    ensures
        match r {
            Ok(_) => ownership_complaint(*journal, imports_inode, *receipt, opened, current) is None,
            Err(e) => ownership_complaint(*journal, imports_inode, *receipt, opened, current)
                == Some(e@),
        },
{
    let receipt_fits = match receipt {
        Some(receipt) => receipt.same(&journal.receipt),
        None => true,
    };
    if !(imports_inode == journal.receipt.imports_inode && receipt_fits && (opened.is_none()
        || receipt.is_some())) {
        return Err("Managed removal ownership changed. Preserve remaining storage".to_owned());
    }
    match (opened, current) {
        (Some(a), Some(b)) => if a == journal.receipt.directory_inode && b
            == journal.receipt.directory_inode {
            Ok(())
        } else {
            Err("Managed directory was replaced".to_owned())
        },
        (None, None) => Ok(()),
        _ => Err("Managed directory changed during removal".to_owned()),
    }
}

/// What is wrong with a file that remains in the directory of a removal.
pub open spec fn remaining_complaint(
    journal: Journal,
    index: u64,
    name: Seq<char>,
    meta: Result<Metadata, String>,
    uid: u32,
    late: bool,
) -> Option<Seq<char>> {
    let at = file_from(journal.files@, name, 0);
    if index >= 8192 || late {
        Some("Managed removal inspection exceeds its entry or time limit"@)
    } else if at >= journal.files@.len() {
        Some("Unexpected file in managed removal directory"@)
    } else {
        match meta {
            Err(e) => Some(e@),
            Ok(meta) => if !matches_file(journal.files@[at].identity, meta, uid) {
                Some("Managed file changed after removal was prepared"@)
            } else {
                None
            },
        }
    }
}

pub fn check_remaining(
    journal: &Journal,
    index: u64,
    name: &str,
    meta: &Result<Metadata, String>,
    uid: u32,
    elapsed_ms: u64,
) -> (r: Result<(), String>)
    ensures
        match r {
            Ok(_) => remaining_complaint(*journal, index, name@, *meta, uid, elapsed_ms >= REMOVAL_MS) is None,
            Err(e) => remaining_complaint(*journal, index, name@, *meta, uid, elapsed_ms >= REMOVAL_MS) == Some(e@),
        },
{
    let late = elapsed_ms >= REMOVAL_MS;
    if !(index < 8192 && !late) {
        return Err("Managed removal inspection exceeds its entry or time limit".to_owned());
    }
    match journal.get(name) {
        None => Err("Unexpected file in managed removal directory".to_owned()),
        Some(expected) => match meta {
            Err(e) => Err(e.clone()),
            Ok(meta) => if expected.matches(meta, uid) {
                Ok(())
            } else {
                Err("Managed file changed after removal was prepared".to_owned())
            },
        },
    }
}

pub open spec fn same_journal(a: Journal, b: Journal) -> bool {
    a.version == b.version && a.receipt@ == b.receipt@ && same_files(a.files@, b.files@)
}

/// Compares the record on disk with the one that a removal goes by.
pub fn check_record(journal: &Journal, current: Option<&Journal>, elapsed_ms: u64) -> (r: Result<
    (),
    String,
>)
    ensures
        match r {
            Ok(_) => current is Some && same_journal(*current->0, *journal) && elapsed_ms < REMOVAL_MS,
            Err(e) => if !(current is Some && same_journal(*current->0, *journal)) {
                e@ == "Managed removal record changed"@
            } else {
                elapsed_ms >= REMOVAL_MS && e@ == "Managed removal inspection exceeded five seconds"@
            },
        },
{
    let late = elapsed_ms >= REMOVAL_MS;
    let same = match current {
        Some(current) => current.same(journal),
        None => false,
    };
    if !same {
        return Err("Managed removal record changed".to_owned());
    }
    if late {
        return Err("Managed removal inspection exceeded five seconds".to_owned());
    }
    Ok(())
}

/// Whether a reviewed file is the same as an earlier one.
pub open spec fn repeated(files: Seq<CatalogReviewedFile>, i: int) -> bool {
    exists|k: int| 0 <= k < i && (#[trigger] files[k]).path@ == files[i].path@
}

/// What is wrong with file `i` of a review, given the names that remain.
pub open spec fn reviewed_complaint(
    journal: Journal,
    names: Seq<String>,
    files: Seq<CatalogReviewedFile>,
    i: int,
) -> Option<Seq<char>> {
    let file = files[i];
    let at = file_from(journal.files@, file.path@, 0);
    if !has_name(names, file.path@) || repeated(files, i) {
        Some("Review contains a missing or duplicated managed file"@)
    } else if at >= journal.files@.len() {
        Some("Unrecorded managed file"@)
    } else if !(file.sha256@ == journal.files@[at].identity.sha256@ && file.bytes
        == journal.files@[at].identity.bytes) {
        Some("Managed content changed after removal was prepared"@)
    } else {
        None
    }
}

pub open spec fn has_name(names: Seq<String>, name: Seq<char>) -> bool {
    exists|i: int| 0 <= i < names.len() && (#[trigger] names[i])@ == name
}

pub open spec fn reviews(files: Seq<CatalogReviewedFile>, n: int, name: Seq<char>) -> bool {
    exists|k: int| 0 <= k < n && (#[trigger] files[k]).path@ == name
}

/// The complaint about the first bad file of a review from `i` on.
pub open spec fn first_reviewed_complaint(
    journal: Journal,
    names: Seq<String>,
    files: Seq<CatalogReviewedFile>,
    i: int,
) -> Option<Seq<char>>
    decreases files.len() - i,
{
    if i >= files.len() {
        None
    } else if reviewed_complaint(journal, names, files, i) is Some {
        reviewed_complaint(journal, names, files, i)
    } else {
        first_reviewed_complaint(journal, names, files, i + 1)
    }
}

/// Whether a review describes exactly what remains of a removal.
pub open spec fn review_of(
    journal: Journal,
    names: Seq<String>,
    review: CatalogDirectoryReview,
    found: Result<Seq<char>, Seq<char>>,
) -> Result<(), Seq<char>> {
    let changed = Err("Managed contents changed since review"@);
    if names.len() > 8192 {
        Err("Too many remaining managed files"@)
    } else if review.directory@ != journal.receipt.id@ {
        changed
    } else {
        match (found, first_reviewed_complaint(journal, names, review.files@, 0)) {
            (Err(e), _) => Err(e),
            (Ok(f), complaint) => if review.sha256@ != f {
                changed
            } else if complaint is Some {
                Err(complaint->0)
            } else if exists|i: int|
                0 <= i < names.len() && !reviews(
                    review.files@,
                    review.files@.len() as int,
                    (#[trigger] names[i])@,
                ) {
                Err("Review omitted remaining managed files"@)
            } else {
                Ok(())
            },
        }
    }
}

fn contains_name(names: &Vec<String>, name: &str) -> (r: bool)
    ensures
        r == has_name(names@, name@),
{
    let mut i: usize = 0;
    while i < names.len()
        invariant
            i <= names@.len(),
            forall|j: int| 0 <= j < i ==> (#[trigger] names@[j])@ != name@,
        decreases names@.len() - i,
    {
        if text::eq(names[i].as_str(), name) {
            return true;
        }
        i += 1;
    }
    false
}

fn covers(files: &Vec<CatalogReviewedFile>, n: usize, name: &str) -> (r: bool)
    requires
        n <= files@.len(),
    ensures
        r == reviews(files@, n as int, name@),
{
    let mut i: usize = 0;
    while i < n
        invariant
            i <= n <= files@.len(),
            forall|j: int| 0 <= j < i ==> (#[trigger] files@[j]).path@ != name@,
        decreases n - i,
    {
        if text::eq(files[i].path.as_str(), name) {
            return true;
        }
        i += 1;
    }
    false
}

/// Compares a review with what remains: `names` are the distinct names in the directory and `found`
/// is its fingerprint.
pub fn verify_review(
    journal: &Journal,
    names: &Vec<String>,
    review: &CatalogDirectoryReview,
    found: Result<&str, String>,
) -> (r: Result<(), String>)
    ensures
        outcome(r) == review_of(
            *journal,
            names@,
            *review,
            match found {
                Ok(f) => Ok(f@),
                Err(e) => Err(e@),
            },
        ),
{
    if names.len() > 8192 {
        return Err("Too many remaining managed files".to_owned());
    }
    if !text::eq(review.directory.as_str(), journal.receipt.id.as_str()) {
        return Err("Managed contents changed since review".to_owned());
    }
    match found {
        Err(e) => return Err(e),
        Ok(f) => {
            if !text::eq(review.sha256.as_str(), f) {
                return Err("Managed contents changed since review".to_owned());
            }
        },
    }
    match check_reviewed(journal, names, &review.files) {
        Err(e) => return Err(e),
        Ok(()) => {},
    }
    let mut i: usize = 0;
    while i < names.len()
        invariant
            i <= names@.len() <= 8192,
            review.directory@ == journal.receipt.id@,
            found is Ok && review.sha256@ == found->Ok_0@,
            first_reviewed_complaint(*journal, names@, review.files@, 0) is None,
            forall|j: int|
                0 <= j < i ==> reviews(
                    review.files@,
                    review.files@.len() as int,
                    (#[trigger] names@[j])@,
                ),
        decreases names@.len() - i,
    {
        if !covers(&review.files, review.files.len(), names[i].as_str()) {
            return Err("Review omitted remaining managed files".to_owned());
        }
        i += 1;
    }
    Ok(())
}

fn check_reviewed(journal: &Journal, names: &Vec<String>, files: &Vec<CatalogReviewedFile>) -> (r:
    Result<(), String>)
    ensures
        match r {
            Ok(_) => first_reviewed_complaint(*journal, names@, files@, 0) is None,
            Err(e) => first_reviewed_complaint(*journal, names@, files@, 0) == Some(e@),
        },
{
    let mut i: usize = 0;
    while i < files.len()
        invariant
            i <= files@.len(),
            first_reviewed_complaint(*journal, names@, files@, 0) == first_reviewed_complaint(
                *journal,
                names@,
                files@,
                i as int,
            ),
        decreases files@.len() - i,
    {
        let file = &files[i];
        let again = covers(files, i, file.path.as_str());
        assert(again == repeated(files@, i as int));
        if !contains_name(names, file.path.as_str()) || again {
            return Err("Review contains a missing or duplicated managed file".to_owned());
        }
        match journal.get(file.path.as_str()) {
            None => return Err("Unrecorded managed file".to_owned()),
            Some(expected) => {
                if !(text::eq(file.sha256.as_str(), expected.sha256.as_str()) && file.bytes
                    == expected.bytes) {
                    return Err("Managed content changed after removal was prepared".to_owned());
                }
            },
        }
        i += 1;
    }
    Ok(())
}

/// The recorded names among the first `n` that a review does not show, in order.
pub open spec fn missing(files: Seq<JournalFile>, review: Seq<CatalogReviewedFile>, n: int) -> Seq<
    Seq<char>,
>
    decreases n,
{
    if n <= 0 {
        Seq::empty()
    } else if reviews(review, review.len() as int, files[n - 1].name@) {
        missing(files, review, n - 1)
    } else {
        missing(files, review, n - 1).push(files[n - 1].name@)
    }
}

/// The recorded files that are gone already.
pub fn missing_files(journal: &Journal, files: &Vec<CatalogReviewedFile>) -> (r: Vec<String>)
    ensures
        text::texts(r@) == missing(journal.files@, files@, journal.files@.len() as int),
{
    let mut out: Vec<String> = Vec::new();
    let mut i: usize = 0;
    assert(text::texts(out@) =~= missing(journal.files@, files@, 0));
    while i < journal.files.len()
        invariant
            i <= journal.files@.len(),
            text::texts(out@) == missing(journal.files@, files@, i as int),
        decreases journal.files@.len() - i,
    {
        if !covers(files, files.len(), journal.files[i].name.as_str()) {
            proof {
                text::texts_push(out@, journal.files@[i as int].name);
            }
            out.push(journal.files[i].name.clone());
        }
        i += 1;
    }
    out
}

/// The fingerprint of an import whose directory is gone, from the bytes of its removal record.
pub fn removed_fingerprint(record: &[u8]) -> (r: String)
    ensures
        r@ == fingerprint(encode_utf8("lianli-removed-import-v1\0"@) + record@),
{
    let mut hasher = Hasher::new();
    hasher.update("lianli-removed-import-v1\0".as_bytes());
    hasher.update(record);
    assert(absorbed(hasher) =~= encode_utf8("lianli-removed-import-v1\0"@) + record@);
    hasher.finish()
}

/// The review of a receipt whose directory was never published, from the bytes of the receipt.
pub fn orphan_review(id: &str, receipt: &[u8]) -> (r: CatalogDirectoryReview)
    ensures
        r.directory@ == id@,
        r.sha256@ == fingerprint(encode_utf8("lianli-orphan-receipt-v1\0"@) + receipt@),
        r.bytes == 0,
        r.files@.len() == 0,
        r.missing_files@.len() == 0,
{
    let mut hasher = Hasher::new();
    hasher.update("lianli-orphan-receipt-v1\0".as_bytes());
    hasher.update(receipt);
    assert(absorbed(hasher) =~= encode_utf8("lianli-orphan-receipt-v1\0"@) + receipt@);
    CatalogDirectoryReview {
        directory: id.to_owned(),
        sha256: hasher.finish(),
        bytes: 0,
        files: Vec::new(),
        missing_files: Vec::new(),
    }
}

/// One entry of the removal records: its identifier, when `count` were found before it.
pub fn pending_id(count: u64, elapsed_ms: u64, name: &str) -> (r: Result<String, String>)
    ensures
        match r {
            Ok(id) => count < 1024 && elapsed_ms < PENDING_MS && record_id(
                name@,
                "Unexpected managed removal metadata"@,
            ) == Ok::<Seq<char>, Seq<char>>(id@),
            Err(e) => if count >= 1024 || elapsed_ms >= PENDING_MS {
                e@ == "Managed removal inventory exceeded its limits"@
            } else {
                record_id(name@, "Unexpected managed removal metadata"@) == Err::<
                    Seq<char>,
                    Seq<char>,
                >(e@)
            },
        },
{
    let late = elapsed_ms >= PENDING_MS;
    if !(count < 1024 && !late) {
        return Err("Managed removal inventory exceeded its limits".to_owned());
    }
    id_of_record(name, "Unexpected managed removal metadata")
}

/// The names with a dot among the first `n` files, or those without one.
pub open spec fn chosen(files: Seq<CatalogReviewedFile>, objects: bool, n: int) -> Seq<Seq<char>>
    decreases n,
{
    if n <= 0 {
        Seq::empty()
    } else if is_object(files[n - 1].path@) == objects {
        chosen(files, objects, n - 1).push(files[n - 1].path@)
    } else {
        chosen(files, objects, n - 1)
    }
}

/// The order in which reviewed files are removed: an object stays until its aliases are gone.
pub open spec fn removal_sequence(files: Seq<CatalogReviewedFile>) -> Seq<Seq<char>> {
    chosen(files, false, files.len() as int) + chosen(files, true, files.len() as int)
}

pub fn removal_order(files: &Vec<CatalogReviewedFile>) -> (r: Vec<String>)
    ensures
        text::texts(r@) == removal_sequence(files@),
{
    let mut out: Vec<String> = Vec::new();
    let mut i: usize = 0;
    assert(text::texts(out@) =~= chosen(files@, false, 0));
    while i < files.len()
        invariant
            i <= files@.len(),
            text::texts(out@) == chosen(files@, false, i as int),
        decreases files@.len() - i,
    {
        if !names_object(files[i].path.as_str()) {
            proof {
                text::texts_push(out@, files@[i as int].path);
            }
            out.push(files[i].path.clone());
        }
        i += 1;
    }
    let ghost aliases = text::texts(out@);
    assert(aliases =~= aliases + chosen(files@, true, 0));
    i = 0;
    while i < files.len()
        invariant
            i <= files@.len(),
            text::texts(out@) == aliases + chosen(files@, true, i as int),
        decreases files@.len() - i,
    {
        if names_object(files[i].path.as_str()) {
            proof {
                text::texts_push(out@, files@[i as int].path);
                assert((aliases + chosen(files@, true, i as int)).push(files@[i as int].path@)
                    =~= aliases + chosen(files@, true, i as int).push(files@[i as int].path@));
            }
            out.push(files[i].path.clone());
        }
        i += 1;
    }
    out
}

/// Every chosen name is of the kind that was asked for.
pub proof fn chosen_are_of_a_kind(files: Seq<CatalogReviewedFile>, objects: bool, n: int)
    requires
        0 <= n <= files.len(),
    ensures
        forall|i: int|
            0 <= i < chosen(files, objects, n).len() ==> is_object(
                #[trigger] chosen(files, objects, n)[i],
            ) == objects,
    decreases n,
{
    if n > 0 {
        chosen_are_of_a_kind(files, objects, n - 1);
        let before = chosen(files, objects, n - 1);
        let now = chosen(files, objects, n);
        assert forall|i: int| 0 <= i < now.len() implies is_object(#[trigger] now[i]) == objects by {
            if i < before.len() {
                assert(now[i] == before[i]);
            }
        }
    }
}

/// No alias is removed after an object: an interrupted removal never leaves an alias without its
/// object.
pub proof fn aliases_are_removed_first(files: Seq<CatalogReviewedFile>, i: int, j: int)
    requires
        0 <= i < j < removal_sequence(files).len(),
    ensures
        is_object(removal_sequence(files)[i]) ==> is_object(removal_sequence(files)[j]),
{
    chosen_are_of_a_kind(files, false, files.len() as int);
    chosen_are_of_a_kind(files, true, files.len() as int);
    let aliases = chosen(files, false, files.len() as int);
    let objects = chosen(files, true, files.len() as int);
    if i < aliases.len() {
        assert(removal_sequence(files)[i] == aliases[i]);
        assert(is_object(aliases[i]) == false);
    } else {
        assert(removal_sequence(files)[j] == objects[j - aliases.len()]);
    }
}

/// Every reviewed file is removed once.
pub proof fn every_reviewed_file_is_removed(files: Seq<CatalogReviewedFile>, n: int)
    requires
        0 <= n <= files.len(),
    ensures
        chosen(files, false, n).len() + chosen(files, true, n).len() == n,
    decreases n,
{
    if n > 0 {
        every_reviewed_file_is_removed(files, n - 1);
    }
}

/// What a removal does next.
#[derive(Clone, Copy, Debug, PartialEq, Eq, Structural)]
pub enum RemovalStep {
    Review,
    Authorize,
    Resume,
    ReadOrphan,
    RemoveOrphan,
    Prepare,
    VerifyReview,
    CheckFile,
    RemoveFile,
    SyncDirectory,
    VerifyEmptied,
    RemoveDirectory,
    VerifyBeforeReceipt,
    RemoveReceipt,
    VerifyBeforeRecord,
    RemoveRecord,
    Finished,
    Failed,
}

/// A removal under way.
pub struct Removal {
    pub id: String,
    /// The account that removes.
    pub uid: u32,
    /// The fingerprint that the caller has seen.
    pub fingerprint: String,
    /// What the import held when the removal began.
    pub review: Option<CatalogDirectoryReview>,
    /// What the removal may remove.
    pub journal: Option<Journal>,
    /// The files to remove, in order.
    pub order: Vec<String>,
    pub removed: usize,
    /// Whether there is a directory to remove.
    pub directory: bool,
    pub step: RemovalStep,
    pub error: String,
    /// The steps that succeeded, in order.
    pub log: Ghost<Seq<RemovalStep>>,
}

pub open spec fn removal_stops(before: Removal, after: Removal, text: Seq<char>) -> bool {
    after == (Removal { step: RemovalStep::Failed, error: after.error, ..before }) && after.error@
        == text
}

pub open spec fn removal_moves(before: Removal, after: Removal, next: RemovalStep) -> bool {
    after == (Removal { step: next, log: Ghost(before.log@.push(before.step)), ..before })
}

/// What must have succeeded before a step.
pub open spec fn removal_ready(r: Removal) -> bool {
    let log = r.log@;
    match r.step {
        RemovalStep::Review | RemovalStep::Failed => true,
        RemovalStep::Authorize => log.contains(RemovalStep::Review),
        RemovalStep::Finished => log.contains(RemovalStep::Authorize) && (log.contains(
            RemovalStep::RemoveOrphan,
        ) || log.contains(RemovalStep::RemoveRecord)),
        RemovalStep::Resume | RemovalStep::ReadOrphan | RemovalStep::RemoveOrphan
        | RemovalStep::Prepare => log.contains(RemovalStep::Review) && log.contains(
            RemovalStep::Authorize,
        ),
        RemovalStep::VerifyReview => log.contains(RemovalStep::Authorize) && log.contains(
            RemovalStep::Prepare,
        ),
        RemovalStep::CheckFile => log.contains(RemovalStep::Authorize) && log.contains(
            RemovalStep::VerifyReview,
        ) && r.directory && r.removed < r.order@.len(),
        RemovalStep::RemoveFile => log.contains(RemovalStep::Authorize) && log.contains(
            RemovalStep::VerifyReview,
        ) && r.directory && r.removed < r.order@.len() && log.len() > 0 && log.last()
            == RemovalStep::CheckFile,
        RemovalStep::SyncDirectory | RemovalStep::VerifyEmptied => log.contains(
            RemovalStep::Authorize,
        ) && log.contains(RemovalStep::VerifyReview) && r.directory && r.removed == r.order@.len(),
        RemovalStep::RemoveDirectory => log.contains(RemovalStep::Authorize) && log.contains(
            RemovalStep::VerifyReview,
        ) && r.directory && r.removed == r.order@.len() && log.contains(
            RemovalStep::VerifyEmptied,
        ),
        RemovalStep::VerifyBeforeReceipt => log.contains(RemovalStep::Authorize) && log.contains(
            RemovalStep::VerifyReview,
        ) && (r.directory ==> log.contains(RemovalStep::RemoveDirectory)),
        RemovalStep::RemoveReceipt => log.contains(RemovalStep::Authorize) && (r.directory
            ==> log.contains(RemovalStep::RemoveDirectory)) && log.contains(
            RemovalStep::VerifyBeforeReceipt,
        ),
        RemovalStep::VerifyBeforeRecord => log.contains(RemovalStep::Authorize) && log.contains(
            RemovalStep::RemoveReceipt,
        ) && (r.directory ==> log.contains(RemovalStep::RemoveDirectory)),
        RemovalStep::RemoveRecord => log.contains(RemovalStep::Authorize) && log.contains(
            RemovalStep::VerifyBeforeRecord,
        ) && log.contains(RemovalStep::RemoveReceipt) && (r.directory ==> log.contains(
            RemovalStep::RemoveDirectory,
        )),
    }
}

impl Removal {
    pub open spec fn wf(self) -> bool {
        &&& removal_ready(self)
        &&& self.removed <= self.order@.len()
        &&& self.step == RemovalStep::Review ==> self.removed == 0
        &&& self.holds()
    }

    /// What the removal has in hand at its step.
    pub open spec fn holds(self) -> bool {
        &&& match self.step {
            RemovalStep::Review | RemovalStep::Failed => true,
            _ => self.review is Some && self.review->0.sha256@ == self.fingerprint@
                && text::texts(self.order@) == removal_sequence(self.review->0.files@),
        }
        &&& removes(self.step) ==> self.journal is Some && self.journal->0.wf()
    }

    /// Whether the directory of the import is still held at a step that verifies.
    pub open spec fn open(self) -> bool {
        self.directory && (self.step == RemovalStep::VerifyReview || self.step
            == RemovalStep::VerifyEmptied)
    }

    /// The step after one that succeeded.
    pub open spec fn next(self) -> RemovalStep {
        match self.step {
            RemovalStep::Authorize => RemovalStep::Resume,
            RemovalStep::RemoveOrphan => RemovalStep::Finished,
            RemovalStep::VerifyReview => if !self.directory {
                RemovalStep::VerifyBeforeReceipt
            } else if self.removed < self.order@.len() {
                RemovalStep::CheckFile
            } else {
                RemovalStep::SyncDirectory
            },
            RemovalStep::SyncDirectory => RemovalStep::VerifyEmptied,
            RemovalStep::VerifyEmptied => RemovalStep::RemoveDirectory,
            RemovalStep::RemoveDirectory => RemovalStep::VerifyBeforeReceipt,
            RemovalStep::VerifyBeforeReceipt => RemovalStep::RemoveReceipt,
            RemovalStep::RemoveReceipt => RemovalStep::VerifyBeforeRecord,
            RemovalStep::VerifyBeforeRecord => RemovalStep::RemoveRecord,
            RemovalStep::RemoveRecord => RemovalStep::Finished,
            _ => self.step,
        }
    }
}

/// The steps of a removal that was recorded.
pub open spec fn removes(step: RemovalStep) -> bool {
    match step {
        RemovalStep::VerifyReview
        | RemovalStep::CheckFile
        | RemovalStep::RemoveFile
        | RemovalStep::SyncDirectory
        | RemovalStep::VerifyEmptied
        | RemovalStep::RemoveDirectory
        | RemovalStep::VerifyBeforeReceipt
        | RemovalStep::RemoveReceipt
        | RemovalStep::VerifyBeforeRecord
        | RemovalStep::RemoveRecord => true,
        _ => false,
    }
}

/// The steps in which what remains is compared with the record.
pub open spec fn removal_verifies(step: RemovalStep) -> bool {
    step == RemovalStep::VerifyEmptied || step == RemovalStep::VerifyBeforeReceipt || step
        == RemovalStep::VerifyBeforeRecord
}

/// The steps whose only reply is that they succeeded.
pub open spec fn removal_plain(step: RemovalStep) -> bool {
    match step {
        RemovalStep::Authorize
        | RemovalStep::RemoveOrphan
        | RemovalStep::SyncDirectory
        | RemovalStep::RemoveDirectory
        | RemovalStep::RemoveReceipt
        | RemovalStep::RemoveRecord => true,
        _ => false,
    }
}

proof fn kept(log: Seq<RemovalStep>, step: RemovalStep)
    ensures
        forall|s: RemovalStep| log.contains(s) ==> #[trigger] log.push(step).contains(s),
        log.push(step).contains(step),
        log.push(step).last() == step,
{
    let now = log.push(step);
    assert forall|s: RemovalStep| log.contains(s) implies #[trigger] now.contains(s) by {
        let i = choose|i: int| 0 <= i < log.len() && log[i] == s;
        assert(now[i] == s);
    }
    assert(now[log.len() as int] == step);
}

/// Begins to remove an import whose contents the caller has seen under a fingerprint. The caller
/// excludes configuration writes, publication and new preparations until the end.
pub fn remove(id: &str, fingerprint: &str, uid: u32) -> (r: Removal)
    ensures
        r.wf(),
        r.step == RemovalStep::Review,
        r.id@ == id@,
        r.uid == uid,
        r.review is None,
        r.journal is None,
        r.fingerprint@ == fingerprint@,
        r.removed == 0,
        r.order@.len() == 0,
        r.log@ == Seq::<RemovalStep>::empty(),
        !r.directory,
{
    Removal {
        id: id.to_owned(),
        uid,
        fingerprint: fingerprint.to_owned(),
        review: None,
        journal: None,
        order: Vec::new(),
        removed: 0,
        directory: false,
        step: RemovalStep::Review,
        error: String::new(),
        log: Ghost(Seq::empty()),
    }
}

impl Removal {
    pub fn failed(&mut self, error: String)
        requires
            old(self).wf(),
        ensures
            removal_stops(*old(self), *final(self), error@),
            final(self).wf(),
    {
        self.error = error;
        self.step = RemovalStep::Failed;
    }

    fn go(&mut self, next: RemovalStep)
        requires
            old(self).removed <= old(self).order@.len(),
            next != RemovalStep::Review,
            removal_ready(
                (Removal {
                    step: next,
                    log: Ghost(old(self).log@.push(old(self).step)),
                    ..*old(self)
                }),
            ),
            (Removal { step: next, ..*old(self) }).holds(),
        ensures
            removal_moves(*old(self), *final(self), next),
            final(self).wf(),
    {
        self.log = Ghost(self.log@.push(self.step));
        self.step = next;
    }

    fn following(&self) -> (r: RemovalStep)
        ensures
            r == self.next(),
    {
        match self.step {
            RemovalStep::Authorize => RemovalStep::Resume,
            RemovalStep::RemoveOrphan => RemovalStep::Finished,
            RemovalStep::VerifyReview => if !self.directory {
                RemovalStep::VerifyBeforeReceipt
            } else if self.removed < self.order.len() {
                RemovalStep::CheckFile
            } else {
                RemovalStep::SyncDirectory
            },
            RemovalStep::SyncDirectory => RemovalStep::VerifyEmptied,
            RemovalStep::VerifyEmptied => RemovalStep::RemoveDirectory,
            RemovalStep::RemoveDirectory => RemovalStep::VerifyBeforeReceipt,
            RemovalStep::VerifyBeforeReceipt => RemovalStep::RemoveReceipt,
            RemovalStep::RemoveReceipt => RemovalStep::VerifyBeforeRecord,
            RemovalStep::VerifyBeforeRecord => RemovalStep::RemoveRecord,
            RemovalStep::RemoveRecord => RemovalStep::Finished,
            step => step,
        }
    }

    /// A step without a reply of its own succeeded.
    pub fn done(&mut self)
        requires
            old(self).wf(),
            removal_plain(old(self).step),
        ensures
            removal_moves(*old(self), *final(self), old(self).next()),
            final(self).wf(),
    {
        proof {
            kept(self.log@, self.step);
        }
        let next = self.following();
        self.go(next);
    }

    /// `Review`: what the import holds now.
    pub fn reviewed(&mut self, review: CatalogDirectoryReview)
        requires
            old(self).wf(),
            old(self).step == RemovalStep::Review,
        ensures
            if review.sha256@ == old(self).fingerprint@ {
                &&& removal_moves(
                    (Removal {
                        review: Some(review),
                        order: final(self).order,
                        ..*old(self)
                    }),
                    *final(self),
                    RemovalStep::Authorize,
                )
                &&& text::texts(final(self).order@) == removal_sequence(review.files@)
            } else {
                removal_stops(
                    *old(self),
                    *final(self),
                    "Managed contents changed. Review again"@,
                )
            },
            final(self).wf(),
    {
        if !text::eq(review.sha256.as_str(), self.fingerprint.as_str()) {
            self.failed("Managed contents changed. Review again".to_owned());
            return;
        }
        proof {
            kept(self.log@, self.step);
        }
        self.order = removal_order(&review.files);
        self.review = Some(review);
        self.go(RemovalStep::Authorize);
    }

    /// `Resume`: what was found of an earlier removal of this import.
    pub fn resumed(&mut self, found: Pending)
        requires
            old(self).wf(),
            old(self).step == RemovalStep::Resume,
            found.record matches Ok(Some(file)) && file.journal matches Ok(journal) ==> journal.wf(),
        ensures
            match resumed_of(old(self).id@, found, old(self).uid) {
                Err(e) => removal_stops(*old(self), *final(self), e),
                Ok(Some(_)) => removal_moves(*old(self), *final(self), RemovalStep::Prepare),
                Ok(None) => removal_moves(*old(self), *final(self), RemovalStep::ReadOrphan),
            },
            final(self).wf(),
    {
        proof {
            kept(self.log@, self.step);
        }
        match resume(self.id.as_str(), found, self.uid) {
            Err(e) => self.failed(e),
            Ok(Some(_)) => self.go(RemovalStep::Prepare),
            Ok(None) => self.go(RemovalStep::ReadOrphan),
        }
    }

    /// `ReadOrphan`: whether the directory of the import is there, and the receipt as it is written.
    pub fn orphan(
        &mut self,
        published: &Result<bool, String>,
        receipt: &Result<Option<Vec<u8>>, String>,
    )
        requires
            old(self).wf(),
            old(self).step == RemovalStep::ReadOrphan,
        ensures
            match orphan_of(old(self).id@, *published, *receipt) {
                Err(e) => removal_stops(*old(self), *final(self), e),
                Ok(None) => removal_moves(*old(self), *final(self), RemovalStep::Prepare),
                Ok(Some(f)) => if f == old(self).fingerprint@ {
                    removal_moves(*old(self), *final(self), RemovalStep::RemoveOrphan)
                } else {
                    removal_stops(
                        *old(self),
                        *final(self),
                        "Managed orphan receipt changed. Review again"@,
                    )
                },
            },
            final(self).wf(),
    {
        proof {
            kept(self.log@, self.step);
        }
        match find_orphan(self.id.as_str(), published, receipt) {
            Err(e) => self.failed(e),
            Ok(None) => self.go(RemovalStep::Prepare),
            Ok(Some(orphan)) => if text::eq(orphan.sha256.as_str(), self.fingerprint.as_str()) {
                self.go(RemovalStep::RemoveOrphan);
            } else {
                self.failed("Managed orphan receipt changed. Review again".to_owned());
            },
        }
    }

    /// `Prepare`: the record of this removal, as it begins to be made.
    pub fn recording(&self) -> (r: Recording)
        requires
            self.wf(),
            self.step == RemovalStep::Prepare,
        ensures
            r.wf(),
            r.review@ == self.review->0@,
            r.step == RecordStep::Resume,
            r.log@ == Seq::<RecordStep>::empty(),
            !r.resumed,
            r.journal is None,
    {
        match &self.review {
            Some(review) => Recording::prepare(review.copy()),
            None => Recording::prepare(
                CatalogDirectoryReview {
                    directory: String::new(),
                    sha256: String::new(),
                    bytes: 0,
                    files: Vec::new(),
                    missing_files: Vec::new(),
                },
            ),
        }
    }

    /// `Prepare`: the record of this removal, which came to its end.
    pub fn prepared(&mut self, recording: Recording)
        requires
            old(self).wf(),
            old(self).step == RemovalStep::Prepare,
            recording.wf(),
            recording.review@ == old(self).review->0@,
            recording.step == RecordStep::Prepared || recording.step == RecordStep::Failed,
        ensures
            if recording.step == RecordStep::Prepared {
                removal_moves(
                    (Removal {
                        journal: recording.journal,
                        directory: recording.directory,
                        ..*old(self)
                    }),
                    *final(self),
                    RemovalStep::VerifyReview,
                )
            } else {
                removal_stops(*old(self), *final(self), recording.error@)
            },
            final(self).wf(),
    {
        if recording.step != RecordStep::Prepared {
            self.failed(recording.error);
            return;
        }
        proof {
            kept(self.log@, self.step);
        }
        self.journal = recording.journal;
        self.directory = recording.directory;
        self.go(RemovalStep::VerifyReview);
    }

    /// `VerifyReview`: the storage as it is now, the names in the directory, and its fingerprint.
    pub fn compared(&mut self, now: &Remaining, names: &Vec<String>, found: Result<&str, String>)
        requires
            old(self).wf(),
            old(self).step == RemovalStep::VerifyReview,
            now.opened is Some == old(self).open(),
        ensures
            match standing_complaint(old(self).journal->0, *now, old(self).uid) {
                Some(e) => removal_stops(*old(self), *final(self), e),
                None => match review_of(
                    old(self).journal->0,
                    names@,
                    old(self).review->0,
                    match found {
                        Ok(f) => Ok(f@),
                        Err(e) => Err(e@),
                    },
                ) {
                    Err(e) => removal_stops(*old(self), *final(self), e),
                    Ok(_) => removal_moves(*old(self), *final(self), old(self).next()),
                },
            },
            final(self).wf(),
    {
        proof {
            kept(self.log@, self.step);
        }
        let result = match (&self.journal, &self.review) {
            (Some(journal), Some(review)) => match verify_remaining(journal, now, self.uid) {
                Err(e) => Err(e),
                Ok(()) => verify_review(journal, names, review, found),
            },
            _ => Ok(()),
        };
        match result {
            Err(e) => self.failed(e),
            Ok(()) => {
                let next = self.following();
                self.go(next);
            },
        }
    }

    /// `VerifyEmptied`, `VerifyBeforeReceipt` and `VerifyBeforeRecord`: the storage as it is now.
    pub fn verified(&mut self, now: &Remaining)
        requires
            old(self).wf(),
            removal_verifies(old(self).step),
            now.opened is Some == old(self).open(),
        ensures
            match standing_complaint(old(self).journal->0, *now, old(self).uid) {
                Some(e) => removal_stops(*old(self), *final(self), e),
                None => removal_moves(*old(self), *final(self), old(self).next()),
            },
            final(self).wf(),
    {
        proof {
            kept(self.log@, self.step);
        }
        let result = match &self.journal {
            Some(journal) => verify_remaining(journal, now, self.uid),
            None => Ok(()),
        };
        match result {
            Err(e) => self.failed(e),
            Ok(()) => {
                let next = self.following();
                self.go(next);
            },
        }
    }

    /// The file that `CheckFile` and `RemoveFile` speak of.
    pub fn current(&self) -> (r: &String)
        requires
            self.wf(),
            self.step == RemovalStep::CheckFile || self.step == RemovalStep::RemoveFile,
        ensures
            r@ == self.order@[self.removed as int]@,
    {
        &self.order[self.removed]
    }

    /// `CheckFile`: the file as it is now, where it could be looked at, against its record.
    pub fn checked(&mut self, meta: &Result<Metadata, String>, elapsed_ms: u64)
        requires
            old(self).wf(),
            old(self).step == RemovalStep::CheckFile,
        ensures
            ({
                let files = old(self).journal->0.files@;
                let at = file_from(
                    files,
                    old(self).order@[old(self).removed as int]@,
                    0,
                );
                if elapsed_ms >= REMOVAL_MS {
                    removal_stops(
                        *old(self),
                        *final(self),
                        "Managed removal timed out. Review remaining files again"@,
                    )
                } else if at >= files.len() {
                    removal_stops(*old(self), *final(self), "Missing reviewed file record"@)
                } else {
                    match *meta {
                        Err(e) => removal_stops(*old(self), *final(self), e@),
                        Ok(m) => if !matches_file(files[at].identity, m, old(self).uid) {
                            removal_stops(
                                *old(self),
                                *final(self),
                                "Managed file changed before removal"@,
                            )
                        } else {
                            removal_moves(*old(self), *final(self), RemovalStep::RemoveFile)
                        },
                    }
                }
            }),
            final(self).wf(),
    {
        let late = elapsed_ms >= REMOVAL_MS;
        proof {
            kept(self.log@, self.step);
        }
        if late {
            self.failed("Managed removal timed out. Review remaining files again".to_owned());
            return;
        }
        let result = match &self.journal {
            None => Ok(()),
            Some(journal) => match journal.get(self.order[self.removed].as_str()) {
                None => Err("Missing reviewed file record".to_owned()),
                Some(expected) => match meta {
                    Err(e) => Err(e.clone()),
                    Ok(meta) => if expected.matches(meta, self.uid) {
                        Ok(())
                    } else {
                        Err("Managed file changed before removal".to_owned())
                    },
                },
            },
        };
        match result {
            Err(e) => self.failed(e),
            Ok(()) => self.go(RemovalStep::RemoveFile),
        }
    }

    /// `RemoveFile`: the file is gone.
    pub fn file_removed(&mut self)
        requires
            old(self).wf(),
            old(self).step == RemovalStep::RemoveFile,
        ensures
            removal_moves(
                (Removal { removed: (old(self).removed + 1) as usize, ..*old(self) }),
                *final(self),
                if old(self).removed + 1 < old(self).order@.len() {
                    RemovalStep::CheckFile
                } else {
                    RemovalStep::SyncDirectory
                },
            ),
            final(self).wf(),
    {
        proof {
            kept(self.log@, self.step);
        }
        let count: usize = self.order.len();
        self.removed = self.removed + 1;
        if self.removed < count {
            self.go(RemovalStep::CheckFile);
        } else {
            self.go(RemovalStep::SyncDirectory);
        }
    }
}

/// Nothing is removed before the removal was authorized, and no file before its record was written
/// and compared with the file itself.
pub proof fn removal_is_authorized_and_recorded(r: Removal)
    requires
        r.wf(),
        r.step == RemovalStep::RemoveFile || r.step == RemovalStep::RemoveDirectory || r.step
            == RemovalStep::RemoveOrphan || r.step == RemovalStep::RemoveReceipt || r.step
            == RemovalStep::RemoveRecord,
    ensures
        r.log@.contains(RemovalStep::Authorize),
        r.step == RemovalStep::RemoveFile ==> r.log@.contains(RemovalStep::VerifyReview)
            && r.log@.last() == RemovalStep::CheckFile,
{
}

/// The receipt goes only after the directory, and the record of the removal goes last: an
/// interruption in between can always be resumed.
pub proof fn records_outlive_what_they_record(r: Removal)
    requires
        r.wf(),
    ensures
        r.step == RemovalStep::RemoveDirectory ==> r.removed == r.order@.len(),
        r.step == RemovalStep::RemoveReceipt && r.directory ==> r.log@.contains(
            RemovalStep::RemoveDirectory,
        ),
        r.step == RemovalStep::RemoveRecord ==> r.log@.contains(RemovalStep::RemoveReceipt) && (
        r.directory ==> r.log@.contains(RemovalStep::RemoveDirectory)),
{
}

/// A file is still the recorded one exactly where it is a regular file that only its owner may use,
/// with the inode, the size and the time of its last change that were recorded.
pub proof fn recorded_files_are_known_by_what_stays(f: FileIdentity, m: Metadata, uid: u32)
    ensures
        matches_file(f, m, uid) <==> {
            &&& m.kind == crate::files::FileKind::File
            &&& m.uid == uid
            &&& m.mode & 0o777 == 0o600
            &&& m.ino == f.inode
            &&& m.len == f.bytes
            &&& (m.mtime, m.mtime_nsec) == f.modified
        },
{
}

/// A record of a removal is valid exactly where it and its receipt are of the first version, speak of
/// that import, and hold no more than 8192 files, each by a name and a digest of media and within the
/// size of media.
pub proof fn removal_records_are_valid_for_their_import(journal: Journal, id: Seq<char>)
    ensures
        journal_complaint(journal, id) is None <==> {
            &&& text::hex_of_len(id, 32)
            &&& journal.version == 1
            &&& journal.receipt.version == 1
            &&& journal.receipt.id@ == id
            &&& text::hex_of_len(journal.receipt.fingerprint@, 64)
            &&& journal.files@.len() <= 8192
            &&& forall|i: int|
                0 <= i < journal.files@.len() ==> media_name((#[trigger] journal.files@[i]).name@)
                    && text::hex_of_len(journal.files@[i].identity.sha256@, 64)
                    && journal.files@[i].identity.bytes <= MAX_FILE_BYTES
        },
{
    if journal_complaint(journal, id) is None {
        assert forall|i: int| 0 <= i < journal.files@.len() implies media_name(
            (#[trigger] journal.files@[i]).name@,
        ) && text::hex_of_len(journal.files@[i].identity.sha256@, 64)
            && journal.files@[i].identity.bytes <= MAX_FILE_BYTES by {
            assert(valid_file(journal.files@[i]));
        }
    }
}

/// A reviewed file is recorded exactly where there is room and time for it, its name is one of media
/// and new, and what stands there is a private file of the reviewed size.
pub proof fn reviewed_files_are_recorded_once(
    files: Seq<JournalFile>,
    file: CatalogReviewedFile,
    meta: Result<Metadata, String>,
    uid: u32,
    late: bool,
)
    ensures
        prepare_complaint(files, file, meta, uid, late) is None <==> {
            &&& files.len() < 8192
            &&& !late
            &&& media_name(file.path@)
            &&& meta is Ok
            &&& private_file(meta->Ok_0, uid)
            &&& meta->Ok_0.len == file.bytes
            &&& forall|i: int| 0 <= i < files.len() ==> (#[trigger] files[i]).name@ != file.path@
        },
{
}

/// A removal goes on exactly where the directory of imports is the recorded one, the receipt is the
/// recorded one or gone, and the import's directory is the recorded one, held and in place, or gone
/// altogether. A receipt is gone only once the directory is.
pub proof fn removals_go_on_in_the_recorded_storage(
    journal: Journal,
    imports_inode: u64,
    receipt: Option<Receipt>,
    opened: Option<u64>,
    current: Option<u64>,
)
    ensures
        ownership_complaint(journal, imports_inode, receipt, opened, current) is None <==> {
            &&& imports_inode == journal.receipt.imports_inode
            &&& receipt is Some ==> receipt->0@ == journal.receipt@
            &&& (opened is None && current is None) || (receipt is Some && opened == Some(
                journal.receipt.directory_inode,
            ) && current == Some(journal.receipt.directory_inode))
        },
{
}

/// What remains in the directory of a removal is accepted exactly where it is a recorded file that
/// did not change.
pub proof fn remaining_files_are_recorded_and_unchanged(
    journal: Journal,
    index: u64,
    name: Seq<char>,
    meta: Result<Metadata, String>,
    uid: u32,
    late: bool,
)
    requires
        journal.wf(),
    ensures
        remaining_complaint(journal, index, name, meta, uid, late) is None <==> {
            &&& index < 8192
            &&& !late
            &&& meta is Ok
            &&& exists|i: int|
                0 <= i < journal.files@.len() && (#[trigger] journal.files@[i]).name@ == name
                    && matches_file(journal.files@[i].identity, meta->Ok_0, uid)
        },
{
    named_file_is_found(journal.files@, name, 0);
    let at = file_from(journal.files@, name, 0);
    assert forall|i: int|
        0 <= i < journal.files@.len() && (#[trigger] journal.files@[i]).name@ == name implies at
        == i by {
        if at < i {
            assert(precedes(journal.files@[at].name@, journal.files@[i].name@));
            crate::order::precedes_is_total(name, name);
        }
    }
}

proof fn named_file_is_found(files: Seq<JournalFile>, name: Seq<char>, i: int)
    requires
        0 <= i <= files.len(),
    ensures
        i <= file_from(files, name, i) <= files.len(),
        file_from(files, name, i) < files.len() ==> files[file_from(files, name, i)].name@ == name,
        forall|k: int|
            i <= k < file_from(files, name, i) ==> (#[trigger] files[k]).name@ != name,
    decreases files.len() - i,
{
    if i < files.len() && files[i].name@ != name {
        named_file_is_found(files, name, i + 1);
    }
}

proof fn reviewed_in_full(
    journal: Journal,
    names: Seq<String>,
    files: Seq<CatalogReviewedFile>,
    i: int,
)
    requires
        0 <= i <= files.len(),
    ensures
        first_reviewed_complaint(journal, names, files, i) is None <==> forall|k: int|
            i <= k < files.len() ==> #[trigger] reviewed_complaint(journal, names, files, k) is None,
    decreases files.len() - i,
{
    if i < files.len() {
        reviewed_in_full(journal, names, files, i + 1);
    }
}

/// A review describes what remains of a removal exactly where it is of that import and of the content
/// that is there, every file in it remains, once, with the recorded size and digest, and every file
/// that remains is in it.
pub proof fn reviews_describe_exactly_what_remains(
    journal: Journal,
    names: Seq<String>,
    review: CatalogDirectoryReview,
    found: Result<Seq<char>, Seq<char>>,
)
    requires
        journal.wf(),
    ensures
        review_of(journal, names, review, found) is Ok <==> {
            &&& names.len() <= 8192
            &&& review.directory@ == journal.receipt.id@
            &&& found == Ok::<Seq<char>, Seq<char>>(review.sha256@)
            &&& forall|k: int|
                0 <= k < review.files@.len() ==> has_name(
                    names,
                    (#[trigger] review.files@[k]).path@,
                )
            &&& forall|j: int, k: int|
                0 <= j < k < review.files@.len() ==> (#[trigger] review.files@[j]).path@ != (
                #[trigger] review.files@[k]).path@
            &&& forall|k: int|
                0 <= k < review.files@.len() ==> agrees(journal.files@, #[trigger] review.files@[k])
            &&& forall|i: int|
                0 <= i < names.len() ==> reviews(
                    review.files@,
                    review.files@.len() as int,
                    (#[trigger] names[i])@,
                )
        },
{
    let files = review.files@;
    reviewed_in_full(journal, names, files, 0);
    assert forall|k: int| 0 <= k < files.len() implies (#[trigger] reviewed_complaint(
        journal,
        names,
        files,
        k,
    ) is None <==> has_name(names, files[k].path@) && !repeated(files, k) && agrees(
        journal.files@,
        files[k],
    )) by {
        let name = files[k].path@;
        named_file_is_found(journal.files@, name, 0);
        let at = file_from(journal.files@, name, 0);
        assert forall|i: int|
            0 <= i < journal.files@.len() && (#[trigger] journal.files@[i]).name@ == name implies at
            == i by {
            if at < i {
                assert(precedes(journal.files@[at].name@, journal.files@[i].name@));
                crate::order::precedes_is_total(name, name);
            }
        }
    }
    if first_reviewed_complaint(journal, names, files, 0) is None {
        assert forall|k: int| 0 <= k < files.len() implies has_name(
            names,
            (#[trigger] files[k]).path@,
        ) && agrees(journal.files@, files[k]) && !repeated(files, k) by {
            assert(reviewed_complaint(journal, names, files, k) is None);
        }
        assert forall|j: int, k: int| 0 <= j < k < files.len() implies (#[trigger] files[j]).path@
            != (#[trigger] files[k]).path@ by {
            assert(!repeated(files, k));
        }
    }
    if forall|j: int, k: int|
        0 <= j < k < files.len() ==> (#[trigger] files[j]).path@ != (#[trigger] files[k]).path@ {
        assert forall|k: int| 0 <= k < files.len() implies !repeated(files, k) by {}
    }
}

/// Whether a record holds a reviewed file, with its size and digest.
pub open spec fn agrees(files: Seq<JournalFile>, file: CatalogReviewedFile) -> bool {
    exists|i: int|
        0 <= i < files.len() && (#[trigger] files[i]).name@ == file.path@ && files[i].identity.bytes
            == file.bytes && files[i].identity.sha256@ == file.sha256@
}

/// The files that a review misses are the recorded ones that it does not show, all of them.
pub proof fn missing_files_are_those_not_reviewed(
    files: Seq<JournalFile>,
    review: Seq<CatalogReviewedFile>,
    n: int,
    name: Seq<char>,
)
    requires
        0 <= n <= files.len(),
    ensures
        missing(files, review, n).contains(name) <==> (exists|i: int|
            0 <= i < n && (#[trigger] files[i]).name@ == name) && forall|k: int|
            0 <= k < review.len() ==> (#[trigger] review[k]).path@ != name,
    decreases n,
{
    if n > 0 {
        missing_files_are_those_not_reviewed(files, review, n - 1, name);
        let last = files[n - 1].name@;
        let before = missing(files, review, n - 1);
        crate::steps::push_holds(before, last);
        if last == name {
            assert(files[n - 1].name@ == name);
        }
    } else {
        assert(missing(files, review, n) =~= Seq::empty());
    }
}

} // verus!
