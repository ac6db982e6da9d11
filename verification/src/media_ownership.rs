//! Who owns published media: receipts, the inventory of imports, and content reviews.

use crate::container_destination::complaint;
use crate::digest::{absorbed, fingerprint, Hasher};
use crate::files::{private_file, FileKind, Metadata};
use crate::media_publication::{
    directory_complaint, file_number, open_directory, stem, stem_of, MAX_FILE_BYTES,
    MAX_STORE_BYTES,
};
use crate::order::{in_order, precedes, precedes_is_total, sort, Keyed};
use crate::steps;
use crate::text;
use crate::text::outcome;
use vstd::prelude::*;

verus! {

/// How long the receipts may be counted, in milliseconds.
pub const RECEIPTS_MS: u64 = 2_000;

/// How long the catalog may be listed, in milliseconds.
pub const INVENTORY_MS: u64 = 5_000;

/// How long the files of an import may be read, in milliseconds.
pub const REVIEW_MS: u64 = 600_000;

/// The record of a published import.
#[derive(Clone, Debug)]
pub struct Receipt {
    pub version: u32,
    pub id: String,
    pub imports_inode: u64,
    pub directory_inode: u64,
    pub fingerprint: String,
}

impl View for Receipt {
    type V = (u32, Seq<char>, u64, u64, Seq<char>);

    open spec fn view(&self) -> (u32, Seq<char>, u64, u64, Seq<char>) {
        (
            self.version,
            self.id@,
            self.imports_inode,
            self.directory_inode,
            self.fingerprint@,
        )
    }
}

impl Receipt {
    pub fn same(&self, other: &Receipt) -> (r: bool)
        ensures
            r == (self@ == other@),
    {
        self.version == other.version && text::eq(self.id.as_str(), other.id.as_str())
            && self.imports_inode == other.imports_inode && self.directory_inode
            == other.directory_inode && text::eq(
            self.fingerprint.as_str(),
            other.fingerprint.as_str(),
        )
    }
}

/// An import identifier is 32 hexadecimal digits.
pub open spec fn valid_id(id: Seq<char>) -> bool {
    text::hex_of_len(id, 32)
}

pub fn validate_id(id: &str) -> (r: Result<(), String>)
    ensures
        match r {
            Ok(_) => valid_id(id@),
            Err(e) => !valid_id(id@) && e@ == "Invalid managed import ID"@,
        },
{
    if text::is_hex_of_len(id, 32) {
        Ok(())
    } else {
        Err("Invalid managed import ID".to_owned())
    }
}

/// A private record file of a limited size, known by one name only.
pub open spec fn record_file(m: Metadata, uid: u32, limit: u64) -> bool {
    private_file(m, uid) && m.nlink == 1 && m.len <= limit
}

/// Judges the file of a receipt before it is read.
pub fn check_receipt_file(meta: &Metadata, uid: u32) -> (r: Result<(), String>)
    ensures
        match r {
            Ok(_) => record_file(*meta, uid, 4096),
            Err(e) => !record_file(*meta, uid, 4096) && e@
                == "Managed import receipt must be a private regular file of at most 4 KiB"@,
        },
{
    if meta.is_private_file(uid) && meta.nlink == 1 && meta.len <= 4096 {
        Ok(())
    } else {
        Err("Managed import receipt must be a private regular file of at most 4 KiB".to_owned())
    }
}

pub open spec fn receipt_complaint(receipt: Receipt, id: Seq<char>) -> Option<Seq<char>> {
    if receipt.version == 1 && receipt.id@ == id && text::hex_of_len(receipt.fingerprint@, 64) {
        None
    } else {
        Some("Invalid managed import ownership receipt"@)
    }
}

/// Judges a receipt that was read for an import.
pub fn check_receipt(receipt: &Receipt, id: &str) -> (r: Result<(), String>)
    ensures
        match r {
            Ok(_) => receipt_complaint(*receipt, id@) is None,
            Err(e) => receipt_complaint(*receipt, id@) == Some(e@),
        },
{
    if receipt.version == 1 && text::eq(receipt.id.as_str(), id) && text::is_hex_of_len(
        receipt.fingerprint.as_str(),
        64,
    ) {
        Ok(())
    } else {
        Err("Invalid managed import ownership receipt".to_owned())
    }
}

/// The file of a receipt: what it is, how many bytes it gave, and what they hold.
pub struct ReceiptFile {
    pub meta: Metadata,
    pub bytes: u64,
    pub receipt: Result<Receipt, String>,
}

/// The receipt of an import, where there is a file of it.
pub open spec fn read_of(id: Seq<char>, found: Result<Option<ReceiptFile>, String>, uid: u32) -> Result<
    Option<Receipt>,
    Seq<char>,
> {
    if !valid_id(id) {
        Err("Invalid managed import ID"@)
    } else {
        match found {
            Err(e) => Err("Opening managed import ownership receipt: "@ + e@),
            Ok(None) => Ok(None),
            Ok(Some(file)) => if !record_file(file.meta, uid, 4096) {
                Err("Managed import receipt must be a private regular file of at most 4 KiB"@)
            } else if file.bytes > 4096 {
                Err("Managed import receipt exceeds 4 KiB"@)
            } else {
                match file.receipt {
                    Err(e) => Err(e@),
                    Ok(receipt) => match receipt_complaint(receipt, id) {
                        Some(e) => Err(e),
                        None => Ok(Some(receipt)),
                    },
                }
            },
        }
    }
}

/// Reads the receipt of an import.
pub fn read(id: &str, found: Result<Option<ReceiptFile>, String>, uid: u32) -> (r: Result<
    Option<Receipt>,
    String,
>)
    ensures
        outcome(r) == read_of(id@, found, uid),
{
    validate_id(id)?;
    match found {
        Err(e) => Err(text::worded("Opening managed import ownership receipt: ", e.as_str())),
        Ok(None) => Ok(None),
        Ok(Some(file)) => {
            check_receipt_file(&file.meta, uid)?;
            if file.bytes > 4096 {
                return Err("Managed import receipt exceeds 4 KiB".to_owned());
            }
            match file.receipt {
                Err(e) => Err(e),
                Ok(receipt) => {
                    check_receipt(&receipt, id)?;
                    Ok(Some(receipt))
                },
            }
        },
    }
}

/// The receipt of an import that is about to be published.
pub fn receipt(id: &str, imports_inode: u64, directory_inode: u64, fingerprint: &str) -> (r: Result<
    Receipt,
    String,
>)
    ensures
        match r {
            Ok(x) => valid_id(id@) && text::hex_of_len(fingerprint@, 64) && x@ == (
                1u32,
                id@,
                imports_inode,
                directory_inode,
                fingerprint@,
            ) && receipt_complaint(x, id@) is None,
            Err(e) => if !valid_id(id@) {
                e@ == "Invalid managed import ID"@
            } else {
                !text::hex_of_len(fingerprint@, 64) && e@ == "Invalid managed media fingerprint"@
            },
        },
{
    match validate_id(id) {
        Err(e) => return Err(e),
        Ok(()) => {},
    }
    if !text::is_hex_of_len(fingerprint, 64) {
        return Err("Invalid managed media fingerprint".to_owned());
    }
    Ok(
        Receipt {
            version: 1,
            id: id.to_owned(),
            imports_inode,
            directory_inode,
            fingerprint: fingerprint.to_owned(),
        },
    )
}

/// Whether a receipt still has to be written, given the one that stands there.
pub fn record(receipt: &Receipt, previous: Option<&Receipt>) -> (r: Result<bool, String>)
    ensures
        match r {
            Ok(write) => write == (previous is None) && (previous matches Some(p) ==> p@ == receipt@),
            Err(e) => previous is Some && previous->0@ != receipt@ && e@
                == "Managed import ID already belongs to another publication"@,
        },
{
    match previous {
        None => Ok(true),
        Some(previous) => if previous.same(receipt) {
            Ok(false)
        } else {
            Err("Managed import ID already belongs to another publication".to_owned())
        },
    }
}

/// What keeps the ownership of an import from being recorded: `previous` is the receipt that stood
/// there, and `kept` what came of making room, writing the receipt or writing back its directory.
pub open spec fn kept_complaint(
    id: Seq<char>,
    fingerprint: Seq<char>,
    imports_inode: u64,
    directory_inode: u64,
    previous: Result<Option<Receipt>, String>,
    kept: Result<(), String>,
) -> Option<Seq<char>> {
    if !valid_id(id) {
        Some("Invalid managed import ID"@)
    } else if !text::hex_of_len(fingerprint, 64) {
        Some("Invalid managed media fingerprint"@)
    } else {
        match previous {
            Err(e) => Some(e@),
            Ok(previous) => if previous matches Some(p) && p@ != (
                1u32,
                id,
                imports_inode,
                directory_inode,
                fingerprint,
            ) {
                Some("Managed import ID already belongs to another publication"@)
            } else {
                match kept {
                    Err(e) => Some(e@),
                    Ok(_) => None,
                }
            },
        }
    }
}

/// Whether the ownership of an import is recorded.
pub fn keep(
    id: &str,
    fingerprint: &str,
    imports_inode: u64,
    directory_inode: u64,
    previous: &Result<Option<Receipt>, String>,
    kept: &Result<(), String>,
) -> (r: Result<(), String>)
    ensures
        match r {
            Ok(_) => kept_complaint(
                id@,
                fingerprint@,
                imports_inode,
                directory_inode,
                *previous,
                *kept,
            ) is None,
            Err(e) => kept_complaint(
                id@,
                fingerprint@,
                imports_inode,
                directory_inode,
                *previous,
                *kept,
            ) == Some(e@),
        },
{
    let receipt = receipt(id, imports_inode, directory_inode, fingerprint)?;
    match previous {
        Err(e) => Err(e.clone()),
        Ok(previous) => {
            let stood = match previous {
                Some(p) => Some(p),
                None => None,
            };
            record(&receipt, stood)?;
            match kept {
                Err(e) => Err(e.clone()),
                Ok(_) => Ok(()),
            }
        },
    }
}

/// Whether there is room for one more record, at the index of an entry that stands there.
pub fn receipt_room(index: u64, elapsed_ms: u64) -> (r: Result<(), String>)
    ensures
        match r {
            Ok(_) => index < 2047 && elapsed_ms < RECEIPTS_MS,
            Err(e) => (index >= 2047 || elapsed_ms >= RECEIPTS_MS) && e@
                == "Managed import receipts exceed the entry or time limit. Review unused imports before copying more"@,
        },
{
    let late = elapsed_ms >= RECEIPTS_MS;
    if index < 2047 && !late {
        Ok(())
    } else {
        Err(
            "Managed import receipts exceed the entry or time limit. Review unused imports before copying more".to_owned(),
        )
    }
}

/// Whether an import is still what its receipt says.
pub open spec fn verified_of(
    receipt: Receipt,
    imports_inode: u64,
    directory_inode: u64,
    found: Result<Seq<char>, Seq<char>>,
) -> Result<(), Seq<char>> {
    let changed = Err("Managed import changed since publication. Automatic cleanup is not authorized"@);
    if imports_inode != receipt.imports_inode || directory_inode != receipt.directory_inode {
        changed
    } else {
        match found {
            Err(e) => Err(e),
            Ok(f) => if f == receipt.fingerprint@ {
                Ok(())
            } else {
                changed
            },
        }
    }
}

/// Compares an import with its receipt.
fn compare(
    receipt: &Receipt,
    imports_inode: u64,
    directory_inode: u64,
    found: Result<&str, String>,
) -> (r: Result<(), String>)
    ensures
        outcome(r) == verified_of(
            *receipt,
            imports_inode,
            directory_inode,
            match found {
                Ok(f) => Ok(f@),
                Err(e) => Err(e@),
            },
        ),
{
    if imports_inode == receipt.imports_inode && directory_inode == receipt.directory_inode {
        match found {
            Err(e) => return Err(e),
            Ok(f) => {
                if text::eq(f, receipt.fingerprint.as_str()) {
                    return Ok(());
                }
            },
        }
    }
    Err("Managed import changed since publication. Automatic cleanup is not authorized".to_owned())
}

/// One import in the inventory.
#[derive(Clone, Debug)]
pub struct CatalogStorageEntry {
    pub directory: String,
    pub bytes: u64,
    pub ownership_verified: bool,
    pub issue: Option<String>,
}

/// What taking the inventory does next.
#[derive(Clone, Copy, Debug, PartialEq, Eq, Structural)]
pub enum InventoryStep {
    Directories,
    Files,
    Receipts,
    Orphan,
    Removals,
    Resume,
    Failed,
}

/// The inventory of imports while it is being taken: first the published directories, then the
/// receipts, then the pending removals.
pub struct Inventory {
    pub entries: Vec<CatalogStorageEntry>,
    pub files: u64,
    /// The bytes of the directory that is being read.
    pub bytes: u64,
    pub seen: std::collections::HashSet<u128>,
    /// How many entries have a published directory.
    pub published: usize,
    /// How many receipts were looked at.
    pub looked: u64,
    /// The receipt without a directory that is being looked at.
    pub id: String,
    /// The entry whose removal is being resumed.
    pub at: usize,
    pub step: InventoryStep,
    /// The directories, the receipts and the pending removals that were found, in order.
    pub directories: Ghost<Seq<Seq<char>>>,
    pub receipts: Ghost<Seq<Seq<char>>>,
    pub removals: Ghost<Seq<Seq<char>>>,
}

pub const MAX_INVENTORY: usize = 1024;

/// The entry that `finish_directory` adds.
pub open spec fn directory_entry(
    e: CatalogStorageEntry,
    name: Seq<char>,
    bytes: u64,
    verified: Result<bool, Seq<char>>,
) -> bool {
    &&& e.directory@ == name
    &&& e.bytes == bytes
    &&& e.ownership_verified == (e.issue is None)
    &&& match verified {
        Ok(true) => e.issue is None,
        Ok(false) => e.issue is Some && e.issue->0@
            == "No ownership receipt. Retained as unverified storage"@,
        Err(text) => e.issue is Some && e.issue->0@ == text::cut(text, 2048),
    }
}

/// Whether one of the first `n` entries is about a directory.
pub open spec fn listed(entries: Seq<CatalogStorageEntry>, n: int, id: Seq<char>) -> bool {
    exists|i: int| 0 <= i < n && (#[trigger] entries[i]).directory@ == id
}

/// The first entry from `i` on about a directory, or the number of entries.
pub open spec fn position(entries: Seq<CatalogStorageEntry>, id: Seq<char>, i: int) -> int
    decreases entries.len() - i,
{
    if i >= entries.len() {
        entries.len() as int
    } else if entries[i].directory@ == id {
        i
    } else {
        position(entries, id, i + 1)
    }
}

/// A record file name: an identifier with `.json`.
pub open spec fn record_id(
    name: Seq<char>,
    complaint: Seq<char>,
) -> Result<Seq<char>, Seq<char>> {
    if !text::ends_in(name, ".json"@) {
        Err(complaint)
    } else {
        let id = name.take(name.len() - ".json"@.len());
        if valid_id(id) {
            Ok(id)
        } else {
            Err("Invalid managed import ID"@)
        }
    }
}

pub(crate) fn id_of_record(name: &str, complaint: &str) -> (r: Result<String, String>)
    ensures
        match r {
            Ok(id) => record_id(name@, complaint@) == Ok::<Seq<char>, Seq<char>>(id@),
            Err(e) => record_id(name@, complaint@) == Err::<Seq<char>, Seq<char>>(e@),
        },
{
    match text::strip_suffix(name, ".json") {
        None => Err(complaint.to_owned()),
        Some(id) => match validate_id(id.as_str()) {
            Err(e) => Err(e),
            Ok(()) => Ok(id),
        },
    }
}

/// An entry that is not verified says why.
pub open spec fn explained(e: CatalogStorageEntry) -> bool {
    !e.ownership_verified ==> e.issue is Some
}

/// No two entries are about one directory.
pub open spec fn distinct(entries: Seq<CatalogStorageEntry>) -> bool {
    forall|i: int, j: int|
        0 <= i < j < entries.len() ==> (#[trigger] entries[i]).directory@ != (
        #[trigger] entries[j]).directory@
}

/// Entries in the strict order of their directories.
pub open spec fn strictly_in_order(entries: Seq<CatalogStorageEntry>) -> bool {
    forall|i: int, j: int|
        0 <= i < j < entries.len() ==> precedes(
            (#[trigger] entries[i]).directory@,
            (#[trigger] entries[j]).directory@,
        )
}

/// What is listed stays listed when an entry comes.
proof fn listed_stays(entries: Seq<CatalogStorageEntry>, e: CatalogStorageEntry, name: Seq<char>)
    requires
        listed(entries, entries.len() as int, name),
    ensures
        listed(entries.push(e), (entries.len() + 1) as int, name),
{
    let i = choose|i: int| 0 <= i < entries.len() && (#[trigger] entries[i]).directory@ == name;
    assert(entries.push(e)[i].directory@ == name);
}

/// Where the search finds nothing, nothing is listed.
proof fn position_finds(entries: Seq<CatalogStorageEntry>, id: Seq<char>, i: int)
    requires
        0 <= i <= entries.len(),
    ensures
        i <= position(entries, id, i) <= entries.len(),
        position(entries, id, i) < entries.len() ==> entries[position(entries, id, i)].directory@
            == id,
        position(entries, id, i) == entries.len() ==> forall|j: int|
            i <= j < entries.len() ==> (#[trigger] entries[j]).directory@ != id,
    decreases entries.len() - i,
{
    if i < entries.len() && entries[i].directory@ != id {
        position_finds(entries, id, i + 1);
    }
}

impl Inventory {
    /// Whether a name was found as a directory, a receipt or a pending removal.
    pub open spec fn found(self, name: Seq<char>) -> bool {
        self.directories@.contains(name) || self.receipts@.contains(name)
            || self.removals@.contains(name)
    }

    /// Whether no directory was listed twice, and no receipt.
    pub open spec fn found_once(self) -> bool {
        self.directories@.no_duplicates() && self.receipts@.no_duplicates()
    }

    /// The entries are about what was found and nothing else, and each that is not verified says
    /// why.
    pub open spec fn wf(self) -> bool {
        self.step != InventoryStep::Failed ==> {
            &&& self.entries@.len() <= MAX_INVENTORY
            &&& self.files <= 65536
            &&& self.looked <= 2048
            &&& self.published == self.directories@.len() <= self.entries@.len()
            &&& forall|i: int|
                0 <= i < self.published ==> (#[trigger] self.entries@[i]).directory@
                    == self.directories@[i]
            &&& forall|i: int|
                0 <= i < self.entries@.len() ==> self.found((#[trigger] self.entries@[i]).directory@)
            &&& forall|k: int|
                0 <= k < self.receipts@.len() ==> listed(
                    self.entries@,
                    self.entries@.len() as int,
                    #[trigger] self.receipts@[k],
                )
            &&& forall|k: int|
                0 <= k < self.removals@.len() ==> listed(
                    self.entries@,
                    self.entries@.len() as int,
                    #[trigger] self.removals@[k],
                )
            &&& forall|i: int|
                0 <= i < self.entries@.len() && !(self.step == InventoryStep::Resume && i
                    == self.at) ==> explained(#[trigger] self.entries@[i])
            &&& self.found_once() ==> distinct(self.entries@)
            &&& match self.step {
                InventoryStep::Directories => self.published == self.entries@.len()
                    && self.receipts@.len() == 0 && self.removals@.len() == 0,
                InventoryStep::Files => self.published == self.entries@.len() < MAX_INVENTORY
                    && self.receipts@.len() == 0 && self.removals@.len() == 0,
                InventoryStep::Receipts => self.removals@.len() == 0,
                InventoryStep::Orphan => self.removals@.len() == 0 && self.entries@.len()
                    < MAX_INVENTORY && !listed(self.entries@, self.published as int, self.id@),
                InventoryStep::Resume => self.at < self.entries@.len(),
                _ => true,
            }
        }
    }

    pub fn new() -> (r: Inventory)
        ensures
            r.wf(),
            r.step == InventoryStep::Directories,
            r.entries@.len() == 0,
            r.files == 0,
            r.looked == 0,
            r.directories@ == Seq::<Seq<char>>::empty(),
            r.receipts@ == Seq::<Seq<char>>::empty(),
            r.removals@ == Seq::<Seq<char>>::empty(),
    {
        Inventory {
            entries: Vec::new(),
            files: 0,
            bytes: 0,
            seen: std::collections::HashSet::new(),
            published: 0,
            looked: 0,
            id: String::new(),
            at: 0,
            step: InventoryStep::Directories,
            directories: Ghost(Seq::empty()),
            receipts: Ghost(Seq::empty()),
            removals: Ghost(Seq::empty()),
        }
    }

    fn fail(&mut self, reason: &str) -> (r: Result<(), String>)
        ensures
            *final(self) == (Inventory { step: InventoryStep::Failed, ..*old(self) }),
            r is Err,
            r->Err_0@ == reason@,
    {
        self.step = InventoryStep::Failed;
        Err(reason.to_owned())
    }

    /// One more import directory comes.
    pub fn directory(&mut self, elapsed_ms: u64) -> (r: Result<(), String>)
        requires
            old(self).wf(),
            old(self).step == InventoryStep::Directories,
        ensures
            final(self).wf(),
            match r {
                Ok(_) => {
                    &&& old(self).entries@.len() < MAX_INVENTORY && elapsed_ms < INVENTORY_MS
                    &&& final(self).seen@ == Set::<u128>::empty()
                    &&& *final(self) == (Inventory {
                        step: InventoryStep::Files,
                        bytes: 0,
                        seen: final(self).seen,
                        ..*old(self)
                    })
                },
                Err(e) => (old(self).entries@.len() >= MAX_INVENTORY || elapsed_ms >= INVENTORY_MS) && *final(self) == (
                Inventory { step: InventoryStep::Failed, ..*old(self) }) && e@
                    == "Managed import inventory exceeds its directory or time limit"@,
            },
    {
        let late = elapsed_ms >= INVENTORY_MS;
        if !(self.entries.len() < MAX_INVENTORY && !late) {
            return self.fail("Managed import inventory exceeds its directory or time limit");
        }
        self.bytes = 0;
        self.seen = std::collections::HashSet::new();
        self.step = InventoryStep::Files;
        Ok(())
    }

    /// One file of the directory, where it could be looked at. A file counts once, however many
    /// names it has.
    pub fn file(&mut self, found: &Result<Metadata, String>, elapsed_ms: u64) -> (r: Result<(), String>)
        requires
            old(self).wf(),
            old(self).step == InventoryStep::Files,
        ensures
            final(self).wf(),
            ({
                let meta = found->Ok_0;
                let number = file_number(meta.dev, meta.ino);
                let fresh = !old(self).seen@.contains(number);
                let complaint = if old(self).files + 1 > 65536 || elapsed_ms >= INVENTORY_MS {
                    Some("Managed import inventory exceeds its file or time limit"@)
                } else if *found is Err {
                    Some(found->Err_0@)
                } else if meta.kind != FileKind::File {
                    Some(
                        "Managed import inventory refuses symlinks, nested directories and special files"@,
                    )
                } else if fresh && old(self).bytes + meta.len > u64::MAX {
                    Some("Managed import size overflow"@)
                } else {
                    None
                };
                match r {
                    Ok(_) => {
                        &&& complaint is None
                        &&& *final(self) == (Inventory {
                            files: (old(self).files + 1) as u64,
                            bytes: final(self).bytes,
                            seen: final(self).seen,
                            ..*old(self)
                        })
                        &&& final(self).seen@ == old(self).seen@.insert(number)
                        &&& final(self).bytes == old(self).bytes + if fresh {
                            meta.len as int
                        } else {
                            0int
                        }
                    },
                    Err(e) => complaint == Some(e@) && final(self).step == InventoryStep::Failed,
                }
            }),
    {
        let late = elapsed_ms >= INVENTORY_MS;
        broadcast use vstd::std_specs::hash::group_hash_axioms;

        self.files = self.files + 1;
        if self.files > 65536 || late {
            return self.fail("Managed import inventory exceeds its file or time limit");
        }
        let meta = match found {
            Err(e) => return self.fail(e.as_str()),
            Ok(meta) => meta,
        };
        if meta.kind != FileKind::File {
            return self.fail(
                "Managed import inventory refuses symlinks, nested directories and special files",
            );
        }
        let number: u128 = (meta.dev as u128) * 0x1_0000_0000_0000_0000u128 + meta.ino as u128;
        assert(number == file_number(meta.dev, meta.ino));
        if self.seen.insert(number) {
            match self.bytes.checked_add(meta.len) {
                None => return self.fail("Managed import size overflow"),
                Some(bytes) => {
                    self.bytes = bytes;
                },
            }
        } else {
            assert(old(self).seen@.insert(number) =~= old(self).seen@);
        }
        Ok(())
    }

    /// The end of a directory, with the verdict on its ownership.
    pub fn finish_directory(&mut self, name: &str, verified: Result<bool, String>)
        requires
            old(self).wf(),
            old(self).step == InventoryStep::Files,
        ensures
            final(self).wf(),
            final(self).entries@.len() == old(self).entries@.len() + 1,
            final(self).entries@.drop_last() == old(self).entries@,
            directory_entry(
                final(self).entries@.last(),
                name@,
                old(self).bytes,
                outcome(verified),
            ),
            *final(self) == (Inventory {
                step: InventoryStep::Directories,
                entries: final(self).entries,
                published: (old(self).published + 1) as usize,
                directories: Ghost(old(self).directories@.push(name@)),
                ..*old(self)
            }),
    {
        let issue = match verified {
            Ok(true) => None,
            Ok(false) => Some("No ownership receipt. Retained as unverified storage".to_owned()),
            Err(e) => Some(text::take(e.as_str(), 2048)),
        };
        let ghost before = self.entries@;
        let ghost names = self.directories@;
        self.entries.push(
            CatalogStorageEntry {
                directory: name.to_owned(),
                bytes: self.bytes,
                ownership_verified: issue.is_none(),
                issue,
            },
        );
        assert(self.entries@.drop_last() =~= before);
        self.published = self.entries.len();
        self.directories = Ghost(self.directories@.push(name@));
        self.step = InventoryStep::Directories;
        proof {
            steps::push_holds(names, name@);
            assert forall|i: int| 0 <= i < self.entries@.len() implies self.found(
                (#[trigger] self.entries@[i]).directory@,
            ) by {
                if i < before.len() {
                    assert(old(self).found(before[i].directory@));
                }
            }
            if self.found_once() {
                assert forall|i: int, j: int| 0 <= i < j < names.len() implies names[i]
                    != names[j] by {
                    assert(self.directories@[i] != self.directories@[j]);
                }
                assert forall|i: int, j: int| 0 <= i < j < self.entries@.len() implies (
                #[trigger] self.entries@[i]).directory@ != (
                #[trigger] self.entries@[j]).directory@ by {
                    assert(self.directories@[i] != self.directories@[j]);
                }
            }
        }
    }

    /// There are no more directories.
    pub fn directories_done(&mut self)
        requires
            old(self).wf(),
            old(self).step == InventoryStep::Directories,
        ensures
            final(self).wf(),
            *final(self) == (Inventory { step: InventoryStep::Receipts, ..*old(self) }),
    {
        self.step = InventoryStep::Receipts;
    }

    fn has_published(&self, id: &str) -> (r: bool)
        requires
            self.published <= self.entries@.len(),
        ensures
            r == listed(self.entries@, self.published as int, id@),
    {
        let mut i: usize = 0;
        while i < self.published
            invariant
                i <= self.published <= self.entries@.len(),
                forall|j: int| 0 <= j < i ==> (#[trigger] self.entries@[j]).directory@ != id@,
            decreases self.published - i,
        {
            if text::eq(self.entries[i].directory.as_str(), id) {
                return true;
            }
            i += 1;
        }
        false
    }

    /// One entry of the receipts. One without a published directory is looked at next.
    pub fn receipt(&mut self, elapsed_ms: u64, name: &str) -> (r: Result<(), String>)
        requires
            old(self).wf(),
            old(self).step == InventoryStep::Receipts,
        ensures
            final(self).wf(),
            ({
                let id = record_id(name@, "Unexpected file in managed receipt storage"@);
                let complaint = if old(self).looked >= 2048 || elapsed_ms >= INVENTORY_MS {
                    Some("Managed receipt inventory exceeds its entry or time limit"@)
                } else if id is Err {
                    Some(id->Err_0)
                } else if !listed(old(self).entries@, old(self).published as int, id->Ok_0)
                    && old(self).entries@.len() >= MAX_INVENTORY {
                    Some("Managed inventory exceeds 1024 entries"@)
                } else {
                    None
                };
                match r {
                    Err(e) => complaint == Some(e@) && final(self).step == InventoryStep::Failed,
                    Ok(_) => {
                        &&& complaint is None
                        &&& if listed(old(self).entries@, old(self).published as int, id->Ok_0) {
                            *final(self) == (Inventory {
                                looked: (old(self).looked + 1) as u64,
                                receipts: Ghost(old(self).receipts@.push(id->Ok_0)),
                                ..*old(self)
                            })
                        } else {
                            &&& *final(self) == (Inventory {
                                step: InventoryStep::Orphan,
                                looked: (old(self).looked + 1) as u64,
                                id: final(self).id,
                                ..*old(self)
                            })
                            &&& final(self).id@ == id->Ok_0
                        }
                    },
                }
            }),
    {
        let late = elapsed_ms >= INVENTORY_MS;
        if !(self.looked < 2048 && !late) {
            return self.fail("Managed receipt inventory exceeds its entry or time limit");
        }
        let id = match id_of_record(name, "Unexpected file in managed receipt storage") {
            Ok(id) => id,
            Err(e) => return self.fail(e.as_str()),
        };
        self.looked = self.looked + 1;
        if self.has_published(id.as_str()) {
            let ghost names = self.receipts@;
            self.receipts = Ghost(self.receipts@.push(id@));
            proof {
                steps::push_holds(names, id@);
                let n = self.entries@.len() as int;
                let i = choose|i: int|
                    0 <= i < self.published && (#[trigger] self.entries@[i]).directory@ == id@;
                assert(listed(self.entries@, n, id@)) by {
                    assert(self.entries@[i].directory@ == id@);
                }
                assert forall|i: int| 0 <= i < self.entries@.len() implies self.found(
                    (#[trigger] self.entries@[i]).directory@,
                ) by {
                    assert(old(self).found(self.entries@[i].directory@));
                }
                if self.found_once() {
                    assert forall|i: int, j: int| 0 <= i < j < names.len() implies names[i]
                        != names[j] by {
                        assert(self.receipts@[i] != self.receipts@[j]);
                    }
                }
            }
            return Ok(());
        }
        if self.entries.len() >= MAX_INVENTORY {
            return self.fail("Managed inventory exceeds 1024 entries");
        }
        self.id = id;
        self.step = InventoryStep::Orphan;
        Ok(())
    }

    /// A receipt without a published directory: whether it describes an import that was abandoned,
    /// and whether it could be read again.
    pub fn orphan(&mut self, reviewed: &Result<bool, String>, read: Result<bool, String>) -> (r:
        Result<(), String>)
        requires
            old(self).wf(),
            old(self).step == InventoryStep::Orphan,
        ensures
            final(self).wf(),
            match r {
                Ok(_) => {
                    let e = final(self).entries@.last();
                    &&& read != Ok::<bool, String>(false)
                    &&& *final(self) == (Inventory {
                        step: InventoryStep::Receipts,
                        entries: final(self).entries,
                        receipts: Ghost(old(self).receipts@.push(old(self).id@)),
                        ..*old(self)
                    })
                    &&& final(self).entries@.len() == old(self).entries@.len() + 1
                    &&& final(self).entries@.drop_last() == old(self).entries@
                    &&& e.directory@ == old(self).id@
                    &&& e.bytes == 0
                    &&& e.ownership_verified == (*reviewed == Ok::<bool, String>(true))
                    &&& e.issue is Some
                    &&& e.issue->0@ == match read {
                        Ok(_) =>
                        "Ownership receipt has no published directory. An import may be pending or interrupted. Review metadata and references before removal."@,
                        Err(text) => text::cut(
                            "Invalid retained ownership receipt: "@ + text@,
                            2048,
                        ),
                    }
                },
                Err(e) => read == Ok::<bool, String>(false) && final(self).step
                    == InventoryStep::Failed && e@
                    == "Managed receipt disappeared during inventory"@,
            },
    {
        let issue = match read {
            Ok(true) =>
            "Ownership receipt has no published directory. An import may be pending or interrupted. Review metadata and references before removal.".to_owned(),
            Ok(false) => return self.fail("Managed receipt disappeared during inventory"),
            Err(e) => {
                let mut issue = "Invalid retained ownership receipt: ".to_owned();
                issue.append(e.as_str());
                text::take(issue.as_str(), 2048)
            },
        };
        let verified = match reviewed {
            Ok(found) => *found,
            Err(_) => false,
        };
        let ghost before = self.entries@;
        let ghost names = self.receipts@;
        let entry = CatalogStorageEntry {
            directory: self.id.clone(),
            bytes: 0,
            ownership_verified: verified,
            issue: Some(issue),
        };
        self.entries.push(entry);
        assert(self.entries@.drop_last() =~= before);
        self.receipts = Ghost(self.receipts@.push(self.id@));
        self.step = InventoryStep::Receipts;
        proof {
            steps::push_holds(names, self.id@);
            self.entry_came(*old(self), entry);
            assert(self.entries@[before.len() as int].directory@ == self.id@);
            if self.found_once() {
                let k = names.len() as int;
                assert forall|i: int, j: int| 0 <= i < j < names.len() implies names[i]
                    != names[j] by {
                    assert(self.receipts@[i] != self.receipts@[j]);
                }
                assert forall|i: int| 0 <= i < before.len() implies (
                #[trigger] before[i]).directory@ != self.id@ by {
                    if i >= self.published {
                        assert(old(self).found(before[i].directory@));
                        if old(self).directories@.contains(before[i].directory@) {
                            let d = choose|d: int|
                                0 <= d < old(self).directories@.len() && old(self).directories@[d]
                                    == before[i].directory@;
                            assert(before[d].directory@ == before[i].directory@);
                        } else {
                            let d = choose|d: int|
                                0 <= d < names.len() && names[d] == before[i].directory@;
                            assert(self.receipts@[d] != self.receipts@[k]);
                        }
                    }
                }
            }
        }
        Ok(())
    }

    /// What an entry that came leaves as it was.
    proof fn entry_came(self, before: Inventory, e: CatalogStorageEntry)
        requires
            before.wf(),
            before.step != InventoryStep::Failed,
            self.entries@ == before.entries@.push(e),
        ensures
            forall|k: int|
                0 <= k < before.receipts@.len() ==> listed(
                    self.entries@,
                    self.entries@.len() as int,
                    #[trigger] before.receipts@[k],
                ),
            forall|k: int|
                0 <= k < before.removals@.len() ==> listed(
                    self.entries@,
                    self.entries@.len() as int,
                    #[trigger] before.removals@[k],
                ),
            forall|i: int|
                0 <= i < before.entries@.len() ==> before.found(
                    (#[trigger] self.entries@[i]).directory@,
                ),
            forall|i: int|
                0 <= i < before.published ==> (#[trigger] self.entries@[i]).directory@
                    == before.directories@[i],
    {
        assert forall|k: int| 0 <= k < before.receipts@.len() implies listed(
            self.entries@,
            self.entries@.len() as int,
            #[trigger] before.receipts@[k],
        ) by {
            listed_stays(before.entries@, e, before.receipts@[k]);
        }
        assert forall|k: int| 0 <= k < before.removals@.len() implies listed(
            self.entries@,
            self.entries@.len() as int,
            #[trigger] before.removals@[k],
        ) by {
            listed_stays(before.entries@, e, before.removals@[k]);
        }
        assert forall|i: int| 0 <= i < before.entries@.len() implies before.found(
            (#[trigger] self.entries@[i]).directory@,
        ) by {
            assert(before.found(before.entries@[i].directory@));
        }
        assert forall|i: int| 0 <= i < before.published implies (
        #[trigger] self.entries@[i]).directory@ == before.directories@[i] by {
            assert(before.entries@[i].directory@ == before.directories@[i]);
        }
    }

    /// There are no more receipts.
    pub fn receipts_done(&mut self)
        requires
            old(self).wf(),
            old(self).step == InventoryStep::Receipts,
        ensures
            final(self).wf(),
            *final(self) == (Inventory { step: InventoryStep::Removals, ..*old(self) }),
    {
        self.step = InventoryStep::Removals;
    }

    /// A pending removal. The entry that it concerns may have to be added, and its removal is
    /// resumed next.
    pub fn pending(&mut self, id: &str, elapsed_ms: u64) -> (r: Result<(), String>)
        requires
            old(self).wf(),
            old(self).step == InventoryStep::Removals,
        ensures
            final(self).wf(),
            ({
                let at = position(old(self).entries@, id@, 0);
                match r {
                    Ok(_) => {
                        &&& elapsed_ms < INVENTORY_MS
                        &&& *final(self) == (Inventory {
                            step: InventoryStep::Resume,
                            entries: final(self).entries,
                            at: at as usize,
                            removals: Ghost(old(self).removals@.push(id@)),
                            ..*old(self)
                        })
                        &&& at < old(self).entries@.len() ==> final(self).entries
                            == old(self).entries
                        &&& at >= old(self).entries@.len() ==> {
                            let e = final(self).entries@.last();
                            &&& old(self).entries@.len() < MAX_INVENTORY
                            &&& final(self).entries@.len() == old(self).entries@.len() + 1
                            &&& final(self).entries@.drop_last() == old(self).entries@
                            &&& e.directory@ == id@ && e.bytes == 0 && !e.ownership_verified
                                && e.issue is None
                        }
                    },
                    Err(e) => final(self).step == InventoryStep::Failed && if elapsed_ms >= INVENTORY_MS {
                        e@ == "Managed import inventory exceeded five seconds"@
                    } else {
                        at >= old(self).entries@.len() >= MAX_INVENTORY && e@
                            == "Managed inventory exceeds 1024 entries"@
                    },
                }
            }),
    {
        let late = elapsed_ms >= INVENTORY_MS;
        if late {
            return self.fail("Managed import inventory exceeded five seconds");
        }
        let mut i: usize = 0;
        while i < self.entries.len() && !text::eq(self.entries[i].directory.as_str(), id)
            invariant
                *self == *old(self),
                i <= self.entries@.len(),
                position(self.entries@, id@, 0) == position(self.entries@, id@, i as int),
            decreases self.entries@.len() - i,
        {
            i += 1;
        }
        proof {
            position_finds(self.entries@, id@, 0);
            position_finds(self.entries@, id@, i as int);
            steps::push_holds(self.removals@, id@);
        }
        if i < self.entries.len() {
            self.removals = Ghost(self.removals@.push(id@));
            self.at = i;
            self.step = InventoryStep::Resume;
            proof {
                assert(self.entries@[i as int].directory@ == id@);
                assert forall|i: int| 0 <= i < self.entries@.len() implies self.found(
                    (#[trigger] self.entries@[i]).directory@,
                ) by {
                    assert(old(self).found(self.entries@[i].directory@));
                }
            }
            return Ok(());
        }
        if self.entries.len() >= MAX_INVENTORY {
            return self.fail("Managed inventory exceeds 1024 entries");
        }
        let ghost before = self.entries@;
        let entry = CatalogStorageEntry {
            directory: id.to_owned(),
            bytes: 0,
            ownership_verified: false,
            issue: None,
        };
        self.entries.push(entry);
        assert(self.entries@.drop_last() =~= before);
        self.removals = Ghost(self.removals@.push(id@));
        self.at = i;
        self.step = InventoryStep::Resume;
        proof {
            self.entry_came(*old(self), entry);
            assert(self.entries@[before.len() as int].directory@ == id@);
        }
        Ok(())
    }

    /// What became of resuming a pending removal; `Ok(false)` means that its record is gone.
    pub fn removal(&mut self, resumed: Result<bool, String>) -> (r: Result<(), String>)
        requires
            old(self).wf(),
            old(self).step == InventoryStep::Resume,
        ensures
            final(self).wf(),
            ({
                let at = old(self).at as int;
                match r {
                    Ok(_) => {
                        let e = final(self).entries@[at];
                        let before = old(self).entries@[at];
                        &&& resumed != Ok::<bool, String>(false)
                        &&& *final(self) == (Inventory {
                            step: InventoryStep::Removals,
                            entries: final(self).entries,
                            ..*old(self)
                        })
                        &&& final(self).entries@ == old(self).entries@.update(at, e)
                        &&& e.directory@ == before.directory@
                        &&& e.bytes == before.bytes
                        &&& e.ownership_verified == (resumed is Ok)
                        &&& e.issue is Some
                        &&& e.issue->0@ == match resumed {
                            Ok(_) =>
                            "Interrupted removal. Review remaining files and references before resuming"@,
                            Err(text) => text::cut(text@, 2048),
                        }
                    },
                    Err(e) => resumed == Ok::<bool, String>(false) && final(self).step
                        == InventoryStep::Failed && e@
                        == "Managed removal record disappeared during inventory"@,
                }
            }),
    {
        let verified = resumed.is_ok();
        let issue = match resumed {
            Ok(true) =>
            "Interrupted removal. Review remaining files and references before resuming".to_owned(),
            Ok(false) => return self.fail("Managed removal record disappeared during inventory"),
            Err(e) => text::take(e.as_str(), 2048),
        };
        let at: usize = self.at;
        let entry = CatalogStorageEntry {
            directory: self.entries[at].directory.clone(),
            bytes: self.entries[at].bytes,
            ownership_verified: verified,
            issue: Some(issue),
        };
        self.entries.set(at, entry);
        self.step = InventoryStep::Removals;
        proof {
            let before = old(self).entries@;
            let now = self.entries@;
            assert forall|i: int| 0 <= i < now.len() implies (#[trigger] now[i]).directory@
                == before[i].directory@ by {}
            assert forall|i: int| 0 <= i < now.len() implies self.found(
                (#[trigger] now[i]).directory@,
            ) by {
                assert(old(self).found(before[i].directory@));
            }
            assert forall|k: int| 0 <= k < self.receipts@.len() implies listed(
                now,
                now.len() as int,
                #[trigger] self.receipts@[k],
            ) by {
                let i = choose|i: int|
                    0 <= i < before.len() && (#[trigger] before[i]).directory@ == self.receipts@[k];
                assert(now[i].directory@ == self.receipts@[k]);
            }
            assert forall|k: int| 0 <= k < self.removals@.len() implies listed(
                now,
                now.len() as int,
                #[trigger] self.removals@[k],
            ) by {
                let i = choose|i: int|
                    0 <= i < before.len() && (#[trigger] before[i]).directory@ == self.removals@[k];
                assert(now[i].directory@ == self.removals@[k]);
            }
            assert forall|i: int| 0 <= i < now.len() implies explained(#[trigger] now[i]) by {
                if i != at {
                    assert(explained(before[i]));
                }
            }
            assert forall|i: int| 0 <= i < self.published implies (#[trigger] now[i]).directory@
                == self.directories@[i] by {
                assert(before[i].directory@ == self.directories@[i]);
            }
            if self.found_once() {
                assert forall|i: int, j: int| 0 <= i < j < now.len() implies (
                #[trigger] now[i]).directory@ != (#[trigger] now[j]).directory@ by {
                    assert(before[i].directory@ != before[j].directory@);
                }
            }
        }
        Ok(())
    }
}

impl Keyed for CatalogStorageEntry {
    open spec fn key(&self) -> Seq<char> {
        self.directory@
    }

    fn key_text(&self) -> &String {
        &self.directory
    }
}

/// What a new order of the entries keeps.
proof fn reordering_keeps(before: Seq<CatalogStorageEntry>, after: Seq<CatalogStorageEntry>)
    requires
        in_order(after),
        before.to_multiset() == after.to_multiset(),
    ensures
        before.len() == after.len(),
        forall|i: int| 0 <= i < after.len() ==> before.contains(#[trigger] after[i]),
        forall|i: int| 0 <= i < before.len() ==> after.contains(#[trigger] before[i]),
        distinct(before) ==> strictly_in_order(after),
{
    broadcast use vstd::seq_lib::group_to_multiset_ensures;

    before.to_multiset_ensures();
    after.to_multiset_ensures();
    assert forall|i: int| 0 <= i < after.len() implies before.contains(#[trigger] after[i]) by {
        assert(after.contains(after[i]));
        assert(after.to_multiset().count(after[i]) > 0);
    }
    assert forall|i: int| 0 <= i < before.len() implies after.contains(#[trigger] before[i]) by {
        assert(before.contains(before[i]));
        assert(before.to_multiset().count(before[i]) > 0);
    }
    if distinct(before) {
        assert forall|i: int, j: int|
            0 <= i < before.len() && 0 <= j < before.len() && i != j implies before[i]
            != before[j] by {
            if i < j {
                assert(before[i].directory@ != before[j].directory@);
            } else {
                assert(before[j].directory@ != before[i].directory@);
            }
        }
        before.lemma_multiset_has_no_duplicates();
        after.lemma_multiset_has_no_duplicates_conv();
        assert forall|i: int, j: int| 0 <= i < j < after.len() implies precedes(
            (#[trigger] after[i]).directory@,
            (#[trigger] after[j]).directory@,
        ) by {
            assert(before.contains(after[i]) && before.contains(after[j]));
            let x = choose|x: int| 0 <= x < before.len() && before[x] == after[i];
            let y = choose|y: int| 0 <= y < before.len() && before[y] == after[j];
            assert(after[i] != after[j]);
            assert(x != y);
            if x < y {
                assert(before[x].directory@ != before[y].directory@);
            } else {
                assert(before[y].directory@ != before[x].directory@);
            }
            assert(!precedes(after[j].key(), after[i].key()));
            precedes_is_total(after[i].directory@, after[j].directory@);
        }
    }
}

impl Inventory {
    /// The inventory in the order of its directories.
    pub fn finish(self, elapsed_ms: u64) -> (r: Result<Vec<CatalogStorageEntry>, String>)
        requires
            self.wf(),
            self.step == InventoryStep::Removals,
        ensures
            match r {
                Ok(v) => {
                    &&& elapsed_ms < INVENTORY_MS
                    &&& v@.len() <= MAX_INVENTORY
                    &&& in_order(v@)
                    &&& v@.to_multiset() == self.entries@.to_multiset()
                    &&& forall|i: int| 0 <= i < v@.len() ==> explained(#[trigger] v@[i])
                    &&& forall|i: int|
                        0 <= i < v@.len() ==> self.found((#[trigger] v@[i]).directory@)
                    &&& forall|name: Seq<char>|
                        self.found(name) ==> #[trigger] listed(v@, v@.len() as int, name)
                    &&& self.found_once() ==> strictly_in_order(v@)
                },
                Err(e) => elapsed_ms >= INVENTORY_MS && e@ == "Managed import inventory exceeded five seconds"@,
            },
    {
        let late = elapsed_ms >= INVENTORY_MS;
        if late {
            return Err("Managed import inventory exceeded five seconds".to_owned());
        }
        let ghost whole = self;
        let ghost before = self.entries@;
        let sorted = sort(self.entries);
        proof {
            let after = sorted@;
            reordering_keeps(before, after);
            assert forall|i: int| 0 <= i < after.len() implies explained(#[trigger] after[i])
                && whole.found(after[i].directory@) by {
                assert(before.contains(after[i]));
                let k = choose|k: int| 0 <= k < before.len() && before[k] == after[i];
                assert(explained(before[k]));
                assert(whole.found(before[k].directory@));
            }
            assert forall|name: Seq<char>| whole.found(name) implies #[trigger] listed(
                after,
                after.len() as int,
                name,
            ) by {
                assert(listed(before, before.len() as int, name)) by {
                    if whole.directories@.contains(name) {
                        let k = choose|k: int|
                            0 <= k < whole.directories@.len() && whole.directories@[k] == name;
                        assert(before[k].directory@ == name);
                    } else if whole.receipts@.contains(name) {
                        let k = choose|k: int|
                            0 <= k < whole.receipts@.len() && whole.receipts@[k] == name;
                        assert(whole.receipts@[k] == name);
                    } else {
                        let k = choose|k: int|
                            0 <= k < whole.removals@.len() && whole.removals@[k] == name;
                        assert(whole.removals@[k] == name);
                    }
                }
                let i = choose|i: int|
                    0 <= i < before.len() && (#[trigger] before[i]).directory@ == name;
                assert(after.contains(before[i]));
                let j = choose|j: int| 0 <= j < after.len() && after[j] == before[i];
                assert(after[j].directory@ == name);
            }
        }
        Ok(sorted)
    }
}

/// A whole inventory lists every directory, receipt and pending removal in exactly one entry, where
/// the storage lists no name twice.
pub proof fn inventories_list_each_name_once(
    inventory: Inventory,
    entries: Seq<CatalogStorageEntry>,
    name: Seq<char>,
    i: int,
    j: int,
)
    requires
        inventory.wf(),
        inventory.step == InventoryStep::Removals,
        inventory.found_once(),
        in_order(entries),
        entries.to_multiset() == inventory.entries@.to_multiset(),
        0 <= i < entries.len(),
        0 <= j < entries.len(),
        entries[i].directory@ == name,
        entries[j].directory@ == name,
    ensures
        i == j,
        inventory.found(name),
{
    reordering_keeps(inventory.entries@, entries);
    assert(inventory.entries@.contains(entries[i]));
    let k = choose|k: int| 0 <= k < inventory.entries@.len() && inventory.entries@[k] == entries[i];
    assert(inventory.found(inventory.entries@[k].directory@));
    precedes_is_total(name, name);
    if i < j {
        assert(precedes(entries[i].directory@, entries[j].directory@));
    } else if j < i {
        assert(precedes(entries[j].directory@, entries[i].directory@));
    }
}

/// A file of a reviewed import.
#[derive(Clone, Debug)]
pub struct CatalogReviewedFile {
    pub path: String,
    pub bytes: u64,
    pub sha256: String,
    pub matches_catalog: Option<bool>,
}

impl Keyed for CatalogReviewedFile {
    open spec fn key(&self) -> Seq<char> {
        self.path@
    }

    fn key_text(&self) -> &String {
        &self.path
    }
}

/// What a review found in an import.
#[derive(Clone, Debug)]
pub struct CatalogDirectoryReview {
    pub directory: String,
    pub sha256: String,
    pub bytes: u64,
    pub files: Vec<CatalogReviewedFile>,
    pub missing_files: Vec<String>,
}

impl View for CatalogReviewedFile {
    type V = (Seq<char>, u64, Seq<char>, Option<bool>);

    open spec fn view(&self) -> (Seq<char>, u64, Seq<char>, Option<bool>) {
        (self.path@, self.bytes, self.sha256@, self.matches_catalog)
    }
}

/// Reviewed files as values.
pub open spec fn file_views(files: Seq<CatalogReviewedFile>) -> Seq<
    (Seq<char>, u64, Seq<char>, Option<bool>),
> {
    files.map_values(|f: CatalogReviewedFile| f@)
}

impl View for CatalogDirectoryReview {
    type V = (
        Seq<char>,
        Seq<char>,
        u64,
        Seq<(Seq<char>, u64, Seq<char>, Option<bool>)>,
        Seq<Seq<char>>,
    );

    open spec fn view(&self) -> (
        Seq<char>,
        Seq<char>,
        u64,
        Seq<(Seq<char>, u64, Seq<char>, Option<bool>)>,
        Seq<Seq<char>>,
    ) {
        (
            self.directory@,
            self.sha256@,
            self.bytes,
            file_views(self.files@),
            text::texts(self.missing_files@),
        )
    }
}

impl CatalogDirectoryReview {
    /// The same review once more.
    pub fn copy(&self) -> (r: CatalogDirectoryReview)
        ensures
            r@ == self@,
    {
        let mut files: Vec<CatalogReviewedFile> = Vec::new();
        let mut i: usize = 0;
        while i < self.files.len()
            invariant
                i <= self.files@.len(),
                files@ == self.files@.take(i as int),
            decreases self.files@.len() - i,
        {
            let f = &self.files[i];
            files.push(
                CatalogReviewedFile {
                    path: f.path.clone(),
                    bytes: f.bytes,
                    sha256: f.sha256.clone(),
                    matches_catalog: f.matches_catalog,
                },
            );
            i += 1;
            assert(self.files@.take(i as int) =~= self.files@.take(i - 1).push(self.files@[i - 1]));
        }
        assert(self.files@.take(i as int) =~= self.files@);
        CatalogDirectoryReview {
            directory: self.directory.clone(),
            sha256: self.sha256.clone(),
            bytes: self.bytes,
            files,
            missing_files: text::copy_texts(&self.missing_files),
        }
    }
}

/// A content digest that was computed for a file.
pub struct Hashed {
    pub dev: u64,
    pub ino: u64,
    pub digest: String,
}

/// What reviewing a directory does next.
#[derive(Clone, Copy, Debug, PartialEq, Eq, Structural)]
pub enum ScanStep {
    Entries,
    Open,
    Read,
    Failed,
}

/// A review in progress. The content of a file is read once, however many names it has.
pub struct Review {
    pub files: Vec<CatalogReviewedFile>,
    pub hashes: Vec<Hashed>,
    pub bytes: u64,
    pub step: ScanStep,
    /// The file that is being read, and how much of it was read.
    pub name: String,
    pub meta: Metadata,
    pub size: u64,
    pub hasher: Option<Hasher>,
    /// What was read of it.
    pub content: Ghost<Seq<u8>>,
    /// The content of each listed file, and of each file with a digest.
    pub contents: Ghost<Seq<Seq<u8>>>,
    pub known: Ghost<Seq<Seq<u8>>>,
}

/// The first digest from `i` on for a file, or the number of digests.
pub open spec fn hashed_from(hashes: Seq<Hashed>, meta: Metadata, i: int) -> int
    decreases hashes.len() - i,
{
    if i >= hashes.len() {
        hashes.len() as int
    } else if hashes[i].dev == meta.dev && hashes[i].ino == meta.ino {
        i
    } else {
        hashed_from(hashes, meta, i + 1)
    }
}

/// Why a review refuses a file that was opened.
pub open spec fn review_complaint(r: Review, found: Result<Metadata, String>) -> Option<Seq<char>> {
    match found {
        Err(e) => Some(e@),
        Ok(meta) => if !(meta.kind == FileKind::File && meta.len <= MAX_FILE_BYTES) {
            Some("Managed review requires bounded regular files"@)
        } else if hashed_from(r.hashes@, meta, 0) >= r.hashes@.len() && r.hashes@.len() >= 4096 {
            Some("Managed review exceeds 4096 media objects"@)
        } else {
            None
        },
    }
}

/// How many bytes some contents have.
pub open spec fn content_bytes(contents: Seq<Seq<u8>>) -> nat
    decreases contents.len(),
{
    if contents.len() == 0 {
        0
    } else {
        content_bytes(contents.drop_last()) + contents.last().len()
    }
}

/// Whether a listed file is described by its name, its size and its content.
pub open spec fn describes(
    f: CatalogReviewedFile,
    name: Seq<char>,
    bytes: u64,
    content: Seq<u8>,
) -> bool {
    &&& f.path@ == name
    &&& f.bytes == bytes
    &&& f.sha256@ == fingerprint(content)
    &&& f.matches_catalog == Some(stem(name) == fingerprint(content))
}

/// Whether a review is another one with one more file, and waits for the next.
pub open spec fn review_adds(
    before: Review,
    after: Review,
    name: Seq<char>,
    bytes: u64,
    content: Seq<u8>,
) -> bool {
    &&& after.step == ScanStep::Entries
    &&& after.files@.len() == before.files@.len() + 1
    &&& after.files@.drop_last() == before.files@
    &&& describes(after.files@.last(), name, bytes, content)
    &&& after.contents@ == before.contents@.push(content)
}

proof fn hashed_from_finds(hashes: Seq<Hashed>, meta: Metadata, i: int)
    requires
        0 <= i <= hashes.len(),
    ensures
        i <= hashed_from(hashes, meta, i) <= hashes.len(),
        forall|k: int|
            i <= k < hashed_from(hashes, meta, i) ==> !((#[trigger] hashes[k]).dev == meta.dev
                && hashes[k].ino == meta.ino),
    decreases hashes.len() - i,
{
    if i < hashes.len() {
        hashed_from_finds(hashes, meta, i + 1);
    }
}

impl Review {
    /// Each listed file has the digest of its content, and each file was read once.
    pub open spec fn wf(self) -> bool {
        self.step != ScanStep::Failed ==> {
            &&& self.files@.len() <= 8192
            &&& self.hashes@.len() <= 4096
            &&& self.contents@.len() == self.files@.len()
            &&& forall|i: int|
                0 <= i < self.files@.len() ==> {
                    let f = #[trigger] self.files@[i];
                    &&& f.sha256@ == fingerprint(self.contents@[i])
                    &&& f.matches_catalog == Some(stem(f.path@) == f.sha256@)
                }
            &&& self.known@.len() == self.hashes@.len()
            &&& forall|k: int|
                0 <= k < self.hashes@.len() ==> (#[trigger] self.hashes@[k]).digest@ == fingerprint(
                    self.known@[k],
                )
            &&& forall|k: int, m: int|
                0 <= k < m < self.hashes@.len() ==> !((#[trigger] self.hashes@[k]).dev == (
                #[trigger] self.hashes@[m]).dev && self.hashes@[k].ino == self.hashes@[m].ino)
            &&& self.bytes == content_bytes(self.known@)
            &&& self.bytes <= MAX_STORE_BYTES
            &&& self.step == ScanStep::Open || self.step == ScanStep::Read ==> self.files@.len()
                < 8192
            &&& self.step == ScanStep::Read ==> {
                &&& self.hashes@.len() < 4096
                &&& hashed_from(self.hashes@, self.meta, 0) == self.hashes@.len()
                &&& self.size == self.content@.len()
                &&& self.size <= self.meta.len <= MAX_FILE_BYTES
                &&& self.hasher is Some
                &&& absorbed(self.hasher->0) == self.content@
            }
        }
    }

    pub fn new() -> (r: Review)
        ensures
            r.wf(),
            r.step == ScanStep::Entries,
            r.files@.len() == 0,
            r.hashes@.len() == 0,
            r.bytes == 0,
            r.contents@ == Seq::<Seq<u8>>::empty(),
            r.known@ == Seq::<Seq<u8>>::empty(),
    {
        Review {
            files: Vec::new(),
            hashes: Vec::new(),
            bytes: 0,
            step: ScanStep::Entries,
            name: String::new(),
            meta: Metadata {
                kind: FileKind::File,
                uid: 0,
                gid: 0,
                mode: 0,
                dev: 0,
                ino: 0,
                len: 0,
                nlink: 0,
                mtime: 0,
                mtime_nsec: 0,
                ctime: 0,
                ctime_nsec: 0,
            },
            size: 0,
            hasher: None,
            content: Ghost(Seq::empty()),
            contents: Ghost(Seq::empty()),
            known: Ghost(Seq::empty()),
        }
    }

    fn fail(&mut self, reason: &str) -> (r: Result<(), String>)
        ensures
            final(self).step == ScanStep::Failed,
            r is Err,
            r->Err_0@ == reason@,
    {
        self.step = ScanStep::Failed;
        Err(reason.to_owned())
    }

    /// One more entry of the directory comes.
    pub fn next(&mut self, elapsed_ms: u64) -> (r: Result<(), String>)
        requires
            old(self).wf(),
            old(self).step == ScanStep::Entries,
        ensures
            final(self).wf(),
            match r {
                Ok(_) => old(self).files@.len() < 8192 && elapsed_ms < REVIEW_MS && *final(self) == (Review {
                    step: ScanStep::Open,
                    ..*old(self)
                }),
                Err(e) => (old(self).files@.len() >= 8192 || elapsed_ms >= REVIEW_MS) && final(self).step
                    == ScanStep::Failed && e@
                    == "Managed import review exceeded its entry or time limit"@,
            },
    {
        let late = elapsed_ms >= REVIEW_MS;
        if !(self.files.len() < 8192 && !late) {
            return self.fail("Managed import review exceeded its entry or time limit");
        }
        self.step = ScanStep::Open;
        Ok(())
    }

    fn list(&mut self, name: &str, bytes: u64, digest: &str)
        ensures
            final(self).files@.len() == old(self).files@.len() + 1,
            final(self).files@.drop_last() == old(self).files@,
            final(self).files@.last().path@ == name@,
            final(self).files@.last().bytes == bytes,
            final(self).files@.last().sha256@ == digest@,
            final(self).files@.last().matches_catalog == Some(stem(name@) == digest@),
            *final(self) == (Review {
                step: ScanStep::Entries,
                files: final(self).files,
                ..*old(self)
            }),
    {
        let ghost before = self.files@;
        let matching = text::eq(stem_of(name).as_str(), digest);
        self.files.push(
            CatalogReviewedFile {
                path: name.to_owned(),
                bytes,
                sha256: digest.to_owned(),
                matches_catalog: Some(matching),
            },
        );
        assert(self.files@.drop_last() =~= before);
        self.step = ScanStep::Entries;
    }

    /// The entry, where it could be opened. A file that was read under another name is not read
    /// again.
    pub fn opened(&mut self, name: &str, found: &Result<Metadata, String>) -> (r: Result<
        (),
        String,
    >)
        requires
            old(self).wf(),
            old(self).step == ScanStep::Open,
        ensures
            final(self).wf(),
            match r {
                Err(e) => review_complaint(*old(self), *found) == Some(e@) && final(self).step
                    == ScanStep::Failed,
                Ok(_) => {
                    let at = hashed_from(old(self).hashes@, found->Ok_0, 0);
                    &&& review_complaint(*old(self), *found) is None
                    &&& if at < old(self).hashes@.len() {
                        &&& review_adds(
                            *old(self),
                            *final(self),
                            name@,
                            found->Ok_0.len,
                            old(self).known@[at],
                        )
                        &&& final(self).hashes == old(self).hashes
                        &&& final(self).known == old(self).known
                        &&& final(self).bytes == old(self).bytes
                    } else {
                        &&& *final(self) == (Review {
                            step: ScanStep::Read,
                            name: final(self).name,
                            meta: found->Ok_0,
                            size: 0,
                            hasher: final(self).hasher,
                            content: Ghost(Seq::empty()),
                            ..*old(self)
                        })
                        &&& final(self).name@ == name@
                    }
                },
            },
    {
        let meta = match found {
            Err(e) => return self.fail(e.as_str()),
            Ok(meta) => meta,
        };
        if !(meta.kind == FileKind::File && meta.len <= MAX_FILE_BYTES) {
            return self.fail("Managed review requires bounded regular files");
        }
        let mut i: usize = 0;
        while i < self.hashes.len() && !(self.hashes[i].dev == meta.dev && self.hashes[i].ino
            == meta.ino)
            invariant
                *self == *old(self),
                i <= self.hashes@.len(),
                hashed_from(self.hashes@, *meta, 0) == hashed_from(self.hashes@, *meta, i as int),
            decreases self.hashes@.len() - i,
        {
            i += 1;
        }
        if i < self.hashes.len() {
            let digest = self.hashes[i].digest.clone();
            let ghost content = self.known@[i as int];
            self.list(name, meta.len, digest.as_str());
            self.contents = Ghost(self.contents@.push(content));
            proof {
                self.listing_stays(*old(self), content);
            }
            return Ok(());
        }
        if self.hashes.len() >= 4096 {
            return self.fail("Managed review exceeds 4096 media objects");
        }
        self.name = name.to_owned();
        self.meta = *meta;
        self.size = 0;
        self.hasher = Some(Hasher::new());
        self.content = Ghost(Seq::empty());
        self.step = ScanStep::Read;
        Ok(())
    }

    /// The listing with one more file is right where the one before was.
    proof fn listing_stays(self, before: Review, content: Seq<u8>)
        requires
            before.wf(),
            before.step != ScanStep::Failed,
            self.files@.len() == before.files@.len() + 1,
            self.files@.drop_last() == before.files@,
            self.contents@ == before.contents@.push(content),
            self.files@.last().sha256@ == fingerprint(content),
            self.files@.last().matches_catalog == Some(
                stem(self.files@.last().path@) == self.files@.last().sha256@,
            ),
        ensures
            forall|i: int|
                0 <= i < self.files@.len() ==> {
                    let f = #[trigger] self.files@[i];
                    &&& f.sha256@ == fingerprint(self.contents@[i])
                    &&& f.matches_catalog == Some(stem(f.path@) == f.sha256@)
                },
    {
        assert forall|i: int| 0 <= i < self.files@.len() implies {
            let f = #[trigger] self.files@[i];
            &&& f.sha256@ == fingerprint(self.contents@[i])
            &&& f.matches_catalog == Some(stem(f.path@) == f.sha256@)
        } by {
            if i < before.files@.len() {
                assert(self.files@.drop_last()[i] == self.files@[i]);
                assert(before.files@[i].sha256@ == fingerprint(before.contents@[i]));
            }
        }
    }

    /// The next piece of the file, where it could be read. An empty one is its end.
    pub fn read(&mut self, elapsed_ms: u64, piece: &Result<Vec<u8>, String>) -> (r: Result<(), String>)
        requires
            old(self).wf(),
            old(self).step == ScanStep::Read,
        ensures
            final(self).wf(),
            ({
                let before = *old(self);
                let bytes = piece->Ok_0@;
                let complaint = if elapsed_ms >= REVIEW_MS {
                    Some("Managed review exceeded ten minutes"@)
                } else if *piece is Err {
                    Some(piece->Err_0@)
                } else if before.content@.len() + bytes.len() > before.meta.len {
                    Some("Managed media grew during review"@)
                } else if bytes.len() == 0 && before.content@.len() != before.meta.len {
                    Some("Managed media shrank during review"@)
                } else if bytes.len() == 0 && before.bytes + before.meta.len > MAX_STORE_BYTES {
                    Some("Managed review exceeds 8 GiB"@)
                } else {
                    None
                };
                match r {
                    Err(e) => complaint == Some(e@) && final(self).step == ScanStep::Failed,
                    Ok(_) => {
                        &&& complaint is None
                        &&& if bytes.len() > 0 {
                            *final(self) == (Review {
                                size: (before.size + bytes.len()) as u64,
                                hasher: final(self).hasher,
                                content: Ghost(before.content@ + bytes),
                                ..before
                            })
                        } else {
                            let h = final(self).hashes@.last();
                            &&& review_adds(
                                before,
                                *final(self),
                                before.name@,
                                before.meta.len,
                                before.content@,
                            )
                            &&& final(self).hashes@.len() == before.hashes@.len() + 1
                            &&& final(self).hashes@.drop_last() == before.hashes@
                            &&& h.dev == before.meta.dev && h.ino == before.meta.ino
                            &&& h.digest@ == fingerprint(before.content@)
                            &&& final(self).known@ == before.known@.push(before.content@)
                            &&& final(self).bytes == before.bytes + before.meta.len
                        }
                    },
                }
            }),
    {
        let late = elapsed_ms >= REVIEW_MS;
        if late {
            return self.fail("Managed review exceeded ten minutes");
        }
        let bytes = match piece {
            Err(e) => return self.fail(e.as_str()),
            Ok(bytes) => bytes,
        };
        let hasher = match self.hasher.take() {
            Some(hasher) => hasher,
            None => {
                return Ok(());
            },
        };
        if bytes.len() > 0 {
            let count: u64 = bytes.len() as u64;
            if count > self.meta.len - self.size {
                return self.fail("Managed media grew during review");
            }
            let mut hasher = hasher;
            hasher.update(bytes.as_slice());
            self.hasher = Some(hasher);
            self.size = self.size + count;
            self.content = Ghost(self.content@ + bytes@);
            return Ok(());
        }
        if self.size != self.meta.len {
            return self.fail("Managed media shrank during review");
        }
        self.bytes = self.bytes + self.size;
        if self.bytes > MAX_STORE_BYTES {
            return self.fail("Managed review exceeds 8 GiB");
        }
        let digest = hasher.finish();
        let ghost content = self.content@;
        let ghost before = self.hashes@;
        self.hashes.push(
            Hashed { dev: self.meta.dev, ino: self.meta.ino, digest: digest.clone() },
        );
        self.known = Ghost(self.known@.push(content));
        let name = self.name.clone();
        let length: u64 = self.meta.len;
        self.list(name.as_str(), length, digest.as_str());
        self.contents = Ghost(self.contents@.push(content));
        proof {
            assert(self.hashes@.drop_last() =~= before);
            assert(self.known@.drop_last() =~= old(self).known@);
            self.listing_stays(*old(self), content);
            hashed_from_finds(before, self.meta, 0);
            assert forall|k: int| 0 <= k < self.hashes@.len() implies (
            #[trigger] self.hashes@[k]).digest@ == fingerprint(self.known@[k]) by {
                if k < before.len() {
                    assert(before[k].digest@ == fingerprint(old(self).known@[k]));
                }
            }
            assert forall|k: int, m: int| 0 <= k < m < self.hashes@.len() implies !((
            #[trigger] self.hashes@[k]).dev == (#[trigger] self.hashes@[m]).dev
                && self.hashes@[k].ino == self.hashes@[m].ino) by {
                if m < before.len() {
                    assert(!(before[k].dev == before[m].dev && before[k].ino == before[m].ino));
                } else {
                    assert(!(before[k].dev == self.meta.dev && before[k].ino == self.meta.ino));
                }
            }
        }
        Ok(())
    }

    /// The review of a directory whose fingerprint was `before` at its beginning.
    pub fn finish(self, id: &str, before: &str, after: &str, elapsed_ms: u64) -> (r: Result<
        CatalogDirectoryReview,
        String,
    >)
        requires
            self.wf(),
            self.step == ScanStep::Entries,
        ensures
            match r {
                Ok(review) => {
                    &&& before@ == after@
                    &&& elapsed_ms < REVIEW_MS
                    &&& review.directory@ == id@
                    &&& review.sha256@ == before@
                    &&& review.bytes == self.bytes
                    &&& in_order(review.files@)
                    &&& review.files@.to_multiset() == self.files@.to_multiset()
                    &&& review.missing_files@.len() == 0
                },
                Err(e) => if before@ != after@ {
                    e@ == "Managed import changed during content review"@
                } else {
                    elapsed_ms >= REVIEW_MS && e@ == "Managed review exceeded ten minutes"@
                },
            },
    {
        let late = elapsed_ms >= REVIEW_MS;
        if !text::eq(before, after) {
            return Err("Managed import changed during content review".to_owned());
        }
        if late {
            return Err("Managed review exceeded ten minutes".to_owned());
        }
        Ok(
            CatalogDirectoryReview {
                directory: id.to_owned(),
                sha256: before.to_owned(),
                bytes: self.bytes,
                files: sort(self.files),
                missing_files: Vec::new(),
            },
        )
    }
}

/// Every file of a review has the digest of the content that was read of it, and the bytes are those
/// of the contents, each read once.
pub proof fn reviews_hold_what_was_read(review: Review, i: int)
    requires
        review.wf(),
        review.step == ScanStep::Entries,
        0 <= i < review.files@.len(),
    ensures
        review.files@[i].sha256@ == fingerprint(review.contents@[i]),
        review.files@[i].matches_catalog == Some(
            stem(review.files@[i].path@) == fingerprint(review.contents@[i]),
        ),
        review.bytes == content_bytes(review.known@),
        review.bytes <= MAX_STORE_BYTES,
{
}

/// Whether an import may be reviewed, from its verification before and after.
pub fn check_review(verified: bool, before: bool) -> (r: Result<(), String>)
    ensures
        match r {
            Ok(_) => verified,
            Err(e) => !verified && e@ == if before {
                "Managed import ownership is unverified"@
            } else {
                "Managed import changed during content review"@
            },
        },
{
    if verified {
        Ok(())
    } else if before {
        Err("Managed import ownership is unverified".to_owned())
    } else {
        Err("Managed import changed during content review".to_owned())
    }
}

/// What stands of an import, in the order of looking.
pub struct Standing {
    /// The directory of the configuration.
    pub root: Result<Metadata, String>,
    /// The directory of the media there.
    pub media: Result<Metadata, String>,
    /// The directory of the receipts, where there is one.
    pub receipts: Result<Option<Metadata>, String>,
    pub receipt: Result<Option<ReceiptFile>, String>,
    /// The directory of the imports.
    pub imports: Result<Metadata, String>,
    /// The directory of this one.
    pub directory: Result<Metadata, String>,
    /// The fingerprint of its content.
    pub fingerprint: Result<String, String>,
}

/// What speaks against a directory that was to be opened.
pub open spec fn opened_complaint(opened: Result<Metadata, String>, uid: u32) -> Option<Seq<char>> {
    match opened {
        Err(e) => Some(e@),
        Ok(m) => directory_complaint(m, uid),
    }
}

fn opened(found: &Result<Metadata, String>, uid: u32) -> (r: Result<u64, String>)
    ensures
        match opened_complaint(*found, uid) {
            Some(e) => r matches Err(text) && text@ == e,
            None => r == Ok::<u64, String>(found->Ok_0.ino),
        },
{
    match found {
        Err(e) => Err(e.clone()),
        Ok(m) => {
            open_directory(m, uid)?;
            Ok(m.ino)
        },
    }
}

/// Whether an import has a receipt and is still what that says.
pub open spec fn ownership_of(id: Seq<char>, found: Standing, uid: u32) -> Result<bool, Seq<char>> {
    if !valid_id(id) {
        Err("Invalid managed import ID"@)
    } else if opened_complaint(found.root, uid) is Some {
        Err(opened_complaint(found.root, uid)->0)
    } else if opened_complaint(found.media, uid) is Some {
        Err(opened_complaint(found.media, uid)->0)
    } else {
        match found.receipts {
            Err(e) => Err(e@),
            Ok(None) => Ok(false),
            Ok(Some(m)) => if directory_complaint(m, uid) is Some {
                Err(directory_complaint(m, uid)->0)
            } else {
                match read_of(id, found.receipt, uid) {
                    Err(e) => Err(e),
                    Ok(None) => Ok(false),
                    Ok(Some(receipt)) => if opened_complaint(found.imports, uid) is Some {
                        Err(opened_complaint(found.imports, uid)->0)
                    } else if opened_complaint(found.directory, uid) is Some {
                        Err(opened_complaint(found.directory, uid)->0)
                    } else {
                        match verified_of(
                            receipt,
                            found.imports->Ok_0.ino,
                            found.directory->Ok_0.ino,
                            match found.fingerprint {
                                Ok(f) => Ok(f@),
                                Err(e) => Err(e@),
                            },
                        ) {
                            Err(e) => Err(e),
                            Ok(_) => Ok(true),
                        }
                    },
                }
            },
        }
    }
}

/// Compares an import with its receipt, where it has one: the directories by their numbers and the
/// content by its fingerprint.
pub fn verify(id: &str, found: Standing, uid: u32) -> (r: Result<bool, String>)
    ensures
        outcome(r) == ownership_of(id@, found, uid),
{
    validate_id(id)?;
    opened(&found.root, uid)?;
    opened(&found.media, uid)?;
    match &found.receipts {
        Err(e) => {
            return Err(e.clone());
        },
        Ok(None) => {
            return Ok(false);
        },
        Ok(Some(m)) => {
            open_directory(m, uid)?;
        },
    }
    match read(id, found.receipt, uid)? {
        None => Ok(false),
        Some(receipt) => {
            let imports_inode: u64 = opened(&found.imports, uid)?;
            let directory_inode: u64 = opened(&found.directory, uid)?;
            let fingerprint = match &found.fingerprint {
                Ok(f) => Ok(f.as_str()),
                Err(e) => Err(e.clone()),
            };
            compare(&receipt, imports_inode, directory_inode, fingerprint)?;
            Ok(true)
        },
    }
}

/// What speaks against an import that was compared with its receipt, with the words for one that has
/// none.
pub open spec fn owned_complaint(owned: Result<bool, Seq<char>>, words: Seq<char>) -> Option<
    Seq<char>,
> {
    match owned {
        Err(e) => Some(e),
        Ok(verified) => if verified {
            None
        } else {
            Some(words)
        },
    }
}

/// Where the review of an import stands.
#[derive(Clone, Copy, Debug, PartialEq, Eq, Structural)]
pub enum ReviewStep {
    CheckRemoval,
    CheckOrphan,
    VerifyBefore,
    Review,
    VerifyAfter,
    Reviewed,
    Failed,
}

pub open spec fn reviewing_rank(step: ReviewStep) -> int {
    match step {
        ReviewStep::CheckRemoval => 0,
        ReviewStep::CheckOrphan => 1,
        ReviewStep::VerifyBefore => 2,
        ReviewStep::Review => 3,
        ReviewStep::VerifyAfter => 4,
        ReviewStep::Reviewed => 5,
        ReviewStep::Failed => 6,
    }
}

/// Content is read only where neither a removal nor a lone record was found.
pub open spec fn reviewing_takes(step: ReviewStep, removal: bool, orphan: bool) -> bool {
    match step {
        ReviewStep::CheckOrphan => !removal,
        ReviewStep::VerifyBefore | ReviewStep::Review | ReviewStep::VerifyAfter => !removal
            && !orphan,
        _ => true,
    }
}

/// The review of an import: a removal under way and a record without its import come first, and
/// what is left is verified before and after its content is read.
pub struct Reviewing {
    /// The import.
    pub id: String,
    /// Whether a removal is under way.
    pub removal: bool,
    /// Whether only the record is left.
    pub orphan: bool,
    pub review: Option<CatalogDirectoryReview>,
    pub step: ReviewStep,
    pub error: String,
    /// The steps that succeeded, in order.
    pub log: Ghost<Seq<ReviewStep>>,
}

pub open spec fn reviewing_stops(before: Reviewing, after: Reviewing, text: Seq<char>) -> bool {
    after == (Reviewing { step: ReviewStep::Failed, error: after.error, ..before })
        && after.error@ == text
}

pub open spec fn reviewing_moves(before: Reviewing, after: Reviewing, next: ReviewStep) -> bool {
    after == (Reviewing { step: next, log: Ghost(before.log@.push(before.step)), ..before })
}

impl Reviewing {
    /// Every step taken before the present one succeeded.
    pub open spec fn wf(self) -> bool {
        self.step != ReviewStep::Failed ==> {
            &&& forall|s: ReviewStep|
                reviewing_rank(s) < reviewing_rank(self.step)
                    && reviewing_takes(s, self.removal, self.orphan) ==> #[trigger] self.log@.contains(s)
            &&& reviewing_rank(self.step) < 5 ==> !self.removal && !self.orphan
            &&& self.step == ReviewStep::VerifyAfter || self.step == ReviewStep::Reviewed ==> self.review is Some
            &&& self.review matches Some(review) ==> review.directory@ == self.id@
        }
    }

    pub fn begin(id: &str) -> (r: Reviewing)
        ensures
            r.wf(),
            r.id@ == id@,
            r.step == ReviewStep::CheckRemoval,
            r.log@ == Seq::<ReviewStep>::empty(),
            !r.removal,
            !r.orphan,
            r.review is None,
    {
        Reviewing {
            id: id.to_owned(),
            removal: false,
            orphan: false,
            review: None,
            step: ReviewStep::CheckRemoval,
            error: String::new(),
            log: Ghost(Seq::empty()),
        }
    }

    fn advance(&mut self, next: ReviewStep)
        requires
            (Reviewing {
                step: next,
                log: Ghost(old(self).log@.push(old(self).step)),
                ..*old(self)
            }).wf(),
        ensures
            final(self).wf(),
            reviewing_moves(*old(self), *final(self), next),
    {
        self.log = Ghost(self.log@.push(self.step));
        self.step = next;
    }

    /// A step could not be done.
    pub fn failed(&mut self, reason: &str)
        ensures
            final(self).wf(),
            reviewing_stops(*old(self), *final(self), reason@),
    {
        self.step = ReviewStep::Failed;
        self.error = reason.to_owned();
    }

    /// A removal under way was looked for, with its review.
    pub fn removal(&mut self, found: Option<CatalogDirectoryReview>)
        requires
            old(self).wf(),
            old(self).step == ReviewStep::CheckRemoval,
            found matches Some(review) ==> review.directory@ == old(self).id@,
        ensures
            final(self).wf(),
            match found {
                Some(_) => *final(self) == (Reviewing {
                    removal: true,
                    review: found,
                    step: ReviewStep::Reviewed,
                    log: Ghost(old(self).log@.push(old(self).step)),
                    ..*old(self)
                }),
                None => reviewing_moves(*old(self), *final(self), ReviewStep::CheckOrphan),
            },
    {
        proof {
            steps::push_holds(self.log@, self.step);
        }
        if found.is_some() {
            self.removal = true;
            self.review = found;
            self.advance(ReviewStep::Reviewed);
        } else {
            self.advance(ReviewStep::CheckOrphan);
        }
    }

    /// A record without its import was looked for, with its review.
    pub fn orphan(&mut self, found: Option<CatalogDirectoryReview>)
        requires
            old(self).wf(),
            old(self).step == ReviewStep::CheckOrphan,
            found matches Some(review) ==> review.directory@ == old(self).id@,
        ensures
            final(self).wf(),
            match found {
                Some(_) => *final(self) == (Reviewing {
                    orphan: true,
                    review: found,
                    step: ReviewStep::Reviewed,
                    log: Ghost(old(self).log@.push(old(self).step)),
                    ..*old(self)
                }),
                None => reviewing_moves(*old(self), *final(self), ReviewStep::VerifyBefore),
            },
    {
        proof {
            steps::push_holds(self.log@, self.step);
        }
        if found.is_some() {
            self.orphan = true;
            self.review = found;
            self.advance(ReviewStep::Reviewed);
        } else {
            self.advance(ReviewStep::VerifyBefore);
        }
    }

    /// What stands of the import, which is compared with its receipt.
    pub fn verified(&mut self, found: Standing, uid: u32)
        requires
            old(self).wf(),
            old(self).step == ReviewStep::VerifyBefore,
        ensures
            final(self).wf(),
            match owned_complaint(
                ownership_of(old(self).id@, found, uid),
                "Managed import ownership is unverified"@,
            ) {
                Some(e) => reviewing_stops(*old(self), *final(self), e),
                None => reviewing_moves(*old(self), *final(self), ReviewStep::Review),
            },
    {
        let owned = match verify(self.id.as_str(), found, uid) {
            Err(e) => Err(e),
            Ok(verified) => check_review(verified, true),
        };
        match owned {
            Err(e) => {
                self.failed(e.as_str());
            },
            Ok(_) => {
                proof {
                    steps::push_holds(self.log@, self.step);
                }
                self.advance(ReviewStep::Review);
            },
        }
    }

    /// What came of reading the content.
    pub fn reviewed(&mut self, review: Result<CatalogDirectoryReview, String>)
        requires
            old(self).wf(),
            old(self).step == ReviewStep::Review,
            review matches Ok(review) ==> review.directory@ == old(self).id@,
        ensures
            final(self).wf(),
            match review {
                Err(e) => reviewing_stops(*old(self), *final(self), e@),
                Ok(review) => *final(self) == (Reviewing {
                    review: Some(review),
                    step: ReviewStep::VerifyAfter,
                    log: Ghost(old(self).log@.push(old(self).step)),
                    ..*old(self)
                }),
            },
    {
        match review {
            Err(e) => {
                self.failed(e.as_str());
            },
            Ok(review) => {
                self.review = Some(review);
                proof {
                    steps::push_holds(self.log@, self.step);
                }
                self.advance(ReviewStep::VerifyAfter);
            },
        }
    }

    /// What stands of the import now, which is compared with its receipt once more.
    pub fn confirmed(&mut self, found: Standing, uid: u32)
        requires
            old(self).wf(),
            old(self).step == ReviewStep::VerifyAfter,
        ensures
            final(self).wf(),
            match owned_complaint(
                ownership_of(old(self).id@, found, uid),
                "Managed import changed during content review"@,
            ) {
                Some(e) => reviewing_stops(*old(self), *final(self), e),
                None => reviewing_moves(*old(self), *final(self), ReviewStep::Reviewed),
            },
    {
        let owned = match verify(self.id.as_str(), found, uid) {
            Err(e) => Err(e),
            Ok(verified) => check_review(verified, false),
        };
        match owned {
            Err(e) => {
                self.failed(e.as_str());
            },
            Ok(_) => {
                proof {
                    steps::push_holds(self.log@, self.step);
                }
                self.advance(ReviewStep::Reviewed);
            },
        }
    }
}

/// A review of content counts only where the import agreed with its receipt before and after.
pub proof fn reviewed_imports_are_verified(m: Reviewing)
    requires
        m.wf(),
        m.step == ReviewStep::Reviewed,
    ensures
        m.review is Some,
        m.review->0.directory@ == m.id@,
        !m.removal && !m.orphan ==> m.log@.contains(ReviewStep::VerifyBefore) && m.log@.contains(
            ReviewStep::VerifyAfter,
        ),
{
}

/// A receipt is read exactly where there is none, or a private file of at most 4 KiB that is known by
/// one name holds one of the first version for that import, with a digest.
pub proof fn receipts_are_read_from_private_files(
    id: Seq<char>,
    found: Result<Option<ReceiptFile>, String>,
    uid: u32,
)
    ensures
        ({
            let file = found->Ok_0->0;
            let receipt = file.receipt->Ok_0;
            let read = read_of(id, found, uid);
            &&& read is Ok <==> {
                &&& text::hex_of_len(id, 32)
                &&& found is Ok
                &&& found->Ok_0 is Some ==> {
                    &&& private_file(file.meta, uid)
                    &&& file.meta.nlink == 1
                    &&& file.meta.len <= 4096
                    &&& file.bytes <= 4096
                    &&& file.receipt is Ok
                    &&& receipt.version == 1
                    &&& receipt.id@ == id
                    &&& text::hex_of_len(receipt.fingerprint@, 64)
                }
            }
            &&& read is Ok ==> (read->Ok_0 is Some <==> found->Ok_0 is Some)
            &&& read is Ok && found->Ok_0 is Some ==> read->Ok_0 == Some(receipt)
        }),
{
}

/// An import is owned exactly where its receipt can be read and names the directory of imports, the
/// directory of this one and the content that are there, all of them in directories that only the
/// account can write. Without receipts, or without this one, it is not owned, and nothing else is
/// found out.
pub proof fn imports_are_owned_by_their_receipt(id: Seq<char>, found: Standing, uid: u32)
    ensures
        ({
            let owned = ownership_of(id, found, uid);
            let receipt = read_of(id, found.receipt, uid)->Ok_0->0;
            let reached = {
                &&& text::hex_of_len(id, 32)
                &&& found.root is Ok && directory_complaint(found.root->Ok_0, uid) is None
                &&& found.media is Ok && directory_complaint(found.media->Ok_0, uid) is None
            };
            let kept = {
                &&& found.receipts is Ok && found.receipts->Ok_0 is Some
                &&& directory_complaint(found.receipts->Ok_0->0, uid) is None
                &&& read_of(id, found.receipt, uid) is Ok
            };
            &&& owned == Ok::<bool, Seq<char>>(true) <==> {
                &&& reached && kept
                &&& read_of(id, found.receipt, uid)->Ok_0 is Some
                &&& found.imports is Ok && directory_complaint(found.imports->Ok_0, uid) is None
                &&& found.directory is Ok && directory_complaint(found.directory->Ok_0, uid) is None
                &&& found.imports->Ok_0.ino == receipt.imports_inode
                &&& found.directory->Ok_0.ino == receipt.directory_inode
                &&& found.fingerprint is Ok
                &&& found.fingerprint->Ok_0@ == receipt.fingerprint@
            }
            &&& owned == Ok::<bool, Seq<char>>(false) <==> {
                &&& reached
                &&& found.receipts == Ok::<Option<Metadata>, String>(None) || (kept && read_of(
                    id,
                    found.receipt,
                    uid,
                )->Ok_0 is None)
            }
        }),
{
}

/// A record file is named by the import that it is about: the name of one is its identifier with an
/// ending, and no two imports share a name.
pub proof fn records_are_named_by_their_import(id: Seq<char>, words: Seq<char>, name: Seq<char>)
    ensures
        text::hex_of_len(id, 32) ==> record_id(id + ".json"@, words) == Ok::<Seq<char>, Seq<char>>(
            id,
        ),
        record_id(name, words) == Ok::<Seq<char>, Seq<char>>(id) ==> name == id + ".json"@
            && text::hex_of_len(id, 32),
{
    let whole = id + ".json"@;
    assert(whole.take(whole.len() - ".json"@.len()) =~= id);
    assert(whole.skip(whole.len() - ".json"@.len()) =~= ".json"@);
    assert(whole.subrange(whole.len() - ".json"@.len(), whole.len() as int) =~= ".json"@);
    if record_id(name, words) == Ok::<Seq<char>, Seq<char>>(id) {
        assert(name =~= id + ".json"@);
    }
}

/// Ownership can be recorded exactly for a valid identifier and digest, where no other publication
/// has the identifier and the receipt could be kept.
pub proof fn ownership_is_recorded_for_new_imports(
    id: Seq<char>,
    fingerprint: Seq<char>,
    imports_inode: u64,
    directory_inode: u64,
    previous: Result<Option<Receipt>, String>,
    kept: Result<(), String>,
)
    ensures
        kept_complaint(id, fingerprint, imports_inode, directory_inode, previous, kept) is None <==> {
            let before = previous->Ok_0->0;
            &&& text::hex_of_len(id, 32)
            &&& text::hex_of_len(fingerprint, 64)
            &&& previous is Ok
            &&& previous->Ok_0 is Some ==> before.version == 1 && before.id@ == id
                && before.imports_inode == imports_inode && before.directory_inode
                == directory_inode && before.fingerprint@ == fingerprint
            &&& kept is Ok
        },
{
}

/// A file of an import can be reviewed exactly where it could be opened and is a regular file within
/// the size of media, and its content is known or there is room for one more.
pub proof fn bounded_files_are_reviewed(r: Review, found: Result<Metadata, String>)
    ensures
        review_complaint(r, found) is None <==> {
            &&& found is Ok
            &&& found->Ok_0.kind == FileKind::File
            &&& found->Ok_0.len <= MAX_FILE_BYTES
            &&& r.hashes@.len() < 4096 || exists|i: int|
                0 <= i < r.hashes@.len() && (#[trigger] r.hashes@[i]).dev == found->Ok_0.dev
                    && r.hashes@[i].ino == found->Ok_0.ino
        },
{
    if found is Ok {
        digests_are_found(r.hashes@, found->Ok_0, 0);
    }
}

proof fn digests_are_found(hashes: Seq<Hashed>, meta: Metadata, i: int)
    requires
        0 <= i <= hashes.len(),
    ensures
        hashed_from(hashes, meta, i) < hashes.len() <==> exists|k: int|
            i <= k < hashes.len() && (#[trigger] hashes[k]).dev == meta.dev && hashes[k].ino
                == meta.ino,
    decreases hashes.len() - i,
{
    if i < hashes.len() {
        digests_are_found(hashes, meta, i + 1);
        if hashes[i].dev == meta.dev && hashes[i].ino == meta.ino {
            assert(hashed_from(hashes, meta, i) == i);
        }
    }
}

/// An import counts as owned exactly where its ownership could be looked at and was verified.
pub proof fn owned_imports_were_verified(owned: Result<bool, Seq<char>>, words: Seq<char>)
    ensures
        owned_complaint(owned, words) is None <==> owned == Ok::<bool, Seq<char>>(true),
        owned == Ok::<bool, Seq<char>>(false) ==> owned_complaint(owned, words) == Some(words),
        owned is Err ==> owned_complaint(owned, words) == Some(owned->Err_0),
{
}

/// An import is verified exactly where it stands in the recorded directories with the recorded
/// fingerprint.
pub proof fn verified_imports_are_the_recorded_ones(
    receipt: Receipt,
    imports_inode: u64,
    directory_inode: u64,
    found: Result<Seq<char>, Seq<char>>,
)
    ensures
        verified_of(receipt, imports_inode, directory_inode, found) is Ok <==> imports_inode
            == receipt.imports_inode && directory_inode == receipt.directory_inode && found == Ok::<
            Seq<char>,
            Seq<char>,
        >(receipt.fingerprint@),
{
}

/// An entry of the inventory says exactly of verified imports that they are, and names an issue of all
/// others.
pub proof fn inventories_say_what_was_verified(
    e: CatalogStorageEntry,
    name: Seq<char>,
    bytes: u64,
    verified: Result<bool, Seq<char>>,
)
    requires
        directory_entry(e, name, bytes, verified),
    ensures
        e.ownership_verified <==> verified == Ok::<bool, Seq<char>>(true),
        e.issue is None <==> verified == Ok::<bool, Seq<char>>(true),
        e.directory@ == name,
        e.bytes == bytes,
{
}

} // verus!
