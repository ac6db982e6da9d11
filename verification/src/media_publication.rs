//! Managed media: which files may stand in a published directory, what identifies such a directory,
//! and how much of it there may be.

use crate::container_destination::complaint;
use crate::digest::{
    absorbed, collides, counted_texts_are_told_apart, fingerprint,
    fingerprints_tell_contents_apart, le64, le64s, numbers_are_told_apart,
    numbers_in_a_row_are_told_apart, signed_numbers_are_told_apart, Hasher,
};
use crate::files::{private_file, FileKind, Metadata};
use crate::media_ownership;
use crate::media_ownership::{kept_complaint, Receipt};
use crate::order::{less, precedes, precedes_is_total, precedes_is_transitive};
use crate::steps;
use crate::text;
use crate::text::{outcome, prefix, prefixed};
use vstd::prelude::*;
use vstd::utf8::encode_utf8;

verus! {

/// How long the managed media may be counted, in milliseconds.
pub const COUNT_MS: u64 = 5_000;

pub const MAX_ENTRIES: usize = 8192;

pub const MAX_OBJECTS: u64 = 4096;

pub const MAX_FILE_BYTES: u64 = 2_147_483_648;

pub const MAX_STORE_BYTES: u64 = 8_589_934_592;

/// A directory entry.
#[derive(Clone, Debug)]
pub struct Entry {
    pub name: String,
    pub meta: Metadata,
}

/// What stands before the first dot of a name.
pub open spec fn stem(name: Seq<char>) -> Seq<char> {
    match text::split_once_spec(name, '.') {
        Some((a, _)) => a,
        None => name,
    }
}

/// A file extension of one to sixteen letters and digits.
pub open spec fn valid_extension(e: Seq<char>) -> bool {
    1 <= e.len() <= 16 && text::all_alphanumeric(e)
}

/// A media name is a digest in hexadecimal digits, alone for the object itself or with an extension
/// for an alias of it.
pub open spec fn media_name(name: Seq<char>) -> bool {
    match text::split_once_spec(name, '.') {
        Some((hash, extension)) => text::hex_of_len(hash, 64) && valid_extension(extension),
        None => text::hex_of_len(name, 64),
    }
}

/// Whether a name has no extension.
pub open spec fn is_object(name: Seq<char>) -> bool {
    text::split_once_spec(name, '.') is None
}

pub fn is_extension(e: &str) -> (r: bool)
    ensures
        r == valid_extension(e@),
{
    let v = text::chars(e);
    v.len() >= 1 && v.len() <= 16 && text::only_alphanumeric(&v)
}

pub fn is_media_name(name: &str) -> (r: bool)
    ensures
        r == media_name(name@),
{
    match text::split_once(name, '.') {
        Some((hash, extension)) => text::is_hex_of_len(hash.as_str(), 64) && is_extension(
            extension.as_str(),
        ),
        None => text::is_hex_of_len(name, 64),
    }
}

pub fn stem_of(name: &str) -> (r: String)
    ensures
        r@ == stem(name@),
{
    match text::split_once(name, '.') {
        Some((hash, _)) => hash,
        None => name.to_owned(),
    }
}

pub fn names_object(name: &str) -> (r: bool)
    ensures
        r == is_object(name@),
{
    text::split_once(name, '.').is_none()
}

/// A list of entries by name, with `name` put in its place. An entry of the same name is replaced.
pub open spec fn placed(list: Seq<(Seq<char>, Metadata)>, name: Seq<char>, meta: Metadata) -> Seq<
    (Seq<char>, Metadata),
>
    decreases list.len(),
{
    if list.len() == 0 {
        seq![(name, meta)]
    } else if list.last().0 == name {
        list.drop_last().push((name, meta))
    } else if precedes(list.last().0, name) {
        list.push((name, meta))
    } else {
        placed(list.drop_last(), name, meta).push(list.last())
    }
}

/// The first `n` entries in the order of their names.
pub open spec fn by_name(entries: Seq<Entry>, n: int) -> Seq<(Seq<char>, Metadata)>
    decreases n,
{
    if n <= 0 {
        Seq::empty()
    } else {
        placed(by_name(entries, n - 1), entries[n - 1].name@, entries[n - 1].meta)
    }
}

/// The entries of a list as texts.
pub open spec fn listed(list: Seq<Entry>) -> Seq<(Seq<char>, Metadata)> {
    Seq::new(list.len(), |i: int| (list[i].name@, list[i].meta))
}

/// Puts an entry in its place.
fn place(list: &mut Vec<Entry>, name: &String, meta: Metadata)
    ensures
        listed(final(list)@) == placed(listed(old(list)@), name@, meta),
{
    let ghost whole = listed(list@);
    let ghost mut rest: Seq<(Seq<char>, Metadata)> = Seq::empty();
    let mut i: usize = list.len();
    assert(whole.take(i as int) =~= whole);
    assert(whole.skip(i as int) =~= Seq::empty());
    assert(placed(whole, name@, meta) =~= placed(whole.take(i as int), name@, meta) + whole.skip(
        i as int,
    ));
    while i > 0
        invariant
            i <= list@.len(),
            whole == listed(list@),
            list@ == old(list)@,
            placed(whole, name@, meta) == placed(whole.take(i as int), name@, meta) + whole.skip(
                i as int,
            ),
        decreases i,
    {
        let last = &list[i - 1];
        assert(whole.take(i as int).last() == (last.name@, last.meta));
        assert(whole.take(i as int).drop_last() =~= whole.take(i - 1));
        if text::eq(last.name.as_str(), name.as_str()) {
            let ghost before = list@;
            list.set(i - 1, Entry { name: name.clone(), meta });
            assert(listed(list@) =~= placed(whole.take(i as int), name@, meta) + whole.skip(
                i as int,
            ));
            return;
        }
        if less(last.name.as_str(), name.as_str()) {
            list.insert(i, Entry { name: name.clone(), meta });
            assert(listed(list@) =~= placed(whole.take(i as int), name@, meta) + whole.skip(
                i as int,
            ));
            return;
        }
        assert(placed(whole.take(i - 1), name@, meta).push(whole[i - 1]) + whole.skip(i as int)
            =~= placed(whole.take(i - 1), name@, meta) + whole.skip(i - 1));
        i -= 1;
    }
    list.insert(0, Entry { name: name.clone(), meta });
    assert(whole.take(0) =~= Seq::empty());
    assert(listed(list@) =~= placed(whole.take(0), name@, meta) + whole.skip(0));
}

/// Whether entry `j` is an object with the file number of `meta`.
pub open spec fn same_object(entries: Seq<Entry>, j: int, meta: Metadata) -> bool {
    is_object(entries[j].name@) && entries[j].meta.dev == meta.dev && entries[j].meta.ino == meta.ino
}

/// Whether one of the first `n` entries is an object with the file number of `meta`.
pub open spec fn object_before(entries: Seq<Entry>, n: int, meta: Metadata) -> bool {
    exists|j: int| 0 <= j < n && #[trigger] same_object(entries, j, meta)
}

/// How many of the first `n` entries are objects.
pub open spec fn object_count(entries: Seq<Entry>, n: int) -> nat
    decreases n,
{
    if n <= 0 {
        0
    } else if is_object(entries[n - 1].name@) {
        object_count(entries, n - 1) + 1
    } else {
        object_count(entries, n - 1)
    }
}

/// How many bytes the objects among the first `n` entries hold.
pub open spec fn object_bytes(entries: Seq<Entry>, n: int) -> nat
    decreases n,
{
    if n <= 0 {
        0
    } else if is_object(entries[n - 1].name@) {
        object_bytes(entries, n - 1) + entries[n - 1].meta.len as nat
    } else {
        object_bytes(entries, n - 1)
    }
}

/// What is wrong with entry `i` of a media directory that belongs to `uid`.
pub open spec fn entry_complaint(entries: Seq<Entry>, uid: u32, i: int) -> Option<Seq<char>> {
    let name = entries[i].name@;
    let meta = entries[i].meta;
    if i >= MAX_ENTRIES {
        Some("Managed media has more than 8192 directory entries"@)
    } else if !media_name(name) {
        Some("Unexpected managed media entry"@)
    } else if !(private_file(meta, uid) && meta.len <= MAX_FILE_BYTES) {
        Some("Managed media must be private regular files within the per-file limit"@)
    } else if is_object(name) && object_before(entries, i, meta) {
        Some("Duplicate managed media objects"@)
    } else if is_object(name) && (object_count(entries, i + 1) > MAX_OBJECTS || object_bytes(
        entries,
        i + 1,
    ) > MAX_STORE_BYTES) {
        Some("Managed media exceeds its publication budget"@)
    } else {
        None
    }
}

/// The complaint about the first bad entry from `i` on.
pub open spec fn first_complaint(entries: Seq<Entry>, uid: u32, i: int) -> Option<Seq<char>>
    decreases entries.len() - i,
{
    if i >= entries.len() {
        None
    } else if entry_complaint(entries, uid, i) is Some {
        entry_complaint(entries, uid, i)
    } else {
        first_complaint(entries, uid, i + 1)
    }
}

/// What is wrong with an alias: its object must be present and carry the name that it repeats.
pub open spec fn alias_complaint(entries: Seq<Entry>, name: Seq<char>, meta: Metadata) -> Option<
    Seq<char>,
> {
    if !object_before(entries, entries.len() as int, meta) {
        Some("Managed media alias has no owned object"@)
    } else if !(exists|j: int|
        0 <= j < entries.len() && #[trigger] same_object(entries, j, meta) && entries[j].name@
            == stem(name)) {
        Some("Managed media alias identifies another object"@)
    } else {
        None
    }
}

/// The complaint about the first bad alias from `i` on, in the order of names.
pub open spec fn first_alias_complaint(
    entries: Seq<Entry>,
    list: Seq<(Seq<char>, Metadata)>,
    i: int,
) -> Option<Seq<char>>
    decreases list.len() - i,
{
    if i >= list.len() {
        None
    } else if alias_complaint(entries, list[i].0, list[i].1) is Some {
        alias_complaint(entries, list[i].0, list[i].1)
    } else {
        first_alias_complaint(entries, list, i + 1)
    }
}

/// The numbers that identify a file across a restart.
pub open spec fn identifying(m: Metadata) -> Seq<u64> {
    seq![
        m.ino,
        m.len,
        m.nlink,
        m.uid as u64,
        m.gid as u64,
        m.mode as u64,
        m.mtime as u64,
        m.mtime_nsec as u64,
        m.ctime as u64,
        m.ctime_nsec as u64,
    ]
}

/// The bytes that stand for an entry in a fingerprint.
pub open spec fn entry_bytes(name: Seq<char>, meta: Metadata) -> Seq<u8> {
    le64(encode_utf8(name).len() as u64) + encode_utf8(name) + le64s(identifying(meta))
}

/// The bytes that stand for the first `n` entries.
pub open spec fn list_bytes(list: Seq<(Seq<char>, Metadata)>, n: int) -> Seq<u8>
    decreases n,
{
    if n <= 0 {
        Seq::empty()
    } else {
        list_bytes(list, n - 1) + entry_bytes(list[n - 1].0, list[n - 1].1)
    }
}

/// What the fingerprint of a media directory begins with.
pub open spec fn identity_prefix() -> Seq<u8> {
    encode_utf8("lianli-media-identity-v1\0"@)
}

/// The bytes behind the fingerprint of a media directory.
pub open spec fn directory_bytes(directory: Metadata, entries: Seq<Entry>) -> Seq<u8> {
    let list = by_name(entries, entries.len() as int);
    identity_prefix() + le64(directory.ino) + list_bytes(list, list.len() as int)
}

/// Whether a directory was left alone between two looks at it.
pub open spec fn untouched(before: Metadata, after: Metadata) -> bool {
    before.mtime == after.mtime && before.mtime_nsec == after.mtime_nsec && before.ctime
        == after.ctime && before.ctime_nsec == after.ctime_nsec
}

/// The fingerprint of a media directory, or what is wrong with it.
pub open spec fn fingerprint_of(
    uid: u32,
    before: Metadata,
    entries: Seq<Entry>,
    after: Metadata,
) -> Result<Seq<char>, Seq<char>> {
    let list = by_name(entries, entries.len() as int);
    match (first_complaint(entries, uid, 0), first_alias_complaint(entries, list, 0)) {
        (Some(e), _) => Err(e),
        (None, Some(e)) => Err(e),
        (None, None) => if untouched(before, after) {
            Ok(fingerprint(directory_bytes(before, entries)))
        } else {
            Err("Managed media directory changed during inspection"@)
        },
    }
}

struct Object {
    dev: u64,
    ino: u64,
    name: String,
}

/// Whether a collected object stands for an entry.
spec fn stands_for(o: Object, e: Entry) -> bool {
    is_object(e.name@) && e.meta.dev == o.dev && e.meta.ino == o.ino && e.name@ == o.name@
}

spec fn found_in(o: Object, entries: Seq<Entry>, n: int) -> bool {
    exists|j: int| 0 <= j < n && #[trigger] stands_for(o, entries[j])
}

spec fn held_by(objects: Seq<Object>, e: Entry) -> bool {
    exists|k: int| 0 <= k < objects.len() && #[trigger] stands_for(objects[k], e)
}

/// Whether a list holds exactly the objects among the first `n` entries.
spec fn collected(objects: Seq<Object>, entries: Seq<Entry>, n: int) -> bool {
    &&& forall|k: int| 0 <= k < objects.len() ==> found_in(#[trigger] objects[k], entries, n)
    &&& forall|j: int|
        0 <= j < n && is_object((#[trigger] entries[j]).name@) ==> held_by(objects, entries[j])
}

/// The objects in a list with a file number.
spec fn numbered(o: Object, meta: Metadata) -> bool {
    o.dev == meta.dev && o.ino == meta.ino
}

fn find_object(objects: &Vec<Object>, meta: &Metadata) -> (r: Option<usize>)
    ensures
        match r {
            Some(k) => k < objects@.len() && numbered(objects@[k as int], *meta),
            None => forall|k: int|
                0 <= k < objects@.len() ==> !numbered(#[trigger] objects@[k], *meta),
        },
{
    let mut k: usize = 0;
    while k < objects.len()
        invariant
            k <= objects@.len(),
            forall|j: int| 0 <= j < k ==> !numbered(#[trigger] objects@[j], *meta),
        decreases objects@.len() - k,
    {
        if objects[k].dev == meta.dev && objects[k].ino == meta.ino {
            return Some(k);
        }
        k += 1;
    }
    None
}

fn hash_entry(hasher: &mut Hasher, name: &str, meta: &Metadata)
    ensures
        absorbed(*final(hasher)) == absorbed(*old(hasher)) + entry_bytes(name@, *meta),
{
    let ghost before = absorbed(*hasher);
    let bytes = name.as_bytes();
    let length = crate::digest::bytes_le64(bytes.len() as u64);
    hasher.update(length.as_slice());
    hasher.update(bytes);
    let mut values: Vec<u64> = Vec::new();
    values.push(meta.ino);
    values.push(meta.len);
    values.push(meta.nlink);
    values.push(meta.uid as u64);
    values.push(meta.gid as u64);
    values.push(meta.mode as u64);
    values.push(meta.mtime as u64);
    values.push(meta.mtime_nsec as u64);
    values.push(meta.ctime as u64);
    values.push(meta.ctime_nsec as u64);
    assert(values@ =~= identifying(*meta));
    hasher.update_le64s(&values);
    assert(absorbed(*hasher) =~= before + entry_bytes(name@, *meta));
}

proof fn no_complaint(entries: Seq<Entry>, uid: u32, from: int)
    requires
        0 <= from,
        first_complaint(entries, uid, from) is None,
    ensures
        forall|i: int| from <= i < entries.len() ==> (#[trigger] entry_complaint(entries, uid, i)) is None,
    decreases entries.len() - from,
{
    if from < entries.len() {
        no_complaint(entries, uid, from + 1);
    }
}

/// In a directory without complaint no two entries are the same object.
proof fn objects_differ(entries: Seq<Entry>, uid: u32, a: int, b: int, meta: Metadata)
    requires
        first_complaint(entries, uid, 0) is None,
        0 <= a < entries.len(),
        0 <= b < entries.len(),
        same_object(entries, a, meta),
        same_object(entries, b, meta),
    ensures
        a == b,
{
    no_complaint(entries, uid, 0);
    if a < b {
        assert(same_object(entries, a, entries[b].meta));
        assert(object_before(entries, b, entries[b].meta));
        assert(entry_complaint(entries, uid, b) is None);
    } else if b < a {
        assert(same_object(entries, b, entries[a].meta));
        assert(object_before(entries, a, entries[a].meta));
        assert(entry_complaint(entries, uid, a) is None);
    }
}

/// Checks the entries of a media directory and lists them in the order of their names.
fn scan(uid: u32, entries: &Vec<Entry>) -> (r: Result<(Vec<Entry>, Vec<Object>), String>)
    ensures
        match r {
            Ok((list, objects)) => first_complaint(entries@, uid, 0) is None && listed(list@)
                == by_name(entries@, entries@.len() as int) && collected(
                objects@,
                entries@,
                entries@.len() as int,
            ),
            Err(e) => first_complaint(entries@, uid, 0) == Some(e@),
        },
{
    let mut list: Vec<Entry> = Vec::new();
    let mut objects: Vec<Object> = Vec::new();
    let mut total: u64 = 0;
    let mut i: usize = 0;
    assert(listed(list@) =~= by_name(entries@, 0));
    while i < entries.len()
        invariant
            i <= entries@.len(),
            first_complaint(entries@, uid, 0) == first_complaint(entries@, uid, i as int),
            listed(list@) == by_name(entries@, i as int),
            collected(objects@, entries@, i as int),
            objects@.len() == object_count(entries@, i as int),
            total == object_bytes(entries@, i as int),
            total <= MAX_STORE_BYTES,
        decreases entries@.len() - i,
    {
        let entry = &entries[i];
        if i >= MAX_ENTRIES {
            return Err("Managed media has more than 8192 directory entries".to_owned());
        }
        if !is_media_name(entry.name.as_str()) {
            return Err("Unexpected managed media entry".to_owned());
        }
        if !(entry.meta.is_private_file(uid) && entry.meta.len <= MAX_FILE_BYTES) {
            return Err(
                "Managed media must be private regular files within the per-file limit".to_owned(),
            );
        }
        let ghost old_objects = objects@;
        if names_object(entry.name.as_str()) {
            match find_object(&objects, &entry.meta) {
                Some(k) => {
                    proof {
                        let o = objects@[k as int];
                        assert(found_in(o, entries@, i as int));
                        let j = choose|j: int| 0 <= j < i && #[trigger] stands_for(o, entries@[j]);
                        assert(same_object(entries@, j, entry.meta));
                        assert(object_before(entries@, i as int, entry.meta));
                    }
                    return Err("Duplicate managed media objects".to_owned());
                },
                None => {},
            }
            proof {
                if object_before(entries@, i as int, entry.meta) {
                    let j = choose|j: int|
                        0 <= j < i && #[trigger] same_object(entries@, j, entry.meta);
                    assert(is_object(entries@[j].name@));
                    assert(held_by(objects@, entries@[j]));
                    let k = choose|k: int|
                        0 <= k < objects@.len() && #[trigger] stands_for(objects@[k], entries@[j]);
                    assert(numbered(objects@[k], entry.meta));
                    assert(false);
                }
            }
            objects.push(
                Object { dev: entry.meta.dev, ino: entry.meta.ino, name: entry.name.clone() },
            );
            total = total + entry.meta.len;
            if objects.len() as u64 > MAX_OBJECTS || total > MAX_STORE_BYTES {
                return Err("Managed media exceeds its publication budget".to_owned());
            }
        }
        place(&mut list, &entry.name, entry.meta);
        i += 1;
        proof {
            assert forall|k: int| 0 <= k < objects@.len() implies found_in(
                #[trigger] objects@[k],
                entries@,
                i as int,
            ) by {
                if k < old_objects.len() {
                    assert(objects@[k] == old_objects[k]);
                    assert(found_in(old_objects[k], entries@, i - 1));
                    let j = choose|j: int|
                        0 <= j < i - 1 && #[trigger] stands_for(old_objects[k], entries@[j]);
                    assert(stands_for(objects@[k], entries@[j]));
                } else {
                    assert(stands_for(objects@[k], entries@[i - 1]));
                }
            }
            assert forall|j: int|
                0 <= j < i && is_object((#[trigger] entries@[j]).name@) implies held_by(
                objects@,
                entries@[j],
            ) by {
                if j < i - 1 {
                    assert(held_by(old_objects, entries@[j]));
                    let k = choose|k: int|
                        0 <= k < old_objects.len() && #[trigger] stands_for(
                            old_objects[k],
                            entries@[j],
                        );
                    assert(stands_for(objects@[k], entries@[j]));
                } else {
                    assert(stands_for(objects@[objects@.len() - 1], entries@[j]));
                }
            }
        }
    }
    Ok((list, objects))
}

/// The fingerprint of a media directory of the account `uid`, from its metadata before and after
/// its entries were read. It changes whenever a name, a file or a time does.
pub fn fingerprint_directory(
    uid: u32,
    before: &Metadata,
    entries: &Vec<Entry>,
    after: &Metadata,
) -> (r: Result<String, String>)
    ensures
        match r {
            Ok(f) => fingerprint_of(uid, *before, entries@, *after) == Ok::<Seq<char>, Seq<char>>(
                f@,
            ) && text::hex_of_len(f@, 64),
            Err(e) => fingerprint_of(uid, *before, entries@, *after) == Err::<Seq<char>, Seq<char>>(
                e@,
            ),
        },
{
    let (list, objects) = match scan(uid, entries) {
        Ok(scanned) => scanned,
        Err(e) => return Err(e),
    };
    let ghost names = listed(list@);
    let mut hasher = Hasher::new();
    hasher.update("lianli-media-identity-v1\0".as_bytes());
    let number = crate::digest::bytes_le64(before.ino);
    hasher.update(number.as_slice());
    let ghost head = identity_prefix() + le64(before.ino);
    assert(absorbed(hasher) =~= head + list_bytes(names, 0));
    let mut i: usize = 0;
    while i < list.len()
        invariant
            i <= list@.len(),
            names == listed(list@),
            names == by_name(entries@, entries@.len() as int),
            collected(objects@, entries@, entries@.len() as int),
            first_complaint(entries@, uid, 0) is None,
            first_alias_complaint(entries@, names, 0) == first_alias_complaint(
                entries@,
                names,
                i as int,
            ),
            absorbed(hasher) == head + list_bytes(names, i as int),
        decreases list@.len() - i,
    {
        let name = &list[i].name;
        let meta = &list[i].meta;
        let ghost n = entries@.len() as int;
        assert(names[i as int] == (name@, *meta));
        match find_object(&objects, meta) {
            None => {
                proof {
                    if object_before(entries@, n, *meta) {
                        let j = choose|j: int|
                            0 <= j < n && #[trigger] same_object(entries@, j, *meta);
                        assert(is_object(entries@[j].name@));
                        assert(held_by(objects@, entries@[j]));
                        let k = choose|k: int|
                            0 <= k < objects@.len() && #[trigger] stands_for(
                                objects@[k],
                                entries@[j],
                            );
                        assert(numbered(objects@[k], *meta));
                        assert(false);
                    }
                }
                return Err("Managed media alias has no owned object".to_owned());
            },
            Some(k) => {
                let ghost o = objects@[k as int];
                assert(found_in(o, entries@, n));
                let ghost j = choose|j: int| 0 <= j < n && #[trigger] stands_for(o, entries@[j]);
                assert(same_object(entries@, j, *meta));
                if !text::eq(stem_of(name.as_str()).as_str(), objects[k].name.as_str()) {
                    proof {
                        if exists|b: int|
                            0 <= b < n && #[trigger] same_object(entries@, b, *meta)
                                && entries@[b].name@ == stem(name@) {
                            let b = choose|b: int|
                                0 <= b < n && #[trigger] same_object(entries@, b, *meta)
                                    && entries@[b].name@ == stem(name@);
                            objects_differ(entries@, uid, b, j, *meta);
                        }
                    }
                    return Err("Managed media alias identifies another object".to_owned());
                }
            },
        }
        hash_entry(&mut hasher, name.as_str(), meta);
        i += 1;
        assert(absorbed(hasher) =~= head + list_bytes(names, i as int));
    }
    if !(before.mtime == after.mtime && before.mtime_nsec == after.mtime_nsec && before.ctime
        == after.ctime && before.ctime_nsec == after.ctime_nsec) {
        return Err("Managed media directory changed during inspection".to_owned());
    }
    Ok(hasher.finish())
}

/// A list in the strict order of its names.
pub open spec fn ascending(list: Seq<(Seq<char>, Metadata)>) -> bool {
    forall|i: int, j: int| 0 <= i < j < list.len() ==> precedes(#[trigger] list[i].0, #[trigger] list[j].0)
}

/// Putting an entry in its place keeps a list in order, and adds or changes nothing but that entry.
pub proof fn placing_keeps_order(list: Seq<(Seq<char>, Metadata)>, name: Seq<char>, meta: Metadata)
    requires
        ascending(list),
    ensures
        ascending(placed(list, name, meta)),
        forall|x: (Seq<char>, Metadata)| #[trigger]
            placed(list, name, meta).contains(x) ==> x == (name, meta) || list.contains(x),
        forall|x: (Seq<char>, Metadata)| #[trigger]
            list.contains(x) && x.0 != name ==> placed(list, name, meta).contains(x),
        placed(list, name, meta).contains((name, meta)),
    decreases list.len(),
{
    let result = placed(list, name, meta);
    if list.len() == 0 {
        assert(result[0] == (name, meta));
    } else {
        let init = list.drop_last();
        assert forall|i: int, j: int| 0 <= i < j < init.len() implies precedes(
            #[trigger] init[i].0,
            #[trigger] init[j].0,
        ) by {
            assert(precedes(list[i].0, list[j].0));
        }
        assert(list[list.len() - 1] == list.last());
        if list.last().0 == name {
            assert forall|i: int, j: int| 0 <= i < j < result.len() implies precedes(
                #[trigger] result[i].0,
                #[trigger] result[j].0,
            ) by {
                assert(precedes(list[i].0, list[j].0));
            }
            assert(result[result.len() - 1] == (name, meta));
            assert forall|x: (Seq<char>, Metadata)| #[trigger] result.contains(x) implies x == (
                name,
                meta,
            ) || list.contains(x) by {
                let i = choose|i: int| 0 <= i < result.len() && result[i] == x;
                if i < list.len() - 1 {
                    assert(list[i] == x);
                }
            }
            assert forall|x: (Seq<char>, Metadata)| #[trigger]
                list.contains(x) && x.0 != name implies result.contains(x) by {
                let i = choose|i: int| 0 <= i < list.len() && list[i] == x;
                assert(result[i] == x);
            }
        } else if precedes(list.last().0, name) {
            assert forall|i: int, j: int| 0 <= i < j < result.len() implies precedes(
                #[trigger] result[i].0,
                #[trigger] result[j].0,
            ) by {
                if j < list.len() {
                    assert(precedes(list[i].0, list[j].0));
                } else if i < list.len() - 1 {
                    assert(precedes(list[i].0, list[list.len() - 1].0));
                    precedes_is_transitive(list[i].0, list.last().0, name);
                }
            }
            assert(result[result.len() - 1] == (name, meta));
            assert forall|x: (Seq<char>, Metadata)| #[trigger] result.contains(x) implies x == (
                name,
                meta,
            ) || list.contains(x) by {
                let i = choose|i: int| 0 <= i < result.len() && result[i] == x;
                if i < list.len() {
                    assert(list[i] == x);
                }
            }
            assert forall|x: (Seq<char>, Metadata)| #[trigger]
                list.contains(x) && x.0 != name implies result.contains(x) by {
                let i = choose|i: int| 0 <= i < list.len() && list[i] == x;
                assert(result[i] == x);
            }
        } else {
            placing_keeps_order(init, name, meta);
            precedes_is_total(list.last().0, name);
            let inner = placed(init, name, meta);
            assert forall|i: int, j: int| 0 <= i < j < result.len() implies precedes(
                #[trigger] result[i].0,
                #[trigger] result[j].0,
            ) by {
                if j < inner.len() {
                    assert(precedes(inner[i].0, inner[j].0));
                } else {
                    assert(inner.contains(inner[i]));
                    if inner[i] != (name, meta) {
                        assert(init.contains(inner[i]));
                        let k = choose|k: int| 0 <= k < init.len() && init[k] == inner[i];
                        assert(precedes(list[k].0, list[list.len() - 1].0));
                    }
                }
            }
            assert forall|x: (Seq<char>, Metadata)| #[trigger] result.contains(x) implies x == (
                name,
                meta,
            ) || list.contains(x) by {
                let i = choose|i: int| 0 <= i < result.len() && result[i] == x;
                if i < inner.len() {
                    assert(inner[i] == x);
                    assert(inner.contains(x));
                    if x != (name, meta) {
                        let k = choose|k: int| 0 <= k < init.len() && init[k] == x;
                        assert(list[k] == x);
                    }
                } else {
                    assert(list[list.len() - 1] == x);
                }
            }
            assert forall|x: (Seq<char>, Metadata)| #[trigger]
                list.contains(x) && x.0 != name implies result.contains(x) by {
                let i = choose|i: int| 0 <= i < list.len() && list[i] == x;
                if i < init.len() {
                    assert(init[i] == x);
                    assert(init.contains(x));
                    let k = choose|k: int| 0 <= k < inner.len() && inner[k] == x;
                    assert(result[k] == x);
                } else {
                    assert(result[result.len() - 1] == x);
                }
            }
            let k = choose|k: int| 0 <= k < inner.len() && inner[k] == (name, meta);
            assert(result[k] == (name, meta));
        }
    }
}

/// A fingerprint takes the entries of a directory in the strict order of their names.
pub proof fn entries_are_hashed_in_order(entries: Seq<Entry>, n: int)
    requires
        0 <= n <= entries.len(),
    ensures
        ascending(by_name(entries, n)),
    decreases n,
{
    if n > 0 {
        entries_are_hashed_in_order(entries, n - 1);
        placing_keeps_order(by_name(entries, n - 1), entries[n - 1].name@, entries[n - 1].meta);
    }
}

/// The order in which two entries of different names were listed does not matter.
pub proof fn listing_order_does_not_matter(
    list: Seq<(Seq<char>, Metadata)>,
    a: Seq<char>,
    x: Metadata,
    b: Seq<char>,
    y: Metadata,
)
    requires
        a != b,
        ascending(list),
    ensures
        placed(placed(list, a, x), b, y) == placed(placed(list, b, y), a, x),
    decreases list.len(),
{
    precedes_is_total(a, b);
    if list.len() == 0 {
        let one = placed(list, a, x);
        let two = placed(list, b, y);
        assert(one.drop_last() =~= list);
        assert(two.drop_last() =~= list);
        assert(placed(one, b, y) =~= placed(two, a, x));
    } else {
        let init = list.drop_last();
        let last = list.last();
        assert(list[list.len() - 1] == last);
        assert forall|i: int, j: int| 0 <= i < j < init.len() implies precedes(
            #[trigger] init[i].0,
            #[trigger] init[j].0,
        ) by {
            assert(precedes(list[i].0, list[j].0));
        }
        listing_order_does_not_matter(init, a, x, b, y);
        precedes_is_total(last.0, a);
        precedes_is_total(last.0, b);
        let one = placed(list, a, x);
        let two = placed(list, b, y);
        if !precedes(last.0, a) && last.0 != a && !precedes(last.0, b) && last.0 != b {
            assert(one.drop_last() =~= placed(init, a, x));
            assert(two.drop_last() =~= placed(init, b, y));
        } else if precedes(last.0, a) && precedes(last.0, b) {
            assert(one.drop_last() =~= list);
            assert(two.drop_last() =~= list);
        } else if precedes(last.0, a) {
            // `b` goes to or before the last entry, and so before `a`.
            assert(one.drop_last() =~= list);
            if last.0 != b {
                precedes_is_transitive(b, last.0, a);
            }
            assert(two.last().0 == last.0 || two.last().0 == b);
        } else if precedes(last.0, b) {
            assert(two.drop_last() =~= list);
            if last.0 != a {
                precedes_is_transitive(a, last.0, b);
            }
            assert(one.last().0 == last.0 || one.last().0 == a);
        } else if last.0 == a {
            assert(one.drop_last() =~= init);
            assert(two.drop_last() =~= placed(init, b, y));
        } else {
            assert(two.drop_last() =~= init);
            assert(one.drop_last() =~= placed(init, a, x));
        }
        assert(placed(one, b, y) =~= placed(two, a, x));
    }
}

/// No name is listed twice.
pub open spec fn listed_once(entries: Seq<Entry>) -> bool {
    forall|i: int, j: int|
        0 <= i < j < entries.len() ==> (#[trigger] entries[i]).name@ != (#[trigger] entries[j]).name@
}

/// Whether two listings hold the same entries, in whatever order.
pub open spec fn same_entries(a: Seq<Entry>, b: Seq<Entry>) -> bool {
    listed(a).to_multiset() == listed(b).to_multiset()
}

/// Whether an entry is among the first `n` of a listing.
spec fn among(entries: Seq<Entry>, n: int, x: (Seq<char>, Metadata)) -> bool {
    exists|i: int| 0 <= i < n && ((#[trigger] entries[i]).name@, entries[i].meta) == x
}

/// Two listings of the same entries hold each other's entries, and name each once if one does.
proof fn same_entries_agree(a: Seq<Entry>, b: Seq<Entry>)
    requires
        same_entries(a, b),
        listed_once(a),
    ensures
        a.len() == b.len(),
        listed_once(b),
        forall|x: (Seq<char>, Metadata)|
            among(a, a.len() as int, x) == #[trigger] among(b, b.len() as int, x),
{
    let la = listed(a);
    let lb = listed(b);
    la.to_multiset_ensures();
    lb.to_multiset_ensures();
    assert forall|x: (Seq<char>, Metadata)|
        among(a, a.len() as int, x) == #[trigger] among(b, b.len() as int, x) by {
        assert(la.contains(x) == lb.contains(x)) by {
            assert(la.contains(x) <==> la.to_multiset().count(x) > 0);
            assert(lb.contains(x) <==> lb.to_multiset().count(x) > 0);
        }
        if among(a, a.len() as int, x) {
            let i = choose|i: int|
                0 <= i < a.len() && ((#[trigger] a[i]).name@, a[i].meta) == x;
            assert(la[i] == x);
            let j = choose|j: int| 0 <= j < lb.len() && lb[j] == x;
            assert((b[j].name@, b[j].meta) == x);
        }
        if among(b, b.len() as int, x) {
            let i = choose|i: int|
                0 <= i < b.len() && ((#[trigger] b[i]).name@, b[i].meta) == x;
            assert(lb[i] == x);
            let j = choose|j: int| 0 <= j < la.len() && la[j] == x;
            assert((a[j].name@, a[j].meta) == x);
        }
    }
    assert forall|i: int, j: int|
        0 <= i < la.len() && 0 <= j < la.len() && i != j implies la[i] != la[j] by {
        if i < j {
            assert(a[i].name@ != a[j].name@);
        } else {
            assert(a[j].name@ != a[i].name@);
        }
    }
    la.lemma_multiset_has_no_duplicates();
    lb.lemma_multiset_has_no_duplicates_conv();
    assert forall|i: int, j: int| 0 <= i < j < b.len() implies (#[trigger] b[i]).name@ != (
    #[trigger] b[j]).name@ by {
        let x = lb[i];
        let y = lb[j];
        assert(among(b, b.len() as int, x)) by {
            assert((b[i].name@, b[i].meta) == x);
        }
        assert(among(b, b.len() as int, y)) by {
            assert((b[j].name@, b[j].meta) == y);
        }
        assert(among(a, a.len() as int, x) && among(a, a.len() as int, y));
        let k = choose|k: int| 0 <= k < a.len() && ((#[trigger] a[k]).name@, a[k].meta) == x;
        let m = choose|m: int| 0 <= m < a.len() && ((#[trigger] a[m]).name@, a[m].meta) == y;
        assert(x != y);
        if k < m {
            assert(a[k].name@ != a[m].name@);
        } else if m < k {
            assert(a[m].name@ != a[k].name@);
        }
    }
}

/// The ordered list holds exactly the entries that were listed.
proof fn by_name_holds(entries: Seq<Entry>, n: int)
    requires
        0 <= n <= entries.len(),
        listed_once(entries),
    ensures
        ascending(by_name(entries, n)),
        forall|x: (Seq<char>, Metadata)|
            #![trigger by_name(entries, n).contains(x)]
            by_name(entries, n).contains(x) == among(entries, n, x),
    decreases n,
{
    if n > 0 {
        by_name_holds(entries, n - 1);
        let earlier = by_name(entries, n - 1);
        let name = entries[n - 1].name@;
        let meta = entries[n - 1].meta;
        let list = by_name(entries, n);
        placing_keeps_order(earlier, name, meta);
        assert forall|x: (Seq<char>, Metadata)|
            #![trigger by_name(entries, n).contains(x)]
            by_name(entries, n).contains(x) == among(entries, n, x) by {
            if list.contains(x) {
                if x == (name, meta) {
                    assert((entries[n - 1].name@, entries[n - 1].meta) == x);
                } else {
                    assert(earlier.contains(x));
                    let i = choose|i: int|
                        0 <= i < n - 1 && ((#[trigger] entries[i]).name@, entries[i].meta) == x;
                    assert((entries[i].name@, entries[i].meta) == x);
                }
            }
            if among(entries, n, x) {
                let i = choose|i: int|
                    0 <= i < n && ((#[trigger] entries[i]).name@, entries[i].meta) == x;
                if i < n - 1 {
                    assert((entries[i].name@, entries[i].meta) == x);
                    assert(among(entries, n - 1, x));
                    assert(earlier.contains(x));
                    assert(entries[i].name@ != entries[n - 1].name@);
                }
            }
        }
    }
}

/// Two lists in strict order that hold the same entries are one.
proof fn ascending_lists_agree(a: Seq<(Seq<char>, Metadata)>, b: Seq<(Seq<char>, Metadata)>)
    requires
        ascending(a),
        ascending(b),
        forall|x: (Seq<char>, Metadata)| #[trigger] a.contains(x) == b.contains(x),
    ensures
        a == b,
    decreases a.len(),
{
    if a.len() == 0 {
        if b.len() > 0 {
            assert(b.contains(b[0]));
            assert(a.contains(b[0]));
        }
        assert(a =~= b);
    } else {
        let x = a.last();
        assert(a[a.len() - 1] == x);
        assert(a.contains(x));
        let i = choose|i: int| 0 <= i < b.len() && b[i] == x;
        let y = b.last();
        assert(b[b.len() - 1] == y);
        assert(b.contains(y));
        assert(a.contains(y));
        let j = choose|j: int| 0 <= j < a.len() && a[j] == y;
        precedes_is_total(x.0, y.0);
        if i < b.len() - 1 {
            assert(precedes(b[i].0, b[b.len() - 1].0));
        }
        if j < a.len() - 1 {
            assert(precedes(a[j].0, a[a.len() - 1].0));
        }
        assert(x == y);
        let p = a.drop_last();
        let q = b.drop_last();
        assert forall|k: int, m: int| 0 <= k < m < p.len() implies precedes(
            #[trigger] p[k].0,
            #[trigger] p[m].0,
        ) by {
            assert(precedes(a[k].0, a[m].0));
        }
        assert forall|k: int, m: int| 0 <= k < m < q.len() implies precedes(
            #[trigger] q[k].0,
            #[trigger] q[m].0,
        ) by {
            assert(precedes(b[k].0, b[m].0));
        }
        assert forall|z: (Seq<char>, Metadata)| #[trigger] p.contains(z) == q.contains(z) by {
            precedes_is_total(x.0, x.0);
            if p.contains(z) {
                let k = choose|k: int| 0 <= k < p.len() && p[k] == z;
                assert(a[k] == z && precedes(a[k].0, a[a.len() - 1].0));
                assert(a.contains(z));
                assert(b.contains(z));
                let m = choose|m: int| 0 <= m < b.len() && b[m] == z;
                assert(m < q.len());
                assert(q[m] == z);
            }
            if q.contains(z) {
                let k = choose|k: int| 0 <= k < q.len() && q[k] == z;
                assert(b[k] == z && precedes(b[k].0, b[b.len() - 1].0));
                assert(b.contains(z));
                assert(a.contains(z));
                let m = choose|m: int| 0 <= m < a.len() && a[m] == z;
                assert(m < p.len());
                assert(p[m] == z);
            }
        }
        ascending_lists_agree(p, q);
        assert(a =~= p.push(x));
        assert(b =~= q.push(x));
    }
}

/// How many objects are in a list, and how many bytes they hold.
spec fn weight(list: Seq<(Seq<char>, Metadata)>) -> (nat, nat)
    decreases list.len(),
{
    if list.len() == 0 {
        (0, 0)
    } else {
        let rest = weight(list.drop_last());
        if is_object(list.last().0) {
            (rest.0 + 1, rest.1 + list.last().1.len as nat)
        } else {
            rest
        }
    }
}

proof fn placing_adds_weight(list: Seq<(Seq<char>, Metadata)>, name: Seq<char>, meta: Metadata)
    requires
        forall|i: int| 0 <= i < list.len() ==> (#[trigger] list[i]).0 != name,
    ensures
        weight(placed(list, name, meta)) == if is_object(name) {
            (weight(list).0 + 1, weight(list).1 + meta.len as nat)
        } else {
            weight(list)
        },
    decreases list.len(),
{
    let result = placed(list, name, meta);
    if list.len() == 0 {
        assert(result.drop_last() =~= list);
    } else {
        assert(list[list.len() - 1].0 != name);
        if precedes(list.last().0, name) {
            assert(result.drop_last() =~= list);
        } else {
            assert(result.drop_last() =~= placed(list.drop_last(), name, meta));
            placing_adds_weight(list.drop_last(), name, meta);
        }
    }
}

/// The objects among the first entries weigh what the ordered list of these does.
proof fn by_name_weighs(entries: Seq<Entry>, n: int)
    requires
        0 <= n <= entries.len(),
        listed_once(entries),
    ensures
        weight(by_name(entries, n)) == (object_count(entries, n), object_bytes(entries, n)),
    decreases n,
{
    if n > 0 {
        by_name_weighs(entries, n - 1);
        by_name_holds(entries, n - 1);
        let earlier = by_name(entries, n - 1);
        assert forall|i: int| 0 <= i < earlier.len() implies (#[trigger] earlier[i]).0
            != entries[n - 1].name@ by {
            assert(earlier.contains(earlier[i]));
            let k = choose|k: int|
                0 <= k < n - 1 && ((#[trigger] entries[k]).name@, entries[k].meta) == earlier[i];
            assert(entries[k].name@ != entries[n - 1].name@);
        }
        placing_adds_weight(earlier, entries[n - 1].name@, entries[n - 1].meta);
    }
}

proof fn weights_grow(entries: Seq<Entry>, n: int, m: int)
    requires
        0 <= n <= m <= entries.len(),
    ensures
        object_count(entries, n) <= object_count(entries, m),
        object_bytes(entries, n) <= object_bytes(entries, m),
    decreases m - n,
{
    if n < m {
        weights_grow(entries, n, m - 1);
    }
}

proof fn weights_fit(entries: Seq<Entry>, uid: u32, n: int)
    requires
        0 <= n <= entries.len(),
        first_complaint(entries, uid, 0) is None,
    ensures
        object_count(entries, n) <= MAX_OBJECTS,
        object_bytes(entries, n) <= MAX_STORE_BYTES,
        n <= MAX_ENTRIES,
    decreases n,
{
    if n > 0 {
        weights_fit(entries, uid, n - 1);
        no_complaint(entries, uid, 0);
        assert(entry_complaint(entries, uid, n - 1) is None);
    }
}

/// Where one listing is without complaint, so is another one of the same entries.
proof fn complaints_agree(a: Seq<Entry>, b: Seq<Entry>, uid: u32, from: int)
    requires
        same_entries(a, b),
        listed_once(a),
        first_complaint(a, uid, 0) is None,
        0 <= from <= b.len(),
    ensures
        first_complaint(b, uid, from) is None,
    decreases b.len() - from,
{
    if from < b.len() {
        complaints_agree(a, b, uid, from + 1);
        same_entries_agree(a, b);
        let n = a.len() as int;
        let name = b[from].name@;
        let meta = b[from].meta;
        let x = (name, meta);
        assert(among(b, b.len() as int, x)) by {
            assert((b[from].name@, b[from].meta) == x);
        }
        assert(among(a, n, x));
        let k = choose|k: int| 0 <= k < a.len() && ((#[trigger] a[k]).name@, a[k].meta) == x;
        no_complaint(a, uid, 0);
        assert(entry_complaint(a, uid, k) is None);
        weights_fit(a, uid, n);
        by_name_holds(a, n);
        by_name_holds(b, n);
        assert forall|z: (Seq<char>, Metadata)| #[trigger] by_name(a, n).contains(z) == by_name(
            b,
            n,
        ).contains(z) by {
            assert(among(a, n, z) == among(b, n, z));
        }
        ascending_lists_agree(by_name(a, n), by_name(b, n));
        by_name_weighs(a, n);
        by_name_weighs(b, n);
        weights_grow(b, from + 1, n);
        if is_object(name) && object_before(b, from, meta) {
            let j = choose|j: int| 0 <= j < from && #[trigger] same_object(b, j, meta);
            let y = (b[j].name@, b[j].meta);
            assert(among(b, b.len() as int, y)) by {
                assert((b[j].name@, b[j].meta) == y);
            }
            assert(among(a, n, y));
            let m = choose|m: int| 0 <= m < a.len() && ((#[trigger] a[m]).name@, a[m].meta) == y;
            assert(same_object(a, m, meta));
            assert(same_object(a, k, meta));
            objects_differ(a, uid, k, m, meta);
            assert(b[j].name@ != b[from].name@);
        }
        assert(entry_complaint(b, uid, from) is None);
    }
}

/// Whether an object with a file number, and with a name where one is wanted, is listed.
spec fn object_listed(entries: Seq<Entry>, meta: Metadata, wanted: Option<Seq<char>>) -> bool {
    exists|j: int|
        0 <= j < entries.len() && #[trigger] same_object(entries, j, meta) && (wanted is Some
            ==> entries[j].name@ == wanted->0)
}

proof fn object_found_alike(a: Seq<Entry>, b: Seq<Entry>, meta: Metadata, wanted: Option<Seq<char>>)
    requires
        forall|x: (Seq<char>, Metadata)|
            among(a, a.len() as int, x) ==> #[trigger] among(b, b.len() as int, x),
        object_listed(a, meta, wanted),
    ensures
        object_listed(b, meta, wanted),
{
    let j = choose|j: int|
        0 <= j < a.len() && #[trigger] same_object(a, j, meta) && (wanted is Some ==> a[j].name@
            == wanted->0);
    let x = (a[j].name@, a[j].meta);
    assert(among(a, a.len() as int, x)) by {
        assert((a[j].name@, a[j].meta) == x);
    }
    assert(among(b, b.len() as int, x));
    let k = choose|k: int| 0 <= k < b.len() && ((#[trigger] b[k]).name@, b[k].meta) == x;
    assert(same_object(b, k, meta));
}

proof fn alias_by_objects(entries: Seq<Entry>, name: Seq<char>, meta: Metadata)
    ensures
        alias_complaint(entries, name, meta) == if !object_listed(entries, meta, None) {
            Some("Managed media alias has no owned object"@)
        } else if !object_listed(entries, meta, Some(stem(name))) {
            Some("Managed media alias identifies another object"@)
        } else {
            None
        },
{
    if object_before(entries, entries.len() as int, meta) {
        let j = choose|j: int| 0 <= j < entries.len() && #[trigger] same_object(entries, j, meta);
        assert(same_object(entries, j, meta));
    }
}

proof fn alias_complaints_agree(
    a: Seq<Entry>,
    b: Seq<Entry>,
    list: Seq<(Seq<char>, Metadata)>,
    i: int,
)
    requires
        same_entries(a, b),
        listed_once(a),
        0 <= i <= list.len(),
    ensures
        first_alias_complaint(a, list, i) == first_alias_complaint(b, list, i),
    decreases list.len() - i,
{
    if i < list.len() {
        alias_complaints_agree(a, b, list, i + 1);
        same_entries_agree(a, b);
        let name = list[i].0;
        let meta = list[i].1;
        if object_listed(a, meta, None) {
            object_found_alike(a, b, meta, None);
        }
        if object_listed(b, meta, None) {
            object_found_alike(b, a, meta, None);
        }
        if object_listed(a, meta, Some(stem(name))) {
            object_found_alike(a, b, meta, Some(stem(name)));
        }
        if object_listed(b, meta, Some(stem(name))) {
            object_found_alike(b, a, meta, Some(stem(name)));
        }
        alias_by_objects(a, name, meta);
        alias_by_objects(b, name, meta);
    }
}

/// The fingerprint of a directory does not depend on the order in which its entries were listed:
/// two listings of the same entries both have one, the same, or both have none.
pub proof fn fingerprints_do_not_depend_on_the_listing(
    uid: u32,
    before: Metadata,
    a: Seq<Entry>,
    b: Seq<Entry>,
    after: Metadata,
)
    requires
        same_entries(a, b),
        listed_once(a),
    ensures
        fingerprint_of(uid, before, a, after) is Ok <==> fingerprint_of(uid, before, b, after) is Ok,
        fingerprint_of(uid, before, a, after) is Ok ==> fingerprint_of(uid, before, a, after)
            == fingerprint_of(uid, before, b, after),
{
    same_entries_agree(a, b);
    let n = a.len() as int;
    by_name_holds(a, n);
    by_name_holds(b, n);
    assert forall|z: (Seq<char>, Metadata)| #[trigger] by_name(a, n).contains(z) == by_name(
        b,
        n,
    ).contains(z) by {
        assert(among(a, n, z) == among(b, n, z));
    }
    ascending_lists_agree(by_name(a, n), by_name(b, n));
    alias_complaints_agree(a, b, by_name(a, n), 0);
    if first_complaint(a, uid, 0) is None {
        complaints_agree(a, b, uid, 0);
    }
    if first_complaint(b, uid, 0) is None {
        complaints_agree(b, a, uid, 0);
    }
}

/// The number of a file, from its device and inode.
pub open spec fn file_number(dev: u64, ino: u64) -> u128 {
    (dev * 0x1_0000_0000_0000_0000 + ino) as u128
}

/// Different files have different numbers.
pub proof fn file_numbers_differ(a: u64, b: u64, c: u64, d: u64)
    requires
        file_number(a, b) == file_number(c, d),
    ensures
        a == c && b == d,
{
}

/// What taking the measure of managed media does next.
#[derive(Clone, Copy, Debug, PartialEq, Eq, Structural)]
pub enum UsageStep {
    Imports,
    Import,
    Staged,
    Within,
    Failed,
}

/// How much managed media there is: every import, and then what is staged. A file counts once,
/// however many names it has.
pub struct Usage {
    pub imports: u64,
    pub entries: u64,
    pub bytes: u64,
    pub limit: u64,
    pub seen: std::collections::HashSet<u128>,
    pub step: UsageStep,
    /// The files that were counted, with their sizes.
    pub counted: Ghost<Seq<(u128, u64)>>,
}

pub const MAX_QUOTA_ENTRIES: u64 = 65_536;

/// What is wrong with one more file.
pub open spec fn usage_complaint(
    u: Usage,
    found: Result<Metadata, String>,
    late: bool,
) -> Option<Seq<char>> {
    let meta = found->Ok_0;
    let fresh = !u.seen@.contains(file_number(meta.dev, meta.ino));
    if u.entries + 1 > MAX_QUOTA_ENTRIES || late {
        Some("Managed media quota inspection exceeded its entry or time limit"@)
    } else if found is Err {
        Some(found->Err_0@)
    } else if meta.kind != FileKind::File {
        Some(
            "Managed media quota inspection refuses links, nested directories and special files"@,
        )
    } else if fresh && u.bytes + meta.len > u64::MAX {
        Some("Managed media size overflow"@)
    } else if fresh && u.bytes + meta.len > u.limit {
        Some(
            "Managed media storage exceeds its 8 GiB quota. Remove unused imports before copying more media"@,
        )
    } else {
        None
    }
}

/// How many bytes some files hold.
pub open spec fn total_bytes(files: Seq<(u128, u64)>) -> nat
    decreases files.len(),
{
    if files.len() == 0 {
        0
    } else {
        total_bytes(files.drop_last()) + files.last().1 as nat
    }
}

/// Whether a file is among those that were counted.
pub open spec fn was_counted(files: Seq<(u128, u64)>, number: u128) -> bool {
    exists|i: int| 0 <= i < files.len() && (#[trigger] files[i]).0 == number
}

/// No file is counted twice.
pub open spec fn counted_once(files: Seq<(u128, u64)>) -> bool {
    forall|i: int, j: int|
        0 <= i < j < files.len() ==> (#[trigger] files[i]).0 != (#[trigger] files[j]).0
}

impl Usage {
    /// The bytes are those of the files that were seen, each counted once, and fit the limit.
    pub open spec fn wf(self) -> bool {
        self.step != UsageStep::Failed ==> {
            &&& self.imports <= 1023
            &&& self.entries <= MAX_QUOTA_ENTRIES
            &&& self.bytes <= self.limit
            &&& self.bytes == total_bytes(self.counted@)
            &&& counted_once(self.counted@)
            &&& forall|n: u128| #[trigger] self.seen@.contains(n) == was_counted(self.counted@, n)
        }
    }

    /// Nothing counted yet, with a limit in bytes.
    pub fn new(limit: u64) -> (u: Usage)
        ensures
            u.wf(),
            u.step == UsageStep::Imports,
            u.imports == 0,
            u.entries == 0,
            u.bytes == 0,
            u.limit == limit,
            u.seen@ == Set::<u128>::empty(),
            u.counted@ == Seq::<(u128, u64)>::empty(),
    {
        Usage {
            imports: 0,
            entries: 0,
            bytes: 0,
            limit,
            seen: std::collections::HashSet::new(),
            step: UsageStep::Imports,
            counted: Ghost(Seq::empty()),
        }
    }

    fn fail(&mut self, reason: &str) -> (r: Result<(), String>)
        ensures
            *final(self) == (Usage { step: UsageStep::Failed, ..*old(self) }),
            r is Err,
            r->Err_0@ == reason@,
    {
        self.step = UsageStep::Failed;
        Err(reason.to_owned())
    }

    /// One more import directory comes, at most 1023 besides the staged one. `late` tells whether
    /// the inspection has run out of time.
    pub fn import(&mut self, elapsed_ms: u64) -> (r: Result<(), String>)
        requires
            old(self).wf(),
            old(self).step == UsageStep::Imports,
        ensures
            final(self).wf(),
            match r {
                Ok(_) => old(self).imports < 1023 && elapsed_ms < COUNT_MS && *final(self) == (Usage {
                    step: UsageStep::Import,
                    imports: (old(self).imports + 1) as u64,
                    ..*old(self)
                }),
                Err(e) => (old(self).imports >= 1023 || elapsed_ms >= COUNT_MS) && final(self).step
                    == UsageStep::Failed && e@
                    == "Managed media quota inspection exceeds 1024 imports or five seconds"@,
            },
    {
        let late = elapsed_ms >= COUNT_MS;
        if self.imports < 1023 && !late {
            self.imports = self.imports + 1;
            self.step = UsageStep::Import;
            Ok(())
        } else {
            self.fail("Managed media quota inspection exceeds 1024 imports or five seconds")
        }
    }

    /// There are no more imports: what is staged comes.
    pub fn imports_done(&mut self)
        requires
            old(self).wf(),
            old(self).step == UsageStep::Imports,
        ensures
            final(self).wf(),
            *final(self) == (Usage { step: UsageStep::Staged, ..*old(self) }),
    {
        self.step = UsageStep::Staged;
    }

    /// Counts one file, where it could be looked at.
    pub fn file(&mut self, found: &Result<Metadata, String>, elapsed_ms: u64) -> (r: Result<(), String>)
        requires
            old(self).wf(),
            old(self).step == UsageStep::Import || old(self).step == UsageStep::Staged,
        ensures
            final(self).wf(),
            match r {
                Ok(_) => {
                    let meta = found->Ok_0;
                    let number = file_number(meta.dev, meta.ino);
                    let fresh = !old(self).seen@.contains(number);
                    &&& usage_complaint(*old(self), *found, elapsed_ms >= COUNT_MS) is None
                    &&& *final(self) == (Usage {
                        entries: (old(self).entries + 1) as u64,
                        bytes: final(self).bytes,
                        seen: final(self).seen,
                        counted: Ghost(
                            if fresh {
                                old(self).counted@.push((number, meta.len))
                            } else {
                                old(self).counted@
                            },
                        ),
                        ..*old(self)
                    })
                    &&& final(self).seen@ == old(self).seen@.insert(number)
                    &&& final(self).bytes == old(self).bytes + if fresh {
                        meta.len as int
                    } else {
                        0int
                    }
                },
                Err(e) => usage_complaint(*old(self), *found, elapsed_ms >= COUNT_MS) == Some(e@) && final(self).step
                    == UsageStep::Failed,
            },
    {
        let late = elapsed_ms >= COUNT_MS;
        broadcast use vstd::std_specs::hash::group_hash_axioms;

        self.entries = self.entries + 1;
        if self.entries > MAX_QUOTA_ENTRIES || late {
            return self.fail("Managed media quota inspection exceeded its entry or time limit");
        }
        let meta = match found {
            Err(e) => return self.fail(e.as_str()),
            Ok(meta) => meta,
        };
        if meta.kind != FileKind::File {
            return self.fail(
                "Managed media quota inspection refuses links, nested directories and special files",
            );
        }
        let number: u128 = (meta.dev as u128) * 0x1_0000_0000_0000_0000u128 + meta.ino as u128;
        assert(number == file_number(meta.dev, meta.ino));
        if self.seen.insert(number) {
            match self.bytes.checked_add(meta.len) {
                None => return self.fail("Managed media size overflow"),
                Some(bytes) => {
                    self.bytes = bytes;
                },
            }
            if self.bytes > self.limit {
                return self.fail(
                    "Managed media storage exceeds its 8 GiB quota. Remove unused imports before copying more media",
                );
            }
            let ghost before = self.counted@;
            self.counted = Ghost(self.counted@.push((number, meta.len)));
            proof {
                assert(self.counted@.drop_last() =~= before);
                assert(!was_counted(before, number));
                assert forall|n: u128| #[trigger] self.seen@.contains(n) == was_counted(
                    self.counted@,
                    n,
                ) by {
                    if n == number {
                        assert(self.counted@[before.len() as int].0 == n);
                    }
                    if was_counted(before, n) {
                        let i = choose|i: int| 0 <= i < before.len() && (#[trigger] before[i]).0 == n;
                        assert(self.counted@[i].0 == n);
                    }
                    if was_counted(self.counted@, n) && n != number {
                        let i = choose|i: int|
                            0 <= i < self.counted@.len() && (#[trigger] self.counted@[i]).0 == n;
                        assert(before[i].0 == n);
                    }
                }
                assert forall|i: int, j: int| 0 <= i < j < self.counted@.len() implies (
                #[trigger] self.counted@[i]).0 != (#[trigger] self.counted@[j]).0 by {
                    if j < before.len() {
                        assert(before[i].0 != before[j].0);
                    } else {
                        assert(before[i].0 != number);
                    }
                }
            }
        } else {
            assert(old(self).seen@.insert(number) =~= old(self).seen@);
        }
        Ok(())
    }

    /// The end of a directory.
    pub fn end(&mut self, elapsed_ms: u64) -> (r: Result<(), String>)
        requires
            old(self).wf(),
            old(self).step == UsageStep::Import || old(self).step == UsageStep::Staged,
        ensures
            final(self).wf(),
            match r {
                Ok(_) => elapsed_ms < COUNT_MS && *final(self) == (Usage {
                    step: if old(self).step == UsageStep::Import {
                        UsageStep::Imports
                    } else {
                        UsageStep::Within
                    },
                    ..*old(self)
                }),
                Err(e) => elapsed_ms >= COUNT_MS && final(self).step == UsageStep::Failed && e@
                    == "Managed media quota inspection exceeded five seconds"@,
            },
    {
        let late = elapsed_ms >= COUNT_MS;
        if late {
            return self.fail("Managed media quota inspection exceeded five seconds");
        }
        self.step = if self.step == UsageStep::Import {
            UsageStep::Imports
        } else {
            UsageStep::Within
        };
        Ok(())
    }
}

/// Whether a count of media, where it was not given up, came to its end within the size of the store.
pub open spec fn within_store(usage: Result<Usage, String>) -> bool {
    usage matches Ok(u) ==> u.wf() && u.step == UsageStep::Within && u.limit == MAX_STORE_BYTES
}

/// Media that are found within their limit are so with every file of every import and of what is
/// staged, each counted once.
pub proof fn usage_counts_each_file_once(u: Usage)
    requires
        u.wf(),
        u.step == UsageStep::Within,
    ensures
        counted_once(u.counted@),
        total_bytes(u.counted@) <= u.limit,
        forall|n: u128| #[trigger] u.seen@.contains(n) ==> was_counted(u.counted@, n),
{
}

/// A file that was counted before changes nothing but the number of entries.
pub proof fn aliases_are_free(u: Usage, meta: Metadata)
    requires
        u.seen@.contains(file_number(meta.dev, meta.ino)),
        u.entries < MAX_QUOTA_ENTRIES,
        meta.kind == FileKind::File,
    ensures
        usage_complaint(u, Ok(meta), false) is None,
        u.seen@.insert(file_number(meta.dev, meta.ino)) =~= u.seen@,
{
}

/// A prepared media directory that waits to be published.
#[derive(Clone, Debug)]
pub struct MediaPublication {
    pub id: String,
    pub preparation: String,
    pub media: String,
    pub fingerprint: String,
}

/// A name that begins with `prefix` and ends in six to 32 generated letters and digits.
pub open spec fn generated(name: Seq<char>, prefix: Seq<char>) -> bool {
    text::begins_with(name, prefix) && {
        let suffix = name.skip(prefix.len() as int);
        6 <= suffix.len() <= 32 && text::all_alphanumeric(suffix)
    }
}

fn is_generated(name: &str, prefix: &str) -> (r: bool)
    ensures
        r == generated(name@, prefix@),
{
    match text::strip_prefix(name, prefix) {
        Some(suffix) => {
            let v = text::chars(suffix.as_str());
            6 <= v.len() && v.len() <= 32 && text::only_alphanumeric(&v)
        },
        None => false,
    }
}

/// Whether something stands at a path.
#[derive(Debug)]
pub enum Presence {
    Present,
    Missing,
    Unreadable { error: String },
}

/// What publication has to do.
#[derive(Clone, Copy, Debug, PartialEq, Eq, Structural)]
pub enum Publish {
    /// The directory was moved before: only verify it.
    Verify,
    /// Verify the staged directory, record its ownership and move it.
    Move,
}

/// A comparison of a fingerprint with the expected one.
pub open spec fn compared(
    found: Result<String, String>,
    expected: Seq<char>,
    complaint: Seq<char>,
) -> Result<(), Seq<char>> {
    match found {
        Err(e) => Err(e@),
        Ok(f) => if f@ == expected {
            Ok(())
        } else {
            Err(complaint)
        },
    }
}

fn compare(found: Result<String, String>, expected: &str, complaint: &str) -> (r: Result<(), String>)
    ensures
        text::outcome(r) == compared(found, expected@, complaint@),
{
    match found {
        Err(e) => Err(e),
        Ok(f) => if text::eq(f.as_str(), expected) {
            Ok(())
        } else {
            Err(complaint.to_owned())
        },
    }
}

/// How to publish, by what stands at the target and at the staged directory.
pub open spec fn publish_of(m: MediaPublication, target: Presence, source: Presence) -> Result<
    Publish,
    Seq<char>,
> {
    if !m.valid() {
        Err("Invalid media publication identity"@)
    } else {
        match target {
            Presence::Present => if source is Missing {
                Ok(Publish::Verify)
            } else {
                Err("Managed media destination already exists. Neither directory was replaced"@)
            },
            Presence::Missing => Ok(Publish::Move),
            Presence::Unreadable { error } => Err(
                "Checking managed media destination: "@ + error@,
            ),
        }
    }
}

impl MediaPublication {
    pub open spec fn valid(self) -> bool {
        &&& text::hex_of_len(self.id@, 32)
        &&& generated(self.preparation@, ".lianli-migration-"@ + self.id@ + "-"@)
        &&& generated(self.media@, ".lianli-media-"@)
        &&& text::hex_of_len(self.fingerprint@, 64)
    }

    pub fn validate(&self) -> (r: Result<(), String>)
        ensures
            match r {
                Ok(_) => self.valid(),
                Err(e) => !self.valid() && e@ == "Invalid media publication identity"@,
            },
    {
        let mut prefix = ".lianli-migration-".to_owned();
        prefix.append(self.id.as_str());
        prefix.append("-");
        if text::is_hex_of_len(self.id.as_str(), 32) && is_generated(
            self.preparation.as_str(),
            prefix.as_str(),
        ) && is_generated(self.media.as_str(), ".lianli-media-") && text::is_hex_of_len(
            self.fingerprint.as_str(),
            64,
        ) {
            Ok(())
        } else {
            Err("Invalid media publication identity".to_owned())
        }
    }

    /// Judges the fingerprint of the staged directory.
    pub fn verify_staged(&self, found: Result<String, String>) -> (r: Result<(), String>)
        ensures
            text::outcome(r) == if !self.valid() {
                Err("Invalid media publication identity"@)
            } else {
                compared(found, self.fingerprint@, "Prepared media changed before publication"@)
            },
    {
        match self.validate() {
            Err(e) => Err(e),
            Ok(()) => compare(
                found,
                self.fingerprint.as_str(),
                "Prepared media changed before publication",
            ),
        }
    }

    /// Decides how to publish, from what stands at the target and at the staged directory.
    pub fn publish(&self, target: &Presence, source: &Presence) -> (r: Result<Publish, String>)
        ensures
            text::outcome(r) == publish_of(*self, *target, *source),
    {
        match self.validate() {
            Err(e) => return Err(e),
            Ok(()) => {},
        }
        match target {
            Presence::Present => match source {
                Presence::Missing => Ok(Publish::Verify),
                _ => Err(
                    "Managed media destination already exists. Neither directory was replaced".to_owned(),
                ),
            },
            Presence::Missing => Ok(Publish::Move),
            Presence::Unreadable { error } => {
                let mut text = "Checking managed media destination: ".to_owned();
                text.append(error.as_str());
                Err(text)
            },
        }
    }

    /// Judges the fingerprint of the directory right after it was moved.
    pub fn published(&self, found: Result<String, String>) -> (r: Result<(), String>)
        ensures
            text::outcome(r) == compared(
                found,
                self.fingerprint@,
                "Published media identity changed"@,
            ),
    {
        compare(found, self.fingerprint.as_str(), "Published media identity changed")
    }

    /// Judges the fingerprint of a directory that was published earlier.
    pub fn verify_published(&self, found: Result<String, String>) -> (r: Result<(), String>)
        ensures
            text::outcome(r) == if !self.valid() {
                Err("Invalid media publication identity"@)
            } else {
                compared(
                    found,
                    self.fingerprint@,
                    "Committed media is missing or changed. Inspect the migration before starting hardware"@,
                )
            },
    {
        match self.validate() {
            Err(e) => Err(e),
            Ok(()) => compare(
                found,
                self.fingerprint.as_str(),
                "Committed media is missing or changed. Inspect the migration before starting hardware",
            ),
        }
    }
}

/// What speaks against a directory: it must be of this account, and no other may write there.
pub open spec fn directory_complaint(m: Metadata, uid: u32) -> Option<Seq<char>> {
    if m.uid == uid && m.mode & 0o022 == 0 {
        None
    } else {
        Some("Media publication directory must belong to its account and exclude other writers"@)
    }
}

/// Whether a directory is of this account and no other account can write there.
pub fn open_directory(m: &Metadata, uid: u32) -> (r: Result<(), String>)
    ensures
        complaint(r) == directory_complaint(*m, uid),
{
    if m.uid == uid && m.mode & 0o022 == 0 {
        Ok(())
    } else {
        Err(
            "Media publication directory must belong to its account and exclude other writers".to_owned(),
        )
    }
}

/// The error of a check, where it found one.
pub open spec fn failure(r: Result<(), Seq<char>>) -> Option<Seq<char>> {
    match r {
        Ok(_) => None,
        Err(e) => Some(e),
    }
}

/// Where the publication of staged media stands.
#[derive(Clone, Copy, Debug, PartialEq, Eq, Structural)]
pub enum PlaceStep {
    LookUp,
    VerifyStaged,
    CheckCapacity,
    Record,
    Rename,
    VerifyPlaced,
    SyncStage,
    SyncImports,
    Placed,
    Failed,
}

pub open spec fn place_rank(step: PlaceStep) -> int {
    match step {
        PlaceStep::LookUp => 0,
        PlaceStep::VerifyStaged => 1,
        PlaceStep::CheckCapacity => 2,
        PlaceStep::Record => 3,
        PlaceStep::Rename => 4,
        PlaceStep::VerifyPlaced => 5,
        PlaceStep::SyncStage => 6,
        PlaceStep::SyncImports => 7,
        PlaceStep::Placed => 8,
        PlaceStep::Failed => 9,
    }
}

/// Media that stands in its place already is only verified there.
pub open spec fn place_takes(step: PlaceStep, moving: bool) -> bool {
    match step {
        PlaceStep::VerifyStaged | PlaceStep::CheckCapacity | PlaceStep::Record
        | PlaceStep::Rename => moving,
        _ => true,
    }
}

/// The publication of staged media: what is staged is verified, fits and is recorded before it
/// takes its place, and is verified there.
pub struct Placement {
    pub publication: MediaPublication,
    /// Whether the media still has to be moved.
    pub moving: bool,
    pub step: PlaceStep,
    pub error: String,
    /// The steps that succeeded, in order.
    pub log: Ghost<Seq<PlaceStep>>,
}

pub open spec fn place_stops(before: Placement, after: Placement, text: Seq<char>) -> bool {
    after == (Placement { step: PlaceStep::Failed, error: after.error, ..before })
        && after.error@ == text
}

pub open spec fn place_moves(before: Placement, after: Placement, next: PlaceStep) -> bool {
    after == (Placement { step: next, log: Ghost(before.log@.push(before.step)), ..before })
}

impl Placement {
    /// Every step taken before the present one succeeded.
    pub open spec fn wf(self) -> bool {
        self.step != PlaceStep::Failed ==> forall|s: PlaceStep|
            place_rank(s) < place_rank(self.step) && place_takes(s, self.moving)
                ==> #[trigger] self.log@.contains(s)
    }

    pub fn begin(publication: MediaPublication) -> (r: Placement)
        ensures
            r.wf(),
            r.publication == publication,
            r.step == PlaceStep::LookUp,
            r.log@ == Seq::<PlaceStep>::empty(),
            !r.moving,
    {
        Placement {
            publication,
            moving: false,
            step: PlaceStep::LookUp,
            error: String::new(),
            log: Ghost(Seq::empty()),
        }
    }

    fn advance(&mut self, next: PlaceStep)
        requires
            (Placement {
                step: next,
                log: Ghost(old(self).log@.push(old(self).step)),
                ..*old(self)
            }).wf(),
        ensures
            final(self).wf(),
            place_moves(*old(self), *final(self), next),
    {
        self.log = Ghost(self.log@.push(self.step));
        self.step = next;
    }

    /// A step could not be done.
    pub fn failed(&mut self, reason: &str)
        ensures
            final(self).wf(),
            place_stops(*old(self), *final(self), reason@),
    {
        self.step = PlaceStep::Failed;
        self.error = reason.to_owned();
    }

    /// The place of the media and the staged directory were looked for.
    pub fn looked_up(&mut self, target: &Presence, source: &Presence)
        requires
            old(self).wf(),
            old(self).step == PlaceStep::LookUp,
        ensures
            final(self).wf(),
            match publish_of(old(self).publication, *target, *source) {
                Err(e) => place_stops(*old(self), *final(self), e),
                Ok(decision) => *final(self) == (Placement {
                    moving: decision == Publish::Move,
                    step: if decision == Publish::Move {
                        PlaceStep::VerifyStaged
                    } else {
                        PlaceStep::VerifyPlaced
                    },
                    log: Ghost(old(self).log@.push(old(self).step)),
                    ..*old(self)
                }),
            },
    {
        match self.publication.publish(target, source) {
            Err(e) => {
                self.failed(e.as_str());
            },
            Ok(decision) => {
                proof {
                    steps::push_holds(self.log@, self.step);
                }
                match decision {
                    Publish::Move => {
                        self.moving = true;
                        self.advance(PlaceStep::VerifyStaged);
                    },
                    Publish::Verify => {
                        self.moving = false;
                        self.advance(PlaceStep::VerifyPlaced);
                    },
                }
            },
        }
    }

    /// The staged directory was fingerprinted.
    pub fn staged(&mut self, found: Result<String, String>)
        requires
            old(self).wf(),
            old(self).step == PlaceStep::VerifyStaged,
        ensures
            final(self).wf(),
            match failure(
                if !old(self).publication.valid() {
                    Err("Invalid media publication identity"@)
                } else {
                    compared(
                        found,
                        old(self).publication.fingerprint@,
                        "Prepared media changed before publication"@,
                    )
                },
            ) {
                Some(e) => place_stops(*old(self), *final(self), e),
                None => place_moves(*old(self), *final(self), PlaceStep::CheckCapacity),
            },
    {
        match self.publication.verify_staged(found) {
            Err(e) => {
                self.failed(e.as_str());
            },
            Ok(_) => {
                proof {
                    steps::push_holds(self.log@, self.step);
                }
                self.advance(PlaceStep::CheckCapacity);
            },
        }
    }

    /// What is published and what is staged was counted.
    pub fn capacity(&mut self, usage: &Result<Usage, String>)
        requires
            old(self).wf(),
            old(self).step == PlaceStep::CheckCapacity,
            within_store(*usage),
        ensures
            final(self).wf(),
            match *usage {
                Err(e) => place_stops(*old(self), *final(self), e@),
                Ok(_) => place_moves(*old(self), *final(self), PlaceStep::Record),
            },
    {
        match usage {
            Err(e) => {
                self.failed(e.as_str());
            },
            Ok(_) => {
                proof {
                    steps::push_holds(self.log@, self.step);
                }
                self.advance(PlaceStep::Record);
            },
        }
    }

    /// The receipt of the import was written, unless the same one stood there. `previous` is what
    /// stood there, and `kept` what came of making room, writing it or writing back its directory.
    pub fn recorded(
        &mut self,
        imports_inode: u64,
        directory_inode: u64,
        previous: &Result<Option<Receipt>, String>,
        kept: &Result<(), String>,
    )
        requires
            old(self).wf(),
            old(self).step == PlaceStep::Record,
        ensures
            final(self).wf(),
            match kept_complaint(
                old(self).publication.id@,
                old(self).publication.fingerprint@,
                imports_inode,
                directory_inode,
                *previous,
                *kept,
            ) {
                Some(e) => place_stops(*old(self), *final(self), e),
                None => place_moves(*old(self), *final(self), PlaceStep::Rename),
            },
    {
        let judged = media_ownership::keep(
            self.publication.id.as_str(),
            self.publication.fingerprint.as_str(),
            imports_inode,
            directory_inode,
            previous,
            kept,
        );
        match judged {
            Err(e) => {
                self.failed(e.as_str());
            },
            Ok(_) => {
                proof {
                    steps::push_holds(self.log@, self.step);
                }
                self.advance(PlaceStep::Rename);
            },
        }
    }

    /// The staged directory was renamed, unless something stood in its place.
    pub fn renamed(&mut self, result: &Result<(), String>)
        requires
            old(self).wf(),
            old(self).step == PlaceStep::Rename,
        ensures
            final(self).wf(),
            match prefixed("Publishing managed media: "@, *result) {
                Some(e) => place_stops(*old(self), *final(self), e),
                None => place_moves(*old(self), *final(self), PlaceStep::VerifyPlaced),
            },
    {
        match prefix("Publishing managed media: ", result) {
            Err(e) => {
                self.failed(e.as_str());
            },
            Ok(_) => {
                proof {
                    steps::push_holds(self.log@, self.step);
                }
                self.advance(PlaceStep::VerifyPlaced);
            },
        }
    }

    /// The directory in its place was fingerprinted.
    pub fn placed(&mut self, found: Result<String, String>)
        requires
            old(self).wf(),
            old(self).step == PlaceStep::VerifyPlaced,
        ensures
            final(self).wf(),
            match failure(
                compared(
                    found,
                    old(self).publication.fingerprint@,
                    "Published media identity changed"@,
                ),
            ) {
                Some(e) => place_stops(*old(self), *final(self), e),
                None => place_moves(*old(self), *final(self), PlaceStep::SyncStage),
            },
    {
        match self.publication.published(found) {
            Err(e) => {
                self.failed(e.as_str());
            },
            Ok(_) => {
                proof {
                    steps::push_holds(self.log@, self.step);
                }
                self.advance(PlaceStep::SyncStage);
            },
        }
    }

    /// The directory that was staged in was written back.
    pub fn stage_synced(&mut self)
        requires
            old(self).wf(),
            old(self).step == PlaceStep::SyncStage,
        ensures
            final(self).wf(),
            place_moves(*old(self), *final(self), PlaceStep::SyncImports),
    {
        proof {
            steps::push_holds(self.log@, self.step);
        }
        self.advance(PlaceStep::SyncImports);
    }

    /// The directory of imports was written back.
    pub fn imports_synced(&mut self)
        requires
            old(self).wf(),
            old(self).step == PlaceStep::SyncImports,
        ensures
            final(self).wf(),
            place_moves(*old(self), *final(self), PlaceStep::Placed),
    {
        proof {
            steps::push_holds(self.log@, self.step);
        }
        self.advance(PlaceStep::Placed);
    }
}

/// When staged media is about to take its place, it was verified, fits and has its receipt.
pub proof fn media_is_recorded_before_it_is_placed(m: Placement)
    requires
        m.wf(),
        m.step == PlaceStep::Rename,
        m.moving,
    ensures
        m.log@.contains(PlaceStep::VerifyStaged),
        m.log@.contains(PlaceStep::CheckCapacity),
        m.log@.contains(PlaceStep::Record),
{
}

/// Media counts as placed only after what stands in its place was fingerprinted there.
pub proof fn placed_media_is_verified(m: Placement)
    requires
        m.wf(),
        m.step == PlaceStep::Placed,
    ensures
        m.log@.contains(PlaceStep::VerifyPlaced),
        m.moving ==> m.log@.contains(PlaceStep::Record),
{
}

/// Whether two files agree in all that identifies them across a restart: the file number, the length,
/// the count of links, the owners, the mode and both times.
pub open spec fn same_identifying(a: Metadata, b: Metadata) -> bool {
    &&& a.ino == b.ino
    &&& a.len == b.len
    &&& a.nlink == b.nlink
    &&& a.uid == b.uid
    &&& a.gid == b.gid
    &&& a.mode == b.mode
    &&& a.mtime == b.mtime
    &&& a.mtime_nsec == b.mtime_nsec
    &&& a.ctime == b.ctime
    &&& a.ctime_nsec == b.ctime_nsec
}

/// Whether a listing holds an entry of the same name, and of a file that agrees in all that
/// identifies it.
pub open spec fn holds_like(entries: Seq<Entry>, e: Entry) -> bool {
    exists|j: int|
        0 <= j < entries.len() && (#[trigger] entries[j]).name@ == e.name@ && same_identifying(
            e.meta,
            entries[j].meta,
        )
}

/// Whether the names of a list have lengths that a number holds.
pub open spec fn countable(list: Seq<(Seq<char>, Metadata)>) -> bool {
    forall|i: int| 0 <= i < list.len() ==> encode_utf8((#[trigger] list[i]).0).len() <= u64::MAX
}

/// Files with the same identifying numbers agree in all that identifies them.
proof fn identifying_tells(a: Metadata, b: Metadata)
    requires
        identifying(a) == identifying(b),
    ensures
        same_identifying(a, b),
{
    let x = identifying(a);
    let y = identifying(b);
    assert(x[0] == y[0] && x[1] == y[1] && x[2] == y[2] && x[3] == y[3] && x[4] == y[4] && x[5]
        == y[5]);
    assert(x[6] == y[6] && x[7] == y[7] && x[8] == y[8] && x[9] == y[9]);
    signed_numbers_are_told_apart(a.mtime, b.mtime);
    signed_numbers_are_told_apart(a.mtime_nsec, b.mtime_nsec);
    signed_numbers_are_told_apart(a.ctime, b.ctime);
    signed_numbers_are_told_apart(a.ctime_nsec, b.ctime_nsec);
}

/// The bytes of a list begin with those of its first entry.
proof fn list_bytes_front(list: Seq<(Seq<char>, Metadata)>, n: int)
    requires
        0 < n <= list.len(),
    ensures
        list_bytes(list, n) == entry_bytes(list[0].0, list[0].1) + list_bytes(list.skip(1), n - 1),
    decreases n,
{
    let first = entry_bytes(list[0].0, list[0].1);
    if n == 1 {
        assert(list_bytes(list, 0) =~= Seq::<u8>::empty());
        assert(list_bytes(list.skip(1), 0) =~= Seq::<u8>::empty());
        assert(list_bytes(list, 1) =~= first + list_bytes(list.skip(1), 0));
    } else {
        list_bytes_front(list, n - 1);
        assert(list.skip(1)[n - 2] == list[n - 1]);
        assert(list_bytes(list, n) =~= first + list_bytes(list.skip(1), n - 1));
    }
}

/// The bytes of an entry tell its name and its file apart, whatever follows them.
proof fn entry_bytes_tell(
    a: (Seq<char>, Metadata),
    after_a: Seq<u8>,
    b: (Seq<char>, Metadata),
    after_b: Seq<u8>,
)
    requires
        encode_utf8(a.0).len() <= u64::MAX,
        encode_utf8(b.0).len() <= u64::MAX,
        entry_bytes(a.0, a.1) + after_a == entry_bytes(b.0, b.1) + after_b,
    ensures
        a.0 == b.0,
        same_identifying(a.1, b.1),
        after_a == after_b,
{
    let x = le64s(identifying(a.1));
    let y = le64s(identifying(b.1));
    let name_a = le64(encode_utf8(a.0).len() as u64) + encode_utf8(a.0);
    let name_b = le64(encode_utf8(b.0).len() as u64) + encode_utf8(b.0);
    assert(name_a + x + after_a =~= name_a + (x + after_a));
    assert(name_b + y + after_b =~= name_b + (y + after_b));
    counted_texts_are_told_apart(a.0, x + after_a, b.0, y + after_b);
    numbers_in_a_row_are_told_apart(identifying(a.1), after_a, identifying(b.1), after_b);
    identifying_tells(a.1, b.1);
}

/// An entry has bytes.
proof fn entry_bytes_len(e: (Seq<char>, Metadata))
    ensures
        entry_bytes(e.0, e.1).len() >= 8,
{
}

/// Lists with the same bytes hold the same names, with files that agree in all that identifies them.
proof fn list_bytes_tell(a: Seq<(Seq<char>, Metadata)>, b: Seq<(Seq<char>, Metadata)>)
    requires
        countable(a),
        countable(b),
        list_bytes(a, a.len() as int) == list_bytes(b, b.len() as int),
    ensures
        a.len() == b.len(),
        forall|i: int|
            0 <= i < a.len() ==> (#[trigger] a[i]).0 == b[i].0 && same_identifying(a[i].1, b[i].1),
    decreases a.len(),
{
    if a.len() > 0 {
        list_bytes_front(a, a.len() as int);
    }
    if b.len() > 0 {
        list_bytes_front(b, b.len() as int);
    }
    if a.len() > 0 && b.len() > 0 {
        entry_bytes_tell(
            a[0],
            list_bytes(a.skip(1), a.len() - 1),
            b[0],
            list_bytes(b.skip(1), b.len() - 1),
        );
        assert forall|i: int| 0 <= i < a.skip(1).len() implies encode_utf8(
            (#[trigger] a.skip(1)[i]).0,
        ).len() <= u64::MAX by {
            assert(a.skip(1)[i] == a[i + 1]);
        }
        assert forall|i: int| 0 <= i < b.skip(1).len() implies encode_utf8(
            (#[trigger] b.skip(1)[i]).0,
        ).len() <= u64::MAX by {
            assert(b.skip(1)[i] == b[i + 1]);
        }
        list_bytes_tell(a.skip(1), b.skip(1));
        assert forall|i: int| 0 <= i < a.len() implies (#[trigger] a[i]).0 == b[i].0
            && same_identifying(a[i].1, b[i].1) by {
            if i > 0 {
                assert(a.skip(1)[i - 1] == a[i]);
                assert(b.skip(1)[i - 1] == b[i]);
            }
        }
    } else if a.len() > 0 {
        entry_bytes_len(a[0]);
        assert(list_bytes(b, 0).len() == 0);
    } else if b.len() > 0 {
        entry_bytes_len(b[0]);
        assert(list_bytes(a, 0).len() == 0);
    }
}

/// A number after a prefix is told apart, whatever follows it.
proof fn prefixed_numbers_tell(
    prefix: Seq<u8>,
    x: u64,
    after_x: Seq<u8>,
    y: u64,
    after_y: Seq<u8>,
)
    requires
        prefix + le64(x) + after_x == prefix + le64(y) + after_y,
    ensures
        x == y,
        after_x == after_y,
{
    assert(le64(x) + after_x =~= (prefix + le64(x) + after_x).skip(prefix.len() as int));
    assert(le64(y) + after_y =~= (prefix + le64(y) + after_y).skip(prefix.len() as int));
    numbers_are_told_apart(x, after_x, y, after_y);
}

/// The bytes behind a fingerprint tell directories apart: another file number of the directory,
/// another name, or another file number, length, count of links, owner, mode or time of any file in
/// it gives other bytes.
pub proof fn directories_are_told_apart(
    a: Metadata,
    a_entries: Seq<Entry>,
    b: Metadata,
    b_entries: Seq<Entry>,
)
    requires
        listed_once(a_entries),
        listed_once(b_entries),
        forall|i: int|
            0 <= i < a_entries.len() ==> encode_utf8((#[trigger] a_entries[i]).name@).len()
                <= u64::MAX,
        forall|i: int|
            0 <= i < b_entries.len() ==> encode_utf8((#[trigger] b_entries[i]).name@).len()
                <= u64::MAX,
        directory_bytes(a, a_entries) == directory_bytes(b, b_entries),
    ensures
        a.ino == b.ino,
        forall|i: int|
            0 <= i < a_entries.len() ==> holds_like(b_entries, #[trigger] a_entries[i]),
        forall|i: int|
            0 <= i < b_entries.len() ==> holds_like(a_entries, #[trigger] b_entries[i]),
{
    let x = by_name(a_entries, a_entries.len() as int);
    let y = by_name(b_entries, b_entries.len() as int);
    let x_bytes = list_bytes(x, x.len() as int);
    let y_bytes = list_bytes(y, y.len() as int);
    prefixed_numbers_tell(identity_prefix(), a.ino, x_bytes, b.ino, y_bytes);
    ordered_names_are_countable(a_entries);
    ordered_names_are_countable(b_entries);
    list_bytes_tell(x, y);
    found_again(a_entries, b_entries, x, y);
    assert forall|i: int| 0 <= i < y.len() implies (#[trigger] y[i]).0 == x[i].0
        && same_identifying(y[i].1, x[i].1) by {
        assert(x[i].0 == y[i].0);
    }
    found_again(b_entries, a_entries, y, x);
}

/// The names of an ordered list are those that were listed.
proof fn ordered_names_are_countable(entries: Seq<Entry>)
    requires
        listed_once(entries),
        forall|i: int|
            0 <= i < entries.len() ==> encode_utf8((#[trigger] entries[i]).name@).len() <= u64::MAX,
    ensures
        countable(by_name(entries, entries.len() as int)),
{
    let n = entries.len() as int;
    let list = by_name(entries, n);
    by_name_holds(entries, n);
    assert forall|i: int| 0 <= i < list.len() implies encode_utf8((#[trigger] list[i]).0).len()
        <= u64::MAX by {
        assert(list.contains(list[i]));
        assert(among(entries, n, list[i]));
        let k = choose|k: int|
            0 <= k < n && ((#[trigger] entries[k]).name@, entries[k].meta) == list[i];
        assert(encode_utf8(entries[k].name@).len() <= u64::MAX);
    }
}

/// Where ordered lists agree, every entry of the one listing has its like in the other.
proof fn found_again(
    a: Seq<Entry>,
    b: Seq<Entry>,
    x: Seq<(Seq<char>, Metadata)>,
    y: Seq<(Seq<char>, Metadata)>,
)
    requires
        listed_once(a),
        listed_once(b),
        x == by_name(a, a.len() as int),
        y == by_name(b, b.len() as int),
        x.len() == y.len(),
        forall|i: int|
            0 <= i < x.len() ==> (#[trigger] x[i]).0 == y[i].0 && same_identifying(x[i].1, y[i].1),
    ensures
        forall|i: int|
            0 <= i < a.len() ==> holds_like(b, #[trigger] a[i]),
{
    by_name_holds(a, a.len() as int);
    by_name_holds(b, b.len() as int);
    assert forall|i: int| 0 <= i < a.len() implies holds_like(b, #[trigger] a[i]) by {
        let e = (a[i].name@, a[i].meta);
        assert(among(a, a.len() as int, e));
        assert(x.contains(e));
        let k = choose|k: int| 0 <= k < x.len() && x[k] == e;
        assert(x[k].0 == y[k].0 && same_identifying(x[k].1, y[k].1));
        assert(y.contains(y[k]));
        assert(among(b, b.len() as int, y[k]));
        let j = choose|j: int|
            0 <= j < b.len() && ((#[trigger] b[j]).name@, b[j].meta) == y[k];
        assert(b[j].name@ == a[i].name@ && same_identifying(a[i].meta, b[j].meta));
    }
}


/// Directories with one fingerprint are the same in all that it covers, unless SHA-256 has a
/// collision there: where an entry was added, removed or renamed, or its file number, length, count
/// of links, owner, mode or time changed, the fingerprint is another one.
pub proof fn fingerprints_tell_directories_apart(
    uid: u32,
    a: Metadata,
    a_entries: Seq<Entry>,
    a_after: Metadata,
    b: Metadata,
    b_entries: Seq<Entry>,
    b_after: Metadata,
)
    requires
        listed_once(a_entries),
        listed_once(b_entries),
        forall|i: int|
            0 <= i < a_entries.len() ==> encode_utf8((#[trigger] a_entries[i]).name@).len()
                <= u64::MAX,
        forall|i: int|
            0 <= i < b_entries.len() ==> encode_utf8((#[trigger] b_entries[i]).name@).len()
                <= u64::MAX,
        fingerprint_of(uid, a, a_entries, a_after) is Ok,
        fingerprint_of(uid, a, a_entries, a_after) == fingerprint_of(uid, b, b_entries, b_after),
    ensures
        collides(directory_bytes(a, a_entries), directory_bytes(b, b_entries)) || {
            &&& a.ino == b.ino
            &&& forall|i: int|
                0 <= i < a_entries.len() ==> holds_like(b_entries, #[trigger] a_entries[i])
            &&& forall|i: int|
                0 <= i < b_entries.len() ==> holds_like(a_entries, #[trigger] b_entries[i])
        },
{
    fingerprints_tell_contents_apart(
        directory_bytes(a, a_entries),
        directory_bytes(b, b_entries),
    );
    if directory_bytes(a, a_entries) == directory_bytes(b, b_entries) {
        directories_are_told_apart(a, a_entries, b, b_entries);
    }
}

proof fn digits_hold_no_dot(h: Seq<char>, n: int)
    requires
        text::hex_of_len(h, n),
    ensures
        !h.contains('.'),
{
    if h.contains('.') {
        let i = h.index_of('.');
        assert(text::is_hex(h[i]));
        assert('.' as u32 == 0x2e);
    }
}

/// Names of media are digests, alone or with an extension: a digest names its object, a digest with a
/// dot and an extension of one to sixteen letters and digits names an alias of that object, and
/// nothing else is a name.
pub proof fn media_are_named_by_their_digest(name: Seq<char>, h: Seq<char>, e: Seq<char>)
    requires
        text::hex_of_len(h, 64),
    ensures
        media_name(h) && is_object(h) && stem(h) == h,
        media_name(h.push('.') + e) <==> 1 <= e.len() <= 16 && text::all_alphanumeric(e),
        !is_object(h.push('.') + e),
        stem(h.push('.') + e) == h,
        media_name(name) ==> text::hex_of_len(stem(name), 64) && (name == stem(name) || exists|x: Seq<
            char,
        >|
            name == #[trigger] (stem(name).push('.') + x) && 1 <= x.len() <= 16
                && text::all_alphanumeric(x)),
{
    digits_hold_no_dot(h, 64);
    text::splitting_undoes_joining(h, '.', e);
    text::splitting_loses_nothing(name, '.');
    if media_name(name) {
        match text::split_once_spec(name, '.') {
            Some((a, x)) => {
                assert(name == stem(name).push('.') + x);
            },
            None => {},
        }
    }
}

proof fn all_entries_fit(entries: Seq<Entry>, uid: u32, from: int)
    requires
        0 <= from,
        forall|i: int|
            from <= i < entries.len() ==> (#[trigger] entry_complaint(entries, uid, i)) is None,
    ensures
        first_complaint(entries, uid, from) is None,
    decreases entries.len() - from,
{
    if from < entries.len() {
        assert(entry_complaint(entries, uid, from) is None);
        all_entries_fit(entries, uid, from + 1);
    }
}

proof fn all_aliases_fit(entries: Seq<Entry>, list: Seq<(Seq<char>, Metadata)>, i: int)
    requires
        0 <= i,
    ensures
        first_alias_complaint(entries, list, i) is None <==> forall|k: int|
            i <= k < list.len() ==> alias_complaint(
                entries,
                (#[trigger] list[k]).0,
                list[k].1,
            ) is None,
    decreases list.len() - i,
{
    if i < list.len() {
        all_aliases_fit(entries, list, i + 1);
        if alias_complaint(entries, list[i].0, list[i].1) is Some {
            assert(alias_complaint(entries, list[i].0, list[i].1) is Some);
        }
    }
}

/// Whether an entry has an object among the entries: a file of the same number whose name is the
/// digest in the entry's own name.
pub open spec fn has_object(entries: Seq<Entry>, e: Entry) -> bool {
    exists|j: int|
        0 <= j < entries.len() && is_object((#[trigger] entries[j]).name@) && entries[j].meta.dev
            == e.meta.dev && entries[j].meta.ino == e.meta.ino && entries[j].name@ == stem(e.name@)
}

#[verifier::rlimit(40)]
proof fn aliases_have_objects(entries: Seq<Entry>)
    requires
        listed_once(entries),
    ensures
        first_alias_complaint(entries, by_name(entries, entries.len() as int), 0) is None
            <==> forall|i: int|
            0 <= i < entries.len() ==> has_object(entries, #[trigger] entries[i]),
{
    let n = entries.len() as int;
    let list = by_name(entries, n);
    by_name_holds(entries, n);
    all_aliases_fit(entries, list, 0);
    assert forall|i: int| 0 <= i < n implies (has_object(entries, #[trigger] entries[i])
        <==> alias_complaint(entries, entries[i].name@, entries[i].meta) is None) by {
        let e = entries[i];
        if has_object(entries, e) {
            let j = choose|j: int|
                0 <= j < entries.len() && is_object((#[trigger] entries[j]).name@)
                    && entries[j].meta.dev == e.meta.dev && entries[j].meta.ino == e.meta.ino
                    && entries[j].name@ == stem(e.name@);
            assert(same_object(entries, j, e.meta));
        }
        if alias_complaint(entries, e.name@, e.meta) is None {
            let j = choose|j: int|
                0 <= j < entries.len() && #[trigger] same_object(entries, j, e.meta)
                    && entries[j].name@ == stem(e.name@);
            assert(is_object(entries[j].name@));
        }
    }
    if first_alias_complaint(entries, list, 0) is None {
        assert forall|i: int| 0 <= i < n implies has_object(entries, #[trigger] entries[i]) by {
            let x = (entries[i].name@, entries[i].meta);
            assert(among(entries, n, x));
            assert(list.contains(x));
            let k = list.index_of(x);
            assert(alias_complaint(entries, list[k].0, list[k].1) is None);
        }
    }
    if forall|i: int| 0 <= i < n ==> has_object(entries, #[trigger] entries[i]) {
        assert forall|k: int| 0 <= k < list.len() implies alias_complaint(
            entries,
            (#[trigger] list[k]).0,
            list[k].1,
        ) is None by {
            assert(list.contains(list[k]));
            assert(among(entries, n, list[k]));
            let i = choose|i: int|
                0 <= i < n && ((#[trigger] entries[i]).name@, entries[i].meta) == list[k];
            assert(has_object(entries, entries[i]));
        }
    }
}

proof fn fitting_entries_are_sound(entries: Seq<Entry>, uid: u32)
    requires
        first_complaint(entries, uid, 0) is None,
    ensures
        forall|i: int|
            0 <= i < entries.len() ==> media_name((#[trigger] entries[i]).name@) && private_file(
                entries[i].meta,
                uid,
            ) && entries[i].meta.len <= MAX_FILE_BYTES,
        forall|i: int, j: int|
            0 <= i < j < entries.len() && is_object((#[trigger] entries[i]).name@) && is_object(
                (#[trigger] entries[j]).name@,
            ) ==> !(entries[i].meta.dev == entries[j].meta.dev && entries[i].meta.ino
                == entries[j].meta.ino),
        entries.len() <= 8192,
        object_count(entries, entries.len() as int) <= 4096,
        object_bytes(entries, entries.len() as int) <= 8_589_934_592,
{
    let n = entries.len() as int;
    no_complaint(entries, uid, 0);
    weights_fit(entries, uid, n);
    assert forall|i: int| 0 <= i < n implies {
        &&& media_name((#[trigger] entries[i]).name@)
        &&& private_file(entries[i].meta, uid)
        &&& entries[i].meta.len <= MAX_FILE_BYTES
    } by {
        assert(entry_complaint(entries, uid, i) is None);
    }
    assert forall|i: int, j: int|
        0 <= i < j < n && is_object((#[trigger] entries[i]).name@) && is_object(
            (#[trigger] entries[j]).name@,
        ) implies !(entries[i].meta.dev == entries[j].meta.dev && entries[i].meta.ino
        == entries[j].meta.ino) by {
        assert(entry_complaint(entries, uid, j) is None);
        if entries[i].meta.dev == entries[j].meta.dev && entries[i].meta.ino
            == entries[j].meta.ino {
            assert(same_object(entries, i, entries[j].meta));
        }
    }
}

#[verifier::rlimit(40)]
proof fn sound_entries_fit(entries: Seq<Entry>, uid: u32)
    requires
        forall|i: int|
            0 <= i < entries.len() ==> media_name((#[trigger] entries[i]).name@) && private_file(
                entries[i].meta,
                uid,
            ) && entries[i].meta.len <= MAX_FILE_BYTES,
        forall|i: int, j: int|
            0 <= i < j < entries.len() && is_object((#[trigger] entries[i]).name@) && is_object(
                (#[trigger] entries[j]).name@,
            ) ==> !(entries[i].meta.dev == entries[j].meta.dev && entries[i].meta.ino
                == entries[j].meta.ino),
        entries.len() <= 8192,
        object_count(entries, entries.len() as int) <= 4096,
        object_bytes(entries, entries.len() as int) <= 8_589_934_592,
    ensures
        first_complaint(entries, uid, 0) is None,
{
    let n = entries.len() as int;
    assert forall|i: int| 0 <= i < n implies (#[trigger] entry_complaint(
        entries,
        uid,
        i,
    )) is None by {
        weights_grow(entries, i + 1, n);
        assert(media_name(entries[i].name@));
        if is_object(entries[i].name@) && object_before(entries, i, entries[i].meta) {
            let j = choose|j: int|
                0 <= j < i && #[trigger] same_object(entries, j, entries[i].meta);
            assert(is_object(entries[j].name@));
        }
    }
    all_entries_fit(entries, uid, 0);
}

/// A media directory has a fingerprint exactly where it was left alone while it was read and holds
/// nothing but media: at most 8192 private files with names of media, none larger than 2 GiB, no two
/// objects that are one file, at most 4096 objects of at most 8 GiB together, and each file an alias
/// of an object that is there under the digest of its name.
#[verifier::rlimit(40)]
pub proof fn sound_directories_have_a_fingerprint(
    uid: u32,
    before: Metadata,
    entries: Seq<Entry>,
    after: Metadata,
)
    requires
        listed_once(entries),
    ensures
        fingerprint_of(uid, before, entries, after) is Ok <==> {
            &&& entries.len() <= 8192
            &&& forall|i: int|
                0 <= i < entries.len() ==> {
                    &&& media_name((#[trigger] entries[i]).name@)
                    &&& entries[i].meta.kind == FileKind::File
                    &&& entries[i].meta.uid == uid
                    &&& entries[i].meta.mode & 0o777 == 0o600
                    &&& entries[i].meta.len <= 2_147_483_648
                }
            &&& forall|i: int, j: int|
                0 <= i < j < entries.len() && is_object((#[trigger] entries[i]).name@) && is_object(
                    (#[trigger] entries[j]).name@,
                ) ==> !(entries[i].meta.dev == entries[j].meta.dev && entries[i].meta.ino
                    == entries[j].meta.ino)
            &&& object_count(entries, entries.len() as int) <= 4096
            &&& object_bytes(entries, entries.len() as int) <= 8_589_934_592
            &&& forall|i: int| 0 <= i < entries.len() ==> has_object(entries, #[trigger] entries[i])
            &&& before.mtime == after.mtime && before.mtime_nsec == after.mtime_nsec && before.ctime
                == after.ctime && before.ctime_nsec == after.ctime_nsec
        },
{
    aliases_have_objects(entries);
    if first_complaint(entries, uid, 0) is None {
        fitting_entries_are_sound(entries, uid);
    }
    if entries.len() <= 8192 && object_count(entries, entries.len() as int) <= 4096
        && object_bytes(entries, entries.len() as int) <= 8_589_934_592 && (forall|i: int|
            0 <= i < entries.len() ==> media_name((#[trigger] entries[i]).name@) && private_file(
                entries[i].meta,
                uid,
            ) && entries[i].meta.len <= MAX_FILE_BYTES) && (forall|i: int, j: int|
            0 <= i < j < entries.len() && is_object((#[trigger] entries[i]).name@) && is_object(
                (#[trigger] entries[j]).name@,
            ) ==> !(entries[i].meta.dev == entries[j].meta.dev && entries[i].meta.ino
                == entries[j].meta.ino)) {
        sound_entries_fit(entries, uid);
    }
}

/// One more file fits exactly where there is room and time for it, it is a regular file, and its bytes
/// fit what is left of the quota, unless it was counted before under another name.
pub proof fn files_fit_the_quota(u: Usage, found: Result<Metadata, String>, late: bool)
    requires
        u.wf(),
        u.step != UsageStep::Failed,
    ensures
        usage_complaint(u, found, late) is None <==> {
            let meta = found->Ok_0;
            &&& u.entries < 65_536
            &&& !late
            &&& found is Ok
            &&& meta.kind == FileKind::File
            &&& was_counted(u.counted@, file_number(meta.dev, meta.ino)) || u.bytes + meta.len
                <= u.limit
        },
{
}

/// Media are moved exactly where nothing stands at their place, and only verified where they stand
/// there and are gone from where they were staged. Nothing is ever replaced.
pub proof fn media_are_moved_to_free_places(m: MediaPublication, target: Presence, source: Presence)
    ensures
        publish_of(m, target, source) == Ok::<Publish, Seq<char>>(Publish::Move) <==> m.valid()
            && target is Missing,
        publish_of(m, target, source) == Ok::<Publish, Seq<char>>(Publish::Verify) <==> m.valid()
            && target is Present && source is Missing,
        publish_of(m, target, source) is Ok ==> target is Missing || source is Missing,
{
}

/// A fingerprint is the expected one exactly where it could be taken and is equal.
pub proof fn fingerprints_are_compared(
    found: Result<String, String>,
    expected: Seq<char>,
    words: Seq<char>,
)
    ensures
        compared(found, expected, words) is Ok <==> found is Ok && found->Ok_0@ == expected,
{
}

/// A directory is accepted exactly where it belongs to the account and neither its group nor others
/// may write there.
pub proof fn directories_belong_to_their_account(m: Metadata, uid: u32)
    ensures
        directory_complaint(m, uid) is None <==> m.uid == uid && m.mode & 0o022 == 0,
{
}

/// A generated name is its prefix followed by 6 to 32 letters and digits.
pub proof fn generated_names_follow_their_prefix(prefix: Seq<char>, suffix: Seq<char>, name: Seq<char>)
    ensures
        generated(prefix + suffix, prefix) <==> 6 <= suffix.len() <= 32 && text::all_alphanumeric(
            suffix,
        ),
        generated(name, prefix) ==> name == prefix + name.skip(prefix.len() as int),
{
    assert((prefix + suffix).skip(prefix.len() as int) =~= suffix);
    assert((prefix + suffix).take(prefix.len() as int) =~= prefix);
    if generated(name, prefix) {
        assert(name =~= name.take(prefix.len() as int) + name.skip(prefix.len() as int));
    }
}

} // verus!
