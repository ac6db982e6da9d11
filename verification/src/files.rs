//! What the library needs to know of files: their metadata as plain numbers, and the checks on
//! ownership and permissions that recur.

use vstd::prelude::*;

verus! {

#[derive(Clone, Copy, Debug, PartialEq, Eq, Structural)]
pub enum FileKind {
    File,
    Directory,
    CharDevice,
    Symlink,
    Other,
}

/// The metadata of a file.
#[derive(Clone, Copy, Debug, PartialEq, Eq, Structural)]
pub struct Metadata {
    pub kind: FileKind,
    pub uid: u32,
    pub gid: u32,
    pub mode: u32,
    pub dev: u64,
    pub ino: u64,
    pub len: u64,
    pub nlink: u64,
    pub mtime: i64,
    pub mtime_nsec: i64,
    pub ctime: i64,
    pub ctime_nsec: i64,
}

/// A regular file that only its owner can read or write.
pub open spec fn private_file(m: Metadata, uid: u32) -> bool {
    m.kind == FileKind::File && m.uid == uid && m.mode & 0o777 == 0o600
}

/// An entry that belongs to an account and that nobody else can write.
pub open spec fn owned_unshared(m: Metadata, uid: u32) -> bool {
    m.uid == uid && m.mode & 0o022 == 0
}

impl Metadata {
    pub fn is_private_file(&self, uid: u32) -> (r: bool)
        ensures
            r == private_file(*self, uid),
    {
        self.kind == FileKind::File && self.uid == uid && self.mode & 0o777 == 0o600
    }

    pub fn is_owned_unshared(&self, uid: u32) -> (r: bool)
        ensures
            r == owned_unshared(*self, uid),
    {
        self.uid == uid && self.mode & 0o022 == 0
    }
}

/// A file is private exactly where it is a regular one of the account that only its owner may read and
/// write. An entry is unshared exactly where it is the account's and neither its group nor others may
/// write it.
pub proof fn private_files_are_for_their_owner(m: Metadata, uid: u32)
    ensures
        private_file(m, uid) <==> m.kind == FileKind::File && m.uid == uid && m.mode & 0o777 == 0o600,
        owned_unshared(m, uid) <==> m.uid == uid && m.mode & 0o022 == 0,
{
}

} // verus!
