//! Who holds the lock on the hardware, as the kernel's table of locks tells it.

use crate::command::Output;
use crate::container_destination::{file_of, identify};
use crate::destination::check_output;
use crate::files::{FileKind, Metadata};
use crate::services::{FileIdentity, OwnershipSnapshot};
use crate::text;
use crate::text::{outcome, texts};
use vstd::prelude::*;

verus! {

/// The largest table of locks, in bytes.
pub const MAX_TABLE: usize = 65_536;

/// The file type in a mode.
pub const TYPE_MASK: u32 = 0o170000;

/// The type of a regular file.
pub const REGULAR: u32 = 0o100000;

/// The number of the device with these numbers.
pub open spec fn device_number(major: u32, minor: u32) -> u64 {
    (major as u64 & 0xfff) << 8 | (major as u64 & 0xfffff000) << 32 | (minor as u64 & 0xff) | (
    minor as u64 & 0xffffff00) << 12
}

/// `libc::makedev`: packs the two numbers of a device into one. The low twelve bits of the major
/// number go to the places from 8 on, the others 32 places up. The low eight bits of the minor number
/// stay, the others go 12 places up.
#[verifier::external_body]
fn makedev(major: u32, minor: u32) -> (r: u64)
    ensures
        r == device_number(major, minor),
{
    libc::makedev(major, minor)
}

pub open spec fn lock_file_complaint(m: Metadata, require_root: bool) -> Option<Seq<char>> {
    if m.kind != FileKind::File {
        Some("Ownership lock is not a regular file"@)
    } else if require_root && m.uid != 0 {
        Some("Host ownership lock must belong to root"@)
    } else {
        None
    }
}

/// The identity of a lock file.
pub fn file_identity(m: &Metadata, require_root: bool) -> (r: Result<FileIdentity, String>)
    ensures
        match r {
            Ok(identity) => lock_file_complaint(*m, require_root) is None && identity@ == file_of(
                *m,
            ),
            Err(e) => lock_file_complaint(*m, require_root) == Some(e@),
        },
{
    if m.kind != FileKind::File {
        return Err("Ownership lock is not a regular file".to_owned());
    }
    if require_root && m.uid != 0 {
        return Err("Host ownership lock must belong to root".to_owned());
    }
    Ok(identify(m))
}

/// The value of a call that gives an identity.
pub open spec fn identified(r: Result<FileIdentity, String>) -> Result<
    (Seq<char>, Seq<char>),
    Seq<char>,
> {
    match r {
        Ok(i) => Ok(i@),
        Err(e) => Err(e@),
    }
}

/// The identity that the host printed of a lock file.
pub open spec fn stat_of(s: Seq<char>) -> Result<(Seq<char>, Seq<char>), Seq<char>> {
    let fields = text::words(s);
    if fields.len() != 4 {
        Err("Invalid host lock metadata"@)
    } else {
        match text::u32_of(fields[2], 16) {
            Err(e) => Err(e),
            Ok(mode) => if !(mode & TYPE_MASK == REGULAR && fields[3] == "0"@) {
                Err("Host ownership lock is not a root-owned regular file"@)
            } else {
                match (text::u64_of(fields[0], 10), text::u64_of(fields[1], 10)) {
                    (Err(e), _) => Err(e),
                    (_, Err(e)) => Err(e),
                    (Ok(device), Ok(inode)) => Ok(
                        (text::decimal(device as nat), text::decimal(inode as nat)),
                    ),
                }
            },
        }
    }
}

pub fn parse_stat(s: &str) -> (r: Result<FileIdentity, String>)
    ensures
        identified(r) == stat_of(s@),
{
    let fields = text::split_whitespace(s);
    let ghost all = texts(fields@);
    assert(all.len() == fields@.len());
    if fields.len() != 4 {
        return Err("Invalid host lock metadata".to_owned());
    }
    assert(all[0] == fields@[0]@ && all[1] == fields@[1]@ && all[2] == fields@[2]@ && all[3]
        == fields@[3]@);
    let mode: u32 = text::read_u32(fields[2].as_str(), 16)?;
    if !(mode & TYPE_MASK == REGULAR && text::eq(fields[3].as_str(), "0")) {
        return Err("Host ownership lock is not a root-owned regular file".to_owned());
    }
    let device: u64 = text::read_u64(fields[0].as_str(), 10)?;
    let inode: u64 = text::read_u64(fields[1].as_str(), 10)?;
    Ok(FileIdentity { device: text::format_u64(device), inode: text::format_u64(inode) })
}

/// The identity of a lock file, by what the host answered.
pub fn host_identity(output: &Output) -> (r: Result<FileIdentity, String>)
    ensures
        identified(r) == if output.code == Some(0i32) {
            stat_of(output.stdout@)
        } else {
            Err("Cannot inspect host ownership file: "@ + text::trimmed(output.stderr@))
        },
{
    if !output.success() {
        let mut e = "Cannot inspect host ownership file: ".to_owned();
        e.append(text::trim(output.stderr.as_str()).as_str());
        return Err(e);
    }
    parse_stat(output.stdout.as_str())
}

pub fn check_table(table: &str) -> (r: Result<(), String>)
    ensures
        outcome(r) == if text::byte_len(table@) <= MAX_TABLE {
            Ok(())
        } else {
            Err("Kernel lock table exceeds the inspection limit"@)
        },
{
    if text::len(table) <= MAX_TABLE {
        Ok(())
    } else {
        Err("Kernel lock table exceeds the inspection limit".to_owned())
    }
}

/// A line of the table that tells of a process that waits.
pub open spec fn is_waiting(fields: Seq<Seq<char>>) -> bool {
    fields.len() > 1 && fields[1] == "->"@
}

/// Whether a line of the table speaks of the file with this device and inode.
pub open spec fn speaks_of(field: Seq<char>, device: u64, inode: nat) -> Result<bool, Seq<char>> {
    let key = text::pieces(field, ':');
    if key.len() != 3 {
        Err("Invalid kernel lock file identity"@)
    } else {
        match (text::u32_of(key[0], 16), text::u32_of(key[1], 16)) {
            (Err(e), _) => Err(e),
            (_, Err(e)) => Err(e),
            (Ok(major), Ok(minor)) => if device_number(major, minor) != device {
                Ok(false)
            } else {
                match text::u64_of(key[2], 10) {
                    Ok(number) => Ok(number == inode),
                    Err(e) => Err(e),
                }
            },
        }
    }
}

/// A lock as the daemon takes it.
pub open spec fn is_daemon_lock(fields: Seq<Seq<char>>) -> bool {
    fields[1] == "FLOCK"@ && fields[2] == "ADVISORY"@ && fields[3] == "WRITE"@ && fields[6] == "0"@
        && fields[7] == "EOF"@
}

/// What a line of the table says of a file: nothing, or the process that holds it.
pub open spec fn holder_of(line: Seq<char>, device: u64, inode: nat) -> Result<
    Option<u32>,
    Seq<char>,
> {
    let fields = text::words(line);
    if is_waiting(fields) {
        Ok(None)
    } else if fields.len() != 8 {
        Err("Unrecognized kernel lock record"@)
    } else {
        match speaks_of(fields[5], device, inode) {
            Err(e) => Err(e),
            Ok(same) => if !same {
                Ok(None)
            } else if !is_daemon_lock(fields) {
                Err("Unexpected lock type on the daemon ownership file"@)
            } else {
                match text::u32_of(fields[4], 10) {
                    Err(e) => Err("Kernel lock owner is not identifiable: "@ + e),
                    Ok(pid) => if pid == 0 {
                        Err("Ambiguous kernel lock ownership"@)
                    } else {
                        Ok(Some(pid))
                    },
                }
            },
        }
    }
}

/// The holder of a file by the lines from `i` on, where `owner` was found before.
pub open spec fn owner_from(
    lines: Seq<Seq<char>>,
    i: int,
    device: u64,
    inode: nat,
    owner: Option<u32>,
) -> Result<Option<u32>, Seq<char>>
    decreases lines.len() - i,
{
    if i < 0 || i >= lines.len() {
        Ok(owner)
    } else {
        match holder_of(lines[i], device, inode) {
            Err(e) => Err(e),
            Ok(None) => owner_from(lines, i + 1, device, inode, owner),
            Ok(Some(pid)) => if owner is Some {
                Err("Ambiguous kernel lock ownership"@)
            } else {
                owner_from(lines, i + 1, device, inode, Some(pid))
            },
        }
    }
}

pub open spec fn owner_of(table: Seq<char>, identity: (Seq<char>, Seq<char>)) -> Result<
    Option<u32>,
    Seq<char>,
> {
    match (text::u64_of(identity.0, 10), text::u64_of(identity.1, 10)) {
        (Err(e), _) => Err(e),
        (_, Err(e)) => Err(e),
        (Ok(device), Ok(inode)) => owner_from(
            text::lines_of(table),
            0,
            device,
            inode as nat,
            None,
        ),
    }
}

fn is_of(field: &str, device: u64, inode: u64) -> (r: Result<bool, String>)
    ensures
        outcome(r) == speaks_of(field@, device, inode as nat),
{
    let key = text::split(field, ':');
    let ghost all = texts(key@);
    assert(all.len() == key@.len());
    if key.len() != 3 {
        return Err("Invalid kernel lock file identity".to_owned());
    }
    assert(all[0] == key@[0]@ && all[1] == key@[1]@ && all[2] == key@[2]@);
    let major: u32 = text::read_u32(key[0].as_str(), 16)?;
    let minor: u32 = text::read_u32(key[1].as_str(), 16)?;
    if makedev(major, minor) != device {
        return Ok(false);
    }
    let number: u64 = text::read_u64(key[2].as_str(), 10)?;
    Ok(number == inode)
}

fn holder(line: &str, device: u64, inode: u64) -> (r: Result<Option<u32>, String>)
    ensures
        outcome(r) == holder_of(line@, device, inode as nat),
{
    let fields = text::split_whitespace(line);
    let ghost all = texts(fields@);
    assert(all.len() == fields@.len());
    assert(fields@.len() > 1 ==> all[1] == fields@[1]@);
    if fields.len() > 1 && text::eq(fields[1].as_str(), "->") {
        return Ok(None);
    }
    if fields.len() != 8 {
        return Err("Unrecognized kernel lock record".to_owned());
    }
    assert(all[2] == fields@[2]@ && all[3] == fields@[3]@ && all[4] == fields@[4]@ && all[5]
        == fields@[5]@ && all[6] == fields@[6]@ && all[7] == fields@[7]@);
    if !is_of(fields[5].as_str(), device, inode)? {
        return Ok(None);
    }
    if !(text::eq(fields[1].as_str(), "FLOCK") && text::eq(fields[2].as_str(), "ADVISORY")
        && text::eq(fields[3].as_str(), "WRITE") && text::eq(fields[6].as_str(), "0") && text::eq(
        fields[7].as_str(),
        "EOF",
    )) {
        return Err("Unexpected lock type on the daemon ownership file".to_owned());
    }
    match text::read_u32(fields[4].as_str(), 10) {
        Err(cause) => {
            let mut e = "Kernel lock owner is not identifiable: ".to_owned();
            e.append(cause.as_str());
            Err(e)
        },
        Ok(pid) => {
            if pid == 0 {
                return Err("Ambiguous kernel lock ownership".to_owned());
            }
            Ok(Some(pid))
        },
    }
}

/// The process that holds the lock on a file, by the kernel's table of locks.
pub fn lock_owner(table: &str, identity: &FileIdentity) -> (r: Result<Option<u32>, String>)
    ensures
        outcome(r) == owner_of(table@, identity@),
{
    let device: u64 = text::read_u64(identity.device.as_str(), 10)?;
    let inode: u64 = text::read_u64(identity.inode.as_str(), 10)?;
    let lines = text::lines(table);
    let ghost all = texts(lines@);
    let mut owner: Option<u32> = None;
    let mut i: usize = 0;
    while i < lines.len()
        invariant
            all == texts(lines@),
            i <= lines@.len(),
            owner_of(table@, identity@) == owner_from(
                all,
                i as int,
                device,
                inode as nat,
                owner,
            ),
        decreases lines@.len() - i,
    {
        assert(all[i as int] == lines@[i as int]@);
        match holder(lines[i].as_str(), device, inode)? {
            None => {},
            Some(pid) => {
                if owner.is_some() {
                    return Err("Ambiguous kernel lock ownership".to_owned());
                }
                owner = Some(pid);
            },
        }
        i += 1;
    }
    assert(all.len() == lines@.len());
    Ok(owner)
}

/// The kernel's table of locks, as it was read.
pub enum Table {
    /// On the host itself, up to one byte more than is accepted.
    Own { text: String },
    /// From a container through the host, with the lock as the host named it before and after.
    Host { before: FileIdentity, output: Output, after: FileIdentity },
}

/// What an inspection of the lock saw: the file before and after, as this process names it, and the
/// table.
pub struct LockFacts {
    pub before: FileIdentity,
    pub table: Table,
    pub after: FileIdentity,
}

pub open spec fn stable_complaint(facts: LockFacts) -> Option<Seq<char>> {
    let read = match facts.table {
        Table::Own { text } => if text::byte_len(text@) > MAX_TABLE {
            Some("Kernel lock table exceeds the inspection limit"@)
        } else {
            None
        },
        Table::Host { before, output, after } => if before@ != facts.before@ {
            Some("Container and host paths identify different ownership locks"@)
        } else if output.code != Some(0i32) {
            Some("Cannot inspect host kernel locks: "@ + text::trimmed(output.stderr@))
        } else if after@ != facts.before@ {
            Some("Host ownership lock changed during inspection"@)
        } else {
            None
        },
    };
    match read {
        Some(e) => Some(e),
        None => if facts.after@ != facts.before@ {
            Some("Ownership lock changed during inspection"@)
        } else {
            None
        },
    }
}

/// The text of a table.
pub open spec fn table_of(table: Table) -> Seq<char> {
    match table {
        Table::Own { text } => text@,
        Table::Host { before, output, after } => output.stdout@,
    }
}

/// Who holds the hardware: the lock must have stayed the same file while the table was read.
pub fn inspect(facts: LockFacts) -> (r: Result<OwnershipSnapshot, String>)
    ensures
        match r {
            Ok(snapshot) => {
                &&& stable_complaint(facts) is None
                &&& owner_of(table_of(facts.table), facts.before@) == Ok::<Option<u32>, Seq<char>>(
                    snapshot.owner_pid,
                )
                &&& snapshot.identity == facts.before
                &&& snapshot.process is None
            },
            Err(e) => match stable_complaint(facts) {
                Some(complaint) => e@ == complaint,
                None => owner_of(table_of(facts.table), facts.before@) == Err::<Option<u32>, Seq<char>>(e@),
            },
        },
{
    let table = match &facts.table {
        Table::Own { text } => {
            check_table(text.as_str())?;
            text.as_str()
        },
        Table::Host { before, output, after } => {
            if !before.same(&facts.before) {
                return Err(
                    "Container and host paths identify different ownership locks".to_owned(),
                );
            }
            check_output(output, "Cannot inspect host kernel locks: ")?;
            if !after.same(&facts.before) {
                return Err("Host ownership lock changed during inspection".to_owned());
            }
            output.stdout.as_str()
        },
    };
    if !facts.after.same(&facts.before) {
        return Err("Ownership lock changed during inspection".to_owned());
    }
    let owner_pid = lock_owner(table, &facts.before)?;
    Ok(OwnershipSnapshot { identity: facts.before, owner_pid, process: None })
}

/// The process that a table names holds that very file by the daemon's kind of lock.
pub proof fn owners_hold_the_lock(
    lines: Seq<Seq<char>>,
    i: int,
    device: u64,
    inode: nat,
    owner: Option<u32>,
    pid: u32,
)
    requires
        0 <= i <= lines.len(),
        owner is None,
        owner_from(lines, i, device, inode, owner) == Ok::<Option<u32>, Seq<char>>(Some(pid)),
    ensures
        exists|at: int|
            i <= at < lines.len() && #[trigger] holder_of(lines[at], device, inode) == Ok::<
                Option<u32>,
                Seq<char>,
            >(Some(pid)),
    decreases lines.len() - i,
{
    if i < lines.len() {
        match holder_of(lines[i], device, inode) {
            Ok(None) => {
                owners_hold_the_lock(lines, i + 1, device, inode, owner, pid);
            },
            Ok(Some(found)) => {
                found_owner_stays(lines, i + 1, device, inode, found);
            },
            Err(_) => {},
        }
    }
}

proof fn found_owner_stays(lines: Seq<Seq<char>>, i: int, device: u64, inode: nat, pid: u32)
    requires
        0 <= i <= lines.len(),
    ensures
        owner_from(lines, i, device, inode, Some(pid)) matches Ok(owner) ==> owner == Some(pid),
    decreases lines.len() - i,
{
    if i < lines.len() {
        match holder_of(lines[i], device, inode) {
            Ok(None) => {
                found_owner_stays(lines, i + 1, device, inode, pid);
            },
            _ => {},
        }
    }
}

/// The arguments of stat that identify a file on the host.
pub open spec fn stat_arguments_of(p: Seq<char>) -> Seq<Seq<char>> {
    seq![
        "--printf=%d %i %f %u\n"@,
        "--"@,
        p,
    ]
}

pub fn stat_arguments(p: &str) -> (r: Vec<String>)
    ensures
        texts(r@) == stat_arguments_of(p@),
{
    let mut r: Vec<String> = Vec::new();
    r.push("--printf=%d %i %f %u\n".to_owned());
    r.push("--".to_owned());
    r.push(p.to_owned());
    assert(texts(r@) =~= stat_arguments_of(p@));
    r
}

/// The arguments of cat that print the host's table of locks.
pub open spec fn table_arguments_of() -> Seq<Seq<char>> {
    seq![
        "/proc/locks"@,
    ]
}

pub fn table_arguments() -> (r: Vec<String>)
    ensures
        texts(r@) == table_arguments_of(),
{
    let mut r: Vec<String> = Vec::new();
    r.push("/proc/locks".to_owned());
    assert(texts(r@) =~= table_arguments_of());
    r
}

/// The lock has to have a path in this installation.
pub fn lock_path(p: Option<String>) -> (r: Result<String, String>)
    ensures
        match p {
            Some(p) => r == Ok::<String, String>(p),
            None => r matches Err(e) && e@ == "Host ownership lock is unavailable"@,
        },
{
    match p {
        Some(p) => Ok(p),
        None => Err("Host ownership lock is unavailable".to_owned()),
    }
}

/// A line of the kernel's table names a holder exactly where it is no line of one who waits, it
/// speaks of the file, the lock is one as the daemon takes it, and the process has a number.
pub proof fn holders_are_named_by_their_own_line(line: Seq<char>, device: u64, inode: nat, pid: u32)
    ensures
        holder_of(line, device, inode) == Ok::<Option<u32>, Seq<char>>(Some(pid)) <==> {
            let fields = text::words(line);
            &&& fields.len() == 8
            &&& fields[1] == "FLOCK"@
            &&& fields[2] == "ADVISORY"@
            &&& fields[3] == "WRITE"@
            &&& text::u32_of(fields[4], 10) == Ok::<u32, Seq<char>>(pid)
            &&& pid > 0
            &&& speaks_of(fields[5], device, inode) == Ok::<bool, Seq<char>>(true)
            &&& fields[6] == "0"@
            &&& fields[7] == "EOF"@
        },
{
    reveal_strlit("FLOCK");
    reveal_strlit("->");
    assert("FLOCK"@.len() == 5);
    assert("->"@.len() == 2);
}

/// Those who only wait for a lock, and those who hold other files, are never taken for the owner.
pub proof fn waiting_processes_hold_nothing(line: Seq<char>, device: u64, inode: nat)
    ensures
        ({
            let fields = text::words(line);
            let waits = fields.len() > 1 && fields[1] == "->"@;
            let elsewhere = fields.len() == 8 && speaks_of(fields[5], device, inode) == Ok::<
                bool,
                Seq<char>,
            >(false);
            &&& waits || elsewhere ==> holder_of(line, device, inode) == Ok::<
                Option<u32>,
                Seq<char>,
            >(None)
            &&& holder_of(line, device, inode) == Ok::<Option<u32>, Seq<char>>(None) ==> waits
                || elsewhere
        }),
{
}

/// The owner is found exactly where every line can be read and at most one names a holder: that one
/// is it, and nobody is where none does.
pub proof fn the_only_holder_is_the_owner(lines: Seq<Seq<char>>, i: int, device: u64, inode: nat)
    requires
        0 <= i <= lines.len(),
        forall|k: int| i <= k < lines.len() ==> holder_of(#[trigger] lines[k], device, inode) is Ok,
    ensures
        owner_from(lines, i, device, inode, None) == Ok::<Option<u32>, Seq<char>>(None) <==> forall|k: int|
            i <= k < lines.len() ==> holder_of(#[trigger] lines[k], device, inode)->Ok_0 is None,
        forall|k: int|
            i <= k < lines.len() && holder_of(#[trigger] lines[k], device, inode)->Ok_0 is Some && (
            forall|j: int|
                i <= j < lines.len() && j != k ==> holder_of(#[trigger] lines[j], device, inode)->Ok_0 is None)
                ==> owner_from(lines, i, device, inode, None) == holder_of(lines[k], device, inode),
    decreases lines.len() - i,
{
    if i < lines.len() {
        assert(holder_of(lines[i], device, inode) is Ok);
        the_only_holder_is_the_owner(lines, i + 1, device, inode);
        if holder_of(lines[i], device, inode)->Ok_0 is Some {
            let pid = holder_of(lines[i], device, inode)->Ok_0->0;
            if forall|j: int|
                i < j < lines.len() ==> holder_of(#[trigger] lines[j], device, inode)->Ok_0 is None {
                others_change_nothing(lines, i + 1, device, inode, pid);
            }
            found_owner_is_kept(lines, i + 1, device, inode, pid);
        }
    }
}

proof fn others_change_nothing(lines: Seq<Seq<char>>, i: int, device: u64, inode: nat, pid: u32)
    requires
        0 <= i <= lines.len(),
        forall|k: int|
            i <= k < lines.len() ==> holder_of(#[trigger] lines[k], device, inode) == Ok::<
                Option<u32>,
                Seq<char>,
            >(None),
    ensures
        owner_from(lines, i, device, inode, Some(pid)) == Ok::<Option<u32>, Seq<char>>(Some(pid)),
    decreases lines.len() - i,
{
    if i < lines.len() {
        assert(holder_of(lines[i], device, inode) is Ok);
        others_change_nothing(lines, i + 1, device, inode, pid);
    }
}

proof fn found_owner_is_kept(lines: Seq<Seq<char>>, i: int, device: u64, inode: nat, pid: u32)
    requires
        0 <= i <= lines.len(),
    ensures
        owner_from(lines, i, device, inode, Some(pid)) is Ok ==> owner_from(
            lines,
            i,
            device,
            inode,
            Some(pid),
        )->Ok_0 == Some(pid),
    decreases lines.len() - i,
{
    if i < lines.len() {
        found_owner_is_kept(lines, i + 1, device, inode, pid);
    }
}

/// The table counts exactly where nothing changed while it was read: the file is the same before and
/// after, also as the host names it, and the table came whole.
pub proof fn tables_count_while_the_lock_stays(facts: LockFacts)
    ensures
        stable_complaint(facts) is None <==> {
            &&& facts.after.device@ == facts.before.device@
            &&& facts.after.inode@ == facts.before.inode@
            &&& match facts.table {
                Table::Own { text } => text::byte_len(text@) <= 65_536,
                Table::Host { before, output, after } => before@ == facts.before@ && after@
                    == facts.before@ && output.code == Some(0i32),
            }
        },
{
}

/// A lock file is accepted exactly where it is a regular file, and root's where it must be.
pub proof fn lock_files_are_regular(m: Metadata, require_root: bool)
    ensures
        lock_file_complaint(m, require_root) is None <==> m.kind == FileKind::File && (require_root
            ==> m.uid == 0),
{
}

/// The host's lock is known exactly where four fields were printed that describe a regular file of
/// root's. Its identity is the device and the inode of those.
pub proof fn host_locks_are_roots_files(s: Seq<char>)
    ensures
        ({
            let fields = text::words(s);
            let mode = text::u32_of(fields[2], 16);
            let device = text::u64_of(fields[0], 10);
            let inode = text::u64_of(fields[1], 10);
            &&& stat_of(s) is Ok <==> {
                &&& fields.len() == 4
                &&& mode is Ok
                &&& mode->Ok_0 & 0o170000 == 0o100000
                &&& fields[3] == "0"@
                &&& device is Ok
                &&& inode is Ok
            }
            &&& stat_of(s) is Ok ==> stat_of(s)->Ok_0 == (
                text::decimal(device->Ok_0 as nat),
                text::decimal(inode->Ok_0 as nat),
            )
        }),
{
}

/// A field of the table is about a file exactly where its two first numbers make up the device and the
/// third is the inode.
pub proof fn table_fields_name_a_file(field: Seq<char>, device: u64, inode: nat)
    ensures
        speaks_of(field, device, inode) == Ok::<bool, Seq<char>>(true) <==> {
            let key = text::pieces(field, ':');
            &&& key.len() == 3
            &&& text::u32_of(key[0], 16) is Ok
            &&& text::u32_of(key[1], 16) is Ok
            &&& device_number(
                text::u32_of(key[0], 16)->Ok_0,
                text::u32_of(key[1], 16)->Ok_0,
            ) == device
            &&& text::u64_of(key[2], 10) is Ok
            &&& text::u64_of(key[2], 10)->Ok_0 == inode
        },
{
}

} // verus!
