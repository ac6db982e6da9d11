//! The process that owns the hardware: what the kernel tells of it, and the service it belongs to.

use crate::command::Output;
use crate::container_destination::complaint;
use crate::destination::{counted, numbers_of, read_numbers};
use crate::services::{OwnerProcess, ServiceProbe, ServiceScope, UnitState};
use crate::text;
use crate::text::{outcome, texts};
use vstd::prelude::*;

verus! {

/// The most metadata of a process that is read, in bytes.
pub const MAX_METADATA: usize = 65_536;

/// The longest path of a control group, in bytes.
pub const MAX_GROUP: usize = 4096;

/// The most nested namespaces.
pub const MAX_NAMESPACES: usize = 32;

/// The place of the start time among the fields after the name of a process.
pub const START_FIELD: usize = 19;

/// The rest of those among the first `n` lines that begin with a prefix.
pub open spec fn tagged(lines: Seq<Seq<char>>, prefix: Seq<char>, n: int) -> Seq<Seq<char>>
    decreases n,
{
    if n <= 0 {
        Seq::empty()
    } else if text::begins_with(lines[n - 1], prefix) {
        tagged(lines, prefix, n - 1).push(lines[n - 1].skip(prefix.len() as int))
    } else {
        tagged(lines, prefix, n - 1)
    }
}

/// The rest of the lines of a text that begin with a prefix.
pub open spec fn tagged_in(s: Seq<char>, prefix: Seq<char>) -> Seq<Seq<char>> {
    tagged(text::lines_of(s), prefix, text::lines_of(s).len() as int)
}

fn find_tagged(s: &str, prefix: &str) -> (r: Vec<String>)
    ensures
        texts(r@) == tagged_in(s@, prefix@),
{
    let lines = text::lines(s);
    let ghost all = texts(lines@);
    let mut out: Vec<String> = Vec::new();
    let mut i: usize = 0;
    assert(texts(out@) =~= Seq::<Seq<char>>::empty());
    while i < lines.len()
        invariant
            all == texts(lines@),
            i <= lines@.len(),
            texts(out@) == tagged(all, prefix@, i as int),
        decreases lines@.len() - i,
    {
        assert(all[i as int] == lines@[i as int]@);
        match text::strip_prefix(lines[i].as_str(), prefix) {
            Some(rest) => {
                proof {
                    text::texts_push(out@, rest);
                }
                out.push(rest);
            },
            None => {},
        }
        i += 1;
    }
    assert(all.len() == lines@.len());
    out
}

/// The numbers that a text writes, separated by white space.
pub open spec fn numbers_in(s: Seq<char>) -> Result<Seq<u32>, Seq<char>> {
    numbers_of(text::words(s), text::words(s).len() as int)
}

fn read_words(s: &str) -> (r: Result<Vec<u32>, String>)
    ensures
        counted(r) == numbers_in(s@),
{
    let words = text::split_whitespace(s);
    assert(texts(words@).len() == words@.len());
    read_numbers(&words)
}

/// No number of a list is zero.
pub open spec fn all_positive(numbers: Seq<u32>) -> bool {
    forall|i: int| 0 <= i < numbers.len() ==> #[trigger] numbers[i] > 0
}

/// The number of a process in its innermost namespace.
pub open spec fn namespace_pid_of(status: Seq<char>) -> Result<u32, Seq<char>> {
    let found = tagged_in(status, "NSpid:"@);
    if found.len() == 0 {
        Err("Host process namespace PID is unavailable"@)
    } else {
        match numbers_in(found[0]) {
            Err(e) => Err(e),
            Ok(numbers) => if found.len() == 1 && 0 < numbers.len() <= MAX_NAMESPACES
                && all_positive(numbers) {
                Ok(numbers.last())
            } else {
                Err("Invalid process namespace PID hierarchy"@)
            },
        }
    }
}

fn positive(numbers: &Vec<u32>) -> (r: bool)
    ensures
        r == all_positive(numbers@),
{
    let mut i: usize = 0;
    while i < numbers.len()
        invariant
            i <= numbers@.len(),
            forall|j: int| 0 <= j < i ==> #[trigger] numbers@[j] > 0,
        decreases numbers@.len() - i,
    {
        if numbers[i] == 0 {
            return false;
        }
        i += 1;
    }
    true
}

pub fn namespace_pid(status: &str) -> (r: Result<u32, String>)
    ensures
        outcome(r) == namespace_pid_of(status@),
{
    let found = find_tagged(status, "NSpid:");
    assert(texts(found@).len() == found@.len());
    if found.len() == 0 {
        return Err("Host process namespace PID is unavailable".to_owned());
    }
    assert(texts(found@)[0] == found@[0]@);
    match read_words(found[0].as_str()) {
        Err(e) => Err(e),
        Ok(numbers) => {
            if found.len() == 1 && numbers.len() > 0 && numbers.len() <= MAX_NAMESPACES && positive(
                &numbers,
            ) {
                Ok(numbers[numbers.len() - 1])
            } else {
                Err("Invalid process namespace PID hierarchy".to_owned())
            }
        },
    }
}

/// When a process started, in clock ticks: the name of a process may hold spaces, line ends and
/// brackets, and the numbers follow the last closing bracket.
pub open spec fn start_time_of(s: Seq<char>, expected: u32) -> Result<u64, Seq<char>> {
    match text::place_from(s, " ("@, 0) {
        None => Err("Invalid process stat prefix"@),
        Some(at) => match text::u32_of(s.subrange(0, at), 10) {
            Err(e) => Err(e),
            Ok(pid) => if pid != expected {
                Err("Process stat PID mismatch"@)
            } else {
                start_field(s.subrange(at + " ("@.len(), s.len() as int))
            },
        },
    }
}

/// The start time among the fields after the name.
pub open spec fn start_field(rest: Seq<char>) -> Result<u64, Seq<char>> {
    match text::last_place(rest, ") "@) {
        None => Err("Invalid process stat name"@),
        Some(at) => {
            let fields = text::words(rest.subrange(at + ") "@.len(), rest.len() as int));
            if fields.len() <= START_FIELD {
                Err("Process start time is missing"@)
            } else {
                match text::u64_of(fields[START_FIELD as int], 10) {
                    Ok(ticks) => Ok(ticks),
                    Err(e) => Err("Invalid process start time: "@ + e),
                }
            }
        },
    }
}

pub fn parse_start_time(s: &str, expected_pid: u32) -> (r: Result<u64, String>)
    ensures
        outcome(r) == start_time_of(s@, expected_pid),
{
    let v = text::chars(s);
    let open = text::chars(" (");
    let at: usize = match text::find_part(&v, &open) {
        Some(at) => at,
        None => {
            return Err("Invalid process stat prefix".to_owned());
        },
    };
    match text::read_u32(text::slice(&v, 0, at).as_str(), 10) {
        Err(e) => {
            return Err(e);
        },
        Ok(pid) => {
            if pid != expected_pid {
                return Err("Process stat PID mismatch".to_owned());
            }
        },
    }
    let n: usize = v.len();
    let rest_text = text::slice(&v, at + open.len(), n);
    let rest = text::chars(rest_text.as_str());
    let close = text::chars(") ");
    let end: usize = match text::find_last(&rest, &close) {
        Some(end) => end,
        None => {
            return Err("Invalid process stat name".to_owned());
        },
    };
    let m: usize = rest.len();
    let fields = text::split_whitespace(text::slice(&rest, end + close.len(), m).as_str());
    assert(texts(fields@).len() == fields@.len());
    if fields.len() <= START_FIELD {
        return Err("Process start time is missing".to_owned());
    }
    assert(texts(fields@)[START_FIELD as int] == fields@[START_FIELD as int]@);
    match text::read_u64(fields[START_FIELD].as_str(), 10) {
        Ok(ticks) => Ok(ticks),
        Err(cause) => {
            let mut e = "Invalid process start time: ".to_owned();
            e.append(cause.as_str());
            Err(e)
        },
    }
}

/// The account under which a process acts.
pub open spec fn uid_of(s: Seq<char>) -> Result<u32, Seq<char>> {
    let found = tagged_in(s, "Uid:"@);
    if found.len() == 0 {
        Err("Process credentials are missing"@)
    } else if text::words(found[0]).len() != 4 || found.len() != 1 {
        Err("Ambiguous process credentials"@)
    } else {
        match numbers_in(found[0]) {
            Ok(numbers) => Ok(numbers[1]),
            Err(e) => Err(e),
        }
    }
}

proof fn as_many_numbers(words: Seq<Seq<char>>, n: int)
    requires
        0 <= n,
        numbers_of(words, n) is Ok,
    ensures
        numbers_of(words, n)->Ok_0.len() == n,
    decreases n,
{
    if n > 0 {
        as_many_numbers(words, n - 1);
    }
}

pub fn parse_uid(s: &str) -> (r: Result<u32, String>)
    ensures
        outcome(r) == uid_of(s@),
{
    let found = find_tagged(s, "Uid:");
    assert(texts(found@).len() == found@.len());
    if found.len() == 0 {
        return Err("Process credentials are missing".to_owned());
    }
    assert(texts(found@)[0] == found@[0]@);
    let words = text::split_whitespace(found[0].as_str());
    assert(texts(words@).len() == words@.len());
    if words.len() != 4 || found.len() != 1 {
        return Err("Ambiguous process credentials".to_owned());
    }
    match read_words(found[0].as_str()) {
        Ok(numbers) => {
            proof {
                as_many_numbers(text::words(found@[0]@), 4);
            }
            Ok(numbers[1])
        },
        Err(e) => Err(e),
    }
}

/// A name in the path of a control group.
pub open spec fn is_group_name(part: Seq<char>) -> bool {
    part.len() > 0 && part != "."@ && part != ".."@
}

/// An ASCII control character.
pub open spec fn is_plain_control(c: char) -> bool {
    c as u32 <= 0x1f || c as u32 == 0x7f
}

/// The path of a control group: absolute, bounded, without empty names or dots.
pub open spec fn is_group(p: Seq<char>) -> bool {
    p == "/"@ || (p.len() > 0 && p[0] == '/' && text::byte_len(p) <= MAX_GROUP && {
        let parts = text::pieces(p.subrange(1, p.len() as int), '/');
        forall|i: int| 0 <= i < parts.len() ==> is_group_name(#[trigger] parts[i])
    } && forall|i: int| 0 <= i < p.len() ==> !is_plain_control(#[trigger] p[i]))
}

pub fn valid_group(p: &str) -> (r: bool)
    ensures
        r == is_group(p@),
{
    if text::eq(p, "/") {
        return true;
    }
    let v = text::chars(p);
    if v.len() == 0 || v[0] != '/' || text::len(p) > MAX_GROUP {
        return false;
    }
    let parts = text::split(text::slice(&v, 1, v.len()).as_str(), '/');
    let ghost all = texts(parts@);
    assert(all == text::pieces(p@.subrange(1, p@.len() as int), '/'));
    assert(all.len() == parts@.len());
    let mut i: usize = 0;
    while i < parts.len()
        invariant
            all == texts(parts@),
            all == text::pieces(p@.subrange(1, p@.len() as int), '/'),
            all.len() == parts@.len(),
            p@ != "/"@,
            i <= parts@.len(),
            forall|j: int| 0 <= j < i ==> is_group_name(#[trigger] all[j]),
        decreases parts@.len() - i,
    {
        assert(all[i as int] == parts@[i as int]@);
        if text::chars(parts[i].as_str()).len() == 0 || text::eq(parts[i].as_str(), ".")
            || text::eq(parts[i].as_str(), "..") {
            assert(!is_group_name(all[i as int]));
            return false;
        }
        i += 1;
    }
    let mut k: usize = 0;
    while k < v.len()
        invariant
            v@ == p@,
            p@ != "/"@,
            k <= v@.len(),
            forall|j: int| 0 <= j < k ==> !is_plain_control(#[trigger] v@[j]),
        decreases v@.len() - k,
    {
        let n: u32 = v[k] as u32;
        if n <= 0x1f || n == 0x7f {
            assert(is_plain_control(p@[k as int]));
            return false;
        }
        k += 1;
    }
    true
}

/// A line of a control group listing: the hierarchy, its controllers and the path.
pub open spec fn group_line(line: Seq<char>) -> Result<(u32, Seq<char>, Seq<char>), Seq<char>> {
    let first = match text::split_once_spec(line, ':') {
        Some((first, _)) => first,
        None => line,
    };
    match text::u32_of(first, 10) {
        Err(e) => Err(e),
        Ok(hierarchy) => match text::split_once_spec(line, ':') {
            None => Err("Missing cgroup controllers"@),
            Some((_, rest)) => match text::split_once_spec(rest, ':') {
                None => Err("Missing cgroup path"@),
                Some((controllers, p)) => Ok((hierarchy, controllers, p)),
            },
        },
    }
}

/// The control group that a process has by the lines from `i` on, where these were found before.
pub open spec fn group_from(
    lines: Seq<Seq<char>>,
    i: int,
    unified: Option<Seq<char>>,
    legacy: Option<Seq<char>>,
) -> Result<Seq<char>, Seq<char>>
    decreases lines.len() - i,
{
    if i < 0 || i >= lines.len() {
        match (legacy, unified) {
            (Some(p), _) => Ok(p),
            (None, Some(p)) => Ok(p),
            _ => Err("No systemd process cgroup is visible"@),
        }
    } else {
        match group_line(lines[i]) {
            Err(e) => Err(e),
            Ok((hierarchy, controllers, p)) => if !is_group(p) {
                Err("Invalid process cgroup path"@)
            } else if hierarchy == 0 && controllers.len() == 0 {
                if unified is Some {
                    Err("Ambiguous process cgroup hierarchy"@)
                } else {
                    group_from(lines, i + 1, Some(p), legacy)
                }
            } else if text::pieces(controllers, ',').contains("name=systemd"@) {
                if legacy is Some {
                    Err("Ambiguous process cgroup hierarchy"@)
                } else {
                    group_from(lines, i + 1, unified, Some(p))
                }
            } else {
                group_from(lines, i + 1, unified, legacy)
            },
        }
    }
}

fn split_group_line(line: &str) -> (r: Result<(u32, String, String), String>)
    ensures
        match r {
            Ok((hierarchy, controllers, p)) => group_line(line@) == Ok::<
                (u32, Seq<char>, Seq<char>),
                Seq<char>,
            >((hierarchy, controllers@, p@)),
            Err(e) => group_line(line@) == Err::<(u32, Seq<char>, Seq<char>), Seq<char>>(e@),
        },
{
    match text::split_once(line, ':') {
        None => match text::read_u32(line, 10) {
            Err(e) => Err(e),
            Ok(_) => Err("Missing cgroup controllers".to_owned()),
        },
        Some((first, rest)) => match text::read_u32(first.as_str(), 10) {
            Err(e) => Err(e),
            Ok(hierarchy) => match text::split_once(rest.as_str(), ':') {
                None => Err("Missing cgroup path".to_owned()),
                Some((controllers, p)) => Ok((hierarchy, controllers, p)),
            },
        },
    }
}

/// The text or error of a call.
pub open spec fn told(r: Result<String, String>) -> Result<Seq<char>, Seq<char>> {
    match r {
        Ok(s) => Ok(s@),
        Err(e) => Err(e@),
    }
}

/// The control group of a process, by the manager's own hierarchy where there is one.
pub fn parse_cgroup(s: &str) -> (r: Result<String, String>)
    ensures
        told(r) == group_from(text::lines_of(s@), 0, None, None),
{
    let lines = text::lines(s);
    let ghost all = texts(lines@);
    let mut unified: Option<String> = None;
    let mut legacy: Option<String> = None;
    let mut i: usize = 0;
    while i < lines.len()
        invariant
            all == texts(lines@),
            i <= lines@.len(),
            group_from(all, 0, None, None) == group_from(
                all,
                i as int,
                crate::services::optional(unified),
                crate::services::optional(legacy),
            ),
            all == text::lines_of(s@),
        decreases lines@.len() - i,
    {
        assert(all[i as int] == lines@[i as int]@);
        let (hierarchy, controllers, p) = split_group_line(lines[i].as_str())?;
        if !valid_group(p.as_str()) {
            return Err("Invalid process cgroup path".to_owned());
        }
        let names = text::split(controllers.as_str(), ',');
        if hierarchy == 0 && text::chars(controllers.as_str()).len() == 0 {
            if unified.is_some() {
                return Err("Ambiguous process cgroup hierarchy".to_owned());
            }
            unified = Some(p);
        } else if text::is_among("name=systemd", &names) {
            if legacy.is_some() {
                return Err("Ambiguous process cgroup hierarchy".to_owned());
            }
            legacy = Some(p);
        }
        i += 1;
    }
    assert(all.len() == lines@.len());
    match (legacy, unified) {
        (Some(p), _) => Ok(p),
        (None, Some(p)) => Ok(p),
        _ => Err("No systemd process cgroup is visible".to_owned()),
    }
}

/// What a line of a control group listing is about.
#[derive(Clone, Copy, Debug, PartialEq, Eq, Structural)]
pub enum GroupRole {
    /// The manager's own hierarchy.
    Manager,
    /// The unified hierarchy.
    Unified,
    Other,
    /// It cannot be read.
    Bad,
}

pub open spec fn group_role(line: Seq<char>) -> GroupRole {
    match group_line(line) {
        Err(_) => GroupRole::Bad,
        Ok((hierarchy, controllers, p)) => if !is_group(p) {
            GroupRole::Bad
        } else if hierarchy == 0 && controllers.len() == 0 {
            GroupRole::Unified
        } else if text::pieces(controllers, ',').contains("name=systemd"@) {
            GroupRole::Manager
        } else {
            GroupRole::Other
        },
    }
}

/// The path that a line gives.
pub open spec fn group_path(line: Seq<char>) -> Seq<char> {
    group_line(line)->Ok_0.2
}

/// How many of the lines from `i` on have a role.
pub open spec fn role_count(lines: Seq<Seq<char>>, i: int, role: GroupRole) -> nat
    decreases lines.len() - i,
{
    if i < 0 || i >= lines.len() {
        0
    } else if group_role(lines[i]) == role {
        role_count(lines, i + 1, role) + 1
    } else {
        role_count(lines, i + 1, role)
    }
}

/// Whether a line at or after `i` has a role and gives a path.
pub open spec fn role_gives(lines: Seq<Seq<char>>, i: int, role: GroupRole, p: Seq<char>) -> bool {
    exists|k: int|
        i <= k < lines.len() && group_role(#[trigger] lines[k]) == role && group_path(lines[k]) == p
}

proof fn role_found(lines: Seq<Seq<char>>, i: int, role: GroupRole, k: int)
    requires
        0 <= i <= k < lines.len(),
        group_role(lines[k]) == role,
    ensures
        role_count(lines, i, role) >= 1,
        role_count(lines, i, role) == 1 ==> forall|m: int|
            i <= m < lines.len() && group_role(#[trigger] lines[m]) == role ==> m == k,
    decreases lines.len() - i,
{
    if i < k {
        role_found(lines, i + 1, role, k);
    } else {
        assert forall|m: int|
            i < m < lines.len() && group_role(#[trigger] lines[m]) == role && role_count(
                lines,
                i,
                role,
            ) == 1 implies m == k by {
            role_found(lines, i + 1, role, m);
        }
    }
}

proof fn groups_found(
    lines: Seq<Seq<char>>,
    i: int,
    unified: Option<Seq<char>>,
    legacy: Option<Seq<char>>,
)
    requires
        0 <= i <= lines.len(),
    ensures
        ({
            let found = group_from(lines, i, unified, legacy);
            let units = role_count(lines, i, GroupRole::Unified) + if unified is Some {
                1nat
            } else {
                0nat
            };
            let managers = role_count(lines, i, GroupRole::Manager) + if legacy is Some {
                1nat
            } else {
                0nat
            };
            &&& found is Ok <==> role_count(lines, i, GroupRole::Bad) == 0 && units <= 1
                && managers <= 1 && units + managers > 0
            &&& found is Ok ==> {
                if legacy is Some {
                    found->Ok_0 == legacy->0
                } else if managers == 1 {
                    role_gives(lines, i, GroupRole::Manager, found->Ok_0)
                } else if unified is Some {
                    found->Ok_0 == unified->0
                } else {
                    role_gives(lines, i, GroupRole::Unified, found->Ok_0)
                }
            }
        }),
    decreases lines.len() - i,
{
    if i < lines.len() {
        let p = group_path(lines[i]);
        match group_role(lines[i]) {
            GroupRole::Bad => {},
            GroupRole::Unified => {
                groups_found(lines, i + 1, Some(p), legacy);
            },
            GroupRole::Manager => {
                groups_found(lines, i + 1, unified, Some(p));
            },
            GroupRole::Other => {
                groups_found(lines, i + 1, unified, legacy);
            },
        }
    }
}

/// The control group of a process is the path of the only line of the manager's hierarchy, or where
/// there is none, of the only line of the unified one. Without either, with two of one, or with a
/// line that cannot be read there is none. The path is always a valid one.
pub proof fn groups_come_from_the_only_line(lines: Seq<Seq<char>>)
    ensures
        ({
            let found = group_from(lines, 0, None, None);
            let units = role_count(lines, 0, GroupRole::Unified);
            let managers = role_count(lines, 0, GroupRole::Manager);
            &&& found is Ok <==> role_count(lines, 0, GroupRole::Bad) == 0 && units <= 1
                && managers <= 1 && units + managers > 0
            &&& found is Ok && managers == 1 ==> role_gives(
                lines,
                0,
                GroupRole::Manager,
                found->Ok_0,
            )
            &&& found is Ok && managers == 0 ==> role_gives(
                lines,
                0,
                GroupRole::Unified,
                found->Ok_0,
            )
            &&& found is Ok ==> is_group(found->Ok_0)
        }),
{
    groups_found(lines, 0, None, None);
}

proof fn removing_counts(lines: Seq<Seq<char>>, k: int, i: int, role: GroupRole)
    requires
        0 <= k < lines.len(),
        0 <= i <= lines.len(),
    ensures
        i > k ==> role_count(lines, i, role) == role_count(lines.remove(k), i - 1, role),
        i <= k ==> role_count(lines, i, role) == role_count(lines.remove(k), i, role) + if group_role(
            lines[k],
        ) == role {
            1nat
        } else {
            0nat
        },
    decreases lines.len() - i,
{
    let rest = lines.remove(k);
    if i < lines.len() {
        removing_counts(lines, k, i + 1, role);
        if i < k {
            assert(rest[i] == lines[i]);
        } else if i > k {
            assert(rest[i - 1] == lines[i]);
        }
    }
}

proof fn reordering_counts(a: Seq<Seq<char>>, b: Seq<Seq<char>>, role: GroupRole)
    requires
        a.to_multiset() == b.to_multiset(),
    ensures
        role_count(a, 0, role) == role_count(b, 0, role),
    decreases a.len(),
{
    a.to_multiset_ensures();
    b.to_multiset_ensures();
    if a.len() > 0 {
        let x = a[0];
        assert(a.contains(x));
        assert(a.to_multiset().count(x) > 0);
        assert(b.contains(x));
        let k = choose|k: int| 0 <= k < b.len() && b[k] == x;
        assert(a.remove(0).to_multiset() =~= a.to_multiset().remove(x));
        assert(b.remove(k).to_multiset() =~= b.to_multiset().remove(x));
        reordering_counts(a.remove(0), b.remove(k), role);
        removing_counts(a, 0, 0, role);
        removing_counts(b, k, 0, role);
    }
}

/// The order of the lines does not matter: two listings of the same lines both give a group, the
/// same, or both give none.
pub proof fn groups_do_not_depend_on_the_order(a: Seq<Seq<char>>, b: Seq<Seq<char>>)
    requires
        a.to_multiset() == b.to_multiset(),
    ensures
        group_from(a, 0, None, None) is Ok <==> group_from(b, 0, None, None) is Ok,
        group_from(a, 0, None, None) is Ok ==> group_from(a, 0, None, None) == group_from(
            b,
            0,
            None,
            None,
        ),
{
    groups_found(a, 0, None, None);
    groups_found(b, 0, None, None);
    reordering_counts(a, b, GroupRole::Bad);
    reordering_counts(a, b, GroupRole::Unified);
    reordering_counts(a, b, GroupRole::Manager);
    if group_from(a, 0, None, None) is Ok {
        let p = group_from(a, 0, None, None)->Ok_0;
        let q = group_from(b, 0, None, None)->Ok_0;
        let role = if role_count(a, 0, GroupRole::Manager) == 1 {
            GroupRole::Manager
        } else {
            GroupRole::Unified
        };
        assert(role_gives(a, 0, role, p) && role_gives(b, 0, role, q));
        let k = choose|k: int|
            0 <= k < a.len() && group_role(#[trigger] a[k]) == role && group_path(a[k]) == p;
        let m = choose|m: int|
            0 <= m < b.len() && group_role(#[trigger] b[m]) == role && group_path(b[m]) == q;
        a.to_multiset_ensures();
        b.to_multiset_ensures();
        assert(a.contains(a[k]));
        assert(a.to_multiset().count(a[k]) > 0);
        assert(b.contains(a[k]));
        let n = choose|n: int| 0 <= n < b.len() && b[n] == a[k];
        role_found(b, 0, role, m);
        assert(group_role(b[n]) == role);
    }
}

/// What a process said of itself: its status line twice, its credentials and its control group.
pub struct ProcessFiles {
    pub stat: Result<String, String>,
    pub status: Result<String, String>,
    pub cgroup: Result<String, String>,
    pub stat_again: Result<String, String>,
}

pub open spec fn start_read(file: Result<String, String>, pid: u32) -> Result<u64, Seq<char>> {
    match file {
        Ok(s) => start_time_of(s@, pid),
        Err(e) => Err(e@),
    }
}

pub open spec fn uid_read(file: Result<String, String>) -> Result<u32, Seq<char>> {
    match file {
        Ok(s) => uid_of(s@),
        Err(e) => Err(e@),
    }
}

pub open spec fn group_read(file: Result<String, String>) -> Result<Seq<char>, Seq<char>> {
    match file {
        Ok(s) => group_from(text::lines_of(s@), 0, None, None),
        Err(e) => Err(e@),
    }
}

/// The account, start time and control group of a process that stayed the same while it was read.
pub open spec fn process_of(pid: u32, files: ProcessFiles) -> Result<
    (u32, Seq<char>, Seq<char>),
    Seq<char>,
> {
    match start_read(files.stat, pid) {
        Err(e) => Err(e),
        Ok(start) => match uid_read(files.status) {
            Err(e) => Err(e),
            Ok(uid) => match group_read(files.cgroup) {
                Err(e) => Err(e),
                Ok(group) => match start_read(files.stat_again, pid) {
                    Err(e) => Err(e),
                    Ok(again) => if again != start {
                        Err("Hardware owner PID was reused during inspection"@)
                    } else {
                        Ok((uid, text::decimal(start as nat), group))
                    },
                },
            },
        },
    }
}

fn read_start(file: &Result<String, String>, pid: u32) -> (r: Result<u64, String>)
    ensures
        outcome(r) == start_read(*file, pid),
{
    match file {
        Ok(s) => parse_start_time(s.as_str(), pid),
        Err(e) => Err(e.clone()),
    }
}

/// The process with a number, without the service it belongs to.
pub fn read_process(pid: u32, files: &ProcessFiles) -> (r: Result<OwnerProcess, String>)
    ensures
        match r {
            Ok(p) => process_of(pid, *files) == Ok::<(u32, Seq<char>, Seq<char>), Seq<char>>(
                (p.effective_uid, p.start_time_ticks@, p.control_group@),
            ) && p.pid == pid && p.service is None,
            Err(e) => process_of(pid, *files) == Err::<(u32, Seq<char>, Seq<char>), Seq<char>>(e@),
        },
{
    let start: u64 = read_start(&files.stat, pid)?;
    let effective_uid: u32 = match &files.status {
        Ok(s) => parse_uid(s.as_str())?,
        Err(e) => {
            return Err(e.clone());
        },
    };
    let control_group = match &files.cgroup {
        Ok(s) => match parse_cgroup(s.as_str()) {
            Ok(group) => group,
            Err(e) => {
                return Err(e);
            },
        },
        Err(e) => {
            return Err(e.clone());
        },
    };
    let again: u64 = read_start(&files.stat_again, pid)?;
    if again != start {
        return Err("Hardware owner PID was reused during inspection".to_owned());
    }
    Ok(
        OwnerProcess {
            pid,
            effective_uid,
            start_time_ticks: text::format_u64(start),
            control_group,
            service: None,
        },
    )
}

/// Whether a control group is another one or lies in it.
pub open spec fn group_within(group: Seq<char>, outer: Seq<char>) -> bool {
    group == outer || (text::begins_with(group, outer) && group.len() > outer.len()
        && group[outer.len() as int] == '/')
}

/// Whether a control group belongs to the service that a probe found.
pub open spec fn belongs(group: Seq<char>, probe: ServiceProbe<UnitState>) -> Result<
    bool,
    Seq<char>,
> {
    match probe {
        ServiceProbe::Unavailable { reason } => Err("Service ownership is unverified: "@ + reason@),
        ServiceProbe::Known { value } => if value.load_state@ == "not-found"@ {
            Ok(false)
        } else {
            match value.control_group {
                None => Err("Service cgroup is unverified"@),
                Some(outer) => if outer@.len() == 0 {
                    Ok(false)
                } else if !(is_group(outer@) && outer@ != "/"@) {
                    Err("Invalid service cgroup path"@)
                } else {
                    Ok(group_within(group, outer@))
                },
            }
        },
    }
}

fn within(group: &str, outer: &str) -> (r: bool)
    ensures
        r == group_within(group@, outer@),
{
    if text::eq(group, outer) {
        return true;
    }
    match text::strip_prefix(group, outer) {
        None => false,
        Some(rest) => {
            let v = text::chars(rest.as_str());
            v.len() > 0 && v[0] == '/'
        },
    }
}

pub fn belongs_to(process: &OwnerProcess, probe: &ServiceProbe<UnitState>) -> (r: Result<
    bool,
    String,
>)
    ensures
        outcome(r) == belongs(process.control_group@, *probe),
{
    match probe {
        ServiceProbe::Unavailable { reason } => {
            let mut e = "Service ownership is unverified: ".to_owned();
            e.append(reason.as_str());
            Err(e)
        },
        ServiceProbe::Known { value } => {
            if text::eq(value.load_state.as_str(), "not-found") {
                return Ok(false);
            }
            match &value.control_group {
                None => Err("Service cgroup is unverified".to_owned()),
                Some(outer) => {
                    if text::chars(outer.as_str()).len() == 0 {
                        return Ok(false);
                    }
                    if !(valid_group(outer.as_str()) && !text::eq(outer.as_str(), "/")) {
                        return Err("Invalid service cgroup path".to_owned());
                    }
                    Ok(within(process.control_group.as_str(), outer.as_str()))
                },
            }
        },
    }
}

/// The system unit in the group that only the system manager gives out.
pub open spec fn is_system_unit(probe: ServiceProbe<UnitState>) -> bool {
    probe matches ServiceProbe::Known { value } && value.name@ == "lianli-daemon-system.service"@
        && value.control_group is Some && value.control_group->0@
        == "/system.slice/lianli-daemon-system.service"@
}

/// The service to which a process belongs. Where the user's manager cannot be asked, a process in the
/// system unit's own group still belongs to that.
pub open spec fn service_of(
    uid: u32,
    group: Seq<char>,
    user: ServiceProbe<UnitState>,
    system: ServiceProbe<UnitState>,
    caller: u32,
) -> Result<Option<ServiceScope>, Seq<char>> {
    match belongs(group, system) {
        Err(e) => Err(e),
        Ok(in_system) => if in_system && user is Unavailable && is_system_unit(system) {
            Ok(Some(ServiceScope::System))
        } else {
            match belongs(group, user) {
                Err(e) => Err(e),
                Ok(in_user) => if in_user && in_system {
                    Err("Hardware owner matches both service cgroups"@)
                } else if in_user {
                    if uid != caller {
                        Err("User service owner runs as another account"@)
                    } else {
                        Ok(Some(ServiceScope::User))
                    }
                } else if in_system {
                    Ok(Some(ServiceScope::System))
                } else {
                    Ok(None)
                },
            }
        },
    }
}

fn system_unit(probe: &ServiceProbe<UnitState>) -> (r: bool)
    ensures
        r == is_system_unit(*probe),
{
    match probe {
        ServiceProbe::Unavailable { .. } => false,
        ServiceProbe::Known { value } => match &value.control_group {
            None => false,
            Some(group) => text::eq(value.name.as_str(), "lianli-daemon-system.service")
                && text::eq(group.as_str(), "/system.slice/lianli-daemon-system.service"),
        },
    }
}

pub fn classify(
    process: &OwnerProcess,
    user: &ServiceProbe<UnitState>,
    system: &ServiceProbe<UnitState>,
    caller_uid: u32,
) -> (r: Result<Option<ServiceScope>, String>)
    ensures
        outcome(r) == service_of(
            process.effective_uid,
            process.control_group@,
            *user,
            *system,
            caller_uid,
        ),
{
    let in_system = belongs_to(process, system)?;
    let unavailable = match user {
        ServiceProbe::Unavailable { .. } => true,
        ServiceProbe::Known { .. } => false,
    };
    if in_system && unavailable && system_unit(system) {
        return Ok(Some(ServiceScope::System));
    }
    let in_user = belongs_to(process, user)?;
    if in_user && in_system {
        return Err("Hardware owner matches both service cgroups".to_owned());
    }
    if in_user {
        if process.effective_uid != caller_uid {
            return Err("User service owner runs as another account".to_owned());
        }
        Ok(Some(ServiceScope::User))
    } else if in_system {
        Ok(Some(ServiceScope::System))
    } else {
        Ok(None)
    }
}

/// The process that owns the hardware, with its service.
pub fn inspect(
    pid: u32,
    files: &ProcessFiles,
    user: &ServiceProbe<UnitState>,
    system: &ServiceProbe<UnitState>,
    caller_uid: u32,
) -> (r: Result<OwnerProcess, String>)
    ensures
        match r {
            Ok(p) => {
                &&& pid > 0
                &&& p.pid == pid
                &&& process_of(pid, *files) == Ok::<(u32, Seq<char>, Seq<char>), Seq<char>>(
                    (p.effective_uid, p.start_time_ticks@, p.control_group@),
                )
                &&& service_of(
                    p.effective_uid,
                    p.control_group@,
                    *user,
                    *system,
                    caller_uid,
                ) == Ok::<Option<ServiceScope>, Seq<char>>(p.service)
            },
            Err(e) => if pid == 0 {
                e@ == "Invalid hardware owner PID"@
            } else {
                match process_of(pid, *files) {
                    Err(text) => e@ == text,
                    Ok((uid, _, group)) => service_of(uid, group, *user, *system, caller_uid) == Err::<
                        Option<ServiceScope>,
                        Seq<char>,
                    >(e@),
                }
            },
        },
{
    if pid == 0 {
        return Err("Invalid hardware owner PID".to_owned());
    }
    let mut process = match read_process(pid, files) {
        Ok(process) => process,
        Err(e) => {
            return Err(e);
        },
    };
    let service = classify(&process, user, system, caller_uid)?;
    process.service = service;
    Ok(process)
}

/// The metadata of a process, as it was read on this side.
pub fn check_size(size: usize) -> (r: Result<(), String>)
    ensures
        complaint(r) == if size <= MAX_METADATA {
            None
        } else {
            Some("Process metadata exceeds 64 KiB"@)
        },
{
    if size <= MAX_METADATA {
        Ok(())
    } else {
        Err("Process metadata exceeds 64 KiB".to_owned())
    }
}

/// The metadata of a process, as the host printed it.
pub fn host_file(output: &Output, name: &str) -> (r: Result<String, String>)
    ensures
        told(r) == if output.code == Some(0i32) {
            Ok(output.stdout@)
        } else {
            Err("Cannot read host process "@ + name@ + ": "@ + text::trimmed(output.stderr@))
        },
{
    if output.success() {
        return Ok(output.stdout.clone());
    }
    let mut e = "Cannot read host process ".to_owned();
    e.append(name);
    e.append(": ");
    e.append(text::trim(output.stderr.as_str()).as_str());
    Err(e)
}

/// What was seen of an owner on the host and of the peer on this side.
pub struct PeerFiles {
    pub status: Result<String, String>,
    /// The host's answer on the owner's process namespace, as device and inode.
    pub namespace: Result<Output, String>,
    /// The device and inode of the peer's process namespace.
    pub local: Result<(u64, u64), String>,
    pub local_stat: Result<String, String>,
    pub host_stat: Result<String, String>,
}

pub open spec fn namespace_text(device: u64, inode: u64) -> Seq<char> {
    text::decimal(device as nat) + ":"@ + text::decimal(inode as nat)
}

pub open spec fn owner_complaint(status: Seq<char>, owner: OwnerProcess, peer: u32) -> Option<
    Seq<char>,
> {
    match uid_of(status) {
        Err(e) => Some(e),
        Ok(uid) => if uid != owner.effective_uid {
            Some("Host process credentials changed"@)
        } else {
            match namespace_pid_of(status) {
                Err(e) => Some(e),
                Ok(inner) => if inner != peer {
                    Some("Container IPC peer does not match the host owner's namespace PID"@)
                } else {
                    None
                },
            }
        },
    }
}

pub open spec fn namespace_complaint(
    host: Result<Output, String>,
    local: Result<(u64, u64), String>,
) -> Option<Seq<char>> {
    match host {
        Err(e) => Some(e@),
        Ok(o) => if o.code != Some(0i32) {
            Some("Cannot verify the host owner's PID namespace: "@ + text::trimmed(o.stderr@))
        } else {
            match local {
                Err(e) => Some(e@),
                Ok((device, inode)) => if text::trimmed(o.stdout@) != namespace_text(
                    device,
                    inode,
                ) {
                    Some("Host owner and IPC peer belong to different PID namespaces"@)
                } else {
                    None
                },
            }
        },
    }
}

pub open spec fn start_complaint(files: PeerFiles, owner: OwnerProcess, peer: u32) -> Option<
    Seq<char>,
> {
    match start_read(files.local_stat, peer) {
        Err(e) => Some(e),
        Ok(local) => match start_read(files.host_stat, owner.pid) {
            Err(e) => Some(e),
            Ok(host) => if host == local && text::decimal(host as nat) == owner.start_time_ticks@ {
                None
            } else {
                Some("Host owner or container IPC process changed during verification"@)
            },
        },
    }
}

/// The peer of a connection is the owner that the host sees: the same account, number, namespace and
/// start time.
pub open spec fn peer_complaint(files: PeerFiles, owner: OwnerProcess, peer_pid: i32) -> Option<
    Seq<char>,
> {
    if peer_pid <= 0 {
        Some("Container IPC peer is not visible in this PID namespace"@)
    } else {
        match files.status {
            Err(e) => Some(e@),
            Ok(status) => match owner_complaint(status@, owner, peer_pid as u32) {
                Some(e) => Some(e),
                None => match namespace_complaint(files.namespace, files.local) {
                    Some(e) => Some(e),
                    None => start_complaint(files, owner, peer_pid as u32),
                },
            },
        }
    }
}

fn check_owner(status: &str, owner: &OwnerProcess, peer: u32) -> (r: Result<(), String>)
    ensures
        complaint(r) == owner_complaint(status@, *owner, peer),
{
    if parse_uid(status)? != owner.effective_uid {
        return Err("Host process credentials changed".to_owned());
    }
    if namespace_pid(status)? != peer {
        return Err(
            "Container IPC peer does not match the host owner's namespace PID".to_owned(),
        );
    }
    Ok(())
}

fn check_namespace(host: &Result<Output, String>, local: &Result<(u64, u64), String>) -> (r: Result<
    (),
    String,
>)
    ensures
        complaint(r) == namespace_complaint(*host, *local),
{
    match host {
        Err(e) => Err(e.clone()),
        Ok(o) => {
            if !o.success() {
                let mut e = "Cannot verify the host owner's PID namespace: ".to_owned();
                e.append(text::trim(o.stderr.as_str()).as_str());
                return Err(e);
            }
            match local {
                Err(e) => Err(e.clone()),
                Ok((device, inode)) => {
                    let mut expected = text::format_u64(*device);
                    expected.append(":");
                    expected.append(text::format_u64(*inode).as_str());
                    if text::eq(text::trim(o.stdout.as_str()).as_str(), expected.as_str()) {
                        Ok(())
                    } else {
                        Err(
                            "Host owner and IPC peer belong to different PID namespaces".to_owned(),
                        )
                    }
                },
            }
        },
    }
}

pub fn verify_container_peer(files: &PeerFiles, owner: &OwnerProcess, peer_pid: i32) -> (r: Result<
    (),
    String,
>)
    ensures
        complaint(r) == peer_complaint(*files, *owner, peer_pid),
{
    if peer_pid <= 0 {
        return Err("Container IPC peer is not visible in this PID namespace".to_owned());
    }
    let peer: u32 = peer_pid as u32;
    match &files.status {
        Err(e) => {
            return Err(e.clone());
        },
        Ok(status) => {
            check_owner(status.as_str(), owner, peer)?;
        },
    }
    check_namespace(&files.namespace, &files.local)?;
    let local: u64 = read_start(&files.local_stat, peer)?;
    let host: u64 = read_start(&files.host_stat, owner.pid)?;
    if host == local && text::eq(text::format_u64(host).as_str(), owner.start_time_ticks.as_str()) {
        Ok(())
    } else {
        Err("Host owner or container IPC process changed during verification".to_owned())
    }
}

/// A process belongs to a service only where its control group is that of the service or lies in it.
pub proof fn services_own_their_groups(
    uid: u32,
    group: Seq<char>,
    user: ServiceProbe<UnitState>,
    system: ServiceProbe<UnitState>,
    caller: u32,
)
    ensures
        service_of(uid, group, user, system, caller) matches Ok(Some(scope)) ==> {
            let probe = if scope == ServiceScope::User {
                user
            } else {
                system
            };
            belongs(group, probe) == Ok::<bool, Seq<char>>(true)
        },
        service_of(uid, group, user, system, caller) == Ok::<Option<ServiceScope>, Seq<char>>(
            Some(ServiceScope::User),
        ) ==> uid == caller,
{
}

/// The path of a file about a process.
pub open spec fn process_file_of(pid: u32, name: Seq<char>) -> Seq<char> {
    "/proc/"@ + text::decimal(pid as nat) + "/"@ + name
}

pub fn process_file(pid: u32, name: &str) -> (r: String)
    ensures
        r@ == process_file_of(pid, name@),
{
    let mut r = text::worded("/proc/", text::format_u64(pid as u64).as_str());
    r.append("/");
    r.append(name);
    r
}

/// The arguments by which the host shows a file about a process.
pub open spec fn file_arguments_of(pid: u32, name: Seq<char>) -> Seq<Seq<char>> {
    seq![
        "--"@,
        process_file_of(pid, name),
    ]
}

pub fn file_arguments(pid: u32, name: &str) -> (r: Vec<String>)
    ensures
        texts(r@) == file_arguments_of(pid, name@),
{
    let mut r: Vec<String> = Vec::new();
    r.push("--".to_owned());
    r.push(process_file(pid, name));
    assert(texts(r@) =~= file_arguments_of(pid, name@));
    r
}

/// The arguments for the identity of the PID namespace of a process on the host.
pub open spec fn namespace_arguments_of(pid: u32) -> Seq<Seq<char>> {
    seq![
        "--dereference"@,
        "--format=%d:%i"@,
        "--"@,
        process_file_of(pid, "ns/pid"@),
    ]
}

pub fn namespace_arguments(pid: u32) -> (r: Vec<String>)
    ensures
        texts(r@) == namespace_arguments_of(pid),
{
    let mut r: Vec<String> = Vec::new();
    r.push("--dereference".to_owned());
    r.push("--format=%d:%i".to_owned());
    r.push("--".to_owned());
    r.push(process_file(pid, "ns/pid"));
    assert(texts(r@) =~= namespace_arguments_of(pid));
    r
}

/// A control group is within another exactly where it is that group, or goes on from it with a slash.
pub proof fn groups_lie_within_what_they_continue(group: Seq<char>, outer: Seq<char>)
    ensures
        group_within(group, group),
        group_within(outer + "/"@ + group, outer),
        group_within(group, outer) ==> group == outer || exists|rest: Seq<char>|
            group == #[trigger] (outer + "/"@ + rest),
{
    reveal_strlit("/");
    let longer = outer + "/"@ + group;
    assert(longer.take(outer.len() as int) =~= outer);
    assert(longer.subrange(0, outer.len() as int) =~= outer);
    assert(longer[outer.len() as int] == '/');
    if group_within(group, outer) && group != outer {
        let rest = group.skip((outer.len() + 1) as int);
        assert(group =~= outer + "/"@ + rest);
    }
}

/// A process belongs to the user's service exactly where it is in its control group and runs under
/// the caller's account, to the system's service where it is in that one, and to none where it is in
/// neither. A process in both, or in the user's under another account, is refused.
pub proof fn processes_belong_to_the_service_of_their_group(
    uid: u32,
    group: Seq<char>,
    user: ServiceProbe<UnitState>,
    system: ServiceProbe<UnitState>,
    caller: u32,
    in_user: bool,
    in_system: bool,
)
    requires
        belongs(group, user) == Ok::<bool, Seq<char>>(in_user),
        belongs(group, system) == Ok::<bool, Seq<char>>(in_system),
    ensures
        ({
            let found = service_of(uid, group, user, system, caller);
            &&& found == Ok::<Option<ServiceScope>, Seq<char>>(Some(ServiceScope::User)) <==> in_user
                && !in_system && uid == caller
            &&& found == Ok::<Option<ServiceScope>, Seq<char>>(Some(ServiceScope::System))
                <==> in_system && !in_user
            &&& found == Ok::<Option<ServiceScope>, Seq<char>>(None) <==> !in_user && !in_system
            &&& found is Err <==> in_user && (in_system || uid != caller)
        }),
{
}

/// Where the user's manager cannot be asked, only a process in the group that the system manager
/// gives to its own unit is attributed to a service.
pub proof fn unasked_managers_leave_only_the_system_unit(
    uid: u32,
    group: Seq<char>,
    user: ServiceProbe<UnitState>,
    system: ServiceProbe<UnitState>,
    caller: u32,
)
    requires
        user is Unavailable,
    ensures
        service_of(uid, group, user, system, caller) is Ok <==> {
            &&& belongs(group, system) == Ok::<bool, Seq<char>>(true)
            &&& system->value.name@ == "lianli-daemon-system.service"@
            &&& system->value.control_group is Some
            &&& system->value.control_group->0@ == "/system.slice/lianli-daemon-system.service"@
        },
        service_of(uid, group, user, system, caller) is Ok ==> service_of(
            uid,
            group,
            user,
            system,
            caller,
        )->Ok_0 == Some(ServiceScope::System),
{
}

/// Whether a group belongs to a service is known exactly where the service could be asked and is
/// absent, has no group, or has a proper one. A process is in it only in the last case.
pub proof fn services_have_proper_groups(group: Seq<char>, probe: ServiceProbe<UnitState>)
    ensures
        ({
            let unit = probe->value;
            let absent = unit.load_state@ == "not-found"@;
            let outer = unit.control_group->0@;
            &&& belongs(group, probe) is Ok <==> {
                &&& probe is Known
                &&& absent || (unit.control_group is Some && (outer.len() == 0 || (is_group(outer)
                    && outer != "/"@)))
            }
            &&& belongs(group, probe) == Ok::<bool, Seq<char>>(true) <==> {
                &&& probe is Known
                &&& !absent
                &&& unit.control_group is Some
                &&& outer.len() > 0
                &&& is_group(outer)
                &&& outer != "/"@
                &&& group_within(group, outer)
            }
        }),
{
}

/// A process is described by its files exactly where all of them could be read and its start time was
/// the same before and after.
pub proof fn processes_are_read_while_they_stay(pid: u32, files: ProcessFiles)
    ensures
        ({
            let found = process_of(pid, files);
            let start = start_read(files.stat, pid);
            &&& found is Ok <==> {
                &&& start is Ok
                &&& uid_read(files.status) is Ok
                &&& group_read(files.cgroup) is Ok
                &&& start_read(files.stat_again, pid) == start
            }
            &&& found is Ok ==> found->Ok_0 == (
                uid_read(files.status)->Ok_0,
                text::decimal(start->Ok_0 as nat),
                group_read(files.cgroup)->Ok_0,
            )
        }),
{
}

/// The account of a process is the second of the four numbers in the only line on accounts: the one
/// under which it acts.
pub proof fn accounts_are_the_effective_ones(s: Seq<char>, numbers: Seq<u32>)
    requires
        tagged_in(s, "Uid:"@).len() == 1,
        text::words(tagged_in(s, "Uid:"@)[0]).len() == 4,
        numbers_in(tagged_in(s, "Uid:"@)[0]) == Ok::<Seq<u32>, Seq<char>>(numbers),
    ensures
        uid_of(s) == Ok::<u32, Seq<char>>(numbers[1]),
{
}

/// The peer of a connection from a box is the owner exactly where it is visible, the host's status of
/// the owner gives the same account and the peer's number as the innermost one, both are in one
/// namespace, and both started at the moment that is known of the owner.
pub proof fn container_peers_are_the_owner(files: PeerFiles, owner: OwnerProcess, peer_pid: i32)
    ensures
        peer_complaint(files, owner, peer_pid) is None <==> {
            let status = files.status->Ok_0@;
            let local = start_read(files.local_stat, peer_pid as u32);
            let host = start_read(files.host_stat, owner.pid);
            &&& peer_pid > 0
            &&& files.status is Ok
            &&& uid_of(status) == Ok::<u32, Seq<char>>(owner.effective_uid)
            &&& namespace_pid_of(status) == Ok::<u32, Seq<char>>(peer_pid as u32)
            &&& files.namespace is Ok && files.namespace->Ok_0.code == Some(0i32)
            &&& files.local is Ok
            &&& text::trimmed(files.namespace->Ok_0.stdout@) == text::decimal(
                files.local->Ok_0.0 as nat,
            ) + ":"@ + text::decimal(files.local->Ok_0.1 as nat)
            &&& local is Ok && host is Ok && host->Ok_0 == local->Ok_0
            &&& owner.start_time_ticks@ == text::decimal(host->Ok_0 as nat)
        },
{
}

/// The start time is the twentieth number behind the name, whatever that holds: the number of the
/// process stands before it, and the fields begin behind its last closing bracket.
pub proof fn start_times_follow_the_name(
    s: Seq<char>,
    at: int,
    close: int,
    expected: u32,
    ticks: u64,
)
    requires
        text::place_from(s, " ("@, 0) == Some(at),
        text::u32_of(s.subrange(0, at), 10) == Ok::<u32, Seq<char>>(expected),
        text::last_place(s.subrange(at + " ("@.len(), s.len() as int), ") "@) == Some(close),
    ensures
        ({
            let rest = s.subrange(at + " ("@.len(), s.len() as int);
            let fields = text::words(rest.subrange(close + ") "@.len(), rest.len() as int));
            start_time_of(s, expected) == Ok::<u64, Seq<char>>(ticks) <==> fields.len() > 19
                && text::u64_of(fields[19], 10) == Ok::<u64, Seq<char>>(ticks)
        }),
{
}

/// A status of another process gives no start time.
pub proof fn start_times_are_of_the_process(s: Seq<char>, expected: u32)
    requires
        start_time_of(s, expected) is Ok,
    ensures
        text::place_from(s, " ("@, 0) is Some,
        text::u32_of(s.subrange(0, text::place_from(s, " ("@, 0)->0), 10) == Ok::<u32, Seq<char>>(
            expected,
        ),
{
}

/// The number of a process in its innermost namespace is the last of those in the only line on them,
/// which are at most 32 and none of them zero.
pub proof fn namespace_numbers_come_last(status: Seq<char>, pid: u32)
    ensures
        namespace_pid_of(status) == Ok::<u32, Seq<char>>(pid) <==> {
            let found = tagged_in(status, "NSpid:"@);
            let numbers = numbers_in(found[0]);
            &&& found.len() == 1
            &&& numbers is Ok
            &&& 0 < numbers->Ok_0.len() <= 32
            &&& forall|i: int| 0 <= i < numbers->Ok_0.len() ==> #[trigger] numbers->Ok_0[i] > 0
            &&& numbers->Ok_0.last() == pid
        },
{
}

/// A control group is a path that is absolute, bounded, without control characters, and of proper names
/// only, or the root.
pub proof fn groups_are_proper_paths(p: Seq<char>)
    ensures
        is_group(p) <==> p == "/"@ || {
            let parts = text::pieces(p.subrange(1, p.len() as int), '/');
            &&& p.len() > 0
            &&& p[0] == '/'
            &&& text::byte_len(p) <= 4096
            &&& forall|i: int|
                0 <= i < parts.len() ==> (#[trigger] parts[i]).len() > 0 && parts[i] != "."@
                    && parts[i] != ".."@
            &&& forall|i: int|
                0 <= i < p.len() ==> !((#[trigger] p[i]) as u32 <= 0x1f || p[i] as u32 == 0x7f)
        },
{
    let parts = text::pieces(p.subrange(1, p.len() as int), '/');
    assert((forall|i: int| 0 <= i < parts.len() ==> is_group_name(#[trigger] parts[i])) <==> forall|
        i: int,
    |
        0 <= i < parts.len() ==> (#[trigger] parts[i]).len() > 0 && parts[i] != "."@ && parts[i]
            != ".."@) by {
        if forall|i: int| 0 <= i < parts.len() ==> is_group_name(#[trigger] parts[i]) {
            assert forall|i: int| 0 <= i < parts.len() implies (#[trigger] parts[i]).len() > 0
                && parts[i] != "."@ && parts[i] != ".."@ by {
                assert(is_group_name(parts[i]));
            }
        }
    }
    assert((forall|i: int| 0 <= i < p.len() ==> !is_plain_control(#[trigger] p[i])) <==> forall|
        i: int,
    |
        0 <= i < p.len() ==> !((#[trigger] p[i]) as u32 <= 0x1f || p[i] as u32 == 0x7f)) by {
        if forall|i: int| 0 <= i < p.len() ==> !is_plain_control(#[trigger] p[i]) {
            assert forall|i: int| 0 <= i < p.len() implies !((#[trigger] p[i]) as u32 <= 0x1f || p[i] as u32
                == 0x7f) by {
                assert(!is_plain_control(p[i]));
            }
        }
    }
}

/// A line of a control group listing is about the unified hierarchy exactly where its number is zero
/// and it has no controllers, and about the manager's where its controllers name it.
pub proof fn group_lines_are_told_apart(line: Seq<char>)
    ensures
        group_role(line) is Bad <==> group_line(line) is Err || !is_group(group_line(line)->Ok_0.2),
        group_role(line) is Unified <==> group_line(line) is Ok && is_group(group_line(line)->Ok_0.2)
            && group_line(line)->Ok_0.0 == 0 && group_line(line)->Ok_0.1.len() == 0,
        group_role(line) is Manager <==> group_line(line) is Ok && is_group(group_line(line)->Ok_0.2)
            && !(group_line(line)->Ok_0.0 == 0 && group_line(line)->Ok_0.1.len() == 0)
            && text::pieces(group_line(line)->Ok_0.1, ',').contains("name=systemd"@),
        group_line(line) is Ok ==> (text::split_once_spec(line, ':') matches Some((first, rest))
            && text::u32_of(first, 10) == Ok::<u32, Seq<char>>(group_line(line)->Ok_0.0)
            && text::split_once_spec(rest, ':') == Some(
            (group_line(line)->Ok_0.1, group_line(line)->Ok_0.2),
        )),
{
}

} // verus!
