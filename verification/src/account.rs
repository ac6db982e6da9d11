//! The accounts that daemons and their helpers run under.

use crate::container_destination::Execution;
use crate::digest;
use crate::digest::Hasher;
use crate::path;
use crate::services::{ServiceAction, ServiceScope};
use crate::text;
use crate::text::{outcome, texts};
use vstd::prelude::*;

verus! {

/// The most supplementary groups that an account may have.
pub const MAX_GROUPS: i32 = 65_536;

#[derive(Clone, Debug)]
pub struct Account {
    pub uid: u32,
    pub gid: u32,
    pub groups: Vec<u32>,
    pub name: String,
    pub home: String,
    /// The box that the account's helpers run in, where they do.
    pub container: Option<Execution>,
}

/// Whether two accounts are one: the numbers, the groups, the name and the home.
pub open spec fn same_account(a: Account, b: Account) -> bool {
    &&& a.uid == b.uid
    &&& a.gid == b.gid
    &&& a.groups@ == b.groups@
    &&& a.name@ == b.name@
    &&& path::same_path(a.home@, b.home@)
}

impl Account {
    pub fn same(&self, other: &Account) -> (r: bool)
        ensures
            r == same_account(*self, *other),
    {
        self.uid == other.uid && self.gid == other.gid && same_groups(&self.groups, &other.groups)
            && text::eq(self.name.as_str(), other.name.as_str()) && path::same(
            self.home.as_str(),
            other.home.as_str(),
        )
    }
}

/// An account as the user database lists it.
#[derive(Clone, Debug)]
pub struct AccountEntry {
    pub uid: u32,
    pub gid: u32,
    pub name: String,
    pub home: String,
}

/// A variable in the environment of a helper.
#[derive(Clone, Debug)]
pub struct Variable {
    pub name: String,
    pub value: String,
}

/// A helper as it is to be started.
#[derive(Clone, Debug)]
pub struct Helper {
    pub program: String,
    pub arguments: Vec<String>,
    /// The whole environment: nothing is inherited.
    pub environment: Vec<Variable>,
    pub directory: String,
    /// Whether the credentials are to be taken on before the program runs.
    pub change_account: bool,
    pub uid: u32,
    pub gid: u32,
    pub groups: Vec<u32>,
}

pub open spec fn ascending(s: Seq<u32>) -> bool {
    forall|i: int, j: int| 0 <= i < j < s.len() ==> s[i] < s[j]
}

/// The members of a list, each once and in ascending order.
pub open spec fn normalized(list: Seq<u32>, r: Seq<u32>) -> bool {
    ascending(r) && forall|x: u32| r.contains(x) <==> list.contains(x)
}

/// A list has only one normal form.
pub proof fn normal_form_is_unique(list: Seq<u32>, a: Seq<u32>, b: Seq<u32>)
    requires
        normalized(list, a),
        normalized(list, b),
    ensures
        a == b,
{
    ascending_prefix(a, b, 0);
    ascending_prefix(b, a, 0);
    if a.len() > b.len() {
        assert(a.contains(a[b.len() as int]));
        assert(b.contains(a[b.len() as int]));
        let j = choose|j: int| 0 <= j < b.len() && b[j] == a[b.len() as int];
        assert(a[j] == b[j]);
    }
    if b.len() > a.len() {
        assert(b.contains(b[a.len() as int]));
        assert(a.contains(b[a.len() as int]));
        let j = choose|j: int| 0 <= j < a.len() && a[j] == b[a.len() as int];
        assert(a[j] == b[j]);
    }
    assert(a =~= b);
}

proof fn ascending_prefix(a: Seq<u32>, b: Seq<u32>, i: int)
    requires
        ascending(a),
        ascending(b),
        forall|x: u32| a.contains(x) <==> b.contains(x),
        0 <= i,
        forall|j: int| 0 <= j < i && j < a.len() && j < b.len() ==> a[j] == b[j],
    ensures
        forall|j: int| 0 <= j < a.len() && j < b.len() ==> a[j] == b[j],
    decreases a.len() + b.len() - i,
{
    if i < a.len() && i < b.len() {
        assert(a.contains(a[i]));
        assert(b.contains(b[i]));
        let p = choose|p: int| 0 <= p < b.len() && b[p] == a[i];
        let q = choose|q: int| 0 <= q < a.len() && a[q] == b[i];
        assert(p >= i) by {
            if p < i {
                assert(a[p] == b[p]);
            }
        }
        assert(q >= i) by {
            if q < i {
                assert(a[q] == b[q]);
            }
        }
        ascending_prefix(a, b, i + 1);
    }
}

/// Puts a list of groups into its normal form.
pub fn normalize(list: &Vec<u32>) -> (r: Vec<u32>)
    ensures
        normalized(list@, r@),
{
    let mut out: Vec<u32> = Vec::new();
    let mut i: usize = 0;
    while i < list.len()
        invariant
            i <= list@.len(),
            normalized(list@.take(i as int), out@),
        decreases list@.len() - i,
    {
        let x: u32 = list[i];
        let ghost before = out@;
        let ghost seen = list@.take(i as int);
        insert(&mut out, x);
        proof {
            assert(list@.take(i + 1) =~= seen.push(x));
            assert forall|y: u32| out@.contains(y) <==> list@.take(i + 1).contains(y) by {
                contains_push(seen, x, y);
                assert(before.contains(y) <==> seen.contains(y));
            }
        }
        i += 1;
    }
    assert(list@.take(i as int) =~= list@);
    out
}

proof fn contains_push(s: Seq<u32>, x: u32, y: u32)
    ensures
        s.push(x).contains(y) <==> s.contains(y) || x == y,
{
    if s.contains(y) {
        let i = choose|i: int| 0 <= i < s.len() && s[i] == y;
        assert(s.push(x)[i] == y);
    }
    assert(s.push(x)[s.len() as int] == x);
    if s.push(x).contains(y) && x != y {
        let i = choose|i: int| 0 <= i < s.push(x).len() && s.push(x)[i] == y;
        assert(s[i] == y);
    }
}

fn insert(out: &mut Vec<u32>, x: u32)
    requires
        ascending(old(out)@),
    ensures
        ascending(final(out)@),
        forall|y: u32| #[trigger] final(out)@.contains(y) == (old(out)@.contains(y) || y == x),
{
    let ghost before = out@;
    let mut at: usize = 0;
    while at < out.len() && out[at] < x
        invariant
            out@ == before,
            at <= out@.len(),
            forall|j: int| 0 <= j < at ==> out@[j] < x,
        decreases out@.len() - at,
    {
        at += 1;
    }
    if at < out.len() && out[at] == x {
        assert(before[at as int] == x);
        return;
    }
    out.insert(at, x);
    proof {
        assert forall|y: u32| #[trigger] out@.contains(y) == (before.contains(y) || y == x) by {
            assert(out@[at as int] == x);
            if before.contains(y) {
                let j = choose|j: int| 0 <= j < before.len() && before[j] == y;
                if j < at {
                    assert(out@[j] == y);
                } else {
                    assert(out@[j + 1] == y);
                }
            }
            if out@.contains(y) && y != x {
                let j = choose|j: int| 0 <= j < out@.len() && out@[j] == y;
                if j < at {
                    assert(before[j] == y);
                } else {
                    assert(before[j - 1] == y);
                }
            }
        }
    }
}

/// Whether two lists of groups are equal.
pub fn same_groups(a: &Vec<u32>, b: &Vec<u32>) -> (r: bool)
    ensures
        r == (a@ == b@),
{
    if a.len() != b.len() {
        return false;
    }
    let mut i: usize = 0;
    while i < a.len()
        invariant
            i <= a@.len() == b@.len(),
            forall|j: int| 0 <= j < i ==> a@[j] == b@[j],
        decreases a@.len() - i,
    {
        if a[i] != b[i] {
            return false;
        }
        i += 1;
    }
    assert(a@ =~= b@);
    true
}

/// How many groups to make room for when the first list was too short.
pub fn group_room(count: i32) -> (r: Result<usize, String>)
    ensures
        outcome(r) == if 1 <= count <= MAX_GROUPS {
            Ok(count as usize)
        } else {
            Err("Daemon supplementary group list exceeds its limit"@)
        },
{
    if count < 1 || count > MAX_GROUPS {
        return Err("Daemon supplementary group list exceeds its limit".to_owned());
    }
    Ok(count as usize)
}

/// How many of the listed groups count, once the list was read.
pub fn group_count(result: i32, count: i32, room: usize) -> (r: Result<usize, String>)
    ensures
        outcome(r) == if result >= 0 && 0 <= count <= room {
            Ok(count as usize)
        } else {
            Err("Cannot resolve daemon supplementary groups"@)
        },
{
    if result < 0 || count < 0 || count as usize > room {
        return Err("Cannot resolve daemon supplementary groups".to_owned());
    }
    Ok(count as usize)
}

/// What speaks against an account in the user database.
pub open spec fn entry_complaint(entry: Option<AccountEntry>) -> Option<Seq<char>> {
    match entry {
        None => Some(
            "Daemon account is unavailable. Check the user or installed sysusers rule"@,
        ),
        Some(e) => if e.uid == 0 {
            Some("Hardware operations require an unprivileged daemon account"@)
        } else if e.name@.len() == 0 || text::byte_len(e.name@) > 256 || !path::is_absolute(
            e.home@,
        ) {
            Some("Invalid daemon account name or home directory"@)
        } else {
            None
        },
    }
}

pub open spec fn caller_of(root: bool, variable: Result<Seq<char>, Seq<char>>) -> Result<
    u32,
    Seq<char>,
> {
    if !root {
        Err("Service switching requires administrator authorization"@)
    } else {
        match variable {
            Err(e) => Err(
                "Start automatic service switching from the native GUI authorization flow: "@ + e,
            ),
            Ok(s) => match text::u32_of(s, 10) {
                Ok(uid) => Ok(uid),
                Err(e) => Err("Invalid authorized caller identity: "@ + e),
            },
        }
    }
}

/// The runtime directory of an account.
pub open spec fn runtime_of(uid: u32) -> Seq<char> {
    "/run/user/"@ + text::decimal(uid as nat)
}

pub fn runtime_directory(uid: u32) -> (r: String)
    ensures
        r@ == runtime_of(uid),
{
    let mut r = "/run/user/".to_owned();
    r.append(text::format_u64(uid as u64).as_str());
    r
}

impl Variable {
    pub open spec fn pair(self) -> (Seq<char>, Seq<char>) {
        (self.name@, self.value@)
    }

    fn new(name: &str, value: &str) -> (r: Variable)
        ensures
            r.pair() == (name@, value@),
    {
        Variable { name: name.to_owned(), value: value.to_owned() }
    }
}

/// The variables as pairs.
pub open spec fn pairs(v: Seq<Variable>) -> Seq<(Seq<char>, Seq<char>)> {
    Seq::new(v.len(), |i: int| v[i].pair())
}

/// The whole environment of a helper of an account.
pub open spec fn environment_of(account: Account) -> Seq<(Seq<char>, Seq<char>)> {
    seq![
        ("PATH"@, "/usr/bin:/bin"@),
        ("HOME"@, account.home@),
        ("USER"@, account.name@),
        ("LOGNAME"@, account.name@),
        ("LC_ALL"@, "C"@),
        ("XDG_RUNTIME_DIR"@, runtime_of(account.uid)),
        ("DBUS_SESSION_BUS_ADDRESS"@, "unix:path="@ + runtime_of(account.uid) + "/bus"@),
        ("DBUS_SYSTEM_BUS_ADDRESS"@, "unix:path=/run/dbus/system_bus_socket"@),
    ]
}

/// Whether credentials are those of an account.
pub open spec fn holds(account: Account, uid: u32, gid: u32, groups: Seq<u32>) -> bool {
    account.uid == uid && account.gid == gid && account.groups@ == groups
}

/// What speaks against starting a helper for an account.
pub open spec fn helper_complaint(
    account: Account,
    root: bool,
    uid: u32,
    gid: u32,
    groups: Seq<u32>,
) -> Option<Seq<char>> {
    if account.uid == 0 {
        Some("Refusing to run an account helper as root"@)
    } else if !root && !holds(account, uid, gid, groups) {
        Some(
            "Destination helper does not have the intended UID, primary group and supplementary groups"@,
        )
    } else {
        None
    }
}

/// A helper that runs a program for an account.
pub open spec fn helper_for(
    helper: Helper,
    account: Account,
    root: bool,
    program: Seq<char>,
    arguments: Seq<Seq<char>>,
) -> bool {
    &&& helper.program@ == program
    &&& texts(helper.arguments@) == arguments
    &&& pairs(helper.environment@) == environment_of(account)
    &&& helper.directory@ == "/"@
    &&& helper.change_account == root
    &&& helper.uid == account.uid
    &&& helper.gid == account.gid
    &&& helper.groups@ == account.groups@
}

/// The arguments that ask the user's service manager for an action on the daemon.
pub open spec fn action_arguments(action: ServiceAction) -> Seq<Seq<char>> {
    seq![
        "--user"@,
        "--no-ask-password"@,
        "--no-pager"@,
        "--no-block"@,
        "--job-mode=fail"@,
        action.argument_spec(),
        "lianli-daemon.service"@,
    ]
}

impl Account {
    /// The account of a user, with the groups it is listed in.
    pub fn user(entry: Option<AccountEntry>, groups: &Vec<u32>) -> (r: Result<Account, String>)
        ensures
            match r {
                Ok(account) => {
                    &&& entry_complaint(entry) is None
                    &&& entry matches Some(e)
                    &&& account.uid == e.uid
                    &&& account.gid == e.gid
                    &&& account.name@ == e.name@
                    &&& account.home@ == e.home@
                    &&& normalized(groups@, account.groups@)
                    &&& account.container is None
                },
                Err(e) => entry_complaint(entry) == Some(e@),
            },
    {
        let entry = Self::check(entry)?;
        Ok(
            Account {
                uid: entry.uid,
                gid: entry.gid,
                groups: normalize(groups),
                name: entry.name,
                home: entry.home,
                container: None,
            },
        )
    }

    /// The account of the system service, whose primary group is that of the package.
    pub fn system(entry: Option<AccountEntry>, group: Option<u32>, groups: &Vec<u32>) -> (r: Result<
        Account,
        String,
    >)
        ensures
            match r {
                Ok(account) => {
                    &&& entry_complaint(entry) is None
                    &&& entry matches Some(e)
                    &&& account.uid == e.uid
                    &&& Some(account.gid) == group
                    &&& account.name@ == e.name@
                    &&& account.home@ == e.home@
                    &&& normalized(groups@, account.groups@)
                    &&& account.container is None
                },
                Err(e) => match entry_complaint(entry) {
                    Some(complaint) => e@ == complaint,
                    None => group is None && e@ == "Packaged lianli service group is unavailable"@,
                },
            },
    {
        let entry = Self::check(entry)?;
        match group {
            Some(gid) => Ok(
                Account {
                    uid: entry.uid,
                    gid,
                    groups: normalize(groups),
                    name: entry.name,
                    home: entry.home,
                    container: None,
                },
            ),
            None => Err("Packaged lianli service group is unavailable".to_owned()),
        }
    }

    fn check(entry: Option<AccountEntry>) -> (r: Result<AccountEntry, String>)
        ensures
            match r {
                Ok(e) => entry == Some(e) && entry_complaint(entry) is None,
                Err(e) => entry_complaint(entry) == Some(e@),
            },
    {
        match entry {
            None => Err(
                "Daemon account is unavailable. Check the user or installed sysusers rule".to_owned(),
            ),
            Some(e) => {
                if e.uid == 0 {
                    return Err(
                        "Hardware operations require an unprivileged daemon account".to_owned(),
                    );
                }
                let letters = text::chars(e.name.as_str());
                if letters.len() == 0 || text::len(e.name.as_str()) > 256 || !path::absolute(
                    e.home.as_str(),
                ) {
                    return Err("Invalid daemon account name or home directory".to_owned());
                }
                Ok(e)
            },
        }
    }

    /// The user on whose behalf an administrator's authorization was given: whether this process
    /// has it, and the variable that the authorization set.
    pub fn authorized_caller(root: bool, variable: Result<&str, &str>) -> (r: Result<u32, String>)
        ensures
            outcome(r) == caller_of(
                root,
                match variable {
                    Ok(s) => Ok(s@),
                    Err(e) => Err(e@),
                },
            ),
    {
        if !root {
            return Err("Service switching requires administrator authorization".to_owned());
        }
        match variable {
            Err(e) => Err(
                text::worded(
                    "Start automatic service switching from the native GUI authorization flow: ",
                    e,
                ),
            ),
            Ok(s) => match text::read_u32(s, 10) {
                Ok(uid) => Ok(uid),
                Err(e) => Err(text::worded("Invalid authorized caller identity: ", e.as_str())),
            },
        }
    }

    /// A helper of this program itself.
    pub fn control_command(
        &self,
        arguments: Vec<String>,
        root: bool,
        uid: u32,
        gid: u32,
        groups: &Vec<u32>,
    ) -> (r: Result<Helper, String>)
        ensures
            match r {
                Ok(helper) => {
                    &&& helper_complaint(*self, root, uid, gid, groups@) is None
                    &&& helper_for(helper, *self, root, "/proc/self/exe"@, texts(arguments@))
                },
                Err(e) => helper_complaint(*self, root, uid, gid, groups@) == Some(e@),
            },
    {
        self.command("/proc/self/exe", arguments, root, uid, gid, groups)
    }

    /// A helper that asks the user's service manager for an action on the daemon.
    pub fn user_service_command(
        &self,
        action: ServiceAction,
        root: bool,
        uid: u32,
        gid: u32,
        groups: &Vec<u32>,
    ) -> (r: Result<Helper, String>)
        ensures
            match r {
                Ok(helper) => {
                    &&& helper_complaint(*self, root, uid, gid, groups@) is None
                    &&& helper_for(
                        helper,
                        *self,
                        root,
                        "/usr/bin/systemctl"@,
                        action_arguments(action),
                    )
                },
                Err(e) => helper_complaint(*self, root, uid, gid, groups@) == Some(e@),
            },
    {
        let mut arguments: Vec<String> = Vec::new();
        arguments.push("--user".to_owned());
        arguments.push("--no-ask-password".to_owned());
        arguments.push("--no-pager".to_owned());
        arguments.push("--no-block".to_owned());
        arguments.push("--job-mode=fail".to_owned());
        arguments.push(action.argument().to_owned());
        arguments.push("lianli-daemon.service".to_owned());
        assert(texts(arguments@) =~= action_arguments(action));
        self.command("/usr/bin/systemctl", arguments, root, uid, gid, groups)
    }

    /// Whether the current credentials are those of the account.
    pub fn verify_current(&self, uid: u32, gid: u32, groups: &Vec<u32>) -> (r: Result<(), String>)
        ensures
            outcome(r) == if holds(*self, uid, gid, groups@) {
                Ok(())
            } else {
                Err(
                    "Destination helper does not have the intended UID, primary group and supplementary groups"@,
                )
            },
    {
        if self.uid == uid && self.gid == gid && same_groups(&self.groups, groups) {
            Ok(())
        } else {
            Err(
                "Destination helper does not have the intended UID, primary group and supplementary groups".to_owned(),
            )
        }
    }

    /// The fingerprint of the group list.
    pub fn group_fingerprint(&self) -> (r: String)
        ensures
            r@ == digest::fingerprint(digest::le32s(self.groups@)),
    {
        let mut hasher = Hasher::new();
        hasher.update_le32s(self.groups.as_slice());
        assert(Seq::<u8>::empty() + digest::le32s(self.groups@) =~= digest::le32s(self.groups@));
        hasher.finish()
    }

    /// A helper that runs a program with the account's credentials and a clean environment. A
    /// process without authority must hold those credentials already.
    pub fn command(
        &self,
        program: &str,
        arguments: Vec<String>,
        root: bool,
        uid: u32,
        gid: u32,
        groups: &Vec<u32>,
    ) -> (r: Result<Helper, String>)
        ensures
            match r {
                Ok(helper) => {
                    &&& helper_complaint(*self, root, uid, gid, groups@) is None
                    &&& helper_for(helper, *self, root, program@, texts(arguments@))
                },
                Err(e) => helper_complaint(*self, root, uid, gid, groups@) == Some(e@),
            },
    {
        if self.uid == 0 {
            return Err("Refusing to run an account helper as root".to_owned());
        }
        if !root {
            self.verify_current(uid, gid, groups)?;
        }
        let runtime = runtime_directory(self.uid);
        let mut bus = "unix:path=".to_owned();
        bus.append(runtime.as_str());
        bus.append("/bus");
        let mut environment: Vec<Variable> = Vec::new();
        environment.push(Variable::new("PATH", "/usr/bin:/bin"));
        environment.push(Variable::new("HOME", self.home.as_str()));
        environment.push(Variable::new("USER", self.name.as_str()));
        environment.push(Variable::new("LOGNAME", self.name.as_str()));
        environment.push(Variable::new("LC_ALL", "C"));
        environment.push(Variable::new("XDG_RUNTIME_DIR", runtime.as_str()));
        environment.push(Variable::new("DBUS_SESSION_BUS_ADDRESS", bus.as_str()));
        environment.push(
            Variable::new("DBUS_SYSTEM_BUS_ADDRESS", "unix:path=/run/dbus/system_bus_socket"),
        );
        assert(pairs(environment@) =~= environment_of(*self));
        Ok(
            Helper {
                program: program.to_owned(),
                arguments,
                environment,
                directory: "/".to_owned(),
                change_account: root,
                uid: self.uid,
                gid: self.gid,
                groups: self.groups.clone(),
            },
        )
    }
}

pub open spec fn groups_complaint(count: i32, read: i32) -> Option<Seq<char>> {
    if !(0 <= count <= MAX_GROUPS) {
        Some("Cannot inspect current supplementary groups"@)
    } else if read != count {
        Some("Supplementary groups changed while preparing the helper"@)
    } else {
        None
    }
}

/// The groups of this process in normal form: how many there were to read, how many were read,
/// and the primary group.
pub fn current_groups(count: i32, read: i32, groups: Vec<u32>, gid: u32) -> (r: Result<
    Vec<u32>,
    String,
>)
    ensures
        match r {
            Ok(list) => groups_complaint(count, read) is None && normalized(
                groups@.push(gid),
                list@,
            ),
            Err(e) => groups_complaint(count, read) == Some(e@),
        },
{
    if count < 0 || count > MAX_GROUPS {
        return Err("Cannot inspect current supplementary groups".to_owned());
    }
    if read != count {
        return Err("Supplementary groups changed while preparing the helper".to_owned());
    }
    let mut groups = groups;
    groups.push(gid);
    Ok(normalize(&groups))
}

/// The order in which groups are listed, and how often, does not show in an account's credentials.
pub proof fn group_order_does_not_matter(list: Seq<u32>, other: Seq<u32>, a: Seq<u32>, b: Seq<u32>)
    requires
        forall|x: u32| list.contains(x) <==> other.contains(x),
        normalized(list, a),
        normalized(other, b),
    ensures
        a == b,
        digest::fingerprint(digest::le32s(a)) == digest::fingerprint(digest::le32s(b)),
{
    assert(normalized(list, b)) by {
        assert forall|x: u32| b.contains(x) <==> list.contains(x) by {
            assert(b.contains(x) <==> other.contains(x));
        }
    }
    normal_form_is_unique(list, a, b);
}

/// A helper never runs with root's credentials.
pub proof fn helpers_are_unprivileged(
    account: Account,
    root: bool,
    uid: u32,
    gid: u32,
    groups: Seq<u32>,
)
    requires
        helper_complaint(account, root, uid, gid, groups) is None,
    ensures
        account.uid != 0,
        !root ==> holds(account, uid, gid, groups),
{
}

/// An account is taken exactly where it is listed, is not root's, has a name of at most 256 bytes and
/// a home that is an absolute path.
pub proof fn unprivileged_accounts_are_taken(entry: Option<AccountEntry>)
    ensures
        entry_complaint(entry) is None <==> {
            &&& entry is Some
            &&& entry->0.uid != 0
            &&& entry->0.name@.len() > 0
            &&& text::byte_len(entry->0.name@) <= 256
            &&& entry->0.home@.len() > 0
            &&& entry->0.home@[0] == '/'
        },
{
}

/// The caller of a switch is the account that the authorization names, and none without it.
pub proof fn callers_are_authorized_by_name(
    root: bool,
    variable: Result<Seq<char>, Seq<char>>,
    uid: u32,
)
    ensures
        caller_of(root, variable) == Ok::<u32, Seq<char>>(uid) <==> root && variable is Ok
            && text::u32_of(variable->Ok_0, 10) == Ok::<u32, Seq<char>>(uid),
{
}

/// A helper may be started exactly for an account that is not root's, by root or by a process that
/// has the number, the group and the groups of that account already.
pub proof fn helpers_are_started_for_their_account(
    account: Account,
    root: bool,
    uid: u32,
    gid: u32,
    groups: Seq<u32>,
)
    ensures
        helper_complaint(account, root, uid, gid, groups) is None <==> account.uid != 0 && (root || (
        account.uid == uid && account.gid == gid && account.groups@ == groups)),
{
}

/// The environment of a helper speaks of its own account: home, name and runtime directory are that
/// account's, each variable stands there once, and nothing else does.
pub proof fn environments_speak_of_their_account(a: Account, i: int, j: int)
    requires
        0 <= i < j < environment_of(a).len(),
    ensures
        environment_of(a)[i].0 != environment_of(a)[j].0,
        environment_of(a).contains(("HOME"@, a.home@)),
        environment_of(a).contains(("USER"@, a.name@)),
        environment_of(a).contains(("LOGNAME"@, a.name@)),
        environment_of(a).contains(
            ("XDG_RUNTIME_DIR"@, "/run/user/"@ + text::decimal(a.uid as nat)),
        ),
        environment_of(a).contains(
            (
                "DBUS_SESSION_BUS_ADDRESS"@,
                "unix:path="@ + ("/run/user/"@ + text::decimal(a.uid as nat)) + "/bus"@,
            ),
        ),
        environment_of(a).contains(("PATH"@, "/usr/bin:/bin"@)),
        environment_of(a).len() == 8,
{
    reveal_strlit("PATH");
    reveal_strlit("HOME");
    reveal_strlit("USER");
    reveal_strlit("LOGNAME");
    reveal_strlit("LC_ALL");
    reveal_strlit("XDG_RUNTIME_DIR");
    reveal_strlit("DBUS_SESSION_BUS_ADDRESS");
    reveal_strlit("DBUS_SYSTEM_BUS_ADDRESS");
    let all = environment_of(a);
    assert(all[0].0[0] == 'P');
    assert(all[1].0[0] == 'H');
    assert(all[2].0[0] == 'U');
    assert(all[3].0[0] == 'L' && all[3].0[1] == 'O');
    assert(all[4].0[0] == 'L' && all[4].0[1] == 'C');
    assert(all[5].0[0] == 'X');
    assert(all[6].0[0] == 'D' && all[6].0[6] == 'E');
    assert(all[7].0[0] == 'D' && all[7].0[6] == 'Y');
    assert(all[1] == ("HOME"@, a.home@));
    assert(all[2] == ("USER"@, a.name@));
    assert(all[3] == ("LOGNAME"@, a.name@));
    assert(all[0] == ("PATH"@, "/usr/bin:/bin"@));
}

/// An action is asked of the user's manager, for the user's unit, by the word of that action, and no
/// two actions are asked for alike.
pub proof fn actions_are_asked_of_the_users_manager(a: ServiceAction, b: ServiceAction)
    ensures
        action_arguments(a)[0] == ServiceScope::User.argument_spec(),
        action_arguments(a).last() == ServiceScope::User.unit_spec(),
        action_arguments(a).contains(a.argument_spec()),
        a != b ==> action_arguments(a) != action_arguments(b),
{
    reveal_strlit("start");
    reveal_strlit("stop");
    reveal_strlit("restart");
    assert("start"@[2] == 'a');
    assert("stop"@[2] == 'o');
    assert("restart"@[0] == 'r');
    assert("start"@[0] == 's');
    assert("stop"@[0] == 's');
    assert(action_arguments(a)[5] == a.argument_spec());
    assert(action_arguments(b)[5] == b.argument_spec());
}

/// The groups of a process are known exactly where their number is a possible one and did not change.
pub proof fn groups_are_read_whole(count: i32, read: i32)
    ensures
        groups_complaint(count, read) is None <==> 0 <= count <= 65_536 && read == count,
{
}

/// Two accounts are one exactly where they agree in all that a helper takes from them.
pub proof fn accounts_are_compared_whole(a: Account, b: Account)
    ensures
        same_account(a, b) <==> a.uid == b.uid && a.gid == b.gid && a.groups@ == b.groups@ && a.name@
            == b.name@ && path::is_absolute(a.home@) == path::is_absolute(b.home@)
            && path::components_of(a.home@) == path::components_of(b.home@),
        same_account(a, a),
        same_account(a, b) == same_account(b, a),
{
}

} // verus!
