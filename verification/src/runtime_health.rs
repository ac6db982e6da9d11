//! Whether the running process may use the host's lock and render nodes, and what its report to
//! another process must agree with.

use crate::command::Output;
use crate::container_destination::complaint;
use crate::digest;
use crate::digest::Hasher;
use crate::files::FileKind;
use crate::findings::{
    finding_views, CheckState, FindingSeverity, FindingView, InstallationFinding, InstallationGuide,
};
use crate::order;
use crate::path;
use crate::services::InstallationContext;
use crate::text;
use crate::text::{outcome, texts};
use vstd::prelude::*;

verus! {

/// The most groups that a summary names.
pub const MAX_NAMED: usize = 16;

/// The most findings of a report.
pub const MAX_FINDINGS: usize = 16;

/// The most entries of a device directory that are looked at.
pub const MAX_ENTRIES: usize = 256;

/// How USB devices are reached.
#[derive(Clone, Copy, Debug, PartialEq, Eq, Structural)]
pub enum HidBackend {
    Hidraw,
    Rusb,
}

impl HidBackend {
    pub open spec fn word_spec(self) -> Seq<char> {
        match self {
            HidBackend::Hidraw => "hidraw"@,
            HidBackend::Rusb => "rusb"@,
        }
    }

    pub fn word(self) -> (r: &'static str)
        ensures
            r@ == self.word_spec(),
    {
        match self {
            HidBackend::Hidraw => "hidraw",
            HidBackend::Rusb => "rusb",
        }
    }
}

pub open spec fn backend_of(value: Seq<char>) -> Result<HidBackend, Seq<char>> {
    if value == "hidraw"@ {
        Ok(HidBackend::Hidraw)
    } else if value == "rusb"@ {
        Ok(HidBackend::Rusb)
    } else {
        Err("Choose hidraw or rusb"@)
    }
}

pub fn parse_hid_backend(value: &str) -> (r: Result<HidBackend, String>)
    ensures
        outcome(r) == backend_of(value@),
{
    if text::eq(value, "hidraw") {
        Ok(HidBackend::Hidraw)
    } else if text::eq(value, "rusb") {
        Ok(HidBackend::Rusb)
    } else {
        Err("Choose hidraw or rusb".to_owned())
    }
}

/// The numbers of the kernel for a refusal: not permitted, permission denied, read-only.
pub open spec fn is_refusal(number: i32) -> bool {
    number == 1 || number == 13 || number == 30
}

/// What the kernel's test of access says: nothing on success, else the number and text of the error.
pub fn effective_access(error: &Option<(Option<i32>, String)>) -> (r: Result<bool, String>)
    ensures
        outcome(r) == match *error {
            None => Ok(true),
            Some((number, text)) => if number is Some && is_refusal(number->0) {
                Ok(false)
            } else {
                Err(text@)
            },
        },
{
    match error {
        None => Ok(true),
        Some((number, text)) => match number {
            Some(n) => {
                if *n == 1 || *n == 13 || *n == 30 {
                    Ok(false)
                } else {
                    Err(text.clone())
                }
            },
            None => Err(text.clone()),
        },
    }
}

/// Access to the lock, which must be a regular file: its group, and whether it is granted.
pub fn lock_access(kind: FileKind, gid: u32, granted: Result<bool, String>) -> (r: Result<
    (u32, bool),
    String,
>)
    ensures
        outcome(r) == if kind != FileKind::File {
            Err("The shared ownership lock is not a regular file"@)
        } else {
            match granted {
                Ok(granted) => Ok((gid, granted)),
                Err(e) => Err(e@),
            }
        },
{
    if kind != FileKind::File {
        return Err("The shared ownership lock is not a regular file".to_owned());
    }
    match granted {
        Ok(granted) => Ok((gid, granted)),
        Err(e) => Err(e),
    }
}

/// The first `n` numbers in decimal digits.
pub open spec fn digits_of(numbers: Seq<u32>, n: int) -> Seq<Seq<char>> {
    Seq::new(n as nat, |i: int| text::decimal(numbers[i] as nat))
}

/// The groups of a process in words: at most sixteen, then how many there are.
pub open spec fn summary_of(groups: Seq<u32>) -> Seq<char> {
    if groups.len() <= MAX_NAMED {
        text::joined(digits_of(groups, groups.len() as int), ", "@)
    } else {
        text::joined(digits_of(groups, MAX_NAMED as int), ", "@) + " ("@ + text::decimal(
            groups.len(),
        ) + " total)"@
    }
}

pub fn group_summary(groups: &Vec<u32>) -> (r: String)
    ensures
        r@ == summary_of(groups@),
{
    let n: usize = if groups.len() <= MAX_NAMED {
        groups.len()
    } else {
        MAX_NAMED
    };
    let mut names: Vec<String> = Vec::new();
    let mut i: usize = 0;
    assert(texts(names@) =~= digits_of(groups@, 0));
    while i < n
        invariant
            n <= groups@.len(),
            i <= n,
            texts(names@) == digits_of(groups@, i as int),
        decreases n - i,
    {
        let name = text::format_u64(groups[i] as u64);
        proof {
            text::texts_push(names@, name);
        }
        names.push(name);
        i += 1;
        assert(texts(names@) =~= digits_of(groups@, i as int));
    }
    let mut r = text::join(&names, ", ");
    if groups.len() > MAX_NAMED {
        r.append(" (");
        r.append(text::format_u64(groups.len() as u64).as_str());
        r.append(" total)");
    }
    r
}

/// The process in words.
pub open spec fn label_of(context: InstallationContext, uid: u32) -> Seq<char> {
    match context {
        InstallationContext::Native => "Native process UID "@ + text::decimal(uid as nat),
        InstallationContext::Distrobox { name } => "Distrobox "@ + name@ + ", process UID "@
            + text::decimal(uid as nat),
        InstallationContext::UnsupportedContainer => "Unsupported container, UID "@
            + text::decimal(uid as nat),
    }
}

fn label(context: &InstallationContext, uid: u32) -> (r: String)
    ensures
        r@ == label_of(*context, uid),
{
    let number = text::format_u64(uid as u64);
    match context {
        InstallationContext::Native => {
            let mut r = "Native process UID ".to_owned();
            r.append(number.as_str());
            r
        },
        InstallationContext::Distrobox { name } => {
            let mut r = "Distrobox ".to_owned();
            r.append(name.as_str());
            r.append(", process UID ");
            r.append(number.as_str());
            r
        },
        InstallationContext::UnsupportedContainer => {
            let mut r = "Unsupported container, UID ".to_owned();
            r.append(number.as_str());
            r
        },
    }
}

pub open spec fn guide_of(context: InstallationContext) -> InstallationGuide {
    if context is Native {
        InstallationGuide::ServiceModes
    } else {
        InstallationGuide::Distrobox
    }
}

pub open spec fn repair_of(context: InstallationContext) -> Seq<char> {
    if context is Distrobox {
        "Apply the host tmpfiles/group setup, log out and back in, then stop and re-enter the existing box and restart its user service. Compare numeric group IDs visible inside the box. Matching names alone are insufficient. Do not create a private lock or install host rules only inside the box."@
    } else {
        "Install the supplied host tmpfiles rule and run sudo systemd-tmpfiles --create lianli.conf. For user service setup, add your user to the host lianli group, log out and back in, then restart the selected service. A system service must use the packaged lianli account/group. Do not replace an active lock."@
    }
}

fn repair(context: &InstallationContext) -> (r: &'static str)
    ensures
        r@ == repair_of(*context),
{
    match context {
        InstallationContext::Distrobox { .. } => {
            "Apply the host tmpfiles/group setup, log out and back in, then stop and re-enter the existing box and restart its user service. Compare numeric group IDs visible inside the box. Matching names alone are insufficient. Do not create a private lock or install host rules only inside the box."
        },
        _ => {
            "Install the supplied host tmpfiles rule and run sudo systemd-tmpfiles --create lianli.conf. For user service setup, add your user to the host lianli group, log out and back in, then restart the selected service. A system service must use the packaged lianli account/group. Do not replace an active lock."
        },
    }
}

/// The finding on access to the lock.
pub open spec fn lock_finding(
    context: InstallationContext,
    uid: u32,
    access: Result<(u32, bool), String>,
) -> FindingView {
    FindingView {
        code: "runtime.lock_access"@,
        state: match access {
            Ok((_, granted)) => if granted {
                CheckState::Passed
            } else {
                CheckState::Failed
            },
            Err(_) => CheckState::Unavailable,
        },
        severity: match access {
            Ok((_, true)) => FindingSeverity::Info,
            _ => FindingSeverity::Error,
        },
        feature: "Daemon startup"@,
        context: label_of(context, uid),
        title: "Process access to the host ownership lock"@,
        evidence: match access {
            Ok((required, granted)) => "Effective UID "@ + text::decimal(uid as nat)
                + ". Visible host lock group GID "@ + text::decimal(required as nat)
                + ". Read/write permission "@ + (if granted {
                "granted"@
            } else {
                "denied"@
            })
                + ". Kernel access checks include effective credentials and ACLs. The lock was not acquired. This does not prove USB device or security-policy access."@,
            Err(e) => "Cannot verify host lock access with this process's credentials: "@ + e@
                + ". A missing/hidden lock or unavailable kernel access check is not a healthy result."@,
        },
        remediation: repair_of(context),
        guide: guide_of(context),
    }
}

/// The finding on the groups of the process, where `required` is the group of the lock.
pub open spec fn group_finding(
    context: InstallationContext,
    uid: u32,
    groups: Seq<u32>,
    configured: Result<Vec<u32>, String>,
    required: u32,
    granted: bool,
) -> FindingView {
    let evidence = "Effective process groups: "@ + summary_of(groups)
        + ". The required lock GID is "@ + text::decimal(required as nat) + "."@;
    let plain = FindingView {
        code: "runtime.groups"@,
        state: CheckState::Passed,
        severity: FindingSeverity::Info,
        feature: "Process credentials"@,
        context: label_of(context, uid),
        title: "Numeric group credentials"@,
        evidence,
        remediation: repair_of(context),
        guide: guide_of(context),
    };
    if groups.contains(required) {
        plain
    } else {
        match configured {
            Ok(list) => if list@.contains(required) {
                FindingView {
                    state: CheckState::Failed,
                    severity: FindingSeverity::Warning,
                    title: "Group membership changed after this process started"@,
                    evidence: evidence
                        + " This process has not picked up the account's group membership. Restart the login and service. For Distrobox, stop and re-enter the box too."@,
                    ..plain
                }
            } else if !granted {
                FindingView {
                    state: CheckState::Failed,
                    severity: FindingSeverity::Warning,
                    title: "The process lacks the host lock's numeric group"@,
                    evidence: evidence
                        + " Its account database does not include this visible GID either. Check host group setup and container group mappings."@,
                    ..plain
                }
            } else {
                FindingView { evidence: evidence + by_other_means(), ..plain }
            },
            Err(e) => if !granted {
                FindingView {
                    state: CheckState::Unavailable,
                    severity: FindingSeverity::Warning,
                    evidence: evidence + " Configured account groups could not be checked: "@ + e@,
                    ..plain
                }
            } else {
                FindingView { evidence: evidence + by_other_means(), ..plain }
            },
        }
    }
}

pub open spec fn by_other_means() -> Seq<char> {
    " Owner permissions or an ACL provide access. No group change is needed."@
}

/// The findings on the lock and, where it could be examined, on the groups.
pub open spec fn findings_of(
    context: InstallationContext,
    uid: u32,
    groups: Seq<u32>,
    configured: Result<Vec<u32>, String>,
    access: Result<(u32, bool), String>,
) -> Seq<FindingView> {
    match access {
        Ok((required, granted)) => seq![
            group_finding(context, uid, groups, configured, required, granted),
            lock_finding(context, uid, access),
        ],
        Err(_) => seq![lock_finding(context, uid, access)],
    }
}

fn contains(list: &Vec<u32>, n: u32) -> (r: bool)
    ensures
        r == list@.contains(n),
{
    let mut i: usize = 0;
    while i < list.len()
        invariant
            i <= list@.len(),
            forall|j: int| 0 <= j < i ==> list@[j] != n,
        decreases list@.len() - i,
    {
        if list[i] == n {
            assert(list@[i as int] == n);
            return true;
        }
        i += 1;
    }
    false
}

fn guide(context: &InstallationContext) -> (r: InstallationGuide)
    ensures
        r == guide_of(*context),
{
    if context.is_native() {
        InstallationGuide::ServiceModes
    } else {
        InstallationGuide::Distrobox
    }
}

fn examine_lock(
    context: &InstallationContext,
    uid: u32,
    access: &Result<(u32, bool), String>,
) -> (r: InstallationFinding)
    ensures
        r@ == lock_finding(*context, uid, *access),
{
    let mut lock = InstallationFinding {
        code: "runtime.lock_access".to_owned(),
        state: CheckState::Unavailable,
        severity: FindingSeverity::Error,
        feature: "Daemon startup".to_owned(),
        context: label(context, uid),
        title: "Process access to the host ownership lock".to_owned(),
        evidence: String::new(),
        remediation: repair(context).to_owned(),
        guide: guide(context),
    };
    match access {
        Ok((required, granted)) => {
            let mut evidence = "Effective UID ".to_owned();
            evidence.append(text::format_u64(uid as u64).as_str());
            evidence.append(". Visible host lock group GID ");
            evidence.append(text::format_u64(*required as u64).as_str());
            evidence.append(". Read/write permission ");
            if *granted {
                lock.state = CheckState::Passed;
                lock.severity = FindingSeverity::Info;
                evidence.append("granted");
            } else {
                lock.state = CheckState::Failed;
                evidence.append("denied");
            }
            evidence.append(
                ". Kernel access checks include effective credentials and ACLs. The lock was not acquired. This does not prove USB device or security-policy access.",
            );
            lock.evidence = evidence;
        },
        Err(e) => {
            let mut evidence =
                "Cannot verify host lock access with this process's credentials: ".to_owned();
            evidence.append(e.as_str());
            evidence.append(
                ". A missing/hidden lock or unavailable kernel access check is not a healthy result.",
            );
            lock.evidence = evidence;
        },
    }
    lock
}

fn examine_groups(
    context: &InstallationContext,
    uid: u32,
    groups: &Vec<u32>,
    configured: &Result<Vec<u32>, String>,
    required: u32,
    granted: bool,
) -> (r: InstallationFinding)
    ensures
        r@ == group_finding(*context, uid, groups@, *configured, required, granted),
{
    let mut evidence = "Effective process groups: ".to_owned();
    evidence.append(group_summary(groups).as_str());
    evidence.append(". The required lock GID is ");
    evidence.append(text::format_u64(required as u64).as_str());
    evidence.append(".");
    let mut state = CheckState::Passed;
    let mut severity = FindingSeverity::Info;
    let mut title = "Numeric group credentials".to_owned();
    if !contains(groups, required) {
        match configured {
            Ok(list) => {
                if contains(list, required) {
                    state = CheckState::Failed;
                    severity = FindingSeverity::Warning;
                    title = "Group membership changed after this process started".to_owned();
                    evidence.append(
                        " This process has not picked up the account's group membership. Restart the login and service. For Distrobox, stop and re-enter the box too.",
                    );
                } else if !granted {
                    state = CheckState::Failed;
                    severity = FindingSeverity::Warning;
                    title = "The process lacks the host lock's numeric group".to_owned();
                    evidence.append(
                        " Its account database does not include this visible GID either. Check host group setup and container group mappings.",
                    );
                } else {
                    evidence.append(
                        " Owner permissions or an ACL provide access. No group change is needed.",
                    );
                }
            },
            Err(e) => {
                if !granted {
                    state = CheckState::Unavailable;
                    severity = FindingSeverity::Warning;
                    evidence.append(" Configured account groups could not be checked: ");
                    evidence.append(e.as_str());
                } else {
                    evidence.append(
                        " Owner permissions or an ACL provide access. No group change is needed.",
                    );
                }
            },
        }
    }
    InstallationFinding {
        code: "runtime.groups".to_owned(),
        state,
        severity,
        feature: "Process credentials".to_owned(),
        context: label(context, uid),
        title,
        evidence,
        remediation: repair(context).to_owned(),
        guide: guide(context),
    }
}

/// The findings on the lock and, where it could be examined, on the groups: the process has `groups`,
/// its account is configured with others perhaps, and the lock has a group and grants access or not.
pub fn findings(
    context: &InstallationContext,
    uid: u32,
    groups: &Vec<u32>,
    configured: &Result<Vec<u32>, String>,
    access: &Result<(u32, bool), String>,
) -> (r: Vec<InstallationFinding>)
    ensures
        finding_views(r@) == findings_of(*context, uid, groups@, *configured, *access),
{
    let mut r: Vec<InstallationFinding> = Vec::new();
    match access {
        Ok((required, granted)) => {
            r.push(examine_groups(context, uid, groups, configured, *required, *granted));
        },
        Err(_) => {},
    }
    r.push(examine_lock(context, uid, access));
    assert(finding_views(r@) =~= findings_of(*context, uid, groups@, *configured, *access));
    r
}

/// A render node as it was found: what the system says of it, and the device file of that name.
pub struct RenderNode {
    pub name: String,
    pub role: Option<String>,
    pub owner: Result<String, String>,
    pub device: Result<FileKind, String>,
    pub granted: Result<bool, String>,
}

/// The name of a render node: `renderD` and a number.
pub open spec fn is_node_name(name: Seq<char>) -> bool {
    text::begins_with(name, "renderD"@) && name.len() > "renderD"@.len() && forall|i: int|
        "renderD"@.len() <= i < name.len() ==> text::is_digit(#[trigger] name[i])
}

/// What examining a render node gives.
pub enum NodeVerdict {
    Skipped,
    Granted,
    Denied(Seq<char>),
    Unknown(Seq<char>),
}

/// A host node that no session owns is examined. Others are passed over.
pub open spec fn node_verdict(node: RenderNode, nodes: Seq<char>) -> NodeVerdict {
    let p = path::join_of(nodes, node.name@);
    if !is_node_name(node.name@) {
        NodeVerdict::Skipped
    } else if !(node.role is Some && text::trimmed(node.role->0@) == "host"@) {
        NodeVerdict::Skipped
    } else {
        match node.owner {
            Err(e) => NodeVerdict::Unknown(p + ": cannot verify Hermes ownership: "@ + e@),
            Ok(owner) => if text::trimmed(owner@).len() > 0 {
                NodeVerdict::Skipped
            } else {
                match node.device {
                    Err(e) => NodeVerdict::Unknown(p + ": "@ + e@),
                    Ok(kind) => if kind != FileKind::CharDevice {
                        NodeVerdict::Unknown(p + ": "@ + "Not a DRM device node"@)
                    } else {
                        match node.granted {
                            Err(e) => NodeVerdict::Unknown(p + ": "@ + e@),
                            Ok(true) => NodeVerdict::Granted,
                            Ok(false) => NodeVerdict::Denied(p),
                        }
                    },
                }
            },
        }
    }
}

/// What the examined nodes amount to.
pub struct Tally {
    pub granted: nat,
    pub denied: Seq<Seq<char>>,
    pub unknown: Seq<Seq<char>>,
}

/// The first `n` entries. One that could not be read counts for nothing.
pub open spec fn tally(entries: Seq<Option<RenderNode>>, nodes: Seq<char>, n: int) -> Tally
    decreases n,
{
    if n <= 0 {
        Tally { granted: 0, denied: Seq::empty(), unknown: Seq::empty() }
    } else {
        let before = tally(entries, nodes, n - 1);
        match entries[n - 1] {
            None => before,
            Some(node) => match node_verdict(node, nodes) {
                NodeVerdict::Skipped => before,
                NodeVerdict::Granted => Tally { granted: before.granted + 1, ..before },
                NodeVerdict::Denied(p) => Tally { denied: before.denied.push(p), ..before },
                NodeVerdict::Unknown(e) => Tally { unknown: before.unknown.push(e), ..before },
            },
        }
    }
}

pub open spec fn ordered(list: Seq<Seq<char>>) -> Seq<Seq<char>> {
    order::sorted(list, list.len() as int)
}

pub open spec fn hermes_state(t: Tally) -> CheckState {
    if t.denied.len() > 0 {
        CheckState::Failed
    } else if t.unknown.len() > 0 {
        CheckState::Unavailable
    } else {
        CheckState::Passed
    }
}

pub open spec fn hermes_evidence(t: Tally, uid: u32) -> Seq<char> {
    if t.denied.len() > 0 {
        "Read/write access denied: "@ + text::joined(ordered(t.denied), ", "@)
            + ". Effective UID "@ + text::decimal(uid as nat) + ", including ACL masks."@
    } else if t.unknown.len() > 0 {
        text::joined(ordered(t.unknown), ". "@)
    } else {
        "Read/write permission granted for "@ + text::decimal(t.granted)
            + " host render node(s). Capture compatibility is checked at startup."@
    }
}

/// The finding on the render nodes, where any was examined.
pub open spec fn hermes_of(t: Tally, uid: u32) -> Option<FindingView> {
    if t.granted == 0 && t.denied.len() == 0 && t.unknown.len() == 0 {
        None
    } else {
        Some(
            FindingView {
                code: "runtime.hermes_access"@,
                state: hermes_state(t),
                severity: if hermes_state(t) == CheckState::Passed {
                    FindingSeverity::Info
                } else {
                    FindingSeverity::Warning
                },
                feature: "Hermes desktop capture"@,
                context: "Process UID "@ + text::decimal(uid as nat),
                title: "Hermes host render access"@,
                evidence: hermes_evidence(t, uid),
                remediation: if hermes_state(t) == CheckState::Passed {
                    ""@
                } else {
                    "Install the current 60-lianli.rules on the host, run sudo udevadm control --reload-rules, then reboot. It includes the Hermes host ACL fix. Distrobox-only installation is insufficient. If access still fails, follow the Hermes permissions section in the setup guide."@
                },
                guide: InstallationGuide::Troubleshooting,
            },
        )
    }
}

/// How many entries are looked at.
pub open spec fn counted(entries: Seq<Option<RenderNode>>) -> int {
    if entries.len() < MAX_ENTRIES {
        entries.len() as int
    } else {
        MAX_ENTRIES as int
    }
}

fn node_name(name: &str) -> (r: bool)
    ensures
        r == is_node_name(name@),
{
    match text::strip_prefix(name, "renderD") {
        None => false,
        Some(rest) => {
            let v = text::chars(rest.as_str());
            let ghost at = "renderD"@.len() as int;
            if v.len() == 0 {
                return false;
            }
            let mut i: usize = 0;
            while i < v.len()
                invariant
                    v@ == name@.skip(at),
                    at == "renderD"@.len(),
                    at < name@.len(),
                    text::begins_with(name@, "renderD"@),
                    i <= v@.len(),
                    forall|j: int| at <= j < at + i ==> text::is_digit(#[trigger] name@[j]),
                decreases v@.len() - i,
            {
                assert(v@[i as int] == name@[at + i]);
                if !text::digit(v[i]) {
                    assert(!text::is_digit(name@[at + i]));
                    return false;
                }
                i += 1;
            }
            true
        },
    }
}

/// What was examined so far.
struct Counts {
    granted: u64,
    denied: Vec<String>,
    unknown: Vec<String>,
}

impl Counts {
    spec fn view(self) -> Tally {
        Tally {
            granted: self.granted as nat,
            denied: texts(self.denied@),
            unknown: texts(self.unknown@),
        }
    }

    fn refuse(&mut self, p: String)
        ensures
            final(self).view() == (Tally {
                denied: old(self).view().denied.push(p@),
                ..old(self).view()
            }),
            final(self).granted == old(self).granted,
    {
        proof {
            text::texts_push(self.denied@, p);
        }
        self.denied.push(p);
    }

    fn doubt(&mut self, p: String, e: &str)
        ensures
            final(self).view() == (Tally {
                unknown: old(self).view().unknown.push(p@ + ": "@ + e@),
                ..old(self).view()
            }),
            final(self).granted == old(self).granted,
    {
        let mut text = p;
        text.append(": ");
        text.append(e);
        proof {
            text::texts_push(self.unknown@, text);
        }
        self.unknown.push(text);
    }

    fn examine(&mut self, node: &RenderNode, nodes: &str)
        requires
            old(self).granted < u64::MAX,
        ensures
            final(self).view() == match node_verdict(*node, nodes@) {
                NodeVerdict::Skipped => old(self).view(),
                NodeVerdict::Granted => Tally {
                    granted: old(self).view().granted + 1,
                    ..old(self).view()
                },
                NodeVerdict::Denied(p) => Tally {
                    denied: old(self).view().denied.push(p),
                    ..old(self).view()
                },
                NodeVerdict::Unknown(e) => Tally {
                    unknown: old(self).view().unknown.push(e),
                    ..old(self).view()
                },
            },
            final(self).granted <= old(self).granted + 1,
    {
        if !node_name(node.name.as_str()) {
            return;
        }
        let hosted = match &node.role {
            Some(role) => text::eq(text::trim(role.as_str()).as_str(), "host"),
            None => false,
        };
        if !hosted {
            return;
        }
        let p = path::join(nodes, node.name.as_str());
        match &node.owner {
            Err(e) => {
                let mut words = "cannot verify Hermes ownership: ".to_owned();
                words.append(e.as_str());
                proof {
                    reveal_strlit(": ");
                    reveal_strlit("cannot verify Hermes ownership: ");
                    reveal_strlit(": cannot verify Hermes ownership: ");
                }
                assert(p@ + ": "@ + ("cannot verify Hermes ownership: "@ + e@) =~= p@
                    + ": cannot verify Hermes ownership: "@ + e@);
                self.doubt(p, words.as_str());
            },
            Ok(owner) => {
                if text::chars(text::trim(owner.as_str()).as_str()).len() > 0 {
                    return;
                }
                match &node.device {
                    Err(e) => {
                        self.doubt(p, e.as_str());
                    },
                    Ok(kind) => {
                        if *kind != FileKind::CharDevice {
                            self.doubt(p, "Not a DRM device node");
                            return;
                        }
                        match &node.granted {
                            Err(e) => {
                                self.doubt(p, e.as_str());
                            },
                            Ok(true) => {
                                self.granted = self.granted + 1;
                            },
                            Ok(false) => {
                                self.refuse(p);
                            },
                        }
                    },
                }
            },
        }
    }
}

/// The value of an optional finding.
pub open spec fn finding_of(finding: Option<InstallationFinding>) -> Option<FindingView> {
    match finding {
        Some(f) => Some(f@),
        None => None,
    }
}

/// Access to the render nodes of the host: `entries` are those of the system's directory, and
/// `nodes` is the directory of the device files.
pub fn hermes_access(entries: &Vec<Option<RenderNode>>, nodes: &str, uid: u32) -> (r: Option<
    InstallationFinding,
>)
    ensures
        finding_of(r) == hermes_of(tally(entries@, nodes@, counted(entries@)), uid),
{
    let n: usize = if entries.len() < MAX_ENTRIES {
        entries.len()
    } else {
        MAX_ENTRIES
    };
    let mut counts = Counts { granted: 0, denied: Vec::new(), unknown: Vec::new() };
    assert(texts(counts.denied@) =~= Seq::<Seq<char>>::empty());
    let mut i: usize = 0;
    while i < n
        invariant
            n <= entries@.len(),
            n <= MAX_ENTRIES,
            i <= n,
            counts.granted <= i,
            counts.view() == tally(entries@, nodes@, i as int),
        decreases n - i,
    {
        match &entries[i] {
            None => {},
            Some(node) => {
                counts.examine(node, nodes);
            },
        }
        i += 1;
    }
    let ghost t = tally(entries@, nodes@, counted(entries@));
    assert(t == counts.view());
    assert(t.denied.len() == counts.denied@.len());
    assert(t.unknown.len() == counts.unknown@.len());
    if counts.granted == 0 && counts.denied.len() == 0 && counts.unknown.len() == 0 {
        return None;
    }
    let mut state = CheckState::Passed;
    let mut evidence = "Read/write permission granted for ".to_owned();
    if counts.denied.len() > 0 {
        state = CheckState::Failed;
        evidence = "Read/write access denied: ".to_owned();
        evidence.append(text::join(&order::sort_texts(&counts.denied), ", ").as_str());
        evidence.append(". Effective UID ");
        evidence.append(text::format_u64(uid as u64).as_str());
        evidence.append(", including ACL masks.");
    } else if counts.unknown.len() > 0 {
        state = CheckState::Unavailable;
        evidence = text::join(&order::sort_texts(&counts.unknown), ". ");
    } else {
        evidence.append(text::format_u64(counts.granted).as_str());
        evidence.append(" host render node(s). Capture compatibility is checked at startup.");
    }
    let passed = state == CheckState::Passed;
    let mut context = "Process UID ".to_owned();
    context.append(text::format_u64(uid as u64).as_str());
    Some(
        InstallationFinding {
            code: "runtime.hermes_access".to_owned(),
            state,
            severity: if passed {
                FindingSeverity::Info
            } else {
                FindingSeverity::Warning
            },
            feature: "Hermes desktop capture".to_owned(),
            context,
            title: "Hermes host render access".to_owned(),
            evidence,
            remediation: if passed {
                "".to_owned()
            } else {
                "Install the current 60-lianli.rules on the host, run sudo udevadm control --reload-rules, then reboot. It includes the Hermes host ACL fix. Distrobox-only installation is insufficient. If access still fails, follow the Hermes permissions section in the setup guide.".to_owned()
            },
            guide: InstallationGuide::Troubleshooting,
        },
    )
}

/// The fingerprint of a list of groups.
pub fn group_fingerprint(groups: &Vec<u32>) -> (r: String)
    ensures
        r@ == digest::fingerprint(digest::le32s(groups@)),
{
    let mut hasher = Hasher::new();
    hasher.update_le32s(groups.as_slice());
    assert(Seq::<u8>::empty() + digest::le32s(groups@) =~= digest::le32s(groups@));
    hasher.finish()
}

/// What a helper reports of the process that it runs as.
#[derive(Clone, Debug)]
pub struct Report {
    pub version: String,
    pub uid: u32,
    pub gid: u32,
    pub groups_fingerprint: String,
    pub hid_backend: Option<HidBackend>,
    pub findings: Vec<InstallationFinding>,
}

/// What an inspection finds: the lock and the groups, and then USB access where a backend was asked
/// about, or else the render nodes.
pub open spec fn inspected_of(
    lock: Seq<FindingView>,
    usb: Option<(HidBackend, InstallationFinding)>,
    entries: Option<Seq<Option<RenderNode>>>,
    uid: u32,
) -> Seq<FindingView> {
    match usb {
        Some((_, finding)) => lock.push(finding@),
        None => match entries {
            None => lock,
            Some(entries) => match hermes_of(tally(entries, "/dev/dri"@, counted(entries)), uid) {
                Some(finding) => lock.push(finding),
                None => lock,
            },
        },
    }
}

/// The report of this process. `usb` is the backend that was asked about and what was found of it,
/// and `entries` are the render nodes where they could be listed.
pub fn inspect(
    version: &str,
    context: &InstallationContext,
    uid: u32,
    gid: u32,
    groups: &Vec<u32>,
    configured: &Result<Vec<u32>, String>,
    access: &Result<(u32, bool), String>,
    usb: Option<(HidBackend, InstallationFinding)>,
    entries: &Option<Vec<Option<RenderNode>>>,
) -> (r: Report)
    ensures
        r.version@ == version@,
        r.uid == uid,
        r.gid == gid,
        r.groups_fingerprint@ == digest::fingerprint(digest::le32s(groups@)),
        r.hid_backend == (match usb {
            Some((backend, _)) => Some(backend),
            None => None,
        }),
        finding_views(r.findings@) == inspected_of(
            findings_of(*context, uid, groups@, *configured, *access),
            usb,
            match *entries {
                Some(entries) => Some(entries@),
                None => None,
            },
            uid,
        ),
{
    let mut found = findings(context, uid, groups, configured, access);
    let ghost lock = finding_views(found@);
    let mut backend: Option<HidBackend> = None;
    match usb {
        Some((asked, finding)) => {
            backend = Some(asked);
            found.push(finding);
            assert(finding_views(found@) =~= lock.push(finding@));
        },
        None => match entries {
            Some(entries) => match hermes_access(entries, "/dev/dri", uid) {
                Some(finding) => {
                    found.push(finding);
                    assert(finding_views(found@) =~= lock.push(finding@));
                },
                None => {},
            },
            None => {},
        },
    }
    Report {
        version: version.to_owned(),
        uid,
        gid,
        groups_fingerprint: group_fingerprint(groups),
        hid_backend: backend,
        findings: found,
    }
}

/// A report that a process of the same version makes of itself is one that it takes back.
pub proof fn own_reports_are_accepted(
    report: Report,
    version: Seq<char>,
    backend: Option<HidBackend>,
    uid: u32,
    gid: u32,
    groups: Seq<u32>,
)
    requires
        report.version@ == version,
        report.hid_backend == backend,
        report.uid == uid,
        report.gid == gid,
        report.groups_fingerprint@ == digest::fingerprint(digest::le32s(groups)),
        report.findings@.len() <= MAX_FINDINGS,
    ensures
        report_complaint(report, version, backend, uid, gid, groups) is None,
{
}

/// The arguments of the helper.
pub open spec fn report_arguments(
    backend: Option<HidBackend>,
    media_tools: bool,
    state_directory: Option<Seq<char>>,
) -> Seq<Seq<char>> {
    seq!["inspect-runtime"@] + (if media_tools {
        seq!["--media-tools"@]
    } else {
        Seq::empty()
    }) + (match state_directory {
        Some(p) => seq!["--state-directory"@, p],
        None => Seq::empty(),
    }) + (match backend {
        Some(b) => seq!["--hid-backend"@, b.word_spec()],
        None => Seq::empty(),
    })
}

pub fn arguments(backend: Option<HidBackend>, media_tools: bool, state_directory: Option<&str>) -> (r:
    Vec<String>)
    ensures
        texts(r@) == report_arguments(
            backend,
            media_tools,
            match state_directory {
                Some(p) => Some(p@),
                None => None,
            },
        ),
{
    let mut args: Vec<String> = Vec::new();
    args.push("inspect-runtime".to_owned());
    if media_tools {
        args.push("--media-tools".to_owned());
    }
    match state_directory {
        Some(p) => {
            args.push("--state-directory".to_owned());
            args.push(p.to_owned());
        },
        None => {},
    }
    match backend {
        Some(b) => {
            args.push("--hid-backend".to_owned());
            args.push(b.word().to_owned());
        },
        None => {},
    }
    assert(texts(args@) =~= report_arguments(
        backend,
        media_tools,
        match state_directory {
            Some(p) => Some(p@),
            None => None,
        },
    ));
    args
}

/// The helper must have ended well.
pub fn check_output(output: &Output) -> (r: Result<(), String>)
    ensures
        complaint(r) == if output.code == Some(0i32) {
            None
        } else {
            Some("Runtime helper failed: "@ + text::trimmed(output.stderr@))
        },
{
    if output.success() {
        return Ok(());
    }
    let mut e = "Runtime helper failed: ".to_owned();
    e.append(text::trim(output.stderr.as_str()).as_str());
    Err(e)
}

pub open spec fn report_complaint(
    report: Report,
    version: Seq<char>,
    backend: Option<HidBackend>,
    uid: u32,
    gid: u32,
    groups: Seq<u32>,
) -> Option<Seq<char>> {
    if !(report.version@ == version && report.hid_backend == backend && report.uid == uid
        && report.gid == gid && report.groups_fingerprint@ == digest::fingerprint(
        digest::le32s(groups),
    )) {
        Some(
            "The runtime helper version or inherited account credentials differ from this process"@,
        )
    } else if report.findings@.len() > MAX_FINDINGS {
        Some("Runtime helper returned too many findings"@)
    } else {
        None
    }
}

/// Whether a report comes from a helper of this version that ran with the credentials of this process.
pub fn check_report(
    report: &Report,
    version: &str,
    backend: Option<HidBackend>,
    uid: u32,
    gid: u32,
    groups: &Vec<u32>,
) -> (r: Result<(), String>)
    ensures
        complaint(r) == report_complaint(*report, version@, backend, uid, gid, groups@),
{
    let same_backend = match (report.hid_backend, backend) {
        (Some(a), Some(b)) => a == b,
        (None, None) => true,
        _ => false,
    };
    if !(text::eq(report.version.as_str(), version) && same_backend && report.uid == uid
        && report.gid == gid && text::eq(
        report.groups_fingerprint.as_str(),
        group_fingerprint(groups).as_str(),
    )) {
        return Err(
            "The runtime helper version or inherited account credentials differ from this process".to_owned(),
        );
    }
    if report.findings.len() > MAX_FINDINGS {
        return Err("Runtime helper returned too many findings".to_owned());
    }
    Ok(())
}

/// The one slot for checks that may hang. A check that was given up keeps it until its worker ends.
pub struct Slot {
    pub running: bool,
}

impl Slot {
    pub fn enter(&mut self) -> (r: Result<(), String>)
        ensures
            final(self).running,
            complaint(r) == if old(self).running {
                Some(
                    "A runtime diagnostic worker is still running. Repair unavailable storage and Recheck"@,
                )
            } else {
                None
            },
    {
        if self.running {
            return Err(
                "A runtime diagnostic worker is still running. Repair unavailable storage and Recheck".to_owned(),
            );
        }
        self.running = true;
        Ok(())
    }

    /// The worker ended.
    pub fn leave(&mut self)
        ensures
            !final(self).running,
    {
        self.running = false;
    }
}

/// The result of a check in the slot, where it came in time, or why none came.
pub fn conclude<T>(result: Result<Result<T, String>, String>) -> (r: Result<T, String>)
    ensures
        match result {
            Ok(result) => r == result,
            Err(reason) => r matches Err(e) && e@
                == "Runtime checks did not finish. Storage or account services may be unavailable. Repair them and Recheck: "@
                + reason@,
        },
{
    match result {
        Ok(result) => result,
        Err(e) => Err(
            text::worded(
                "Runtime checks did not finish. Storage or account services may be unavailable. Repair them and Recheck: ",
                e.as_str(),
            ),
        ),
    }
}

/// A denied node is reported as a failure, and no doubt about another one hides it.
pub proof fn denied_nodes_are_reported(t: Tally, uid: u32)
    requires
        t.denied.len() > 0,
    ensures
        hermes_of(t, uid) matches Some(finding) && finding.state == CheckState::Failed
            && finding.severity == FindingSeverity::Warning,
{
}

/// A lock that could not be examined never counts as healthy.
pub proof fn unexamined_locks_are_not_healthy(
    context: InstallationContext,
    uid: u32,
    groups: Seq<u32>,
    configured: Result<Vec<u32>, String>,
    access: Result<(u32, bool), String>,
)
    ensures
        findings_of(context, uid, groups, configured, access).last().state == CheckState::Passed
            <==> (access matches Ok((_, granted)) && granted),
{
}

/// What speaks against a report, by how the helper ended and what it printed.
pub open spec fn collected_complaint(
    output: Output,
    read: Result<Report, String>,
    version: Seq<char>,
    backend: Option<HidBackend>,
    uid: u32,
    gid: u32,
    groups: Seq<u32>,
) -> Option<Seq<char>> {
    if output.code != Some(0i32) {
        Some("Runtime helper failed: "@ + text::trimmed(output.stderr@))
    } else {
        match read {
            Err(e) => Some(e@),
            Ok(report) => report_complaint(report, version, backend, uid, gid, groups),
        }
    }
}

/// The report of a helper, by how that ended and what it printed.
pub fn collect_report(
    output: &Output,
    read: Result<Report, String>,
    version: &str,
    backend: Option<HidBackend>,
    uid: u32,
    gid: u32,
    groups: &Vec<u32>,
) -> (r: Result<Report, String>)
    ensures
        match r {
            Ok(report) => collected_complaint(
                *output,
                read,
                version@,
                backend,
                uid,
                gid,
                groups@,
            ) is None && read == Ok::<Report, String>(report),
            Err(e) => collected_complaint(*output, read, version@, backend, uid, gid, groups@)
                == Some(e@),
        },
{
    check_output(output)?;
    match read {
        Err(e) => Err(e),
        Ok(report) => {
            check_report(&report, version, backend, uid, gid, groups)?;
            Ok(report)
        },
    }
}

/// The groups of the process and the lock are judged by what they are: where the process is in the
/// group of the lock nothing is wrong with its groups, and where it is not, that is a failure exactly
/// if a new login would bring the group, or if access is denied and the account is known not to have
/// it. Where access is denied and the account cannot be asked, nothing is known. All else is in order
/// as long as access is granted.
pub proof fn groups_fail_only_where_a_needed_one_is_missing(
    context: InstallationContext,
    uid: u32,
    groups: Seq<u32>,
    configured: Result<Vec<u32>, String>,
    required: u32,
    granted: bool,
)
    ensures
        ({
            let found = findings_of(context, uid, groups, configured, Ok((required, granted)));
            let member = exists|i: int| 0 <= i < groups.len() && groups[i] == required;
            let promised = configured is Ok && exists|i: int|
                0 <= i < configured->Ok_0@.len() && configured->Ok_0@[i] == required;
            &&& found.len() == 2
            &&& found[0].code == "runtime.groups"@
            &&& found[1].code == "runtime.lock_access"@
            &&& member ==> found[0].state == CheckState::Passed
            &&& found[0].state == CheckState::Failed <==> !member && (promised || (configured is Ok
                && !granted))
            &&& found[0].state == CheckState::Unavailable <==> !member && configured is Err && !granted
            &&& found[0].state == CheckState::Passed <==> found[0].severity == FindingSeverity::Info
            &&& found[0].state != CheckState::Passed <==> found[0].severity
                == FindingSeverity::Warning
            &&& found[0].state != CheckState::NotApplicable
            &&& found[1].state == (if granted {
                CheckState::Passed
            } else {
                CheckState::Failed
            })
            &&& found[1].severity == (if granted {
                FindingSeverity::Info
            } else {
                FindingSeverity::Error
            })
        }),
{
    assert(groups.contains(required) <==> exists|i: int|
        0 <= i < groups.len() && groups[i] == required);
}

/// Where the lock cannot be examined, that is the only finding, and it is an error that says so and
/// keeps the reason.
pub proof fn unexamined_locks_are_the_only_finding(
    context: InstallationContext,
    uid: u32,
    groups: Seq<u32>,
    configured: Result<Vec<u32>, String>,
    reason: String,
)
    ensures
        ({
            let found = findings_of(context, uid, groups, configured, Err(reason));
            &&& found.len() == 1
            &&& found[0].code == "runtime.lock_access"@
            &&& found[0].state == CheckState::Unavailable
            &&& found[0].severity == FindingSeverity::Error
            &&& exists|before: Seq<char>, after: Seq<char>|
                found[0].evidence == #[trigger] (before + reason@ + after)
        }),
{
}

/// A render node is examined exactly where it has the name of one, belongs to the host, and no session
/// owns it. It is granted where it is a device that may be read and written, denied where it may
/// not, and in doubt where that could not be found out.
pub proof fn free_host_nodes_are_examined(node: RenderNode, nodes: Seq<char>)
    ensures
        ({
            let found = node_verdict(node, nodes);
            let ours = is_node_name(node.name@) && node.role is Some && text::trimmed(node.role->0@)
                == "host"@;
            let free = ours && node.owner is Ok && text::trimmed(node.owner->Ok_0@).len() == 0;
            let device = free && node.device is Ok && node.device->Ok_0 == FileKind::CharDevice;
            &&& found is Granted <==> device && node.granted == Ok::<bool, String>(true)
            &&& found is Denied <==> device && node.granted == Ok::<bool, String>(false)
            &&& found is Skipped <==> !ours || (node.owner is Ok && !free)
            &&& found matches NodeVerdict::Denied(p) ==> p == path::join_of(nodes, node.name@)
        }),
{
}

/// Render nodes have names of digits behind a fixed beginning.
pub proof fn nodes_are_named_by_a_number(name: Seq<char>, digits: Seq<char>)
    ensures
        is_node_name("renderD"@ + digits) <==> digits.len() > 0 && forall|i: int|
            0 <= i < digits.len() ==> text::is_digit(#[trigger] digits[i]),
        is_node_name(name) ==> name == "renderD"@ + name.skip("renderD"@.len() as int),
{
    let prefix = "renderD"@;
    let whole = prefix + digits;
    assert(whole.take(prefix.len() as int) =~= prefix);
    if is_node_name(whole) {
        assert forall|i: int| 0 <= i < digits.len() implies text::is_digit(#[trigger] digits[i]) by {
            assert(text::is_digit(whole[prefix.len() + i]));
        }
    }
    if digits.len() > 0 && (forall|i: int|
        0 <= i < digits.len() ==> text::is_digit(#[trigger] digits[i])) {
        assert forall|i: int| prefix.len() <= i < whole.len() implies text::is_digit(
            #[trigger] whole[i],
        ) by {
            assert(whole[i] == digits[i - prefix.len()]);
        }
    }
    if is_node_name(name) {
        assert(name =~= prefix + name.skip(prefix.len() as int));
    }
}

/// Every node that was examined is counted, once and for what it was.
pub proof fn nodes_are_counted_once(entries: Seq<Option<RenderNode>>, nodes: Seq<char>, n: int)
    requires
        0 <= n <= entries.len(),
    ensures
        ({
            let t = tally(entries, nodes, n);
            &&& t.granted > 0 <==> exists|i: int|
                0 <= i < n && (#[trigger] entries[i]) is Some && node_verdict(
                    entries[i]->0,
                    nodes,
                ) is Granted
            &&& t.denied.len() > 0 <==> exists|i: int|
                0 <= i < n && (#[trigger] entries[i]) is Some && node_verdict(
                    entries[i]->0,
                    nodes,
                ) is Denied
            &&& t.unknown.len() > 0 <==> exists|i: int|
                0 <= i < n && (#[trigger] entries[i]) is Some && node_verdict(
                    entries[i]->0,
                    nodes,
                ) is Unknown
        }),
    decreases n,
{
    if n > 0 {
        nodes_are_counted_once(entries, nodes, n - 1);
        let last = entries[n - 1];
        if last is Some {
            assert(last == entries[n - 1]);
        }
    }
}

/// There is a finding on the render nodes exactly where any was examined. It passes where all were
/// granted, fails where any was denied, and is open otherwise.
pub proof fn render_nodes_pass_where_all_are_granted(t: Tally, uid: u32)
    ensures
        hermes_of(t, uid) is None <==> t.granted == 0 && t.denied.len() == 0 && t.unknown.len() == 0,
        hermes_of(t, uid) matches Some(found) ==> {
            &&& found.code == "runtime.hermes_access"@
            &&& found.state == CheckState::Failed <==> t.denied.len() > 0
            &&& found.state == CheckState::Unavailable <==> t.denied.len() == 0 && t.unknown.len() > 0
            &&& found.state == CheckState::Passed <==> t.denied.len() == 0 && t.unknown.len() == 0
            &&& found.severity == FindingSeverity::Info <==> found.state == CheckState::Passed
            &&& found.severity == FindingSeverity::Warning <==> found.state != CheckState::Passed
        },
{
}

/// An inspection finds all that the lock and the groups gave, and behind that at most one finding more:
/// on USB access where that was asked about, else on the render nodes.
pub proof fn inspections_keep_every_finding(
    lock: Seq<FindingView>,
    usb: Option<(HidBackend, InstallationFinding)>,
    entries: Option<Seq<Option<RenderNode>>>,
    uid: u32,
)
    ensures
        ({
            let all = inspected_of(lock, usb, entries, uid);
            &&& all.take(lock.len() as int) == lock
            &&& lock.len() <= all.len() <= lock.len() + 1
            &&& usb matches Some((_, finding)) ==> all == lock.push(finding@)
            &&& usb is None && entries is None ==> all == lock
            &&& usb is None && entries is Some ==> (all.len() == lock.len() + 1 <==> hermes_of(
                tally(entries->0, "/dev/dri"@, counted(entries->0)),
                uid,
            ) is Some)
        }),
{
    let all = inspected_of(lock, usb, entries, uid);
    assert(all.take(lock.len() as int) =~= lock);
}

/// A report is accepted exactly where the helper succeeded and what it printed is a report of this
/// version, backend and account with its groups, with no more than sixteen findings.
pub proof fn reports_are_of_this_process(
    output: Output,
    read: Result<Report, String>,
    version: Seq<char>,
    backend: Option<HidBackend>,
    uid: u32,
    gid: u32,
    groups: Seq<u32>,
)
    ensures
        collected_complaint(output, read, version, backend, uid, gid, groups) is None <==> {
            let report = read->Ok_0;
            &&& output.code == Some(0i32)
            &&& read is Ok
            &&& report.version@ == version
            &&& report.hid_backend == backend
            &&& report.uid == uid
            &&& report.gid == gid
            &&& report.groups_fingerprint@ == digest::fingerprint(digest::le32s(groups))
            &&& report.findings@.len() <= 16
        },
{
}

/// Backends are told apart by their words, and each word gives its backend back.
pub proof fn backends_are_named(value: Seq<char>, backend: HidBackend)
    ensures
        backend_of(backend.word_spec()) == Ok::<HidBackend, Seq<char>>(backend),
        backend_of(value) == Ok::<HidBackend, Seq<char>>(backend) <==> value == backend.word_spec(),
        HidBackend::Hidraw.word_spec() == "hidraw"@,
        HidBackend::Rusb.word_spec() == "rusb"@,
{
    reveal_strlit("hidraw");
    reveal_strlit("rusb");
    assert("hidraw"@.len() == 6);
    assert("rusb"@.len() == 4);
}

/// The helper is asked for what is wanted and for nothing else.
pub proof fn helpers_are_asked_for_what_is_wanted(
    backend: Option<HidBackend>,
    media_tools: bool,
    state_directory: Option<Seq<char>>,
)
    ensures
        ({
            let asked = report_arguments(backend, media_tools, state_directory);
            &&& asked[0] == "inspect-runtime"@
            &&& asked.len() == 1 + (if media_tools {
                1int
            } else {
                0int
            }) + (if state_directory is Some {
                2int
            } else {
                0int
            }) + (if backend is Some {
                2int
            } else {
                0int
            })
            &&& backend matches Some(b) ==> asked.last() == b.word_spec()
            &&& media_tools ==> asked[1] == "--media-tools"@
            &&& state_directory matches Some(p) ==> asked.contains(p)
        }),
{
    let asked = report_arguments(backend, media_tools, state_directory);
    if state_directory is Some {
        let i = if media_tools {
            3int
        } else {
            2int
        };
        assert(asked[i] == state_directory->0);
    }
}

/// The kernel refuses access by exactly three numbers. The process is told of by its account, and in a
/// box by the box as well.
pub proof fn processes_are_named_by_their_account(name: String, uid: u32, number: i32)
    ensures
        is_refusal(number) <==> number == 1 || number == 13 || number == 30,
        label_of(InstallationContext::Native, uid) == "Native process UID "@ + text::decimal(
            uid as nat,
        ),
        label_of(InstallationContext::Distrobox { name }, uid) == "Distrobox "@ + name@
            + ", process UID "@ + text::decimal(uid as nat),
        guide_of(InstallationContext::Native) == InstallationGuide::ServiceModes,
        guide_of(InstallationContext::Distrobox { name }) == InstallationGuide::Distrobox,
{
}

/// The groups are told in their order, all of them where they are no more than sixteen.
pub proof fn groups_are_told_in_order(groups: Seq<u32>, n: int, i: int)
    requires
        0 <= i < n <= groups.len(),
    ensures
        digits_of(groups, n).len() == n,
        digits_of(groups, n)[i] == text::decimal(groups[i] as nat),
        groups.len() <= 16 ==> summary_of(groups) == text::joined(
            digits_of(groups, groups.len() as int),
            ", "@,
        ),
{
}

/// Access to the lock passes exactly where the kernel grants it, fails where it denies it, and is
/// unknown where it could not be asked.
pub proof fn lock_access_is_what_the_kernel_says(
    context: InstallationContext,
    uid: u32,
    access: Result<(u32, bool), String>,
)
    ensures
        ({
            let found = lock_finding(context, uid, access);
            &&& found.state == CheckState::Unavailable <==> access is Err
            &&& forall|required: u32|
                access == Ok::<(u32, bool), String>((required, true)) ==> found.state
                    == CheckState::Passed && found.severity == FindingSeverity::Info
            &&& forall|required: u32|
                access == Ok::<(u32, bool), String>((required, false)) ==> found.state
                    == CheckState::Failed && found.severity == FindingSeverity::Error
            &&& found.code == "runtime.lock_access"@
            &&& found.context == label_of(context, uid)
        }),
{
}

} // verus!
